use vstd::prelude::*;

use crate::walker::views;

verus! {

/// For each `script` element of the HTML document `doc`, in document order, its `src`
/// attribute where it has one.
pub uninterp spec fn script_sources_of(doc: Seq<char>) -> Seq<Option<Seq<char>>>;

/// The serialization of the URL that `reference` resolves to against the absolute URL
/// `base`, or `None` where either does not parse.
pub uninterp spec fn joined_of(base: Seq<char>, reference: Seq<char>) -> Option<Seq<char>>;

pub open spec fn optional_view(o: Option<String>) -> Option<Seq<char>> {
    match o {
        Some(s) => Some(s@),
        None => None,
    }
}

pub open spec fn optional_views(v: Seq<Option<String>>) -> Seq<Option<Seq<char>>> {
    v.map_values(|o: Option<String>| optional_view(o))
}

/// Relies on scraper: `Html::parse_document` parses the document, `Selector::parse`
/// builds the `script` selector, `select` walks the matching elements in document order
/// and `attr` reads their `src` attribute.
#[verifier::external_body]
fn script_elements(doc: &str) -> (r: Vec<Option<String>>)
    ensures
        optional_views(r@) == script_sources_of(doc@),
{
    let html = scraper::Html::parse_document(doc);
    let selector = scraper::Selector::parse("script").unwrap();
    html.root_element().select(&selector).map(|e| e.attr("src").map(String::from)).collect()
}

/// Relies on url: `Url::parse` reads the base, `Url::join` resolves the reference
/// against it, and the result is the joined URL's serialization.
#[verifier::external_body]
fn join_reference(base: &str, reference: &str) -> (r: Option<String>)
    ensures
        optional_view(r) == joined_of(base@, reference@),
{
    match url::Url::parse(base) {
        Ok(b) => match b.join(reference) {
            Ok(u) => Some(String::from(u)),
            Err(_) => None,
        },
        Err(_) => None,
    }
}

/// The `src` values present among the elements, in order.
pub open spec fn present_sources(elements: Seq<Option<Seq<char>>>) -> Seq<Seq<char>>
    decreases elements.len(),
{
    if elements.len() == 0 {
        seq![]
    } else {
        let rest = present_sources(elements.subrange(0, elements.len() - 1));
        match elements.last() {
            Some(s) => rest.push(s),
            None => rest,
        }
    }
}

/// The sources resolved against `base`, in order, those that do not resolve dropped.
pub open spec fn resolved(base: Seq<char>, sources: Seq<Seq<char>>) -> Seq<Seq<char>>
    decreases sources.len(),
{
    if sources.len() == 0 {
        seq![]
    } else {
        let rest = resolved(base, sources.subrange(0, sources.len() - 1));
        match joined_of(base, sources.last()) {
            Some(u) => rest.push(u),
            None => rest,
        }
    }
}

/// Keeps the `src` attributes that are present; elements without one are inline
/// scripts and are skipped.
pub fn source_attributes(elements: &Vec<Option<String>>) -> (r: Vec<String>)
    ensures
        views(r@) == present_sources(optional_views(elements@)),
{
    let ghost all = optional_views(elements@);
    let mut out: Vec<String> = Vec::new();
    let mut i: usize = 0;
    assert(all.subrange(0, 0) =~= Seq::<Option<Seq<char>>>::empty());
    assert(views(out@) =~= Seq::<Seq<char>>::empty());
    while i < elements.len()
        invariant
            i <= elements@.len(),
            all == optional_views(elements@),
            views(out@) == present_sources(all.subrange(0, i as int)),
        decreases elements@.len() - i,
    {
        let ghost prefix = all.subrange(0, i as int + 1);
        assert(prefix.subrange(0, i as int) =~= all.subrange(0, i as int));
        assert(prefix.last() == optional_view(elements@[i as int]));
        match &elements[i] {
            Some(s) => {
                let c = s.clone();
                assert(views(out@.push(c)) =~= views(out@).push(c@));
                out.push(c);
            },
            None => {},
        }
        i = i + 1;
    }
    assert(all.subrange(0, elements@.len() as int) =~= all);
    out
}

/// Resolves each source against the absolute URL `base`, dropping those that do not
/// resolve; duplicates are kept.
pub fn resolve_references(base: &str, sources: &Vec<String>) -> (r: Vec<String>)
    ensures
        views(r@) == resolved(base@, views(sources@)),
{
    let ghost all = views(sources@);
    let mut out: Vec<String> = Vec::new();
    let mut i: usize = 0;
    assert(all.subrange(0, 0) =~= Seq::<Seq<char>>::empty());
    assert(views(out@) =~= Seq::<Seq<char>>::empty());
    while i < sources.len()
        invariant
            i <= sources@.len(),
            all == views(sources@),
            views(out@) == resolved(base@, all.subrange(0, i as int)),
        decreases sources@.len() - i,
    {
        let ghost prefix = all.subrange(0, i as int + 1);
        assert(prefix.subrange(0, i as int) =~= all.subrange(0, i as int));
        assert(prefix.last() == sources@[i as int]@);
        match join_reference(base, sources[i].as_str()) {
            Some(u) => {
                assert(views(out@.push(u)) =~= views(out@).push(u@));
                out.push(u);
            },
            None => {},
        }
        i = i + 1;
    }
    assert(all.subrange(0, sources@.len() as int) =~= all);
    out
}

/// The absolute locations of the external scripts that the HTML document `document`,
/// found at `base`, references, in document order.
pub fn discover_scripts(base: &str, document: &str) -> (r: Vec<String>)
    ensures
        views(r@) == resolved(base@, present_sources(script_sources_of(document@))),
{
    let elements = script_elements(document);
    let sources = source_attributes(&elements);
    resolve_references(base, &sources)
}

} // verus!
