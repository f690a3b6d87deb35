use vstd::prelude::*;

use crate::walker::views;

verus! {

/// `s` with every line feed taken out.
pub open spec fn strip_breaks(s: Seq<char>) -> Seq<char>
    decreases s.len(),
{
    if s.len() == 0 {
        s
    } else {
        let rest = strip_breaks(s.subrange(0, s.len() - 1));
        if s.last() == '\n' {
            rest
        } else {
            rest.push(s.last())
        }
    }
}

/// Relies on str::replace: every line feed of `s` is replaced by the empty string.
#[verifier::external_body]
fn remove_line_breaks(s: &str) -> (r: String)
    ensures
        r@ == strip_breaks(s@),
{
    s.replace('\n', "")
}

/// A fixed set of common, low-signal values, shared read-only by every analysis.
pub struct Stoplist {
    pub words: Vec<String>,
}

impl Stoplist {
    pub open spec fn contents(&self) -> Seq<Seq<char>> {
        views(self.words@)
    }

    pub fn new(words: Vec<String>) -> (r: Stoplist)
        ensures
            r.contents() == views(words@),
    {
        Stoplist { words }
    }

    /// Whether `s` is one of the words.
    pub fn contains(&self, s: &String) -> (r: bool)
        ensures
            r == self.contents().contains(s@),
    {
        let mut i: usize = 0;
        while i < self.words.len()
            invariant
                i <= self.words@.len(),
                forall|j: int| 0 <= j < i ==> self.words@[j]@ != s@,
            decreases self.words@.len() - i,
        {
            if self.words[i] == *s {
                assert(self.contents()[i as int] == s@);
                return true;
            }
            i = i + 1;
        }
        assert(!self.contents().contains(s@)) by {
            if self.contents().contains(s@) {
                let j = choose|j: int| 0 <= j < self.contents().len() && self.contents()[j] == s@;
                assert(self.words@[j]@ == s@);
            }
        }
        false
    }
}

/// The stoplist's words, where one is in use.
pub open spec fn stop_words(stoplist: Option<&Stoplist>) -> Option<Seq<Seq<char>>> {
    match stoplist {
        Some(l) => Some(l.contents()),
        None => None,
    }
}

/// Whether the filter drops the raw value `v`.
pub open spec fn is_noise(v: Seq<char>, stop: Option<Seq<Seq<char>>>) -> bool {
    v.len() == 0 || (stop is Some && stop->0.contains(v))
}

/// The accepted sequence for the raw values `raw`: noise dropped, line feeds stripped
/// from the rest, order and duplicates kept.
pub open spec fn accepted(raw: Seq<Seq<char>>, stop: Option<Seq<Seq<char>>>) -> Seq<Seq<char>>
    decreases raw.len(),
{
    if raw.len() == 0 {
        seq![]
    } else {
        let rest = accepted(raw.subrange(0, raw.len() - 1), stop);
        if is_noise(raw.last(), stop) {
            rest
        } else {
            rest.push(strip_breaks(raw.last()))
        }
    }
}

/// Whether the value is noise: empty, or on the stoplist in use.
pub fn is_noise_value(v: &String, stoplist: Option<&Stoplist>) -> (r: bool)
    ensures
        r == is_noise(v@, stop_words(stoplist)),
{
    if v.as_str().is_empty() {
        return true;
    }
    match stoplist {
        Some(l) => l.contains(v),
        None => false,
    }
}

/// Turns the walk's raw values into the accepted sequence.
pub fn noise_filter(raw: &Vec<String>, stoplist: Option<&Stoplist>) -> (r: Vec<String>)
    ensures
        views(r@) == accepted(views(raw@), stop_words(stoplist)),
{
    let ghost stop = stop_words(stoplist);
    let mut out: Vec<String> = Vec::new();
    let mut i: usize = 0;
    assert(views(raw@).subrange(0, 0) =~= Seq::<Seq<char>>::empty());
    assert(views(out@) =~= Seq::<Seq<char>>::empty());
    while i < raw.len()
        invariant
            i <= raw@.len(),
            stop == stop_words(stoplist),
            views(out@) == accepted(views(raw@).subrange(0, i as int), stop),
        decreases raw@.len() - i,
    {
        let ghost prefix = views(raw@).subrange(0, i as int + 1);
        assert(prefix.subrange(0, i as int) =~= views(raw@).subrange(0, i as int));
        assert(prefix =~= views(raw@).subrange(0, i as int).push(raw@[i as int]@));
        proof {
            lemma_accepted_push(views(raw@).subrange(0, i as int), raw@[i as int]@, stop);
        }
        if !is_noise_value(&raw[i], stoplist) {
            let kept = remove_line_breaks(raw[i].as_str());
            assert(views(out@.push(kept)) =~= views(out@).push(kept@));
            out.push(kept);
        }
        i = i + 1;
    }
    assert(views(raw@).subrange(0, raw@.len() as int) =~= views(raw@));
    out
}

proof fn lemma_strip_idempotent(s: Seq<char>)
    ensures
        strip_breaks(strip_breaks(s)) == strip_breaks(s),
    decreases s.len(),
{
    if s.len() > 0 {
        let p = s.subrange(0, s.len() - 1);
        lemma_strip_idempotent(p);
        if s.last() != '\n' {
            let r = strip_breaks(p).push(s.last());
            assert(r.subrange(0, r.len() - 1) =~= strip_breaks(p));
        }
    }
}

proof fn lemma_accepted_push(raw: Seq<Seq<char>>, v: Seq<char>, stop: Option<Seq<Seq<char>>>)
    ensures
        accepted(raw.push(v), stop) == if is_noise(v, stop) {
            accepted(raw, stop)
        } else {
            accepted(raw, stop).push(strip_breaks(v))
        },
{
    assert(raw.push(v).subrange(0, raw.len() as int) =~= raw);
}

/// Filtering a second time changes nothing, provided that no value the filter keeps
/// turns into noise once its line feeds are stripped.
pub proof fn lemma_filter_idempotent(raw: Seq<Seq<char>>, stop: Option<Seq<Seq<char>>>)
    requires
        forall|i: int|
            0 <= i < raw.len() && !is_noise(raw[i], stop) ==> !is_noise(
                strip_breaks(#[trigger] raw[i]),
                stop,
            ),
    ensures
        accepted(accepted(raw, stop), stop) == accepted(raw, stop),
    decreases raw.len(),
{
    if raw.len() > 0 {
        let p = raw.subrange(0, raw.len() - 1);
        let v = raw.last();
        assert forall|i: int|
            0 <= i < p.len() && !is_noise(p[i], stop) implies !is_noise(
            strip_breaks(#[trigger] p[i]),
            stop,
        ) by {
            assert(p[i] == raw[i]);
        }
        lemma_filter_idempotent(p, stop);
        if !is_noise(v, stop) {
            lemma_strip_idempotent(v);
            lemma_accepted_push(accepted(p, stop), strip_breaks(v), stop);
        }
    }
}

} // verus!
