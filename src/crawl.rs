use vstd::prelude::*;

use crate::discovery::{discover_scripts, optional_view, present_sources, resolved, script_sources_of};
use crate::filter::{Stoplist, accepted, noise_filter, stop_words};
use crate::syntax::{Statement, statements_literals};
use crate::walker::{extract_literals, views};

verus! {

/// The last segment of the path of the absolute URL `reference`, or `None` where it does
/// not parse or has no hierarchical path.
pub uninterp spec fn last_segment_of(reference: Seq<char>) -> Option<Seq<char>>;

/// Relies on url: `Url::parse` reads the reference and `Url::path_segments` splits its
/// path; the last segment is kept.
#[verifier::external_body]
fn last_segment(reference: &str) -> (r: Option<String>)
    ensures
        optional_view(r) == last_segment_of(reference@),
{
    match url::Url::parse(reference) {
        Ok(u) => u.path_segments().and_then(Iterator::last).map(String::from),
        Err(_) => None,
    }
}

/// The values, one per line: a line feed between each two.
pub open spec fn lines_joined(v: Seq<Seq<char>>) -> Seq<char>
    decreases v.len(),
{
    if v.len() == 0 {
        seq![]
    } else if v.len() == 1 {
        v[0]
    } else {
        lines_joined(v.subrange(0, v.len() - 1)) + seq!['\n'] + v.last()
    }
}

/// Relies on the slice method `join`: the values with `"\n"` between each two.
#[verifier::external_body]
fn join_lines(values: &Vec<String>) -> (r: String)
    ensures
        r@ == lines_joined(views(values@)),
{
    values.join("\n")
}

/// What became of fetching and parsing one script.
#[derive(Debug)]
pub enum ScriptOutcome {
    /// The script was fetched and parsed into this body.
    Fetched(Vec<Statement>),
    /// The fetch failed, with the HTTP status where there was one.
    TransportFailed(Option<u16>),
    /// The bytes did not parse as a script; the parser's message.
    ParseFailed(String),
}

/// The result of analysing one script reference.
#[derive(Debug)]
pub enum AnalysisResult {
    /// The accepted values, in source order.
    Accepted(Vec<String>),
    TransportFailed(Option<u16>),
    ParseFailed(String),
}

/// Whether `r` is the result of analysing the outcome `o`.
pub open spec fn analysis_of(o: ScriptOutcome, stop: Option<Seq<Seq<char>>>, r: AnalysisResult) -> bool {
    match o {
        ScriptOutcome::Fetched(body) => r is Accepted && views(r->Accepted_0@) == accepted(
            statements_literals(body@),
            stop,
        ),
        ScriptOutcome::TransportFailed(status) => r == AnalysisResult::TransportFailed(status),
        ScriptOutcome::ParseFailed(m) => r is ParseFailed && r->ParseFailed_0@ == m@,
    }
}

/// Walks and filters a parsed script; a failure is passed on as the result.
pub fn analyze(outcome: &ScriptOutcome, stoplist: Option<&Stoplist>) -> (r: AnalysisResult)
    ensures
        analysis_of(*outcome, stop_words(stoplist), r),
{
    match outcome {
        ScriptOutcome::Fetched(body) => {
            let raw = extract_literals(body);
            AnalysisResult::Accepted(noise_filter(&raw, stoplist))
        },
        ScriptOutcome::TransportFailed(status) => AnalysisResult::TransportFailed(*status),
        ScriptOutcome::ParseFailed(m) => AnalysisResult::ParseFailed(m.clone()),
    }
}

/// Analyses every script of a finished batch on its own: exactly one result per
/// reference, in the same order, each depending on that script's outcome alone, so one
/// failure leaves the others' values untouched.
pub fn analyze_all(scripts: &Vec<(String, ScriptOutcome)>, stoplist: Option<&Stoplist>) -> (r: Vec<
    (String, AnalysisResult),
>)
    ensures
        r@.len() == scripts@.len(),
        forall|i: int|
            0 <= i < r@.len() ==> #[trigger] r@[i].0 == scripts@[i].0 && analysis_of(
                scripts@[i].1,
                stop_words(stoplist),
                r@[i].1,
            ),
{
    let mut out: Vec<(String, AnalysisResult)> = Vec::new();
    let mut i: usize = 0;
    while i < scripts.len()
        invariant
            i <= scripts@.len(),
            out@.len() == i,
            forall|j: int|
                0 <= j < i ==> #[trigger] out@[j].0 == scripts@[j].0 && analysis_of(
                    scripts@[j].1,
                    stop_words(stoplist),
                    out@[j].1,
                ),
        decreases scripts@.len() - i,
    {
        let reference = scripts[i].0.clone();
        let result = analyze(&scripts[i].1, stoplist);
        out.push((reference, result));
        i = i + 1;
    }
    out
}

/// What to hand the persistence side for one analysed script.
#[derive(Debug)]
pub enum Report {
    /// Write `contents` to the artifact `name`; `count` values were accepted.
    Persist { name: String, contents: String, count: usize },
    /// Nothing was accepted: no artifact and no error.
    Nothing,
    /// Values were accepted but the reference has no path segment to name them by.
    Unnamed,
    TransportFailed(Option<u16>),
    ParseFailed(String),
}

/// Whether `rep` is the report owed for `result` on `reference`.
pub open spec fn report_of(reference: Seq<char>, result: AnalysisResult, rep: Report) -> bool {
    match result {
        AnalysisResult::Accepted(v) => if v@.len() == 0 {
            rep is Nothing
        } else {
            match last_segment_of(reference) {
                Some(n) => rep is Persist && rep->Persist_name@ == n && rep->Persist_contents@
                    == lines_joined(views(v@)) && rep->Persist_count == v@.len(),
                None => rep is Unnamed,
            }
        },
        AnalysisResult::TransportFailed(status) => rep == Report::TransportFailed(status),
        AnalysisResult::ParseFailed(m) => rep is ParseFailed && rep->ParseFailed_0@ == m@,
    }
}

/// Decides what is persisted or reported for one analysed script.
pub fn plan_report(reference: &str, result: &AnalysisResult) -> (r: Report)
    ensures
        report_of(reference@, *result, r),
{
    match result {
        AnalysisResult::Accepted(v) => {
            if v.len() == 0 {
                Report::Nothing
            } else {
                match last_segment(reference) {
                    Some(name) => Report::Persist {
                        name,
                        contents: join_lines(v),
                        count: v.len(),
                    },
                    None => Report::Unnamed,
                }
            }
        },
        AnalysisResult::TransportFailed(status) => Report::TransportFailed(*status),
        AnalysisResult::ParseFailed(m) => Report::ParseFailed(m.clone()),
    }
}

/// Where a crawl stands.
#[derive(Clone, Copy, Debug, PartialEq, Eq, Structural)]
pub enum Phase {
    /// Waiting for the root document.
    FetchingRoot,
    /// Waiting for the analyses of the discovered scripts.
    Collecting,
    /// Every discovered script has reported.
    Done,
    /// The root document could not be fetched; nothing was analysed.
    Failed,
}

/// Something the surrounding runtime observed and hands back.
#[derive(Debug)]
pub enum CrawlEvent {
    /// The root document arrived, with its text.
    RootFetched(String),
    /// The root fetch failed, with the HTTP status where there was one.
    RootFailed(Option<u16>),
    /// The analysis task of one reference finished.
    ScriptFinished(String, ScriptOutcome),
}

/// What the surrounding runtime is to do next.
#[derive(Debug)]
pub enum CrawlStep {
    /// Start one independent task per reference.
    Analyze(Vec<String>),
    /// Persist or report the result of one reference.
    Report(String, Report),
    /// Stop the run: the root document could not be had.
    Abort(Option<u16>),
    /// The event does not belong to the current phase and changes nothing.
    Ignore,
}

/// The state of one crawl of a root location.
#[derive(Debug)]
pub struct Crawl {
    pub target: String,
    pub phase: Phase,
    /// How many script references were discovered.
    pub discovered: usize,
    /// How many of them have reported.
    pub reported: usize,
}

impl Crawl {
    /// Every reference reports once: while collecting some are outstanding, once done all
    /// have reported, and before discovery there is nothing to count.
    pub open spec fn wf(&self) -> bool {
        match self.phase {
            Phase::FetchingRoot | Phase::Failed => self.discovered == 0 && self.reported == 0,
            Phase::Collecting => self.reported < self.discovered,
            Phase::Done => self.reported == self.discovered,
        }
    }

    /// A crawl of `target` that has yet to fetch it.
    pub fn new(target: String) -> (r: Crawl)
        ensures
            r.wf(),
            r.target == target,
            r.phase == Phase::FetchingRoot,
    {
        Crawl { target, phase: Phase::FetchingRoot, discovered: 0, reported: 0 }
    }

    /// Whether the crawl has reached a terminal phase.
    pub fn is_finished(&self) -> (r: bool)
        ensures
            r == (self.phase == Phase::Done || self.phase == Phase::Failed),
    {
        self.phase == Phase::Done || self.phase == Phase::Failed
    }

    /// Takes one event and says what to do next.
    pub fn on_event(&mut self, event: CrawlEvent, stoplist: Option<&Stoplist>) -> (step: CrawlStep)
        requires
            old(self).wf(),
        ensures
            final(self).wf(),
            final(self).target == old(self).target,
            match (old(self).phase, event) {
                (Phase::FetchingRoot, CrawlEvent::RootFetched(doc)) => {
                    &&& step is Analyze
                    &&& views(step->Analyze_0@) == resolved(
                        old(self).target@,
                        present_sources(script_sources_of(doc@)),
                    )
                    &&& final(self).discovered == step->Analyze_0@.len()
                    &&& final(self).reported == 0
                    &&& final(self).phase == if step->Analyze_0@.len() == 0 {
                        Phase::Done
                    } else {
                        Phase::Collecting
                    }
                },
                (Phase::FetchingRoot, CrawlEvent::RootFailed(status)) => {
                    &&& step == CrawlStep::Abort(status)
                    &&& final(self).phase == Phase::Failed
                },
                (Phase::Collecting, CrawlEvent::ScriptFinished(reference, outcome)) => {
                    &&& step is Report
                    &&& step->Report_0@ == reference@
                    &&& exists|result: AnalysisResult|
                        analysis_of(outcome, stop_words(stoplist), result) && report_of(
                            reference@,
                            result,
                            step->Report_1,
                        )
                    &&& final(self).discovered == old(self).discovered
                    &&& final(self).reported == old(self).reported + 1
                    &&& final(self).phase == if final(self).reported == final(self).discovered {
                        Phase::Done
                    } else {
                        Phase::Collecting
                    }
                },
                _ => {
                    &&& step is Ignore
                    &&& *final(self) == *old(self)
                },
            },
    {
        match (self.phase, event) {
            (Phase::FetchingRoot, CrawlEvent::RootFetched(doc)) => {
                let refs = discover_scripts(self.target.as_str(), doc.as_str());
                self.discovered = refs.len();
                self.reported = 0;
                if refs.len() == 0 {
                    self.phase = Phase::Done;
                } else {
                    self.phase = Phase::Collecting;
                }
                CrawlStep::Analyze(refs)
            },
            (Phase::FetchingRoot, CrawlEvent::RootFailed(status)) => {
                self.phase = Phase::Failed;
                CrawlStep::Abort(status)
            },
            (Phase::Collecting, CrawlEvent::ScriptFinished(reference, outcome)) => {
                let result = analyze(&outcome, stoplist);
                let report = plan_report(reference.as_str(), &result);
                self.reported = self.reported + 1;
                if self.reported == self.discovered {
                    self.phase = Phase::Done;
                }
                CrawlStep::Report(reference, report)
            },
            _ => CrawlStep::Ignore,
        }
    }
}

} // verus!
