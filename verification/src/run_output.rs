//! The result of a whole run.
//!
//! A run goes either all at once or request by request. Either way the runner's
//! reports are read into outcomes, the attempts that a retry replaced are
//! marked, and the first failure that counts is the run's.
use vstd::prelude::*;

use crate::hurl_ast;
use crate::result;
use crate::result::{EntryOutcome, OutcomeView, ResultShape, ResultView};
use crate::run;
use crate::run::RetryLimit;
use crate::shape::{EntryShape, EntryShapeView, Fault, FaultView};
use crate::text;

verus! {

/// The result of a run.
#[derive(Debug)]
pub struct RunOutput {
    pub entries: Vec<EntryOutcome>,
    /// Why the run failed: the first failure that counts, or why the text is no
    /// Hurl text. `None` when everything succeeded.
    pub error: Option<String>,
    /// What was computed for the request before it was sent, by name.
    pub generated: Vec<(String, String)>,
}

/// What a [`RunOutput`] holds.
#[verifier::ext_equal]
pub struct OutputView {
    pub entries: Seq<OutcomeView>,
    pub error: Option<Seq<char>>,
    pub generated: Seq<(Seq<char>, Seq<char>)>,
}

impl DeepView for RunOutput {
    type V = OutputView;

    open spec fn deep_view(&self) -> OutputView {
        OutputView {
            entries: self.entries.deep_view(),
            error: self.error.deep_view(),
            generated: self.generated.deep_view(),
        }
    }
}

/// What is decided about a request just before it is its turn.
#[derive(Debug)]
pub enum EntrySetup {
    /// Bind these values over the run's variables, and send the request.
    Bind(Vec<(String, String)>),
    /// Do not send it, and report why: it counts as failed.
    Skip { reason: String },
}

/// What an [`EntrySetup`] holds.
#[verifier::ext_equal]
pub enum SetupView {
    Bind(Seq<(Seq<char>, Seq<char>)>),
    Skip { reason: Seq<char> },
}

impl DeepView for EntrySetup {
    type V = SetupView;

    open spec fn deep_view(&self) -> SetupView {
        match self {
            EntrySetup::Bind(bindings) => SetupView::Bind(bindings.deep_view()),
            EntrySetup::Skip { reason } => SetupView::Skip { reason: reason@ },
        }
    }
}

// ---------------------------------------------------------------------------
// Attempts
// ---------------------------------------------------------------------------
/// Whether the `i`-th outcome was replaced by the one behind it: both are of one
/// request, and `retried` says that it asks for retries.
pub open spec fn replaced(outs: Seq<OutcomeView>, retried: Seq<bool>, i: int) -> bool {
    i + 1 < outs.len() && outs[i].entry_index == outs[i + 1].entry_index && retried[i]
}

/// The outcomes of one run, with the replaced ones marked.
pub open spec fn marked(outs: Seq<OutcomeView>, retried: Seq<bool>) -> Seq<OutcomeView> {
    Seq::new(
        outs.len(),
        |i: int|
            OutcomeView {
                superseded: outs[i].superseded || replaced(outs, retried, i),
                ..outs[i]
            },
    )
}

/// The first failure among the outcomes that count.
pub open spec fn surviving_error(outs: Seq<OutcomeView>) -> Option<Seq<char>>
    decreases outs.len(),
{
    if outs.len() == 0 {
        None
    } else if !outs[0].superseded && outs[0].error is Some {
        outs[0].error
    } else {
        surviving_error(outs.skip(1))
    }
}

/// The result of a run with the given outcomes.
pub open spec fn output_of(outs: Seq<OutcomeView>) -> OutputView {
    OutputView { entries: outs, error: surviving_error(outs), generated: Seq::empty() }
}

/// The result of running a text that is no Hurl text.
pub open spec fn output_of_fault(f: FaultView) -> OutputView {
    OutputView {
        entries: Seq::empty(),
        error: Some(
            "Parse error (line "@ + text::decimal(f.line as nat) + "): "@ + f.debug,
        ),
        generated: Seq::empty(),
    }
}

/// What the runner's reports come to, one by one.
pub open spec fn outcomes_of(results: Seq<ResultView>, lines: Seq<Seq<char>>) -> Seq<OutcomeView> {
    results.map_values(|e: ResultView| run::outcome_of(e, lines))
}

/// Whether each of the outcomes is of a request that asks for retries.
pub open spec fn retried_of(shapes: Seq<EntryShapeView>, results: Seq<ResultView>) -> Seq<bool> {
    results.map_values(
        |e: ResultView|
            e.entry_index < shapes.len() && run::retries(shapes[e.entry_index as int].options),
    )
}

/// The result of running a parsed text all at once, given the runner's reports.
pub open spec fn output_at_once(
    shapes: Seq<EntryShapeView>,
    content: Seq<char>,
    results: Seq<ResultView>,
) -> OutputView {
    output_of(
        marked(outcomes_of(results, text::lines_of(content)), retried_of(shapes, results)),
    )
}

/// Whether the times of every report can be counted.
pub open spec fn all_times_fit(results: Seq<ResultView>) -> bool {
    forall|i: int| 0 <= i < results.len() ==> run::times_fit((#[trigger] results[i]).calls)
}

/// Marks every outcome that a later attempt at the same request replaced.
///
/// The outcomes must be those of one run in the order in which they came:
/// attempts at one request follow one another, so that the next outcome is of
/// the same request means that this one was retried.
pub fn mark_superseded(outcomes: Vec<EntryOutcome>, retried: &[bool]) -> (r: Vec<EntryOutcome>)
    requires
        retried.len() == outcomes.len(),
    ensures
        r.deep_view() == marked(outcomes.deep_view(), retried@),
{
    let ghost all = outcomes.deep_view();
    let ghost want = marked(all, retried@);
    let mut out: Vec<EntryOutcome> = Vec::new();
    for i in 0..outcomes.len()
        invariant
            all == outcomes.deep_view(),
            want == marked(all, retried@),
            retried.len() == outcomes.len(),
            out.len() == i,
            forall|j: int| 0 <= j < i ==> (#[trigger] out@[j]).deep_view() == want[j],
    {
        let mut o = outcomes[i].clone();
        assert(all[i as int] == outcomes@[i as int].deep_view());
        if i + 1 < outcomes.len() {
            assert(all[i + 1] == outcomes@[i + 1].deep_view());
            if outcomes[i].entry_index == outcomes[i + 1].entry_index && retried[i] {
                o.superseded = true;
            }
        }
        assert(o.deep_view() == want[i as int]);
        out.push(o);
    }
    assert(out.deep_view() == want);
    out
}

/// The first failure among the outcomes that count.
fn find_error(outs: &[EntryOutcome]) -> (r: Option<String>)
    ensures
        r.deep_view() == surviving_error(outs.deep_view()),
{
    let ghost all = outs.deep_view();
    let mut i: usize = 0;
    assert(all.skip(0) == all);
    while i < outs.len()
        invariant
            all == outs.deep_view(),
            i <= outs.len(),
            surviving_error(all) == surviving_error(all.skip(i as int)),
        decreases outs.len() - i,
    {
        assert(all.skip(i as int)[0] == outs@[i as int].deep_view());
        assert(all.skip(i as int).skip(1) == all.skip(i + 1));
        if !outs[i].superseded {
            if let Some(e) = &outs[i].error {
                return Some(e.clone());
            }
        }
        i += 1;
    }
    None
}

/// The result of a run with the given outcomes.
fn make_output(entries: Vec<EntryOutcome>) -> (r: RunOutput)
    ensures
        r.deep_view() == output_of(entries.deep_view()),
{
    let error = find_error(entries.as_slice());
    let r = RunOutput { entries, error, generated: Vec::new() };
    assert(r.deep_view() == output_of(entries.deep_view()));
    r
}

/// The result of running a text that is no Hurl text.
pub fn fault_output(f: &Fault) -> (r: RunOutput)
    ensures
        r.deep_view() == output_of_fault(f.deep_view()),
{
    let mut error = "Parse error (line ".to_owned();
    error.push_str(text::to_decimal(f.line as u128).as_str());
    error.push_str("): ");
    error.push_str(f.debug.as_str());
    let r = RunOutput { entries: Vec::new(), error: Some(error), generated: Vec::new() };
    assert(r.deep_view() == output_of_fault(f.deep_view()));
    r
}

/// Reads the runner's reports.
fn read_results(results: &[ResultShape], lines: &[String]) -> (r: Vec<EntryOutcome>)
    requires
        all_times_fit(results.deep_view()),
    ensures
        r.deep_view() == outcomes_of(results.deep_view(), lines.deep_view()),
{
    let ghost all = results.deep_view();
    let ghost want = outcomes_of(all, lines.deep_view());
    let mut out: Vec<EntryOutcome> = Vec::new();
    for i in 0..results.len()
        invariant
            all == results.deep_view(),
            all_times_fit(all),
            want == outcomes_of(all, lines.deep_view()),
            out.len() == i,
            forall|j: int| 0 <= j < i ==> (#[trigger] out@[j]).deep_view() == want[j],
    {
        assert(all[i as int] == results@[i as int].deep_view());
        out.push(run::map_entry_result(&results[i], lines));
    }
    assert(out.deep_view() == want);
    out
}

/// Reads the runner's reports on a parsed text that was run all at once.
pub fn finish_run(shapes: &[EntryShape], content: &str, results: &[ResultShape]) -> (r: RunOutput)
    requires
        all_times_fit(results.deep_view()),
    ensures
        r.deep_view() == output_at_once(shapes.deep_view(), content@, results.deep_view()),
{
    let lines = text::lines(content);
    let ghost all = results.deep_view();
    let ghost want = retried_of(shapes.deep_view(), all);
    let mut retried: Vec<bool> = Vec::new();
    for i in 0..results.len()
        invariant
            all == results.deep_view(),
            want == retried_of(shapes.deep_view(), all),
            retried@ == want.take(i as int),
    {
        let k: usize = results[i].entry_index;
        assert(all[i as int] == results@[i as int].deep_view());
        let asks = if k < shapes.len() {
            assert(shapes.deep_view()[k as int] == shapes@[k as int].deep_view());
            run::entry_retries(shapes[k].options.as_slice())
        } else {
            false
        };
        assert(asks == want[i as int]);
        retried.push(asks);
        assert(want.take(i + 1) == want.take(i as int).push(asks));
    }
    assert(retried@ == want);
    let outcomes = read_results(results, lines.as_slice());
    make_output(mark_superseded(outcomes, retried.as_slice()))
}

/// Reads the runner's reports on a text that was run all at once. A text that is
/// no Hurl text is not run, and the reports are of no account.
pub fn run_hurl(content: &str, results: &[ResultShape]) -> (r: RunOutput)
    requires
        all_times_fit(results.deep_view()),
    ensures
        r.deep_view() == (match hurl_ast::parsed(content@) {
            Ok(shapes) => output_at_once(shapes, content@, results.deep_view()),
            Err(f) => output_of_fault(f),
        }),
{
    match hurl_ast::parse(content) {
        Ok(shapes) => finish_run(shapes.as_slice(), content, results),
        Err(f) => fault_output(&f),
    }
}

/// What is known of the attempts at a run's requests before it starts: the limit
/// of its first request, under which a run reports the attempts at any.
pub fn run_limit(shapes: &[EntryShape], vars: &[(String, String)]) -> (r: RetryLimit)
    ensures
        r == (if shapes.deep_view().len() == 0 {
            RetryLimit::Unknown
        } else {
            run::limit_in(shapes.deep_view()[0].options, vars.deep_view())
        }),
{
    if shapes.len() == 0 {
        RetryLimit::Unknown
    } else {
        assert(shapes.deep_view()[0] == shapes@[0].deep_view());
        run::entry_retry_limit(shapes[0].options.as_slice(), vars)
    }
}

// ---------------------------------------------------------------------------
// Request by request
// ---------------------------------------------------------------------------
/// A run that goes request by request, reporting each as it is done.
///
/// Before each request its [`known`](StreamingRun::known) variables go into
/// deciding its [`EntrySetup`]; then it is either [skipped](StreamingRun::skip)
/// or sent, and the runner's reports are [recorded](StreamingRun::record).
#[derive(Debug)]
pub struct StreamingRun {
    shapes: Vec<EntryShape>,
    lines: Vec<String>,
    next: usize,
    entries: Vec<EntryOutcome>,
}

/// What a [`StreamingRun`] holds.
#[verifier::ext_equal]
pub struct StreamView {
    /// The requests.
    pub shapes: Seq<EntryShapeView>,
    /// The lines of the text.
    pub lines: Seq<Seq<char>>,
    /// Whose turn it is.
    pub next: nat,
    /// What came of those before.
    pub entries: Seq<OutcomeView>,
}

impl DeepView for StreamingRun {
    type V = StreamView;

    closed spec fn deep_view(&self) -> StreamView {
        StreamView {
            shapes: self.shapes.deep_view(),
            lines: self.lines.deep_view(),
            next: self.next as nat,
            entries: self.entries.deep_view(),
        }
    }
}

impl StreamView {
    /// Whether there is a request left.
    pub open spec fn going(self) -> bool {
        self.next < self.shapes.len()
    }

    /// The request whose turn it is.
    pub open spec fn current(self) -> EntryShapeView {
        self.shapes[self.next as int]
    }

    /// What is reported of the current request when it is not sent.
    pub open spec fn skipped(self, reason: Seq<char>) -> OutcomeView {
        OutcomeView {
            entry_index: self.next as usize,
            method: self.current().request.method,
            url: self.current().request.plain_url,
            error: Some(reason),
            ..result::blank_outcome()
        }
    }

    /// What is reported of the current request when it is sent.
    pub open spec fn attempts(self, results: Seq<ResultView>) -> Seq<OutcomeView> {
        marked(
            outcomes_of(results, self.lines),
            Seq::new(results.len(), |i: int| run::retries(self.current().options)),
        )
    }

    /// The run with the current request done.
    pub open spec fn after(self, outs: Seq<OutcomeView>) -> StreamView {
        StreamView { next: self.next + 1, entries: self.entries + outs, ..self }
    }
}

impl StreamingRun {
    /// Starts a run of the parsed text.
    pub fn new(shapes: Vec<EntryShape>, content: &str) -> (r: Self)
        ensures
            r.deep_view() == (StreamView {
                shapes: shapes.deep_view(),
                lines: text::lines_of(content@),
                next: 0,
                entries: Seq::empty(),
            }),
    {
        let r = StreamingRun { shapes, lines: text::lines(content), next: 0, entries: Vec::new() };
        assert(r.entries.deep_view() == Seq::<OutcomeView>::empty());
        r
    }

    /// Starts a run of the text; of one that is no Hurl text there is a result
    /// at once.
    pub fn start(content: &str) -> (r: Result<StreamingRun, RunOutput>)
        ensures
            match hurl_ast::parsed(content@) {
                Ok(shapes) => r is Ok && r->Ok_0.deep_view() == (StreamView {
                    shapes,
                    lines: text::lines_of(content@),
                    next: 0,
                    entries: Seq::empty(),
                }),
                Err(f) => r is Err && r->Err_0.deep_view() == output_of_fault(f),
            },
    {
        match hurl_ast::parse(content) {
            Ok(shapes) => Ok(StreamingRun::new(shapes, content)),
            Err(f) => Err(fault_output(&f)),
        }
    }

    /// The place of the request whose turn it is; `None` when all are done.
    pub fn current(&self) -> (r: Option<usize>)
        ensures
            r is Some == self.deep_view().going(),
            r matches Some(i) ==> i == self.deep_view().next,
    {
        if self.next < self.shapes.len() {
            Some(self.next)
        } else {
            None
        }
    }

    /// The variables that the current request can read: those that are bound,
    /// and of its own defaults those that are not.
    pub fn known(&self, bound: &[(String, String)]) -> (r: Vec<(String, String)>)
        requires
            self.deep_view().going(),
        ensures
            r.deep_view() == run::with_defaults(
                bound.deep_view(),
                run::defaults_in(self.deep_view().current().options),
            ),
    {
        assert(self.shapes.deep_view()[self.next as int] == self.shapes@[self.next as int].deep_view());
        let defaults = run::entry_variable_defaults(self.shapes[self.next].options.as_slice());
        run::layer_defaults(bound, defaults.as_slice())
    }

    /// How often the current request may be retried.
    pub fn retry_limit(&self, bound: &[(String, String)]) -> (r: RetryLimit)
        requires
            self.deep_view().going(),
        ensures
            r == run::limit_in(self.deep_view().current().options, bound.deep_view()),
    {
        assert(self.shapes.deep_view()[self.next as int] == self.shapes@[self.next as int].deep_view());
        run::entry_retry_limit(self.shapes[self.next].options.as_slice(), bound)
    }

    /// Passes over the current request, and gives what is reported of it: it
    /// failed, for the given reason.
    pub fn skip(&mut self, reason: &str) -> (r: EntryOutcome)
        requires
            old(self).deep_view().going(),
        ensures
            r.deep_view() == old(self).deep_view().skipped(reason@),
            final(self).deep_view() == old(self).deep_view().after(
                seq![old(self).deep_view().skipped(reason@)],
            ),
    {
        let ghost before = self.deep_view();
        let mut o = EntryOutcome::default();
        let at: usize = self.next;
        assert(at < self.shapes.len());
        let behind: usize = at + 1;
        assert(before.shapes[at as int] == self.shapes@[at as int].deep_view());
        o.entry_index = at;
        o.method = self.shapes[at].request.method.clone();
        o.url = self.shapes[at].request.plain_url.clone();
        o.error = Some(reason.to_owned());
        let copy = o.clone();
        assert(o.deep_view() == before.skipped(reason@));
        let ghost done = self.entries.deep_view();
        self.entries.push(o);
        assert(self.entries.deep_view() == done + seq![o.deep_view()]);
        self.next = behind;
        copy
    }

    /// Records the runner's reports on the current request, and gives what is
    /// reported of its attempts.
    pub fn record(&mut self, results: &[ResultShape]) -> (r: Vec<EntryOutcome>)
        requires
            old(self).deep_view().going(),
            all_times_fit(results.deep_view()),
        ensures
            r.deep_view() == old(self).deep_view().attempts(results.deep_view()),
            final(self).deep_view() == old(self).deep_view().after(
                old(self).deep_view().attempts(results.deep_view()),
            ),
    {
        let ghost before = self.deep_view();
        let at: usize = self.next;
        assert(at < self.shapes.len());
        let behind: usize = at + 1;
        assert(before.shapes[at as int] == self.shapes@[at as int].deep_view());
        let asks = run::entry_retries(self.shapes[at].options.as_slice());
        let mut retried: Vec<bool> = Vec::new();
        for i in 0..results.len()
            invariant
                retried.len() == i,
                forall|j: int| 0 <= j < i ==> #[trigger] retried@[j] == asks,
        {
            retried.push(asks);
        }
        assert(retried@ == Seq::new(
            results.deep_view().len(),
            |i: int| run::retries(before.current().options),
        ));
        let outcomes = read_results(results, self.lines.as_slice());
        assert(outcomes.deep_view().len() == results.deep_view().len());
        let outs = mark_superseded(outcomes, retried.as_slice());
        let ghost attempts = outs.deep_view();
        for i in 0..outs.len()
            invariant
                attempts == outs.deep_view(),
                self.shapes.deep_view() == before.shapes,
                self.lines.deep_view() == before.lines,
                self.next == before.next,
                self.entries.deep_view() == before.entries + attempts.take(i as int),
        {
            let ghost done = self.entries.deep_view();
            let o = outs[i].clone();
            assert(attempts[i as int] == outs@[i as int].deep_view());
            self.entries.push(o);
            assert(self.entries.deep_view() == done.push(o.deep_view()));
            assert(attempts.take(i + 1) == attempts.take(i as int).push(o.deep_view()));
        }
        assert(attempts.take(attempts.len() as int) == attempts);
        self.next = behind;
        outs
    }

    /// The result of the run.
    pub fn finish(self) -> (r: RunOutput)
        ensures
            r.deep_view() == output_of(self.deep_view().entries),
    {
        make_output(self.entries)
    }
}

} // verus!
