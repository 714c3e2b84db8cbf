//! What holds of every run.
use vstd::prelude::*;

use crate::result::{CallView, OutcomeView, ResultView};
use crate::run;
use crate::run_output;
use crate::run_output::StreamView;
use crate::shape::EntryShapeView;
use crate::text;

verus! {

// ---------------------------------------------------------------------------
// Times
// ---------------------------------------------------------------------------
/// Whether the timers of an exchange went off in order.
pub open spec fn timers_in_order(c: CallView) -> bool {
    c.pre_transfer <= c.start_transfer <= c.total
}

/// How long the exchanges took, in nanoseconds.
pub open spec fn time_taken(calls: Seq<CallView>) -> int {
    run::summed(calls, |c: CallView| c.total as int)
}

/// The three parts of an attempt's time account for the whole of it: their sum
/// is never more, and each part loses less than a millisecond of each exchange
/// to rounding.
pub proof fn timing_parts_account_for_the_total(calls: Seq<CallView>)
    requires
        forall|i: int| 0 <= i < calls.len() ==> timers_in_order(#[trigger] calls[i]),
    ensures
        ({
            let parts = run::setup_total(calls) + run::wait_total(calls) + run::download_total(
                calls,
            );
            parts <= run::millis(time_taken(calls)) <= parts + 3 * calls.len()
        }),
{
    lemma_parts(calls);
}

proof fn lemma_parts(calls: Seq<CallView>)
    requires
        forall|i: int| 0 <= i < calls.len() ==> timers_in_order(#[trigger] calls[i]),
    ensures
        ({
            let parts = run::setup_total(calls) + run::wait_total(calls) + run::download_total(
                calls,
            );
            1_000_000 * parts <= time_taken(calls) <= 1_000_000 * (parts + 3 * calls.len())
        }),
    decreases calls.len(),
{
    if calls.len() > 0 {
        let rest = calls.drop_last();
        assert forall|i: int| 0 <= i < rest.len() implies timers_in_order(#[trigger] rest[i]) by {
            assert(rest[i] == calls[i]);
        }
        lemma_parts(rest);
        let c = calls.last();
        assert(timers_in_order(calls[calls.len() - 1]));
        assert(c.total == c.pre_transfer + (c.start_transfer - c.pre_transfer) + (c.total
            - c.start_transfer));
    }
}

// ---------------------------------------------------------------------------
// Attempts
// ---------------------------------------------------------------------------
/// Whether the `i`-th outcome is the last in a row of one request's.
pub open spec fn last_of_its_request(outs: Seq<OutcomeView>, i: int) -> bool {
    i + 1 >= outs.len() || outs[i].entry_index != outs[i + 1].entry_index
}

/// Of the attempts at a request that is retried, the last counts and no other.
/// Of a request that is not, all count.
pub proof fn the_last_attempt_settles_a_retried_request(
    outs: Seq<OutcomeView>,
    retried: Seq<bool>,
    i: int,
)
    requires
        0 <= i < outs.len(),
        retried.len() == outs.len(),
        !outs[i].superseded,
    ensures
        run_output::marked(outs, retried)[i].superseded == (retried[i] && !last_of_its_request(
            outs,
            i,
        )),
{
}

/// Marking the attempts that were replaced changes nothing else of them.
pub proof fn marking_keeps_what_was_reported(outs: Seq<OutcomeView>, retried: Seq<bool>, i: int)
    requires
        0 <= i < outs.len(),
    ensures
        run_output::marked(outs, retried).len() == outs.len(),
        run_output::marked(outs, retried)[i] == (OutcomeView {
            superseded: run_output::marked(outs, retried)[i].superseded,
            ..outs[i]
        }),
{
}

/// A run has an error if and only if an outcome that counts has one, and then it
/// is the first such outcome's.
pub proof fn a_run_fails_with_its_first_failure_that_counts(outs: Seq<OutcomeView>)
    ensures
        run_output::surviving_error(outs) is None <==> forall|i: int|
            0 <= i < outs.len() ==> (#[trigger] outs[i]).superseded || outs[i].error is None,
        run_output::surviving_error(outs) is Some ==> exists|i: int|
            0 <= i < outs.len() && !(#[trigger] outs[i]).superseded && outs[i].error
                == run_output::surviving_error(outs) && forall|j: int|
                0 <= j < i ==> (#[trigger] outs[j]).superseded || outs[j].error is None,
    decreases outs.len(),
{
    if outs.len() > 0 {
        let rest = outs.skip(1);
        a_run_fails_with_its_first_failure_that_counts(rest);
        assert forall|j: int| 0 <= j < rest.len() implies rest[j] == #[trigger] outs[j + 1] by {}
        if !outs[0].superseded && outs[0].error is Some {
        } else if run_output::surviving_error(outs) is Some {
            let i = choose|i: int|
                0 <= i < rest.len() && !(#[trigger] rest[i]).superseded && rest[i].error
                    == run_output::surviving_error(rest) && forall|j: int|
                    0 <= j < i ==> (#[trigger] rest[j]).superseded || rest[j].error is None;
            assert(outs[i + 1] == rest[i]);
            assert forall|j: int| 0 <= j < i + 1 implies (#[trigger] outs[j]).superseded
                || outs[j].error is None by {
                if j > 0 {
                    assert(outs[j] == rest[j - 1]);
                }
            }
        } else {
            assert forall|i: int| 0 <= i < outs.len() implies (#[trigger] outs[i]).superseded
                || outs[i].error is None by {
                if i > 0 {
                    assert(outs[i] == rest[i - 1]);
                }
            }
        }
    }
}

// ---------------------------------------------------------------------------
// All at once and request by request
// ---------------------------------------------------------------------------
/// A run that sent every request so far, given the reports on each.
pub open spec fn streamed(start: StreamView, windows: Seq<Seq<ResultView>>) -> StreamView
    decreases windows.len(),
{
    if windows.len() == 0 {
        start
    } else {
        let before = streamed(start, windows.drop_last());
        before.after(before.attempts(windows.last()))
    }
}

/// All the reports, one request's after the other's.
pub open spec fn all_reports(windows: Seq<Seq<ResultView>>) -> Seq<ResultView>
    decreases windows.len(),
{
    if windows.len() == 0 {
        Seq::empty()
    } else {
        all_reports(windows.drop_last()) + windows.last()
    }
}

/// Whether each request's reports are of that request.
pub open spec fn each_of_its_own(windows: Seq<Seq<ResultView>>) -> bool {
    forall|n: int, i: int|
        0 <= n < windows.len() && 0 <= i < windows[n].len() ==> (
        #[trigger] windows[n][i]).entry_index == n
}

proof fn lemma_streamed(start: StreamView, windows: Seq<Seq<ResultView>>)
    requires
        start.next == 0,
        start.entries == Seq::<OutcomeView>::empty(),
        windows.len() <= start.shapes.len(),
        each_of_its_own(windows),
    ensures
        streamed(start, windows).next == windows.len(),
        streamed(start, windows).shapes == start.shapes,
        streamed(start, windows).lines == start.lines,
        streamed(start, windows).entries == run_output::marked(
            run_output::outcomes_of(all_reports(windows), start.lines),
            run_output::retried_of(start.shapes, all_reports(windows)),
        ),
        forall|i: int|
            0 <= i < all_reports(windows).len() ==> (#[trigger] all_reports(windows)[i]).entry_index
                < windows.len(),
    decreases windows.len(),
{
    let all = all_reports(windows);
    if windows.len() == 0 {
        assert(run_output::marked(
            run_output::outcomes_of(all, start.lines),
            run_output::retried_of(start.shapes, all),
        ) == Seq::<OutcomeView>::empty());
    } else {
        let n = windows.len() - 1;
        let front = windows.drop_last();
        assert forall|k: int, i: int| 0 <= k < front.len() && 0 <= i < front[k].len() implies (
        #[trigger] front[k][i]).entry_index == k by {
            assert(front[k][i] == windows[k][i]);
        }
        lemma_streamed(start, front);
        let head = all_reports(front);
        let last = windows.last();
        let before = streamed(start, front);
        assert(windows[n] == last);
        assert forall|i: int| 0 <= i < all.len() implies (#[trigger] all[i]).entry_index
            < windows.len() by {
            if i < head.len() {
                assert(all[i] == head[i]);
            } else {
                assert(all[i] == windows[n][i - head.len()]);
            }
        }
        let outs = run_output::outcomes_of(all, start.lines);
        let retried = run_output::retried_of(start.shapes, all);
        let attempts = before.attempts(last);
        assert(before.current() == start.shapes[n]);
        let want = run_output::marked(outs, retried);
        let head_outs = run_output::outcomes_of(head, start.lines);
        let head_retried = run_output::retried_of(start.shapes, head);
        assert forall|i: int| 0 <= i < want.len() implies #[trigger] want[i] == (before.entries
            + attempts)[i] by {
            if i < head.len() {
                assert(all[i] == head[i]);
                assert(outs[i] == head_outs[i]);
                assert(retried[i] == head_retried[i]);
                if i + 1 < head.len() {
                    assert(all[i + 1] == head[i + 1]);
                    assert(outs[i + 1] == head_outs[i + 1]);
                } else if i + 1 < all.len() {
                    assert(all[i + 1] == windows[n][0]);
                    assert(head[i].entry_index < n);
                }
            } else {
                let k = i - head.len();
                assert(all[i] == windows[n][k]);
                if i + 1 < all.len() {
                    assert(all[i + 1] == windows[n][k + 1]);
                }
            }
        }
        assert(want == before.entries + attempts);
    }
}

/// Running a text request by request, with none passed over, comes to the same
/// as running it all at once, wherever the runner's reports are the same.
pub proof fn streaming_and_running_at_once_agree(
    shapes: Seq<EntryShapeView>,
    content: Seq<char>,
    windows: Seq<Seq<ResultView>>,
)
    requires
        windows.len() == shapes.len(),
        each_of_its_own(windows),
    ensures
        ({
            let start = StreamView {
                shapes,
                lines: text::lines_of(content),
                next: 0,
                entries: Seq::empty(),
            };
            &&& !streamed(start, windows).going()
            &&& run_output::output_of(streamed(start, windows).entries)
                == run_output::output_at_once(shapes, content, all_reports(windows))
        }),
{
    let start = StreamView {
        shapes,
        lines: text::lines_of(content),
        next: 0,
        entries: Seq::empty(),
    };
    lemma_streamed(start, windows);
}

/// A request that is passed over makes the run fail.
pub proof fn a_run_that_passes_over_a_request_fails(
    run: StreamView,
    reason: Seq<char>,
    rest: Seq<OutcomeView>,
)
    ensures
        run_output::output_of(run.after(seq![run.skipped(reason)]).entries + rest).error is Some,
{
    let outs = run.after(seq![run.skipped(reason)]).entries + rest;
    a_run_fails_with_its_first_failure_that_counts(outs);
    let n = run.entries.len() as int;
    assert(outs[n] == run.skipped(reason));
}

/// Every report of a run shows up in its result, in order and as what it comes to. It is
/// marked as replaced where its request asks for retries and the next report is of the
/// same request.
pub proof fn every_report_shows_up_in_the_result(
    shapes: Seq<EntryShapeView>,
    content: Seq<char>,
    results: Seq<ResultView>,
    i: int,
)
    requires
        0 <= i < results.len(),
    ensures
        ({
            let got = run_output::output_at_once(shapes, content, results).entries;
            let own = run::outcome_of(results[i], text::lines_of(content));
            let k = results[i].entry_index;
            let again = i + 1 < results.len() && results[i + 1].entry_index == k && k
                < shapes.len() && run::retries(shapes[k as int].options);
            &&& got.len() == results.len()
            &&& got[i] == (OutcomeView { superseded: again, ..own })
            &&& got[i].entry_index == k
        }),
{
    let lines = text::lines_of(content);
    let outs = run_output::outcomes_of(results, lines);
    assert(outs[i] == run::outcome_of(results[i], lines));
    if i + 1 < results.len() {
        assert(outs[i + 1] == run::outcome_of(results[i + 1], lines));
    }
}

/// A request that is sent, or passed over, has had its turn: the next is that of the
/// request below it, and what was reported before stays.
pub proof fn each_request_has_one_turn(run: StreamView, outs: Seq<OutcomeView>, i: int)
    ensures
        run.after(outs).next == run.next + 1,
        run.after(outs).shapes == run.shapes && run.after(outs).lines == run.lines,
        run.after(outs).entries.len() == run.entries.len() + outs.len(),
        0 <= i < run.entries.len() ==> run.after(outs).entries[i] == run.entries[i],
        0 <= i < outs.len() ==> run.after(outs).entries[run.entries.len() + i] == outs[i],
{
}

/// A request that is passed over is reported under its own place, method and URL, with
/// the reason as its error and nothing received.
pub proof fn a_request_that_is_passed_over_is_told(run: StreamView, reason: Seq<char>)
    requires
        run.going(),
        run.shapes.len() <= usize::MAX,
    ensures
        ({
            let got = run.skipped(reason);
            &&& got.entry_index == run.next && got.error == Some(reason)
            &&& got.method == run.shapes[run.next as int].request.method
            &&& got.url == run.shapes[run.next as int].request.plain_url
            &&& got.status == 0 && got.headers.len() == 0 && got.body.len() == 0
            &&& !got.superseded && !got.ok
        }),
{
}

} // verus!
