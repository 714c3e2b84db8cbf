//! What holds of every attempt that is reported.
use vstd::prelude::*;
use vstd::utf8::*;

use crate::decode;
use crate::json;
use crate::result::{AssertShapeView, AssertView, CallView, OutcomeView, ResultView};
use crate::run;
use crate::run::RetryLimit;
use crate::shape::OptionView;
use crate::text;

verus! {

broadcast use Seq::filter_distributes_over_add;

// ---------------------------------------------------------------------------
// The exchange that is reported
// ---------------------------------------------------------------------------
/// Whether two outcomes show the same exchange.
pub open spec fn show_the_same_exchange(a: OutcomeView, b: OutcomeView) -> bool {
    &&& a.method == b.method && a.url == b.url
    &&& a.status == b.status && a.status_text == b.status_text
    &&& a.headers == b.headers
    &&& a.raw_body == b.raw_body && a.body == b.body
}

/// Of an attempt with several exchanges, as one that is redirected, the last is
/// reported: its method, URL, status and headers, and its body. Whatever exchanges
/// came before it change nothing of that.
pub proof fn the_last_exchange_is_reported(
    e: ResultView,
    before: Seq<CallView>,
    c: CallView,
    lines: Seq<Seq<char>>,
)
    requires
        e.calls == before.push(c),
    ensures
        ({
            let out = run::outcome_of(e, lines);
            &&& out.method == c.method
            &&& out.url == c.url
            &&& c.status <= u16::MAX ==> out.status == c.status
            &&& out.status_text == run::reason_of(out.status)
            &&& out.headers == c.headers
            &&& decode::is_plain(c.headers) && valid_utf8(c.body) ==> out.raw_body == decode_utf8(
                c.body,
            )
            &&& json::json_laid_out(out.raw_body) is None ==> out.body == out.raw_body
            &&& json::json_laid_out(out.raw_body) matches Some(laid) ==> out.body == laid
            &&& show_the_same_exchange(
                out,
                run::outcome_of((ResultView { calls: seq![c], ..e }), lines),
            )
        }),
{
    assert(e.calls.last() == c);
    assert(seq![c].last() == c);
}

/// What a response's body comes to is decided by its own headers and bytes: where
/// Hurl can uncompress them, by what that gives, and otherwise by the bytes as they
/// came. Bytes that are no UTF-8 are patched.
pub proof fn a_body_is_uncompressed_where_that_can_be_done(
    e: ResultView,
    before: Seq<CallView>,
    c: CallView,
    lines: Seq<Seq<char>>,
)
    requires
        e.calls == before.push(c),
    ensures
        ({
            let raw = run::outcome_of(e, lines).raw_body;
            let coded = exists|i: int|
                0 <= i < c.headers.len() && #[trigger] decode::names_encoding(c.headers[i]);
            let bytes = if coded && decode::uncompressed(c.headers, c.body) is Some {
                decode::uncompressed(c.headers, c.body).unwrap()
            } else {
                c.body
            };
            &&& valid_utf8(bytes) ==> raw == decode_utf8(bytes)
            &&& !valid_utf8(bytes) ==> raw == run::patched_text(bytes)
        }),
{
    assert(e.calls.last() == c);
}

/// An attempt without an exchange shows none.
pub proof fn without_an_exchange_there_is_nothing_to_show(e: ResultView, lines: Seq<Seq<char>>)
    requires
        e.calls.len() == 0,
    ensures
        ({
            let out = run::outcome_of(e, lines);
            &&& out.method.len() == 0 && out.url.len() == 0
            &&& out.status == 0 && out.status_text.len() == 0
            &&& out.headers.len() == 0
            &&& out.raw_body.len() == 0 && out.body.len() == 0
            &&& out.setup_ms == 0 && out.wait_ms == 0 && out.download_ms == 0
        }),
{
}

/// What the runner says of an attempt as such is passed on: which request it was
/// of, what it captured in order, how long it took, and whether there was no error.
pub proof fn what_was_captured_is_passed_on(e: ResultView, lines: Seq<Seq<char>>)
    ensures
        ({
            let out = run::outcome_of(e, lines);
            &&& out.entry_index == e.entry_index
            &&& out.captures == e.captures
            &&& out.ok <==> e.errors.len() == 0
            &&& !out.superseded
            &&& 1_000_000 * out.duration_ms <= e.transfer_duration < 1_000_000 * (out.duration_ms
                + 1)
        }),
{
}

/// The statuses that have words, and no others have any.
pub proof fn the_usual_statuses_have_words(status: u16)
    ensures
        run::reason_of(200) == "OK"@ && run::reason_of(201) == "Created"@ && run::reason_of(202)
            == "Accepted"@ && run::reason_of(204) == "No Content"@,
        run::reason_of(301) == "Moved Permanently"@ && run::reason_of(302) == "Found"@
            && run::reason_of(304) == "Not Modified"@,
        run::reason_of(400) == "Bad Request"@ && run::reason_of(401) == "Unauthorized"@
            && run::reason_of(403) == "Forbidden"@ && run::reason_of(404) == "Not Found"@
            && run::reason_of(405) == "Method Not Allowed"@ && run::reason_of(409) == "Conflict"@
            && run::reason_of(422) == "Unprocessable Entity"@ && run::reason_of(429)
            == "Too Many Requests"@,
        run::reason_of(500) == "Internal Server Error"@ && run::reason_of(502) == "Bad Gateway"@
            && run::reason_of(503) == "Service Unavailable"@,
        !seq![
            200u16,
            201,
            202,
            204,
            301,
            302,
            304,
            400,
            401,
            403,
            404,
            405,
            409,
            422,
            429,
            500,
            502,
            503,
        ].contains(status) ==> run::reason_of(status).len() == 0,
{
    let all = seq![
        200u16,
        201,
        202,
        204,
        301,
        302,
        304,
        400,
        401,
        403,
        404,
        405,
        409,
        422,
        429,
        500,
        502,
        503,
    ];
    assert(all[0] == 200 && all[1] == 201 && all[2] == 202 && all[3] == 204 && all[4] == 301
        && all[5] == 302 && all[6] == 304 && all[7] == 400 && all[8] == 401 && all[9] == 403
        && all[10] == 404 && all[11] == 405 && all[12] == 409 && all[13] == 422 && all[14] == 429
        && all[15] == 500 && all[16] == 502 && all[17] == 503);
}

// ---------------------------------------------------------------------------
// Times
// ---------------------------------------------------------------------------
/// The times of an attempt are those of its exchanges added up, each in whole
/// milliseconds: until the request could be sent, from then to the first byte, and
/// from then to the end. A timer that lags behind the one before counts as that.
pub proof fn every_exchange_adds_its_times(e: ResultView, c: CallView, lines: Seq<Seq<char>>)
    requires
        run::times_fit(e.calls.push(c)),
        run::times_fit(e.calls),
    ensures
        ({
            let old_out = run::outcome_of(e, lines);
            let out = run::outcome_of((ResultView { calls: e.calls.push(c), ..e }), lines);
            let start = if c.start_transfer < c.pre_transfer {
                c.pre_transfer
            } else {
                c.start_transfer
            };
            let total = if c.total < start {
                start
            } else {
                c.total
            };
            &&& out.setup_ms == old_out.setup_ms + c.pre_transfer as int / 1_000_000
            &&& out.wait_ms == old_out.wait_ms + (start - c.pre_transfer) / 1_000_000
            &&& out.download_ms == old_out.download_ms + (total - start) / 1_000_000
        }),
{
    let all = e.calls.push(c);
    assert(all.drop_last() == e.calls);
    assert(all.last() == c);
    lemma_positive(e.calls);
}

proof fn lemma_positive(calls: Seq<CallView>)
    ensures
        run::setup_total(calls) >= 0,
        run::wait_total(calls) >= 0,
        run::download_total(calls) >= 0,
    decreases calls.len(),
{
    if calls.len() > 0 {
        lemma_positive(calls.drop_last());
    }
}

// ---------------------------------------------------------------------------
// Assertions
// ---------------------------------------------------------------------------
/// Whether a row shows the assertion of a status line.
pub open spec fn shows_status(row: AssertView, a: AssertShapeView) -> bool {
    match a {
        AssertShapeView::Status { actual, expected, failed } => {
            &&& row.expr == "status == "@ + text::decimal(expected as nat)
            &&& row.passed == !failed
            &&& failed ==> row.detail == "got "@ + text::decimal(actual as nat)
            &&& !failed ==> row.detail.len() == 0
        },
        _ => false,
    }
}

/// Whether a row shows an assertion of the `[Asserts]` section: with the words of
/// its line, and why it failed.
pub open spec fn shows_explicit(
    row: AssertView,
    a: AssertShapeView,
    lines: Seq<Seq<char>>,
) -> bool {
    match a {
        AssertShapeView::Explicit { line, failure } => {
            &&& row.passed == (failure is None)
            &&& failure matches Some(why) ==> row.detail == why
            &&& failure is None ==> row.detail.len() == 0
            &&& 1 <= line <= lines.len() ==> row.expr == text::trimmed(lines[line - 1])
            &&& line > lines.len() ==> row.expr.len() == 0
        },
        _ => false,
    }
}

/// Every assertion of a status line is shown, and then every one of the `[Asserts]`
/// section, each in the order in which they were checked and each as it came out.
/// Nothing else is shown.
pub proof fn every_assertion_is_shown(e: ResultView, lines: Seq<Seq<char>>)
    ensures
        ({
            let rows = run::outcome_of(e, lines).asserts;
            let first = e.asserts.filter(|a: AssertShapeView| a is Status);
            let then = e.asserts.filter(|a: AssertShapeView| a is Explicit);
            &&& rows.len() == first.len() + then.len()
            &&& forall|k: int| 0 <= k < first.len() ==> shows_status(#[trigger] rows[k], first[k])
            &&& forall|k: int|
                0 <= k < then.len() ==> #[trigger] shows_explicit(
                    rows[first.len() + k],
                    then[k],
                    lines,
                )
        }),
{
    lemma_status_rows(e.asserts);
    lemma_explicit_rows(e.asserts, lines);
    let rows = run::outcome_of(e, lines).asserts;
    let first = e.asserts.filter(|a: AssertShapeView| a is Status);
    let then = e.asserts.filter(|a: AssertShapeView| a is Explicit);
    assert forall|k: int| 0 <= k < first.len() implies shows_status(#[trigger] rows[k], first[k]) by {
        assert(rows[k] == run::status_rows(e.asserts)[k]);
    }
    assert forall|k: int| 0 <= k < then.len() implies #[trigger] shows_explicit(
        rows[first.len() + k],
        then[k],
        lines,
    ) by {
        assert(rows[first.len() + k] == run::explicit_rows(e.asserts, lines)[k]);
    }
}

proof fn lemma_status_rows(asserts: Seq<AssertShapeView>)
    ensures
        ({
            let rows = run::status_rows(asserts);
            let first = asserts.filter(|a: AssertShapeView| a is Status);
            &&& rows.len() == first.len()
            &&& forall|k: int| 0 <= k < first.len() ==> shows_status(#[trigger] rows[k], first[k])
        }),
    decreases asserts.len(),
{
    reveal(Seq::filter);
    if asserts.len() > 0 {
        lemma_status_rows(asserts.drop_last());
    }
}

proof fn lemma_explicit_rows(asserts: Seq<AssertShapeView>, lines: Seq<Seq<char>>)
    ensures
        ({
            let rows = run::explicit_rows(asserts, lines);
            let then = asserts.filter(|a: AssertShapeView| a is Explicit);
            &&& rows.len() == then.len()
            &&& forall|k: int|
                0 <= k < then.len() ==> shows_explicit(#[trigger] rows[k], then[k], lines)
        }),
    decreases asserts.len(),
{
    reveal(Seq::filter);
    if asserts.len() > 0 {
        lemma_explicit_rows(asserts.drop_last(), lines);
    }
}

// ---------------------------------------------------------------------------
// Failures
// ---------------------------------------------------------------------------
/// Whether an assertion is that of a status line, and failed.
pub open spec fn is_unexpected_status(a: AssertShapeView) -> bool {
    a matches AssertShapeView::Status { failed, .. } && failed
}

/// An attempt has failed if and only if a status was unexpected or the runner
/// reports an error.
pub proof fn an_attempt_fails_for_a_reason(e: ResultView, lines: Seq<Seq<char>>)
    ensures
        run::outcome_of(e, lines).error is None <==> e.errors.len() == 0 && forall|i: int|
            0 <= i < e.asserts.len() ==> !is_unexpected_status(#[trigger] e.asserts[i]),
{
    lemma_mismatch(e.asserts);
}

/// The first unexpected status is told with the one expected, and with the request
/// that was sent last, whatever else went wrong.
pub proof fn an_unexpected_status_is_told(
    e: ResultView,
    before: Seq<CallView>,
    c: CallView,
    i: int,
    lines: Seq<Seq<char>>,
)
    requires
        e.calls == before.push(c),
        0 <= i < e.asserts.len(),
        is_unexpected_status(e.asserts[i]),
        forall|j: int| 0 <= j < i ==> !is_unexpected_status(#[trigger] e.asserts[j]),
        e.asserts[i]->actual <= u16::MAX,
    ensures
        ({
            let actual = e.asserts[i]->actual;
            let words = run::reason_of(actual as u16);
            let got = if words.len() == 0 {
                text::decimal(actual as nat)
            } else {
                text::decimal(actual as nat) + " "@ + words
            };
            run::outcome_of(e, lines).error == Some(
                "Expected status "@ + text::decimal(e.asserts[i]->expected as nat) + " but got "@
                    + got + " ("@ + c.method + " "@ + c.url + ")"@,
            )
        }),
{
    lemma_first_mismatch(e.asserts, i);
    assert(e.calls.last() == c);
}

/// Where every status was expected, the first error of the runner is told, with the
/// line of the file that it is about.
pub proof fn the_first_error_is_told(e: ResultView, lines: Seq<Seq<char>>)
    requires
        e.errors.len() > 0,
        forall|i: int| 0 <= i < e.asserts.len() ==> !is_unexpected_status(#[trigger] e.asserts[i]),
        e.errors[0].line >= 1,
    ensures
        ({
            let first = e.errors[0];
            let line = if first.line <= lines.len() {
                text::trimmed(lines[first.line - 1])
            } else {
                Seq::empty()
            };
            run::outcome_of(e, lines).error == Some(
                if line.len() == 0 {
                    first.description
                } else {
                    first.description + ": "@ + line
                },
            )
        }),
{
    lemma_mismatch(e.asserts);
}

proof fn lemma_mismatch(asserts: Seq<AssertShapeView>)
    ensures
        run::status_mismatch(asserts) is None <==> forall|i: int|
            0 <= i < asserts.len() ==> !is_unexpected_status(#[trigger] asserts[i]),
    decreases asserts.len(),
{
    if asserts.len() > 0 {
        let rest = asserts.skip(1);
        lemma_mismatch(rest);
        assert forall|i: int| 0 <= i < rest.len() implies rest[i] == #[trigger] asserts[i + 1] by {}
        if run::status_mismatch(asserts) is None {
            assert forall|i: int| 0 <= i < asserts.len() implies !is_unexpected_status(
                #[trigger] asserts[i],
            ) by {
                if i > 0 {
                    assert(asserts[i] == rest[i - 1]);
                }
            }
        }
    }
}

proof fn lemma_first_mismatch(asserts: Seq<AssertShapeView>, i: int)
    requires
        0 <= i < asserts.len(),
        is_unexpected_status(asserts[i]),
        forall|j: int| 0 <= j < i ==> !is_unexpected_status(#[trigger] asserts[j]),
    ensures
        run::status_mismatch(asserts) == Some((asserts[i]->actual, asserts[i]->expected)),
    decreases asserts.len(),
{
    if i > 0 {
        let rest = asserts.skip(1);
        assert(!is_unexpected_status(asserts[0]));
        assert forall|j: int| 0 <= j < i - 1 implies !is_unexpected_status(#[trigger] rest[j]) by {
            assert(rest[j] == asserts[j + 1]);
        }
        assert(rest[i - 1] == asserts[i]);
        lemma_first_mismatch(rest, i - 1);
    }
}

// ---------------------------------------------------------------------------
// Retries and variables
// ---------------------------------------------------------------------------
/// Whether an option is one that asks for retries, of any sort.
pub open spec fn is_retry(o: OptionView) -> bool {
    match o {
        OptionView::RetryTimes(_) => true,
        OptionView::RetryForever => true,
        OptionView::RetryNamed(_) => true,
        OptionView::RetryComputed => true,
        _ => false,
    }
}

/// The first option that asks for retries gives the limit, and those behind it and
/// the others count for nothing. A name is looked up; a number below nought means
/// without end, and what is no number means nothing.
pub proof fn the_first_retry_option_gives_the_limit(
    options: Seq<OptionView>,
    vars: Seq<(Seq<char>, Seq<char>)>,
    i: int,
)
    requires
        0 <= i < options.len(),
        is_retry(options[i]),
        forall|j: int| 0 <= j < i ==> !is_retry(#[trigger] options[j]),
    ensures
        run::retries(options),
        match options[i] {
            OptionView::RetryTimes(n) => run::limit_in(options, vars) == RetryLimit::Times(n),
            OptionView::RetryForever => run::limit_in(options, vars) is Forever,
            OptionView::RetryNamed(name) => {
                &&& (forall|k: int| 0 <= k < vars.len() ==> (#[trigger] vars[k]).0 != name)
                    ==> run::limit_in(options, vars) is Unknown
                &&& forall|k: int|
                    0 <= k < vars.len() && (#[trigger] vars[k]).0 == name && (forall|m: int|
                        0 <= m < k ==> (#[trigger] vars[m]).0 != name) ==> match text::integer_in(
                        text::trimmed(vars[k].1),
                    ) {
                        None => run::limit_in(options, vars) is Unknown,
                        Some(n) => if 0 <= n <= usize::MAX {
                            run::limit_in(options, vars) == RetryLimit::Times(n as usize)
                        } else {
                            run::limit_in(options, vars) is Forever
                        },
                    }
            },
            _ => run::limit_in(options, vars) is Unknown,
        },
{
    lemma_limit(options, vars, i);
    assert(run::asks_retry(options[i]));
    if let OptionView::RetryNamed(name) = options[i] {
        if forall|k: int| 0 <= k < vars.len() ==> (#[trigger] vars[k]).0 != name {
            lemma_no_value(vars, name);
        }
        assert forall|k: int|
            0 <= k < vars.len() && (#[trigger] vars[k]).0 == name && (forall|m: int|
                0 <= m < k ==> (#[trigger] vars[m]).0 != name) implies run::value_of(vars, name)
            == Some(vars[k].1) by {
            lemma_value(vars, name, k);
        }
    }
}

/// Without such an option there is no limit and no retry.
pub proof fn without_a_retry_option_nothing_is_retried(
    options: Seq<OptionView>,
    vars: Seq<(Seq<char>, Seq<char>)>,
)
    requires
        forall|j: int| 0 <= j < options.len() ==> !is_retry(#[trigger] options[j]),
    ensures
        !run::retries(options),
        run::limit_in(options, vars) is Unknown,
    decreases options.len(),
{
    assert forall|j: int| 0 <= j < options.len() implies !run::asks_retry(
        #[trigger] options[j],
    ) by {
        assert(!is_retry(options[j]));
    }
    if options.len() > 0 {
        let rest = options.skip(1);
        assert forall|j: int| 0 <= j < rest.len() implies !is_retry(#[trigger] rest[j]) by {
            assert(rest[j] == options[j + 1]);
        }
        without_a_retry_option_nothing_is_retried(rest, vars);
    }
}

proof fn lemma_limit(options: Seq<OptionView>, vars: Seq<(Seq<char>, Seq<char>)>, i: int)
    requires
        0 <= i < options.len(),
        is_retry(options[i]),
        forall|j: int| 0 <= j < i ==> !is_retry(#[trigger] options[j]),
    ensures
        run::limit_in(options, vars) == run::limit_of_option(options[i], vars),
    decreases options.len(),
{
    if i > 0 {
        let rest = options.skip(1);
        assert(!is_retry(options[0]));
        assert(rest[i - 1] == options[i]);
        assert forall|j: int| 0 <= j < i - 1 implies !is_retry(#[trigger] rest[j]) by {
            assert(rest[j] == options[j + 1]);
        }
        lemma_limit(rest, vars, i - 1);
    }
}

proof fn lemma_no_value(vars: Seq<(Seq<char>, Seq<char>)>, name: Seq<char>)
    requires
        forall|k: int| 0 <= k < vars.len() ==> (#[trigger] vars[k]).0 != name,
    ensures
        run::value_of(vars, name) is None,
    decreases vars.len(),
{
    if vars.len() > 0 {
        let rest = vars.skip(1);
        assert(vars[0].0 != name);
        assert forall|k: int| 0 <= k < rest.len() implies (#[trigger] rest[k]).0 != name by {
            assert(rest[k] == vars[k + 1]);
        }
        lemma_no_value(rest, name);
    }
}

proof fn lemma_value(vars: Seq<(Seq<char>, Seq<char>)>, name: Seq<char>, k: int)
    requires
        0 <= k < vars.len(),
        vars[k].0 == name,
        forall|m: int| 0 <= m < k ==> (#[trigger] vars[m]).0 != name,
    ensures
        run::value_of(vars, name) == Some(vars[k].1),
    decreases vars.len(),
{
    if k > 0 {
        let rest = vars.skip(1);
        assert(vars[0].0 != name);
        assert(rest[k - 1] == vars[k]);
        assert forall|m: int| 0 <= m < k - 1 implies (#[trigger] rest[m]).0 != name by {
            assert(rest[m] == vars[m + 1]);
        }
        lemma_value(rest, name, k - 1);
    }
}

proof fn lemma_value_pushed(
    vars: Seq<(Seq<char>, Seq<char>)>,
    v: (Seq<char>, Seq<char>),
    name: Seq<char>,
)
    ensures
        run::value_of(vars.push(v), name) == (if run::value_of(vars, name) is Some {
            run::value_of(vars, name)
        } else if v.0 == name {
            Some(v.1)
        } else {
            None
        }),
    decreases vars.len(),
{
    let all = vars.push(v);
    if vars.len() > 0 {
        assert(all.skip(1) == vars.skip(1).push(v));
        assert(all[0] == vars[0]);
        lemma_value_pushed(vars.skip(1), v, name);
    } else {
        assert(run::value_of(all.skip(1), name) is None);
        assert(run::value_of(vars, name) is None);
    }
}

/// What a request sets by default gives way to what is bound: every bound variable
/// keeps its value, the bound ones come first and as they were, and any other name
/// has the first default that it is given.
pub proof fn a_bound_value_wins_over_a_default(
    vars: Seq<(Seq<char>, Seq<char>)>,
    defaults: Seq<(Seq<char>, Seq<char>)>,
    name: Seq<char>,
)
    ensures
        run::value_of(run::with_defaults(vars, defaults), name) == (if run::value_of(vars, name)
            is Some {
            run::value_of(vars, name)
        } else {
            run::value_of(defaults, name)
        }),
        run::with_defaults(vars, defaults).len() >= vars.len(),
        run::with_defaults(vars, defaults).take(vars.len() as int) == vars,
    decreases defaults.len(),
{
    if defaults.len() > 0 {
        let front = defaults.drop_last();
        let before = run::with_defaults(vars, front);
        a_bound_value_wins_over_a_default(vars, front, name);
        a_bound_value_wins_over_a_default(vars, front, defaults.last().0);
        lemma_value_pushed(before, defaults.last(), name);
        lemma_value_pushed(front, defaults.last(), name);
        assert(front.push(defaults.last()) == defaults);
        assert(before.push(defaults.last()).take(vars.len() as int) == before.take(
            vars.len() as int,
        ));
    } else {
        assert(vars.take(vars.len() as int) == vars);
    }
}

/// The value of a name is that of its first place, and there is none where the name
/// stands nowhere.
pub proof fn a_name_has_its_first_value(vars: Seq<(Seq<char>, Seq<char>)>, name: Seq<char>)
    ensures
        (forall|k: int| 0 <= k < vars.len() ==> (#[trigger] vars[k]).0 != name) ==> run::value_of(
            vars,
            name,
        ) is None,
        forall|k: int|
            0 <= k < vars.len() && (#[trigger] vars[k]).0 == name && (forall|m: int|
                0 <= m < k ==> (#[trigger] vars[m]).0 != name) ==> run::value_of(vars, name)
                == Some(vars[k].1),
{
    if forall|k: int| 0 <= k < vars.len() ==> (#[trigger] vars[k]).0 != name {
        lemma_no_value(vars, name);
    }
    assert forall|k: int|
        0 <= k < vars.len() && (#[trigger] vars[k]).0 == name && (forall|m: int|
            0 <= m < k ==> (#[trigger] vars[m]).0 != name) implies run::value_of(vars, name)
        == Some(vars[k].1) by {
        lemma_value(vars, name, k);
    }
}

/// The variables that a request sets are those of its options, all of them and in
/// order.
pub proof fn every_variable_option_sets_one(options: Seq<OptionView>)
    ensures
        ({
            let set = options.filter(|o: OptionView| o is Variable);
            &&& run::defaults_in(options).len() == set.len()
            &&& forall|k: int|
                0 <= k < set.len() ==> set[k] == OptionView::Variable(
                    (#[trigger] run::defaults_in(options)[k]).0,
                    run::defaults_in(options)[k].1,
                )
        }),
    decreases options.len(),
{
    reveal(Seq::filter);
    if options.len() > 0 {
        every_variable_option_sets_one(options.drop_last());
    }
}

/// A total is the number of attempts where there is one, and the sign of what has
/// no end where there is none.
pub proof fn a_limit_is_told_by_its_number(n: usize)
    ensures
        RetryLimit::Times(n).total_text() == Some(text::decimal(n as nat)),
        RetryLimit::Forever.total_text() == Some("∞"@),
        RetryLimit::Unknown.total_text() is None,
{
}

} // verus!
