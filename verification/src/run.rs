//! What a run comes to.
//!
//! Requests are sent by Hurl's own runner. What it reports is read here into
//! outcomes, and the outcomes into the result of a run; which attempts count,
//! what is said of a failure, and how often a request may be retried are
//! decided here too.
use vstd::prelude::*;
use vstd::utf8::*;

use crate::decode;
use crate::entry;
use crate::json;
use crate::result::{
    AssertOutcome, AssertShape, AssertShapeView, AssertView, CallShape, CallView, EntryOutcome,
    ErrorShape, ErrorView, OutcomeView, ResultShape, ResultView,
};
use crate::result;
use crate::shape::{OptionShape, OptionView};
use crate::text;

verus! {

// ---------------------------------------------------------------------------
// One attempt
// ---------------------------------------------------------------------------
/// The usual words for a status.
pub open spec fn reason_of(status: u16) -> Seq<char> {
    match status {
        200 => "OK"@,
        201 => "Created"@,
        202 => "Accepted"@,
        204 => "No Content"@,
        301 => "Moved Permanently"@,
        302 => "Found"@,
        304 => "Not Modified"@,
        400 => "Bad Request"@,
        401 => "Unauthorized"@,
        403 => "Forbidden"@,
        404 => "Not Found"@,
        405 => "Method Not Allowed"@,
        409 => "Conflict"@,
        422 => "Unprocessable Entity"@,
        429 => "Too Many Requests"@,
        500 => "Internal Server Error"@,
        502 => "Bad Gateway"@,
        503 => "Service Unavailable"@,
        _ => Seq::empty(),
    }
}

/// The line of a given number without the white space around it; nothing where
/// there is no such line.
pub open spec fn line_at(lines: Seq<Seq<char>>, line: usize) -> Seq<char> {
    let i = if line == 0 {
        0
    } else {
        line - 1
    };
    if i < lines.len() {
        text::trimmed(lines[i])
    } else {
        Seq::empty()
    }
}

/// How the assertion of a status line is shown.
pub open spec fn status_row(actual: u64, expected: u64, failed: bool) -> AssertView {
    AssertView {
        expr: "status == "@ + text::decimal(expected as nat),
        passed: !failed,
        detail: if failed {
            "got "@ + text::decimal(actual as nat)
        } else {
            Seq::empty()
        },
    }
}

/// The assertions of the status line.
pub open spec fn status_rows(asserts: Seq<AssertShapeView>) -> Seq<AssertView>
    decreases asserts.len(),
{
    if asserts.len() == 0 {
        Seq::empty()
    } else {
        let before = status_rows(asserts.drop_last());
        match asserts.last() {
            AssertShapeView::Status { actual, expected, failed } => before.push(
                status_row(actual, expected, failed),
            ),
            _ => before,
        }
    }
}

/// How an assertion of the `[Asserts]` section is shown.
pub open spec fn explicit_row(
    lines: Seq<Seq<char>>,
    line: usize,
    failure: Option<Seq<char>>,
) -> AssertView {
    AssertView {
        expr: line_at(lines, line),
        passed: failure is None,
        detail: match failure {
            Some(why) => why,
            None => Seq::empty(),
        },
    }
}

/// The assertions of the `[Asserts]` section.
pub open spec fn explicit_rows(asserts: Seq<AssertShapeView>, lines: Seq<Seq<char>>) -> Seq<
    AssertView,
>
    decreases asserts.len(),
{
    if asserts.len() == 0 {
        Seq::empty()
    } else {
        let before = explicit_rows(asserts.drop_last(), lines);
        match asserts.last() {
            AssertShapeView::Explicit { line, failure } => before.push(
                explicit_row(lines, line, failure),
            ),
            _ => before,
        }
    }
}

/// The first status that was not the one expected, and that one.
pub open spec fn status_mismatch(asserts: Seq<AssertShapeView>) -> Option<(u64, u64)>
    decreases asserts.len(),
{
    if asserts.len() == 0 {
        None
    } else {
        match asserts[0] {
            AssertShapeView::Status { actual, expected, failed: true } => Some((actual, expected)),
            _ => status_mismatch(asserts.skip(1)),
        }
    }
}

/// A status with its words, if it has any.
pub open spec fn status_in_words(status: u64) -> Seq<char> {
    let reason = reason_of(status as u16);
    if reason.len() == 0 {
        text::decimal(status as nat)
    } else {
        text::decimal(status as nat) + " "@ + reason
    }
}

/// An error of the runner on one line, with the line of the file it is about.
pub open spec fn error_text(e: ErrorView, lines: Seq<Seq<char>>) -> Seq<char> {
    let line = line_at(lines, e.line);
    if line.len() == 0 {
        e.description
    } else {
        e.description + ": "@ + line
    }
}

/// The method and URL of the last exchange.
pub open spec fn last_sent(calls: Seq<CallView>) -> (Seq<char>, Seq<char>) {
    if calls.len() == 0 {
        (Seq::empty(), Seq::empty())
    } else {
        (calls.last().method, calls.last().url)
    }
}

/// What went wrong, if anything did. An unexpected status is told together with
/// the one expected; anything else as the runner tells it.
pub open spec fn failure_of(e: ResultView, lines: Seq<Seq<char>>) -> Option<Seq<char>> {
    match status_mismatch(e.asserts) {
        Some((actual, expected)) => Some(
            "Expected status "@ + text::decimal(expected as nat) + " but got "@ + status_in_words(
                actual,
            ) + " ("@ + last_sent(e.calls).0 + " "@ + last_sent(e.calls).1 + ")"@,
        ),
        None => if e.errors.len() > 0 {
            Some(error_text(e.errors[0], lines))
        } else {
            None
        },
    }
}

/// Whole milliseconds.
pub open spec fn millis(nanos: int) -> int {
    nanos / 1_000_000
}

pub open spec fn later(a: u64, b: u64) -> u64 {
    if a > b {
        a
    } else {
        b
    }
}

/// Milliseconds of an exchange until the request could be sent.
pub open spec fn setup_of(c: CallView) -> int {
    millis(c.pre_transfer as int)
}

/// Milliseconds of an exchange from then to the first byte of the response. The
/// timers are separate samples; one that lags behind counts as the one before.
pub open spec fn wait_of(c: CallView) -> int {
    millis(later(c.start_transfer, c.pre_transfer) - c.pre_transfer)
}

/// Milliseconds of an exchange from then to its end.
pub open spec fn download_of(c: CallView) -> int {
    let start = later(c.start_transfer, c.pre_transfer);
    millis(later(c.total, start) - start)
}

/// A quantity summed over all exchanges.
pub open spec fn summed(calls: Seq<CallView>, f: spec_fn(CallView) -> int) -> int
    decreases calls.len(),
{
    if calls.len() == 0 {
        0
    } else {
        summed(calls.drop_last(), f) + f(calls.last())
    }
}

pub open spec fn setup_total(calls: Seq<CallView>) -> int {
    summed(calls, |c: CallView| setup_of(c))
}

pub open spec fn wait_total(calls: Seq<CallView>) -> int {
    summed(calls, |c: CallView| wait_of(c))
}

pub open spec fn download_total(calls: Seq<CallView>) -> int {
    summed(calls, |c: CallView| download_of(c))
}

/// Whether the times of all exchanges together can be counted.
pub open spec fn times_fit(calls: Seq<CallView>) -> bool {
    setup_total(calls) <= u64::MAX && wait_total(calls) <= u64::MAX && download_total(calls)
        <= u64::MAX
}

/// What came of an attempt, given the text of its response's body as it is
/// and as laid out.
pub open spec fn outcome_with(
    e: ResultView,
    lines: Seq<Seq<char>>,
    raw: Seq<char>,
    body: Seq<char>,
) -> OutcomeView {
    let answered = e.calls.len() > 0;
    let status = if answered {
        e.calls.last().status as u16
    } else {
        0
    };
    OutcomeView {
        entry_index: e.entry_index,
        superseded: false,
        method: last_sent(e.calls).0,
        url: last_sent(e.calls).1,
        status,
        status_text: reason_of(status),
        headers: if answered {
            e.calls.last().headers
        } else {
            Seq::empty()
        },
        body,
        raw_body: raw,
        asserts: status_rows(e.asserts) + explicit_rows(e.asserts, lines),
        captures: e.captures,
        duration_ms: millis(e.transfer_duration as int) as u64,
        setup_ms: setup_total(e.calls) as u64,
        wait_ms: wait_total(e.calls) as u64,
        download_ms: download_total(e.calls) as u64,
        ok: e.errors.len() == 0,
        error: failure_of(e, lines),
    }
}

/// What `String::from_utf8_lossy` makes of bytes that are no UTF-8.
pub uninterp spec fn patched_text(b: Seq<u8>) -> Seq<char>;

/// The text of some bytes, with what is no UTF-8 in them replaced.
pub open spec fn lossy_text(b: Seq<u8>) -> Seq<char> {
    if valid_utf8(b) {
        decode_utf8(b)
    } else {
        patched_text(b)
    }
}

/// A text laid out, where it is JSON.
pub open spec fn laid_out_if_json(s: Seq<char>) -> Seq<char> {
    match json::json_laid_out(s) {
        Some(p) => p,
        None => s,
    }
}

/// The text of the last response's body, uncompressed.
pub open spec fn raw_body_of(calls: Seq<CallView>) -> Seq<char> {
    if calls.len() == 0 {
        Seq::empty()
    } else {
        lossy_text(decode::plain(calls.last().headers, calls.last().body))
    }
}

/// The text of the last response's body, laid out where it is JSON.
pub open spec fn body_of(calls: Seq<CallView>) -> Seq<char> {
    if calls.len() == 0 {
        Seq::empty()
    } else {
        laid_out_if_json(raw_body_of(calls))
    }
}

/// What came of an attempt.
pub open spec fn outcome_of(e: ResultView, lines: Seq<Seq<char>>) -> OutcomeView {
    outcome_with(e, lines, raw_body_of(e.calls), body_of(e.calls))
}

// ---------------------------------------------------------------------------
// Reading one attempt
// ---------------------------------------------------------------------------
/// The usual words for a status.
pub fn reason(status: u16) -> (r: &'static str)
    ensures
        r@ == reason_of(status),
{
    match status {
        200 => "OK",
        201 => "Created",
        202 => "Accepted",
        204 => "No Content",
        301 => "Moved Permanently",
        302 => "Found",
        304 => "Not Modified",
        400 => "Bad Request",
        401 => "Unauthorized",
        403 => "Forbidden",
        404 => "Not Found",
        405 => "Method Not Allowed",
        409 => "Conflict",
        422 => "Unprocessable Entity",
        429 => "Too Many Requests",
        500 => "Internal Server Error",
        502 => "Bad Gateway",
        503 => "Service Unavailable",
        _ => {
            proof {
                reveal_strlit("");
            }
            ""
        },
    }
}

/// The line of a given number without the white space around it.
fn trimmed_line(lines: &[String], line: usize) -> (r: String)
    ensures
        r@ == line_at(lines.deep_view(), line),
{
    let i: usize = if line == 0 {
        0
    } else {
        line - 1
    };
    if i < lines.len() {
        assert(lines.deep_view()[i as int] == lines@[i as int]@);
        text::trim(lines[i].as_str())
    } else {
        String::new()
    }
}

/// How the assertion of a status line is shown.
fn show_status(actual: u64, expected: u64, failed: bool) -> (r: AssertOutcome)
    ensures
        r.deep_view() == status_row(actual, expected, failed),
{
    let mut expr = "status == ".to_owned();
    expr.push_str(text::to_decimal(expected as u128).as_str());
    let mut detail = String::new();
    if failed {
        detail.push_str("got ");
        detail.push_str(text::to_decimal(actual as u128).as_str());
        assert(detail@ == "got "@ + text::decimal(actual as nat));
    }
    AssertOutcome { expr, passed: !failed, detail }
}

/// The assertions that a response shows: that of the status line first, then
/// those of the `[Asserts]` section.
fn show_asserts(asserts: &[AssertShape], lines: &[String]) -> (r: Vec<AssertOutcome>)
    ensures
        r.deep_view() == status_rows(asserts.deep_view()) + explicit_rows(
            asserts.deep_view(),
            lines.deep_view(),
        ),
{
    let ghost all = asserts.deep_view();
    let ghost src = lines.deep_view();
    let mut out: Vec<AssertOutcome> = Vec::new();
    for i in 0..asserts.len()
        invariant
            all == asserts.deep_view(),
            out.deep_view() == status_rows(all.take(i as int)),
    {
        let ghost done = out.deep_view();
        assert(all.take(i + 1).drop_last() == all.take(i as int));
        assert(all.take(i + 1).last() == asserts@[i as int].deep_view());
        if let AssertShape::Status { actual, expected, failed } = &asserts[i] {
            let row = show_status(*actual, *expected, *failed);
            out.push(row);
            assert(out.deep_view() == done.push(row.deep_view()));
        }
    }
    assert(all.take(all.len() as int) == all);
    let ghost first = out.deep_view();
    assert(first + explicit_rows(all.take(0), src) == first);
    for i in 0..asserts.len()
        invariant
            all == asserts.deep_view(),
            src == lines.deep_view(),
            out.deep_view() == first + explicit_rows(all.take(i as int), src),
    {
        let ghost done = out.deep_view();
        assert(all.take(i + 1).drop_last() == all.take(i as int));
        assert(all.take(i + 1).last() == asserts@[i as int].deep_view());
        if let AssertShape::Explicit { line, failure } = &asserts[i] {
            let row = AssertOutcome {
                expr: trimmed_line(lines, *line),
                passed: failure.is_none(),
                detail: match failure {
                    Some(why) => why.clone(),
                    None => String::new(),
                },
            };
            assert(row.deep_view() == explicit_row(src, *line, failure.deep_view()));
            out.push(row);
            assert(out.deep_view() == done.push(row.deep_view()));
        }
        assert(out.deep_view() == first + explicit_rows(all.take(i + 1), src));
    }
    out
}

/// The first status that was not the one expected, and that one.
fn find_mismatch(asserts: &[AssertShape]) -> (r: Option<(u64, u64)>)
    ensures
        r == status_mismatch(asserts.deep_view()),
{
    let ghost all = asserts.deep_view();
    let mut i: usize = 0;
    assert(all.skip(0) == all);
    while i < asserts.len()
        invariant
            all == asserts.deep_view(),
            i <= asserts.len(),
            status_mismatch(all) == status_mismatch(all.skip(i as int)),
        decreases asserts.len() - i,
    {
        assert(all.skip(i as int)[0] == asserts@[i as int].deep_view());
        assert(all.skip(i as int).skip(1) == all.skip(i + 1));
        if let AssertShape::Status { actual, expected, failed } = &asserts[i] {
            if *failed {
                return Some((*actual, *expected));
            }
        }
        i += 1;
    }
    None
}

/// An error of the runner on one line.
fn render_error(e: &ErrorShape, lines: &[String]) -> (r: String)
    ensures
        r@ == error_text(e.deep_view(), lines.deep_view()),
{
    let line = trimmed_line(lines, e.line);
    let mut out = e.description.clone();
    if !line.as_str().is_empty() {
        out.push_str(": ");
        out.push_str(line.as_str());
    }
    out
}

/// What went wrong, if anything did.
fn describe_failure(e: &ResultShape, lines: &[String]) -> (r: Option<String>)
    ensures
        r.deep_view() == failure_of(e.deep_view(), lines.deep_view()),
{
    match find_mismatch(e.asserts.as_slice()) {
        Some((actual, expected)) => {
            let mut out = "Expected status ".to_owned();
            out.push_str(text::to_decimal(expected as u128).as_str());
            out.push_str(" but got ");
            out.push_str(text::to_decimal(actual as u128).as_str());
            #[verifier::truncate]
            let words = reason(actual as u16);
            if !words.is_empty() {
                out.push_str(" ");
                out.push_str(words);
            }
            out.push_str(" (");
            if e.calls.len() > 0 {
                let last = &e.calls[e.calls.len() - 1];
                assert(e.calls.deep_view().last() == last.deep_view());
                out.push_str(last.method.as_str());
                out.push_str(" ");
                out.push_str(last.url.as_str());
            } else {
                out.push_str(" ");
            }
            out.push_str(")");
            assert(out@ == failure_of(e.deep_view(), lines.deep_view()).unwrap());
            Some(out)
        },
        None => {
            if e.errors.len() > 0 {
                assert(e.errors.deep_view()[0] == e.errors@[0].deep_view());
                Some(render_error(&e.errors[0], lines))
            } else {
                None
            }
        },
    }
}

/// The later of two times.
fn later_of(a: u64, b: u64) -> (r: u64)
    ensures
        r == later(a, b),
{
    if a > b {
        a
    } else {
        b
    }
}

/// Milliseconds of an exchange until it could be sent, to the first byte of its
/// response, and to its end.
fn split_times(c: &CallShape) -> (r: (u64, u64, u64))
    ensures
        r.0 == setup_of(c.deep_view()),
        r.1 == wait_of(c.deep_view()),
        r.2 == download_of(c.deep_view()),
{
    let start: u64 = later_of(c.start_transfer, c.pre_transfer);
    let total: u64 = later_of(c.total, start);
    (
        c.pre_transfer / 1_000_000,
        (start - c.pre_transfer) / 1_000_000,
        (total - start) / 1_000_000,
    )
}

proof fn lemma_summed_grows(calls: Seq<CallView>, f: spec_fn(CallView) -> int, n: int)
    requires
        0 <= n <= calls.len(),
        forall|c: CallView| #[trigger] f(c) >= 0,
    ensures
        0 <= summed(calls.take(n), f) <= summed(calls, f),
    decreases calls.len() - n, n,
{
    if n < calls.len() {
        lemma_summed_grows(calls, f, n + 1);
        assert(calls.take(n + 1).drop_last() == calls.take(n));
        lemma_summed_positive(calls.take(n), f);
    } else {
        assert(calls.take(n) == calls);
        lemma_summed_positive(calls, f);
    }
}

proof fn lemma_summed_positive(calls: Seq<CallView>, f: spec_fn(CallView) -> int)
    requires
        forall|c: CallView| #[trigger] f(c) >= 0,
    ensures
        summed(calls, f) >= 0,
    decreases calls.len(),
{
    if calls.len() > 0 {
        lemma_summed_positive(calls.drop_last(), f);
    }
}

/// The milliseconds of all exchanges, in the three parts; `None` where they
/// cannot be counted.
fn sum_times(calls: &[CallShape]) -> (r: Option<(u64, u64, u64)>)
    ensures
        r is Some == times_fit(calls.deep_view()),
        r matches Some(t) ==> t.0 == setup_total(calls.deep_view()) && t.1 == wait_total(
            calls.deep_view(),
        ) && t.2 == download_total(calls.deep_view()),
{
    let ghost all = calls.deep_view();
    let ghost f = |c: CallView| setup_of(c);
    let ghost g = |c: CallView| wait_of(c);
    let ghost h = |c: CallView| download_of(c);
    let mut setup: u64 = 0;
    let mut wait: u64 = 0;
    let mut download: u64 = 0;
    for i in 0..calls.len()
        invariant
            all == calls.deep_view(),
            f == (|c: CallView| setup_of(c)),
            g == (|c: CallView| wait_of(c)),
            h == (|c: CallView| download_of(c)),
            setup == summed(all.take(i as int), f),
            wait == summed(all.take(i as int), g),
            download == summed(all.take(i as int), h),
    {
        assert(all.take(i + 1).drop_last() == all.take(i as int));
        assert(all.take(i + 1).last() == calls@[i as int].deep_view());
        let (s, w, d) = split_times(&calls[i]);
        proof {
            lemma_summed_grows(all, f, i + 1);
            lemma_summed_grows(all, g, i + 1);
            lemma_summed_grows(all, h, i + 1);
            assert(summed(all.take(i + 1), f) == setup + s);
            assert(summed(all.take(i + 1), g) == wait + w);
            assert(summed(all.take(i + 1), h) == download + d);
        }
        if s > u64::MAX - setup || w > u64::MAX - wait || d > u64::MAX - download {
            return None;
        }
        setup = setup + s;
        wait = wait + w;
        download = download + d;
    }
    assert(all.take(all.len() as int) == all);
    Some((setup, wait, download))
}

/// Whether the times of an attempt's exchanges together can be counted.
pub fn times_can_be_counted(e: &ResultShape) -> (r: bool)
    ensures
        r == times_fit(e.deep_view().calls),
{
    sum_times(e.calls.as_slice()).is_some()
}

/// Reads what came of an attempt, given the text of its response's body as
/// it is and as laid out.
pub fn map_entry_result_with(e: &ResultShape, lines: &[String], raw_body: String, body: String) -> (r:
    EntryOutcome)
    requires
        times_fit(e.deep_view().calls),
    ensures
        r.deep_view() == outcome_with(e.deep_view(), lines.deep_view(), raw_body@, body@),
{
    let mut out = EntryOutcome::default();
    out.entry_index = e.entry_index;
    if e.calls.len() > 0 {
        let last = &e.calls[e.calls.len() - 1];
        assert(e.calls.deep_view().last() == last.deep_view());
        out.method = last.method.clone();
        out.url = last.url.clone();
        #[verifier::truncate]
        let status: u16 = last.status as u16;
        out.status = status;
        out.headers = entry::clone_pairs(&last.headers);
    }
    out.status_text = reason(out.status).to_owned();
    out.raw_body = raw_body;
    out.body = body;
    out.asserts = show_asserts(e.asserts.as_slice(), lines);
    out.captures = entry::clone_pairs(&e.captures);
    out.duration_ms = e.transfer_duration / 1_000_000;
    if let Some((setup, wait, download)) = sum_times(e.calls.as_slice()) {
        out.setup_ms = setup;
        out.wait_ms = wait;
        out.download_ms = download;
    }
    out.ok = e.errors.len() == 0;
    out.error = describe_failure(e, lines);
    assert(out.deep_view() == outcome_with(
        e.deep_view(),
        lines.deep_view(),
        raw_body@,
        body@,
    ));
    out
}

/// `String::from_utf8_lossy`: the text that the bytes encode where they are
/// UTF-8. What is put in place of those that are none is left unsaid.
#[verifier::external_body]
fn read_lossy(b: &[u8]) -> (r: String)
    ensures
        valid_utf8(b@) ==> r@ == decode_utf8(b@),
        !valid_utf8(b@) ==> r@ == patched_text(b@),
{
    String::from_utf8_lossy(b).to_string()
}

/// Reads what came of an attempt.
pub fn map_entry_result(e: &ResultShape, lines: &[String]) -> (r: EntryOutcome)
    requires
        times_fit(e.deep_view().calls),
    ensures
        r.deep_view() == outcome_of(e.deep_view(), lines.deep_view()),
{
    let mut raw = String::new();
    let mut body = String::new();
    if e.calls.len() > 0 {
        let last = &e.calls[e.calls.len() - 1];
        assert(e.calls.deep_view().last() == last.deep_view());
        let bytes = decode::plain_body(last.headers.as_slice(), last.body.clone());
        raw = read_lossy(bytes.as_slice());
        body = match json::lay_out_json(raw.as_str()) {
            Some(p) => p,
            None => raw.clone(),
        };
    }
    map_entry_result_with(e, lines, raw, body)
}

// ---------------------------------------------------------------------------
// How often a request may be retried
// ---------------------------------------------------------------------------
/// How many attempts a request allows.
#[derive(Debug, Clone, Copy, PartialEq, Eq, Structural)]
pub enum RetryLimit {
    /// Nothing to count towards: the request does not ask to be retried, or in
    /// a way that says no number.
    Unknown,
    /// Until it holds.
    Forever,
    /// That often.
    Times(usize),
}

impl Default for RetryLimit {
    fn default() -> (r: Self)
        ensures
            r == RetryLimit::Unknown,
    {
        RetryLimit::Unknown
    }
}

/// The limit that a number stands for: one below nought is no limit, and so is
/// one that cannot be counted to.
pub open spec fn limit_from(n: int) -> RetryLimit {
    if n < 0 || n > usize::MAX {
        RetryLimit::Forever
    } else {
        RetryLimit::Times(n as usize)
    }
}

impl From<i64> for RetryLimit {
    fn from(n: i64) -> (r: Self) {
        if n < 0 || n as u64 > usize::MAX as u64 {
            RetryLimit::Forever
        } else {
            RetryLimit::Times(n as usize)
        }
    }
}

impl vstd::std_specs::convert::FromSpecImpl<i64> for RetryLimit {
    open spec fn obeys_from_spec() -> bool {
        true
    }

    open spec fn from_spec(n: i64) -> Self {
        limit_from(n as int)
    }
}

impl RetryLimit {
    /// The total to put behind "retry 2 of", where there is one worth putting
    /// there.
    pub open spec fn total_text(self) -> Option<Seq<char>> {
        match self {
            RetryLimit::Times(n) => Some(text::decimal(n as nat)),
            RetryLimit::Forever => Some("∞"@),
            RetryLimit::Unknown => None,
        }
    }

    /// The total to put behind "retry 2 of", where there is one worth putting
    /// there.
    pub fn total(self) -> (r: Option<String>)
        ensures
            r.deep_view() == self.total_text(),
    {
        match self {
            RetryLimit::Times(n) => Some(text::to_decimal(n as u128)),
            RetryLimit::Forever => Some("∞".to_owned()),
            RetryLimit::Unknown => None,
        }
    }
}

/// The value of the first of some variables with a given name.
pub open spec fn value_of(vars: Seq<(Seq<char>, Seq<char>)>, name: Seq<char>) -> Option<Seq<char>>
    decreases vars.len(),
{
    if vars.len() == 0 {
        None
    } else if vars[0].0 == name {
        Some(vars[0].1)
    } else {
        value_of(vars.skip(1), name)
    }
}

/// Whether an option asks for retries.
pub open spec fn asks_retry(o: OptionView) -> bool {
    o is RetryTimes || o is RetryForever || o is RetryNamed || o is RetryComputed
}

/// The limit that an option gives, given the variables.
pub open spec fn limit_of_option(o: OptionView, vars: Seq<(Seq<char>, Seq<char>)>) -> RetryLimit {
    match o {
        OptionView::RetryTimes(n) => RetryLimit::Times(n),
        OptionView::RetryForever => RetryLimit::Forever,
        OptionView::RetryNamed(name) => match value_of(vars, name) {
            Some(v) => match text::integer_in(text::trimmed(v)) {
                Some(n) => limit_from(n),
                None => RetryLimit::Unknown,
            },
            None => RetryLimit::Unknown,
        },
        _ => RetryLimit::Unknown,
    }
}

/// The limit that a request's options give: that of the first that asks for
/// retries.
pub open spec fn limit_in(options: Seq<OptionView>, vars: Seq<(Seq<char>, Seq<char>)>) -> RetryLimit
    decreases options.len(),
{
    if options.len() == 0 {
        RetryLimit::Unknown
    } else if asks_retry(options[0]) {
        limit_of_option(options[0], vars)
    } else {
        limit_in(options.skip(1), vars)
    }
}

/// Whether a request's options ask for retries.
pub open spec fn retries(options: Seq<OptionView>) -> bool {
    exists|i: int| 0 <= i < options.len() && asks_retry(#[trigger] options[i])
}

/// The variables that a request's options set.
pub open spec fn defaults_in(options: Seq<OptionView>) -> Seq<(Seq<char>, Seq<char>)>
    decreases options.len(),
{
    if options.len() == 0 {
        Seq::empty()
    } else {
        let before = defaults_in(options.drop_last());
        match options.last() {
            OptionView::Variable(name, value) => before.push((name, value)),
            _ => before,
        }
    }
}

/// Some variables, with those of `defaults` that they lack.
pub open spec fn with_defaults(
    vars: Seq<(Seq<char>, Seq<char>)>,
    defaults: Seq<(Seq<char>, Seq<char>)>,
) -> Seq<(Seq<char>, Seq<char>)>
    decreases defaults.len(),
{
    if defaults.len() == 0 {
        vars
    } else {
        let before = with_defaults(vars, defaults.drop_last());
        if value_of(before, defaults.last().0) is Some {
            before
        } else {
            before.push(defaults.last())
        }
    }
}

/// The value of the first of some variables with a given name.
fn find_value<'a>(vars: &'a [(String, String)], name: &str) -> (r: Option<&'a str>)
    ensures
        match r {
            Some(v) => value_of(vars.deep_view(), name@) == Some(v@),
            None => value_of(vars.deep_view(), name@) is None,
        },
{
    let ghost all = vars.deep_view();
    let mut i: usize = 0;
    assert(all.skip(0) == all);
    while i < vars.len()
        invariant
            all == vars.deep_view(),
            i <= vars.len(),
            value_of(all, name@) == value_of(all.skip(i as int), name@),
        decreases vars.len() - i,
    {
        assert(all.skip(i as int)[0] == vars@[i as int].deep_view());
        assert(all.skip(i as int).skip(1) == all.skip(i + 1));
        if text::same(vars[i].0.as_str(), name) {
            return Some(vars[i].1.as_str());
        }
        i += 1;
    }
    None
}

/// Reads the limit off a request's options, looking a `{{name}}` up among the
/// variables that the request is about to run with.
pub fn entry_retry_limit(options: &[OptionShape], vars: &[(String, String)]) -> (r: RetryLimit)
    ensures
        r == limit_in(options.deep_view(), vars.deep_view()),
{
    let ghost all = options.deep_view();
    let mut i: usize = 0;
    assert(all.skip(0) == all);
    while i < options.len()
        invariant
            all == options.deep_view(),
            i <= options.len(),
            limit_in(all, vars.deep_view()) == limit_in(all.skip(i as int), vars.deep_view()),
        decreases options.len() - i,
    {
        assert(all.skip(i as int)[0] == options@[i as int].deep_view());
        assert(all.skip(i as int).skip(1) == all.skip(i + 1));
        match &options[i] {
            OptionShape::RetryTimes(n) => {
                return RetryLimit::Times(*n);
            },
            OptionShape::RetryForever => {
                return RetryLimit::Forever;
            },
            OptionShape::RetryNamed(name) => {
                return match find_value(vars, name.as_str()) {
                    Some(v) => match text::parse_integer(text::trim(v).as_str()) {
                        Some(n) => RetryLimit::from(n),
                        None => RetryLimit::Unknown,
                    },
                    None => RetryLimit::Unknown,
                };
            },
            OptionShape::RetryComputed => {
                return RetryLimit::Unknown;
            },
            _ => {},
        }
        i += 1;
    }
    RetryLimit::Unknown
}

/// Whether a request asks to be retried until its assertions hold.
pub fn entry_retries(options: &[OptionShape]) -> (r: bool)
    ensures
        r == retries(options.deep_view()),
{
    let ghost all = options.deep_view();
    for i in 0..options.len()
        invariant
            all == options.deep_view(),
            forall|j: int| 0 <= j < i ==> !asks_retry(#[trigger] all[j]),
    {
        assert(all[i as int] == options@[i as int].deep_view());
        let asks = match &options[i] {
            OptionShape::RetryTimes(_)
            | OptionShape::RetryForever
            | OptionShape::RetryNamed(_)
            | OptionShape::RetryComputed => true,
            _ => false,
        };
        if asks {
            return true;
        }
    }
    false
}

/// The variables that a request's options set.
pub fn entry_variable_defaults(options: &[OptionShape]) -> (r: Vec<(String, String)>)
    ensures
        r.deep_view() == defaults_in(options.deep_view()),
{
    let ghost all = options.deep_view();
    let mut out: Vec<(String, String)> = Vec::new();
    for i in 0..options.len()
        invariant
            all == options.deep_view(),
            out.deep_view() == defaults_in(all.take(i as int)),
    {
        let ghost done = out.deep_view();
        assert(all.take(i + 1).drop_last() == all.take(i as int));
        assert(all.take(i + 1).last() == options@[i as int].deep_view());
        if let OptionShape::Variable(name, value) = &options[i] {
            out.push((name.clone(), value.clone()));
            assert(out.deep_view() == done.push((name@, value@)));
        }
    }
    assert(all.take(all.len() as int) == all);
    out
}

/// Some variables, with those of a request's own defaults that they lack.
pub fn layer_defaults(vars: &[(String, String)], defaults: &[(String, String)]) -> (r: Vec<
    (String, String),
>)
    ensures
        r.deep_view() == with_defaults(vars.deep_view(), defaults.deep_view()),
{
    let ghost all = defaults.deep_view();
    let mut out: Vec<(String, String)> = Vec::new();
    for i in 0..vars.len()
        invariant
            out.len() == i,
            forall|j: int| 0 <= j < i ==> (#[trigger] out@[j]).deep_view() == vars@[j].deep_view(),
    {
        out.push((vars[i].0.clone(), vars[i].1.clone()));
    }
    assert(out.deep_view() == vars.deep_view());
    for i in 0..defaults.len()
        invariant
            all == defaults.deep_view(),
            out.deep_view() == with_defaults(vars.deep_view(), all.take(i as int)),
    {
        let ghost done = out.deep_view();
        assert(all.take(i + 1).drop_last() == all.take(i as int));
        assert(all.take(i + 1).last() == defaults@[i as int].deep_view());
        let known = find_value(out.as_slice(), defaults[i].0.as_str()).is_some();
        if !known {
            out.push((defaults[i].0.clone(), defaults[i].1.clone()));
            assert(out.deep_view() == done.push(defaults@[i as int].deep_view()));
        }
    }
    assert(all.take(all.len() as int) == all);
    out
}

} // verus!
