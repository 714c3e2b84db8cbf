//! What came of running a request, in plain values.
//!
//! [`ResultShape`] is what Hurl's runner reports of one attempt, reduced to what
//! an [`EntryOutcome`] is read from. Times are in nanoseconds.
use vstd::prelude::*;

use crate::entry;

verus! {

/// One exchange with a server. A request that is redirected has several.
#[derive(Debug)]
pub struct CallShape {
    pub method: String,
    pub url: String,
    pub status: u32,
    pub headers: Vec<(String, String)>,
    /// The response body as received.
    pub body: Vec<u8>,
    /// When the connection was ready for the request to be sent.
    pub pre_transfer: u64,
    /// When the first byte of the response was in.
    pub start_transfer: u64,
    /// When the exchange was over.
    pub total: u64,
}

/// What a [`CallShape`] holds.
#[verifier::ext_equal]
pub struct CallView {
    pub method: Seq<char>,
    pub url: Seq<char>,
    pub status: u32,
    pub headers: Seq<(Seq<char>, Seq<char>)>,
    pub body: Seq<u8>,
    pub pre_transfer: u64,
    pub start_transfer: u64,
    pub total: u64,
}

impl DeepView for CallShape {
    type V = CallView;

    open spec fn deep_view(&self) -> CallView {
        CallView {
            method: self.method@,
            url: self.url@,
            status: self.status,
            headers: self.headers.deep_view(),
            body: self.body@,
            pre_transfer: self.pre_transfer,
            start_transfer: self.start_transfer,
            total: self.total,
        }
    }
}

/// What came of one assertion.
#[derive(Debug)]
pub enum AssertShape {
    /// The one that a status line makes.
    Status { actual: u64, expected: u64, failed: bool },
    /// One of the `[Asserts]` section, by its line counted from one; why it
    /// failed, if it did.
    Explicit { line: usize, failure: Option<String> },
    /// Any other that a response line or header makes.
    Other,
}

/// What an [`AssertShape`] holds.
#[verifier::ext_equal]
pub enum AssertShapeView {
    Status { actual: u64, expected: u64, failed: bool },
    Explicit { line: usize, failure: Option<Seq<char>> },
    Other,
}

impl DeepView for AssertShape {
    type V = AssertShapeView;

    open spec fn deep_view(&self) -> AssertShapeView {
        match self {
            AssertShape::Status { actual, expected, failed } => AssertShapeView::Status {
                actual: *actual,
                expected: *expected,
                failed: *failed,
            },
            AssertShape::Explicit { line, failure } => AssertShapeView::Explicit {
                line: *line,
                failure: failure.deep_view(),
            },
            AssertShape::Other => AssertShapeView::Other,
        }
    }
}

/// An error of the runner, with its line counted from one.
#[derive(Debug)]
pub struct ErrorShape {
    pub description: String,
    pub line: usize,
}

/// What an [`ErrorShape`] holds.
#[verifier::ext_equal]
pub struct ErrorView {
    pub description: Seq<char>,
    pub line: usize,
}

impl DeepView for ErrorShape {
    type V = ErrorView;

    open spec fn deep_view(&self) -> ErrorView {
        ErrorView { description: self.description@, line: self.line }
    }
}

/// What the runner reports of one attempt at a request.
#[derive(Debug)]
pub struct ResultShape {
    /// The request's place in the file, counted from nought.
    pub entry_index: usize,
    pub calls: Vec<CallShape>,
    pub captures: Vec<(String, String)>,
    pub asserts: Vec<AssertShape>,
    pub errors: Vec<ErrorShape>,
    pub transfer_duration: u64,
}

/// What a [`ResultShape`] holds.
#[verifier::ext_equal]
pub struct ResultView {
    pub entry_index: usize,
    pub calls: Seq<CallView>,
    pub captures: Seq<(Seq<char>, Seq<char>)>,
    pub asserts: Seq<AssertShapeView>,
    pub errors: Seq<ErrorView>,
    pub transfer_duration: u64,
}

impl DeepView for ResultShape {
    type V = ResultView;

    open spec fn deep_view(&self) -> ResultView {
        ResultView {
            entry_index: self.entry_index,
            calls: self.calls.deep_view(),
            captures: self.captures.deep_view(),
            asserts: self.asserts.deep_view(),
            errors: self.errors.deep_view(),
            transfer_duration: self.transfer_duration,
        }
    }
}

/// What came of one assertion, as a response shows it.
#[derive(Debug)]
pub struct AssertOutcome {
    /// The assertion as it is written.
    pub expr: String,
    pub passed: bool,
    /// A short reason for a failure; empty otherwise.
    pub detail: String,
}

/// What an [`AssertOutcome`] holds.
#[verifier::ext_equal]
pub struct AssertView {
    pub expr: Seq<char>,
    pub passed: bool,
    pub detail: Seq<char>,
}

impl DeepView for AssertOutcome {
    type V = AssertView;

    open spec fn deep_view(&self) -> AssertView {
        AssertView { expr: self.expr@, passed: self.passed, detail: self.detail@ }
    }
}

impl Clone for AssertOutcome {
    fn clone(&self) -> (r: Self)
        ensures
            r.deep_view() == self.deep_view(),
    {
        AssertOutcome {
            expr: self.expr.clone(),
            passed: self.passed,
            detail: self.detail.clone(),
        }
    }
}

/// What came of one attempt at a request.
#[derive(Debug)]
pub struct EntryOutcome {
    /// The request's place in the file, counted from nought. A request that is
    /// repeated or retried has several outcomes, all with its index.
    pub entry_index: usize,
    /// Whether a later attempt at the same request replaced this one. Only ever
    /// so for a request that asks to be retried: the runs of one that asks to
    /// be repeated all count.
    pub superseded: bool,
    /// The method and URL that were sent.
    pub method: String,
    pub url: String,
    pub status: u16,
    pub status_text: String,
    pub headers: Vec<(String, String)>,
    /// The response body, laid out where it is JSON.
    pub body: String,
    /// The response body as the server wrote it.
    pub raw_body: String,
    pub asserts: Vec<AssertOutcome>,
    pub captures: Vec<(String, String)>,
    /// How long the exchanges took, in milliseconds.
    pub duration_ms: u64,
    /// Of that, what went by until the request could be sent: name lookup,
    /// connection, handshake.
    pub setup_ms: u64,
    /// What went by from then to the first byte of the response.
    pub wait_ms: u64,
    /// What went by from then to the last.
    pub download_ms: u64,
    /// Whether there was no error.
    pub ok: bool,
    /// The first error, on one line.
    pub error: Option<String>,
}

/// What an [`EntryOutcome`] holds.
#[verifier::ext_equal]
pub struct OutcomeView {
    pub entry_index: usize,
    pub superseded: bool,
    pub method: Seq<char>,
    pub url: Seq<char>,
    pub status: u16,
    pub status_text: Seq<char>,
    pub headers: Seq<(Seq<char>, Seq<char>)>,
    pub body: Seq<char>,
    pub raw_body: Seq<char>,
    pub asserts: Seq<AssertView>,
    pub captures: Seq<(Seq<char>, Seq<char>)>,
    pub duration_ms: u64,
    pub setup_ms: u64,
    pub wait_ms: u64,
    pub download_ms: u64,
    pub ok: bool,
    pub error: Option<Seq<char>>,
}

impl DeepView for EntryOutcome {
    type V = OutcomeView;

    open spec fn deep_view(&self) -> OutcomeView {
        OutcomeView {
            entry_index: self.entry_index,
            superseded: self.superseded,
            method: self.method@,
            url: self.url@,
            status: self.status,
            status_text: self.status_text@,
            headers: self.headers.deep_view(),
            body: self.body@,
            raw_body: self.raw_body@,
            asserts: self.asserts.deep_view(),
            captures: self.captures.deep_view(),
            duration_ms: self.duration_ms,
            setup_ms: self.setup_ms,
            wait_ms: self.wait_ms,
            download_ms: self.download_ms,
            ok: self.ok,
            error: self.error.deep_view(),
        }
    }
}

/// An outcome with nothing in it.
pub open spec fn blank_outcome() -> OutcomeView {
    OutcomeView {
        entry_index: 0,
        superseded: false,
        method: seq![],
        url: seq![],
        status: 0,
        status_text: seq![],
        headers: seq![],
        body: seq![],
        raw_body: seq![],
        asserts: seq![],
        captures: seq![],
        duration_ms: 0,
        setup_ms: 0,
        wait_ms: 0,
        download_ms: 0,
        ok: false,
        error: None,
    }
}

impl Default for EntryOutcome {
    fn default() -> (r: Self)
        ensures
            r.deep_view() == blank_outcome(),
    {
        let r = EntryOutcome {
            entry_index: 0,
            superseded: false,
            method: String::new(),
            url: String::new(),
            status: 0,
            status_text: String::new(),
            headers: Vec::new(),
            body: String::new(),
            raw_body: String::new(),
            asserts: Vec::new(),
            captures: Vec::new(),
            duration_ms: 0,
            setup_ms: 0,
            wait_ms: 0,
            download_ms: 0,
            ok: false,
            error: None,
        };
        assert(r.deep_view() == blank_outcome());
        r
    }
}

impl Clone for EntryOutcome {
    fn clone(&self) -> (r: Self)
        ensures
            r.deep_view() == self.deep_view(),
    {
        let mut asserts: Vec<AssertOutcome> = Vec::new();
        for i in 0..self.asserts.len()
            invariant
                asserts.len() == i,
                forall|j: int|
                    0 <= j < i ==> (#[trigger] asserts@[j]).deep_view()
                        == self.asserts@[j].deep_view(),
        {
            asserts.push(self.asserts[i].clone());
        }
        assert(asserts.deep_view() == self.asserts.deep_view());
        EntryOutcome {
            entry_index: self.entry_index,
            superseded: self.superseded,
            method: self.method.clone(),
            url: self.url.clone(),
            status: self.status,
            status_text: self.status_text.clone(),
            headers: entry::clone_pairs(&self.headers),
            body: self.body.clone(),
            raw_body: self.raw_body.clone(),
            asserts,
            captures: entry::clone_pairs(&self.captures),
            duration_ms: self.duration_ms,
            setup_ms: self.setup_ms,
            wait_ms: self.wait_ms,
            download_ms: self.download_ms,
            ok: self.ok,
            error: entry::clone_text(&self.error),
        }
    }
}

} // verus!
