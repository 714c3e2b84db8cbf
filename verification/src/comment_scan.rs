//! Recovering a request's comments from its lines.
//!
//! Hurl's parser keeps no comment apart from the next, so a comment that is
//! neither a title, a disabled row, a note nor a report field is read from the
//! source, and anchored to the block it stands before. Lines are counted from
//! nought in this module.
use vstd::prelude::*;

use crate::entry::{CommentAnchor, CommentView, EntryComment};
use crate::order;
use crate::source;
use crate::text;

verus! {

// ---------------------------------------------------------------------------
// What belongs to what
// ---------------------------------------------------------------------------
/// The lines of one request, and what is known of their structure.
#[verifier::ext_equal]
pub struct Window {
    /// The lines of the whole file.
    pub lines: Seq<Seq<char>>,
    /// The line each block begins on, in order.
    pub landmarks: Seq<(int, CommentAnchor)>,
    /// The first and last line of each body, counted from one.
    pub bodies: Seq<(usize, usize)>,
    /// The request's first line.
    pub method: int,
    /// The next request's first line, or the end of the file.
    pub end: int,
}

/// What kind of rows a block holds, if any.
#[derive(Debug, Clone, Copy, PartialEq, Eq, Structural)]
pub enum RowKind {
    Kv,
    Form,
    Nothing,
}

/// What kind of rows stand in a block.
pub open spec fn rows_of_block(anchor: CommentAnchor) -> RowKind {
    match anchor {
        CommentAnchor::Cookies
        | CommentAnchor::Query
        | CommentAnchor::Options
        | CommentAnchor::ResponseHeaders => RowKind::Kv,
        CommentAnchor::Form => RowKind::Form,
        _ => RowKind::Nothing,
    }
}

/// Whether a line carries a row of a kind, or the note of one.
pub open spec fn carries_row(line: Seq<char>, kind: RowKind) -> bool {
    match kind {
        RowKind::Kv => source::note_on(line) is Some || source::row_on(line) is Some,
        RowKind::Form => source::note_on(line) is Some || source::field_on(
            source::uncommented(line).1,
            true,
        ) is Some,
        RowKind::Nothing => false,
    }
}

impl Window {
    /// Where the `k`-th block begins, or the window ends.
    pub open spec fn mark(self, k: int) -> int {
        if 0 <= k < self.landmarks.len() {
            self.landmarks[k].0
        } else {
            self.end
        }
    }

    /// Where the rows of the `k`-th block begin: below its header, but for the
    /// response's headers, which have none.
    pub open spec fn rows_begin(self, k: int) -> int {
        if self.landmarks[k].1 is ResponseHeaders {
            self.landmarks[k].0
        } else {
            self.landmarks[k].0 + 1
        }
    }

    /// Whether line `i` stands among the rows of the `k`-th block, and carries
    /// one of them.
    pub open spec fn is_row_of(self, i: int, k: int) -> bool {
        self.rows_begin(k) <= i < self.mark(k + 1) && carries_row(
            self.lines[i],
            rows_of_block(self.landmarks[k].1),
        )
    }

    /// Whether line `i` carries a row, or the note of one.
    pub open spec fn is_row(self, i: int) -> bool {
        ||| self.method < i < self.mark(0) && carries_row(self.lines[i], RowKind::Kv)
        ||| exists|k: int|
            0 <= k < self.landmarks.len() && #[trigger] self.is_row_of(i, k)
    }

    /// Whether line `i` is part of a body, whose lines may begin with `#` and be
    /// no comments.
    pub open spec fn in_body(self, i: int) -> bool {
        exists|k: int|
            0 <= k < self.bodies.len() && (#[trigger] self.bodies[k]).0 <= i + 1 && (i + 1
                <= self.bodies[k].1 || i + 1 == self.bodies[k].0)
    }

    /// Whether line `i` is part of a block: of a body, a line that is no
    /// comment, or a commented row.
    pub open spec fn is_structural(self, i: int) -> bool {
        self.in_body(i) || source::is_content(self.lines[i]) || (source::is_comment(self.lines[i])
            && self.is_row(i))
    }

    /// The block that line `i` is part of: the last of the first `k` that does
    /// not begin below it, or the headers.
    pub open spec fn block_of(self, i: int, k: int) -> CommentAnchor
        decreases k,
    {
        if k <= 0 {
            CommentAnchor::Headers
        } else if self.landmarks[k - 1].0 <= i {
            self.landmarks[k - 1].1
        } else {
            self.block_of(i, k - 1)
        }
    }

    /// The block that a comment above line `i` stands before: that of the first
    /// structural line from `i` on.
    pub open spec fn block_below(self, i: int) -> CommentAnchor
        decreases self.end - i,
    {
        if i >= self.end {
            CommentAnchor::Trailing
        } else if self.is_structural(i) {
            self.block_of(i, self.landmarks.len() as int)
        } else {
            self.block_below(i + 1)
        }
    }

    /// Whether line `i` is part of the request's report fields.
    pub open spec fn in_reports(self, i: int) -> bool {
        let m = source::reports_marker(self.lines, self.method, self.end);
        m < self.end && m <= i < source::reports_end(self.lines, m + 1, self.end)
    }

    /// Whether line `i` is part of the next request's title.
    pub open spec fn in_next_title(self, i: int) -> bool {
        self.end < self.lines.len() && source::comment_top(self.lines, self.end, self.method) <= i
            < self.end
    }

    /// Whether line `i` is a comment that nothing else stands for.
    pub open spec fn is_loose(self, i: int) -> bool {
        source::is_comment(self.lines[i]) && !self.in_body(i) && !self.is_row(i)
            && !self.in_reports(i) && !self.in_next_title(i)
    }

    /// The loose comments from line `i` on.
    pub open spec fn comments_from(self, i: int) -> Seq<CommentView>
        decreases self.end - i,
    {
        if i >= self.end {
            Seq::empty()
        } else if self.is_loose(i) {
            seq![
                CommentView {
                    anchor: self.block_below(i + 1),
                    text: text::trimmed(self.lines[i]),
                },
            ] + self.comments_from(i + 1)
        } else {
            self.comments_from(i + 1)
        }
    }
}

/// The comments among some lines, as those above a file's first request.
pub open spec fn leading_comments(lines: Seq<Seq<char>>) -> Seq<CommentView>
    decreases lines.len(),
{
    if lines.len() == 0 {
        Seq::empty()
    } else if source::is_comment(lines.last()) {
        leading_comments(lines.drop_last()).push(
            CommentView { anchor: CommentAnchor::Lead, text: text::trimmed(lines.last()) },
        )
    } else {
        leading_comments(lines.drop_last())
    }
}

/// The comments of a request: for a file's first, those above its title, then
/// those in its window.
pub open spec fn comments_in(w: Window, first: bool) -> Seq<CommentView> {
    let above = if first {
        leading_comments(w.lines.take(source::comment_top(w.lines, w.method, 0)))
    } else {
        Seq::empty()
    };
    above + w.comments_from(w.method)
}

// ---------------------------------------------------------------------------
// Finding it out
// ---------------------------------------------------------------------------
/// What the scan of a request's comments goes by.
pub struct Scan<'a> {
    pub lines: &'a [String],
    pub landmarks: &'a [(usize, CommentAnchor)],
    pub bodies: &'a [(usize, usize)],
    pub method: usize,
    pub end: usize,
}

impl<'a> Scan<'a> {
    pub open spec fn window(&self) -> Window {
        Window {
            lines: self.lines.deep_view(),
            landmarks: order::keyed(self.landmarks@),
            bodies: self.bodies@,
            method: self.method as int,
            end: self.end as int,
        }
    }

    pub open spec fn wf(&self) -> bool {
        &&& self.end <= self.lines.len()
        &&& self.method <= self.lines.len()
        &&& forall|k: int|
            0 <= k < self.landmarks.len() ==> (#[trigger] self.landmarks@[k]).0 < usize::MAX
                || self.landmarks@[k].1 is ResponseHeaders
    }

    fn in_body(&self, i: usize) -> (r: bool)
        requires
            i < self.lines.len(),
        ensures
            r == self.window().in_body(i as int),
    {
        for k in 0..self.bodies.len()
            invariant
                i < self.lines.len(),
                forall|j: int|
                    0 <= j < k ==> !((#[trigger] self.bodies@[j]).0 <= i + 1 && (i + 1
                        <= self.bodies@[j].1 || i + 1 == self.bodies@[j].0)),
        {
            let b = &self.bodies[k];
            if b.0 <= i + 1 && (i + 1 <= b.1 || i + 1 == b.0) {
                assert(self.window().bodies[k as int].0 <= i + 1);
                return true;
            }
        }
        false
    }

    fn is_row(&self, i: usize) -> (r: bool)
        requires
            self.wf(),
            i < self.lines.len(),
        ensures
            r == self.window().is_row(i as int),
    {
        let ghost w = self.window();
        let line = self.lines[i].as_str();
        assert(w.lines[i as int] == line@);
        let first: usize = self.mark(0);
        if self.method < i && i < first && line_carries_row(line, RowKind::Kv) {
            return true;
        }
        for k in 0..self.landmarks.len()
            invariant
                self.wf(),
                w == self.window(),
                w.lines[i as int] == line@,
                forall|j: int| 0 <= j < k ==> !(#[trigger] w.is_row_of(i as int, j)),
        {
            let anchor = self.landmarks[k].1;
            assert(w.landmarks[k as int] == (self.landmarks@[k as int].0 as int, anchor));
            let start: usize = if anchor == CommentAnchor::ResponseHeaders {
                self.landmarks[k].0
            } else {
                self.landmarks[k].0 + 1
            };
            let kind = block_rows(anchor);
            if start <= i && i < self.mark(k + 1) && line_carries_row(line, kind) {
                assert(w.is_row_of(i as int, k as int));
                return true;
            }
        }
        false
    }

    fn mark(&self, k: usize) -> (r: usize)
        ensures
            r == self.window().mark(k as int),
    {
        if k < self.landmarks.len() {
            self.landmarks[k].0
        } else {
            self.end
        }
    }

    fn is_structural(&self, i: usize) -> (r: bool)
        requires
            self.wf(),
            i < self.lines.len(),
        ensures
            r == self.window().is_structural(i as int),
    {
        assert(self.window().lines[i as int] == self.lines@[i as int]@);
        let line = self.lines[i].as_str();
        self.in_body(i) || source::content_line(line) || (source::comment_line(line)
            && self.is_row(i))
    }

    fn block_of(&self, i: usize) -> (r: CommentAnchor)
        ensures
            r == self.window().block_of(i as int, self.landmarks.len() as int),
    {
        let ghost w = self.window();
        let mut k: usize = self.landmarks.len();
        while k > 0
            invariant
                w == self.window(),
                k <= self.landmarks.len(),
                w.block_of(i as int, self.landmarks.len() as int) == w.block_of(
                    i as int,
                    k as int,
                ),
            decreases k,
        {
            assert(w.landmarks[k - 1].0 == self.landmarks@[k - 1].0);
            assert(w.landmarks[k - 1].1 == self.landmarks@[k - 1].1);
            if self.landmarks[k - 1].0 <= i {
                return self.landmarks[k - 1].1;
            }
            k -= 1;
        }
        CommentAnchor::Headers
    }

    fn block_below(&self, from: usize) -> (r: CommentAnchor)
        requires
            self.wf(),
        ensures
            r == self.window().block_below(from as int),
    {
        let ghost w = self.window();
        let mut i: usize = from;
        while i < self.end
            invariant
                self.wf(),
                w == self.window(),
                w.block_below(from as int) == w.block_below(i as int),
            decreases self.end - i,
        {
            if self.is_structural(i) {
                return self.block_of(i);
            }
            i += 1;
        }
        CommentAnchor::Trailing
    }

    /// Collects the comments of the window that nothing else stands for.
    fn loose_comments(&self) -> (r: Vec<EntryComment>)
        requires
            self.wf(),
        ensures
            r.deep_view() == self.window().comments_from(self.method as int),
    {
        let ghost w = self.window();
        let ghost want = w.comments_from(w.method);
        let mut out: Vec<EntryComment> = Vec::new();
        assert(out.deep_view() + want == want);
        if self.method >= self.end {
            assert(want == Seq::<CommentView>::empty());
            return out;
        }
        let (marker, behind) = source::find_reports(self.lines, self.method, self.end);
        let title: usize = if self.end < self.lines.len() {
            source::top_of_comments(self.lines, self.end, self.method)
        } else {
            self.end
        };
        let mut i: usize = self.method;
        while i < self.end
            invariant
                self.wf(),
                w == self.window(),
                want == w.comments_from(w.method),
                self.method <= i <= self.end,
                forall|j: int| #![trigger w.in_reports(j)] w.in_reports(j) == (marker <= j < behind),
                forall|j: int|
                    #![trigger w.in_next_title(j)]
                    w.in_next_title(j) == (title <= j < self.end),
                out.deep_view() + w.comments_from(i as int) == want,
            decreases self.end - i,
        {
            let line = self.lines[i].as_str();
            let ghost done = out.deep_view();
            assert(w.lines[i as int] == line@);
            assert(w.in_reports(i as int) == (marker <= i < behind));
            assert(w.in_next_title(i as int) == (title <= i < self.end));
            if source::comment_line(line) && !self.in_body(i) && !self.is_row(i) && !(marker <= i
                && i < behind) && !(title <= i) {
                let c = EntryComment { anchor: self.block_below(i + 1), text: text::trim(line) };
                assert(w.comments_from(i as int) == seq![c.deep_view()] + w.comments_from(i + 1));
                out.push(c);
                assert(out.deep_view() == done.push(c.deep_view()));
            }
            i += 1;
        }
        assert(w.comments_from(i as int) == Seq::<CommentView>::empty());
        out
    }
}

/// What kind of rows stand in a block.
fn block_rows(anchor: CommentAnchor) -> (r: RowKind)
    ensures
        r == rows_of_block(anchor),
{
    match anchor {
        CommentAnchor::Cookies
        | CommentAnchor::Query
        | CommentAnchor::Options
        | CommentAnchor::ResponseHeaders => RowKind::Kv,
        CommentAnchor::Form => RowKind::Form,
        _ => RowKind::Nothing,
    }
}

/// Whether a line carries a row of a kind, or the note of one.
fn line_carries_row(line: &str, kind: RowKind) -> (r: bool)
    ensures
        r == carries_row(line@, kind),
{
    match kind {
        RowKind::Kv => source::desc_line(line).is_some() || source::parse_kv_row(line).is_some(),
        RowKind::Form => source::desc_line(line).is_some() || {
            let (_, rest) = source::uncomment(line);
            source::parse_form_field_line(rest.as_str(), true).is_some()
        },
        RowKind::Nothing => false,
    }
}

/// Recovers the comments of a request.
pub(crate) fn scan_comments(scan: &Scan, is_first: bool) -> (r: Vec<EntryComment>)
    requires
        scan.wf(),
    ensures
        r.deep_view() == comments_in(scan.window(), is_first),
{
    let ghost w = scan.window();
    let mut out: Vec<EntryComment> = Vec::new();
    if is_first {
        let top: usize = source::top_of_comments(scan.lines, scan.method, 0);
        for i in 0..top
            invariant
                w == scan.window(),
                top <= scan.lines.len(),
                out.deep_view() == leading_comments(w.lines.take(i as int)),
        {
            let line = scan.lines[i].as_str();
            let ghost done = out.deep_view();
            assert(w.lines.take(i + 1).drop_last() == w.lines.take(i as int));
            assert(w.lines.take(i + 1).last() == line@);
            if source::comment_line(line) {
                let c = EntryComment { anchor: CommentAnchor::Lead, text: text::trim(line) };
                out.push(c);
                assert(out.deep_view() == done.push(c.deep_view()));
            }
        }
    }
    let ghost above = out.deep_view();
    let mut rest = scan.loose_comments();
    let ghost below = rest.deep_view();
    out.append(&mut rest);
    assert(out.deep_view() == above + below);
    out
}

} // verus!
