//! A file is read back as what was written to it.
//!
//! Hurl's own parser says where the parts of a file stand; what it says is not
//! spelled out here. Given that it finds the parts where they were written, the
//! requests read from a file are those that were written to it.
use vstd::prelude::*;

use crate::block_laws;
use crate::body_notes;
use crate::comment_laws;
use crate::comment_scan;
use crate::comment_scan::RowKind;
use crate::entry;
use crate::entry::{CommentAnchor, CommentView, EntryView, FieldView, RowView};
use crate::form_laws;
use crate::hurl_ast;
use crate::layout_laws;
use crate::line_laws;
use crate::order;
use crate::parser;
use crate::shape::{
    BodyValueView, BodyView, CheckTag, CheckView, EntryShapeView, FaultView, ResponseView, SectionBodyView,
    SectionView,
};
use crate::sheet_laws;
use crate::sheet_laws::Slab;
use crate::source;
use crate::text;
use crate::text_laws;
use crate::writer;

verus! {

// ---------------------------------------------------------------------------
// What the parser finds
// ---------------------------------------------------------------------------
/// Where a block of an entry begins whose first block or comment below the
/// request line stands on line `base`.
pub open spec fn block_at(e: EntryView, base: int, k: int) -> int {
    base + sheet_laws::own_at(layout_laws::blocks(e, true), k)
}

/// A section of the request, as it is found where it was written.
pub open spec fn section_found(e: EntryView, base: int, k: int) -> SectionView {
    let line = block_at(e, base, k) + 1;
    SectionView {
        line: line as usize,
        body: if k == 1 {
            SectionBodyView::BasicAuth(e.basic_auth)
        } else if k == 2 {
            SectionBodyView::Cookies
        } else if k == 3 {
            SectionBodyView::Query
        } else if k == 4 {
            form_laws::section_of(e.form_fields, line).body
        } else {
            SectionBodyView::Options
        },
    }
}

/// The sections among the first `n` blocks below the headers.
pub open spec fn sections_found(e: EntryView, base: int, n: int) -> Seq<SectionView>
    decreases n,
{
    if n <= 0 {
        Seq::empty()
    } else if layout_laws::block_lines(e, n).len() > 0 {
        sections_found(e, base, n - 1).push(section_found(e, base, n))
    } else {
        sections_found(e, base, n - 1)
    }
}

/// The text that the parser gives as a body's value: itself, or by the number of its
/// line.
pub open spec fn value_found(lines: Seq<Seq<char>>, value: BodyValueView) -> Seq<char> {
    match value {
        BodyValueView::Text(t) => t,
        BodyValueView::Line(n) => if 1 <= n <= lines.len() {
            lines[n - 1]
        } else {
            Seq::empty()
        },
    }
}

/// Whether a body was found where it was written, and as it was: the text that the
/// parser gives is the one written, or that with white space around it.
pub open spec fn is_body_found(
    lines: Seq<Seq<char>>,
    found: Option<BodyView>,
    body: Option<Seq<char>>,
    at: int,
) -> bool {
    match body {
        Some(b) => found is Some && found.unwrap().start == at + 1 && found.unwrap().last == at
            + layout_laws::body_lines(body).len() && text_laws::is_core(
            value_found(lines, found.unwrap().value),
            b,
        ),
        None => found is None,
    }
}

/// A body that was found as it was written is read as it was written.
proof fn lemma_body_found(
    lines: Seq<Seq<char>>,
    found: Option<BodyView>,
    body: Option<Seq<char>>,
    at: int,
)
    requires
        is_body_found(lines, found, body, at),
    ensures
        parser::body_text_of(lines, found) == body,
{
    if let Some(b) = body {
        text_laws::a_core_is_what_trimming_leaves(
            value_found(lines, found.unwrap().value),
            b,
        );
        if let BodyValueView::Line(n) = found.unwrap().value {
            if !(1 <= n <= lines.len()) {
                text_laws::trimming_leaves_the_core(Seq::empty());
            }
        }
    }
}

/// A section of the response, as it is found where it was written.
pub open spec fn check_found(e: EntryView, base: int, k: int) -> CheckView {
    let at = block_at(e, base, k);
    CheckView {
        line: (at + 1) as usize,
        tag: if k == 9 {
            CheckTag::Asserts
        } else {
            CheckTag::Captures
        },
        queries: Seq::new(
            (layout_laws::block_lines(e, k).len() - 1) as nat,
            |j: int| (at + 2 + j) as usize,
        ),
    }
}

/// The sections of the response among the first `n` blocks.
pub open spec fn checks_found(e: EntryView, base: int, n: int) -> Seq<CheckView>
    decreases n,
{
    if n < 9 {
        Seq::empty()
    } else if layout_laws::block_lines(e, n).len() > 0 {
        checks_found(e, base, n - 1).push(check_found(e, base, n))
    } else {
        checks_found(e, base, n - 1)
    }
}

/// Whether any row is enabled.
pub open spec fn some_enabled(rows: Seq<RowView>) -> bool {
    exists|i: int| 0 <= i < rows.len() && (#[trigger] rows[i]).enabled
}

/// Whether the response was found where it was written.
pub open spec fn is_response_found(
    lines: Seq<Seq<char>>,
    found: Option<ResponseView>,
    e: EntryView,
    base: int,
) -> bool {
    if writer::has_response_area(e) {
        &&& found is Some
        &&& found.unwrap().head.line == block_at(e, base, 7) + 1
        &&& found.unwrap().head.status == (match e.expected_status {
            Some(n) => Some(n as u64),
            None => None,
        })
        &&& found.unwrap().head.version == e.response_version
        &&& (found.unwrap().head.header_count > 0) == some_enabled(e.response_headers)
        &&& found.unwrap().sections == checks_found(e, base, 10)
        &&& is_body_found(lines, found.unwrap().body, e.response_body, block_at(e, base, 11))
    } else {
        found is None
    }
}

/// Where the lines below the request line of an entry begin that stands on the
/// lines from `at` on.
pub open spec fn base_of(e: EntryView, at: int) -> int {
    at + layout_laws::head_lines(e).len()
}

/// Whether the parser found the parts of an entry where they were written, on
/// the lines from `at` on. The span of the request may begin above its line, with
/// nothing but blank lines and comments between.
pub open spec fn is_found(
    lines: Seq<Seq<char>>,
    s: EntryShapeView,
    e: EntryView,
    at: int,
) -> bool {
    let base = base_of(e, at);
    &&& s.request.line <= base
    &&& forall|j: int|
        parser::place(s.request.line) <= j < base - 1 ==> !source::is_content(#[trigger] lines[j])
    &&& s.request.method == e.method
    &&& s.request.url == e.url
    &&& s.request.url_line == base
    &&& s.sections == sections_found(e, base, 5)
    &&& is_body_found(lines, s.body, layout_laws::sent(e), block_at(e, base, 6))
    &&& is_response_found(lines, s.response, e, base)
}

/// Whether an entry has comments behind everything else, where rows are read.
pub open spec fn ends_with_comments_among_rows(e: EntryView) -> bool {
    &&& layout_laws::prose_at(e.comments, CommentAnchor::Trailing).len() > 0
    &&& sheet_laws::ends_in_rows(layout_laws::blocks(e, true), 12)
}

/// Whether an entry stands in a file on the lines from `at` on, with nothing of
/// another's above it but a blank line, and below it the end of the file, or a
/// blank line and the title of the request on line `end`. A title that carries a
/// row must not end comments that stand where rows are read.
pub open spec fn sits(
    lines: Seq<Seq<char>>,
    e: EntryView,
    at: int,
    end: int,
    first: bool,
) -> bool {
    let t = at + layout_laws::entry_lines(e).len();
    &&& layout_laws::fits(e)
    &&& lines.len() <= usize::MAX
    &&& block_laws::stands(lines, at, layout_laws::entry_lines(e))
    &&& first ==> at == 0
    &&& !first ==> at > 0 && lines[at - 1].len() == 0 && layout_laws::prose_at(
        e.comments,
        CommentAnchor::Lead,
    ).len() == 0
    &&& t <= end <= lines.len()
    &&& t == end ==> end == lines.len()
    &&& t < end ==> end < lines.len() && lines[t].len() == 0
    &&& t < end ==> end <= t + 2
    &&& forall|j: int| t < j < end ==> source::is_comment(#[trigger] lines[j])
    &&& ends_with_comments_among_rows(e) ==> forall|j: int|
        t < j < end ==> block_laws::no_row(#[trigger] lines[j])
}

// ---------------------------------------------------------------------------
// Blocks and landmarks
// ---------------------------------------------------------------------------
/// What is known of an entry's blocks.
proof fn lemma_blocks(e: EntryView)
    requires
        layout_laws::fits(e),
    ensures
        ({
            let b = layout_laws::blocks(e, true);
            &&& b.len() == 12
            &&& forall|k: int|
                0 <= k < 12 ==> (#[trigger] b[k]).anchor == layout_laws::block_anchor(k) && b[k].own
                    == layout_laws::block_lines(e, k)
            &&& forall|k: int| 0 < k < 12 ==> !((#[trigger] b[k]).anchor is Headers)
            &&& forall|k: int|
                0 <= k < 12 && (#[trigger] b[k]).own.len() == 0 ==> b[k].prose.len() == 0
            &&& forall|k: int| 0 <= k < 12 ==> sheet_laws::all_prose((#[trigger] b[k]).prose)
        }),
        layout_laws::sent(e) is Some <==> layout_laws::block_lines(e, 6).len() > 0,
        e.response_body is Some <==> layout_laws::block_lines(e, 11).len() > 0,
        writer::has_response_area(e) <==> layout_laws::block_lines(e, 7).len() > 0,
        !writer::has_response_area(e) ==> forall|k: int|
            7 <= k < 12 ==> (#[trigger] layout_laws::block_lines(e, k)).len() == 0,
{
    let b = layout_laws::blocks(e, true);
    if let Some(body) = layout_laws::sent(e) {
        layout_laws::lemma_closed_line(body);
    }
    if let Some(body) = e.response_body {
        layout_laws::lemma_closed_line(body);
    }
    assert forall|k: int| 0 <= k < 12 implies sheet_laws::all_prose((#[trigger] b[k]).prose) by {
        layout_laws::lemma_prose_fits(e, layout_laws::block_anchor(k));
        let p = layout_laws::prose_at(e.comments, layout_laws::block_anchor(k));
        assert forall|i: int| 0 <= i < b[k].prose.len() implies sheet_laws::is_prose(
            #[trigger] b[k].prose[i],
        ) by {
            if i < p.len() {
                assert(b[k].prose[i] == p[i]);
            } else {
                assert(b[k].prose[i] == layout_laws::authored_lines(e)[i - p.len()]);
            }
        }
    }
    assert forall|k: int| 0 <= k < 12 && (#[trigger] b[k]).own.len() == 0 implies b[k].prose.len()
        == 0 by {
        assert(layout_laws::block_lines(e, k).len() == 0);
    }
    if !writer::has_response_area(e) {
        assert forall|k: int| 7 <= k < 12 implies (#[trigger] layout_laws::block_lines(e, k)).len()
            == 0 by {
            assert(block_laws::stacked(e.response_headers).len() == 0);
        }
    }
}

/// Comments that stand where rows are read carry none.
proof fn lemma_rows_apart(e: EntryView, k: int)
    requires
        layout_laws::fits(e),
        0 <= k < 12,
        layout_laws::takes_rows(e, k),
    ensures
        sheet_laws::no_rows(layout_laws::blocks(e, true)[k].prose),
{
    reveal(layout_laws::rows_kept_apart);
}

/// Where an entry that sits in a file has its parts.
proof fn lemma_parts_stand(lines: Seq<Seq<char>>, e: EntryView, at: int)
    requires
        block_laws::stands(lines, at, layout_laws::entry_lines(e)),
    ensures
        ({
            let b = layout_laws::blocks(e, true);
            let base = base_of(e, at);
            let z = base + sheet_laws::laid(b).len();
            let reports = comment_laws::report_lines(e.reports);
            let tail = layout_laws::prose_at(e.comments, CommentAnchor::Trailing);
            &&& block_laws::stands(lines, at, layout_laws::head_lines(e))
            &&& block_laws::stands(lines, base, sheet_laws::laid(b))
            &&& block_laws::stands(lines, z, reports)
            &&& block_laws::stands(lines, z + reports.len(), tail)
            &&& at + layout_laws::entry_lines(e).len() == z + reports.len() + tail.len()
        }),
{
    let b = layout_laws::blocks(e, true);
    let h = layout_laws::head_lines(e);
    let reports = comment_laws::report_lines(e.reports);
    let tail = layout_laws::prose_at(e.comments, CommentAnchor::Trailing);
    let l = sheet_laws::laid(b);
    block_laws::lemma_stands_parts(lines, at, h + l + reports, tail);
    block_laws::lemma_stands_parts(lines, at, h + l, reports);
    block_laws::lemma_stands_parts(lines, at, h, l);
}

/// The lines of landmarks, counted from one.
spec fn numbered(marks: Seq<(int, CommentAnchor)>) -> Seq<usize> {
    marks.map_values(|m: (int, CommentAnchor)| (m.0 + 1) as usize)
}

/// The sections found are the landmarks of their blocks.
proof fn lemma_sections(e: EntryView, base: int, n: int)
    requires
        layout_laws::fits(e),
        0 <= base,
        base + sheet_laws::laid(layout_laws::blocks(e, true)).len() <= usize::MAX,
        0 <= n <= 5,
    ensures
        parser::section_marks(sections_found(e, base, n)) == sheet_laws::marks(
            layout_laws::blocks(e, true),
            base,
            n + 1,
        ),
        sections_found(e, base, n).map_values(|s: SectionView| s.line) == numbered(
            sheet_laws::marks(layout_laws::blocks(e, true), base, n + 1),
        ),
    decreases n,
{
    let b = layout_laws::blocks(e, true);
    let f = |s: SectionView| s.line;
    lemma_blocks(e);
    let now = sections_found(e, base, n);
    let m = sheet_laws::marks(b, base, n + 1);
    if n == 0 {
        assert(b[0].anchor is Headers);
        assert(sheet_laws::marks(b, base, 0) =~= Seq::<(int, CommentAnchor)>::empty());
        assert(m =~= Seq::<(int, CommentAnchor)>::empty());
        assert(now.map_values(f) =~= numbered(m));
    } else {
        lemma_sections(e, base, n - 1);
        let before = sections_found(e, base, n - 1);
        let bm = sheet_laws::marks(b, base, n);
        assert(b[n].own == layout_laws::block_lines(e, n));
        if b[n].own.len() > 0 {
            let s = section_found(e, base, n);
            sheet_laws::lemma_laid_take(b, n);
            sheet_laws::lemma_slabs_rise(b, n + 1, 12);
            sheet_laws::lemma_slabs_rise(b, 0, n);
            assert(s.line == block_at(e, base, n) + 1);
            assert(parser::section_anchor(s.body) == Some(b[n].anchor));
            assert(now.drop_last() =~= before);
            assert(m =~= bm.push((block_at(e, base, n), b[n].anchor)));
            assert(now.map_values(f) =~= before.map_values(f).push(s.line));
            assert(numbered(m) =~= numbered(bm).push(s.line));
        } else {
            assert(m == bm);
        }
    }
}

/// The last section of a kind is the one that was written, if one was.
proof fn lemma_last_section(e: EntryView, base: int, k: int, n: int)
    requires
        1 <= k <= 5,
        0 <= n <= 5,
    ensures
        parser::last_section(sections_found(e, base, n), layout_laws::block_anchor(k)) == (if k <= n
            && layout_laws::block_lines(e, k).len() > 0 {
            Some(section_found(e, base, k))
        } else {
            None
        }),
    decreases n,
{
    if n > 0 {
        lemma_last_section(e, base, k, n - 1);
        if layout_laws::block_lines(e, n).len() > 0 {
            let now = sections_found(e, base, n);
            assert(now.drop_last() =~= sections_found(e, base, n - 1));
            assert(parser::section_anchor(section_found(e, base, n).body) == Some(
                layout_laws::block_anchor(n),
            ));
        }
    }
}

proof fn lemma_auth(e: EntryView, base: int, n: int)
    requires
        1 <= n <= 5,
    ensures
        parser::auth_in(sections_found(e, base, n)) == e.basic_auth,
    decreases n,
{
    let now = sections_found(e, base, n);
    if n == 1 {
        reveal_with_fuel(sections_found, 2);
        reveal_with_fuel(parser::auth_in, 2);
        if e.basic_auth is Some {
            assert(now.last() == section_found(e, base, 1));
        }
    } else {
        lemma_auth(e, base, n - 1);
        if layout_laws::block_lines(e, n).len() > 0 {
            assert(now.drop_last() =~= sections_found(e, base, n - 1));
        }
    }
}

/// The least of some lines below a line.
proof fn lemma_least(s: Seq<usize>, after: int, i: int)
    requires
        0 <= i < s.len(),
        s[i] > after,
        forall|j: int| 0 <= j < s.len() && #[trigger] s[j] > after ==> s[i] <= s[j],
    ensures
        parser::least_below(s, after) == Some(s[i]),
    decreases s.len(),
{
    let front = s.drop_last();
    assert(forall|j: int| 0 <= j < front.len() ==> front[j] == s[j]);
    let rest = parser::least_below(front, after);
    if i < front.len() {
        lemma_least(front, after, i);
        assert(s[s.len() - 1] == s.last());
    } else {
        lemma_least_is_no_less(front, after, s[i]);
    }
}

proof fn lemma_least_is_no_less(s: Seq<usize>, after: int, v: usize)
    requires
        forall|j: int| 0 <= j < s.len() && #[trigger] s[j] > after ==> v <= s[j],
    ensures
        parser::least_below(s, after) matches Some(x) ==> v <= x,
    decreases s.len(),
{
    if s.len() > 0 {
        let front = s.drop_last();
        assert(forall|j: int| 0 <= j < front.len() ==> front[j] == s[j]);
        lemma_least_is_no_less(front, after, v);
        assert(s[s.len() - 1] == s.last());
    }
}

proof fn lemma_none_below(s: Seq<usize>, after: int)
    requires
        forall|j: int| 0 <= j < s.len() ==> #[trigger] s[j] <= after,
    ensures
        parser::least_below(s, after) is None,
    decreases s.len(),
{
    if s.len() > 0 {
        let front = s.drop_last();
        assert(forall|j: int| 0 <= j < front.len() ==> front[j] == s[j]);
        lemma_none_below(front, after);
        assert(s[s.len() - 1] == s.last());
    }
}

/// The lines that bound the sections are those of the landmarks down to the
/// response's.
proof fn lemma_anchors(lines: Seq<Seq<char>>, s: EntryShapeView, e: EntryView, at: int)
    requires
        layout_laws::fits(e),
        0 <= at,
        base_of(e, at) + sheet_laws::laid(layout_laws::blocks(e, true)).len() <= usize::MAX,
        is_found(lines, s, e, at),
    ensures
        parser::anchors(s) == numbered(
            sheet_laws::marks(layout_laws::blocks(e, true), base_of(e, at), 8),
        ),
{
    let b = layout_laws::blocks(e, true);
    let base = base_of(e, at);
    lemma_blocks(e);
    lemma_sections(e, base, 5);
    let m6 = sheet_laws::marks(b, base, 6);
    let m7 = sheet_laws::marks(b, base, 7);
    let m8 = sheet_laws::marks(b, base, 8);
    assert(b[6].own == layout_laws::block_lines(e, 6));
    assert(b[7].own == layout_laws::block_lines(e, 7));
    let f = |s: SectionView| s.line;
    let body: Seq<usize> = match s.body {
        Some(x) => seq![x.start],
        None => seq![],
    };
    let response: Seq<usize> = match s.response {
        Some(r) => seq![r.head.line],
        None => seq![],
    };
    assert(s.sections.map_values(f) + body =~= numbered(m7)) by {
        if layout_laws::sent(e) is Some {
            assert(m7 =~= m6.push((block_at(e, base, 6), b[6].anchor)));
            assert(numbered(m7) =~= numbered(m6).push(body[0]));
        } else {
            assert(m7 == m6);
        }
    }
    assert(s.sections.map_values(f) + body + response =~= numbered(m8)) by {
        if writer::has_response_area(e) {
            assert(m8 =~= m7.push((block_at(e, base, 7), b[7].anchor)));
            assert(numbered(m8) =~= numbered(m7).push(response[0]));
        } else {
            assert(m8 == m7);
        }
    }
}

/// A blank line is neither row nor note.
pub proof fn lemma_blank_is_no_row(l: Seq<char>)
    requires
        l.len() == 0,
    ensures
        block_laws::no_row(l),
        !source::is_comment(l),
        !source::is_content(l),
        !source::is_reports_line(l),
        source::report_on(l) is None,
{
    reveal_strlit("#");
    reveal_strlit("# @desc");
    text_laws::lemma_is_trimmed(l);
    text::lemma_trimmed_start(l);
}

/// What stands below the blocks of an entry begins with no row, where rows are
/// read there.
proof fn lemma_below_is_no_row(lines: Seq<Seq<char>>, e: EntryView, at: int, end: int, first: bool)
    requires
        sits(lines, e, at, end, first),
        sheet_laws::ends_in_rows(layout_laws::blocks(e, true), 12) || (writer::has_response_area(e)
            && layout_laws::takes_rows(e, 12)),
    ensures
        ({
            let z = base_of(e, at) + sheet_laws::laid(layout_laws::blocks(e, true)).len();
            z < lines.len() ==> block_laws::no_row(lines[z])
        }),
{
    let z = base_of(e, at) + sheet_laws::laid(layout_laws::blocks(e, true)).len();
    lemma_parts_stand(lines, e, at);
    let reports = comment_laws::report_lines(e.reports);
    let tail = layout_laws::prose_at(e.comments, CommentAnchor::Trailing);
    reveal(layout_laws::rows_kept_apart);
    if e.reports.len() > 0 {
        block_laws::lemma_stands_at(lines, z, reports, 0);
        comment_laws::lemma_reports_marker();
    } else if tail.len() > 0 {
        block_laws::lemma_stands_at(lines, z, tail, 0);
    } else if z < lines.len() {
        lemma_blank_is_no_row(lines[z]);
    }
}

/// Behind the headers or a section of rows rows are read, down to the next block
/// that is there.
proof fn lemma_behind_rows(e: EntryView, k: int, next: int)
    requires
        layout_laws::fits(e),
        0 <= k < next <= 12,
        k == 0 || k == 2 || k == 3 || k == 4 || k == 5 || k == 8,
        k > 0 ==> layout_laws::block_lines(e, k).len() > 0,
        forall|j: int| k < j < next ==> (#[trigger] layout_laws::block_lines(e, j)).len() == 0,
    ensures
        sheet_laws::ends_in_rows(layout_laws::blocks(e, true), next),
    decreases next,
{
    let b = layout_laws::blocks(e, true);
    lemma_blocks(e);
    if next > 1 {
        assert(b[next - 1].own == layout_laws::block_lines(e, next - 1));
        assert(b[next - 1].anchor == layout_laws::block_anchor(next - 1));
        if next - 1 > k {
            assert(layout_laws::block_lines(e, next - 1).len() == 0);
            lemma_behind_rows(e, k, next - 1);
        }
    }
}

/// Where the scan for the rows of a block stops, and that it finds no row
/// between the block's end and there.
proof fn lemma_bound(
    lines: Seq<Seq<char>>,
    s: EntryShapeView,
    e: EntryView,
    at: int,
    end: int,
    first: bool,
    k: int,
    after: int,
) -> (bound: Option<usize>)
    requires
        sits(lines, e, at, end, first),
        is_found(lines, s, e, at),
        0 <= k <= 5,
        k != 1,
        k == 0 ==> after == base_of(e, at),
        k > 0 ==> layout_laws::block_lines(e, k).len() > 0 && after == block_at(
            e,
            base_of(e, at),
            k,
        ) + 1,
    ensures
        bound == parser::least_below(parser::anchors(s), after),
        ({
            let b = layout_laws::blocks(e, true);
            let from = base_of(e, at) + sheet_laws::slab_at(b, k + 1);
            let limit = source::limit_of(lines, bound);
            &&& from <= limit <= lines.len()
            &&& bound is Some ==> forall|j: int|
                from <= j < limit ==> block_laws::no_row(#[trigger] lines[j])
            &&& bound is None ==> (from < lines.len() ==> block_laws::no_row(lines[from]))
            &&& bound is None ==> forall|j: int|
                k < j <= 7 ==> (#[trigger] layout_laws::block_lines(e, j)).len() == 0
        }),
{
    let b = layout_laws::blocks(e, true);
    let base = base_of(e, at);
    let m = sheet_laws::marks(b, base, 8);
    let i = sheet_laws::marks(b, base, k + 1).len() as int;
    let a = parser::anchors(s);
    lemma_blocks(e);
    lemma_parts_stand(lines, e, at);
    lemma_anchors(lines, s, e, at);
    sheet_laws::lemma_slabs_rise(b, 0, k + 1);
    sheet_laws::lemma_slabs_rise(b, k + 1, 8);
    sheet_laws::lemma_slabs_rise(b, 8, 12);
    sheet_laws::lemma_marks(b, base, 8);
    sheet_laws::lemma_marks(b, base, k + 1);
    sheet_laws::lemma_marks_prefix(b, base, k + 1, 8);
    let next = sheet_laws::lemma_next_mark(b, base, k + 1, 8);
    assert(a.len() == m.len());
    assert forall|j: int| 0 <= j < m.len() implies #[trigger] a[j] == m[j].0 + 1 by {}
    assert forall|j: int| 0 <= j < i implies #[trigger] a[j] <= after by {
        assert(m.take(i)[j] == m[j]);
        assert(sheet_laws::marks(b, base, k + 1)[j] == m[j]);
        if k > 0 {
            assert(b[k].own == layout_laws::block_lines(e, k));
            sheet_laws::lemma_mark_inside(b, base, k);
            assert(sheet_laws::marks(b, base, k + 1)[i - 1].0 == block_at(e, base, k));
            if j < i - 1 {
                assert(sheet_laws::marks(b, base, k + 1)[j].0 < sheet_laws::marks(
                    b,
                    base,
                    k + 1,
                )[i - 1].0);
            }
        } else {
            assert(b[0].anchor is Headers);
            assert(sheet_laws::marks(b, base, 0).len() == 0);
        }
    }
    let from = base + sheet_laws::slab_at(b, k + 1);
    assert(after <= from) by {
        sheet_laws::lemma_laid_take(b, k);
        if k > 0 {
            assert(b[k].own == layout_laws::block_lines(e, k));
        }
    }
    if next < 8 {
        sheet_laws::lemma_laid_take(b, next);
        sheet_laws::lemma_slabs_rise(b, next + 1, 12);
        sheet_laws::lemma_slab_stands(lines, base, b, next);
        assert(b[next].anchor == layout_laws::block_anchor(next));
        assert(m[i].0 == base + sheet_laws::own_at(b, next));
        assert(a[i] > after);
        assert forall|j: int| 0 <= j < a.len() && #[trigger] a[j] > after implies a[i] <= a[j] by {
            if j > i {
                assert(m[i].0 < m[j].0);
            }
        }
        lemma_least(a, after, i);
        let limit = base + sheet_laws::own_at(b, next);
        lemma_absent(e, base, k, next);
        lemma_behind_rows(e, k, next);
        lemma_rows_apart(e, next);
        assert forall|j: int| from <= j < limit implies block_laws::no_row(#[trigger] lines[j]) by {
            block_laws::lemma_stands_at(lines, from, b[next].prose, j - from);
        }
        Some(a[i])
    } else {
        lemma_none_below(a, after);
        lemma_absent(e, base, k, next);
        assert(layout_laws::block_lines(e, 7).len() == 0);
        lemma_no_response(e);
        lemma_behind_rows(e, k, 12);
        lemma_below_is_no_row(lines, e, at, end, first);
        None
    }
}

/// Between a block and the next landmark no block is there.
proof fn lemma_absent(e: EntryView, base: int, k: int, next: int)
    requires
        layout_laws::fits(e),
        0 <= k < next <= 12,
        sheet_laws::marks(layout_laws::blocks(e, true), base, next) == sheet_laws::marks(
            layout_laws::blocks(e, true),
            base,
            k + 1,
        ),
    ensures
        forall|j: int| k < j < next ==> (#[trigger] layout_laws::block_lines(e, j)).len() == 0,
{
    let b = layout_laws::blocks(e, true);
    lemma_blocks(e);
    assert forall|j: int| k < j < next implies (#[trigger] layout_laws::block_lines(e, j)).len()
        == 0 by {
        assert(b[j].own == layout_laws::block_lines(e, j));
        if b[j].own.len() > 0 {
            assert(sheet_laws::announced(b[j]));
            sheet_laws::lemma_marks_prefix(b, base, k + 1, j);
            sheet_laws::lemma_marks_prefix(b, base, j + 1, next);
            assert(false);
        }
    }
}

/// Without a response line nothing stands behind the request's blocks.
proof fn lemma_no_response(e: EntryView)
    requires
        layout_laws::fits(e),
        layout_laws::block_lines(e, 7).len() == 0,
    ensures
        sheet_laws::slab_at(layout_laws::blocks(e, true), 8) == sheet_laws::laid(
            layout_laws::blocks(e, true),
        ).len(),
{
    let b = layout_laws::blocks(e, true);
    lemma_blocks(e);
    assert(!writer::has_response_area(e));
    lemma_empty(e, b, 8);
    lemma_empty(e, b, 9);
    lemma_empty(e, b, 10);
    lemma_empty(e, b, 11);
    sheet_laws::lemma_slabs_rise(b, 12, 12);
}

proof fn lemma_empty(e: EntryView, b: Seq<Slab>, k: int)
    requires
        layout_laws::fits(e),
        b == layout_laws::blocks(e, true),
        0 <= k < 12,
        layout_laws::block_lines(e, k).len() == 0,
    ensures
        sheet_laws::slab_at(b, k + 1) == sheet_laws::slab_at(b, k),
{
    lemma_blocks(e);
    sheet_laws::lemma_laid_take(b, k);
    assert(b[k].own == layout_laws::block_lines(e, k));
}

// ---------------------------------------------------------------------------
// Rows and fields
// ---------------------------------------------------------------------------
/// The headers are read back.
proof fn lemma_headers_read(
    lines: Seq<Seq<char>>,
    s: EntryShapeView,
    e: EntryView,
    at: int,
    end: int,
    first: bool,
)
    requires
        sits(lines, e, at, end, first),
        is_found(lines, s, e, at),
    ensures
        source::rows_in(
            lines,
            base_of(e, at),
            parser::least_below(parser::anchors(s), base_of(e, at)),
        ) == e.headers,
{
    let b = layout_laws::blocks(e, true);
    let base = base_of(e, at);
    lemma_blocks(e);
    lemma_parts_stand(lines, e, at);
    let bound = lemma_bound(lines, s, e, at, end, first, 0, base);
    sheet_laws::lemma_laid_take(b, 0);
    sheet_laws::lemma_slabs_rise(b, 1, 12);
    sheet_laws::lemma_slab_stands(lines, base, b, 0);
    assert(b.take(0) =~= Seq::<Slab>::empty());
    assert(sheet_laws::slab_at(b, 0) == 0);
    assert(b[0].own == block_laws::stacked(e.headers));
    let i = base + b[0].prose.len();
    lemma_rows_apart(e, 0);
    assert forall|k: int| base <= k < i implies block_laws::no_row(#[trigger] lines[k]) by {
        block_laws::lemma_stands_at(lines, base, b[0].prose, k - base);
    }
    if bound is None {
        assert(b[0].prose =~= layout_laws::prose_at(e.comments, CommentAnchor::Headers));
        assert(b[0].prose.len() == 0);
    }
    block_laws::a_block_of_rows_is_read_as_its_rows(lines, base, i, e.headers, bound);
}

/// The rows of a section are read back.
proof fn lemma_section_read(
    lines: Seq<Seq<char>>,
    s: EntryShapeView,
    e: EntryView,
    at: int,
    end: int,
    first: bool,
    k: int,
    header: Seq<char>,
    rows: Seq<RowView>,
)
    requires
        sits(lines, e, at, end, first),
        is_found(lines, s, e, at),
        2 <= k <= 5,
        layout_laws::block_lines(e, k) == layout_laws::section_lines(header, rows),
        block_laws::rows_fit(rows),
    ensures
        parser::rows_of_section(lines, s, layout_laws::block_anchor(k)) == rows,
{
    let b = layout_laws::blocks(e, true);
    let base = base_of(e, at);
    lemma_blocks(e);
    lemma_parts_stand(lines, e, at);
    lemma_last_section(e, base, k, 5);
    if rows.len() == 0 {
        assert(rows =~= Seq::<RowView>::empty());
    } else {
        let own = block_at(e, base, k);
        let bound = lemma_bound(lines, s, e, at, end, first, k, own + 1);
        sheet_laws::lemma_laid_take(b, k);
        sheet_laws::lemma_slabs_rise(b, k + 1, 12);
        sheet_laws::lemma_slabs_rise(b, 0, k);
        sheet_laws::lemma_slab_stands(lines, base, b, k);
        assert(b[k].own == seq![header] + block_laws::stacked(rows));
        block_laws::lemma_stands_parts(lines, own, seq![header], block_laws::stacked(rows));
        block_laws::a_block_of_rows_is_read_as_its_rows(lines, own + 1, own + 1, rows, bound);
    }
}

/// The form is read back.
proof fn lemma_form_read(
    lines: Seq<Seq<char>>,
    s: EntryShapeView,
    e: EntryView,
    at: int,
    end: int,
    first: bool,
)
    requires
        sits(lines, e, at, end, first),
        is_found(lines, s, e, at),
    ensures
        parser::form_of(lines, s) == e.form_fields,
{
    let b = layout_laws::blocks(e, true);
    let base = base_of(e, at);
    let fields = e.form_fields;
    lemma_blocks(e);
    lemma_parts_stand(lines, e, at);
    lemma_last_section(e, base, 4, 5);
    if fields.len() == 0 {
        assert(fields =~= Seq::<FieldView>::empty());
    } else {
        let own = block_at(e, base, 4);
        let bound = lemma_bound(lines, s, e, at, end, first, 4, own + 1);
        let header = layout_laws::form_header(fields);
        sheet_laws::lemma_laid_take(b, 4);
        sheet_laws::lemma_slabs_rise(b, 5, 12);
        sheet_laws::lemma_slabs_rise(b, 0, 4);
        sheet_laws::lemma_slab_stands(lines, base, b, 4);
        assert(b[4].own == seq![header] + form_laws::stacked(fields));
        block_laws::lemma_stands_parts(lines, own, seq![header], form_laws::stacked(fields));
        form_laws::a_written_form_is_read_back(lines, own + 1, fields, bound);
        assert(section_found(e, base, 4) == form_laws::section_of(fields, own + 1));
    }
}

// ---------------------------------------------------------------------------
// The response
// ---------------------------------------------------------------------------
/// The sections of a response are the landmarks of their blocks.
proof fn lemma_checks(e: EntryView, base: int, n: int)
    requires
        layout_laws::fits(e),
        0 <= base,
        base + sheet_laws::laid(layout_laws::blocks(e, true)).len() <= usize::MAX,
        8 <= n <= 10,
    ensures
        sheet_laws::marks(layout_laws::blocks(e, true), base, 9) + parser::check_marks(
            checks_found(e, base, n),
        ) == sheet_laws::marks(layout_laws::blocks(e, true), base, n + 1),
        numbered(sheet_laws::marks(layout_laws::blocks(e, true), base, 9)) + checks_found(
            e,
            base,
            n,
        ).map_values(|c: CheckView| c.line) == numbered(
            sheet_laws::marks(layout_laws::blocks(e, true), base, n + 1),
        ),
    decreases n,
{
    let b = layout_laws::blocks(e, true);
    let f = |c: CheckView| c.line;
    lemma_blocks(e);
    let now = checks_found(e, base, n);
    let m = sheet_laws::marks(b, base, n + 1);
    let m9 = sheet_laws::marks(b, base, 9);
    if n == 8 {
        assert(m9 + parser::check_marks(now) =~= m);
        assert(numbered(m9) + now.map_values(f) =~= numbered(m));
    } else {
        lemma_checks(e, base, n - 1);
        let before = checks_found(e, base, n - 1);
        let bm = sheet_laws::marks(b, base, n);
        assert(b[n].own == layout_laws::block_lines(e, n));
        if b[n].own.len() > 0 {
            let c = check_found(e, base, n);
            sheet_laws::lemma_laid_take(b, n);
            sheet_laws::lemma_slabs_rise(b, n + 1, 12);
            sheet_laws::lemma_slabs_rise(b, 0, n);
            assert(c.line == block_at(e, base, n) + 1);
            assert(parser::check_anchor(c.tag) == Some(b[n].anchor));
            assert(now.drop_last() =~= before);
            assert(m =~= bm.push((block_at(e, base, n), b[n].anchor)));
            assert(m9 + parser::check_marks(now) =~= m);
            assert(now.map_values(f) =~= before.map_values(f).push(c.line));
            assert(numbered(m) =~= numbered(bm).push(c.line));
            assert(numbered(m9) + now.map_values(f) =~= numbered(m));
        } else {
            assert(m == bm);
        }
    }
}

/// The lines that bound the expected headers are those of the landmarks below
/// them.
proof fn lemma_response_anchors(
    lines: Seq<Seq<char>>,
    r: ResponseView,
    e: EntryView,
    base: int,
)
    requires
        layout_laws::fits(e),
        0 <= base,
        base + sheet_laws::laid(layout_laws::blocks(e, true)).len() <= usize::MAX,
        writer::has_response_area(e),
        is_response_found(lines, Some(r), e, base),
    ensures
        numbered(sheet_laws::marks(layout_laws::blocks(e, true), base, 9))
            + parser::response_anchors(r) == numbered(
            sheet_laws::marks(layout_laws::blocks(e, true), base, 12),
        ),
{
    let b = layout_laws::blocks(e, true);
    lemma_blocks(e);
    lemma_checks(e, base, 10);
    let m9 = sheet_laws::marks(b, base, 9);
    let m11 = sheet_laws::marks(b, base, 11);
    let m12 = sheet_laws::marks(b, base, 12);
    let f = |c: CheckView| c.line;
    assert(b[11].own == layout_laws::block_lines(e, 11));
    let body: Seq<usize> = match r.body {
        Some(x) => seq![x.start],
        None => seq![],
    };
    assert(numbered(m9) + (r.sections.map_values(f) + body) =~= numbered(m9)
        + r.sections.map_values(f) + body);
    if e.response_body is Some {
        assert(m12 =~= m11.push((block_at(e, base, 11), b[11].anchor)));
        assert(numbered(m12) =~= numbered(m11).push(body[0]));
    } else {
        assert(m12 == m11);
        assert(numbered(m11) + body =~= numbered(m11));
    }
    assert(numbered(m11) + body =~= numbered(m12));
}

/// The expected headers are read back.
proof fn lemma_expected_read(
    lines: Seq<Seq<char>>,
    s: EntryShapeView,
    e: EntryView,
    at: int,
    end: int,
    first: bool,
)
    requires
        sits(lines, e, at, end, first),
        is_found(lines, s, e, at),
        writer::has_response_area(e),
    ensures
        parser::headers_expected(lines, s.response.unwrap()) == e.response_headers,
{
    let b = layout_laws::blocks(e, true);
    let base = base_of(e, at);
    let r = s.response.unwrap();
    lemma_blocks(e);
    lemma_parts_stand(lines, e, at);
    lemma_response_anchors(lines, r, e, base);
    let a = parser::response_anchors(r);
    let m = sheet_laws::marks(b, base, 12);
    let i = sheet_laws::marks(b, base, 9).len() as int;
    sheet_laws::lemma_marks(b, base, 12);
    sheet_laws::lemma_marks_prefix(b, base, 9, 12);
    let all = numbered(sheet_laws::marks(b, base, 9)) + a;
    sheet_laws::lemma_slabs_rise(b, 0, 12);
    assert(all.len() == numbered(m).len());
    assert(a.len() + i == m.len());
    assert forall|j: int| 0 <= j < a.len() implies #[trigger] a[j] == m[i + j].0 + 1 by {
        assert(all[i + j] == a[j]);
        assert(m[i + j].0 < base + sheet_laws::slab_at(b, 12));
    }
    sheet_laws::lemma_laid_take(b, 7);
    sheet_laws::lemma_laid_take(b, 8);
    sheet_laws::lemma_slabs_rise(b, 0, 7);
    sheet_laws::lemma_slabs_rise(b, 8, 12);
    sheet_laws::lemma_slabs_rise(b, 9, 12);
    sheet_laws::lemma_slab_stands(lines, base, b, 8);
    assert(b[7].own == seq![layout_laws::status_line(e)]);
    assert(b[8].own == block_laws::stacked(e.response_headers));
    let start = base + sheet_laws::slab_at(b, 8);
    assert(start == r.head.line);
    let own = block_at(e, base, 8);
    let from = base + sheet_laws::slab_at(b, 9);
    lemma_rows_apart(e, 8);
    assert forall|k: int| start <= k < own implies block_laws::no_row(#[trigger] lines[k]) by {
        block_laws::lemma_stands_at(lines, start, b[8].prose, k - start);
    }
    let next = sheet_laws::lemma_next_mark(b, base, 9, 12);
    lemma_absent(e, base, 8, next);
    if layout_laws::block_lines(e, 8).len() > 0 {
        lemma_behind_rows(e, 8, next);
    }
    assert(layout_laws::takes_rows(e, next)) by {
        assert forall|j: int| 8 <= j < next && layout_laws::block_lines(e, 8).len() == 0 implies (
        #[trigger] layout_laws::block_lines(e, j)).len() == 0 by {}
    }
    if next < 12 {
        sheet_laws::lemma_laid_take(b, next);
        sheet_laws::lemma_slabs_rise(b, next + 1, 12);
        sheet_laws::lemma_slab_stands(lines, base, b, next);
        assert(b[next].anchor == layout_laws::block_anchor(next));
        let limit = block_at(e, base, next);
        assert(a[0] == limit + 1);
        assert forall|j: int| 0 <= j < a.len() && #[trigger] a[j] > -1 implies a[0] <= a[j] by {
            if j > 0 {
                assert(m[i].0 < m[i + j].0);
            }
        }
        lemma_least(a, -1, 0);
        lemma_rows_apart(e, next);
        assert forall|j: int| from <= j < limit implies block_laws::no_row(#[trigger] lines[j]) by {
            block_laws::lemma_stands_at(lines, from, b[next].prose, j - from);
        }
        block_laws::a_block_of_rows_is_read_as_its_rows(
            lines,
            start,
            own,
            e.response_headers,
            Some(a[0]),
        );
    } else {
        assert(a.len() == 0);
        lemma_none_below(a, -1);
        assert(b[8].prose =~= layout_laws::prose_at(e.comments, CommentAnchor::ResponseHeaders));
        assert(b[8].prose.len() == 0);
        lemma_below_is_no_row(lines, e, at, end, first);
        block_laws::a_block_of_rows_is_read_as_its_rows(
            lines,
            start,
            own,
            e.response_headers,
            None,
        );
    }
}

proof fn lemma_asserts_on(
    lines: Seq<Seq<char>>,
    asserts: Seq<Seq<char>>,
    q: Seq<usize>,
    i: int,
)
    requires
        0 <= i,
        i + asserts.len() <= lines.len(),
        q.len() == asserts.len(),
        forall|j: int| 0 <= j < q.len() ==> #[trigger] q[j] == i + j + 1,
        forall|j: int|
            0 <= j < asserts.len() ==> lines[i + j] == #[trigger] asserts[j]
                && !text::is_blank(asserts[j]) && text::trimmed(asserts[j]) == asserts[j],
    ensures
        parser::asserts_on(lines, q) == asserts,
    decreases q.len(),
{
    if q.len() > 0 {
        let n = q.len() - 1;
        assert(q[n] == i + n + 1);
        assert(lines[i + n] == asserts[n]);
        let qf = q.drop_last();
        let af = asserts.drop_last();
        assert forall|j: int| 0 <= j < qf.len() implies #[trigger] qf[j] == i + j + 1 by {
            assert(qf[j] == q[j]);
        }
        assert forall|j: int| 0 <= j < af.len() implies lines[i + j] == #[trigger] af[j]
            && !text::is_blank(af[j]) && text::trimmed(af[j]) == af[j] by {
            assert(af[j] == asserts[j]);
        }
        lemma_asserts_on(lines, af, qf, i);
        assert(af.push(asserts[n]) =~= asserts);
    } else {
        assert(asserts =~= Seq::<Seq<char>>::empty());
    }
}

proof fn lemma_captures_on(
    lines: Seq<Seq<char>>,
    captures: Seq<(Seq<char>, Seq<char>)>,
    q: Seq<usize>,
    i: int,
)
    requires
        0 <= i,
        i + captures.len() <= lines.len(),
        q.len() == captures.len(),
        forall|j: int| 0 <= j < q.len() ==> #[trigger] q[j] == i + j + 1,
        forall|j: int|
            0 <= j < captures.len() ==> lines[i + j] == writer::kv(
                (#[trigger] captures[j]).0,
                captures[j].1,
            ) && line_laws::capture_fits(captures[j]),
    ensures
        parser::captures_on(lines, q) == captures,
    decreases q.len(),
{
    if q.len() > 0 {
        let n = q.len() - 1;
        assert(q[n] == i + n + 1);
        assert(lines[i + n] == writer::kv(captures[n].0, captures[n].1));
        line_laws::a_written_capture_is_read_back(lines, captures[n], q[n]);
        let qf = q.drop_last();
        let cf = captures.drop_last();
        assert forall|j: int| 0 <= j < qf.len() implies #[trigger] qf[j] == i + j + 1 by {
            assert(qf[j] == q[j]);
        }
        assert forall|j: int| 0 <= j < cf.len() implies lines[i + j] == writer::kv(
            (#[trigger] cf[j]).0,
            cf[j].1,
        ) && line_laws::capture_fits(cf[j]) by {
            assert(cf[j] == captures[j]);
        }
        lemma_captures_on(lines, cf, qf, i);
        assert(cf.push(captures[n]) =~= captures);
    } else {
        assert(captures =~= Seq::<(Seq<char>, Seq<char>)>::empty());
    }
}

proof fn lemma_last_check(e: EntryView, base: int)
    ensures
        parser::last_check(checks_found(e, base, 10), CheckTag::Asserts) == (if e.asserts.len() > 0 {
            Some(check_found(e, base, 9))
        } else {
            None
        }),
        parser::last_check(checks_found(e, base, 10), CheckTag::Captures) == (if e.captures.len()
            > 0 {
            Some(check_found(e, base, 10))
        } else {
            None
        }),
{
    reveal_with_fuel(parser::last_check, 3);
    reveal_with_fuel(checks_found, 3);
    let none = Seq::<CheckView>::empty();
    let nine = checks_found(e, base, 9);
    let ten = checks_found(e, base, 10);
    assert(checks_found(e, base, 8) == none);
    assert(layout_laws::block_lines(e, 9).len() > 0 <==> e.asserts.len() > 0);
    assert(layout_laws::block_lines(e, 10).len() > 0 <==> e.captures.len() > 0);
    if e.asserts.len() > 0 {
        assert(nine =~= seq![check_found(e, base, 9)]);
        assert(nine.drop_last() =~= none);
        assert(nine.last() == check_found(e, base, 9));
    }
    if e.captures.len() > 0 {
        assert(ten.drop_last() =~= nine);
        assert(ten.last() == check_found(e, base, 10));
    }
}

/// The checks of a response are read back.
proof fn lemma_checks_read(
    lines: Seq<Seq<char>>,
    e: EntryView,
    at: int,
    end: int,
    first: bool,
)
    requires
        sits(lines, e, at, end, first),
    ensures
        e.asserts.len() > 0 ==> parser::asserts_on(
            lines,
            check_found(e, base_of(e, at), 9).queries,
        ) == e.asserts,
        e.captures.len() > 0 ==> parser::captures_on(
            lines,
            check_found(e, base_of(e, at), 10).queries,
        ) == e.captures,
{
    let b = layout_laws::blocks(e, true);
    let base = base_of(e, at);
    lemma_blocks(e);
    lemma_parts_stand(lines, e, at);
    sheet_laws::lemma_slabs_rise(b, 0, 9);
    sheet_laws::lemma_slabs_rise(b, 0, 10);
    sheet_laws::lemma_slabs_rise(b, 10, 12);
    sheet_laws::lemma_slabs_rise(b, 11, 12);
    if e.asserts.len() > 0 {
        let own = block_at(e, base, 9);
        let q = check_found(e, base, 9).queries;
        sheet_laws::lemma_laid_take(b, 9);
        sheet_laws::lemma_slab_stands(lines, base, b, 9);
        assert(b[9].own == seq!["[Asserts]"@] + e.asserts);
        block_laws::lemma_stands_parts(lines, own, seq!["[Asserts]"@], e.asserts);
        assert forall|j: int| 0 <= j < e.asserts.len() implies lines[own + 1 + j]
            == #[trigger] e.asserts[j] && !text::is_blank(e.asserts[j]) && text::trimmed(
            e.asserts[j],
        ) == e.asserts[j] by {
            block_laws::lemma_stands_at(lines, own + 1, e.asserts, j);
            assert(layout_laws::is_plain(e.asserts[j]));
        }
        lemma_asserts_on(lines, e.asserts, q, own + 1);
    }
    if e.captures.len() > 0 {
        let own = block_at(e, base, 10);
        let q = check_found(e, base, 10).queries;
        let rows = layout_laws::capture_rows(e.captures);
        sheet_laws::lemma_laid_take(b, 10);
        sheet_laws::lemma_slab_stands(lines, base, b, 10);
        assert(b[10].own == seq!["[Captures]"@] + rows);
        block_laws::lemma_stands_parts(lines, own, seq!["[Captures]"@], rows);
        assert forall|j: int| 0 <= j < e.captures.len() implies lines[own + 1 + j] == writer::kv(
            (#[trigger] e.captures[j]).0,
            e.captures[j].1,
        ) && line_laws::capture_fits(e.captures[j]) by {
            block_laws::lemma_stands_at(lines, own + 1, rows, j);
        }
        lemma_captures_on(lines, e.captures, q, own + 1);
    }
}

// ---------------------------------------------------------------------------
// The window
// ---------------------------------------------------------------------------
/// The landmarks are those of the blocks.
proof fn lemma_landmarks(
    lines: Seq<Seq<char>>,
    s: EntryShapeView,
    e: EntryView,
    at: int,
    end: int,
    first: bool,
)
    requires
        sits(lines, e, at, end, first),
        is_found(lines, s, e, at),
    ensures
        parser::landmarks(lines, s) == sheet_laws::marks(
            layout_laws::blocks(e, true),
            base_of(e, at),
            12,
        ),
{
    let b = layout_laws::blocks(e, true);
    let base = base_of(e, at);
    lemma_blocks(e);
    lemma_parts_stand(lines, e, at);
    lemma_sections(e, base, 5);
    let m6 = sheet_laws::marks(b, base, 6);
    let m7 = sheet_laws::marks(b, base, 7);
    let m8 = sheet_laws::marks(b, base, 8);
    let m9 = sheet_laws::marks(b, base, 9);
    let m11 = sheet_laws::marks(b, base, 11);
    let m12 = sheet_laws::marks(b, base, 12);
    assert forall|k: int| 0 <= k < 12 implies (#[trigger] b[k]).anchor == layout_laws::block_anchor(
        k,
    ) && b[k].own == layout_laws::block_lines(e, k) by {}
    let none = Seq::<(int, CommentAnchor)>::empty();
    let bodies = parser::body_mark(s.body, CommentAnchor::Body);
    assert(b[6].own.len() > 0 <==> layout_laws::sent(e) is Some);
    assert(m6 + bodies =~= m7);
    let response = match s.response {
        Some(r) => parser::response_marks(lines, r),
        None => none,
    };
    if writer::has_response_area(e) {
        let r = s.response.unwrap();
        lemma_expected_read(lines, s, e, at, end, first);
        lemma_checks(e, base, 10);
        sheet_laws::lemma_laid_take(b, 7);
        sheet_laws::lemma_slabs_rise(b, 0, 7);
        sheet_laws::lemma_slabs_rise(b, 8, 12);
        assert(b[7].own == seq![layout_laws::status_line(e)]);
        let headed = r.head.header_count > 0 || parser::some_disabled(e.response_headers);
        assert(headed == (b[8].own.len() > 0)) by {
            let rows = e.response_headers;
            assert(b[8].own == block_laws::stacked(rows));
            if rows.len() > 0 {
                assert(rows[0].enabled || !rows[0].enabled);
                assert(block_laws::stacked(rows).len() > 0);
            }
        }
        let line: Seq<(int, CommentAnchor)> = seq![
            (parser::place(r.head.line), CommentAnchor::Response),
        ];
        let heads: Seq<(int, CommentAnchor)> = if headed {
            seq![(parser::place(r.head.line) + 1, CommentAnchor::ResponseHeaders)]
        } else {
            seq![]
        };
        let checks = parser::check_marks(r.sections);
        let body = parser::body_mark(r.body, CommentAnchor::ResponseBody);
        assert(m7 + line =~= m8);
        assert(m8 + heads =~= m9);
        assert(b[11].own.len() > 0 <==> e.response_body is Some);
        assert(m11 + body =~= m12);
        assert(response == line + heads + checks + body);
        assert(m7 + (line + heads + checks + body) =~= m7 + line + heads + checks + body);
    } else {
        assert(m8 == m7);
        assert(b[8].own == layout_laws::block_lines(e, 8));
        assert(b[9].own == layout_laws::block_lines(e, 9));
        assert(b[10].own == layout_laws::block_lines(e, 10));
        assert(b[11].own == layout_laws::block_lines(e, 11));
        assert(m9 == m8);
        assert(sheet_laws::marks(b, base, 10) == m9);
        assert(m11 == m9);
        assert(m12 == m11);
        assert(m7 + none =~= m7);
    }
    sheet_laws::lemma_marks(b, base, 12);
    order::lemma_by_line_in_order(m12);
}

/// A line that carries a row or a note is no blank line and no marker of report
/// fields.
proof fn lemma_carried(line: Seq<char>, kind: RowKind)
    requires
        comment_scan::carries_row(line, kind),
    ensures
        !text::is_blank(line),
        !source::is_reports_line(line),
{
    reveal_strlit("#");
    reveal_strlit("# @desc");
    reveal_strlit("[Reports]");
    let t = text::trimmed_start(line);
    text::lemma_trimmed_start(line);
    text::lemma_trimmed_end(t);
    if source::note_on(line) is Some {
        assert(t.take(7)[0] == '#' && t.take(7)[1] == ' ' && t.take(7)[2] == '@');
        if source::is_reports_line(line) {
            let rest = t.skip(1);
            text_laws::lemma_trimmed_start_is(rest, 1);
            let low = text::lowered(text::trimmed(rest));
            text::lemma_trimmed_end(text::trimmed_start(rest));
            assert(text::trimmed_start(rest) == rest.skip(1));
            assert(rest.skip(1)[0] == '@');
            assert(text::trimmed(rest).len() > 0);
            assert(low[0] == text::ascii_lower('@'));
            assert(text::lowered("[Reports]"@)[0] == text::ascii_lower('['));
            assert(false);
        }
    } else {
        let u = source::uncommented(line).1;
        let n = source::name_end(u, 0);
        source::lemma_name_end(u, 0);
        assert(n < u.len() && u[n] == ':');
        if text::is_blank(line) {
            assert(text::trimmed(line) =~= Seq::<char>::empty());
            assert(false);
        }
        if source::is_reports_line(line) {
            let rest = t.skip(1);
            let r = text::trimmed(rest);
            assert(t.take(1)[0] == '#');
            lemma_uncommented_marker(line);
            assert(u == r);
            let low = text::lowered(r);
            let want = text::lowered("[Reports]"@);
            assert(low == want);
            assert(low[n] == text::ascii_lower(':'));
            assert(want.len() == 9);
            assert(want[n] == text::ascii_lower("[Reports]"@[n]));
            assert(false);
        }
    }
}

/// What stands behind the mark of a comment.
proof fn lemma_uncommented_marker(line: Seq<char>)
    requires
        text::begins(text::trimmed_start(line), "#"@),
    ensures
        source::uncommented(line).1 == text::trimmed(text::trimmed_start(line).skip(1)),
{
    reveal_strlit("#");
    let t = text::trimmed_start(line);
    let w = text::trimmed(line);
    text::lemma_trimmed_start(line);
    text::lemma_trimmed_end(t);
    assert(t.take(1)[0] == '#');
    assert(w.len() > 0 && w[0] == '#');
    assert(w.take(1) =~= "#"@);
    let rest = t.skip(1);
    let cut = w.skip(1);
    text_laws::lemma_trim_commutes(rest, cut.len() as int);
    assert(cut =~= rest.take(cut.len() as int));
}

/// The lines of rows carry rows.
proof fn lemma_stacked_carry(rows: Seq<RowView>, j: int)
    requires
        block_laws::rows_fit(rows),
        0 <= j < block_laws::stacked(rows).len(),
    ensures
        comment_scan::carries_row(block_laws::stacked(rows)[j], RowKind::Kv),
    decreases rows.len(),
{
    let front = rows.drop_last();
    let row = rows.last();
    let n = block_laws::stacked(front).len();
    assert(forall|i: int| 0 <= i < front.len() ==> front[i] == rows[i]);
    assert(line_laws::row_fits(rows[rows.len() - 1]));
    let notes = block_laws::note_lines(row.desc);
    if j < n {
        lemma_stacked_carry(front, j);
    } else if j < n + notes.len() {
        let l = text::lines_of(row.desc)[j - n];
        assert(block_laws::stacked(rows)[j] == writer::DESC_MARKER@ + l);
        line_laws::a_written_note_is_read_back(l);
    } else {
        line_laws::a_written_row_is_read_back(row);
    }
}

/// The lines of form fields carry fields.
proof fn lemma_form_carry(fields: Seq<FieldView>, j: int)
    requires
        form_laws::fields_fit(fields),
        0 <= j < form_laws::stacked(fields).len(),
    ensures
        comment_scan::carries_row(form_laws::stacked(fields)[j], RowKind::Form),
    decreases fields.len(),
{
    let front = fields.drop_last();
    let f = fields.last();
    let n = form_laws::stacked(front).len();
    assert(forall|i: int| 0 <= i < front.len() ==> front[i] == fields[i]);
    assert(line_laws::field_fits(fields[fields.len() - 1]));
    let notes = block_laws::note_lines(f.desc);
    if j < n {
        lemma_form_carry(front, j);
    } else if j < n + notes.len() {
        let l = text::lines_of(f.desc)[j - n];
        assert(form_laws::stacked(fields)[j] == writer::DESC_MARKER@ + l);
        line_laws::a_written_note_is_read_back(l);
    } else {
        line_laws::a_written_field_is_read_back(f);
    }
}

/// What the lines of a block are: rows, plain lines, or a body's.
proof fn lemma_own_lines(e: EntryView, k: int, j: int)
    requires
        layout_laws::fits(e),
        0 <= k < 12,
        0 <= j < layout_laws::block_lines(e, k).len(),
    ensures
        ({
            let l = layout_laws::block_lines(e, k)[j];
            let a = layout_laws::block_anchor(k);
            let kind = if a is Headers {
                RowKind::Kv
            } else {
                comment_scan::rows_of_block(a)
            };
            &&& k == 6 || k == 11 || source::is_content(l) || (comment_scan::carries_row(l, kind)
                && !text::is_blank(l) && (k == 0 || k == 8 || j > 0))
            &&& k == 6 || k == 11 || !source::is_reports_line(l)
        }),
{
    let l = layout_laws::block_lines(e, k)[j];
    layout_laws::lemma_headers();
    if k == 0 {
        lemma_stacked_carry(e.headers, j);
        lemma_carried(l, RowKind::Kv);
    } else if k == 8 {
        lemma_stacked_carry(e.response_headers, j);
        lemma_carried(l, RowKind::Kv);
    } else if k == 6 || k == 11 {
    } else if k == 2 && j > 0 {
        lemma_stacked_carry(e.cookies, j - 1);
        lemma_carried(l, RowKind::Kv);
    } else if k == 3 && j > 0 {
        lemma_stacked_carry(e.queries, j - 1);
        lemma_carried(l, RowKind::Kv);
    } else if k == 5 && j > 0 {
        lemma_stacked_carry(e.options, j - 1);
        lemma_carried(l, RowKind::Kv);
    } else if k == 4 && j > 0 {
        lemma_form_carry(e.form_fields, j - 1);
        lemma_carried(l, RowKind::Form);
    } else {
        if k == 9 && j > 0 {
            assert(l == e.asserts[j - 1]);
            assert(layout_laws::is_plain(e.asserts[j - 1]));
        } else if k == 10 && j > 0 {
            layout_laws::lemma_capture_line(e, j - 1);
            assert(l == layout_laws::capture_rows(e.captures)[j - 1]);
        }
        assert(source::is_content(l));
        lemma_content_is_no_marker(l);
    }
}

/// A line that is neither blank nor comment is no marker of report fields.
proof fn lemma_content_is_no_marker(l: Seq<char>)
    requires
        source::is_content(l),
    ensures
        !source::is_reports_line(l),
{
    reveal_strlit("#");
    let t = text::trimmed_start(l);
    text::lemma_trimmed_start(l);
    text::lemma_trimmed_end(t);
    if text::begins(t, "#"@) {
        assert(t.take(1)[0] == '#');
        let w = text::trimmed(l);
        assert(w[0] == t[0]);
        assert(w.take(1) =~= "#"@);
    }
}

/// The report fields are read back. Where there are none, a marker may still
/// stand in a body, but no report field below it.
proof fn lemma_reports_read(lines: Seq<Seq<char>>, e: EntryView, at: int, end: int, first: bool)
    requires
        sits(lines, e, at, end, first),
    ensures
        ({
            let m = base_of(e, at) - 1;
            let z = base_of(e, at) + sheet_laws::laid(layout_laws::blocks(e, true)).len();
            let found = source::reports_marker(lines, m, end);
            &&& source::reports_in(lines, m, end) == e.reports
            &&& e.reports.len() > 0 ==> found == z && source::reports_end(lines, z + 1, end) == z
                + comment_laws::report_lines(e.reports).len()
            &&& e.reports.len() == 0 && found < end ==> source::is_reports_line(lines[found])
                && source::reports_end(lines, found + 1, end) == found + 1
        }),
{
    let base = base_of(e, at);
    let m = base - 1;
    let z = base + sheet_laws::laid(layout_laws::blocks(e, true)).len();
    let reports = comment_laws::report_lines(e.reports);
    let tail = layout_laws::prose_at(e.comments, CommentAnchor::Trailing);
    let t = z + reports.len() + tail.len();
    reveal(layout_laws::reports_kept_apart);
    lemma_parts_stand(lines, e, at);
    lemma_request_line(lines, e, at);
    if e.reports.len() > 0 {
        lemma_content_is_no_marker(lines[m]);
        assert forall|j: int| m <= j < z implies !source::is_reports_line(#[trigger] lines[j]) by {
            if j > m {
                lemma_block_line_is_no_marker(lines, e, at, j);
            }
        }
        let behind = z + reports.len();
        if behind < end {
            if tail.len() > 0 {
                block_laws::lemma_stands_at(lines, behind, tail, 0);
            } else {
                lemma_blank_is_no_row(lines[behind]);
            }
        }
        comment_laws::written_report_fields_are_read_back(lines, m, z, end, e.reports);
    } else {
        lemma_no_reports_read(lines, e, at, end, first);
    }
}

/// The first marker of report fields, if there is one.
proof fn lemma_marker(lines: Seq<Seq<char>>, i: int, to: int)
    requires
        i <= to,
    ensures
        i <= source::reports_marker(lines, i, to) <= to,
        source::reports_marker(lines, i, to) < to ==> source::is_reports_line(
            lines[source::reports_marker(lines, i, to)],
        ),
        forall|j: int|
            i <= j < source::reports_marker(lines, i, to) ==> !source::is_reports_line(
                #[trigger] lines[j],
            ),
    decreases to - i,
{
    if i < to && !source::is_reports_line(lines[i]) {
        lemma_marker(lines, i + 1, to);
    }
}

proof fn lemma_no_reports_read(lines: Seq<Seq<char>>, e: EntryView, at: int, end: int, first: bool)
    requires
        sits(lines, e, at, end, first),
        e.reports.len() == 0,
    ensures
        ({
            let m = base_of(e, at) - 1;
            let found = source::reports_marker(lines, m, end);
            &&& source::reports_in(lines, m, end) == e.reports
            &&& found < end ==> source::is_reports_line(lines[found]) && source::reports_end(
                lines,
                found + 1,
                end,
            ) == found + 1
        }),
{
    let base = base_of(e, at);
    let m = base - 1;
    let below = layout_laws::lines_below(e);
    let n = below.len() as int;
    let t = at + layout_laws::entry_lines(e).len();
    let found = source::reports_marker(lines, m, end);
    reveal(layout_laws::reports_kept_apart);
    lemma_parts_stand(lines, e, at);
    lemma_request_line(lines, e, at);
    lemma_content_is_no_marker(lines[m]);
    lemma_below_stands(lines, e, at);
    lemma_marker(lines, m, end);
    if found < end {
        if t < lines.len() {
            lemma_blank_is_no_row(lines[t]);
        }
        if found < t {
            let q = found - base;
            assert forall|j: int| 0 <= j < n implies #[trigger] below[j] == lines[base + j] by {
                block_laws::lemma_stands_at(lines, base, below, j);
            }
            comment_laws::lemma_marker_is(below, 0, q, n);
            lemma_reports_end(below, q + 1, n);
            assert(source::reports_in(below, 0, n).len() == source::reports_end(below, q + 1, n) - (
            q + 1));
            if q + 1 < n {
                assert(source::report_on(below[q + 1]) is None);
            }
        }
        comment_laws::lemma_reports_end_is(lines, found + 1, found + 1, end);
    }
    assert(source::reports_in(lines, m, end) =~= e.reports);
}

proof fn lemma_reports_end(lines: Seq<Seq<char>>, i: int, to: int)
    requires
        i <= to,
    ensures
        i <= source::reports_end(lines, i, to) <= to,
        i < to && source::report_on(lines[i]) is Some ==> source::reports_end(lines, i, to) > i,
    decreases to - i,
{
    if i < to && source::report_on(lines[i]) is Some {
        lemma_reports_end(lines, i + 1, to);
    }
}

/// The lines below the request line stand there.
proof fn lemma_below_stands(lines: Seq<Seq<char>>, e: EntryView, at: int)
    requires
        block_laws::stands(lines, at, layout_laws::entry_lines(e)),
    ensures
        block_laws::stands(lines, base_of(e, at), layout_laws::lines_below(e)),
        base_of(e, at) + layout_laws::lines_below(e).len() == at + layout_laws::entry_lines(
            e,
        ).len(),
{
    let h = layout_laws::head_lines(e);
    let below = layout_laws::lines_below(e);
    assert(layout_laws::entry_lines(e) =~= h + below);
    block_laws::lemma_stands_parts(lines, at, h, below);
}

/// The request line stands above the blocks.
proof fn lemma_request_line(lines: Seq<Seq<char>>, e: EntryView, at: int)
    requires
        layout_laws::fits(e),
        block_laws::stands(lines, at, layout_laws::entry_lines(e)),
    ensures
        lines[base_of(e, at) - 1] == layout_laws::request_line(e),
        source::is_content(lines[base_of(e, at) - 1]),
        at < base_of(e, at) <= lines.len(),
{
    lemma_parts_stand(lines, e, at);
    let h = layout_laws::head_lines(e);
    block_laws::lemma_stands_at(lines, at, h, h.len() - 1);
}

/// Which slab a line of the blocks stands in.
proof fn lemma_slab_of(b: Seq<Slab>, j: int, n: int) -> (k: int)
    requires
        0 <= n <= b.len(),
        0 <= j < sheet_laws::slab_at(b, n),
    ensures
        0 <= k < n,
        sheet_laws::slab_at(b, k) <= j < sheet_laws::slab_at(b, k + 1),
    decreases n,
{
    if n == 0 {
        assert(b.take(0) =~= Seq::<Slab>::empty());
        0
    } else if j < sheet_laws::slab_at(b, n - 1) {
        lemma_slab_of(b, j, n - 1)
    } else {
        n - 1
    }
}

/// Where there are report fields, no line of the blocks is their marker.
proof fn lemma_block_line_is_no_marker(lines: Seq<Seq<char>>, e: EntryView, at: int, j: int)
    requires
        layout_laws::fits(e),
        block_laws::stands(lines, at, layout_laws::entry_lines(e)),
        base_of(e, at) <= j < base_of(e, at) + sheet_laws::laid(layout_laws::blocks(e, true)).len(),
        e.reports.len() > 0,
    ensures
        !source::is_reports_line(lines[j]),
{
    let b = layout_laws::blocks(e, true);
    let base = base_of(e, at);
    reveal(layout_laws::reports_kept_apart);
    lemma_blocks(e);
    lemma_parts_stand(lines, e, at);
    sheet_laws::lemma_slabs_rise(b, 0, 12);
    let k = lemma_slab_of(b, j - base, 12);
    sheet_laws::lemma_laid_take(b, k);
    sheet_laws::lemma_slab_stands(lines, base, b, k);
    let i = j - base - sheet_laws::slab_at(b, k);
    if i < b[k].prose.len() {
        block_laws::lemma_stands_at(lines, base + sheet_laws::slab_at(b, k), b[k].prose, i);
        assert(sheet_laws::all_prose(b[k].prose));
        assert(sheet_laws::is_prose(b[k].prose[i]));
    } else {
        let o = i - b[k].prose.len();
        block_laws::lemma_stands_at(lines, block_at(e, base, k), b[k].own, o);
        assert(b[k].own == layout_laws::block_lines(e, k));
        lemma_own_lines(e, k, o);
        if k == 6 {
            assert(!source::is_reports_line(layout_laws::body_lines(layout_laws::sent(e))[o]));
        }
        if k == 11 {
            assert(!source::is_reports_line(layout_laws::body_lines(e.response_body)[o]));
        }
    }
}

/// The lines of bodies are those of the two blocks that are bodies.
proof fn lemma_in_body(
    lines: Seq<Seq<char>>,
    s: EntryShapeView,
    e: EntryView,
    at: int,
    end: int,
    first: bool,
    i: int,
)
    requires
        sits(lines, e, at, end, first),
        is_found(lines, s, e, at),
    ensures
        ({
            let b = layout_laws::blocks(e, true);
            let base = base_of(e, at);
            parser::window_of(lines, s, base - 1, end).in_body(i) <==> (sheet_laws::in_block(
                b,
                base,
                6,
                i,
            ) || sheet_laws::in_block(b, base, 11, i))
        }),
{
    let b = layout_laws::blocks(e, true);
    let base = base_of(e, at);
    let w = parser::window_of(lines, s, base - 1, end);
    lemma_blocks(e);
    lemma_parts_stand(lines, e, at);
    sheet_laws::lemma_laid_take(b, 6);
    sheet_laws::lemma_laid_take(b, 11);
    sheet_laws::lemma_slabs_rise(b, 0, 6);
    sheet_laws::lemma_slabs_rise(b, 0, 11);
    assert(b[6].own == layout_laws::body_lines(layout_laws::sent(e)));
    assert(b[11].own == layout_laws::block_lines(e, 11));
    let of_request = parser::body_span(s.body);
    let of_response = parser::body_span(
        match s.response {
            Some(r) => r.body,
            None => None,
        },
    );
    assert(w.bodies == of_request + of_response);
    if sheet_laws::in_block(b, base, 6, i) {
        assert(w.bodies[0] == of_request[0]);
        assert(w.bodies[0].0 <= i + 1);
    }
    if sheet_laws::in_block(b, base, 11, i) {
        assert(e.response_body is Some);
        let n = of_request.len() as int;
        assert(w.bodies[n] == of_response[0]);
        assert(w.bodies[n].0 <= i + 1);
    }
    if w.in_body(i) {
        let k = choose|k: int|
            0 <= k < w.bodies.len() && (#[trigger] w.bodies[k]).0 <= i + 1 && (i + 1
                <= w.bodies[k].1 || i + 1 == w.bodies[k].0);
        if k < of_request.len() {
            assert(w.bodies[k] == of_request[0]);
        } else {
            assert(w.bodies[k] == of_response[0]);
        }
    }
}

/// Blocks do not overlap.
proof fn lemma_apart(b: Seq<Slab>, base: int, k: int, i: int)
    requires
        b.len() == 12,
        0 <= k < 12,
        base + sheet_laws::slab_at(b, k) <= i < base + sheet_laws::slab_at(b, k + 1),
    ensures
        sheet_laws::in_block(b, base, 6, i) ==> k == 6 && sheet_laws::in_block(b, base, k, i),
        sheet_laws::in_block(b, base, 11, i) ==> k == 11 && sheet_laws::in_block(b, base, k, i),
{
    if k < 6 {
        sheet_laws::lemma_slabs_rise(b, k + 1, 6);
    }
    if k > 6 {
        sheet_laws::lemma_slabs_rise(b, 7, k);
    }
    if k < 11 {
        sheet_laws::lemma_slabs_rise(b, k + 1, 11);
    }
}

/// A comment before a block is part of no body and no report fields, and is not
/// taken for a row.
proof fn lemma_prose_is_apart(
    lines: Seq<Seq<char>>,
    s: EntryShapeView,
    e: EntryView,
    at: int,
    end: int,
    first: bool,
    k: int,
    i: int,
)
    requires
        sits(lines, e, at, end, first),
        is_found(lines, s, e, at),
        sheet_laws::in_prose(layout_laws::blocks(e, true), base_of(e, at), k, i),
        sheet_laws::shows(
            parser::window_of(lines, s, base_of(e, at) - 1, end),
            layout_laws::blocks(e, true),
            base_of(e, at),
        ),
    ensures
        ({
            let w = parser::window_of(lines, s, base_of(e, at) - 1, end);
            !w.in_body(i) && !w.is_row(i) && !w.in_reports(i)
        }),
{
    let b = layout_laws::blocks(e, true);
    let base = base_of(e, at);
    let w = parser::window_of(lines, s, base - 1, end);
    let o = i - base - sheet_laws::slab_at(b, k);
    lemma_blocks(e);
    lemma_parts_stand(lines, e, at);
    sheet_laws::lemma_laid_take(b, k);
    sheet_laws::lemma_slab_stands(lines, base, b, k);
    sheet_laws::lemma_slabs_rise(b, k + 1, 12);
    sheet_laws::lemma_slabs_rise(b, 0, k);
    block_laws::lemma_stands_at(lines, base + sheet_laws::slab_at(b, k), b[k].prose, o);
    lemma_in_body(lines, s, e, at, end, first, i);
    lemma_apart(b, base, k, i);
    lemma_reports_read(lines, e, at, end, first);
    assert(sheet_laws::all_prose(b[k].prose));
    assert(sheet_laws::is_prose(lines[i]));
    if layout_laws::takes_rows(e, k) {
        lemma_rows_apart(e, k);
        sheet_laws::lemma_prose_is_no_row(w, i);
    } else {
        sheet_laws::lemma_marks_prefix(b, base, k, 12);
        assert(sheet_laws::announced(b[k]));
        assert(b[k].anchor == layout_laws::block_anchor(k));
        let some = sheet_laws::marks(b, base, k + 1);
        let n = sheet_laws::marks(b, base, k).len() as int;
        sheet_laws::lemma_marks_prefix(b, base, k + 1, 12);
        sheet_laws::lemma_marks(b, base, 12);
        assert forall|m: int| n <= m < w.landmarks.len() implies i < (
        #[trigger] w.landmarks[m]).0 by {
            assert(w.landmarks.take(n + 1)[n] == some[n]);
            if m > n {
                assert(w.landmarks[n].0 < w.landmarks[m].0);
            }
        }
        sheet_laws::lemma_no_rows_there(w, b, base, k, i);
    }
}

/// The lines of an entry are read as they should be.
proof fn lemma_reads_well(
    lines: Seq<Seq<char>>,
    s: EntryShapeView,
    e: EntryView,
    at: int,
    end: int,
    first: bool,
)
    requires
        sits(lines, e, at, end, first),
        is_found(lines, s, e, at),
    ensures
        sheet_laws::reads_well(
            parser::window_of(lines, s, base_of(e, at) - 1, end),
            layout_laws::blocks(e, true),
            base_of(e, at),
        ),
{
    let b = layout_laws::blocks(e, true);
    let base = base_of(e, at);
    let w = parser::window_of(lines, s, base - 1, end);
    let z = base + sheet_laws::laid(b).len();
    lemma_blocks(e);
    lemma_parts_stand(lines, e, at);
    lemma_request_line(lines, e, at);
    lemma_landmarks(lines, s, e, at, end, first);
    assert(sheet_laws::shows(w, b, base));
    assert forall|k: int, i: int| #[trigger]
        sheet_laws::in_prose(b, base, k, i) implies !w.in_body(i) && !w.is_row(i)
        && !w.in_reports(i) by {
        lemma_prose_is_apart(lines, s, e, at, end, first, k, i);
    }
    assert forall|k: int, i: int| #[trigger]
        sheet_laws::in_block(b, base, k, i) implies w.is_structural(i)
        && !sheet_laws::hides_comment(w, i) by {
        sheet_laws::lemma_laid_take(b, k);
        sheet_laws::lemma_slab_stands(lines, base, b, k);
        lemma_in_body(lines, s, e, at, end, first, i);
        let o = i - block_at(e, base, k);
        assert(b[k].own == layout_laws::block_lines(e, k));
        block_laws::lemma_stands_at(lines, block_at(e, base, k), b[k].own, o);
        lemma_own_lines(e, k, o);
        if k == 6 || k == 11 || source::is_content(lines[i]) {
        } else {
            assert(b[k].anchor == layout_laws::block_anchor(k));
            sheet_laws::lemma_own_is_row(w, b, base, k, i);
        }
    }
    assert forall|i: int|
        #![trigger w.in_next_title(i)]
        w.method <= i < z implies !w.in_next_title(i) by {
        lemma_next_title(lines, e, at, end, first);
    }
}

/// The comments directly above the next request begin below the entry.
proof fn lemma_next_title(lines: Seq<Seq<char>>, e: EntryView, at: int, end: int, first: bool)
    requires
        sits(lines, e, at, end, first),
    ensures
        end < lines.len() ==> source::comment_top(lines, end, base_of(e, at) - 1) == at
            + layout_laws::entry_lines(e).len() + 1,
{
    let t = at + layout_laws::entry_lines(e).len();
    if end < lines.len() {
        lemma_parts_stand(lines, e, at);
        lemma_request_line(lines, e, at);
        lemma_blank_is_no_row(lines[t]);
        comment_laws::lemma_comment_top_is(lines, end, base_of(e, at) - 1, t + 1);
    }
}

// ---------------------------------------------------------------------------
// Comments
// ---------------------------------------------------------------------------
proof fn lemma_lead_read(lead: Seq<Seq<char>>)
    requires
        forall|i: int|
            0 <= i < lead.len() ==> source::is_comment(#[trigger] lead[i]) && text::trimmed(lead[i])
                == lead[i],
    ensures
        comment_scan::leading_comments(lead) == layout_laws::remarks(lead, CommentAnchor::Lead),
    decreases lead.len(),
{
    let all = layout_laws::remarks(lead, CommentAnchor::Lead);
    if lead.len() > 0 {
        let front = lead.drop_last();
        assert(forall|i: int| 0 <= i < front.len() ==> front[i] == lead[i]);
        lemma_lead_read(front);
        assert(source::is_comment(lead[lead.len() - 1]));
        assert(all =~= layout_laws::remarks(front, CommentAnchor::Lead).push(all.last()));
    } else {
        assert(all =~= Seq::<CommentView>::empty());
    }
}

/// The title is read back, and so are the comments above it.
proof fn lemma_top_read(lines: Seq<Seq<char>>, e: EntryView, at: int, end: int, first: bool)
    requires
        sits(lines, e, at, end, first),
    ensures
        source::title_above(lines, base_of(e, at) - 1) == e.title,
        first ==> comment_scan::leading_comments(
            lines.take(source::comment_top(lines, base_of(e, at) - 1, 0)),
        ) == layout_laws::remarks(
            layout_laws::prose_at(e.comments, CommentAnchor::Lead),
            CommentAnchor::Lead,
        ),
{
    let lead = layout_laws::lead_lines(e);
    let prose = layout_laws::prose_at(e.comments, CommentAnchor::Lead);
    let title = comment_laws::title_lines(e.title);
    let blank = Seq::<char>::empty();
    lemma_parts_stand(lines, e, at);
    block_laws::lemma_stands_parts(
        lines,
        at,
        lead + title,
        seq![layout_laws::request_line(e)],
    );
    block_laws::lemma_stands_parts(lines, at, lead, title);
    let i = at + lead.len();
    layout_laws::lemma_prose_fits(e, CommentAnchor::Lead);
    if prose.len() > 0 {
        block_laws::lemma_stands_at(lines, at, lead, lead.len() - 1);
        assert(lines[i - 1] == blank);
        lemma_blank_is_no_row(blank);
    } else if at > 0 {
        lemma_blank_is_no_row(lines[at - 1]);
    }
    comment_laws::a_written_title_is_read_back(lines, i, e.title);
    if first {
        assert(lines.take(i) =~= lines.subrange(0, i));
        lemma_lead_read(prose);
        if prose.len() > 0 {
            assert(lead.drop_last() =~= prose);
            assert(lead.last() == blank);
            lemma_blank_is_no_row(blank);
        } else {
            assert(prose =~= lead);
        }
    }
}

/// A comment behind everything else is part of no report fields, and is not taken
/// for a row.
proof fn lemma_tail_is_apart(
    lines: Seq<Seq<char>>,
    s: EntryShapeView,
    e: EntryView,
    at: int,
    end: int,
    first: bool,
    j: int,
)
    requires
        sits(lines, e, at, end, first),
        is_found(lines, s, e, at),
        sheet_laws::shows(
            parser::window_of(lines, s, base_of(e, at) - 1, end),
            layout_laws::blocks(e, true),
            base_of(e, at),
        ),
        base_of(e, at) + sheet_laws::laid(layout_laws::blocks(e, true)).len()
            + comment_laws::report_lines(e.reports).len() <= j < at + layout_laws::entry_lines(
            e,
        ).len(),
    ensures
        ({
            let w = parser::window_of(lines, s, base_of(e, at) - 1, end);
            !w.in_reports(j) && !w.is_row(j)
        }),
{
    let b = layout_laws::blocks(e, true);
    let base = base_of(e, at);
    let w = parser::window_of(lines, s, base - 1, end);
    let t1 = base + sheet_laws::laid(b).len() + comment_laws::report_lines(e.reports).len();
    let tail = layout_laws::prose_at(e.comments, CommentAnchor::Trailing);
    lemma_parts_stand(lines, e, at);
    lemma_reports_read(lines, e, at, end, first);
    layout_laws::lemma_prose_fits(e, CommentAnchor::Trailing);
    block_laws::lemma_stands_at(lines, t1, tail, j - t1);
    assert(sheet_laws::is_prose(tail[j - t1]));
    if sheet_laws::ends_in_rows(b, 12) {
        reveal(layout_laws::rows_kept_apart);
        assert(block_laws::no_row(tail[j - t1]));
        sheet_laws::lemma_prose_is_no_row(w, j);
    } else {
        assert(b.take(12) =~= b);
        sheet_laws::lemma_no_rows_there(w, b, base, 12, j);
    }
}

/// The next title is no part of the entry, where comments stand before it.
proof fn lemma_title_is_apart(
    lines: Seq<Seq<char>>,
    s: EntryShapeView,
    e: EntryView,
    at: int,
    end: int,
    first: bool,
    j: int,
)
    requires
        sits(lines, e, at, end, first),
        is_found(lines, s, e, at),
        sheet_laws::shows(
            parser::window_of(lines, s, base_of(e, at) - 1, end),
            layout_laws::blocks(e, true),
            base_of(e, at),
        ),
        layout_laws::prose_at(e.comments, CommentAnchor::Trailing).len() > 0,
        at + layout_laws::entry_lines(e).len() < j < end,
        !parser::window_of(lines, s, base_of(e, at) - 1, end).in_body(j),
    ensures
        !parser::window_of(lines, s, base_of(e, at) - 1, end).is_structural(j),
{
    let b = layout_laws::blocks(e, true);
    let base = base_of(e, at);
    let w = parser::window_of(lines, s, base - 1, end);
    lemma_parts_stand(lines, e, at);
    assert(source::is_comment(lines[j]));
    if sheet_laws::ends_in_rows(b, 12) {
        assert(ends_with_comments_among_rows(e));
        assert(block_laws::no_row(lines[j]));
        sheet_laws::lemma_prose_is_no_row(w, j);
    } else {
        assert(b.take(12) =~= b);
        sheet_laws::lemma_no_rows_there(w, b, base, 12, j);
    }
}

/// The comments of an entry are read back, those that carry its body among them.
proof fn lemma_comments_read(
    lines: Seq<Seq<char>>,
    s: EntryShapeView,
    e: EntryView,
    at: int,
    end: int,
    first: bool,
)
    requires
        sits(lines, e, at, end, first),
        is_found(lines, s, e, at),
    ensures
        comment_scan::comments_in(parser::window_of(lines, s, base_of(e, at) - 1, end), first)
            == layout_laws::comments_written(e),
{
    let b = layout_laws::blocks(e, true);
    let base = base_of(e, at);
    let w = parser::window_of(lines, s, base - 1, end);
    let z = base + sheet_laws::laid(b).len();
    let reports = comment_laws::report_lines(e.reports);
    let tail = layout_laws::prose_at(e.comments, CommentAnchor::Trailing);
    let t1 = z + reports.len();
    let t = t1 + tail.len();
    lemma_parts_stand(lines, e, at);
    lemma_request_line(lines, e, at);
    lemma_reads_well(lines, s, e, at, end, first);
    lemma_reports_read(lines, e, at, end, first);
    lemma_top_read(lines, e, at, end, first);
    lemma_next_title(lines, e, at, end, first);
    layout_laws::lemma_prose_fits(e, CommentAnchor::Trailing);
    sheet_laws::lemma_slabs_rise(b, 0, 12);
    sheet_laws::lemma_slabs_rise(b, 7, 12);
    assert(b.take(12) =~= b);
    sheet_laws::comments_of_slabs_are_read_back(w, b, base, 12);
    assert forall|j: int| z <= j < t1 implies !(#[trigger] w.is_loose(j)) by {
        assert(w.in_reports(j));
    }
    assert forall|j: int| z <= j < end implies !(#[trigger] w.in_body(j)) by {
        lemma_in_body(lines, s, e, at, end, first, j);
    }
    assert forall|j: int| t1 <= j < t implies !(#[trigger] w.in_reports(j)) && !w.is_row(j) by {
        lemma_tail_is_apart(lines, s, e, at, end, first, j);
    }
    assert forall|j: int| t1 <= j < t implies !(#[trigger] w.is_row(j)) by {
        assert(!w.in_reports(j));
    }
    assert forall|j: int| t1 <= j < t implies !(#[trigger] w.in_next_title(j)) by {}
    assert forall|j: int| t <= j < end implies !(#[trigger] w.is_loose(j)) by {
        if j == t {
            lemma_blank_is_no_row(lines[j]);
        } else {
            assert(w.in_next_title(j));
        }
    }
    assert forall|j: int| tail.len() > 0 && t <= j < end implies !(#[trigger] w.is_structural(
        j,
    )) by {
        assert(!w.in_body(j));
        if j == t {
            lemma_blank_is_no_row(lines[j]);
        } else {
            lemma_title_is_apart(lines, s, e, at, end, first, j);
        }
    }
    sheet_laws::comments_below_are_read_back(w, z, tail, t1);
    assert(tail.skip(0) =~= tail);
    let lead = layout_laws::remarks(
        layout_laws::prose_at(e.comments, CommentAnchor::Lead),
        CommentAnchor::Lead,
    );
    if !first {
        assert(lead =~= Seq::<CommentView>::empty());
    }
    let trailing = layout_laws::remarks(tail, CommentAnchor::Trailing);
    assert(lead + (sheet_laws::gathered(b) + trailing) =~= lead + sheet_laws::gathered(b)
        + trailing);
}

proof fn lemma_gathered_add(a: Seq<Slab>, b: Seq<Slab>)
    ensures
        sheet_laws::gathered(a + b) == sheet_laws::gathered(a) + sheet_laws::gathered(b),
    decreases b.len(),
{
    if b.len() == 0 {
        assert(a + b =~= a);
        assert(sheet_laws::gathered(a) + sheet_laws::gathered(b) =~= sheet_laws::gathered(a));
    } else {
        assert((a + b).drop_last() =~= a + b.drop_last());
        lemma_gathered_add(a, b.drop_last());
        assert(sheet_laws::gathered(a) + (sheet_laws::gathered(b.drop_last())
            + b.last().comments()) =~= sheet_laws::gathered(a) + sheet_laws::gathered(
            b.drop_last(),
        ) + b.last().comments());
    }
}

/// The comments of an entry's blocks, down to its body, and below it.
proof fn lemma_gathered(e: EntryView, noted: bool)
    ensures
        sheet_laws::gathered(layout_laws::blocks(e, noted)) == sheet_laws::gathered(
            layout_laws::blocks(e, false).take(6),
        ) + layout_laws::block(e, 6, noted).comments() + sheet_laws::gathered(
            layout_laws::blocks(e, false).skip(7),
        ),
{
    let b = layout_laws::blocks(e, noted);
    let p = layout_laws::blocks(e, false);
    assert(b.take(6) =~= p.take(6));
    assert(b.skip(7) =~= p.skip(7));
    assert(b =~= b.take(7) + b.skip(7));
    lemma_gathered_add(b.take(7), b.skip(7));
    assert(b.take(7).drop_last() =~= b.take(6));
    assert(b.take(7).last() == layout_laws::block(e, 6, noted));
}

proof fn lemma_positions_counted(comments: Seq<CommentView>)
    ensures
        body_notes::positions(comments, CommentAnchor::Body).len() == layout_laws::prose_at(
            comments,
            CommentAnchor::Body,
        ).len(),
    decreases comments.len(),
{
    if comments.len() > 0 {
        lemma_positions_counted(comments.drop_last());
    }
}

/// The body is read back as it was authored, and the comments that carried it
/// are gone.
proof fn lemma_authored_read(e: EntryView, got: EntryView)
    requires
        layout_laws::fits(e),
        got.body_src == layout_laws::sent(e),
        got.comments == layout_laws::comments_written(e),
    ensures
        parser::with_authored_body(got) == (EntryView {
            body_src: e.body_src,
            comments: e.comments,
            ..got
        }),
{
    let lead = layout_laws::remarks(
        layout_laws::prose_at(e.comments, CommentAnchor::Lead),
        CommentAnchor::Lead,
    );
    let trailing = layout_laws::remarks(
        layout_laws::prose_at(e.comments, CommentAnchor::Trailing),
        CommentAnchor::Trailing,
    );
    let above = sheet_laws::gathered(layout_laws::blocks(e, false).take(6));
    let below = sheet_laws::gathered(layout_laws::blocks(e, false).skip(7));
    let plain = layout_laws::block(e, 6, false).comments();
    let noted = layout_laws::block(e, 6, true).comments();
    lemma_gathered(e, true);
    lemma_gathered(e, false);
    assert(e.comments == lead + (above + plain + below) + trailing);
    if layout_laws::is_noted(e) {
        let src = e.body_src.unwrap();
        let notes = comment_laws::notes_comments(src);
        assert(noted =~= plain + notes);
        let pre = lead + above + plain;
        let post = below + trailing;
        assert(got.comments =~= pre + notes + post);
        assert(e.comments =~= pre + post);
        lemma_positions_counted(e.comments);
        comment_laws::lemma_positions_add(pre, post, CommentAnchor::Body);
        comment_laws::an_authored_body_is_read_back(got, src, pre, post);
    } else {
        assert(noted =~= plain);
        assert(got.comments =~= e.comments);
        lemma_positions_counted(e.comments);
        comment_laws::a_body_without_notes_is_left_alone(got);
        assert(got.body_src == e.body_src);
    }
}

// ---------------------------------------------------------------------------
// Entries and files
// ---------------------------------------------------------------------------
/// The line of an entry's method is its request line.
proof fn lemma_method_line(lines: Seq<Seq<char>>, s: EntryShapeView, e: EntryView, at: int)
    requires
        layout_laws::fits(e),
        block_laws::stands(lines, at, layout_laws::entry_lines(e)),
        is_found(lines, s, e, at),
    ensures
        parser::method_line(lines, s) == base_of(e, at) - 1,
{
    lemma_request_line(lines, e, at);
    lemma_content_from(lines, parser::place(s.request.line), base_of(e, at) - 1);
}

proof fn lemma_content_from(lines: Seq<Seq<char>>, i: int, m: int)
    requires
        0 <= i <= m < lines.len(),
        source::is_content(lines[m]),
        forall|j: int| i <= j < m ==> !source::is_content(#[trigger] lines[j]),
    ensures
        source::content_from(lines, i) == m,
    decreases m - i,
{
    if i < m {
        assert(!source::is_content(lines[i]));
        lemma_content_from(lines, i + 1, m);
    }
}

/// An entry that fits is read back as it was written, given that the parser
/// found its parts where they were written.
pub proof fn a_written_entry_is_read_back(
    lines: Seq<Seq<char>>,
    s: EntryShapeView,
    e: EntryView,
    at: int,
    end: int,
    first: bool,
)
    requires
        sits(lines, e, at, end, first),
        is_found(lines, s, e, at),
    ensures
        parser::method_line(lines, s) == base_of(e, at) - 1,
        parser::entry_of(lines, s, base_of(e, at) - 1, end, first) == e,
{
    let base = base_of(e, at);
    lemma_method_line(lines, s, e, at);
    lemma_headers_read(lines, s, e, at, end, first);
    lemma_section_read(lines, s, e, at, end, first, 2, "[Cookies]"@, e.cookies);
    lemma_section_read(lines, s, e, at, end, first, 3, "[Query]"@, e.queries);
    lemma_section_read(lines, s, e, at, end, first, 5, "[Options]"@, e.options);
    lemma_form_read(lines, s, e, at, end, first);
    lemma_auth(e, base, 5);
    lemma_top_read(lines, e, at, end, first);
    lemma_reports_read(lines, e, at, end, first);
    lemma_comments_read(lines, s, e, at, end, first);
    let x = EntryView {
        title: e.title,
        method: e.method,
        url: e.url,
        headers: e.headers,
        basic_auth: e.basic_auth,
        form_fields: e.form_fields,
        is_multipart: e.is_multipart,
        queries: e.queries,
        cookies: e.cookies,
        options: e.options,
        body_src: parser::body_text_of(lines, s.body),
        reports: e.reports,
        comments: comment_scan::comments_in(parser::window_of(lines, s, base - 1, end), first),
        ..entry::blank_entry()
    };
    let got = parser::with_response(lines, x, s.response);
    lemma_body_found(lines, s.body, layout_laws::sent(e), block_at(e, base, 6));
    assert(got.body_src == layout_laws::sent(e));
    lemma_response_read(lines, s, e, at, end, first, x);
    lemma_authored_read(e, got);
}

/// What is expected of the response is read back.
proof fn lemma_response_read(
    lines: Seq<Seq<char>>,
    s: EntryShapeView,
    e: EntryView,
    at: int,
    end: int,
    first: bool,
    x: EntryView,
)
    requires
        sits(lines, e, at, end, first),
        is_found(lines, s, e, at),
        x.expected_status is None && x.response_version is None && x.response_headers.len() == 0,
        x.response_body is None && x.captures.len() == 0 && x.asserts.len() == 0,
    ensures
        parser::with_response(lines, x, s.response) == (EntryView {
            expected_status: e.expected_status,
            response_version: e.response_version,
            response_headers: e.response_headers,
            response_body: e.response_body,
            captures: e.captures,
            asserts: e.asserts,
            ..x
        }),
{
    let base = base_of(e, at);
    if writer::has_response_area(e) {
        lemma_expected_read(lines, s, e, at, end, first);
        lemma_last_check(e, base);
        lemma_checks_read(lines, e, at, end, first);
        if e.asserts.len() == 0 {
            assert(e.asserts =~= Seq::<Seq<char>>::empty());
        }
        if e.captures.len() == 0 {
            assert(e.captures =~= Seq::<(Seq<char>, Seq<char>)>::empty());
        }
        lemma_body_found(
            lines,
            s.response.unwrap().body,
            e.response_body,
            block_at(e, base, 11),
        );
    } else {
        assert(x.response_headers =~= e.response_headers);
        assert(x.captures =~= e.captures);
        assert(x.asserts =~= e.asserts);
    }
}

/// The lines of a file: those of its entries, with a blank line between them.
pub open spec fn file_lines(entries: Seq<EntryView>) -> Seq<Seq<char>>
    decreases entries.len(),
{
    if entries.len() == 0 {
        Seq::empty()
    } else if entries.len() == 1 {
        layout_laws::entry_lines(entries[0])
    } else {
        file_lines(entries.drop_last()) + seq![Seq::<char>::empty()] + layout_laws::entry_lines(
            entries.last(),
        )
    }
}

/// The line that the `i`-th entry of a file begins on.
pub open spec fn entry_at(entries: Seq<EntryView>, i: int) -> int {
    if i == 0 {
        0
    } else {
        file_lines(entries.take(i)).len() as int + 1
    }
}

/// Whether an entry can stand below another: it has no comments above its title,
/// which would be taken for the other's, and a title that is not taken for a row
/// of the other's where comments stand before it.
pub open spec fn stands_below(entries: Seq<EntryView>, i: int) -> bool {
    let e = entries[i];
    &&& layout_laws::prose_at(e.comments, CommentAnchor::Lead).len() == 0
    &&& ends_with_comments_among_rows(entries[i - 1]) ==> sheet_laws::no_rows(
        comment_laws::title_lines(e.title),
    )
}

/// Whether a file comes back as it was written: each of its entries does, and
/// each but the first can stand below the one above it.
pub open spec fn file_fits(entries: Seq<EntryView>) -> bool {
    &&& forall|i: int| 0 <= i < entries.len() ==> layout_laws::fits(#[trigger] entries[i])
    &&& forall|i: int| 0 < i < entries.len() ==> #[trigger] stands_below(entries, i)
    &&& file_lines(entries).len() <= usize::MAX
}

/// Whether the parser found every part of a file where it was written.
pub open spec fn is_file_found(entries: Seq<EntryView>, shapes: Seq<EntryShapeView>) -> bool {
    &&& shapes.len() == entries.len()
    &&& forall|i: int|
        0 <= i < entries.len() ==> is_found(
            file_lines(entries),
            shapes[i],
            #[trigger] entries[i],
            entry_at(entries, i),
        )
}

/// A file is written as its lines.
proof fn lemma_file_written(entries: Seq<EntryView>)
    requires
        forall|i: int| 0 <= i < entries.len() ==> layout_laws::fits(#[trigger] entries[i]),
    ensures
        text::lines_of(writer::collection_text(entries)) == file_lines(entries),
        layout_laws::is_closed(writer::collection_text(entries)),
    decreases entries.len(),
{
    let f = |e: EntryView| writer::hurl_text(e);
    let texts = entries.map_values(f);
    if entries.len() == 0 {
    } else {
        let last = entries.last();
        assert(layout_laws::fits(entries[entries.len() - 1]));
        layout_laws::a_written_entry_has_these_lines(last);
        assert(texts.last() == writer::hurl_text(last));
        if entries.len() > 1 {
            let front = entries.drop_last();
            assert(forall|i: int| 0 <= i < front.len() ==> front[i] == entries[i]);
            lemma_file_written(front);
            assert(texts.drop_last() =~= front.map_values(f));
            reveal_strlit("\n");
            let blank = Seq::<char>::empty();
            let t = writer::collection_text(front);
            assert(writer::as_line(blank) =~= "\n"@);
            layout_laws::lemma_one_line(blank);
            layout_laws::lemma_lines_add(t, "\n"@);
            layout_laws::lemma_lines_add(t + "\n"@, writer::hurl_text(last));
        }
    }
}

proof fn lemma_stands_behind(before: Seq<Seq<char>>, own: Seq<Seq<char>>)
    ensures
        ({
            let all = before + seq![Seq::<char>::empty()] + own;
            &&& block_laws::stands(all, before.len() as int + 1, own)
            &&& all[before.len() as int] == Seq::<char>::empty()
        }),
{
    let all = before + seq![Seq::<char>::empty()] + own;
    let at = before.len() as int + 1;
    assert(all.subrange(at, at + own.len()) =~= own);
}

proof fn lemma_still_stands(
    before: Seq<Seq<char>>,
    more: Seq<Seq<char>>,
    at: int,
    own: Seq<Seq<char>>,
)
    requires
        block_laws::stands(before, at, own),
    ensures
        block_laws::stands(before + more, at, own),
        0 < at ==> (before + more)[at - 1] == before[at - 1],
{
    let all = before + more;
    assert(all.subrange(at, at + own.len()) =~= before.subrange(at, at + own.len()));
}

/// Each entry of a file stands where it begins, with a blank line above it.
proof fn lemma_entry_stands(entries: Seq<EntryView>, i: int)
    requires
        0 <= i < entries.len(),
    ensures
        block_laws::stands(
            file_lines(entries),
            entry_at(entries, i),
            layout_laws::entry_lines(entries[i]),
        ),
        i > 0 ==> file_lines(entries)[entry_at(entries, i) - 1] == Seq::<char>::empty(),
        entry_at(entries, i) + layout_laws::entry_lines(entries[i]).len() == file_lines(
            entries.take(i + 1),
        ).len(),
    decreases entries.len(),
{
    let n = entries.len() as int;
    let own = layout_laws::entry_lines(entries[i]);
    let blank = Seq::<char>::empty();
    if n == 1 {
        assert(own.subrange(0, own.len() as int) =~= own);
        assert(entries.take(1) =~= entries);
    } else {
        let front = entries.drop_last();
        let before = file_lines(front);
        if i == n - 1 {
            assert(entries.take(i) =~= front);
            assert(entries.take(i + 1) =~= entries);
            lemma_stands_behind(before, own);
        } else {
            lemma_entry_stands(front, i);
            assert(front.take(i) =~= entries.take(i));
            assert(front.take(i + 1) =~= entries.take(i + 1));
            let more = seq![blank] + layout_laws::entry_lines(entries.last());
            assert(before + seq![blank] + layout_laws::entry_lines(entries.last()) =~= before
                + more);
            lemma_still_stands(before, more, entry_at(entries, i), own);
        }
    }
}

/// Each entry of a file sits in it.
proof fn lemma_entry_sits(entries: Seq<EntryView>, i: int)
    requires
        file_fits(entries),
        0 <= i < entries.len(),
    ensures
        sits(
            file_lines(entries),
            entries[i],
            entry_at(entries, i),
            if i + 1 < entries.len() {
                base_of(entries[i + 1], entry_at(entries, i + 1)) - 1
            } else {
                file_lines(entries).len() as int
            },
            i == 0,
        ),
{
    let lines = file_lines(entries);
    let e = entries[i];
    let at = entry_at(entries, i);
    let t = at + layout_laws::entry_lines(e).len();
    lemma_entry_stands(entries, i);
    assert(layout_laws::fits(entries[i]));
    if i > 0 {
        assert(stands_below(entries, i));
    }
    if i + 1 < entries.len() {
        let next = entries[i + 1];
        assert(stands_below(entries, i + 1));
        lemma_entry_stands(entries, i + 1);
        assert(layout_laws::fits(entries[i + 1]));
        let from = entry_at(entries, i + 1);
        let end = base_of(next, from) - 1;
        assert(from == t + 1);
        lemma_request_line(lines, next, from);
        lemma_parts_stand(lines, next, from);
        let title = comment_laws::title_lines(next.title);
        let h = layout_laws::head_lines(next);
        assert(layout_laws::lead_lines(next).len() == 0);
        if next.title.len() > 0 {
            comment_laws::lemma_title_words(next.title);
        }
        assert forall|j: int| t < j < end implies #[trigger] lines[j] == title[j - from]
            && source::is_comment(lines[j]) by {
            block_laws::lemma_stands_at(lines, from, h, j - from);
            assert(h[j - from] == title[j - from]);
        }
        assert(ends_with_comments_among_rows(e) ==> sheet_laws::no_rows(title));
    } else {
        assert(entries.take(i + 1) =~= entries);
    }
}

/// A file that fits is read back as it was written: given that the parser finds
/// every part of it where it was written, the requests read from the text of a
/// collection are the entries of the collection.
pub proof fn a_written_file_is_read_back(
    entries: Seq<EntryView>,
    shapes: Seq<EntryShapeView>,
)
    requires
        file_fits(entries),
        hurl_ast::parsed(writer::collection_text(entries)) == Ok::<
            Seq<EntryShapeView>,
            FaultView,
        >(shapes),
        is_file_found(entries, shapes),
    ensures
        parser::requests_in(writer::collection_text(entries)) == entries,
{
    let lines = file_lines(entries);
    let content = writer::collection_text(entries);
    lemma_file_written(entries);
    let got = parser::requests(shapes, content);
    assert forall|i: int| 0 <= i < entries.len() implies got[i] == entries[i] by {
        lemma_entry_sits(entries, i);
        assert(is_found(lines, shapes[i], entries[i], entry_at(entries, i)));
        let end = if i + 1 < entries.len() {
            base_of(entries[i + 1], entry_at(entries, i + 1)) - 1
        } else {
            lines.len() as int
        };
        a_written_entry_is_read_back(
            lines,
            shapes[i],
            entries[i],
            entry_at(entries, i),
            end,
            i == 0,
        );
        if i + 1 < entries.len() {
            lemma_entry_sits(entries, i + 1);
            let at = entry_at(entries, i + 1);
            assert(is_found(lines, shapes[i + 1], entries[i + 1], at));
            lemma_method_line(lines, shapes[i + 1], entries[i + 1], at);
        }
    }
    assert(got =~= entries);
}

} // verus!
