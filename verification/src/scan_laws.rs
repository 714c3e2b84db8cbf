//! What is read off the lines of a Hurl file.
use vstd::prelude::*;

use crate::comment_scan;
use crate::comment_scan::Window;
use crate::entry::{CommentAnchor, CommentView, FieldView, RowView};
use crate::order;
use crate::parser;
use crate::rows;
use crate::shape::{
    CheckView, EntryShapeView, PartView, ResponseView, SectionBodyView, SectionView,
};
use crate::source;
use crate::text;
use crate::text_laws;

verus! {

// ---------------------------------------------------------------------------
// One line
// ---------------------------------------------------------------------------
/// Whether a line with the words `t` carries a row by its first colon, at `n`: what is
/// before it can be a name. Only in a template, which opens with a brace, can a colon
/// stand in a name.
pub open spec fn first_colon(t: Seq<char>, n: int) -> bool {
    0 <= n < t.len() && t[n] == ':' && forall|m: int|
        0 <= m < n ==> #[trigger] t[m] != ':' && t[m] != '{'
}

proof fn lemma_name_end(t: Seq<char>, i: int, n: int)
    requires
        first_colon(t, n),
        0 <= i <= n,
    ensures
        source::name_end(t, i) == n,
    decreases n - i,
{
    if i < n {
        assert(t[i] != ':' && t[i] != '{');
        lemma_name_end(t, i + 1, n);
    }
}

/// A line carries a row where what is before its first colon can be a name: the name,
/// and as its value what is behind the colon, both without the white space around them.
/// A mark before it all disables the row and changes nothing else. What has no colon,
/// or before it what can be no name, is no row.
pub proof fn a_row_is_split_at_its_first_colon(line: Seq<char>, n: int)
    ensures
        ({
            let t = text::trimmed(line);
            let marked = t.len() > 0 && t[0] == '#';
            let u = if marked {
                text::trimmed_start(t.skip(1))
            } else {
                t
            };
            &&& first_colon(u, n) ==> {
                &&& rows::key_trouble(u.take(n)) is None ==> source::row_on(line) == Some(
                    RowView {
                        key: text::trimmed(u.take(n)),
                        value: text::trimmed(u.skip(n + 1)),
                        enabled: !marked,
                        desc: Seq::empty(),
                    },
                )
                &&& rows::key_trouble(u.take(n)) is Some ==> source::row_on(line) is None
            }
            &&& !u.contains(':') ==> source::row_on(line) is None
        }),
{
    let t = text::trimmed(line);
    reveal_strlit("#");
    let marked = t.len() > 0 && t[0] == '#';
    assert(text::begins(t, "#"@) == marked) by {
        if t.len() > 0 {
            assert(t.take(1)[0] == t[0]);
            if t[0] == '#' {
                assert(t.take(1) =~= "#"@);
            }
        }
    }
    let u = if marked {
        text::trimmed_start(t.skip(1))
    } else {
        t
    };
    assert(source::uncommented(line) == (!marked, u));
    if first_colon(u, n) {
        lemma_name_end(u, 0, n);
        text_laws::trimming_twice_is_trimming_once(u.take(n));
    }
    if !u.contains(':') {
        source::lemma_name_end(u, 0);
    }
}

// ---------------------------------------------------------------------------
// Rows
// ---------------------------------------------------------------------------
/// The notes on the lines right above line `k`, no further up than `from`.
pub open spec fn notes_above(lines: Seq<Seq<char>>, from: int, k: int) -> Seq<Seq<char>>
    decreases k - from,
{
    if from < k <= lines.len() && source::note_on(lines[k - 1]) is Some {
        notes_above(lines, from, k - 1).push(source::note_on(lines[k - 1]).unwrap())
    } else {
        Seq::empty()
    }
}

/// Whether line `k` carries a row.
pub open spec fn is_row_line(lines: Seq<Seq<char>>, k: int) -> bool {
    source::note_on(lines[k]) is None && source::row_on(lines[k]) is Some
}

/// The lines from `i` up to `limit` that carry rows.
pub open spec fn row_lines(lines: Seq<Seq<char>>, i: int, limit: int) -> Seq<int>
    decreases limit - i,
{
    if i < 0 || i >= limit || i >= lines.len() {
        Seq::empty()
    } else if is_row_line(lines, i) {
        seq![i] + row_lines(lines, i + 1, limit)
    } else {
        row_lines(lines, i + 1, limit)
    }
}

/// The row on line `k`, with the notes above it.
pub open spec fn noted_row(lines: Seq<Seq<char>>, from: int, k: int) -> RowView {
    RowView {
        desc: text::joined(notes_above(lines, from, k), "\n"@),
        ..source::row_on(lines[k]).unwrap()
    }
}

/// Whether `got` are the rows on the lines `at`.
spec fn are_rows_on(lines: Seq<Seq<char>>, from: int, at: Seq<int>, got: Seq<RowView>) -> bool {
    &&& got.len() == at.len()
    &&& forall|k: int| 0 <= k < got.len() ==> #[trigger] got[k] == noted_row(lines, from, at[k])
}

proof fn lemma_rows_bounded(lines: Seq<Seq<char>>, from: int, i: int, limit: int)
    requires
        0 <= from <= i,
    ensures
        are_rows_on(
            lines,
            from,
            row_lines(lines, i, limit),
            source::rows_from(lines, i, limit, true, notes_above(lines, from, i)),
        ),
    decreases lines.len() - i,
{
    let here = notes_above(lines, from, i);
    let got = source::rows_from(lines, i, limit, true, here);
    let at = row_lines(lines, i, limit);
    if i < limit && i < lines.len() {
        lemma_rows_bounded(lines, from, i + 1, limit);
        let next = notes_above(lines, from, i + 1);
        let rest = source::rows_from(lines, i + 1, limit, true, next);
        let below = row_lines(lines, i + 1, limit);
        if source::note_on(lines[i]) is Some {
            assert(next == here.push(source::note_on(lines[i]).unwrap()));
        } else {
            assert(next == Seq::<Seq<char>>::empty());
            if source::row_on(lines[i]) is Some {
                assert(got == seq![noted_row(lines, from, i)] + rest);
                assert(at == seq![i] + below);
                assert forall|k: int| 0 <= k < got.len() implies #[trigger] got[k] == noted_row(
                    lines,
                    from,
                    at[k],
                ) by {
                    if k > 0 {
                        assert(got[k] == rest[k - 1]);
                        assert(at[k] == below[k - 1]);
                    }
                }
            }
        }
    } else {
        assert(got.len() == 0);
        assert(at.len() == 0);
    }
}

/// Of a block that something below bounds, every line that carries a row is one of its
/// rows, in order, with the notes right above it; no other line is.
pub proof fn every_row_of_a_block_is_read(lines: Seq<Seq<char>>, start: int, end: usize)
    requires
        0 <= start,
        end > 0,
    ensures
        ({
            let got = source::rows_in(lines, start, Some(end));
            let at = row_lines(lines, start, end - 1);
            &&& got.len() == at.len()
            &&& forall|k: int|
                0 <= k < got.len() ==> #[trigger] got[k] == noted_row(lines, start, at[k])
        }),
{
    lemma_rows_bounded(lines, start, start, end - 1);
    assert(notes_above(lines, start, start) =~= Seq::<Seq<char>>::empty());
}

/// Of a block that nothing bounds, the rows go on up to the first line that is neither
/// row nor note.
pub proof fn an_open_block_ends_with_its_rows(lines: Seq<Seq<char>>, start: int, e: int)
    requires
        0 <= start <= e <= lines.len(),
        lines.len() < usize::MAX,
        forall|i: int|
            start <= i < e ==> source::note_on(#[trigger] lines[i]) is Some || source::row_on(
                lines[i],
            ) is Some,
        e < lines.len() ==> source::note_on(lines[e]) is None && source::row_on(lines[e]) is None,
    ensures
        source::rows_in(lines, start, None) == source::rows_in(
            lines,
            start,
            Some((e + 1) as usize),
        ),
{
    lemma_open(lines, start, e, Seq::empty());
}

proof fn lemma_open(lines: Seq<Seq<char>>, i: int, e: int, note: Seq<Seq<char>>)
    requires
        0 <= i <= e <= lines.len(),
        forall|i0: int|
            i <= i0 < e ==> source::note_on(#[trigger] lines[i0]) is Some || source::row_on(
                lines[i0],
            ) is Some,
        e < lines.len() ==> source::note_on(lines[e]) is None && source::row_on(lines[e]) is None,
    ensures
        source::rows_from(lines, i, lines.len() as int, false, note) == source::rows_from(
            lines,
            i,
            e,
            true,
            note,
        ),
    decreases e - i,
{
    if i < e {
        assert(source::note_on(lines[i]) is Some || source::row_on(lines[i]) is Some);
        if source::note_on(lines[i]) is Some {
            lemma_open(lines, i + 1, e, note.push(source::note_on(lines[i]).unwrap()));
        } else {
            lemma_open(lines, i + 1, e, Seq::empty());
        }
    }
}

// ---------------------------------------------------------------------------
// Sections
// ---------------------------------------------------------------------------
/// Whether a part of an entry begins on the line numbered `x`: a section, the body or
/// the response.
pub open spec fn begins_part(e: EntryShapeView, x: usize) -> bool {
    ||| exists|j: int| 0 <= j < e.sections.len() && (#[trigger] e.sections[j]).line == x
    ||| e.body is Some && e.body.unwrap().start == x
    ||| e.response is Some && e.response.unwrap().head.line == x
}

/// Whether `b` is the line of the next part below the line `line`, if there is one.
pub open spec fn is_next_part(e: EntryShapeView, line: int, b: Option<usize>) -> bool {
    match b {
        None => forall|x: usize| #[trigger] begins_part(e, x) ==> x <= line,
        Some(y) => y > line && begins_part(e, y) && forall|x: usize| #[trigger]
            begins_part(e, x) && x > line ==> y <= x,
    }
}

proof fn lemma_least(s: Seq<usize>, after: int)
    ensures
        match parser::least_below(s, after) {
            None => forall|i: int| 0 <= i < s.len() ==> #[trigger] s[i] <= after,
            Some(y) => y > after && s.contains(y) && forall|i: int|
                0 <= i < s.len() && #[trigger] s[i] > after ==> y <= s[i],
        },
    decreases s.len(),
{
    if s.len() > 0 {
        let front = s.drop_last();
        lemma_least(front, after);
        assert forall|i: int| 0 <= i < front.len() implies front[i] == #[trigger] s[i] by {}
        assert(s[s.len() - 1] == s.last());
        if let Some(y) = parser::least_below(front, after) {
            let i = choose|i: int| 0 <= i < front.len() && front[i] == y;
            assert(s[i] == y);
        }
    }
}

pub proof fn lemma_next_part(e: EntryShapeView, line: int)
    ensures
        is_next_part(e, line, parser::least_below(parser::anchors(e), line)),
{
    let f = |s: SectionView| s.line;
    let heads = e.sections.map_values(f);
    let body = match e.body {
        Some(b) => seq![b.start],
        None => seq![],
    };
    let tail = match e.response {
        Some(r) => seq![r.head.line],
        None => seq![],
    };
    let all = parser::anchors(e);
    assert(all =~= heads + body + tail);
    lemma_least(all, line);
    assert forall|x: usize| #[trigger] begins_part(e, x) implies all.contains(x) by {
        if exists|j: int| 0 <= j < e.sections.len() && (#[trigger] e.sections[j]).line == x {
            let j = choose|j: int| 0 <= j < e.sections.len() && (#[trigger] e.sections[j]).line == x;
            assert(all[j] == x);
        } else if e.body is Some && e.body.unwrap().start == x {
            assert(all[heads.len() as int] == x);
        } else {
            assert(all[(heads.len() + body.len()) as int] == x);
        }
    }
    assert forall|x: usize| all.contains(x) implies #[trigger] begins_part(e, x) by {
        let i = choose|i: int| 0 <= i < all.len() && all[i] == x;
        if i < heads.len() {
            assert(e.sections[i].line == x);
        }
    }
}

/// Whether `j` is the last section of an entry that is a given block.
pub open spec fn is_last_section(e: EntryShapeView, anchor: CommentAnchor, j: int) -> bool {
    &&& 0 <= j < e.sections.len() && parser::section_anchor(e.sections[j].body) == Some(anchor)
    &&& forall|k: int|
        j < k < e.sections.len() ==> parser::section_anchor((#[trigger] e.sections[k]).body) != Some(
            anchor,
        )
}

proof fn lemma_last_section(sections: Seq<SectionView>, anchor: CommentAnchor, j: int)
    requires
        0 <= j < sections.len() && parser::section_anchor(sections[j].body) == Some(anchor),
        forall|k: int|
            j < k < sections.len() ==> parser::section_anchor((#[trigger] sections[k]).body)
                != Some(anchor),
    ensures
        parser::last_section(sections, anchor) == Some(sections[j]),
    decreases sections.len(),
{
    if j < sections.len() - 1 {
        let front = sections.drop_last();
        assert(parser::section_anchor(sections[sections.len() - 1].body) != Some(anchor));
        assert forall|k: int| j < k < front.len() implies parser::section_anchor(
            (#[trigger] front[k]).body,
        ) != Some(anchor) by {
            assert(front[k] == sections[k]);
        }
        lemma_last_section(front, anchor, j);
    }
}

/// The rows of a section are those on the lines below its header, up to the next part
/// of the entry, whatever the order of the parts. Of several sections of one kind the
/// last counts.
pub proof fn a_section_holds_the_rows_below_it(
    lines: Seq<Seq<char>>,
    e: EntryShapeView,
    anchor: CommentAnchor,
    j: int,
)
    requires
        is_last_section(e, anchor, j),
    ensures
        exists|b: Option<usize>|
            #[trigger] is_next_part(e, e.sections[j].line as int, b) && parser::rows_of_section(
                lines,
                e,
                anchor,
            ) == source::rows_in(lines, e.sections[j].line as int, b),
{
    lemma_last_section(e.sections, anchor, j);
    lemma_next_part(e, e.sections[j].line as int);
}

/// Without a section of a kind there are no rows of it.
pub proof fn without_a_section_there_are_no_rows(
    lines: Seq<Seq<char>>,
    e: EntryShapeView,
    anchor: CommentAnchor,
)
    requires
        forall|k: int|
            0 <= k < e.sections.len() ==> parser::section_anchor((#[trigger] e.sections[k]).body)
                != Some(anchor),
    ensures
        parser::rows_of_section(lines, e, anchor).len() == 0,
        anchor is Form ==> parser::form_of(lines, e).len() == 0,
{
    lemma_no_section(e.sections, anchor);
}

proof fn lemma_no_section(sections: Seq<SectionView>, anchor: CommentAnchor)
    requires
        forall|k: int|
            0 <= k < sections.len() ==> parser::section_anchor((#[trigger] sections[k]).body)
                != Some(anchor),
    ensures
        parser::last_section(sections, anchor) is None,
    decreases sections.len(),
{
    if sections.len() > 0 {
        let front = sections.drop_last();
        assert(parser::section_anchor(sections[sections.len() - 1].body) != Some(anchor));
        assert forall|k: int| 0 <= k < front.len() implies parser::section_anchor(
            (#[trigger] front[k]).body,
        ) != Some(anchor) by {
            assert(front[k] == sections[k]);
        }
        lemma_no_section(front, anchor);
    }
}

/// Each section of a request is the block of its name.
pub proof fn a_section_is_the_block_of_its_name(
    auth: Option<(Seq<char>, Seq<char>)>,
    fields: Seq<(usize, Seq<char>, Seq<char>)>,
    parts: Seq<PartView>,
)
    ensures
        parser::section_anchor(SectionBodyView::BasicAuth(auth)) == Some(CommentAnchor::BasicAuth),
        parser::section_anchor(SectionBodyView::Cookies) == Some(CommentAnchor::Cookies),
        parser::section_anchor(SectionBodyView::Query) == Some(CommentAnchor::Query),
        parser::section_anchor(SectionBodyView::Form(fields)) == Some(CommentAnchor::Form),
        parser::section_anchor(SectionBodyView::Multipart(parts)) == Some(CommentAnchor::Form),
        parser::section_anchor(SectionBodyView::Options) == Some(CommentAnchor::Options),
        parser::section_anchor(SectionBodyView::Other) is None,
{
}

// ---------------------------------------------------------------------------
// Forms
// ---------------------------------------------------------------------------
/// Whether an item's field is enabled, or is not.
pub open spec fn in_use(x: (int, FieldView), enabled: bool) -> bool {
    x.1.enabled == enabled
}

proof fn lemma_filter_one(x: (int, FieldView), p: spec_fn((int, FieldView)) -> bool)
    ensures
        seq![x].filter(p) == if p(x) {
            seq![x]
        } else {
            Seq::empty()
        },
{
    let one = seq![x];
    reveal_with_fuel(Seq::filter, 2);
    assert(one.drop_last() =~= Seq::<(int, FieldView)>::empty());
    assert(one.last() == x);
    assert(Seq::<(int, FieldView)>::empty().push(x) =~= one);
}

proof fn lemma_filter_insert(
    s: Seq<(int, FieldView)>,
    n: int,
    x: (int, FieldView),
    p: spec_fn((int, FieldView)) -> bool,
)
    requires
        0 <= n <= s.len(),
    ensures
        s.insert(n, x).filter(p) == s.take(n).filter(p) + (if p(x) {
            seq![x]
        } else {
            seq![]
        }) + s.skip(n).filter(p),
        s.filter(p) == s.take(n).filter(p) + s.skip(n).filter(p),
{
    let one = seq![x];
    assert(s.insert(n, x) =~= s.take(n) + one + s.skip(n));
    assert(s =~= s.take(n) + s.skip(n));
    lemma_filter_one(x, p);
    Seq::filter_distributes_over_add(s.take(n), s.skip(n), p);
    Seq::filter_distributes_over_add(s.take(n), one, p);
    Seq::filter_distributes_over_add(s.take(n) + one, s.skip(n), p);
}

proof fn lemma_filter_members(
    s: Seq<(int, FieldView)>,
    p: spec_fn((int, FieldView)) -> bool,
    q: spec_fn((int, FieldView)) -> bool,
)
    requires
        forall|i: int| 0 <= i < s.len() ==> q(#[trigger] s[i]),
    ensures
        forall|i: int| 0 <= i < s.filter(p).len() ==> q(#[trigger] s.filter(p)[i]),
    decreases s.len(),
{
    reveal(Seq::filter);
    if s.len() > 0 {
        let front = s.drop_last();
        assert forall|i: int| 0 <= i < front.len() implies q(#[trigger] front[i]) by {
            assert(front[i] == s[i]);
        }
        lemma_filter_members(front, p, q);
        assert(q(s[s.len() - 1]));
        assert forall|i: int| 0 <= i < s.filter(p).len() implies q(#[trigger] s.filter(p)[i]) by {
            if i < front.filter(p).len() {
                assert(s.filter(p)[i] == front.filter(p)[i]);
            } else {
                assert(s.filter(p)[i] == s.last());
            }
        }
    }
}

proof fn lemma_first_not_above_is(s: Seq<(int, FieldView)>, line: int, i: int, n: int)
    requires
        0 <= i <= n <= s.len(),
        forall|j: int| i <= j < n ==> (#[trigger] s[j]).0 < line,
        n < s.len() ==> line <= s[n].0,
    ensures
        order::first_not_above(s, line, i) == n,
    decreases n - i,
{
    if i < n {
        assert(s[i].0 < line);
        lemma_first_not_above_is(s, line, i + 1, n);
    }
}

/// An item that is put in its place is there too after some others are left out.
proof fn lemma_filter_placed(
    s: Seq<(int, FieldView)>,
    x: (int, FieldView),
    p: spec_fn((int, FieldView)) -> bool,
)
    requires
        order::in_order(s),
    ensures
        ({
            let put = s.insert(order::first_not_above(s, x.0, 0), x);
            let kept = s.filter(p);
            put.filter(p) == if p(x) {
                kept.insert(order::first_not_above(kept, x.0, 0), x)
            } else {
                kept
            }
        }),
{
    let n = order::first_not_above(s, x.0, 0);
    order::lemma_first_not_above(s, x.0, 0);
    lemma_filter_insert(s, n, x, p);
    let kept = s.filter(p);
    let a = s.take(n).filter(p);
    let b = s.skip(n).filter(p);
    if p(x) {
        let above = |y: (int, FieldView)| y.0 < x.0;
        let below = |y: (int, FieldView)| x.0 <= y.0;
        assert forall|i: int| 0 <= i < s.take(n).len() implies above(#[trigger] s.take(n)[i]) by {
            assert(s.take(n)[i] == s[i]);
        }
        assert forall|i: int| 0 <= i < s.skip(n).len() implies below(#[trigger] s.skip(n)[i]) by {
            assert(s.skip(n)[i] == s[n + i]);
            if i > 0 {
                assert(s[n].0 <= s[n + i].0);
            }
        }
        lemma_filter_members(s.take(n), p, above);
        lemma_filter_members(s.skip(n), p, below);
        let m = a.len() as int;
        assert forall|j: int| 0 <= j < m implies (#[trigger] kept[j]).0 < x.0 by {
            assert(kept[j] == a[j]);
            assert(above(a[j]));
        }
        if m < kept.len() {
            assert(kept[m] == b[0]);
            assert(below(b[0]));
        }
        lemma_first_not_above_is(kept, x.0, 0, m);
        assert(kept.insert(m, x) =~= a + seq![x] + b);
    } else {
        assert(a + Seq::<(int, FieldView)>::empty() + b =~= a + b);
    }
}

/// Putting items in order and leaving some out can be done in either order.
proof fn lemma_filter_by_line(
    s: Seq<(int, FieldView)>,
    p: spec_fn((int, FieldView)) -> bool,
)
    ensures
        order::by_line(s).filter(p) == order::by_line(s.filter(p)),
    decreases s.len(),
{
    if s.len() == 0 {
        assert(s.filter(p) == s) by {
            reveal(Seq::filter);
        }
        assert(order::by_line(s) == s);
    } else {
        let x = s[0];
        let tail = s.skip(1);
        lemma_filter_by_line(tail, p);
        assert(order::in_order(order::by_line(tail))) by {
            order::items_are_ordered_by_line(tail);
        }
        lemma_filter_placed(order::by_line(tail), x, p);
        assert(s.filter(p) == seq![x].filter(p) + tail.filter(p)) by {
            assert(s =~= seq![x] + tail);
            Seq::filter_distributes_over_add(seq![x], tail, p);
        }
        lemma_filter_one(x, p);
        if p(x) {
            assert(s.filter(p).skip(1) =~= tail.filter(p));
            assert(s.filter(p)[0] == x);
        } else {
            assert(s.filter(p) =~= tail.filter(p));
        }
    }
}

proof fn lemma_filter_all(s: Seq<(int, FieldView)>, p: spec_fn((int, FieldView)) -> bool)
    requires
        forall|i: int| 0 <= i < s.len() ==> p(#[trigger] s[i]),
    ensures
        s.filter(p) == s,
    decreases s.len(),
{
    reveal(Seq::filter);
    if s.len() > 0 {
        let front = s.drop_last();
        assert forall|i: int| 0 <= i < front.len() implies p(#[trigger] front[i]) by {
            assert(front[i] == s[i]);
        }
        lemma_filter_all(front, p);
        assert(p(s[s.len() - 1]));
        assert(front.push(s.last()) =~= s);
    }
}

proof fn lemma_filter_none(s: Seq<(int, FieldView)>, p: spec_fn((int, FieldView)) -> bool)
    requires
        forall|i: int| 0 <= i < s.len() ==> !p(#[trigger] s[i]),
    ensures
        s.filter(p) == Seq::<(int, FieldView)>::empty(),
    decreases s.len(),
{
    reveal(Seq::filter);
    if s.len() > 0 {
        let front = s.drop_last();
        assert forall|i: int| 0 <= i < front.len() implies !p(#[trigger] front[i]) by {
            assert(front[i] == s[i]);
        }
        lemma_filter_none(front, p);
        assert(!p(s[s.len() - 1]));
    }
}

proof fn lemma_filter_map(
    s: Seq<(int, FieldView)>,
    f: spec_fn((int, FieldView)) -> FieldView,
    enabled: bool,
)
    requires
        forall|x: (int, FieldView)| (#[trigger] f(x)).enabled == x.1.enabled,
    ensures
        s.map_values(f).filter(|y: FieldView| y.enabled == enabled) == s.filter(
            |x: (int, FieldView)| in_use(x, enabled),
        ).map_values(f),
    decreases s.len(),
{
    reveal(Seq::filter);
    let p = |x: (int, FieldView)| in_use(x, enabled);
    let q = |y: FieldView| y.enabled == enabled;
    if s.len() == 0 {
        assert(s.map_values(f) =~= Seq::<FieldView>::empty());
        assert(s.filter(p).map_values(f) =~= Seq::<FieldView>::empty());
    } else {
        let front = s.drop_last();
        lemma_filter_map(front, f, enabled);
        assert(s.map_values(f).drop_last() =~= front.map_values(f));
        assert(s.map_values(f).last() == f(s.last()));
        if p(s.last()) {
            assert(front.filter(p).push(s.last()).map_values(f) =~= front.filter(p).map_values(
                f,
            ).push(f(s.last())));
        }
    }
}

proof fn lemma_disabled(lines: Seq<Seq<char>>, i: int, limit: int, bounded: bool)
    ensures
        forall|k: int|
            0 <= k < source::disabled_fields_from(lines, i, limit, bounded).len() ==> !(
            #[trigger] source::disabled_fields_from(lines, i, limit, bounded)[k]).1.enabled,
    decreases lines.len() - i,
{
    let got = source::disabled_fields_from(lines, i, limit, bounded);
    if !(i < 0 || i >= limit || i >= lines.len()) {
        lemma_disabled(lines, i + 1, limit, bounded);
        let rest = source::disabled_fields_from(lines, i + 1, limit, bounded);
        assert forall|k: int| 0 <= k < got.len() implies !(#[trigger] got[k]).1.enabled by {
            if got != rest && k > 0 {
                assert(got[k] == rest[k - 1]);
            }
        }
    }
}

/// The fields of a form that are enabled are those that the parser found, all of them
/// and in the order of their lines; those that are not are the ones that are commented
/// out. Both come with the notes above them, and nothing else of them changes.
pub proof fn a_form_holds_its_fields(lines: Seq<Seq<char>>, e: EntryShapeView, j: int)
    requires
        is_last_section(e, CommentAnchor::Form, j),
    ensures
        exists|b: Option<usize>|
            {
                let from = e.sections[j].line as int;
                let limit = source::limit_of(lines, b);
                let note = |row: (int, FieldView)| parser::noted(lines, row, from, limit);
                &&& #[trigger] is_next_part(e, e.sections[j].line as int, b)
                &&& parser::form_of(lines, e).filter(|f: FieldView| f.enabled == true)
                    == order::by_line(parser::fields_given(e.sections[j].body)).map_values(note)
                &&& parser::form_of(lines, e).filter(|f: FieldView| f.enabled == false)
                    == order::by_line(
                    source::disabled_fields_from(lines, from, limit, b is Some),
                ).map_values(note)
            },
{
    let s = e.sections[j];
    let from = s.line as int;
    lemma_last_section(e.sections, CommentAnchor::Form, j);
    lemma_next_part(e, from);
    let b = parser::least_below(parser::anchors(e), from);
    let limit = source::limit_of(lines, b);
    let note = |row: (int, FieldView)| parser::noted(lines, row, from, limit);
    let on = parser::fields_given(s.body);
    let off = source::disabled_fields_from(lines, from, limit, b is Some);
    let p = |x: (int, FieldView)| in_use(x, true);
    let q = |x: (int, FieldView)| in_use(x, false);
    lemma_disabled(lines, from, limit, b is Some);
    assert forall|i: int| 0 <= i < on.len() implies p(#[trigger] on[i]) by {}
    assert forall|i: int| 0 <= i < on.len() implies !q(#[trigger] on[i]) by {
        assert(p(on[i]));
    }
    lemma_filter_all(on, p);
    lemma_filter_none(on, q);
    lemma_filter_none(off, p);
    lemma_filter_all(off, q);
    let all = on + off;
    Seq::filter_distributes_over_add(on, off, p);
    Seq::filter_distributes_over_add(on, off, q);
    assert(all.filter(p) =~= on);
    assert(all.filter(q) =~= off);
    lemma_filter_by_line(all, p);
    lemma_filter_by_line(all, q);
    lemma_filter_map(order::by_line(all), note, true);
    lemma_filter_map(order::by_line(all), note, false);
}

/// A field that the parser found is read with its name and its value. A file is one that
/// is sent as base64 where its content type has the mark of that, and the content type
/// stays otherwise.
pub proof fn a_field_is_read_as_it_was_found(
    rows: Seq<(usize, Seq<char>, Seq<char>)>,
    parts: Seq<PartView>,
    k: int,
)
    ensures
        parser::fields_given(SectionBodyView::Form(rows)).len() == rows.len(),
        0 <= k < rows.len() ==> {
            let f = parser::fields_given(SectionBodyView::Form(rows))[k];
            f.0 == rows[k].0 && f.1.key == rows[k].1 && f.1.value == rows[k].2 && f.1.kind is Text
                && f.1.enabled
        },
        parser::fields_given(SectionBodyView::Multipart(parts)).len() == parts.len(),
        0 <= k < parts.len() ==> {
            let f = parser::fields_given(SectionBodyView::Multipart(parts))[k];
            match parts[k] {
                PartView::Text { line, key, value } => f.0 == line && f.1.key == key && f.1.value
                    == value && f.1.kind is Text && f.1.enabled,
                PartView::File { line, key, path, content_type } => {
                    &&& f.0 == line && f.1.key == key && f.1.value == path && f.1.enabled
                    &&& content_type is None ==> f.1.kind is File && f.1.content_type is None
                    &&& f.1.kind is File ==> f.1.content_type == content_type
                        && f.1.base64_prefix is None
                    &&& f.1.kind is Base64File ==> content_type is Some && f.1.content_type is None
                        && f.1.base64_prefix is Some
                },
            }
        },
{
}

// ---------------------------------------------------------------------------
// Titles and comments
// ---------------------------------------------------------------------------
proof fn lemma_comment_top(lines: Seq<Seq<char>>, k: int, a: int)
    requires
        0 <= a <= k <= lines.len(),
        forall|i: int| a <= i < k ==> source::is_comment(#[trigger] lines[i]),
        a > 0 ==> !source::is_comment(lines[a - 1]),
    ensures
        source::comment_top(lines, k, 0) == a,
    decreases k - a,
{
    if a < k {
        assert(source::is_comment(lines[k - 1]));
        lemma_comment_top(lines, k - 1, a);
    }
}

proof fn lemma_title_parts(lines: Seq<Seq<char>>)
    ensures
        source::title_parts(lines) == lines.map_values(
            |l: Seq<char>| source::title_words(l),
        ).filter(|w: Seq<char>| w.len() > 0),
    decreases lines.len(),
{
    reveal(Seq::filter);
    let f = |l: Seq<char>| source::title_words(l);
    if lines.len() > 0 {
        lemma_title_parts(lines.drop_last());
        assert(lines.map_values(f).drop_last() =~= lines.drop_last().map_values(f));
        assert(lines.map_values(f).last() == f(lines.last()));
    } else {
        assert(lines.map_values(f) =~= Seq::<Seq<char>>::empty());
    }
}

/// A request's title is made of all the comments that stand right above it, from the top
/// down: the words of each, with a space between them. Comments without words add
/// nothing.
pub proof fn a_title_is_the_comments_right_above(lines: Seq<Seq<char>>, method: int, a: int)
    requires
        0 <= a <= method <= lines.len(),
        forall|i: int| a <= i < method ==> source::is_comment(#[trigger] lines[i]),
        a > 0 ==> !source::is_comment(lines[a - 1]),
    ensures
        source::title_above(lines, method) == text::joined(
            lines.subrange(a, method).map_values(|l: Seq<char>| source::title_words(l)).filter(
                |w: Seq<char>| w.len() > 0,
            ),
            " "@,
        ),
{
    lemma_comment_top(lines, method, a);
    lemma_title_parts(lines.subrange(a, method));
}

/// The words of a title's line are what is left without its marks and its rules of
/// dashes and equals signs, without the white space around them.
pub proof fn the_words_of_a_title_are_without_its_rules(marks: nat, words: Seq<char>)
    requires
        words.len() > 0 ==> words[0] != '#',
    ensures
        source::title_words(Seq::new(marks, |i: int| '#') + words) == text::trimmed(
            words.filter(|c: char| c != '-' && c != '='),
        ),
{
    let line = Seq::new(marks, |i: int| '#') + words;
    lemma_without_leading(line, words, marks);
}

proof fn lemma_without_leading(line: Seq<char>, words: Seq<char>, marks: nat)
    requires
        words.len() > 0 ==> words[0] != '#',
        line == Seq::new(marks, |i: int| '#') + words,
    ensures
        text::without_leading(line, |c: char| c == '#') == words,
    decreases marks,
{
    if marks > 0 {
        let less = (marks - 1) as nat;
        assert(line.drop_first() =~= Seq::new(less, |i: int| '#') + words);
        lemma_without_leading(line.drop_first(), words, less);
        assert(line[0] == '#');
    } else {
        assert(line =~= words);
    }
}

/// Every comment among the lines of a request is kept: it is part of a body, or a row
/// that is commented out or the note of one, or a report field, or the title of the next
/// request, or one of the request's comments, with its own words.
pub proof fn every_comment_is_kept(w: Window, from: int, i: int)
    requires
        from <= i < w.end,
        source::is_comment(w.lines[i]),
    ensures
        w.in_body(i) || w.is_row(i) || w.in_reports(i) || w.in_next_title(i) || w.comments_from(
            from,
        ).contains(
            CommentView { anchor: w.block_below(i + 1), text: text::trimmed(w.lines[i]) },
        ),
    decreases i - from,
{
    let c = CommentView { anchor: w.block_below(i + 1), text: text::trimmed(w.lines[i]) };
    let got = w.comments_from(from);
    if w.is_loose(i) {
        if from == i {
            assert(got[0] == c);
        } else {
            every_comment_is_kept(w, from + 1, i);
            let rest = w.comments_from(from + 1);
            let k = choose|k: int| 0 <= k < rest.len() && rest[k] == c;
            if w.is_loose(from) {
                assert(got[k + 1] == c);
            } else {
                assert(got[k] == c);
            }
        }
    }
}

/// Whether a part of a response begins on the line numbered `x`: a section or the body.
pub open spec fn begins_check(r: ResponseView, x: usize) -> bool {
    ||| exists|j: int| 0 <= j < r.sections.len() && (#[trigger] r.sections[j]).line == x
    ||| r.body is Some && r.body.unwrap().start == x
}

/// Whether `b` is the line of the first part of a response, if there is one.
pub open spec fn is_first_check(r: ResponseView, b: Option<usize>) -> bool {
    match b {
        None => forall|x: usize| !#[trigger] begins_check(r, x),
        Some(y) => begins_check(r, y) && forall|x: usize| #[trigger]
            begins_check(r, x) ==> y <= x,
    }
}

pub proof fn lemma_first_check(r: ResponseView)
    ensures
        is_first_check(r, parser::least_below(parser::response_anchors(r), -1)),
{
    let f = |s: CheckView| s.line;
    let heads = r.sections.map_values(f);
    let all = parser::response_anchors(r);
    lemma_least(all, -1);
    assert forall|x: usize| #[trigger] begins_check(r, x) implies all.contains(x) by {
        if exists|j: int| 0 <= j < r.sections.len() && (#[trigger] r.sections[j]).line == x {
            let j = choose|j: int| 0 <= j < r.sections.len() && (#[trigger] r.sections[j]).line == x;
            assert(all[j] == x);
        } else {
            assert(all[heads.len() as int] == x);
        }
    }
    assert forall|x: usize| all.contains(x) implies #[trigger] begins_check(r, x) by {
        let i = choose|i: int| 0 <= i < all.len() && all[i] == x;
        if i < heads.len() {
            assert(r.sections[i].line == x);
        }
    }
}

/// Every comment that is kept with a request is one of the comments among its lines, with
/// its own words, and they are kept in the order of the lines.
pub proof fn only_comments_are_kept(w: Window, from: int)
    ensures
        exists|at: Seq<int>| #[trigger] are_comments_on(w, from, at, w.comments_from(from)),
{
    let at = lemma_comments_on(w, from);
}

/// Whether `got` are the comments on the lines `at`.
pub open spec fn are_comments_on(
    w: Window,
    from: int,
    at: Seq<int>,
    got: Seq<CommentView>,
) -> bool {
    &&& at.len() == got.len()
    &&& forall|k: int|
        0 <= k < at.len() ==> from <= #[trigger] at[k] < w.end && source::is_comment(w.lines[at[k]])
            && got[k].text == text::trimmed(w.lines[at[k]])
    &&& forall|j: int, k: int| 0 <= j < k < at.len() ==> #[trigger] at[j] < #[trigger] at[k]
}

proof fn lemma_comments_on(w: Window, from: int) -> (at: Seq<int>)
    ensures
        are_comments_on(w, from, at, w.comments_from(from)),
    decreases w.end - from,
{
    if from >= w.end {
        let none = Seq::<int>::empty();
        assert(are_comments_on(w, from, none, w.comments_from(from)));
        none
    } else {
        let below = lemma_comments_on(w, from + 1);
        let got = w.comments_from(from);
        let rest = w.comments_from(from + 1);
        if w.is_loose(from) {
            let at = seq![from] + below;
            assert forall|k: int| 0 <= k < at.len() implies from <= #[trigger] at[k] < w.end
                && source::is_comment(w.lines[at[k]]) && got[k].text == text::trimmed(
                w.lines[at[k]],
            ) by {
                if k > 0 {
                    assert(at[k] == below[k - 1]);
                    assert(got[k] == rest[k - 1]);
                }
            }
            assert forall|j: int, k: int| 0 <= j < k < at.len() implies #[trigger] at[j]
                < #[trigger] at[k] by {
                assert(at[k] == below[k - 1]);
                if j > 0 {
                    assert(at[j] == below[j - 1]);
                }
            }
            assert(are_comments_on(w, from, at, got));
            at
        } else {
            assert(are_comments_on(w, from, below, got));
            below
        }
    }
}

/// The comments above a file's first request are kept with it, all of them.
pub proof fn comments_above_the_first_request_are_kept(
    above: Seq<Seq<char>>,
    below: Seq<Seq<char>>,
    line: Seq<char>,
)
    ensures
        comment_scan::leading_comments(above + below) == comment_scan::leading_comments(above)
            + comment_scan::leading_comments(below),
        source::is_comment(line) ==> comment_scan::leading_comments(seq![line]) == seq![
            CommentView { anchor: CommentAnchor::Lead, text: text::trimmed(line) },
        ],
        !source::is_comment(line) ==> comment_scan::leading_comments(seq![line]).len() == 0,
    decreases below.len(),
{
    assert(seq![line].drop_last() =~= Seq::<Seq<char>>::empty());
    assert(comment_scan::leading_comments(Seq::<Seq<char>>::empty()).len() == 0);
    if below.len() == 0 {
        assert(above + below =~= above);
    } else {
        let less = below.drop_last();
        comments_above_the_first_request_are_kept(above, less, line);
        assert((above + below).drop_last() =~= above + less);
        assert((above + below).last() == below.last());
    }
}

/// A line is a comment where its first character that is no white space is the mark of
/// one, and is nothing to be read where it has no other.
pub proof fn a_comment_begins_with_its_mark(line: Seq<char>, n: int)
    requires
        0 <= n <= line.len(),
        forall|i: int| 0 <= i < n ==> text::is_white(#[trigger] line[i]),
        n < line.len() ==> !text::is_white(line[n]),
    ensures
        source::is_comment(line) == (n < line.len() && line[n] == '#'),
        source::is_content(line) == (n < line.len() && line[n] != '#'),
{
    reveal_strlit("#");
    text_laws::lemma_trimmed_start_is(line, n);
    text_laws::trimming_leaves_the_core(line);
    let t = line.skip(n);
    if n < line.len() {
        assert(t[0] == line[n]);
        assert(t.take(1)[0] == line[n]);
        assert(!text::is_white(line[n]));
        let core = text::trimmed(line);
        let (a, b) = choose|a: int, b: int| #[trigger] text_laws::is_core_at(line, core, a, b);
        assert(a == n) by {
            if a < n {
                assert(text::is_white(line[a]));
            } else if n < a {
                assert(text::is_white(line[n]));
            }
        }
        assert(core[0] == line[n]);
        assert(core.take(1)[0] == line[n]);
        if line[n] == '#' {
            assert(t.take(1) =~= "#"@);
            assert(core.take(1) =~= "#"@);
        }
    }
}

} // verus!
