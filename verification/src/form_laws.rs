//! A form is read back.
use vstd::prelude::*;

use crate::block_laws;
use crate::entry::FieldView;
use crate::line_laws;
use crate::order;
use crate::parser;
use crate::shape::{PartView, SectionBodyView, SectionView};
use crate::source;
use crate::text;
use crate::text_laws;
use crate::writer;

verus! {

// ---------------------------------------------------------------------------
// Lines
// ---------------------------------------------------------------------------
/// The lines of a field: its note, then its own.
pub open spec fn field_lines(f: FieldView) -> Seq<Seq<char>> {
    block_laws::note_lines(f.desc).push(line_laws::line_of(writer::field_line(f), f.enabled))
}

/// The lines of some fields.
pub open spec fn stacked(fields: Seq<FieldView>) -> Seq<Seq<char>>
    decreases fields.len(),
{
    if fields.len() == 0 {
        Seq::empty()
    } else {
        stacked(fields.drop_last()) + field_lines(fields.last())
    }
}

/// Whether each of some fields comes back as it was written.
pub open spec fn fields_fit(fields: Seq<FieldView>) -> bool {
    forall|i: int| 0 <= i < fields.len() ==> line_laws::field_fits(#[trigger] fields[i])
}

/// A field without its note.
pub open spec fn bare(f: FieldView) -> FieldView {
    FieldView { desc: seq![], ..f }
}

/// The line of the last of some fields that stand from line `i` on, counted from
/// one.
pub open spec fn last_line(fields: Seq<FieldView>, i: int) -> int {
    i + stacked(fields).len()
}

/// Of some fields that stand from line `i` on, those that are enabled or those
/// that are not, without their notes and each with its line counted from one.
pub open spec fn picked(fields: Seq<FieldView>, i: int, enabled: bool) -> Seq<(int, FieldView)>
    decreases fields.len(),
{
    if fields.len() == 0 {
        Seq::empty()
    } else {
        let front = picked(fields.drop_last(), i, enabled);
        if fields.last().enabled == enabled {
            front.push((last_line(fields, i), bare(fields.last())))
        } else {
            front
        }
    }
}

/// Some fields that stand from line `i` on, without their notes and each with its
/// line counted from one.
pub open spec fn numbered(fields: Seq<FieldView>, i: int) -> Seq<(int, FieldView)>
    decreases fields.len(),
{
    if fields.len() == 0 {
        Seq::empty()
    } else {
        numbered(fields.drop_last(), i).push((last_line(fields, i), bare(fields.last())))
    }
}

proof fn lemma_front_fits(fields: Seq<FieldView>)
    requires
        fields.len() > 0,
        fields_fit(fields),
    ensures
        fields_fit(fields.drop_last()),
        line_laws::field_fits(fields.last()),
{
    let front = fields.drop_last();
    assert forall|k: int| 0 <= k < front.len() implies line_laws::field_fits(
        #[trigger] front[k],
    ) by {
        assert(front[k] == fields[k]);
    }
    assert(line_laws::field_fits(fields[fields.len() - 1]));
}

/// Fields that fit are written as their lines.
pub proof fn lemma_fields_written(fields: Seq<FieldView>)
    requires
        fields_fit(fields),
    ensures
        text::concat(fields.map_values(|f: FieldView| writer::field_text(f)))
            == text_laws::as_text(stacked(fields)),
        text_laws::are_lines(stacked(fields)),
    decreases fields.len(),
{
    let g = |f: FieldView| writer::field_text(f);
    if fields.len() == 0 {
        assert(fields.map_values(g) =~= Seq::<Seq<char>>::empty());
        assert(stacked(fields).map_values(|l: Seq<char>| l.push('\n')) =~= Seq::<
            Seq<char>,
        >::empty());
    } else {
        let front = fields.drop_last();
        let f = fields.last();
        lemma_front_fits(fields);
        lemma_fields_written(front);
        assert(fields.map_values(g).drop_last() =~= front.map_values(g));
        let line = line_laws::line_of(writer::field_line(f), f.enabled);
        line_laws::lemma_field_written(f);
        block_laws::lemma_note_written(f.desc);
        text_laws::lemma_as_text_add(stacked(front), field_lines(f));
        text_laws::lemma_as_text_add(block_laws::note_lines(f.desc), seq![line]);
        text_laws::lemma_as_text_one(line);
        assert(field_lines(f) =~= block_laws::note_lines(f.desc) + seq![line]);
        let all = stacked(fields);
        assert forall|i: int| 0 <= i < all.len() implies text_laws::is_line(#[trigger] all[i]) by {
            let n = stacked(front).len();
            if i < n {
                assert(all[i] == stacked(front)[i]);
            } else if i < n + block_laws::note_lines(f.desc).len() {
                assert(all[i] == block_laws::note_lines(f.desc)[i - n]);
            } else {
                assert(all[i] == line);
            }
        }
    }
}

// ---------------------------------------------------------------------------
// Disabled fields
// ---------------------------------------------------------------------------
/// The lines of a note are passed over.
proof fn lemma_notes_passed(
    lines: Seq<Seq<char>>,
    i: int,
    desc: Seq<char>,
    k: int,
    limit: int,
    bounded: bool,
)
    requires
        block_laws::stands(lines, i, block_laws::note_lines(desc)),
        0 <= k <= block_laws::note_lines(desc).len(),
        i + block_laws::note_lines(desc).len() <= limit,
    ensures
        source::disabled_fields_from(lines, i, limit, bounded) == source::disabled_fields_from(
            lines,
            i + k,
            limit,
            bounded,
        ),
        forall|j: int| i <= j < i + k ==> source::note_on(#[trigger] lines[j]) is Some,
    decreases k,
{
    if k > 0 {
        lemma_notes_passed(lines, i, desc, k - 1, limit, bounded);
        block_laws::lemma_stands_at(lines, i, block_laws::note_lines(desc), k - 1);
        line_laws::a_written_note_is_read_back(text::lines_of(desc)[k - 1]);
        assert(lines[i + k - 1] == writer::DESC_MARKER@ + text::lines_of(desc)[k - 1]);
    }
}

/// The disabled ones of some fields that fit are read from where they stand, and
/// then what stands behind them is read.
proof fn lemma_disabled_read(
    lines: Seq<Seq<char>>,
    i: int,
    fields: Seq<FieldView>,
    limit: int,
    bounded: bool,
)
    requires
        fields_fit(fields),
        block_laws::stands(lines, i, stacked(fields)),
        i + stacked(fields).len() <= limit,
    ensures
        source::disabled_fields_from(lines, i, limit, bounded) == picked(fields, i, false)
            + source::disabled_fields_from(lines, i + stacked(fields).len(), limit, bounded),
    decreases fields.len(),
{
    let rest = source::disabled_fields_from(lines, i + stacked(fields).len(), limit, bounded);
    if fields.len() == 0 {
        assert(picked(fields, i, false) + rest =~= rest);
    } else {
        let front = fields.drop_last();
        let f = fields.last();
        lemma_front_fits(fields);
        block_laws::lemma_stands_parts(lines, i, stacked(front), field_lines(f));
        lemma_disabled_read(lines, i, front, limit, bounded);
        let at = i + stacked(front).len();
        let notes = block_laws::note_lines(f.desc);
        let line = line_laws::line_of(writer::field_line(f), f.enabled);
        assert(field_lines(f) =~= notes + seq![line]);
        block_laws::lemma_stands_parts(lines, at, notes, seq![line]);
        lemma_notes_passed(lines, at, f.desc, notes.len() as int, limit, bounded);
        block_laws::lemma_stands_at(lines, at, field_lines(f), notes.len() as int);
        line_laws::a_written_field_is_read_back(f);
        let k = at + notes.len();
        assert(lines[k] == line);
        assert(k + 1 == last_line(fields, i));
        if !f.enabled {
            assert(FieldView { enabled: false, ..FieldView { enabled: true, desc: seq![], ..f } }
                == bare(f));
            assert(picked(fields, i, false) + rest =~= picked(front, i, false) + (seq![
                (k + 1, bare(f)),
            ] + rest));
        }
    }
}

// ---------------------------------------------------------------------------
// Order
// ---------------------------------------------------------------------------
proof fn lemma_picked_rises(fields: Seq<FieldView>, i: int)
    ensures
        numbered(fields, i).len() == fields.len(),
        forall|k: int|
            0 <= k < fields.len() ==> i < (#[trigger] numbered(fields, i)[k]).0 <= last_line(
                fields,
                i,
            ),
        forall|a: int, b: int|
            0 <= a < b < fields.len() ==> (#[trigger] numbered(fields, i)[a]).0 < (
            #[trigger] numbered(fields, i)[b]).0,
        forall|k: int|
            0 <= k < fields.len() ==> (#[trigger] numbered(fields, i)[k]).1 == bare(fields[k]),
    decreases fields.len(),
{
    if fields.len() > 0 {
        let front = fields.drop_last();
        lemma_picked_rises(front, i);
        let all = numbered(fields, i);
        let n = front.len() as int;
        assert(last_line(fields, i) > last_line(front, i));
        assert forall|k: int| 0 <= k < fields.len() implies i < (#[trigger] all[k]).0 <= last_line(
            fields,
            i,
        ) by {
            if k < n {
                assert(all[k] == numbered(front, i)[k]);
            }
        }
        assert forall|a: int, b: int| 0 <= a < b < fields.len() implies (#[trigger] all[a]).0 < (
        #[trigger] all[b]).0 by {
            assert(all[a] == numbered(front, i)[a]);
            if b < n {
                assert(all[b] == numbered(front, i)[b]);
            }
        }
        assert forall|k: int| 0 <= k < fields.len() implies (#[trigger] all[k]).1 == bare(
            fields[k],
        ) by {
            if k < n {
                assert(all[k] == numbered(front, i)[k]);
                assert(front[k] == fields[k]);
            }
        }
    }
}

proof fn lemma_picked_all(fields: Seq<FieldView>, i: int)
    ensures
        (picked(fields, i, true) + picked(fields, i, false)).to_multiset() == numbered(
            fields,
            i,
        ).to_multiset(),
    decreases fields.len(),
{
    broadcast use vstd::seq_lib::group_to_multiset_ensures;

    if fields.len() == 0 {
        assert(picked(fields, i, true) + picked(fields, i, false) =~= numbered(fields, i));
    } else {
        let front = fields.drop_last();
        lemma_picked_all(front, i);
        let x = (last_line(fields, i), bare(fields.last()));
        let on = picked(front, i, true);
        let off = picked(front, i, false);
        assert(numbered(fields, i).to_multiset() =~= numbered(front, i).to_multiset().insert(x));
        if fields.last().enabled {
            assert(picked(fields, i, true) + picked(fields, i, false) =~= (on + off).insert(
                on.len() as int,
                x,
            ));
        } else {
            assert(picked(fields, i, true) + picked(fields, i, false) =~= (on + off).push(x));
        }
        assert((picked(fields, i, true) + picked(fields, i, false)).to_multiset() =~= (on
            + off).to_multiset().insert(x));
    }
}

/// Items in order that are the same as some in strict order are those.
proof fn lemma_same_order<T>(a: Seq<(int, T)>, b: Seq<(int, T)>)
    requires
        order::in_order(a),
        a.to_multiset() == b.to_multiset(),
        forall|i: int, j: int| 0 <= i < j < b.len() ==> (#[trigger] b[i]).0 < (#[trigger] b[j]).0,
    ensures
        a == b,
    decreases b.len(),
{
    broadcast use vstd::seq_lib::group_to_multiset_ensures;

    assert(a.len() == a.to_multiset().len());
    assert(b.len() == b.to_multiset().len());
    if b.len() == 0 {
        assert(a =~= b);
    } else {
        let x = a.last();
        let y = b.last();
        assert(b.contains(y));
        assert(b.to_multiset().count(y) > 0);
        assert(a.to_multiset().count(y) > 0);
        assert(a.contains(y));
        let i = choose|i: int| 0 <= i < a.len() && a[i] == y;
        assert(a.contains(x));
        assert(a.to_multiset().count(x) > 0);
        assert(b.contains(x));
        let j = choose|j: int| 0 <= j < b.len() && b[j] == x;
        if j < b.len() - 1 {
            assert(b[j].0 < b[b.len() - 1].0);
            if i < a.len() - 1 {
                assert(a[i].0 <= a[a.len() - 1].0);
            }
            assert(false);
        }
        assert(x == y);
        let a1 = a.drop_last();
        let b1 = b.drop_last();
        assert(a =~= a1.push(x));
        assert(b =~= b1.push(y));
        assert(a1.to_multiset() =~= a.to_multiset().remove(x));
        assert(b1.to_multiset() =~= b.to_multiset().remove(x));
        assert forall|p: int, q: int| 0 <= p < q < a1.len() implies (#[trigger] a1[p]).0 <= (
        #[trigger] a1[q]).0 by {
            assert(a1[p] == a[p] && a1[q] == a[q]);
        }
        assert forall|p: int, q: int| 0 <= p < q < b1.len() implies (#[trigger] b1[p]).0 < (
        #[trigger] b1[q]).0 by {
            assert(b1[p] == b[p] && b1[q] == b[q]);
        }
        lemma_same_order(a1, b1);
    }
}

/// Enabled and disabled fields put into the order of their lines are all the
/// fields in their order.
proof fn lemma_merged(fields: Seq<FieldView>, i: int)
    ensures
        order::by_line(picked(fields, i, true) + picked(fields, i, false)) == numbered(fields, i),
{
    let both = picked(fields, i, true) + picked(fields, i, false);
    order::items_are_ordered_by_line(both);
    lemma_picked_all(fields, i);
    lemma_picked_rises(fields, i);
    lemma_same_order(order::by_line(both), numbered(fields, i));
}

// ---------------------------------------------------------------------------
// Notes
// ---------------------------------------------------------------------------
proof fn lemma_note_top_is(lines: Seq<Seq<char>>, k: int, from: int, top: int)
    requires
        0 <= from <= top <= k <= lines.len(),
        forall|j: int| top <= j < k ==> source::note_on(#[trigger] lines[j]) is Some,
        top == from || source::note_on(lines[top - 1]) is None,
    ensures
        source::note_top(lines, k, from) == top,
    decreases k - top,
{
    if top < k {
        assert(source::note_on(lines[k - 1]) is Some);
        lemma_note_top_is(lines, k - 1, from, top);
    }
}

/// The note of each of some fields is found above its line.
proof fn lemma_noted(lines: Seq<Seq<char>>, i: int, fields: Seq<FieldView>, n: int, limit: int)
    requires
        fields_fit(fields),
        block_laws::stands(lines, i, stacked(fields)),
        i + stacked(fields).len() <= limit <= lines.len(),
        0 <= n < fields.len(),
    ensures
        parser::noted(lines, numbered(fields, i)[n], i, limit) == fields[n],
    decreases fields.len(),
{
    let front = fields.drop_last();
    let f = fields.last();
    lemma_front_fits(fields);
    block_laws::lemma_stands_parts(lines, i, stacked(front), field_lines(f));
    lemma_picked_rises(fields, i);
    lemma_picked_rises(front, i);
    if n < fields.len() - 1 {
        lemma_noted(lines, i, front, n, limit);
        assert(front[n] == fields[n]);
    } else {
        let at = i + stacked(front).len();
        let notes = block_laws::note_lines(f.desc);
        let ls = text::lines_of(f.desc);
        let line = line_laws::line_of(writer::field_line(f), f.enabled);
        let k = at + notes.len();
        assert(field_lines(f) =~= notes + seq![line]);
        block_laws::lemma_stands_parts(lines, at, notes, seq![line]);
        lemma_notes_passed(lines, at, f.desc, notes.len() as int, limit, true);
        block_laws::lemma_stands_at(lines, at, field_lines(f), notes.len() as int);
        line_laws::a_written_field_is_read_back(f);
        assert(numbered(fields, i)[n] == (k + 1, bare(f)));
        if front.len() > 0 {
            lemma_front_fits(front);
            let g = front.last();
            let m = block_laws::note_lines(g.desc).len();
            assert(stacked(front) =~= stacked(front.drop_last()) + field_lines(g));
            block_laws::lemma_stands_at(lines, i, stacked(front), stacked(front).len() - 1);
            assert(lines[at - 1] == line_laws::line_of(writer::field_line(g), g.enabled));
            line_laws::a_written_field_is_read_back(g);
        }
        lemma_note_top_is(lines, k, i, at);
        let want = lines.subrange(at, k).map_values(
            |l: Seq<char>| source::note_on(l).unwrap(),
        );
        assert(want =~= ls) by {
            assert forall|j: int| 0 <= j < ls.len() implies want[j] == ls[j] by {
                block_laws::lemma_stands_at(lines, at, notes, j);
                line_laws::a_written_note_is_read_back(ls[j]);
                assert(lines[at + j] == writer::DESC_MARKER@ + ls[j]);
            }
        }
        if ls.len() == 0 {
            assert(f.desc =~= Seq::<char>::empty()) by {
                assert(text::joined(ls, "\n"@) == f.desc);
            }
        }
    }
}

// ---------------------------------------------------------------------------
// Sections
// ---------------------------------------------------------------------------
/// A field as a row of a `[Multipart]` section, on the given line.
pub open spec fn part_of(f: FieldView, line: usize) -> PartView {
    if f.kind.names_file() {
        PartView::File {
            line,
            key: f.key,
            path: f.value,
            content_type: line_laws::type_written(f),
        }
    } else {
        PartView::Text { line, key: f.key, value: f.value }
    }
}

/// The enabled ones of some fields that stand from line `i` on, as the rows of a
/// `[Multipart]` section.
pub open spec fn parts_of(fields: Seq<FieldView>, i: int) -> Seq<PartView>
    decreases fields.len(),
{
    if fields.len() == 0 {
        Seq::empty()
    } else {
        let front = parts_of(fields.drop_last(), i);
        if fields.last().enabled {
            front.push(part_of(fields.last(), last_line(fields, i) as usize))
        } else {
            front
        }
    }
}

/// The enabled ones of some fields that stand from line `i` on, as the rows of a
/// `[Form]` section.
pub open spec fn pairs_of(fields: Seq<FieldView>, i: int) -> Seq<(usize, Seq<char>, Seq<char>)>
    decreases fields.len(),
{
    if fields.len() == 0 {
        Seq::empty()
    } else {
        let front = pairs_of(fields.drop_last(), i);
        if fields.last().enabled {
            front.push((last_line(fields, i) as usize, fields.last().key, fields.last().value))
        } else {
            front
        }
    }
}

/// The section that some fields make, with its header on the line before `i`: a
/// `[Multipart]` one where an enabled field names a file.
pub open spec fn section_of(fields: Seq<FieldView>, i: int) -> SectionView {
    SectionView {
        line: i as usize,
        body: if parser::sends_file(fields) {
            SectionBodyView::Multipart(parts_of(fields, i))
        } else {
            SectionBodyView::Form(pairs_of(fields, i))
        },
    }
}

proof fn lemma_parts(fields: Seq<FieldView>, i: int)
    requires
        fields_fit(fields),
        0 <= i,
        last_line(fields, i) <= usize::MAX,
    ensures
        parts_of(fields, i).map_values(|p: PartView| parser::part_field(p)) == picked(
            fields,
            i,
            true,
        ),
    decreases fields.len(),
{
    let g = |p: PartView| parser::part_field(p);
    if fields.len() == 0 {
        assert(parts_of(fields, i).map_values(g) =~= picked(fields, i, true));
    } else {
        let front = fields.drop_last();
        let f = fields.last();
        lemma_front_fits(fields);
        lemma_parts(front, i);
        if f.enabled {
            let p = part_of(f, last_line(fields, i) as usize);
            if f.kind.names_file() {
                line_laws::lemma_file_shape(f);
            }
            assert(parser::part_field(p) == (last_line(fields, i), bare(f)));
            assert(parts_of(fields, i).map_values(g) =~= parts_of(front, i).map_values(g).push(
                g(p),
            ));
        }
    }
}

proof fn lemma_pairs(fields: Seq<FieldView>, i: int)
    requires
        fields_fit(fields),
        0 <= i,
        last_line(fields, i) <= usize::MAX,
        forall|k: int|
            0 <= k < fields.len() && (#[trigger] fields[k]).enabled
                ==> !fields[k].kind.names_file(),
    ensures
        pairs_of(fields, i).map_values(
            |row: (usize, Seq<char>, Seq<char>)| (row.0 as int, source::text_field(row.1, row.2)),
        ) == picked(fields, i, true),
    decreases fields.len(),
{
    let g = |row: (usize, Seq<char>, Seq<char>)|
        (row.0 as int, source::text_field(row.1, row.2));
    if fields.len() == 0 {
        assert(pairs_of(fields, i).map_values(g) =~= picked(fields, i, true));
    } else {
        let front = fields.drop_last();
        let f = fields.last();
        lemma_front_fits(fields);
        assert forall|k: int| 0 <= k < front.len() && (#[trigger] front[k]).enabled implies
            !front[k].kind.names_file() by {
            assert(front[k] == fields[k]);
        }
        lemma_pairs(front, i);
        if f.enabled {
            let p = (last_line(fields, i) as usize, f.key, f.value);
            assert(!fields[fields.len() - 1].kind.names_file());
            assert(g(p) == (last_line(fields, i), bare(f)));
            assert(pairs_of(fields, i).map_values(g) =~= pairs_of(front, i).map_values(g).push(
                g(p),
            ));
        }
    }
}

/// Lines that carry no field are passed over in a bounded scan.
proof fn lemma_others_passed(lines: Seq<Seq<char>>, i: int, j: int, limit: int)
    requires
        0 <= i <= j <= limit,
        j <= lines.len(),
        forall|k: int| i <= k < j ==> block_laws::no_row(#[trigger] lines[k]),
    ensures
        source::disabled_fields_from(lines, i, limit, true) == source::disabled_fields_from(
            lines,
            j,
            limit,
            true,
        ),
    decreases j - i,
{
    if i < j {
        assert(block_laws::no_row(lines[i]));
        lemma_others_passed(lines, i + 1, j, limit);
    }
}

/// The fields of a form are read back from where they stand, given the section
/// that they make: in a bounded scan with anything that is no row behind, in an
/// open one with something that is no row, or nothing.
pub proof fn a_written_form_is_read_back(
    lines: Seq<Seq<char>>,
    i: int,
    fields: Seq<FieldView>,
    end: Option<usize>,
)
    requires
        fields_fit(fields),
        block_laws::stands(lines, i, stacked(fields)),
        lines.len() <= usize::MAX,
        i + stacked(fields).len() <= source::limit_of(lines, end) <= lines.len(),
        end is Some ==> forall|k: int|
            i + stacked(fields).len() <= k < source::limit_of(lines, end) ==> block_laws::no_row(
                #[trigger] lines[k],
            ),
        end is None ==> (i + stacked(fields).len() < lines.len() ==> block_laws::no_row(
            lines[i + stacked(fields).len()],
        )),
    ensures
        parser::fields_of_section(lines, section_of(fields, i), end) == fields,
{
    let limit = source::limit_of(lines, end);
    let behind = i + stacked(fields).len();
    let s = section_of(fields, i);
    lemma_disabled_read(lines, i, fields, limit, end is Some);
    if end is Some {
        lemma_others_passed(lines, behind, limit, limit);
    }
    assert(source::disabled_fields_from(lines, behind, limit, end is Some) =~= Seq::<
        (int, FieldView),
    >::empty()) by {
        if end is Some {
            assert(source::disabled_fields_from(lines, limit, limit, true) == Seq::<
                (int, FieldView),
            >::empty());
        } else if behind < lines.len() {
            assert(block_laws::no_row(lines[behind]));
        }
    }
    assert(source::disabled_fields_from(lines, i, limit, end is Some) =~= picked(
        fields,
        i,
        false,
    ));
    if parser::sends_file(fields) {
        lemma_parts(fields, i);
    } else {
        lemma_pairs(fields, i);
    }
    assert(parser::fields_given(s.body) == picked(fields, i, true));
    lemma_merged(fields, i);
    lemma_picked_rises(fields, i);
    let got = parser::fields_of_section(lines, s, end);
    assert forall|n: int| 0 <= n < fields.len() implies got[n] == fields[n] by {
        lemma_noted(lines, i, fields, n, limit);
    }
    assert(got =~= fields);
}

} // verus!
