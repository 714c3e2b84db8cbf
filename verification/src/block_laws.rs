//! Blocks of lines are read back.
use vstd::prelude::*;

use crate::entry::RowView;
use crate::line_laws;
use crate::source;
use crate::text;
use crate::text_laws;
use crate::writer;

verus! {

/// Whether a block of lines stands in a file from line `i` on.
pub open spec fn stands(lines: Seq<Seq<char>>, i: int, block: Seq<Seq<char>>) -> bool {
    0 <= i && i + block.len() <= lines.len() && lines.subrange(i, i + block.len()) == block
}

/// A block's lines are the file's.
pub proof fn lemma_stands_at(lines: Seq<Seq<char>>, i: int, block: Seq<Seq<char>>, k: int)
    requires
        stands(lines, i, block),
        0 <= k < block.len(),
    ensures
        lines[i + k] == block[k],
{
    assert(lines.subrange(i, i + block.len())[k] == block[k]);
}

/// Of two blocks that stand one behind the other, each stands.
pub proof fn lemma_stands_parts(
    lines: Seq<Seq<char>>,
    i: int,
    a: Seq<Seq<char>>,
    b: Seq<Seq<char>>,
)
    requires
        stands(lines, i, a + b),
    ensures
        stands(lines, i, a),
        stands(lines, i + a.len(), b),
{
    let s = lines.subrange(i, i + (a + b).len());
    assert(lines.subrange(i, i + a.len()) =~= s.subrange(0, a.len() as int));
    assert(s.subrange(0, a.len() as int) =~= a);
    assert(lines.subrange(i + a.len(), i + a.len() + b.len()) =~= s.subrange(
        a.len() as int,
        (a + b).len() as int,
    ));
    assert(s.subrange(a.len() as int, (a + b).len() as int) =~= b);
}

// ---------------------------------------------------------------------------
// Notes
// ---------------------------------------------------------------------------
/// The lines of a note.
pub open spec fn note_lines(desc: Seq<char>) -> Seq<Seq<char>> {
    text::lines_of(desc).map_values(|l: Seq<char>| writer::DESC_MARKER@ + l)
}

/// A note is written as its lines.
pub proof fn lemma_note_written(desc: Seq<char>)
    requires
        line_laws::note_fits(desc),
    ensures
        writer::desc_lines(desc) == text_laws::as_text(note_lines(desc)),
        text_laws::are_lines(note_lines(desc)),
{
    let m = writer::DESC_MARKER@;
    let ls = text::lines_of(desc);
    assert(ls.map_values(|line: Seq<char>| writer::as_line(m + line)) =~= note_lines(
        desc,
    ).map_values(|l: Seq<char>| l.push('\n')));
    text_laws::lemma_lines_hold_no_feed(desc);
    assert forall|i: int| 0 <= i < ls.len() implies text_laws::is_line(
        #[trigger] note_lines(desc)[i],
    ) by {
        reveal_strlit("# @desc ");
        let l = ls[i];
        let s = m + l;
        assert(note_lines(desc)[i] == s);
        assert(!l.contains('\n'));
        if s.contains('\n') {
            let k = choose|k: int| 0 <= k < s.len() && s[k] == '\n';
            if k >= m.len() {
                assert(l[k - m.len()] == '\n');
            }
        }
        text::lemma_trimmed_end(l);
        if l.len() > 0 {
            assert(s.last() == l.last());
        }
    }
}

/// The lines of a note are read as its text, line by line.
proof fn lemma_note_rows(
    lines: Seq<Seq<char>>,
    i: int,
    desc: Seq<char>,
    k: int,
    limit: int,
    bounded: bool,
)
    requires
        line_laws::note_fits(desc),
        stands(lines, i, note_lines(desc)),
        0 <= k <= text::lines_of(desc).len(),
        i + text::lines_of(desc).len() <= limit,
    ensures
        source::rows_from(lines, i, limit, bounded, Seq::empty()) == source::rows_from(
            lines,
            i + k,
            limit,
            bounded,
            text::lines_of(desc).take(k),
        ),
    decreases k,
{
    let ls = text::lines_of(desc);
    if k > 0 {
        lemma_note_rows(lines, i, desc, k - 1, limit, bounded);
        lemma_stands_at(lines, i, note_lines(desc), k - 1);
        line_laws::a_written_note_is_read_back(ls[k - 1]);
        assert(lines[i + k - 1] == writer::DESC_MARKER@ + ls[k - 1]);
        assert(ls.take(k) =~= ls.take(k - 1).push(ls[k - 1]));
    } else {
        assert(ls.take(0) =~= Seq::<Seq<char>>::empty());
    }
}

// ---------------------------------------------------------------------------
// Rows
// ---------------------------------------------------------------------------
/// The lines of a row: its note, then its own.
pub open spec fn row_lines(row: RowView) -> Seq<Seq<char>> {
    note_lines(row.desc).push(
        line_laws::line_of(writer::kv(row.key, row.value), row.enabled),
    )
}

/// The lines of some rows.
pub open spec fn stacked(rows: Seq<RowView>) -> Seq<Seq<char>>
    decreases rows.len(),
{
    if rows.len() == 0 {
        Seq::empty()
    } else {
        stacked(rows.drop_last()) + row_lines(rows.last())
    }
}

/// Whether each of some rows comes back as it was written.
pub open spec fn rows_fit(rows: Seq<RowView>) -> bool {
    forall|i: int| 0 <= i < rows.len() ==> line_laws::row_fits(#[trigger] rows[i])
}

/// Rows that fit are written as their lines.
pub proof fn lemma_rows_written(rows: Seq<RowView>)
    requires
        rows_fit(rows),
    ensures
        writer::rows_text(rows) == text_laws::as_text(stacked(rows)),
        text_laws::are_lines(stacked(rows)),
    decreases rows.len(),
{
    let f = |row: RowView| writer::kv_text(row);
    if rows.len() == 0 {
        assert(rows.map_values(f) =~= Seq::<Seq<char>>::empty());
        assert(stacked(rows).map_values(|l: Seq<char>| l.push('\n')) =~= Seq::<Seq<char>>::empty());
    } else {
        let front = rows.drop_last();
        let row = rows.last();
        assert forall|i: int| 0 <= i < front.len() implies line_laws::row_fits(
            #[trigger] front[i],
        ) by {
            assert(front[i] == rows[i]);
        }
        assert(line_laws::row_fits(rows[rows.len() - 1]));
        lemma_rows_written(front);
        assert(rows.map_values(f).drop_last() =~= front.map_values(f));
        let line = line_laws::line_of(writer::kv(row.key, row.value), row.enabled);
        line_laws::lemma_row_written(row);
        lemma_note_written(row.desc);
        text_laws::lemma_as_text_add(stacked(front), row_lines(row));
        text_laws::lemma_as_text_add(note_lines(row.desc), seq![line]);
        text_laws::lemma_as_text_one(line);
        assert(row_lines(row) =~= note_lines(row.desc) + seq![line]);
        let all = stacked(rows);
        assert forall|i: int| 0 <= i < all.len() implies text_laws::is_line(#[trigger] all[i]) by {
            let n = stacked(front).len();
            if i < n {
                assert(all[i] == stacked(front)[i]);
            } else if i < n + note_lines(row.desc).len() {
                assert(all[i] == note_lines(row.desc)[i - n]);
            } else {
                assert(all[i] == line);
            }
        }
    }
}

/// A row that fits is read first of what it stands before.
proof fn lemma_row_first(lines: Seq<Seq<char>>, i: int, row: RowView, limit: int, bounded: bool)
    requires
        line_laws::row_fits(row),
        stands(lines, i, row_lines(row)),
        i + row_lines(row).len() <= limit,
    ensures
        source::rows_from(lines, i, limit, bounded, Seq::empty()) == seq![row] + source::rows_from(
            lines,
            i + row_lines(row).len(),
            limit,
            bounded,
            Seq::empty(),
        ),
{
    let ls = text::lines_of(row.desc);
    let line = line_laws::line_of(writer::kv(row.key, row.value), row.enabled);
    let n = ls.len() as int;
    assert(row_lines(row) =~= note_lines(row.desc) + seq![line]);
    lemma_stands_parts(lines, i, note_lines(row.desc), seq![line]);
    lemma_note_rows(lines, i, row.desc, n, limit, bounded);
    assert(ls.take(n) =~= ls);
    lemma_stands_at(lines, i, row_lines(row), n);
    line_laws::a_written_row_is_read_back(row);
}

/// Rows that fit are read back from where they stand, and then what stands
/// behind them is read.
pub proof fn written_rows_are_read_back(
    lines: Seq<Seq<char>>,
    i: int,
    rows: Seq<RowView>,
    limit: int,
    bounded: bool,
)
    requires
        rows_fit(rows),
        stands(lines, i, stacked(rows)),
        i + stacked(rows).len() <= limit,
    ensures
        source::rows_from(lines, i, limit, bounded, Seq::empty()) == rows + source::rows_from(
            lines,
            i + stacked(rows).len(),
            limit,
            bounded,
            Seq::empty(),
        ),
    decreases rows.len(),
{
    if rows.len() == 0 {
        assert(rows + source::rows_from(lines, i, limit, bounded, Seq::empty())
            =~= source::rows_from(lines, i, limit, bounded, Seq::empty()));
    } else {
        let front = rows.drop_last();
        let row = rows.last();
        assert forall|k: int| 0 <= k < front.len() implies line_laws::row_fits(
            #[trigger] front[k],
        ) by {
            assert(front[k] == rows[k]);
        }
        assert(line_laws::row_fits(rows[rows.len() - 1]));
        lemma_stands_parts(lines, i, stacked(front), row_lines(row));
        written_rows_are_read_back(lines, i, front, limit, bounded);
        lemma_row_first(lines, i + stacked(front).len(), row, limit, bounded);
        let rest = source::rows_from(
            lines,
            i + stacked(rows).len(),
            limit,
            bounded,
            Seq::empty(),
        );
        assert(rows + rest =~= front + (seq![row] + rest));
    }
}

/// Whether a line is neither row nor note.
pub open spec fn no_row(line: Seq<char>) -> bool {
    source::note_on(line) is None && source::row_on(line) is None
}

/// Lines that are neither row nor note are passed over in a bounded scan.
pub proof fn lemma_prose_passed(lines: Seq<Seq<char>>, i: int, j: int, limit: int)
    requires
        0 <= i <= j <= limit,
        j <= lines.len(),
        forall|k: int| i <= k < j ==> no_row(#[trigger] lines[k]),
    ensures
        source::rows_from(lines, i, limit, true, Seq::empty()) == source::rows_from(
            lines,
            j,
            limit,
            true,
            Seq::empty(),
        ),
    decreases j - i,
{
    if i < j {
        assert(no_row(lines[i]));
        lemma_prose_passed(lines, i + 1, j, limit);
    }
}

/// A block of rows among other comments is read as its rows: in a bounded scan
/// with anything that is no row before and behind, in an open one with the rows
/// first and something that is no row, or nothing, behind.
pub proof fn a_block_of_rows_is_read_as_its_rows(
    lines: Seq<Seq<char>>,
    start: int,
    i: int,
    rows: Seq<RowView>,
    end: Option<usize>,
)
    requires
        rows_fit(rows),
        0 <= start <= i,
        stands(lines, i, stacked(rows)),
        i + stacked(rows).len() <= source::limit_of(lines, end) <= lines.len(),
        end is Some ==> (forall|k: int| start <= k < i ==> no_row(#[trigger] lines[k])) && (
        forall|k: int|
            i + stacked(rows).len() <= k < source::limit_of(lines, end) ==> no_row(
                #[trigger] lines[k],
            )),
        end is None ==> start == i && (i + stacked(rows).len() < lines.len() ==> no_row(
            lines[i + stacked(rows).len()],
        )),
    ensures
        source::rows_in(lines, start, end) == rows,
{
    let limit = source::limit_of(lines, end);
    let behind = i + stacked(rows).len();
    written_rows_are_read_back(lines, i, rows, limit, end is Some);
    if end is Some {
        lemma_prose_passed(lines, start, i, limit);
        lemma_prose_passed(lines, behind, limit, limit);
    }
    assert(source::rows_from(lines, behind, limit, end is Some, Seq::empty()) =~= Seq::<
        RowView,
    >::empty()) by {
        if end is Some {
            assert(source::rows_from(lines, limit, limit, true, Seq::empty()) == Seq::<
                RowView,
            >::empty());
        }
    }
    assert(rows + Seq::<RowView>::empty() =~= rows);
}

} // verus!
