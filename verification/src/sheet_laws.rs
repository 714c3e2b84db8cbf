//! The comments of a file laid out block by block are read back.
//!
//! A request's part of a file is a sequence of slabs below its first line: each
//! a block with the comments that stand before it. What the scan makes of such a
//! file depends on little of what the blocks hold, and is worked out here for
//! any blocks.
use vstd::prelude::*;

use crate::block_laws;
use crate::comment_scan;
use crate::comment_scan::{RowKind, Window};
use crate::entry::{CommentAnchor, CommentView};
use crate::source;
use crate::text;

verus! {

// ---------------------------------------------------------------------------
// Slabs
// ---------------------------------------------------------------------------
/// A block, and the comments that stand before it.
#[verifier::ext_equal]
pub struct Slab {
    pub anchor: CommentAnchor,
    pub prose: Seq<Seq<char>>,
    pub own: Seq<Seq<char>>,
}

impl Slab {
    /// The slab's lines.
    pub open spec fn lines(self) -> Seq<Seq<char>> {
        self.prose + self.own
    }

    /// Its comments.
    pub open spec fn comments(self) -> Seq<CommentView> {
        self.prose.map_values(|l: Seq<char>| CommentView { anchor: self.anchor, text: l })
    }
}

/// The lines of some slabs.
pub open spec fn laid(slabs: Seq<Slab>) -> Seq<Seq<char>>
    decreases slabs.len(),
{
    if slabs.len() == 0 {
        Seq::empty()
    } else {
        laid(slabs.drop_last()) + slabs.last().lines()
    }
}

/// The comments of some slabs.
pub open spec fn gathered(slabs: Seq<Slab>) -> Seq<CommentView>
    decreases slabs.len(),
{
    if slabs.len() == 0 {
        Seq::empty()
    } else {
        gathered(slabs.drop_last()) + slabs.last().comments()
    }
}

/// Where the `k`-th slab begins, and where it is over, counted from the first.
pub open spec fn slab_at(slabs: Seq<Slab>, k: int) -> int {
    laid(slabs.take(k)).len() as int
}

/// Where the `k`-th block begins.
pub open spec fn own_at(slabs: Seq<Slab>, k: int) -> int {
    slab_at(slabs, k) + slabs[k].prose.len()
}

/// Whether a block is there to be found by the parser: it is not empty, and not
/// the headers, which nothing announces.
pub open spec fn announced(s: Slab) -> bool {
    s.own.len() > 0 && !(s.anchor is Headers)
}

/// Where a block's landmark stands in a file whose first slab begins on line
/// `base`: on its first line, but for the response's headers, whose landmark
/// stands below the response's line.
pub open spec fn mark_at(slabs: Seq<Slab>, base: int, k: int) -> int {
    if slabs[k].anchor is ResponseHeaders {
        base + slab_at(slabs, k)
    } else {
        base + own_at(slabs, k)
    }
}

/// The landmarks of the first `n` blocks.
pub open spec fn marks(slabs: Seq<Slab>, base: int, n: int) -> Seq<(int, CommentAnchor)>
    decreases n,
{
    if n <= 0 {
        Seq::empty()
    } else if announced(slabs[n - 1]) {
        marks(slabs, base, n - 1).push((mark_at(slabs, base, n - 1), slabs[n - 1].anchor))
    } else {
        marks(slabs, base, n - 1)
    }
}

/// A slab's lines stand behind those of the slabs before it.
pub proof fn lemma_laid_take(slabs: Seq<Slab>, k: int)
    requires
        0 <= k < slabs.len(),
    ensures
        laid(slabs.take(k + 1)) == laid(slabs.take(k)) + slabs[k].lines(),
        slab_at(slabs, k + 1) == own_at(slabs, k) + slabs[k].own.len(),
{
    assert(slabs.take(k + 1).drop_last() =~= slabs.take(k));
    assert(slabs.take(k + 1).last() == slabs[k]);
}

/// Slabs come one behind the other.
pub proof fn lemma_slabs_rise(slabs: Seq<Slab>, j: int, k: int)
    requires
        0 <= j <= k <= slabs.len(),
    ensures
        0 <= slab_at(slabs, j) <= slab_at(slabs, k),
        slab_at(slabs, slabs.len() as int) == laid(slabs).len(),
    decreases k - j,
{
    assert(slabs.take(slabs.len() as int) =~= slabs);
    if j < k {
        lemma_laid_take(slabs, j);
        lemma_slabs_rise(slabs, j + 1, k);
    }
}

/// Where the slabs stand, each of them does.
pub proof fn lemma_slab_stands(lines: Seq<Seq<char>>, base: int, slabs: Seq<Slab>, k: int)
    requires
        block_laws::stands(lines, base, laid(slabs)),
        0 <= k < slabs.len(),
    ensures
        block_laws::stands(lines, base + slab_at(slabs, k), slabs[k].prose),
        block_laws::stands(lines, base + own_at(slabs, k), slabs[k].own),
    decreases slabs.len(),
{
    let front = slabs.drop_last();
    block_laws::lemma_stands_parts(lines, base, laid(front), slabs.last().lines());
    if k < front.len() {
        lemma_slab_stands(lines, base, front, k);
        assert(front.take(k) =~= slabs.take(k));
        assert(front[k] == slabs[k]);
    } else {
        assert(slabs.take(k) =~= front);
        block_laws::lemma_stands_parts(
            lines,
            base + laid(front).len(),
            slabs[k].prose,
            slabs[k].own,
        );
    }
}

// ---------------------------------------------------------------------------
// Landmarks
// ---------------------------------------------------------------------------
/// A landmark stands inside its slab, and before the block's second line.
pub proof fn lemma_mark_inside(slabs: Seq<Slab>, base: int, k: int)
    requires
        0 <= k < slabs.len(),
        announced(slabs[k]),
    ensures
        base + slab_at(slabs, k) <= mark_at(slabs, base, k) <= base + own_at(slabs, k),
        mark_at(slabs, base, k) < base + slab_at(slabs, k + 1),
{
    lemma_laid_take(slabs, k);
}

/// The landmarks of the first `n` blocks stand in their slabs, one behind the
/// other; those of the first `j` come first.
pub proof fn lemma_marks(slabs: Seq<Slab>, base: int, n: int)
    requires
        0 <= n <= slabs.len(),
    ensures
        forall|m: int|
            0 <= m < marks(slabs, base, n).len() ==> base <= (#[trigger] marks(
                slabs,
                base,
                n,
            )[m]).0 < base + slab_at(slabs, n),
        forall|a: int, b: int|
            0 <= a < b < marks(slabs, base, n).len() ==> (#[trigger] marks(slabs, base, n)[a]).0 < (
            #[trigger] marks(slabs, base, n)[b]).0,
    decreases n,
{
    if n > 0 {
        lemma_marks(slabs, base, n - 1);
        lemma_slabs_rise(slabs, n - 1, n);
        lemma_slabs_rise(slabs, 0, n - 1);
        let front = marks(slabs, base, n - 1);
        let all = marks(slabs, base, n);
        if announced(slabs[n - 1]) {
            lemma_mark_inside(slabs, base, n - 1);
            assert forall|m: int| 0 <= m < all.len() implies base <= (#[trigger] all[m]).0 < base
                + slab_at(slabs, n) by {
                if m < front.len() {
                    assert(all[m] == front[m]);
                }
            }
            assert forall|a: int, b: int| 0 <= a < b < all.len() implies (#[trigger] all[a]).0 < (
            #[trigger] all[b]).0 by {
                assert(all[a] == front[a]);
                if b < front.len() {
                    assert(all[b] == front[b]);
                }
            }
        }
    }
}

pub proof fn lemma_marks_prefix(slabs: Seq<Slab>, base: int, j: int, n: int)
    requires
        0 <= j <= n <= slabs.len(),
    ensures
        marks(slabs, base, j).len() <= marks(slabs, base, n).len(),
        marks(slabs, base, n).take(marks(slabs, base, j).len() as int) == marks(slabs, base, j),
        forall|m: int|
            marks(slabs, base, j).len() <= m < marks(slabs, base, n).len() ==> base + slab_at(
                slabs,
                j,
            ) <= (#[trigger] marks(slabs, base, n)[m]).0,
    decreases n - j,
{
    let few = marks(slabs, base, j);
    let all = marks(slabs, base, n);
    if j < n {
        lemma_marks_prefix(slabs, base, j, n - 1);
        let front = marks(slabs, base, n - 1);
        lemma_slabs_rise(slabs, j, n - 1);
        assert(all.take(few.len() as int) =~= front.take(few.len() as int));
        assert forall|m: int| few.len() <= m < all.len() implies base + slab_at(slabs, j) <= (
        #[trigger] all[m]).0 by {
            if m < front.len() {
                assert(all[m] == front[m]);
            } else {
                lemma_mark_inside(slabs, base, n - 1);
            }
        }
    } else {
        assert(all.take(few.len() as int) =~= few);
    }
}

/// A window that shows slabs from line `base` on.
pub open spec fn shows(w: Window, slabs: Seq<Slab>, base: int) -> bool {
    &&& w.method + 1 == base
    &&& 0 <= w.method
    &&& base + laid(slabs).len() <= w.end <= w.lines.len()
    &&& block_laws::stands(w.lines, base, laid(slabs))
    &&& w.landmarks == marks(slabs, base, slabs.len() as int)
    &&& slabs.len() > 0
    &&& slabs[0].anchor is Headers
    &&& forall|k: int| 0 < k < slabs.len() ==> !((#[trigger] slabs[k]).anchor is Headers)
    &&& forall|k: int| 0 <= k < slabs.len() && (#[trigger] slabs[k]).own.len() == 0 ==> slabs[k].prose.len() == 0
}

/// The landmark behind the first `k` slabs is that of the next block there is,
/// with nothing but its own comments before it.
pub proof fn lemma_next_mark(slabs: Seq<Slab>, base: int, k: int, n: int) -> (next: int)
    requires
        0 < k <= n <= slabs.len(),
        forall|j: int| 0 < j < slabs.len() ==> !((#[trigger] slabs[j]).anchor is Headers),
        forall|j: int|
            0 <= j < slabs.len() && (#[trigger] slabs[j]).own.len() == 0 ==> slabs[j].prose.len()
                == 0,
    ensures
        k <= next <= n,
        slab_at(slabs, next) == slab_at(slabs, k),
        marks(slabs, base, next) == marks(slabs, base, k),
        next < n ==> announced(slabs[next]) && marks(slabs, base, k).len() < marks(
            slabs,
            base,
            n,
        ).len() && marks(slabs, base, n)[marks(slabs, base, k).len() as int] == (
            mark_at(slabs, base, next),
            slabs[next].anchor,
        ),
        next == n ==> marks(slabs, base, n) == marks(slabs, base, k),
    decreases n - k,
{
    if k == n {
        k
    } else if announced(slabs[k]) {
        let i = marks(slabs, base, k).len() as int;
        lemma_marks_prefix(slabs, base, k + 1, n);
        assert(marks(slabs, base, n).take(i + 1)[i] == marks(slabs, base, k + 1)[i]);
        k
    } else {
        lemma_laid_take(slabs, k);
        lemma_next_mark(slabs, base, k + 1, n)
    }
}

/// The block of a line is the one whose lines it is among.
proof fn lemma_block_of(w: Window, slabs: Seq<Slab>, base: int, k: int, i: int, n: int)
    requires
        shows(w, slabs, base),
        0 <= k < n <= slabs.len(),
        slabs[k].own.len() > 0,
        base + own_at(slabs, k) <= i < base + slab_at(slabs, k + 1),
    ensures
        w.block_of(i, marks(slabs, base, n).len() as int) == slabs[k].anchor,
    decreases n,
{
    let all = w.landmarks;
    lemma_marks_prefix(slabs, base, n, slabs.len() as int);
    lemma_marks_prefix(slabs, base, n - 1, slabs.len() as int);
    let some = marks(slabs, base, n);
    let fewer = marks(slabs, base, n - 1);
    if n - 1 > k {
        lemma_block_of(w, slabs, base, k, i, n - 1);
        if announced(slabs[n - 1]) {
            lemma_mark_inside(slabs, base, n - 1);
            lemma_slabs_rise(slabs, k + 1, n - 1);
            assert(all.take(some.len() as int)[some.len() - 1] == some[some.len() - 1]);
        }
    } else if k > 0 {
        lemma_mark_inside(slabs, base, k);
        assert(all.take(some.len() as int)[some.len() - 1] == some[some.len() - 1]);
    } else {
        assert(some.len() == 0);
    }
}

// ---------------------------------------------------------------------------
// Rows
// ---------------------------------------------------------------------------
/// Whether none of some lines is a row or a note.
pub open spec fn no_rows(lines: Seq<Seq<char>>) -> bool {
    forall|i: int| 0 <= i < lines.len() ==> block_laws::no_row(#[trigger] lines[i])
}

/// Whether rows are read behind the last of the first `k` blocks that is there:
/// behind the headers, which need not be there, or behind a block of rows.
pub open spec fn ends_in_rows(slabs: Seq<Slab>, k: int) -> bool
    decreases k,
{
    if k <= 1 {
        true
    } else if announced(slabs[k - 1]) {
        !(comment_scan::rows_of_block(slabs[k - 1].anchor) is Nothing)
    } else {
        ends_in_rows(slabs, k - 1)
    }
}

/// A line that is no row or note is not taken for one.
pub proof fn lemma_prose_is_no_row(w: Window, i: int)
    requires
        block_laws::no_row(w.lines[i]),
    ensures
        !w.is_row(i),
{
}

/// Behind a block that has no rows, and before the next block that is there,
/// nothing is taken for a row.
pub proof fn lemma_no_rows_there(w: Window, slabs: Seq<Slab>, base: int, k: int, i: int)
    requires
        shows(w, slabs, base),
        0 < k <= slabs.len(),
        !ends_in_rows(slabs, k),
        base + slab_at(slabs, k) <= i < w.end,
        forall|m: int|
            marks(slabs, base, k).len() <= m < w.landmarks.len() ==> i < (
            #[trigger] w.landmarks[m]).0,
    ensures
        !w.is_row(i),
{
    let all = w.landmarks;
    let some = marks(slabs, base, k);
    lemma_marks_prefix(slabs, base, k, slabs.len() as int);
    lemma_marks(slabs, base, k);
    lemma_last_mark(slabs, base, k);
    let n = some.len() as int;
    assert forall|m: int| 0 <= m < n implies all[m] == #[trigger] some[m] by {
        assert(all.take(n)[m] == some[m]);
    }
    assert(all[0] == some[0]);
    assert(w.mark(0) <= i);
    assert forall|m: int| 0 <= m < all.len() implies !(#[trigger] w.is_row_of(i, m)) by {
        if m < n - 1 {
            assert(some[m + 1].0 < base + slab_at(slabs, k));
            assert(all[m + 1] == some[m + 1]);
        } else if m == n - 1 {
            assert(all[m] == some[m]);
        } else {
            assert(i < all[m].0);
        }
    }
}

/// The last of the first `k` landmarks is of a block without rows, where that
/// is the last block.
proof fn lemma_last_mark(slabs: Seq<Slab>, base: int, k: int)
    requires
        0 < k <= slabs.len(),
        !ends_in_rows(slabs, k),
    ensures
        marks(slabs, base, k).len() > 0,
        comment_scan::rows_of_block(marks(slabs, base, k).last().1) is Nothing,
    decreases k,
{
    if k > 1 && !announced(slabs[k - 1]) {
        lemma_last_mark(slabs, base, k - 1);
    }
}

/// A line of a block that carries a row of the block's kind is taken for one,
/// but for the line that announces the block.
pub proof fn lemma_own_is_row(w: Window, slabs: Seq<Slab>, base: int, k: int, i: int)
    requires
        shows(w, slabs, base),
        0 <= k < slabs.len(),
        slabs[k].own.len() > 0,
        base + own_at(slabs, k) <= i < base + slab_at(slabs, k + 1),
        slabs[k].anchor is Headers ==> comment_scan::carries_row(w.lines[i], RowKind::Kv),
        !(slabs[k].anchor is Headers) ==> comment_scan::carries_row(
            w.lines[i],
            comment_scan::rows_of_block(slabs[k].anchor),
        ),
        slabs[k].anchor is Headers || slabs[k].anchor is ResponseHeaders || base + own_at(slabs, k)
            < i,
    ensures
        w.is_row(i),
{
    let n = slabs.len() as int;
    let all = w.landmarks;
    lemma_slabs_rise(slabs, k + 1, n);
    lemma_slabs_rise(slabs, 0, k);
    assert(slabs.take(n) =~= slabs);
    if k == 0 {
        lemma_marks_prefix(slabs, base, 1, n);
        let few = marks(slabs, base, 1);
        assert(marks(slabs, base, 0).len() == 0);
        assert(few.len() == 0);
        if all.len() > 0 {
            assert(base + slab_at(slabs, 1) <= all[0].0);
        }
        assert(w.mark(0) > i);
        assert(w.method < i);
    } else {
        assert(announced(slabs[k]));
        lemma_mark_inside(slabs, base, k);
        lemma_marks_prefix(slabs, base, k + 1, n);
        let upto = marks(slabs, base, k + 1);
        let m = upto.len() - 1;
        assert(all.take(upto.len() as int)[m] == upto[m]);
        assert(all[m] == (mark_at(slabs, base, k), slabs[k].anchor));
        assert(w.rows_begin(m) <= i);
        if m + 1 < all.len() {
            assert(base + slab_at(slabs, k + 1) <= all[m + 1].0);
        }
        assert(w.mark(m + 1) > i);
        assert(w.is_row_of(i, m));
    }
}

// ---------------------------------------------------------------------------
// Comments
// ---------------------------------------------------------------------------
/// Whether a line is a comment without white space around it, and not the marker
/// of report fields.
pub open spec fn is_prose(l: Seq<char>) -> bool {
    source::is_comment(l) && text::trimmed(l) == l && !source::is_reports_line(l)
}

/// Whether each of some lines is prose.
pub open spec fn all_prose(lines: Seq<Seq<char>>) -> bool {
    forall|i: int| 0 <= i < lines.len() ==> is_prose(#[trigger] lines[i])
}

/// Whether line `i` stands before the `k`-th block.
pub open spec fn in_prose(slabs: Seq<Slab>, base: int, k: int, i: int) -> bool {
    0 <= k < slabs.len() && base + slab_at(slabs, k) <= i < base + own_at(slabs, k)
}

/// Whether line `i` stands in the `k`-th block.
pub open spec fn in_block(slabs: Seq<Slab>, base: int, k: int, i: int) -> bool {
    0 <= k < slabs.len() && base + own_at(slabs, k) <= i < base + slab_at(slabs, k + 1)
}

/// Whether line `i` is a comment that is part of no body and carries no row.
pub open spec fn hides_comment(w: Window, i: int) -> bool {
    source::is_comment(w.lines[i]) && !w.in_body(i) && !w.is_row(i)
}

/// A window whose slabs are as they should be: comments before the blocks are
/// prose, part of no body and no report fields, and not taken for rows, and the
/// blocks' own lines are structural and hide no comment.
pub open spec fn reads_well(w: Window, slabs: Seq<Slab>, base: int) -> bool {
    &&& shows(w, slabs, base)
    &&& source::is_content(w.lines[w.method])
    &&& forall|k: int| 0 <= k < slabs.len() ==> all_prose((#[trigger] slabs[k]).prose)
    &&& forall|k: int, i: int| #[trigger]
        in_prose(slabs, base, k, i) ==> !w.in_body(i) && !w.is_row(i) && !w.in_reports(i)
    &&& forall|k: int, i: int| #[trigger]
        in_block(slabs, base, k, i) ==> w.is_structural(i) && !hides_comment(w, i)
    &&& forall|i: int|
        #![trigger w.in_next_title(i)]
        w.method <= i < base + laid(slabs).len() ==> !w.in_next_title(i)
}

/// The block below a comment before a block is that block.
proof fn lemma_block_below(w: Window, slabs: Seq<Slab>, base: int, k: int, i: int)
    requires
        reads_well(w, slabs, base),
        0 <= k < slabs.len(),
        slabs[k].own.len() > 0,
        base + slab_at(slabs, k) <= i <= base + own_at(slabs, k),
    ensures
        w.block_below(i) == slabs[k].anchor,
    decreases base + own_at(slabs, k) - i,
{
    lemma_laid_take(slabs, k);
    lemma_slabs_rise(slabs, k + 1, slabs.len() as int);
    lemma_slabs_rise(slabs, 0, k);
    if i < base + own_at(slabs, k) {
        lemma_slab_stands(w.lines, base, slabs, k);
        block_laws::lemma_stands_at(
            w.lines,
            base + slab_at(slabs, k),
            slabs[k].prose,
            i - base - slab_at(slabs, k),
        );
        assert(all_prose(slabs[k].prose));
        assert(is_prose(w.lines[i]));
        assert(in_prose(slabs, base, k, i));
        assert(!w.is_structural(i));
        lemma_block_below(w, slabs, base, k, i + 1);
    } else {
        assert(in_block(slabs, base, k, i));
        lemma_block_of(w, slabs, base, k, i, slabs.len() as int);
    }
}

/// The comments of a slab are those before its block.
proof fn lemma_slab_comments(w: Window, slabs: Seq<Slab>, base: int, k: int, j: int)
    requires
        reads_well(w, slabs, base),
        0 <= k < slabs.len(),
        0 <= j <= slabs[k].lines().len(),
    ensures
        w.comments_from(base + slab_at(slabs, k) + j) == slabs[k].comments().skip(
            if j < slabs[k].prose.len() {
                j
            } else {
                slabs[k].prose.len() as int
            },
        ) + w.comments_from(base + slab_at(slabs, k + 1)),
    decreases slabs[k].lines().len() - j,
{
    let s = slabs[k];
    let i = base + slab_at(slabs, k) + j;
    let n = s.prose.len() as int;
    let rest = w.comments_from(base + slab_at(slabs, k + 1));
    lemma_laid_take(slabs, k);
    lemma_slabs_rise(slabs, k + 1, slabs.len() as int);
    lemma_slabs_rise(slabs, 0, k);
    assert(s.comments().len() == n);
    if j == s.lines().len() {
        assert(s.comments().skip(n) + rest =~= rest);
    } else {
        lemma_slab_comments(w, slabs, base, k, j + 1);
        lemma_slab_stands(w.lines, base, slabs, k);
        assert(!w.in_next_title(i));
        if j < n {
            block_laws::lemma_stands_at(w.lines, base + slab_at(slabs, k), s.prose, j);
            assert(all_prose(s.prose));
            assert(is_prose(w.lines[i]));
            assert(in_prose(slabs, base, k, i));
            assert(w.is_loose(i));
            assert(s.own.len() > 0);
            lemma_block_below(w, slabs, base, k, i + 1);
            let c = CommentView { anchor: s.anchor, text: s.prose[j] };
            assert(s.comments().skip(j) =~= seq![c] + s.comments().skip(j + 1));
            if j + 1 == n {
                assert(s.comments().skip(j + 1) =~= s.comments().skip(n));
            }
            assert(s.comments().skip(j) + rest =~= seq![c] + (s.comments().skip(j + 1) + rest));
        } else {
            assert(in_block(slabs, base, k, i));
            assert(!w.is_loose(i));
            assert(s.comments().skip(n) + rest =~= rest);
        }
    }
}

/// The comments of all slabs are read, and then what stands behind them.
pub proof fn comments_of_slabs_are_read_back(w: Window, slabs: Seq<Slab>, base: int, k: int)
    requires
        reads_well(w, slabs, base),
        0 <= k <= slabs.len(),
    ensures
        w.comments_from(w.method) == gathered(slabs.take(k)) + w.comments_from(
            base + slab_at(slabs, k),
        ),
    decreases k,
{
    if k == 0 {
        assert(!w.is_loose(w.method));
        assert(slabs.take(0) =~= Seq::<Slab>::empty());
        lemma_slabs_rise(slabs, 0, slabs.len() as int);
        assert(w.comments_from(w.method) == w.comments_from(base));
        assert(gathered(slabs.take(0)) + w.comments_from(base) =~= w.comments_from(base));
    } else {
        comments_of_slabs_are_read_back(w, slabs, base, k - 1);
        lemma_slab_comments(w, slabs, base, k - 1, 0);
        let s = slabs[k - 1];
        assert(slabs.take(k).drop_last() =~= slabs.take(k - 1));
        assert(slabs.take(k).last() == s);
        assert(s.comments().skip(0) =~= s.comments());
        let rest = w.comments_from(base + slab_at(slabs, k));
        assert(gathered(slabs.take(k)) + rest =~= gathered(slabs.take(k - 1)) + (s.comments()
            + rest));
    }
}

/// The comments behind everything else are read back: what stands between the
/// blocks and them is none, and what stands below them is neither comment of the
/// request's nor structural.
pub proof fn comments_below_are_read_back(
    w: Window,
    i: int,
    tail: Seq<Seq<char>>,
    t: int,
)
    requires
        0 <= w.method <= i <= t + tail.len() <= w.end <= w.lines.len(),
        block_laws::stands(w.lines, t, tail),
        all_prose(tail),
        forall|j: int| i <= j < t ==> !(#[trigger] w.is_loose(j)),
        forall|j: int| t <= j < t + tail.len() ==> !(#[trigger] w.in_body(j)),
        forall|j: int| t <= j < t + tail.len() ==> !(#[trigger] w.is_row(j)),
        forall|j: int| t <= j < t + tail.len() ==> !(#[trigger] w.in_reports(j)),
        forall|j: int| t <= j < t + tail.len() ==> !(#[trigger] w.in_next_title(j)),
        forall|j: int| t + tail.len() <= j < w.end ==> !(#[trigger] w.is_loose(j)),
        tail.len() > 0 ==> forall|j: int|
            t + tail.len() <= j < w.end ==> !(#[trigger] w.is_structural(j)),
    ensures
        w.comments_from(i) == tail.skip(
            if i <= t {
                0
            } else {
                i - t
            },
        ).map_values(|l: Seq<char>| CommentView { anchor: CommentAnchor::Trailing, text: l }),
    decreases t + tail.len() - i,
{
    let f = |l: Seq<char>| CommentView { anchor: CommentAnchor::Trailing, text: l };
    let e = t + tail.len();
    if i == e {
        lemma_nothing_below(w, i);
        if i <= t {
            assert(tail.skip(0).map_values(f) =~= Seq::<CommentView>::empty());
        } else {
            assert(tail.skip(i - t).map_values(f) =~= Seq::<CommentView>::empty());
        }
    } else {
        comments_below_are_read_back(w, i + 1, tail, t);
        let l = w.lines[i];
        if i >= t {
            block_laws::lemma_stands_at(w.lines, t, tail, i - t);
            assert(is_prose(tail[i - t]));
            assert(!w.in_body(i) && !w.is_row(i) && !w.in_reports(i) && !w.in_next_title(i));
            assert(w.block_below(i + 1) is Trailing) by {
                lemma_trailing(w, i + 1, tail, t);
            }
            assert(tail.skip(i - t).map_values(f) =~= seq![f(l)] + tail.skip(
                i + 1 - t,
            ).map_values(f));
        } else {
            assert(!w.is_loose(i));
        }
    }
}

proof fn lemma_nothing_below(w: Window, i: int)
    requires
        0 <= i <= w.end <= w.lines.len(),
        forall|j: int| i <= j < w.end ==> !(#[trigger] w.is_loose(j)),
    ensures
        w.comments_from(i) == Seq::<CommentView>::empty(),
    decreases w.end - i,
{
    if i < w.end {
        assert(!w.is_loose(i));
        lemma_nothing_below(w, i + 1);
    }
}

proof fn lemma_trailing(w: Window, i: int, tail: Seq<Seq<char>>, t: int)
    requires
        0 <= t <= i <= w.end <= w.lines.len(),
        t + tail.len() <= w.end,
        block_laws::stands(w.lines, t, tail),
        all_prose(tail),
        forall|j: int| t <= j < t + tail.len() ==> !(#[trigger] w.in_body(j)),
        forall|j: int| t <= j < t + tail.len() ==> !(#[trigger] w.is_row(j)),
        forall|j: int| t + tail.len() <= j < w.end ==> !(#[trigger] w.is_structural(j)),
    ensures
        w.block_below(i) is Trailing,
    decreases w.end - i,
{
    if i < w.end {
        if i < t + tail.len() {
            block_laws::lemma_stands_at(w.lines, t, tail, i - t);
            assert(is_prose(tail[i - t]));
            assert(!w.in_body(i) && !w.is_row(i));
        }
        assert(!w.is_structural(i));
        lemma_trailing(w, i + 1, tail, t);
    }
}

} // verus!
