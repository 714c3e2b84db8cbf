//! Putting what was found on a file's lines into the order of the lines.
use vstd::prelude::*;

verus! {

/// The place of the first item at or behind `i` that does not stand above
/// `line`; the end where there is none.
pub open spec fn first_not_above<T>(s: Seq<(int, T)>, line: int, i: int) -> int
    decreases s.len() - i,
{
    if i < 0 || i >= s.len() || line <= s[i].0 {
        i
    } else {
        first_not_above(s, line, i + 1)
    }
}

/// The items by the lines they stand on, those of one line in the order in
/// which they were found.
pub open spec fn by_line<T>(s: Seq<(int, T)>) -> Seq<(int, T)>
    decreases s.len(),
{
    if s.len() == 0 {
        s
    } else {
        let rest = by_line(s.skip(1));
        rest.insert(first_not_above(rest, s[0].0, 0), s[0])
    }
}

/// Items that stand in order stay as they are.
pub proof fn lemma_by_line_in_order<T>(s: Seq<(int, T)>)
    requires
        in_order(s),
    ensures
        by_line(s) == s,
    decreases s.len(),
{
    if s.len() > 0 {
        let rest = s.skip(1);
        assert forall|i: int, j: int| 0 <= i < j < rest.len() implies (#[trigger] rest[i]).0 <= (
        #[trigger] rest[j]).0 by {
            assert(rest[i] == s[i + 1] && rest[j] == s[j + 1]);
        }
        lemma_by_line_in_order(rest);
        if rest.len() > 0 {
            assert(rest[0] == s[1]);
            assert(s[0].0 <= s[1].0);
        }
        assert(first_not_above(rest, s[0].0, 0) == 0);
        assert(rest.insert(0, s[0]) =~= s);
    }
}

/// The items with their lines as mathematical integers.
pub open spec fn keyed<T>(v: Seq<(usize, T)>) -> Seq<(int, T)> {
    v.map_values(|p: (usize, T)| (p.0 as int, p.1))
}

/// Whether no item stands above the one before it.
pub open spec fn in_order<T>(s: Seq<(int, T)>) -> bool {
    forall|i: int, j: int| 0 <= i < j < s.len() ==> (#[trigger] s[i]).0 <= (#[trigger] s[j]).0
}

/// The items that stand on a given line.
pub open spec fn on_line<T>(s: Seq<(int, T)>, line: int) -> Seq<(int, T)>
    decreases s.len(),
{
    if s.len() == 0 {
        s
    } else if s[0].0 == line {
        seq![s[0]] + on_line(s.skip(1), line)
    } else {
        on_line(s.skip(1), line)
    }
}

pub proof fn lemma_first_not_above<T>(s: Seq<(int, T)>, line: int, i: int)
    requires
        0 <= i <= s.len(),
    ensures
        i <= first_not_above(s, line, i) <= s.len(),
        forall|j: int| i <= j < first_not_above(s, line, i) ==> (#[trigger] s[j]).0 < line,
        first_not_above(s, line, i) < s.len() ==> line <= s[first_not_above(s, line, i)].0,
    decreases s.len() - i,
{
    if i < s.len() && line > s[i].0 {
        lemma_first_not_above(s, line, i + 1);
    }
}

proof fn lemma_on_line_insert<T>(s: Seq<(int, T)>, n: int, x: (int, T), line: int)
    requires
        0 <= n <= s.len(),
        forall|j: int| 0 <= j < n ==> (#[trigger] s[j]).0 < x.0,
    ensures
        on_line(s.insert(n, x), line) == (if x.0 == line {
            seq![x] + on_line(s, line)
        } else {
            on_line(s, line)
        }),
    decreases n,
{
    let t = s.insert(n, x);
    if n == 0 {
        assert(t.skip(1) == s);
    } else {
        assert(t[0] == s[0]);
        assert(t.skip(1) == s.skip(1).insert(n - 1, x));
        assert forall|j: int| 0 <= j < n - 1 implies (#[trigger] s.skip(1)[j]).0 < x.0 by {
            assert(s.skip(1)[j] == s[j + 1]);
        }
        lemma_on_line_insert(s.skip(1), n - 1, x, line);
    }
}

/// Putting items in the order of their lines keeps them all, puts none above
/// one of a line before its own, and changes nothing among those of one line.
pub proof fn items_are_ordered_by_line<T>(s: Seq<(int, T)>)
    ensures
        in_order(by_line(s)),
        by_line(s).to_multiset() == s.to_multiset(),
        by_line(s).len() == s.len(),
        forall|line: int| #[trigger] on_line(by_line(s), line) == on_line(s, line),
    decreases s.len(),
{
    broadcast use vstd::seq_lib::group_to_multiset_ensures;

    if s.len() > 0 {
        let rest = by_line(s.skip(1));
        items_are_ordered_by_line(s.skip(1));
        let n = first_not_above(rest, s[0].0, 0);
        lemma_first_not_above(rest, s[0].0, 0);
        let all = rest.insert(n, s[0]);
        assert forall|i: int, j: int| 0 <= i < j < all.len() implies (#[trigger] all[i]).0 <= (
        #[trigger] all[j]).0 by {
            if i < n && j > n {
                assert(all[i] == rest[i] && all[j] == rest[j - 1]);
            } else if i < n && j < n {
                assert(all[i] == rest[i] && all[j] == rest[j]);
            } else if i < n {
                assert(all[i] == rest[i]);
            } else if i == n {
                assert(all[j] == rest[j - 1]);
                if n < j - 1 {
                    assert(rest[n].0 <= rest[j - 1].0);
                }
            } else {
                assert(all[i] == rest[i - 1] && all[j] == rest[j - 1]);
            }
        }
        assert(all.to_multiset() == rest.to_multiset().insert(s[0]));
        assert(s == seq![s[0]] + s.skip(1));
        assert(s == s.skip(1).insert(0, s[0]));
        assert(s.to_multiset() == s.skip(1).to_multiset().insert(s[0]));
        assert forall|line: int| #[trigger] on_line(all, line) == on_line(s, line) by {
            lemma_on_line_insert(rest, n, s[0], line);
            assert(on_line(rest, line) == on_line(s.skip(1), line));
        }
    }
}

/// The order depends on the lines alone.
pub proof fn lemma_by_line_map<T, U>(s: Seq<(int, T)>, f: spec_fn(T) -> U)
    ensures
        by_line(s.map_values(|p: (int, T)| (p.0, f(p.1)))) == by_line(s).map_values(
            |p: (int, T)| (p.0, f(p.1)),
        ),
    decreases s.len(),
{
    let g = |p: (int, T)| (p.0, f(p.1));
    if s.len() > 0 {
        let m = s.map_values(g);
        lemma_by_line_map(s.skip(1), f);
        assert(m.skip(1) == s.skip(1).map_values(g));
        let rest = by_line(s.skip(1));
        lemma_first_not_above(rest, s[0].0, 0);
        lemma_first_map(rest, f, s[0].0, 0);
        let n = first_not_above(rest, s[0].0, 0);
        assert(rest.map_values(g).insert(n, m[0]) == rest.insert(n, s[0]).map_values(g));
    } else {
        assert(s.map_values(g) == Seq::<(int, U)>::empty());
        assert(by_line(s).map_values(g) == Seq::<(int, U)>::empty());
    }
}

proof fn lemma_first_map<T, U>(s: Seq<(int, T)>, f: spec_fn(T) -> U, line: int, i: int)
    ensures
        first_not_above(s.map_values(|p: (int, T)| (p.0, f(p.1))), line, i) == first_not_above(
            s,
            line,
            i,
        ),
    decreases s.len() - i,
{
    if 0 <= i < s.len() && line > s[i].0 {
        lemma_first_map(s, f, line, i + 1);
    }
}

/// Sorts what was found on a file's lines by the lines; stable.
pub(crate) fn sort_by_line<T>(v: Vec<(usize, T)>) -> (r: Vec<(usize, T)>)
    ensures
        keyed(r@) == by_line(keyed(v@)),
{
    let ghost all = keyed(v@);
    let mut left = v;
    let mut out: Vec<(usize, T)> = Vec::new();
    assert(keyed(out@) == by_line(all.skip(all.len() as int)));
    while left.len() > 0
        invariant
            left.len() <= all.len(),
            keyed(left@) == all.take(left.len() as int),
            keyed(out@) == by_line(all.skip(left.len() as int)),
        decreases left.len(),
    {
        let ghost n = left.len() as int;
        let ghost rest = keyed(out@);
        if let Some(x) = left.pop() {
            let line: usize = x.0;
            let mut i: usize = 0;
            while i < out.len() && out[i].0 < line
                invariant
                    i <= out.len(),
                    rest == keyed(out@),
                    first_not_above(rest, line as int, 0) == first_not_above(
                        rest,
                        line as int,
                        i as int,
                    ),
                decreases out.len() - i,
            {
                assert(rest[i as int].0 == out@[i as int].0);
                i += 1;
            }
            if i < out.len() {
                assert(rest[i as int].0 == out@[i as int].0);
            }
            let ghost before = out@;
            out.insert(i, x);
            proof {
                assert(all.take(n)[n - 1] == all[n - 1]);
                assert(all[n - 1] == (x.0 as int, x.1));
                assert(all.skip(n - 1).skip(1) == all.skip(n));
                assert(all.skip(n - 1)[0] == all[n - 1]);
                assert(keyed(out@) == rest.insert(i as int, (x.0 as int, x.1)));
                assert(keyed(left@) == all.take(n - 1));
            }
        }
    }
    assert(all.skip(0) == all);
    out
}

} // verus!
