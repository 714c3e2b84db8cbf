//! What holds of texts and their lines.
use vstd::prelude::*;

use crate::text;

verus! {

// ---------------------------------------------------------------------------
// White space
// ---------------------------------------------------------------------------
/// What is behind the leading white space.
pub proof fn lemma_trimmed_start_is(s: Seq<char>, a: int)
    requires
        0 <= a <= s.len(),
        forall|i: int| 0 <= i < a ==> text::is_white(#[trigger] s[i]),
        a < s.len() ==> !text::is_white(s[a]),
    ensures
        text::trimmed_start(s) == s.skip(a),
    decreases s.len(),
{
    if a > 0 {
        let t = s.drop_first();
        assert forall|i: int| 0 <= i < a - 1 implies text::is_white(#[trigger] t[i]) by {
            assert(t[i] == s[i + 1]);
        }
        assert(text::is_white(s[0]));
        lemma_trimmed_start_is(t, a - 1);
        assert(t.skip(a - 1) == s.skip(a));
    } else {
        assert(s.skip(0) == s);
    }
}

/// What is before the trailing white space.
pub proof fn lemma_trimmed_end_is(s: Seq<char>, b: int)
    requires
        0 <= b <= s.len(),
        forall|i: int| b <= i < s.len() ==> text::is_white(#[trigger] s[i]),
        b > 0 ==> !text::is_white(s[b - 1]),
    ensures
        text::trimmed_end(s) == s.take(b),
    decreases s.len(),
{
    if b < s.len() {
        let t = s.drop_last();
        assert forall|i: int| b <= i < t.len() implies text::is_white(#[trigger] t[i]) by {
            assert(t[i] == s[i]);
        }
        assert(text::is_white(s[s.len() - 1]));
        lemma_trimmed_end_is(t, b);
        assert(t.take(b) == s.take(b));
    } else {
        assert(s.take(b) == s);
    }
}

/// What is between the white space at both ends.
pub proof fn lemma_trimmed_is(s: Seq<char>, a: int, b: int)
    requires
        0 <= a <= b <= s.len(),
        forall|i: int| 0 <= i < a ==> text::is_white(#[trigger] s[i]),
        forall|i: int| b <= i < s.len() ==> text::is_white(#[trigger] s[i]),
        a < b ==> !text::is_white(s[a]) && !text::is_white(s[b - 1]),
        a == b ==> b == s.len(),
    ensures
        text::trimmed(s) == s.subrange(a, b),
{
    lemma_trimmed_start_is(s, a);
    let t = s.skip(a);
    assert forall|i: int| b - a <= i < t.len() implies text::is_white(#[trigger] t[i]) by {
        assert(t[i] == s[i + a]);
    }
    if a < b {
        assert(t[b - a - 1] == s[b - 1]);
    }
    lemma_trimmed_end_is(t, b - a);
    assert(t.take(b - a) == s.subrange(a, b));
}

/// A trimmed text has no white space at either end.
pub proof fn lemma_trimmed_ends(s: Seq<char>)
    requires
        text::trimmed(s) == s,
    ensures
        s.len() > 0 ==> !text::is_white(s[0]) && !text::is_white(s[s.len() - 1]),
{
    text::lemma_trimmed_start(s);
    text::lemma_trimmed_end(text::trimmed_start(s));
}

/// A text without white space at either end is trimmed.
pub proof fn lemma_is_trimmed(s: Seq<char>)
    requires
        s.len() > 0 ==> !text::is_white(s[0]) && !text::is_white(s[s.len() - 1]),
    ensures
        text::trimmed(s) == s,
        text::trimmed_start(s) == s,
        text::trimmed_end(s) == s,
{
    lemma_trimmed_is(s, 0, s.len() as int);
    lemma_trimmed_start_is(s, 0);
    lemma_trimmed_end_is(s, s.len() as int);
    assert(s.subrange(0, s.len() as int) == s);
    assert(s.skip(0) == s);
    assert(s.take(s.len() as int) == s);
}

/// Trimming twice is trimming once.
pub proof fn trimming_twice_is_trimming_once(s: Seq<char>)
    ensures
        text::trimmed(text::trimmed(s)) == text::trimmed(s),
{
    let t = text::trimmed_start(s);
    text::lemma_trimmed_start(s);
    text::lemma_trimmed_end(t);
    let u = text::trimmed(s);
    if u.len() > 0 {
        assert(u[0] == t[0]);
    }
    lemma_is_trimmed(u);
}

// ---------------------------------------------------------------------------
// Lines
// ---------------------------------------------------------------------------
/// Whether a text stays one line when a line feed is put behind it.
pub open spec fn is_line(s: Seq<char>) -> bool {
    !s.contains('\n') && (s.len() > 0 ==> s.last() != '\r')
}

/// Some lines as a text, each with a line feed behind it.
pub open spec fn as_text(lines: Seq<Seq<char>>) -> Seq<char> {
    text::concat(lines.map_values(|l: Seq<char>| l.push('\n')))
}

/// Whether each of some texts stays one line.
pub open spec fn are_lines(lines: Seq<Seq<char>>) -> bool {
    forall|i: int| 0 <= i < lines.len() ==> is_line(#[trigger] lines[i])
}

/// A line is read first of what it stands before.
pub proof fn lemma_line_first(l: Seq<char>, rest: Seq<char>)
    requires
        is_line(l),
    ensures
        text::lines_of(l.push('\n') + rest) == seq![l] + text::lines_of(rest),
{
    let s = l.push('\n') + rest;
    assert forall|j: int| 0 <= j < l.len() implies s[j] != '\n' by {
        assert(s[j] == l[j]);
    }
    text::lemma_find_is(s, '\n', 0, l.len() as int);
    assert(s.take(l.len() as int) == l);
    assert(s.skip(l.len() as int + 1) == rest);
    assert(text::chomped(l) == l);
}

/// Lines put one below the other are read back.
pub proof fn lines_are_read_back(lines: Seq<Seq<char>>, rest: Seq<char>)
    requires
        are_lines(lines),
    ensures
        text::lines_of(as_text(lines) + rest) == lines + text::lines_of(rest),
    decreases lines.len(),
{
    let f = |l: Seq<char>| l.push('\n');
    if lines.len() == 0 {
        assert(as_text(lines) + rest == rest);
        assert(lines + text::lines_of(rest) == text::lines_of(rest));
    } else {
        let front = lines.drop_last();
        let last = lines.last();
        assert(lines.map_values(f).drop_last() == front.map_values(f));
        assert(lines.map_values(f).last() == last.push('\n'));
        let more = last.push('\n') + rest;
        assert(as_text(lines) + rest == as_text(front) + more);
        assert(are_lines(front)) by {
            assert forall|i: int| 0 <= i < front.len() implies is_line(#[trigger] front[i]) by {
                assert(front[i] == lines[i]);
            }
        }
        lines_are_read_back(front, more);
        assert(is_line(lines[lines.len() - 1]));
        lemma_line_first(last, rest);
        assert(lines + text::lines_of(rest) == front + (seq![last] + text::lines_of(rest)));
    }
}

pub proof fn lemma_as_text_add(a: Seq<Seq<char>>, b: Seq<Seq<char>>)
    ensures
        as_text(a + b) == as_text(a) + as_text(b),
{
    let f = |l: Seq<char>| l.push('\n');
    assert((a + b).map_values(f) == a.map_values(f) + b.map_values(f));
    text::lemma_concat_add(a.map_values(f), b.map_values(f));
}

pub proof fn lemma_as_text_one(l: Seq<char>)
    ensures
        as_text(seq![l]) == l.push('\n'),
{
    let f = |l: Seq<char>| l.push('\n');
    let one = seq![l].map_values(f);
    assert(one.drop_last() == Seq::<Seq<char>>::empty());
    reveal_with_fuel(text::concat, 2);
    assert(as_text(seq![l]) == Seq::<char>::empty() + l.push('\n'));
}

/// No line of a text holds a line feed.
pub proof fn lemma_lines_hold_no_feed(s: Seq<char>)
    ensures
        forall|i: int| 0 <= i < text::lines_of(s).len() ==> !(#[trigger] text::lines_of(s)[i]).contains('\n'),
    decreases s.len(),
{
    let n = text::find(s, '\n');
    text::lemma_find_from(s, '\n', 0);
    let all = text::lines_of(s);
    if s.len() == 0 {
    } else if n == s.len() {
        assert forall|i: int| 0 <= i < all.len() implies !(#[trigger] all[i]).contains('\n') by {
            assert(all[i] == s);
        }
    } else {
        let rest = s.skip(n + 1);
        lemma_lines_hold_no_feed(rest);
        assert forall|i: int| 0 <= i < all.len() implies !(#[trigger] all[i]).contains('\n') by {
            if i == 0 {
                assert(all[0] == text::chomped(s.take(n)));
                assert forall|j: int| 0 <= j < all[0].len() implies all[0][j] != '\n' by {
                    assert(all[0][j] == s[j]);
                }
            } else {
                assert(all[i] == text::lines_of(rest)[i - 1]);
            }
        }
    }
}

/// Cutting white space off the end before the beginning makes no difference.
pub proof fn lemma_trim_commutes(s: Seq<char>, n: int)
    requires
        0 <= n <= s.len(),
        forall|i: int| n <= i < s.len() ==> text::is_white(#[trigger] s[i]),
        n > 0 ==> !text::is_white(s[n - 1]),
    ensures
        text::trimmed_start(s.take(n)) == text::trimmed(s),
{
    let t = s.take(n);
    text::lemma_trimmed_start(t);
    let a = n - text::trimmed_start(t).len();
    if a < n {
        assert(t.skip(a)[0] == t[a]);
        assert forall|i: int| 0 <= i < a implies text::is_white(s[i]) by {
            assert(t[i] == s[i]);
        }
        lemma_trimmed_is(s, a, n);
        assert(t.skip(a) =~= s.subrange(a, n));
    } else {
        if n > 0 {
            assert(text::is_white(t[n - 1]));
            assert(t[n - 1] == s[n - 1]);
        }
        let b = s.len() as int;
        lemma_trimmed_is(s, b, b);
        assert(s.subrange(b, b) =~= text::trimmed_start(t));
    }
}

// ---------------------------------------------------------------------------
// What stands between white space
// ---------------------------------------------------------------------------
/// Whether `core` is what stands in `t` between white space: a part of it in one
/// piece that begins and ends with something else, with nothing else outside it.
pub open spec fn is_core(t: Seq<char>, core: Seq<char>) -> bool {
    exists|a: int, b: int| #[trigger] is_core_at(t, core, a, b)
}

/// Whether it stands there from `a` up to `b`.
pub open spec fn is_core_at(t: Seq<char>, core: Seq<char>, a: int, b: int) -> bool {
    &&& 0 <= a < b <= t.len()
    &&& core == t.subrange(a, b)
    &&& !text::is_white(t[a]) && !text::is_white(t[b - 1])
    &&& forall|i: int| 0 <= i < a ==> text::is_white(#[trigger] t[i])
    &&& forall|i: int| b <= i < t.len() ==> text::is_white(#[trigger] t[i])
}

/// Trimming a text leaves what stands between the white space around it, and nothing
/// where there is only white space.
pub proof fn trimming_leaves_the_core(t: Seq<char>)
    ensures
        (exists|i: int| 0 <= i < t.len() && !text::is_white(#[trigger] t[i])) ==> is_core(
            t,
            text::trimmed(t),
        ) && !text::is_blank(t),
        (forall|i: int| 0 <= i < t.len() ==> text::is_white(#[trigger] t[i])) ==> text::trimmed(
            t,
        ).len() == 0 && text::is_blank(t),
{
    let u = text::trimmed_start(t);
    text::lemma_trimmed_start(t);
    text::lemma_trimmed_end(u);
    let a = t.len() - u.len();
    let r = text::trimmed(t);
    if u.len() > 0 {
        assert(u[0] == t[a]);
        let b = a + r.len();
        assert(r.len() > 0) by {
            if r.len() == 0 {
                assert(text::is_white(u[0]));
            }
        }
        assert(r.last() == t[b - 1]);
        assert(r =~= t.subrange(a, b));
        assert forall|i: int| b <= i < t.len() implies text::is_white(#[trigger] t[i]) by {
            assert(u[i - a] == t[i]);
        }
        assert(is_core_at(t, r, a, b));
    } else {
        assert forall|i: int| 0 <= i < t.len() implies text::is_white(#[trigger] t[i]) by {}
    }
}

/// There is one such part at most.
pub proof fn a_core_is_what_trimming_leaves(t: Seq<char>, core: Seq<char>)
    requires
        is_core(t, core),
    ensures
        text::trimmed(t) == core,
        text::trimmed(core) == core,
        !text::is_blank(t),
        !text::is_blank(core),
{
    let (a, b) = choose|a: int, b: int| #[trigger] is_core_at(t, core, a, b);
    lemma_trimmed_is(t, a, b);
    trimming_leaves_the_core(t);
    assert(core[0] == t[a] && core[core.len() - 1] == t[b - 1]);
    lemma_is_trimmed(core);
    trimming_leaves_the_core(core);
}

} // verus!
