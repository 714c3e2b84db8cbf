//! Laying out twice.
//!
//! A layout is read back as the tokens it was written from, each where it was
//! put. Laying it out again then finds the same gaps to fill, so nothing moves
//! a second time.
use vstd::prelude::*;

use crate::json_comments;
use crate::json_comments::Piece;
use crate::json_format;
use crate::json_format::{Gap, Kind};
use crate::json_layout;
use crate::text;

verus! {

// ---------------------------------------------------------------------------
// A span that is copied is read back
// ---------------------------------------------------------------------------
/// Whether the characters `i..e` of `s` stand in `out`, `d` further on, with
/// nothing behind them there if there is nothing behind them here.
spec fn copied(s: Seq<char>, out: Seq<char>, i: int, e: int, d: int) -> bool {
    &&& 0 <= i <= e <= s.len()
    &&& 0 <= i + d
    &&& e + d <= out.len()
    &&& forall|j: int| i <= j < e ==> out[j + d] == #[trigger] s[j]
    &&& e < s.len() || e + d == out.len()
}

proof fn lemma_string_copied(s: Seq<char>, out: Seq<char>, i: int, e: int, d: int)
    requires
        copied(s, out, i, e, d),
        json_comments::string_end(s, i) == e,
    ensures
        json_comments::string_end(out, i + d) == e + d,
    decreases s.len() - i,
{
    if i < s.len() {
        json_comments::lemma_string_end(s, i);
        if s[i] == '\\' {
            if i + 1 < s.len() {
                json_comments::lemma_string_end(s, i + 2);
                assert(out[i + d] == s[i]);
                lemma_string_copied(s, out, i + 2, e, d);
            } else {
                assert(out[i + d] == s[i]);
            }
        } else if s[i] == '"' {
            assert(out[i + d] == s[i]);
        } else {
            json_comments::lemma_string_end(s, i + 1);
            assert(out[i + d] == s[i]);
            lemma_string_copied(s, out, i + 1, e, d);
        }
    }
}

proof fn lemma_pair_copied(s: Seq<char>, out: Seq<char>, a: char, b: char, i: int, e: int, d: int)
    requires
        copied(s, out, i, e, d),
        json_comments::pair_end(s, a, b, i) == e,
    ensures
        json_comments::pair_end(out, a, b, i + d) == e + d,
    decreases s.len() - i,
{
    if i < s.len() {
        if s[i] == a && json_comments::at(s, i + 1, b) {
            assert(out[i + d] == s[i]);
            assert(out[i + 1 + d] == s[i + 1]);
        } else {
            json_comments::lemma_pair_end(s, a, b, i + 1);
            lemma_pair_copied(s, out, a, b, i + 1, e, d);
            assert(out[i + d] == s[i]);
            if i + 1 < e {
                assert(out[i + 1 + d] == s[i + 1]);
            } else {
                lemma_pair_end_short(s, a, b, i + 1);
            }
        }
    }
}

/// A pair is never found in less than two characters.
proof fn lemma_pair_end_short(s: Seq<char>, a: char, b: char, i: int)
    requires
        0 <= i <= s.len(),
    ensures
        json_comments::pair_end(s, a, b, i) >= i + 2 || json_comments::pair_end(s, a, b, i)
            == s.len(),
    decreases s.len() - i,
{
    if i < s.len() && !(s[i] == a && json_comments::at(s, i + 1, b)) {
        lemma_pair_end_short(s, a, b, i + 1);
    }
}

/// Whether what stands at position `p` of `out` ends a bare value.
spec fn delimits(out: Seq<char>, p: int) -> bool {
    p == out.len() || (0 <= p < out.len() && (text::is_ascii_white(out[p])
        || json_format::is_punctuation(out[p])))
}

proof fn lemma_value_copied(s: Seq<char>, out: Seq<char>, i: int, e: int, d: int)
    requires
        0 <= i <= e <= s.len(),
        0 <= i + d,
        e + d <= out.len(),
        forall|j: int| i <= j < e ==> out[j + d] == #[trigger] s[j],
        forall|j: int| i <= j < e ==> json_format::in_value(s, j),
        delimits(out, e + d),
    ensures
        json_format::value_end(out, i + d) == e + d,
    decreases e - i,
{
    if i < e {
        lemma_value_copied(s, out, i + 1, e, d);
        assert(json_format::in_value(s, i));
        assert(out[i + d] == s[i]);
        if i + 1 < e {
            assert(out[i + 1 + d] == s[i + 1]);
        }
        assert(json_format::in_value(out, i + d));
    }
}

// ---------------------------------------------------------------------------
// A block comment that is moved is read back
// ---------------------------------------------------------------------------
/// Whether no `*/` stands in `u` at or behind position `i`.
spec fn no_close(u: Seq<char>, i: int) -> bool {
    forall|j: int| i <= j < u.len() - 1 ==> !(#[trigger] u[j] == '*' && u[j + 1] == '/')
}

proof fn lemma_no_close(u: Seq<char>, i: int)
    requires
        0 <= i <= u.len(),
    ensures
        no_close(u, i) ==> json_comments::pair_end(u, '*', '/', i) == u.len(),
    decreases u.len() - i,
{
    if i < u.len() {
        if no_close(u, i) {
            assert(!(u[i] == '*' && json_comments::at(u, i + 1, '/')));
            lemma_no_close(u, i + 1);
        }
    }
}

/// What an end of a block comment at `e` says of the text before it.
proof fn lemma_closed_at(u: Seq<char>, i: int, e: int)
    requires
        0 <= i <= u.len(),
        json_comments::pair_end(u, '*', '/', i) == e,
    ensures
        i <= e <= u.len(),
        e < u.len() ==> e >= i + 2 && u[e - 2] == '*' && u[e - 1] == '/',
        e >= i + 2 && u[e - 2] == '*' && u[e - 1] == '/' ==> no_close(u.take(e - 1), i),
        !(e >= i + 2 && u[e - 2] == '*' && u[e - 1] == '/') ==> e == u.len() && no_close(u, i),
    decreases u.len() - i,
{
    json_comments::lemma_pair_end(u, '*', '/', i);
    if i < u.len() {
        if u[i] == '*' && json_comments::at(u, i + 1, '/') {
        } else {
            lemma_closed_at(u, i + 1, e);
            if e >= i + 2 && u[e - 2] == '*' && u[e - 1] == '/' {
                if e == i + 2 {
                    assert(json_comments::at(u, i + 1, '/'));
                }
                let v = u.take(e - 1);
                assert forall|j: int| i <= j < v.len() - 1 implies !(#[trigger] v[j] == '*' && v[j
                    + 1] == '/') by {
                    if j > i {
                        assert(v[j] == u[j]);
                    }
                }
            }
        }
    }
}

/// The other way round: the first `*/` ends the comment.
proof fn lemma_closes_at(u: Seq<char>, i: int, e: int)
    requires
        0 <= i,
        i + 2 <= e <= u.len(),
        u[e - 2] == '*',
        u[e - 1] == '/',
        no_close(u.take(e - 1), i),
    ensures
        json_comments::pair_end(u, '*', '/', i) == e,
    decreases e - i,
{
    if i < e - 2 {
        let v = u.take(e - 1);
        assert(!(v[i] == '*' && v[i + 1] == '/'));
        assert(v[i] == u[i] && v[i + 1] == u[i + 1]);
        assert forall|j: int| i + 1 <= j < v.len() - 1 implies !(#[trigger] v[j] == '*' && v[j + 1]
            == '/') by {}
        lemma_closes_at(u, i + 1, e);
    }
}

/// No `*/` comes up where two texts meet, unless it stands across the seam.
proof fn lemma_no_close_add(a: Seq<char>, b: Seq<char>, i: int)
    requires
        0 <= i,
        no_close(a, i),
        no_close(b, 0),
        b.len() == 0 || b[0] != '/',
    ensures
        no_close(a + b, i),
{
    let u = a + b;
    assert forall|j: int| i <= j < u.len() - 1 implies !(#[trigger] u[j] == '*' && u[j + 1]
        == '/') by {
        if j + 1 < a.len() {
            assert(u[j] == a[j] && u[j + 1] == a[j + 1]);
        } else if j >= a.len() {
            assert(u[j] == b[j - a.len()] && u[j + 1] == b[j + 1 - a.len()]);
        }
    }
}

proof fn lemma_no_close_line(line: Seq<char>, col: nat, level: nat)
    requires
        no_close(line, 0),
    ensures
        no_close(json_format::moved_line(line, col, level), 0),
        json_format::moved_line(line, col, level).len() > 0,
        json_format::moved_line(line, col, level)[0] == '\n',
{
    let body = text::trimmed_start(line);
    text::lemma_trimmed_start(line);
    let n = line.len() - body.len();
    assert(no_close(body, 0)) by {
        assert forall|j: int| 0 <= j < body.len() - 1 implies !(#[trigger] body[j] == '*' && body[j
            + 1] == '/') by {
            assert(body[j] == line[n + j] && body[j + 1] == line[n + j + 1]);
        }
    }
    let pad = seq!['\n'] + json_format::indent(level) + json_format::spaces(
        json_format::extra_indent(line, col),
    );
    assert(no_close(pad, 0));
    let w = pad + body;
    assert forall|j: int| 0 <= j < w.len() - 1 implies !(#[trigger] w[j] == '*' && w[j + 1]
        == '/') by {
        if j + 1 < pad.len() {
            assert(w[j] == pad[j]);
        } else if j >= pad.len() {
            assert(w[j] == body[j - pad.len()] && w[j + 1] == body[j + 1 - pad.len()]);
        }
    }
    if body.len() > 0 {
        assert(json_format::moved_line(line, col, level) == w);
    }
}

proof fn lemma_no_close_lines(t: Seq<char>, col: nat, level: nat)
    requires
        no_close(t, 0),
    ensures
        ({
            let u = text::concat(
                text::split_on(t, '\n').map_values(
                    |line: Seq<char>| json_format::moved_line(line, col, level),
                ),
            );
            &&& no_close(u, 0)
            &&& u.len() > 0
            &&& u[0] == '\n'
        }),
    decreases t.len(),
{
    let f = |line: Seq<char>| json_format::moved_line(line, col, level);
    let lines = text::split_on(t, '\n');
    let n = text::find(t, '\n');
    text::lemma_find_from(t, '\n', 0);
    if n >= t.len() {
        assert(lines.map_values(f) == seq![f(t)] + Seq::<Seq<char>>::empty());
        json_format::lemma_concat_cons(f(t), Seq::empty());
        lemma_no_close_line(t, col, level);
    } else {
        let tail = t.skip(n + 1);
        let rest = text::split_on(tail, '\n');
        assert(no_close(t.take(n), 0)) by {
            assert forall|j: int| 0 <= j < n - 1 implies !(#[trigger] t.take(n)[j] == '*'
                && t.take(n)[j + 1] == '/') by {
                assert(t[j] == t.take(n)[j]);
            }
        }
        assert(no_close(tail, 0)) by {
            assert forall|j: int| 0 <= j < tail.len() - 1 implies !(#[trigger] tail[j] == '*'
                && tail[j + 1] == '/') by {
                assert(t[n + 1 + j] == tail[j] && t[n + 2 + j] == tail[j + 1]);
            }
        }
        lemma_no_close_lines(tail, col, level);
        lemma_no_close_line(t.take(n), col, level);
        assert(lines.map_values(f) == seq![f(t.take(n))] + rest.map_values(f));
        json_format::lemma_concat_cons(f(t.take(n)), rest.map_values(f));
        lemma_no_close_add(f(t.take(n)), text::concat(rest.map_values(f)), 0);
    }
}

/// Moving the lines of an open comment does not close it.
proof fn lemma_moved_stays_open(t: Seq<char>, col: nat, level: nat)
    requires
        t.len() >= 2,
        t[0] == '/' && t[1] == '*',
        t.contains('\n'),
        no_close(t, 2),
    ensures
        no_close(json_format::moved(t, col, level), 2),
        json_format::moved(t, col, level).len() >= 2,
        json_format::moved(t, col, level).take(2) == t.take(2),
{
    let f = |line: Seq<char>| json_format::moved_line(line, col, level);
    let lines = text::split_on(t, '\n');
    let n = text::find(t, '\n');
    text::lemma_find_from(t, '\n', 0);
    let i = choose|i: int| 0 <= i < t.len() && t[i] == '\n';
    assert(2 <= n < t.len());
    let head = t.take(n);
    let tail = t.skip(n + 1);
    assert(lines == seq![head] + text::split_on(tail, '\n'));
    assert(lines.drop_first() == text::split_on(tail, '\n'));
    assert(no_close(head, 2)) by {
        assert forall|j: int| 2 <= j < n - 1 implies !(#[trigger] head[j] == '*' && head[j + 1]
            == '/') by {
            assert(t[j] == head[j]);
        }
    }
    assert(no_close(tail, 0)) by {
        assert forall|j: int| 0 <= j < tail.len() - 1 implies !(#[trigger] tail[j] == '*' && tail[j
            + 1] == '/') by {
            assert(t[n + 1 + j] == tail[j] && t[n + 2 + j] == tail[j + 1]);
        }
    }
    lemma_no_close_lines(tail, col, level);
    lemma_no_close_add(head, text::concat(text::split_on(tail, '\n').map_values(f)), 2);
    assert(json_format::moved(t, col, level).take(2) == t.take(2));
}

proof fn lemma_trimmed_start_push(v: Seq<char>, c: char)
    requires
        v.len() > 0,
        !text::is_white(v.last()),
    ensures
        text::trimmed_start(v.push(c)) == text::trimmed_start(v).push(c),
        text::trimmed_start(v).len() > 0,
        text::trimmed_start(v).last() == v.last(),
    decreases v.len(),
{
    if text::is_white(v.first()) {
        assert(v.push(c).drop_first() == v.drop_first().push(c));
        assert(v.drop_first().last() == v.last());
        lemma_trimmed_start_push(v.drop_first(), c);
    }
}

proof fn lemma_moved_line_push(v: Seq<char>, c: char, col: nat, level: nat)
    requires
        v.len() > 0,
        !text::is_white(v.last()),
    ensures
        json_format::moved_line(v.push(c), col, level) == json_format::moved_line(
            v,
            col,
            level,
        ).push(c),
        json_format::moved_line(v, col, level).last() == v.last(),
{
    lemma_trimmed_start_push(v, c);
    let b = text::trimmed_start(v);
    text::lemma_byte_len_add(v, seq![c]);
    text::lemma_byte_len_add(b, seq![c]);
    assert(v.push(c) == v + seq![c]);
    assert(b.push(c) == b + seq![c]);
    let pad = seq!['\n'] + json_format::indent(level) + json_format::spaces(
        json_format::extra_indent(v, col),
    );
    assert(json_format::extra_indent(v.push(c), col) == json_format::extra_indent(v, col));
    assert(json_format::moved_line(v, col, level) == pad + b);
    assert((pad + b).push(c) == pad + b.push(c));
}

proof fn lemma_moved_lines_push(v: Seq<char>, c: char, col: nat, level: nat)
    requires
        v.len() > 0,
        !text::is_white(v.last()),
        c != '\n',
    ensures
        ({
            let f = |line: Seq<char>| json_format::moved_line(line, col, level);
            let u = text::concat(text::split_on(v, '\n').map_values(f));
            &&& text::concat(text::split_on(v.push(c), '\n').map_values(f)) == u.push(c)
            &&& u.len() > 0
            &&& u.last() == v.last()
        }),
    decreases v.len(),
{
    let f = |line: Seq<char>| json_format::moved_line(line, col, level);
    let n = text::find(v, '\n');
    let w = v.push(c);
    text::lemma_find_from(v, '\n', 0);
    if n >= v.len() {
        text::lemma_find_is(w, '\n', 0, w.len() as int);
        assert(text::split_on(v, '\n').map_values(f) == seq![f(v)] + Seq::<Seq<char>>::empty());
        assert(text::split_on(w, '\n').map_values(f) == seq![f(w)] + Seq::<Seq<char>>::empty());
        json_format::lemma_concat_cons(f(v), Seq::empty());
        json_format::lemma_concat_cons(f(w), Seq::empty());
        lemma_moved_line_push(v, c, col, level);
    } else {
        text::lemma_find_is(w, '\n', 0, n);
        let tail = v.skip(n + 1);
        assert(n < v.len() - 1);
        assert(tail.last() == v.last());
        assert(w.skip(n + 1) == tail.push(c));
        assert(w.take(n) == v.take(n));
        lemma_moved_lines_push(tail, c, col, level);
        let a = text::split_on(tail, '\n').map_values(f);
        let b = text::split_on(tail.push(c), '\n').map_values(f);
        assert(text::split_on(v, '\n').map_values(f) == seq![f(v.take(n))] + a);
        assert(text::split_on(w, '\n').map_values(f) == seq![f(v.take(n))] + b);
        json_format::lemma_concat_cons(f(v.take(n)), a);
        json_format::lemma_concat_cons(f(v.take(n)), b);
    }
}

proof fn lemma_moved_push(v: Seq<char>, c: char, col: nat, level: nat)
    requires
        v.contains('\n'),
        v.len() > 0,
        !text::is_white(v.last()),
        c != '\n',
    ensures
        json_format::moved(v.push(c), col, level) == json_format::moved(v, col, level).push(c),
        json_format::moved(v, col, level).len() > 0,
        json_format::moved(v, col, level).last() == v.last(),
{
    let f = |line: Seq<char>| json_format::moved_line(line, col, level);
    let n = text::find(v, '\n');
    let w = v.push(c);
    text::lemma_find_from(v, '\n', 0);
    let i = choose|i: int| 0 <= i < v.len() && v[i] == '\n';
    assert(n < v.len());
    text::lemma_find_is(w, '\n', 0, n);
    let tail = v.skip(n + 1);
    assert(tail.last() == v.last());
    assert(w.skip(n + 1) == tail.push(c));
    assert(w.take(n) == v.take(n));
    lemma_moved_lines_push(tail, c, col, level);
    assert(text::split_on(v, '\n').drop_first() == text::split_on(tail, '\n'));
    assert(text::split_on(w, '\n').drop_first() == text::split_on(tail.push(c), '\n'));
}

/// Moving the lines of a closed comment leaves it closed, and only at its end.
proof fn lemma_moved_stays_closed(t: Seq<char>, col: nat, level: nat)
    requires
        t.len() >= 4,
        t[0] == '/' && t[1] == '*',
        t.contains('\n'),
        t[t.len() - 2] == '*',
        t[t.len() - 1] == '/',
        no_close(t.drop_last(), 2),
    ensures
        ({
            let w = json_format::moved(t, col, level);
            &&& w.len() >= 4
            &&& w.take(2) == t.take(2)
            &&& w[w.len() - 2] == '*'
            &&& w[w.len() - 1] == '/'
            &&& no_close(w.drop_last(), 2)
        }),
{
    let v = t.drop_last();
    assert(v.push('/') == t);
    assert(v.contains('\n')) by {
        let i = choose|i: int| 0 <= i < t.len() && t[i] == '\n';
        assert(v[i] == '\n');
    }
    lemma_moved_push(v, '/', col, level);
    lemma_moved_stays_open(v, col, level);
    let w = json_format::moved(v, col, level);
    assert(w.push('/').drop_last() == w);
    assert(w.push('/').take(2) == w.take(2));
    assert(v.take(2) == t.take(2));
    if w.len() == 2 {
        assert(w.take(2)[1] == t.take(2)[1]);
        lemma_moved_has_line_feed(v, col, level);
        let i = choose|i: int| 0 <= i < w.len() && w[i] == '\n';
        assert(w.take(2)[i] == t.take(2)[i]);
    }
}

/// A moved text still runs over several lines.
proof fn lemma_moved_has_line_feed(t: Seq<char>, col: nat, level: nat)
    requires
        t.contains('\n'),
    ensures
        json_format::moved(t, col, level).contains('\n'),
{
    let f = |line: Seq<char>| json_format::moved_line(line, col, level);
    let n = text::find(t, '\n');
    text::lemma_find_from(t, '\n', 0);
    let i = choose|i: int| 0 <= i < t.len() && t[i] == '\n';
    let rest = text::split_on(t.skip(n + 1), '\n');
    assert(text::split_on(t, '\n').drop_first() == rest);
    assert(text::split_on(t, '\n')[0] == t.take(n));
    assert(rest.len() > 0);
    let more = rest.drop_first();
    assert(rest.map_values(f) == seq![f(rest[0])] + more.map_values(f));
    json_format::lemma_concat_cons(f(rest[0]), more.map_values(f));
    assert(json_format::moved(t, col, level)[n] == '\n');
}

proof fn lemma_moved_first(t: Seq<char>, col: nat, level: nat)
    requires
        t.len() >= 2,
        t[0] == '/' && t[1] == '*',
        t.contains('\n'),
    ensures
        json_format::moved(t, col, level).len() >= 2,
        json_format::moved(t, col, level).take(2) == t.take(2),
{
    let n = text::find(t, '\n');
    text::lemma_find_from(t, '\n', 0);
    let i = choose|i: int| 0 <= i < t.len() && t[i] == '\n';
    assert(2 <= n < t.len());
    assert(text::split_on(t, '\n')[0] == t.take(n));
    assert(json_format::moved(t, col, level).take(2) == t.take(2));
}

// ---------------------------------------------------------------------------
// The tokens of a layout
// ---------------------------------------------------------------------------
/// The text before token `k` in the layout of `s`.
spec fn text_before(s: Seq<char>, k: int) -> Seq<char> {
    json_format::laid_out_to(s, json_format::tokens(s), k) + json_format::gap_text(
        json_format::gap_before(s, json_format::tokens(s), k),
        json_format::level_of(json_format::tokens(s), k),
    )
}

/// Where token `k` of `s` begins in its layout.
pub closed spec fn new_start(s: Seq<char>, k: int) -> int {
    text_before(s, k).len() as int
}

/// Where the layout of the first `k` tokens of `s` ends.
pub closed spec fn new_end(s: Seq<char>, k: int) -> int {
    json_format::laid_out_to(s, json_format::tokens(s), k).len() as int
}

proof fn lemma_prefix(s: Seq<char>, k: int, m: int)
    requires
        0 <= k <= m,
    ensures
        new_end(s, k) <= new_end(s, m),
        json_format::laid_out_to(s, json_format::tokens(s), m).take(new_end(s, k))
            == json_format::laid_out_to(s, json_format::tokens(s), k),
    decreases m - k,
{
    let toks = json_format::tokens(s);
    let a = json_format::laid_out_to(s, toks, k);
    if k == m {
        assert(a.take(a.len() as int) == a);
    } else {
        lemma_prefix(s, k, m - 1);
        let b = json_format::laid_out_to(s, toks, m - 1);
        let c = json_format::laid_out_to(s, toks, m);
        assert(c.take(a.len() as int) == b.take(a.len() as int));
    }
}

/// Token `k` stands in the layout as it is written, behind the text before it.
pub proof fn lemma_placed(s: Seq<char>, k: int)
    requires
        0 <= k < json_format::tokens(s).len(),
    ensures
        ({
            let toks = json_format::tokens(s);
            let out = json_format::laid_out(s);
            let w = json_format::written(s, toks, k);
            let gap = json_format::gap_text(
                json_format::gap_before(s, toks, k),
                json_format::level_of(toks, k),
            );
            &&& 0 <= new_end(s, k) <= new_start(s, k)
            &&& new_start(s, k) == new_end(s, k) + gap.len()
            &&& new_end(s, k + 1) == new_start(s, k) + w.len()
            &&& new_end(s, k + 1) <= new_end(s, toks.len() as int) <= out.len()
            &&& forall|j: int| 0 <= j < gap.len() ==> out[new_end(s, k) + j] == #[trigger] gap[j]
            &&& forall|j: int| 0 <= j < w.len() ==> out[new_start(s, k) + j] == #[trigger] w[j]
        }),
{
    let toks = json_format::tokens(s);
    let n = toks.len() as int;
    let out = json_format::laid_out(s);
    let all = json_format::laid_out_to(s, toks, n);
    let a = json_format::laid_out_to(s, toks, k);
    let b = json_format::laid_out_to(s, toks, k + 1);
    let gap = json_format::gap_text(
        json_format::gap_before(s, toks, k),
        json_format::level_of(toks, k),
    );
    let w = json_format::written(s, toks, k);
    lemma_prefix(s, k + 1, n);
    assert(b == a + gap + w);
    assert forall|j: int| 0 <= j < b.len() implies out[j] == #[trigger] b[j] by {
        assert(all.take(b.len() as int)[j] == b[j]);
    }
    assert forall|j: int| 0 <= j < gap.len() implies out[new_end(s, k) + j] == #[trigger] gap[j] by {
        assert(b[a.len() + j] == gap[j]);
    }
    assert forall|j: int| 0 <= j < w.len() implies out[new_start(s, k) + j] == #[trigger] w[j] by {
        assert(b[a.len() + gap.len() + j] == w[j]);
    }
}

/// A token is written with the character it began with, and takes as much room
/// as there is text in it.
pub proof fn lemma_written_first(s: Seq<char>, k: int)
    requires
        0 <= k < json_format::tokens(s).len(),
    ensures
        ({
            let toks = json_format::tokens(s);
            let w = json_format::written(s, toks, k);
            &&& w.len() > 0
            &&& w[0] == s[toks[k].1]
        }),
{
    let toks = json_format::tokens(s);
    json_layout::lemma_token(s, k);
    let t = json_format::token_text(s, toks[k]);
    if toks[k].0 == Kind::BlockComment && t.contains('\n') {
        let i = toks[k].1;
        json_comments::lemma_pair_end(s, '*', '/', i + 2);
        assert(t[0] == s[i] && t[1] == s[i + 1]);
        let w = json_format::moved(
            t,
            json_format::column(s, i),
            json_format::level_of(toks, k),
        );
        lemma_moved_first(t, json_format::column(s, i), json_format::level_of(toks, k));
        assert(w.take(2)[0] == t.take(2)[0]);
    }
}

/// What stands in the layout directly behind token `k`.
proof fn lemma_behind(s: Seq<char>, k: int)
    requires
        0 <= k < json_format::tokens(s).len(),
    ensures
        ({
            let toks = json_format::tokens(s);
            let out = json_format::laid_out(s);
            let p = new_end(s, k + 1);
            &&& 0 <= p <= out.len()
            &&& p < out.len() ==> {
                ||| out[p] == '\n'
                ||| toks[k].0 != Kind::LineComment && (out[p] == ' ' || out[p] == ',' || out[p]
                    == ':')
                ||| toks[k].0 == Kind::Open && (out[p] == '}' || out[p] == ']')
            }
            &&& k + 1 == toks.len() && p < out.len() ==> s.len() > 0 && s.last() == '\n'
        }),
{
    let toks = json_format::tokens(s);
    let out = json_format::laid_out(s);
    let p = new_end(s, k + 1);
    lemma_placed(s, k);
    if k + 1 < toks.len() {
        lemma_placed(s, k + 1);
        lemma_written_first(s, k + 1);
        json_layout::lemma_token(s, k + 1);
        let gap = json_format::gap_before(s, toks, k + 1);
        let g = json_format::gap_text(gap, json_format::level_of(toks, k + 1));
        let w = json_format::written(s, toks, k + 1);
        if gap == Gap::Nothing {
            assert(out[new_start(s, k + 1) + 0] == w[0]);
        } else {
            assert(out[p + 0] == g[0]);
        }
    } else {
        let all = json_format::laid_out_to(s, toks, toks.len() as int);
        if p < out.len() {
            assert(out == all + seq!['\n']);
        }
    }
}

/// The tokens of a text stand in its layout, each with its kind, from where it
/// was put to where it ends there.
proof fn lemma_read_back(s: Seq<char>, k: int)
    requires
        json_format::ends_outside_tokens(s),
        0 <= k < json_format::tokens(s).len(),
    ensures
        ({
            let out = json_format::laid_out(s);
            let p = new_start(s, k);
            &&& 0 <= p < new_end(s, k + 1) <= out.len()
            &&& !text::is_ascii_white(out[p])
            &&& json_format::kind_at(out, p) == json_format::tokens(s)[k].0
            &&& json_format::token_end(out, p) == new_end(s, k + 1)
        }),
{
    let toks = json_format::tokens(s);
    let out = json_format::laid_out(s);
    let p = new_start(s, k);
    let q = new_end(s, k + 1);
    let i = toks[k].1;
    let e = toks[k].2;
    let t = json_format::token_text(s, toks[k]);
    let w = json_format::written(s, toks, k);
    json_layout::lemma_token(s, k);
    lemma_placed(s, k);
    lemma_written_first(s, k);
    lemma_behind(s, k);
    assert(out[p + 0] == w[0]);
    // Nothing stands behind the token there if nothing does here.
    assert(e < s.len() || q == out.len()) by {
        if k + 1 < toks.len() {
            json_layout::lemma_token(s, k + 1);
        } else {
            json_layout::lemma_after_tokens(s);
        }
    }
    if w == t {
        let d = p - i;
        assert(w.len() == e - i);
        assert forall|j: int| i <= j < e implies out[j + d] == #[trigger] s[j] by {
            assert(w[j - i] == s[j]);
            assert(out[p + (j - i)] == w[j - i]);
        }
        lemma_read_back_copied(s, out, i, e, d);
    } else {
        lemma_read_back_moved(s, k);
    }
}

proof fn lemma_read_back_copied(s: Seq<char>, out: Seq<char>, i: int, e: int, d: int)
    requires
        0 <= i < e <= s.len(),
        0 <= i + d,
        e + d <= out.len(),
        !text::is_ascii_white(s[i]),
        json_format::token_end(s, i) == e,
        forall|j: int| i <= j < e ==> out[j + d] == #[trigger] s[j],
        e < s.len() || e + d == out.len(),
        e + d < out.len() ==> {
            let kind = json_format::kind_at(s, i);
            let c = out[e + d];
            ||| c == '\n'
            ||| kind != Kind::LineComment && (c == ' ' || c == ',' || c == ':')
            ||| kind == Kind::Open && (c == '}' || c == ']')
        },
    ensures
        json_format::kind_at(out, i + d) == json_format::kind_at(s, i),
        json_format::token_end(out, i + d) == e + d,
{
    let p = i + d;
    assert(out[i + d] == s[i]);
    if i + 1 < e {
        assert(out[i + 1 + d] == s[i + 1]);
    }
    match json_comments::piece_at(s, i) {
        Piece::Str => {
            lemma_string_copied(s, out, i + 1, e, d);
        },
        Piece::Template => {
            json_comments::lemma_pair_end(s, '}', '}', i + 2);
            lemma_pair_copied(s, out, '}', '}', i + 2, e, d);
        },
        Piece::Comment => {
            if json_comments::at(s, i + 1, '/') {
                text::lemma_find_from(s, '\n', i);
                assert(e > i + 1);
                assert forall|j: int| p <= j < e + d implies out[j] != '\n' by {
                    assert(out[(j - d) + d] == s[j - d]);
                }
                text::lemma_find_is(out, '\n', p, e + d);
            } else {
                json_comments::lemma_pair_end(s, '*', '/', i + 2);
                lemma_pair_copied(s, out, '*', '/', i + 2, e, d);
            }
        },
        Piece::Text => {
            if json_format::is_punctuation(s[i]) {
                assert(json_comments::piece_at(out, p) == Piece::Text);
            } else {
                json_format::lemma_value_end(s, i);
                assert(json_format::in_value(s, i));
                assert(delimits(out, e + d));
                lemma_value_copied(s, out, i, e, d);
                assert(json_format::in_value(out, p));
            }
        },
    }
}

proof fn lemma_read_back_moved(s: Seq<char>, k: int)
    requires
        0 <= k < json_format::tokens(s).len(),
        ({
            let t = json_format::tokens(s)[k];
            &&& json_format::written(s, json_format::tokens(s), k) != json_format::token_text(s, t)
            &&& t.2 < s.len() || new_end(s, k + 1) == json_format::laid_out(s).len()
        }),
    ensures
        ({
            let out = json_format::laid_out(s);
            let p = new_start(s, k);
            &&& json_format::kind_at(out, p) == Kind::BlockComment
            &&& json_format::tokens(s)[k].0 == Kind::BlockComment
            &&& json_format::token_end(out, p) == new_end(s, k + 1)
        }),
{
    let toks = json_format::tokens(s);
    let out = json_format::laid_out(s);
    let p = new_start(s, k);
    let q = new_end(s, k + 1);
    let i = toks[k].1;
    let e = toks[k].2;
    let t = json_format::token_text(s, toks[k]);
    let w = json_format::written(s, toks, k);
    let col = json_format::column(s, i);
    let level = json_format::level_of(toks, k);
    json_layout::lemma_token(s, k);
    lemma_placed(s, k);
    assert(w == json_format::moved(t, col, level));
    json_comments::lemma_pair_end(s, '*', '/', i + 2);
    assert(e == json_comments::pair_end(s, '*', '/', i + 2));
    assert(t[0] == s[i] && t[1] == s[i + 1]);
    lemma_closed_at(s, i + 2, e);
    lemma_moved_first(t, col, level);
    assert(w.take(2)[0] == t.take(2)[0] && w.take(2)[1] == t.take(2)[1]);
    assert(out[p + 0] == w[0] && out[p + 1] == w[1]);
    if e >= i + 4 && s[e - 2] == '*' && s[e - 1] == '/' {
        let v = t.drop_last();
        assert forall|j: int| 2 <= j < v.len() - 1 implies !(#[trigger] v[j] == '*' && v[j + 1]
            == '/') by {
            let u = s.take(e - 1);
            assert(u[i + j] == v[j] && u[i + j + 1] == v[j + 1]);
        }
        lemma_moved_stays_closed(t, col, level);
        assert(out[p + (w.len() - 2)] == w[w.len() - 2]);
        assert(out[p + (w.len() - 1)] == w[w.len() - 1]);
        let u = out.take(q - 1);
        assert forall|j: int| p + 2 <= j < u.len() - 1 implies !(#[trigger] u[j] == '*' && u[j + 1]
            == '/') by {
            assert(out[p + (j - p)] == w[j - p] && out[p + (j + 1 - p)] == w[j + 1 - p]);
            assert(w.drop_last()[j - p] == w[j - p]);
        }
        lemma_closes_at(out, p + 2, q);
    } else {
        assert forall|j: int| 2 <= j < t.len() - 1 implies !(#[trigger] t[j] == '*' && t[j + 1]
            == '/') by {
            assert(s[i + j] == t[j] && s[i + j + 1] == t[j + 1]);
        }
        lemma_moved_stays_open(t, col, level);
        assert forall|j: int| p + 2 <= j < out.len() - 1 implies !(#[trigger] out[j] == '*' && out[j
            + 1] == '/') by {
            assert(out[p + (j - p)] == w[j - p] && out[p + (j + 1 - p)] == w[j + 1 - p]);
        }
        lemma_no_close(out, p + 2);
    }
}

/// The tokens of `s` where they stand in its layout.
pub open spec fn new_tokens(s: Seq<char>) -> Seq<(Kind, int, int)> {
    Seq::new(
        json_format::tokens(s).len(),
        |k: int| (json_format::tokens(s)[k].0, new_start(s, k), new_end(s, k + 1)),
    )
}

/// A layout begins with its first token.
pub proof fn lemma_layout_begins(s: Seq<char>)
    requires
        json_format::tokens(s).len() > 0,
    ensures
        new_start(s, 0) == 0,
{
    assert(json_format::gap_text(
        json_format::gap_before(s, json_format::tokens(s), 0),
        json_format::level_of(json_format::tokens(s), 0),
    ) == Seq::<char>::empty());
}

/// A layout ends with its last token, and the line feed of its source if there is
/// one.
pub proof fn lemma_layout_ends(s: Seq<char>)
    ensures
        ({
            let out = json_format::laid_out(s);
            let e = new_end(s, json_format::tokens(s).len() as int);
            &&& 0 <= e <= out.len()
            &&& s.len() > 0 && s.last() == '\n' ==> out.skip(e) == seq!['\n']
            &&& s.len() == 0 || s.last() != '\n' ==> e == out.len()
        }),
{
    let out = json_format::laid_out(s);
    let e = new_end(s, json_format::tokens(s).len() as int);
    if s.len() > 0 && s.last() == '\n' {
        assert(out.skip(e) =~= seq!['\n']);
    }
}

proof fn lemma_gap_is_white(gap: Gap, level: nat)
    ensures
        forall|j: int|
            0 <= j < json_format::gap_text(gap, level).len() ==> text::is_ascii_white(
                #[trigger] json_format::gap_text(gap, level)[j],
            ),
{
}

proof fn lemma_white_end_is(s: Seq<char>, i: int, n: int)
    requires
        0 <= i <= n <= s.len(),
        forall|j: int| i <= j < n ==> text::is_ascii_white(#[trigger] s[j]),
        n < s.len() ==> !text::is_ascii_white(s[n]),
    ensures
        json_comments::white_end(s, i) == n,
    decreases n - i,
{
    if i < n {
        assert(text::is_ascii_white(s[i]));
        lemma_white_end_is(s, i + 1, n);
    }
}

proof fn lemma_tokens_read_back(s: Seq<char>, k: int)
    requires
        json_format::ends_outside_tokens(s),
        0 <= k <= json_format::tokens(s).len(),
    ensures
        0 <= new_end(s, k) <= json_format::laid_out(s).len(),
        json_format::tokens_from(json_format::laid_out(s), new_end(s, k)) == new_tokens(s).skip(k),
    decreases json_format::tokens(s).len() - k,
{
    let toks = json_format::tokens(s);
    let n = toks.len() as int;
    let out = json_format::laid_out(s);
    if k == n {
        assert(new_end(s, n) == json_format::laid_out_to(s, toks, n).len());
        assert forall|j: int| new_end(s, n) <= j < out.len() implies text::is_ascii_white(
            #[trigger] out[j],
        ) by {
            assert(out == json_format::laid_out_to(s, toks, n) + seq!['\n']);
        }
        lemma_white_end_is(out, new_end(s, n), out.len() as int);
        assert(new_tokens(s).skip(n) == Seq::<(Kind, int, int)>::empty());
    } else {
        lemma_placed(s, k);
        lemma_read_back(s, k);
        lemma_tokens_read_back(s, k + 1);
        let level = json_format::level_of(toks, k);
        let gap = json_format::gap_before(s, toks, k);
        let g = json_format::gap_text(gap, level);
        lemma_gap_is_white(gap, level);
        assert forall|j: int| new_end(s, k) <= j < new_start(s, k) implies text::is_ascii_white(
            #[trigger] out[j],
        ) by {
            assert(out[new_end(s, k) + (j - new_end(s, k))] == g[j - new_end(s, k)]);
        }
        lemma_white_end_is(out, new_end(s, k), new_start(s, k));
        assert(new_tokens(s).skip(k) == seq![new_tokens(s)[k]] + new_tokens(s).skip(k + 1));
    }
}

/// A layout is read back as the tokens it was written from: as many, each of
/// the same kind, each where it was put.
pub proof fn layout_is_read_back(s: Seq<char>)
    requires
        json_format::ends_outside_tokens(s),
    ensures
        json_format::tokens(json_format::laid_out(s)) == new_tokens(s),
        forall|k: int|
            0 <= k < json_format::tokens(s).len() ==> json_format::token_text(
                json_format::laid_out(s),
                #[trigger] new_tokens(s)[k],
            ) == json_format::written(s, json_format::tokens(s), k),
{
    lemma_tokens_read_back(s, 0);
    assert(new_end(s, 0) == 0);
    assert(new_tokens(s).skip(0) == new_tokens(s));
    let out = json_format::laid_out(s);
    assert forall|k: int| 0 <= k < json_format::tokens(s).len() implies json_format::token_text(
        out,
        #[trigger] new_tokens(s)[k],
    ) == json_format::written(s, json_format::tokens(s), k) by {
        lemma_placed(s, k);
        let w = json_format::written(s, json_format::tokens(s), k);
        let t = json_format::token_text(out, new_tokens(s)[k]);
        assert forall|j: int| 0 <= j < w.len() implies t[j] == w[j] by {
            assert(out[new_start(s, k) + j] == w[j]);
        }
        assert(t == w);
    }
}

// ---------------------------------------------------------------------------
// Laying out twice
// ---------------------------------------------------------------------------
/// Whether token `k` of `s` is a block comment over several lines.
pub open spec fn is_tall(s: Seq<char>, k: int) -> bool {
    let t = json_format::tokens(s)[k];
    t.0 == Kind::BlockComment && json_format::token_text(s, t).contains('\n')
}

/// Whether the lines of token `k` of `s` stay where its layout put them when
/// they are moved again.
pub open spec fn stays_put(s: Seq<char>, k: int) -> bool {
    let toks = json_format::tokens(s);
    let w = json_format::written(s, toks, k);
    json_format::moved(
        w,
        json_format::column(json_format::laid_out(s), new_start(s, k)),
        json_format::level_of(toks, k),
    ) == w
}

/// Whether `s` ends with a line feed.
pub open spec fn ends_line(s: Seq<char>) -> bool {
    s.len() > 0 && s.last() == '\n'
}

/// Whether laying `s` out leaves nothing to lay out: it does not break off
/// inside a token, and the lines of its tall comments stay put.
pub open spec fn settles(s: Seq<char>) -> bool {
    &&& json_format::ends_outside_tokens(s)
    &&& ends_line(json_format::laid_out(s)) == ends_line(s)
    &&& forall|k: int| 0 <= k < json_format::tokens(s).len() && #[trigger] is_tall(s, k) ==> stays_put(s, k)
}

/// The layout of a text that settles does not break off inside a token either.
pub proof fn lemma_layout_ends_outside_tokens(s: Seq<char>)
    requires
        settles(s),
    ensures
        json_format::ends_outside_tokens(json_format::laid_out(s)),
{
    let toks = json_format::tokens(s);
    layout_is_read_back(s);
    assert(new_end(s, toks.len() as int) == json_format::laid_out_to(
        s,
        toks,
        toks.len() as int,
    ).len());
}

proof fn lemma_line_feeds_of_gap(gap: Gap, level: nat)
    ensures
        json_format::line_feeds(json_format::gap_text(gap, level)) == (match gap {
            Gap::Line { blank: true } => 2nat,
            Gap::Line { blank: false } => 1nat,
            _ => 0nat,
        }),
{
    reveal_with_fuel(Seq::filter, 3);
    let pad = json_format::indent(level);
    lemma_no_line_feeds(pad);
    match gap {
        Gap::Line { blank } => {
            let head = if blank {
                seq!['\n', '\n']
            } else {
                seq!['\n']
            };
            Seq::filter_distributes_over_add(head, pad, |c: char| c == '\n');
            if blank {
                assert(head.drop_last() == seq!['\n']);
                assert(head.drop_last().drop_last() == Seq::<char>::empty());
            } else {
                assert(head.drop_last() == Seq::<char>::empty());
            }
        },
        Gap::Space => {
            lemma_no_line_feeds(seq![' ']);
        },
        Gap::Nothing => {
            lemma_no_line_feeds(Seq::empty());
        },
    }
}

proof fn lemma_no_line_feeds(s: Seq<char>)
    requires
        forall|i: int| 0 <= i < s.len() ==> #[trigger] s[i] != '\n',
    ensures
        json_comments::newlines_of(s) == Seq::<char>::empty(),
    decreases s.len(),
{
    reveal(Seq::filter);
    if s.len() > 0 {
        assert(s[s.len() - 1] != '\n');
        assert forall|i: int| 0 <= i < s.drop_last().len() implies #[trigger] s.drop_last()[i]
            != '\n' by {
            assert(s.drop_last()[i] == s[i]);
        }
        lemma_no_line_feeds(s.drop_last());
    }
}

/// The gaps of a layout call for the same gaps again.
proof fn lemma_gap_again(s: Seq<char>, k: int)
    requires
        json_format::ends_outside_tokens(s),
        0 <= k < json_format::tokens(s).len(),
    ensures
        json_format::gap_before(json_format::laid_out(s), new_tokens(s), k)
            == json_format::gap_before(s, json_format::tokens(s), k),
{
    if k > 0 {
        let toks = json_format::tokens(s);
        let out = json_format::laid_out(s);
        let gap = json_format::gap_before(s, toks, k);
        let level = json_format::level_of(toks, k);
        let g = json_format::gap_text(gap, level);
        lemma_placed(s, k);
        let between = out.subrange(new_end(s, k), new_start(s, k));
        assert forall|j: int| 0 <= j < g.len() implies between[j] == g[j] by {
            assert(out[new_end(s, k) + j] == g[j]);
        }
        assert(between == g);
        lemma_line_feeds_of_gap(gap, level);
        assert(new_tokens(s)[k - 1].2 == new_end(s, k));
        assert(new_tokens(s)[k].1 == new_start(s, k));
    }
}

proof fn lemma_levels_again(s: Seq<char>, k: int)
    requires
        0 <= k <= json_format::tokens(s).len(),
    ensures
        json_format::depth_before(new_tokens(s), k) == json_format::depth_before(
            json_format::tokens(s),
            k,
        ),
        k < json_format::tokens(s).len() ==> json_format::level_of(new_tokens(s), k)
            == json_format::level_of(json_format::tokens(s), k),
    decreases k,
{
    if k > 0 {
        lemma_levels_again(s, k - 1);
        assert(new_tokens(s)[k - 1].0 == json_format::tokens(s)[k - 1].0);
    }
    if k < json_format::tokens(s).len() {
        assert(new_tokens(s)[k].0 == json_format::tokens(s)[k].0);
    }
}

proof fn lemma_laid_out_again(s: Seq<char>, k: int)
    requires
        settles(s),
        0 <= k <= json_format::tokens(s).len(),
    ensures
        json_format::laid_out_to(json_format::laid_out(s), new_tokens(s), k)
            == json_format::laid_out_to(s, json_format::tokens(s), k),
    decreases k,
{
    if k > 0 {
        let toks = json_format::tokens(s);
        let out = json_format::laid_out(s);
        lemma_laid_out_again(s, k - 1);
        lemma_gap_again(s, k - 1);
        lemma_levels_again(s, k - 1);
        layout_is_read_back(s);
        let w = json_format::written(s, toks, k - 1);
        assert(json_format::token_text(out, new_tokens(s)[k - 1]) == w);
        if is_tall(s, k - 1) {
            assert(stays_put(s, k - 1));
        } else if toks[k - 1].0 == Kind::BlockComment {
            assert(w == json_format::token_text(s, toks[k - 1]));
        }
        assert(json_format::written(out, new_tokens(s), k - 1) == w);
    }
}

/// Laying out what has been laid out changes nothing, where the layout
/// settles.
pub proof fn laying_out_twice_is_laying_out_once(s: Seq<char>)
    requires
        settles(s),
    ensures
        json_format::laid_out(json_format::laid_out(s)) == json_format::laid_out(s),
{
    layout_is_read_back(s);
    lemma_laid_out_again(s, json_format::tokens(s).len() as int);
}

// ---------------------------------------------------------------------------
// What settles
// ---------------------------------------------------------------------------
/// Whether token `k` of `s` begins a line of the layout.
pub open spec fn begins_line(s: Seq<char>, k: int) -> bool {
    k == 0 || json_format::gap_before(s, json_format::tokens(s), k) is Line
}

/// Whether a block comment is closed.
pub open spec fn is_closed(t: Seq<char>) -> bool {
    t.len() >= 4 && t[t.len() - 2] == '*' && t[t.len() - 1] == '/'
}

proof fn lemma_line_start_is(s: Seq<char>, i: int, b: int)
    requires
        0 <= b <= i <= s.len(),
        b == 0 || s[b - 1] == '\n',
        forall|j: int| b <= j < i ==> #[trigger] s[j] != '\n',
    ensures
        json_format::line_start(s, i) == b,
    decreases i - b,
{
    if b < i {
        assert(s[i - 1] != '\n');
        lemma_line_start_is(s, i - 1, b);
    }
}

proof fn lemma_spaces_bytes(n: nat)
    ensures
        text::byte_len(json_format::spaces(n)) == n,
    decreases n,
{
    if n == 0 {
        assert(json_format::spaces(0) == Seq::<char>::empty());
    } else {
        let m = (n - 1) as nat;
        lemma_spaces_bytes(m);
        assert(json_format::spaces(n) == json_format::spaces(m) + seq![' ']);
        text::lemma_byte_len_add(json_format::spaces(m), seq![' ']);
        reveal_with_fuel(vstd::utf8::encode_utf8, 2);
        assert(seq![' '].drop_first() == Seq::<char>::empty());
    }
}

proof fn lemma_new_column(s: Seq<char>, k: int)
    requires
        0 <= k < json_format::tokens(s).len(),
        begins_line(s, k),
    ensures
        json_format::column(json_format::laid_out(s), new_start(s, k)) == 2 * json_format::level_of(
            json_format::tokens(s),
            k,
        ),
{
    let toks = json_format::tokens(s);
    let out = json_format::laid_out(s);
    let level = json_format::level_of(toks, k);
    let gap = json_format::gap_before(s, toks, k);
    let g = json_format::gap_text(gap, level);
    let p = new_start(s, k);
    lemma_placed(s, k);
    lemma_spaces_bytes(2 * level);
    if k == 0 {
        assert(g == Seq::<char>::empty());
        assert(p == 0);
        assert(out.subrange(0, 0) == json_format::spaces(0));
    } else {
        let b = p - 2 * level;
        let q = new_end(s, k);
        let head = g.len() - 2 * level;
        assert(g[head - 1] == '\n');
        assert(out[q + (head - 1)] == g[head - 1]);
        assert forall|j: int| b <= j < p implies #[trigger] out[j] == ' ' by {
            assert(out[q + (j - q)] == g[j - q]);
        }
        lemma_line_start_is(out, p, b);
        assert(out.subrange(b, p) == json_format::spaces(2 * level));
    }
}

/// What a moved line holds behind its line feed.
spec fn moved_content(line: Seq<char>, col: nat, level: nat) -> Seq<char> {
    json_format::moved_line(line, col, level).drop_first()
}

proof fn lemma_moved_line_again(line: Seq<char>, col: nat, level: nat)
    requires
        !line.contains('\n'),
    ensures
        json_format::moved_line(moved_content(line, col, level), 2 * level, level)
            == json_format::moved_line(line, col, level),
        json_format::moved_line(line, col, level) == seq!['\n'] + moved_content(line, col, level),
        !moved_content(line, col, level).contains('\n'),
{
    let body = text::trimmed_start(line);
    let c = moved_content(line, col, level);
    text::lemma_trimmed_start(line);
    assert(json_format::moved_line(line, col, level) == seq!['\n'] + c);
    if body.len() == 0 {
        assert(c == Seq::<char>::empty());
    } else {
        let extra = json_format::extra_indent(line, col);
        let pad = json_format::spaces(2 * level + extra);
        assert(c == pad + body) by {
            assert(pad == json_format::indent(level) + json_format::spaces(extra));
        }
        lemma_trimmed_start_pad(2 * level + extra, body);
        lemma_spaces_bytes(2 * level + extra);
        text::lemma_byte_len_add(pad, body);
        assert(json_format::extra_indent(c, 2 * level) == extra);
        assert forall|j: int| 0 <= j < c.len() implies c[j] != '\n' by {
            if j >= pad.len() {
                assert(c[j] == body[j - pad.len()]);
                assert(body[j - pad.len()] == line[line.len() - body.len() + j - pad.len()]);
            }
        }
    }
}

proof fn lemma_trimmed_start_pad(n: nat, body: Seq<char>)
    requires
        body.len() > 0,
        !text::is_white(body.first()),
    ensures
        text::trimmed_start(json_format::spaces(n) + body) == body,
    decreases n,
{
    let u = json_format::spaces(n) + body;
    if n == 0 {
        assert(u == body);
    } else {
        lemma_trimmed_start_pad((n - 1) as nat, body);
        assert(u.drop_first() == json_format::spaces((n - 1) as nat) + body);
    }
}

/// A text that begins with a line without its line feed is cut there.
proof fn lemma_split_head(h: Seq<char>, u: Seq<char>)
    requires
        !h.contains('\n'),
        u.len() > 0,
        u[0] == '\n',
    ensures
        text::split_on(h + u, '\n') == seq![h] + text::split_on(u.drop_first(), '\n'),
{
    let w = h + u;
    assert forall|j: int| 0 <= j < h.len() implies w[j] != '\n' by {
        assert(h.contains(h[j]));
    }
    text::lemma_find_is(w, '\n', 0, h.len() as int);
    assert(w.take(h.len() as int) == h);
    assert(w.skip(h.len() as int + 1) == u.drop_first());
}

proof fn lemma_split_whole(h: Seq<char>)
    requires
        !h.contains('\n'),
    ensures
        text::split_on(h, '\n') == seq![h],
{
    text::lemma_find_from(h, '\n', 0);
    if text::find(h, '\n') < h.len() {
        assert(h.contains(h[text::find(h, '\n')]));
    }
}

proof fn lemma_moved_lines_again(h: Seq<char>, t: Seq<char>, col: nat, level: nat)
    requires
        !h.contains('\n'),
    ensures
        ({
            let f = |line: Seq<char>| json_format::moved_line(line, col, level);
            let g = |line: Seq<char>| json_format::moved_line(line, 2 * level, level);
            let u = text::concat(text::split_on(t, '\n').map_values(f));
            let lines = text::split_on(h + u, '\n');
            &&& lines[0] == h
            &&& text::concat(lines.drop_first().map_values(g)) == u
        }),
    decreases t.len(),
{
    let f = |line: Seq<char>| json_format::moved_line(line, col, level);
    let g = |line: Seq<char>| json_format::moved_line(line, 2 * level, level);
    let n = text::find(t, '\n');
    text::lemma_find_from(t, '\n', 0);
    let u = text::concat(text::split_on(t, '\n').map_values(f));
    if n >= t.len() {
        assert(!t.contains('\n'));
        lemma_moved_line_again(t, col, level);
        let c = moved_content(t, col, level);
        assert(text::split_on(t, '\n').map_values(f) == seq![f(t)] + Seq::<Seq<char>>::empty());
        json_format::lemma_concat_cons(f(t), Seq::empty());
        assert(u == seq!['\n'] + c);
        assert(u.drop_first() == c);
        lemma_split_head(h, u);
        lemma_split_whole(c);
        let lines = text::split_on(h + u, '\n');
        assert(lines.drop_first() == seq![c]);
        assert(lines.drop_first().map_values(g) == seq![g(c)] + Seq::<Seq<char>>::empty());
        json_format::lemma_concat_cons(g(c), Seq::empty());
    } else {
        let line = t.take(n);
        let tail = t.skip(n + 1);
        assert(!line.contains('\n'));
        lemma_moved_line_again(line, col, level);
        let c = moved_content(line, col, level);
        let more = text::split_on(tail, '\n').map_values(f);
        let v = text::concat(more);
        assert(text::split_on(t, '\n').map_values(f) == seq![f(line)] + more);
        json_format::lemma_concat_cons(f(line), more);
        assert(u == seq!['\n'] + c + v);
        assert(u.drop_first() == c + v);
        lemma_moved_lines_again(c, tail, col, level);
        lemma_split_head(h, u);
        let inner = text::split_on(c + v, '\n');
        let lines = text::split_on(h + u, '\n');
        assert(lines.drop_first() == inner);
        assert(inner == seq![c] + inner.drop_first());
        assert(inner.map_values(g) == seq![g(c)] + inner.drop_first().map_values(g));
        json_format::lemma_concat_cons(g(c), inner.drop_first().map_values(g));
    }
}

proof fn lemma_moved_again(t: Seq<char>, col: nat, level: nat)
    requires
        t.contains('\n'),
    ensures
        json_format::moved(json_format::moved(t, col, level), 2 * level, level)
            == json_format::moved(t, col, level),
{
    let n = text::find(t, '\n');
    text::lemma_find_from(t, '\n', 0);
    let i = choose|i: int| 0 <= i < t.len() && t[i] == '\n';
    let h = t.take(n);
    let tail = t.skip(n + 1);
    assert(!h.contains('\n'));
    assert(text::split_on(t, '\n').drop_first() == text::split_on(tail, '\n'));
    lemma_moved_lines_again(h, tail, col, level);
}

/// A token that ends before the text does, does not end with a line feed.
proof fn lemma_token_last(s: Seq<char>, k: int)
    requires
        0 <= k < json_format::tokens(s).len(),
        json_format::tokens(s)[k].2 < s.len() || !ends_line(s),
    ensures
        s[json_format::tokens(s)[k].2 - 1] != '\n',
{
    json_layout::lemma_token(s, k);
    let i = json_format::tokens(s)[k].1;
    let e = json_format::tokens(s)[k].2;
    if e < s.len() {
        match json_comments::piece_at(s, i) {
            Piece::Str => {
                lemma_string_last(s, i + 1);
            },
            Piece::Template => {
                lemma_pair_last(s, '}', '}', i + 2);
            },
            Piece::Comment => {
                if json_comments::at(s, i + 1, '/') {
                    text::lemma_find_from(s, '\n', i);
                } else {
                    lemma_pair_last(s, '*', '/', i + 2);
                }
            },
            Piece::Text => {
                json_format::lemma_value_end(s, i);
                if !json_format::is_punctuation(s[i]) {
                    assert(json_format::in_value(s, e - 1));
                }
            },
        }
    }
}

proof fn lemma_string_last(s: Seq<char>, i: int)
    requires
        0 <= i,
        json_comments::string_end(s, i) < s.len(),
    ensures
        json_comments::string_end(s, i) > 0,
        s[json_comments::string_end(s, i) - 1] == '"',
    decreases s.len() - i,
{
    if i < s.len() {
        if s[i] == '\\' {
            if i + 1 < s.len() {
                lemma_string_last(s, i + 2);
            }
        } else if s[i] != '"' {
            lemma_string_last(s, i + 1);
        }
    }
}

proof fn lemma_pair_last(s: Seq<char>, a: char, b: char, i: int)
    requires
        0 <= i,
        json_comments::pair_end(s, a, b, i) < s.len(),
    ensures
        json_comments::pair_end(s, a, b, i) > 0,
        s[json_comments::pair_end(s, a, b, i) - 1] == b,
    decreases s.len() - i,
{
    if i < s.len() && !(s[i] == a && json_comments::at(s, i + 1, b)) {
        lemma_pair_last(s, a, b, i + 1);
    }
}

proof fn lemma_stays_put(s: Seq<char>, k: int)
    requires
        0 <= k < json_format::tokens(s).len(),
        is_tall(s, k),
        begins_line(s, k),
    ensures
        stays_put(s, k),
{
    let toks = json_format::tokens(s);
    lemma_new_column(s, k);
    lemma_moved_again(
        json_format::token_text(s, toks[k]),
        json_format::column(s, toks[k].1),
        json_format::level_of(toks, k),
    );
}

/// A token that is written last does not end with a line feed, where the text does
/// not.
proof fn lemma_written_last(s: Seq<char>, k: int)
    requires
        0 <= k < json_format::tokens(s).len(),
        !ends_line(s),
        is_tall(s, k) ==> is_closed(json_format::token_text(s, json_format::tokens(s)[k])),
    ensures
        json_format::written(s, json_format::tokens(s), k).len() > 0,
        json_format::written(s, json_format::tokens(s), k).last() != '\n',
{
    let toks = json_format::tokens(s);
    let t = json_format::token_text(s, toks[k]);
    lemma_written_first(s, k);
    json_layout::lemma_token(s, k);
    if is_tall(s, k) {
        let v = t.drop_last();
        let i = choose|i: int| 0 <= i < t.len() && t[i] == '\n';
        assert(v[i] == '\n');
        assert(v.push('/') == t);
        lemma_moved_push(v, '/', json_format::column(s, toks[k].1), json_format::level_of(toks, k));
    } else {
        lemma_token_last(s, k);
    }
}

/// A body settles where each block comment over several lines begins a line of
/// the layout, and where it does not break off inside a comment.
pub proof fn tall_comments_on_lines_of_their_own_settle(s: Seq<char>)
    requires
        json_format::ends_outside_tokens(s),
        forall|k: int|
            0 <= k < json_format::tokens(s).len() && #[trigger] is_tall(s, k) ==> begins_line(s, k)
                && is_closed(json_format::token_text(s, json_format::tokens(s)[k])),
    ensures
        settles(s),
{
    let toks = json_format::tokens(s);
    let n = toks.len() as int;
    let out = json_format::laid_out(s);
    assert forall|k: int| 0 <= k < n && #[trigger] is_tall(s, k) implies stays_put(s, k) by {
        lemma_stays_put(s, k);
    }
    assert(ends_line(out) == ends_line(s)) by {
        if !ends_line(s) && n > 0 {
            let w = json_format::written(s, toks, n - 1);
            lemma_written_last(s, n - 1);
            assert(out =~= json_format::laid_out_to(s, toks, n));
            assert(out.last() == w.last());
        }
    }
}

} // verus!
