//! A layout keeps the comments: every one of them, in order, with its words.
use vstd::prelude::*;

use crate::json;
use crate::json_comments;
use crate::json_comments::Piece;
use crate::json_format;
use crate::json_format::Kind;
use crate::json_layout;
use crate::json_settle;
use crate::text;
use crate::text_laws;

verus! {

// ---------------------------------------------------------------------------
// Comments among spans and among tokens
// ---------------------------------------------------------------------------
/// Whether a token is a comment.
pub open spec fn is_comment(kind: Kind) -> bool {
    kind == Kind::LineComment || kind == Kind::BlockComment
}

/// The comments among the tokens `toks` of `s`, in order.
pub open spec fn comments_in(s: Seq<char>, toks: Seq<(Kind, int, int)>) -> Seq<Seq<char>>
    decreases toks.len(),
{
    if toks.len() == 0 {
        Seq::empty()
    } else if is_comment(toks.last().0) {
        comments_in(s, toks.drop_last()).push(
            json_format::comment_words(json_format::token_text(s, toks.last())),
        )
    } else {
        comments_in(s, toks.drop_last())
    }
}

proof fn lemma_among_first(s: Seq<char>, p: (Piece, int, int), rest: Seq<(Piece, int, int)>)
    ensures
        json_format::comments_among(s, seq![p] + rest) == (if p.0 == Piece::Comment {
            seq![json_format::comment_words(json_comments::covered(s, p))]
        } else {
            seq![]
        }) + json_format::comments_among(s, rest),
    decreases rest.len(),
{
    let all = seq![p] + rest;
    if rest.len() == 0 {
        assert(all.drop_last() == Seq::<(Piece, int, int)>::empty());
        assert(all.last() == p);
        assert(json_format::comments_among(s, all.drop_last()) == Seq::<Seq<char>>::empty());
    } else {
        lemma_among_first(s, p, rest.drop_last());
        assert(all.drop_last() == seq![p] + rest.drop_last());
        assert(all.last() == rest.last());
    }
}

proof fn lemma_in_first(s: Seq<char>, t: (Kind, int, int), rest: Seq<(Kind, int, int)>)
    ensures
        comments_in(s, seq![t] + rest) == (if is_comment(t.0) {
            seq![json_format::comment_words(json_format::token_text(s, t))]
        } else {
            seq![]
        }) + comments_in(s, rest),
    decreases rest.len(),
{
    let all = seq![t] + rest;
    if rest.len() == 0 {
        assert(all.drop_last() == Seq::<(Kind, int, int)>::empty());
        assert(all.last() == t);
        assert(comments_in(s, all.drop_last()) == Seq::<Seq<char>>::empty());
    } else {
        lemma_in_first(s, t, rest.drop_last());
        assert(all.drop_last() == seq![t] + rest.drop_last());
        assert(all.last() == rest.last());
    }
}

/// Ordinary source holds no comment: the tokens of it change nothing.
proof fn lemma_text_holds_none(s: Seq<char>, j: int, e: int)
    requires
        0 <= j <= e <= s.len(),
        forall|i: int| j <= i < e ==> #[trigger] json_comments::piece_at(s, i) == Piece::Text,
        e < s.len() ==> json_comments::piece_at(s, e) != Piece::Text,
    ensures
        comments_in(s, json_format::tokens_from(s, j)) == comments_in(
            s,
            json_format::tokens_from(s, e),
        ),
    decreases e - j,
{
    let w = json_comments::white_end(s, j);
    json_format::lemma_white_end(s, j);
    json_format::lemma_white_end(s, e);
    if w >= e {
        if w > e {
            assert(text::is_ascii_white(s[e]));
        }
        assert(json_comments::white_end(s, e) == e);
    } else {
        let n = json_format::token_end(s, w);
        json_format::lemma_token_end(s, w);
        json_format::lemma_value_end(s, w);
        assert(json_comments::piece_at(s, w) == Piece::Text);
        if n > e {
            assert(json_format::in_value(s, e));
        }
        lemma_in_first(
            s,
            (json_format::kind_at(s, w), w, n),
            json_format::tokens_from(s, n),
        );
        lemma_text_holds_none(s, n, e);
    }
}

proof fn lemma_text_end_is_text(s: Seq<char>, i: int)
    requires
        0 <= i <= s.len(),
    ensures
        i <= json_comments::text_end(s, i) <= s.len(),
        forall|j: int|
            i <= j < json_comments::text_end(s, i) ==> #[trigger] json_comments::piece_at(s, j)
                == Piece::Text,
        json_comments::text_end(s, i) < s.len() ==> json_comments::piece_at(
            s,
            json_comments::text_end(s, i),
        ) != Piece::Text,
    decreases s.len() - i,
{
    if i < s.len() && json_comments::piece_at(s, i) == Piece::Text {
        lemma_text_end_is_text(s, i + 1);
    }
}

proof fn lemma_same_comments(s: Seq<char>, i: int)
    requires
        0 <= i <= s.len(),
    ensures
        json_format::comments_among(s, json_comments::spans_from(s, i)) == comments_in(
            s,
            json_format::tokens_from(s, i),
        ),
    decreases s.len() - i,
{
    json_format::lemma_white_end(s, i);
    if i < s.len() {
        let e = json_comments::span_end(s, i);
        let p = (json_comments::piece_at(s, i), i, e);
        json_comments::lemma_span_end(s, i);
        lemma_same_comments(s, e);
        lemma_among_first(s, p, json_comments::spans_from(s, e));
        if p.0 == Piece::Text {
            lemma_text_end_is_text(s, i);
            lemma_text_holds_none(s, i, e);
        } else {
            let t = (json_format::kind_at(s, i), i, e);
            assert(json_comments::white_end(s, i) == i);
            assert(json_format::token_end(s, i) == e);
            lemma_in_first(s, t, json_format::tokens_from(s, e));
        }
    }
}

// ---------------------------------------------------------------------------
// The words of a comment that is moved
// ---------------------------------------------------------------------------
/// The lines of `t`, each without the white space around it.
pub open spec fn trimmed_lines(t: Seq<char>) -> Seq<Seq<char>> {
    text::lines_of(t).map_values(|line: Seq<char>| text::trimmed(line))
}

proof fn lemma_trimmed_chomped(s: Seq<char>)
    ensures
        text::trimmed(text::chomped(s)) == text::trimmed(s),
{
    if s.len() > 0 && s.last() == '\r' {
        let t = s.drop_last();
        text::lemma_trimmed_start(t);
        let a = t.len() - text::trimmed_start(t).len();
        assert forall|i: int| 0 <= i < a implies text::is_white(#[trigger] s[i]) by {
            assert(t[i] == s[i]);
        }
        if a < t.len() {
            assert(t.skip(a)[0] == t[a]);
            text_laws::lemma_trimmed_start_is(s, a);
            assert(s.skip(a).drop_last() == t.skip(a));
        } else {
            assert forall|i: int| 0 <= i < s.len() implies text::is_white(#[trigger] s[i]) by {}
            text_laws::lemma_trimmed_start_is(s, s.len() as int);
            assert(s.skip(s.len() as int) == text::trimmed_start(t));
        }
    }
}

/// The first of the lines, where one ends at all.
proof fn lemma_first_line(h: Seq<char>, u: Seq<char>)
    requires
        !h.contains('\n'),
        u.len() > 0,
        u[0] == '\n',
    ensures
        trimmed_lines(h + u) == seq![text::trimmed(h)] + trimmed_lines(u.drop_first()),
{
    let w = h + u;
    assert forall|j: int| 0 <= j < h.len() implies w[j] != '\n' by {
        assert(h.contains(h[j]));
    }
    text::lemma_find_is(w, '\n', 0, h.len() as int);
    assert(w.take(h.len() as int) == h);
    assert(w.skip(h.len() as int + 1) == u.drop_first());
    lemma_trimmed_chomped(h);
    assert(text::lines_of(w) == seq![text::chomped(h)] + text::lines_of(u.drop_first()));
    assert(trimmed_lines(w) == seq![text::trimmed(h)] + trimmed_lines(u.drop_first()));
}

proof fn lemma_only_line(h: Seq<char>)
    requires
        h.len() > 0,
        !h.contains('\n'),
    ensures
        trimmed_lines(h) == seq![text::trimmed(h)],
{
    text::lemma_find_from(h, '\n', 0);
    if text::find(h, '\n') < h.len() {
        assert(h.contains(h[text::find(h, '\n')]));
    }
    assert(text::lines_of(h) == seq![h]);
}

proof fn lemma_moved_line_words(line: Seq<char>, col: nat, level: nat)
    requires
        !line.contains('\n'),
    ensures
        ({
            let m = json_format::moved_line(line, col, level);
            let c = m.drop_first();
            &&& m == seq!['\n'] + c
            &&& !c.contains('\n')
            &&& text::trimmed(c) == text::trimmed(line)
            &&& text::trimmed_start(line).len() > 0 ==> c.len() > 0
        }),
{
    let m = json_format::moved_line(line, col, level);
    let c = m.drop_first();
    let body = text::trimmed_start(line);
    text::lemma_trimmed_start(line);
    assert(m == seq!['\n'] + c);
    if body.len() == 0 {
        assert(c == Seq::<char>::empty());
        assert(c == body);
    } else {
        let n = 2 * level + json_format::extra_indent(line, col);
        let pad = json_format::spaces(n);
        assert(c == pad + body);
        assert forall|j: int| 0 <= j < c.len() implies c[j] != '\n' by {
            if j >= n {
                assert(c[j] == body[j - n]);
                assert(body[j - n] == line[line.len() - body.len() + j - n]);
            }
        }
        text_laws::lemma_trimmed_start_is(c, n as int);
        assert(c.skip(n as int) == body);
    }
}

/// Whether the last line of a text has words in it.
pub open spec fn ends_with_words(t: Seq<char>) -> bool {
    text::trimmed_start(text::split_on(t, '\n').last()).len() > 0
}

proof fn lemma_ends_with_words(t: Seq<char>)
    requires
        t.len() > 0,
        !text::is_white(t.last()),
    ensures
        ends_with_words(t),
    decreases t.len(),
{
    let n = text::find(t, '\n');
    text::lemma_find_from(t, '\n', 0);
    if n >= t.len() {
        text::lemma_trimmed_start(t);
        if text::trimmed_start(t).len() == 0 {
            assert(text::is_white(t[t.len() - 1]));
        }
    } else {
        let tail = t.skip(n + 1);
        assert(tail.len() > 0 && tail.last() == t.last());
        lemma_ends_with_words(tail);
        assert(text::split_on(t, '\n').last() == text::split_on(tail, '\n').last());
    }
}

proof fn lemma_moved_lines_words(h: Seq<char>, t: Seq<char>, col: nat, level: nat)
    requires
        !h.contains('\n'),
        ends_with_words(t),
    ensures
        ({
            let f = |line: Seq<char>| json_format::moved_line(line, col, level);
            let u = text::concat(text::split_on(t, '\n').map_values(f));
            trimmed_lines(h + u) == seq![text::trimmed(h)] + trimmed_lines(t)
        }),
    decreases t.len(),
{
    let f = |line: Seq<char>| json_format::moved_line(line, col, level);
    let u = text::concat(text::split_on(t, '\n').map_values(f));
    let n = text::find(t, '\n');
    text::lemma_find_from(t, '\n', 0);
    if n >= t.len() {
        let c = f(t).drop_first();
        assert(!t.contains('\n'));
        lemma_moved_line_words(t, col, level);
        assert(text::split_on(t, '\n').map_values(f) == seq![f(t)] + Seq::<Seq<char>>::empty());
        json_format::lemma_concat_cons(f(t), Seq::empty());
        assert(u == seq!['\n'] + c);
        assert(u.drop_first() == c);
        text::lemma_trimmed_start(t);
        lemma_first_line(h, u);
        lemma_only_line(c);
        lemma_only_line(t);
    } else {
        let line = t.take(n);
        let tail = t.skip(n + 1);
        assert(!line.contains('\n'));
        lemma_moved_line_words(line, col, level);
        let c = f(line).drop_first();
        let more = text::split_on(tail, '\n').map_values(f);
        let v = text::concat(more);
        assert(text::split_on(t, '\n').map_values(f) == seq![f(line)] + more);
        json_format::lemma_concat_cons(f(line), more);
        assert(u == seq!['\n'] + c + v);
        assert(u.drop_first() == c + v);
        assert(text::split_on(t, '\n').last() == text::split_on(tail, '\n').last());
        lemma_moved_lines_words(c, tail, col, level);
        lemma_first_line(h, u);
        assert(t == line + t.skip(n));
        assert(t.skip(n).drop_first() == tail);
        lemma_first_line(line, t.skip(n));
    }
}

/// Moving a comment leaves its words alone.
proof fn lemma_moved_words(t: Seq<char>, col: nat, level: nat)
    requires
        t.contains('\n'),
        ends_with_words(t),
    ensures
        json_format::comment_words(json_format::moved(t, col, level))
            == json_format::comment_words(t),
{
    let n = text::find(t, '\n');
    text::lemma_find_from(t, '\n', 0);
    let i = choose|i: int| 0 <= i < t.len() && t[i] == '\n';
    let h = t.take(n);
    let tail = t.skip(n + 1);
    assert(!h.contains('\n'));
    assert(text::split_on(t, '\n').drop_first() == text::split_on(tail, '\n'));
    assert(text::split_on(t, '\n').last() == text::split_on(tail, '\n').last());
    lemma_moved_lines_words(h, tail, col, level);
    assert(t == h + t.skip(n));
    assert(t.skip(n).drop_first() == tail);
    lemma_first_line(h, t.skip(n));
}

// ---------------------------------------------------------------------------
// The law
// ---------------------------------------------------------------------------
/// A block comment that is closed has words on its last line.
pub proof fn a_closed_comment_ends_with_words(t: Seq<char>)
    requires
        json_settle::is_closed(t),
    ensures
        ends_with_words(t),
{
    lemma_ends_with_words(t);
}

proof fn lemma_written_words(s: Seq<char>, k: int)
    requires
        0 <= k < json_format::tokens(s).len(),
        json_settle::is_tall(s, k) ==> ends_with_words(
            json_format::token_text(s, json_format::tokens(s)[k]),
        ),
    ensures
        json_format::comment_words(json_format::written(s, json_format::tokens(s), k))
            == json_format::comment_words(json_format::token_text(s, json_format::tokens(s)[k])),
{
    let toks = json_format::tokens(s);
    let t = json_format::token_text(s, toks[k]);
    if json_settle::is_tall(s, k) {
        lemma_moved_words(t, json_format::column(s, toks[k].1), json_format::level_of(toks, k));
    }
}

proof fn lemma_kept_to(s: Seq<char>, k: int)
    requires
        0 <= k <= json_format::tokens(s).len(),
        json_format::ends_outside_tokens(s),
        forall|k: int|
            0 <= k < json_format::tokens(s).len() && #[trigger] json_settle::is_tall(s, k)
                ==> ends_with_words(
                json_format::token_text(s, json_format::tokens(s)[k]),
            ),
    ensures
        comments_in(json_format::laid_out(s), json_settle::new_tokens(s).take(k)) == comments_in(
            s,
            json_format::tokens(s).take(k),
        ),
    decreases k,
{
    if k > 0 {
        let toks = json_format::tokens(s);
        let moved = json_settle::new_tokens(s);
        lemma_kept_to(s, k - 1);
        json_settle::layout_is_read_back(s);
        lemma_written_words(s, k - 1);
        assert(toks.take(k).drop_last() == toks.take(k - 1));
        assert(moved.take(k).drop_last() == moved.take(k - 1));
        assert(moved.take(k).last() == moved[k - 1]);
        assert(toks.take(k).last() == toks[k - 1]);
    }
}

/// A layout carries the same comments in the same order, each with its words,
/// unless the text breaks off on a blank line of a block comment.
pub proof fn a_layout_keeps_the_comments(s: Seq<char>)
    requires
        json_format::ends_outside_tokens(s),
        forall|k: int|
            0 <= k < json_format::tokens(s).len() && #[trigger] json_settle::is_tall(s, k)
                ==> ends_with_words(
                json_format::token_text(s, json_format::tokens(s)[k]),
            ),
    ensures
        json_format::comments_of(json_format::laid_out(s)) == json_format::comments_of(s),
{
    let toks = json_format::tokens(s);
    let moved = json_settle::new_tokens(s);
    let n = toks.len() as int;
    lemma_same_comments(s, 0);
    lemma_same_comments(json_format::laid_out(s), 0);
    json_settle::layout_is_read_back(s);
    lemma_kept_to(s, n);
    assert(toks.take(n) == toks);
    assert(moved.take(n) == moved);
}

// ---------------------------------------------------------------------------
// Laying out again
// ---------------------------------------------------------------------------
/// A text is blank just where all of it is white space.
proof fn lemma_blank(s: Seq<char>)
    ensures
        text::is_blank(s) <==> forall|i: int| 0 <= i < s.len() ==> text::is_white(#[trigger] s[i]),
{
    let t = text::trimmed_start(s);
    text::lemma_trimmed_start(s);
    text::lemma_trimmed_end(t);
    if t.len() == 0 {
        assert forall|i: int| 0 <= i < s.len() implies text::is_white(#[trigger] s[i]) by {}
    } else {
        let a = s.len() - t.len();
        assert(t[0] == s[a]);
        assert(!text::is_white(s[a]));
        if text::is_blank(s) {
            assert(text::is_white(t[0]));
        }
    }
}

/// What is not white space is part of a token.
proof fn lemma_in_token(s: Seq<char>, i: int, j: int) -> (k: int)
    requires
        0 <= i <= j < s.len(),
        !text::is_ascii_white(s[j]),
    ensures
        0 <= k < json_format::tokens_from(s, i).len(),
        json_format::tokens_from(s, i)[k].1 <= j < json_format::tokens_from(s, i)[k].2,
    decreases s.len() - i,
{
    let w = json_comments::white_end(s, i);
    json_format::lemma_white_end(s, i);
    json_format::lemma_token_end(s, w);
    let e = json_format::token_end(s, w);
    if j < e {
        0
    } else {
        let k = lemma_in_token(s, e, j);
        assert(json_format::tokens_from(s, i)[k + 1] == json_format::tokens_from(s, e)[k]);
        k + 1
    }
}

/// A layout of a text that is not blank is not blank either.
proof fn lemma_layout_is_not_blank(s: Seq<char>)
    requires
        json_format::ends_outside_tokens(s),
        !text::is_blank(s),
    ensures
        !text::is_blank(json_format::laid_out(s)),
{
    let toks = json_format::tokens(s);
    let out = json_format::laid_out(s);
    lemma_blank(s);
    lemma_blank(out);
    let j = choose|j: int| 0 <= j < s.len() && !text::is_white(#[trigger] s[j]);
    let k = lemma_in_token(s, 0, j);
    let t = json_format::token_text(s, toks[k]);
    let w = json_format::written(s, toks, k);
    json_layout::lemma_token(s, k);
    json_settle::lemma_written_first(s, k);
    json_settle::layout_is_read_back(s);
    let at = json_settle::new_tokens(s)[k];
    lemma_token_inside(out, k);
    assert(json_format::token_text(out, at) == w);
    let o = if json_settle::is_tall(s, k) {
        0
    } else {
        j - toks[k].1
    };
    assert(out.subrange(at.1, at.2)[o] == w[o]);
    assert(out[at.1 + o] == w[o]);
    assert(!text::is_white(w[o])) by {
        if json_settle::is_tall(s, k) {
            assert(t[0] == s[toks[k].1]);
        } else {
            assert(w == t);
            assert(t[o] == s[j]);
        }
    }
}

proof fn lemma_token_inside(s: Seq<char>, k: int)
    requires
        0 <= k < json_format::tokens(s).len(),
    ensures
        0 <= json_format::tokens(s)[k].1 < json_format::tokens(s)[k].2 <= s.len(),
{
    json_layout::lemma_token(s, k);
}

/// A body that can be laid out, and settles, can be laid out again, and that
/// changes nothing more.
pub proof fn prettifying_twice_changes_nothing_more(s: Seq<char>)
    requires
        json_format::formats(s),
        json_settle::settles(s),
    ensures
        json_format::formats(json_format::laid_out(s)),
        json_format::laid_out(json_format::laid_out(s)) == json_format::laid_out(s),
{
    json_settle::laying_out_twice_is_laying_out_once(s);
    lemma_layout_is_not_blank(s);
    json_settle::lemma_layout_ends_outside_tokens(s);
}

/// So does a body without block comments over several lines: what prettifying it
/// gives is not changed by prettifying it once more.
pub proof fn prettifying_a_body_without_tall_comments_once_is_enough(s: Seq<char>)
    requires
        json_format::formats(s),
        forall|k: int|
            0 <= k < json_format::tokens(s).len() ==> !(#[trigger] json_settle::is_tall(s, k)),
    ensures
        json_format::formats(json_format::laid_out(s)),
        json_format::laid_out(json_format::laid_out(s)) == json_format::laid_out(s),
{
    a_body_without_tall_comments_settles(s);
    prettifying_twice_changes_nothing_more(s);
}

/// A body without block comments over several lines settles.
pub proof fn a_body_without_tall_comments_settles(s: Seq<char>)
    requires
        json_format::ends_outside_tokens(s),
        forall|k: int|
            0 <= k < json_format::tokens(s).len() ==> !(#[trigger] json_settle::is_tall(s, k)),
    ensures
        json_settle::settles(s),
{
    json_settle::tall_comments_on_lines_of_their_own_settle(s);
}

/// Every body that is laid out at all is: whatever it begins with and however deep it
/// goes, where it reads as JSON on the wire and is not half-typed, and its layout reads
/// there as the same value, it is laid out, given that no comment over several lines
/// breaks off on a blank one.
pub proof fn every_json_body_is_laid_out(s: Seq<char>)
    requires
        exists|i: int| 0 <= i < s.len() && !text::is_white(#[trigger] s[i]),
        json_format::ends_outside_tokens(s),
        ({
            let before = json_comments::json_shape(json_comments::wire(s));
            let after = json_comments::json_shape(
                json_comments::wire(json_format::laid_out(s)),
            );
            json::is_json(before) && json::is_json(after) && json::same_json(before, after)
        }),
        forall|k: int|
            0 <= k < json_format::tokens(s).len() && #[trigger] json_settle::is_tall(s, k)
                ==> ends_with_words(
                json_format::token_text(s, json_format::tokens(s)[k]),
            ),
    ensures
        json_format::formats(s),
{
    a_layout_keeps_the_comments(s);
    lemma_blank(s);
}

/// And only such a body is: one that is blank, or does not read as JSON on the wire, or
/// whose layout does not, is left alone.
pub proof fn only_json_bodies_are_laid_out(s: Seq<char>)
    requires
        json_format::formats(s),
    ensures
        exists|i: int| 0 <= i < s.len() && !text::is_white(#[trigger] s[i]),
        json::is_json(json_comments::json_shape(json_comments::wire(s))),
        json::is_json(
            json_comments::json_shape(json_comments::wire(json_format::laid_out(s))),
        ),
        json_comments::equivalent(
            json_comments::wire(s),
            json_comments::wire(json_format::laid_out(s)),
        ),
{
    lemma_blank(s);
}

} // verus!
