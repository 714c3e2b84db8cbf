//! What is taken out of a body before it is sent.
use vstd::prelude::*;

use crate::json;
use crate::json_comments;
use crate::json_comments::Piece;
use crate::text;
use crate::text_laws;

verus! {

// ---------------------------------------------------------------------------
// Reading a text for comments, one character after the other
// ---------------------------------------------------------------------------
/// What a character is read as part of.
enum Mode {
    Text,
    Str,
    Template,
}

/// Whether no comment begins in `t`, read in a mode.
spec fn clean(t: Seq<char>, m: Mode) -> bool
    decreases t.len(),
{
    if t.len() == 0 {
        true
    } else {
        match m {
            Mode::Text => if t[0] == '"' {
                clean(t.skip(1), Mode::Str)
            } else if t[0] == '{' && t.len() > 1 && t[1] == '{' {
                clean(t.skip(2), Mode::Template)
            } else if t[0] == '/' && t.len() > 1 && (t[1] == '/' || t[1] == '*') {
                false
            } else {
                clean(t.skip(1), Mode::Text)
            },
            Mode::Str => if t[0] == '\\' {
                t.len() == 1 || clean(t.skip(2), Mode::Str)
            } else if t[0] == '"' {
                clean(t.skip(1), Mode::Text)
            } else {
                clean(t.skip(1), Mode::Str)
            },
            Mode::Template => if t[0] == '}' && t.len() > 1 && t[1] == '}' {
                clean(t.skip(2), Mode::Text)
            } else {
                clean(t.skip(1), Mode::Template)
            },
        }
    }
}

/// The mode behind a line, read in a mode; nothing where a comment begins in it.
spec fn scan_line(l: Seq<char>, m: Mode) -> Option<Mode>
    decreases l.len(),
{
    if l.len() == 0 {
        Some(m)
    } else {
        match m {
            Mode::Text => if l[0] == '"' {
                scan_line(l.skip(1), Mode::Str)
            } else if l[0] == '{' && l.len() > 1 && l[1] == '{' {
                scan_line(l.skip(2), Mode::Template)
            } else if l[0] == '/' && l.len() > 1 && (l[1] == '/' || l[1] == '*') {
                None
            } else {
                scan_line(l.skip(1), Mode::Text)
            },
            Mode::Str => if l[0] == '\\' {
                if l.len() == 1 {
                    Some(Mode::Str)
                } else {
                    scan_line(l.skip(2), Mode::Str)
                }
            } else if l[0] == '"' {
                scan_line(l.skip(1), Mode::Text)
            } else {
                scan_line(l.skip(1), Mode::Str)
            },
            Mode::Template => if l[0] == '}' && l.len() > 1 && l[1] == '}' {
                scan_line(l.skip(2), Mode::Text)
            } else {
                scan_line(l.skip(1), Mode::Template)
            },
        }
    }
}

/// A text is read line by line.
proof fn lemma_line_behind(l: Seq<char>, r: Seq<char>, m: Mode)
    requires
        !l.contains('\n'),
    ensures
        clean(l + (seq!['\n'] + r), m) == (match scan_line(l, m) {
            None => false,
            Some(n) => clean(r, n),
        }),
    decreases l.len(),
{
    let t = l + (seq!['\n'] + r);
    if l.len() == 0 {
        assert(t.skip(1) =~= r);
        assert(t[0] == '\n');
    } else {
        assert(t[0] == l[0]);
        assert(t[1] == (if l.len() > 1 {
            l[1]
        } else {
            '\n'
        }));
        let one = l.skip(1);
        assert(t.skip(1) =~= one + (seq!['\n'] + r));
        assert(!one.contains('\n')) by {
            if one.contains('\n') {
                let i = choose|i: int| 0 <= i < one.len() && one[i] == '\n';
                assert(l[i + 1] == '\n');
            }
        }
        lemma_line_behind(one, r, Mode::Text);
        lemma_line_behind(one, r, Mode::Str);
        lemma_line_behind(one, r, Mode::Template);
        if l.len() > 1 {
            let two = l.skip(2);
            assert(t.skip(2) =~= two + (seq!['\n'] + r));
            assert(!two.contains('\n')) by {
                if two.contains('\n') {
                    let i = choose|i: int| 0 <= i < two.len() && two[i] == '\n';
                    assert(l[i + 2] == '\n');
                }
            }
            lemma_line_behind(two, r, Mode::Text);
            lemma_line_behind(two, r, Mode::Str);
            lemma_line_behind(two, r, Mode::Template);
        } else {
            assert(t.skip(2) =~= r);
        }
    }
}

proof fn lemma_last_line(l: Seq<char>, m: Mode)
    ensures
        clean(l, m) == (scan_line(l, m) is Some),
    decreases l.len(),
{
    if l.len() > 0 {
        lemma_last_line(l.skip(1), Mode::Text);
        lemma_last_line(l.skip(1), Mode::Str);
        lemma_last_line(l.skip(1), Mode::Template);
        if l.len() > 1 {
            lemma_last_line(l.skip(2), Mode::Text);
            lemma_last_line(l.skip(2), Mode::Str);
            lemma_last_line(l.skip(2), Mode::Template);
        }
    }
}

spec fn all_white(w: Seq<char>) -> bool {
    forall|i: int| 0 <= i < w.len() ==> text::is_white(#[trigger] w[i])
}

/// White space at the end of a line changes nothing of how it is read.
proof fn lemma_white_behind(a: Seq<char>, w: Seq<char>, m: Mode)
    requires
        all_white(w),
    ensures
        scan_line(a + w, m) == scan_line(a, m),
    decreases a.len() + w.len(),
{
    let l = a + w;
    if l.len() > 0 {
        if a.len() == 0 {
            assert(l =~= w);
            assert(text::is_white(w[0]));
            assert(a + w.skip(1) =~= l.skip(1));
            assert(all_white(w.skip(1))) by {
                assert forall|i: int| 0 <= i < w.skip(1).len() implies text::is_white(
                    #[trigger] w.skip(1)[i],
                ) by {
                    assert(w.skip(1)[i] == w[i + 1]);
                }
            }
            lemma_white_behind(a, w.skip(1), m);
        } else {
            assert(l[0] == a[0]);
            assert(l.skip(1) =~= a.skip(1) + w);
            lemma_white_behind(a.skip(1), w, Mode::Text);
            lemma_white_behind(a.skip(1), w, Mode::Str);
            lemma_white_behind(a.skip(1), w, Mode::Template);
            if a.len() > 1 {
                assert(l[1] == a[1]);
                assert(l.skip(2) =~= a.skip(2) + w);
                lemma_white_behind(a.skip(2), w, Mode::Text);
                lemma_white_behind(a.skip(2), w, Mode::Str);
                lemma_white_behind(a.skip(2), w, Mode::Template);
            } else {
                if w.len() > 0 {
                    assert(l[1] == w[0]);
                    assert(text::is_white(w[0]));
                    let rest = w.skip(1);
                    assert(l.skip(2) =~= Seq::<char>::empty() + rest);
                    assert(all_white(rest)) by {
                        assert forall|i: int| 0 <= i < rest.len() implies text::is_white(
                            #[trigger] rest[i],
                        ) by {
                            assert(rest[i] == w[i + 1]);
                        }
                    }
                    lemma_white_behind(Seq::empty(), rest, Mode::Str);
                }
            }
        }
    }
}

proof fn lemma_trimmed_line(l: Seq<char>, m: Mode)
    ensures
        scan_line(text::trimmed_end(l), m) == scan_line(l, m),
        scan_line(text::chomped(l), m) == scan_line(l, m),
        text::is_blank(l) ==> scan_line(l, m) == Some(m),
{
    let t = text::trimmed_end(l);
    text::lemma_trimmed_end(l);
    let w = l.skip(t.len() as int);
    assert(l =~= t + w);
    assert(all_white(w)) by {
        assert forall|i: int| 0 <= i < w.len() implies text::is_white(#[trigger] w[i]) by {
            assert(w[i] == l[t.len() + i]);
        }
    }
    lemma_white_behind(t, w, m);
    if text::chomped(l) != l {
        let c = text::chomped(l);
        assert(l =~= c + seq!['\r']);
        assert(all_white(seq!['\r']));
        lemma_white_behind(c, seq!['\r'], m);
    }
    if text::is_blank(l) {
        text::lemma_trimmed_start(l);
        let b = text::trimmed_start(l);
        text::lemma_trimmed_end(b);
        assert(all_white(l)) by {
            assert forall|i: int| 0 <= i < l.len() implies text::is_white(#[trigger] l[i]) by {
                let a = l.len() - b.len();
                if i >= a {
                    assert(b[i - a] == l[i]);
                }
            }
        }
        lemma_white_behind(Seq::empty(), l, m);
        assert(Seq::<char>::empty() + l =~= l);
    }
}

/// Whether no comment begins in some lines, read one after the other.
spec fn all_clean(lines: Seq<Seq<char>>, m: Mode) -> bool
    decreases lines.len(),
{
    if lines.len() == 0 {
        true
    } else {
        match scan_line(lines[0], m) {
            None => false,
            Some(n) => all_clean(lines.drop_first(), n),
        }
    }
}

proof fn lemma_lines_of(t: Seq<char>, m: Mode)
    requires
        clean(t, m),
    ensures
        all_clean(text::lines_of(t), m),
    decreases t.len(),
{
    if t.len() > 0 {
        let n = text::find(t, '\n');
        text::lemma_find_from(t, '\n', 0);
        if n >= t.len() {
            lemma_last_line(t, m);
            assert(text::lines_of(t) == seq![t]);
            assert(seq![t].drop_first() =~= Seq::<Seq<char>>::empty());
            assert(all_clean(seq![t].drop_first(), scan_line(t, m).unwrap()));
        } else {
            let l = t.take(n);
            let r = t.skip(n + 1);
            assert(!l.contains('\n'));
            assert(t =~= l + (seq!['\n'] + r));
            lemma_line_behind(l, r, m);
            lemma_trimmed_line(l, m);
            let k = scan_line(l, m).unwrap();
            lemma_lines_of(r, k);
            let lines = text::lines_of(t);
            assert(lines == seq![text::chomped(l)] + text::lines_of(r));
            assert(lines.drop_first() =~= text::lines_of(r));
        }
    }
}

/// The lines that are kept hold no comment where none of the lines does, whatever
/// they are told from.
proof fn lemma_kept_lines(before: Seq<Seq<char>>, after: Seq<Seq<char>>, m: Mode)
    requires
        all_clean(after, m),
    ensures
        all_clean(json_comments::kept_lines(before, after), m),
    decreases before.len(),
{
    if before.len() > 0 && after.len() > 0 {
        let k = scan_line(after[0], m).unwrap();
        lemma_kept_lines(before.drop_first(), after.drop_first(), k);
        lemma_trimmed_line(after[0], m);
        let rest = json_comments::kept_lines(before.drop_first(), after.drop_first());
        if json_comments::only_comment(before.first(), after.first()) {
        } else {
            let kept = seq![text::trimmed_end(after.first())] + rest;
            assert(kept.drop_first() =~= rest);
        }
    }
}

proof fn lemma_joined(lines: Seq<Seq<char>>, tail: Seq<char>, m: Mode)
    requires
        all_clean(lines, m),
        forall|i: int| 0 <= i < lines.len() ==> !(#[trigger] lines[i]).contains('\n'),
        tail == seq!['\n'] || tail == Seq::<char>::empty(),
    ensures
        clean(text::joined(lines, seq!['\n']) + tail, m),
    decreases lines.len(),
{
    let t = text::joined(lines, seq!['\n']);
    if lines.len() == 0 {
        assert(t =~= Seq::<char>::empty());
        if tail.len() > 0 {
            assert(t + tail =~= Seq::<char>::empty() + (seq!['\n'] + Seq::<char>::empty()));
            lemma_line_behind(Seq::empty(), Seq::empty(), m);
        }
    } else {
        let l = lines[0];
        let rest = lines.drop_first();
        let k = scan_line(l, m).unwrap();
        assert(!lines[0].contains('\n'));
        if lines.len() == 1 {
            lemma_joined_first(lines, seq!['\n']);
            if tail.len() == 0 {
                assert(t + tail =~= l);
                lemma_last_line(l, m);
            } else {
                assert(t + tail =~= l + (seq!['\n'] + Seq::<char>::empty()));
                lemma_line_behind(l, Seq::empty(), m);
            }
        } else {
            assert forall|i: int| 0 <= i < rest.len() implies !(#[trigger] rest[i]).contains(
                '\n',
            ) by {
                assert(rest[i] == lines[i + 1]);
            }
            lemma_joined(rest, tail, k);
            lemma_joined_first(lines, seq!['\n']);
            let u = text::joined(rest, seq!['\n']) + tail;
            assert(t + tail =~= l + (seq!['\n'] + u));
            lemma_line_behind(l, u, m);
        }
    }
}

/// The first of some parts stands first in what they are joined to.
pub proof fn lemma_joined_first(lines: Seq<Seq<char>>, sep: Seq<char>)
    requires
        lines.len() > 0,
    ensures
        lines.len() == 1 ==> text::joined(lines, sep) == lines[0],
        lines.len() > 1 ==> text::joined(lines, sep) == lines[0] + (sep
            + text::joined(lines.drop_first(), sep)),
    decreases lines.len(),
{
    if lines.len() > 2 {
        let front = lines.drop_last();
        lemma_joined_first(front, sep);
        assert(front.drop_first() =~= lines.drop_first().drop_last());
        assert(front[0] == lines[0]);
        assert(lines.drop_first().last() == lines.last());
        let a = text::joined(front.drop_first(), sep);
        assert(lines[0] + (sep + a) + sep + lines.last() =~= lines[0] + (sep
            + (a + sep + lines.last())));
    } else if lines.len() == 2 {
        reveal_with_fuel(text::joined, 3);
        assert(lines.drop_last() =~= seq![lines[0]]);
        assert(lines.drop_first() =~= seq![lines[1]]);
        assert(lines[0] + sep + lines[1] =~= lines[0] + (sep + lines[1]));
    } else {
        reveal_with_fuel(text::joined, 2);
    }
}

// ---------------------------------------------------------------------------
// Spans and characters
// ---------------------------------------------------------------------------
proof fn lemma_in_string(s: Seq<char>, j: int, x: Seq<char>)
    requires
        0 <= j <= s.len(),
        json_comments::string_end(s, j) < s.len() || x.len() == 0,
    ensures
        j <= json_comments::string_end(s, j) <= s.len(),
        clean(s.subrange(j, json_comments::string_end(s, j)) + x, Mode::Str) == clean(
            x,
            Mode::Text,
        ),
    decreases s.len() - j,
{
    let e = json_comments::string_end(s, j);
    json_comments::lemma_string_end(s, j);
    let t = s.subrange(j, e) + x;
    if j < s.len() {
        if s[j] == '\\' {
            if j + 1 < s.len() {
                json_comments::lemma_string_end(s, j + 2);
                lemma_in_string(s, j + 2, x);
                assert(t[0] == '\\');
                assert(t.skip(2) =~= s.subrange(j + 2, e) + x);
            } else {
                assert(t =~= seq!['\\']);
            }
        } else if s[j] == '"' {
            assert(t.skip(1) =~= x);
        } else {
            json_comments::lemma_string_end(s, j + 1);
            lemma_in_string(s, j + 1, x);
            assert(t[0] == s[j]);
            assert(t.skip(1) =~= s.subrange(j + 1, e) + x);
        }
    } else {
        assert(t =~= Seq::<char>::empty());
        assert(x =~= Seq::<char>::empty());
    }
}

proof fn lemma_in_template(s: Seq<char>, j: int, x: Seq<char>)
    requires
        0 <= j <= s.len(),
        json_comments::pair_end(s, '}', '}', j) < s.len() || x.len() == 0,
    ensures
        j <= json_comments::pair_end(s, '}', '}', j) <= s.len(),
        clean(s.subrange(j, json_comments::pair_end(s, '}', '}', j)) + x, Mode::Template) == clean(
            x,
            Mode::Text,
        ),
    decreases s.len() - j,
{
    let e = json_comments::pair_end(s, '}', '}', j);
    json_comments::lemma_pair_end(s, '}', '}', j);
    let t = s.subrange(j, e) + x;
    if j < s.len() {
        assert(t[0] == s[j] || e == j);
        if s[j] == '}' && json_comments::at(s, j + 1, '}') {
            assert(t[1] == '}');
            assert(t.skip(2) =~= x);
        } else {
            json_comments::lemma_pair_end(s, '}', '}', j + 1);
            lemma_in_template(s, j + 1, x);
            assert(t[0] == s[j]);
            assert(t.skip(1) =~= s.subrange(j + 1, e) + x);
            if t.len() > 1 {
                if j + 1 < e {
                    assert(t[1] == s[j + 1]);
                } else {
                    lemma_pair_end_is_closed(s, j);
                }
            }
        }
    } else {
        assert(t =~= Seq::<char>::empty());
        assert(x =~= Seq::<char>::empty());
    }
}

/// A template that ends before the text does ends behind two braces.
proof fn lemma_pair_end_is_closed(s: Seq<char>, j: int)
    requires
        0 <= j < s.len(),
    ensures
        json_comments::pair_end(s, '}', '}', j) < s.len() ==> json_comments::pair_end(
            s,
            '}',
            '}',
            j,
        ) >= j + 2,
{
    reveal_with_fuel(json_comments::pair_end, 3);
    json_comments::lemma_pair_end(s, '}', '}', j);
    if !(s[j] == '}' && json_comments::at(s, j + 1, '}')) && j + 1 < s.len() {
        json_comments::lemma_pair_end(s, '}', '}', j + 1);
        if !(s[j + 1] == '}' && json_comments::at(s, j + 2, '}')) {
            json_comments::lemma_pair_end(s, '}', '}', j + 2);
        }
    }
}

proof fn lemma_in_text(s: Seq<char>, j: int, e: int, x: Seq<char>)
    requires
        0 <= j <= e <= s.len(),
        forall|i: int| j <= i < e ==> #[trigger] json_comments::piece_at(s, i) == Piece::Text,
        j < e && x.len() > 0 ==> !(s[e - 1] == '{' && x[0] == '{'),
        j < e && x.len() > 0 ==> !(s[e - 1] == '/' && (x[0] == '/' || x[0] == '*')),
    ensures
        clean(s.subrange(j, e) + x, Mode::Text) == clean(x, Mode::Text),
    decreases e - j,
{
    let t = s.subrange(j, e) + x;
    if j < e {
        assert(json_comments::piece_at(s, j) == Piece::Text);
        lemma_in_text(s, j + 1, e, x);
        assert(t[0] == s[j]);
        assert(t.skip(1) =~= s.subrange(j + 1, e) + x);
        if j + 1 < e {
            assert(t[1] == s[j + 1]);
        } else if x.len() > 0 {
            assert(t[1] == x[0]);
        }
    } else {
        assert(t =~= x);
    }
}

/// A text is commented from a span on just where one of the spans is a comment.
proof fn lemma_clean_spans(s: Seq<char>, i: int)
    requires
        0 <= i <= s.len(),
    ensures
        clean(s.skip(i), Mode::Text) <==> forall|k: int|
            0 <= k < json_comments::spans_from(s, i).len() ==> (
            #[trigger] json_comments::spans_from(s, i)[k]).0 != Piece::Comment,
    decreases s.len() - i,
{
    let ps = json_comments::spans_from(s, i);
    if i < s.len() {
        let e = json_comments::span_end(s, i);
        json_comments::lemma_span_end(s, i);
        lemma_clean_spans(s, e);
        let rest = json_comments::spans_from(s, e);
        assert(ps == seq![(json_comments::piece_at(s, i), i, e)] + rest);
        assert(ps[0].0 == json_comments::piece_at(s, i));
        assert forall|k: int| 0 <= k < rest.len() implies rest[k] == #[trigger] ps[k + 1] by {}
        let x = s.skip(e);
        let t = s.skip(i);
        assert(t =~= s.subrange(i, e) + x);
        assert(t[0] == s[i]);
        match json_comments::piece_at(s, i) {
            Piece::Text => {
                json_comments::lemma_text_end(s, i);
                if e < s.len() {
                    assert(x[0] == s[e]);
                    assert(json_comments::piece_at(s, e - 1) == Piece::Text);
                }
                lemma_in_text(s, i, e, x);
            },
            Piece::Str => {
                lemma_in_string(s, i + 1, x);
                assert(t.skip(1) =~= s.subrange(i + 1, e) + x);
            },
            Piece::Template => {
                lemma_in_template(s, i + 2, x);
                assert(t[1] == s[i + 1]);
                assert(t.skip(2) =~= s.subrange(i + 2, e) + x);
            },
            Piece::Comment => {
                assert(t[1] == s[i + 1]);
                assert(!clean(t, Mode::Text));
            },
        }
        if clean(t, Mode::Text) {
            assert forall|k: int| 0 <= k < ps.len() implies (#[trigger] ps[k]).0
                != Piece::Comment by {
                if k > 0 {
                    assert(ps[k] == rest[k - 1]);
                }
            }
        } else if json_comments::piece_at(s, i) != Piece::Comment {
            let k = choose|k: int| 0 <= k < rest.len() && (#[trigger] rest[k]).0 == Piece::Comment;
            assert(ps[k + 1] == rest[k]);
        }
    } else {
        assert(s.skip(i) =~= Seq::<char>::empty());
    }
}

// ---------------------------------------------------------------------------
// Without comments
// ---------------------------------------------------------------------------
/// The position behind the comments that begin at `i`, one right behind the other
/// and none over several lines.
pub open spec fn notes_end(s: Seq<char>, i: int) -> int
    decreases s.len() - i,
{
    if 0 <= i < s.len() && json_comments::piece_at(s, i) == Piece::Comment && !s.subrange(
        i,
        json_comments::span_end(s, i),
    ).contains('\n') {
        proof {
            json_comments::lemma_span_end(s, i);
        }
        notes_end(s, json_comments::span_end(s, i))
    } else {
        i
    }
}

/// Whether taking the comments out would put two braces together, which then began
/// a template: one stands right before a comment, and one right behind it.
pub open spec fn joins_braces(s: Seq<char>) -> bool {
    joins_among(s, json_comments::spans(s))
}

pub open spec fn joins_among(s: Seq<char>, ps: Seq<(Piece, int, int)>) -> bool {
    exists|k: int|
        0 <= k < ps.len() && (#[trigger] ps[k]).0 == Piece::Text && json_comments::at(
            s,
            ps[k].2 - 1,
            '{',
        ) && notes_end(s, ps[k].2) > ps[k].2 && json_comments::at(s, notes_end(s, ps[k].2), '{')
}

spec fn bare_from(s: Seq<char>, i: int) -> Seq<char> {
    text::concat(
        json_comments::spans_from(s, i).map_values(
            |p: (Piece, int, int)| json_comments::bare_span(s, p),
        ),
    )
}

proof fn lemma_concat_first(a: Seq<char>, rest: Seq<Seq<char>>)
    ensures
        text::concat(seq![a] + rest) == a + text::concat(rest),
{
    text::lemma_concat_add(seq![a], rest);
    reveal_with_fuel(text::concat, 2);
    assert(seq![a].drop_last() =~= Seq::<Seq<char>>::empty());
    assert(Seq::<char>::empty() + a =~= a);
}

proof fn lemma_bare_from(s: Seq<char>, i: int)
    requires
        0 <= i < s.len(),
    ensures
        i < json_comments::span_end(s, i) <= s.len(),
        bare_from(s, i) == json_comments::bare_span(
            s,
            (json_comments::piece_at(s, i), i, json_comments::span_end(s, i)),
        ) + bare_from(s, json_comments::span_end(s, i)),
{
    let f = |p: (Piece, int, int)| json_comments::bare_span(s, p);
    let e = json_comments::span_end(s, i);
    json_comments::lemma_span_end(s, i);
    let p = (json_comments::piece_at(s, i), i, e);
    let rest = json_comments::spans_from(s, e);
    assert((seq![p] + rest).map_values(f) =~= seq![f(p)] + rest.map_values(f));
    lemma_concat_first(f(p), rest.map_values(f));
}

proof fn lemma_newlines(t: Seq<char>)
    ensures
        forall|i: int|
            0 <= i < json_comments::newlines_of(t).len() ==> #[trigger] json_comments::newlines_of(
                t,
            )[i] == '\n',
        json_comments::newlines_of(t).len() > 0 <==> t.contains('\n'),
    decreases t.len(),
{
    reveal(Seq::filter);
    if t.len() > 0 {
        let front = t.drop_last();
        lemma_newlines(front);
        if t.last() == '\n' {
            assert(t[t.len() - 1] == '\n');
        } else if t.contains('\n') {
            let i = choose|i: int| 0 <= i < t.len() && t[i] == '\n';
            assert(front[i] == '\n');
        }
        if front.contains('\n') {
            let i = choose|i: int| 0 <= i < front.len() && front[i] == '\n';
            assert(t[i] == '\n');
        }
    }
}

/// What begins what is left of a text from a comment on.
proof fn lemma_behind_notes(s: Seq<char>, i: int)
    requires
        0 <= i < s.len(),
    ensures
        bare_from(s, i).len() > 0 ==> {
            ||| bare_from(s, i)[0] == '\n'
            ||| i <= notes_end(s, i) < s.len() && bare_from(s, i)[0] == s[notes_end(s, i)]
        },
    decreases s.len() - i,
{
    lemma_bare_from(s, i);
    let e = json_comments::span_end(s, i);
    let part = s.subrange(i, e);
    if json_comments::piece_at(s, i) == Piece::Comment {
        lemma_newlines(part);
        let had = json_comments::newlines_of(part);
        if part.contains('\n') {
            assert(bare_from(s, i)[0] == had[0]);
        } else {
            assert(had =~= Seq::<char>::empty());
            assert(bare_from(s, i) =~= bare_from(s, e));
            if e < s.len() {
                lemma_behind_notes(s, e);
            } else {
                assert(json_comments::spans_from(s, e) =~= Seq::<(Piece, int, int)>::empty());
            }
        }
    } else {
        assert(bare_from(s, i)[0] == part[0]);
    }
}

proof fn lemma_newlines_are_text(t: Seq<char>, x: Seq<char>)
    requires
        forall|i: int| 0 <= i < t.len() ==> #[trigger] t[i] == '\n',
    ensures
        clean(t + x, Mode::Text) == clean(x, Mode::Text),
    decreases t.len(),
{
    if t.len() > 0 {
        let rest = t.skip(1);
        assert forall|i: int| 0 <= i < rest.len() implies #[trigger] rest[i] == '\n' by {
            assert(rest[i] == t[i + 1]);
        }
        lemma_newlines_are_text(rest, x);
        assert((t + x)[0] == t[0]);
        assert((t + x).skip(1) =~= rest + x);
    } else {
        assert(t + x =~= x);
    }
}

proof fn lemma_bare_is_clean(s: Seq<char>, i: int)
    requires
        0 <= i <= s.len(),
        !joins_among(s, json_comments::spans_from(s, i)),
    ensures
        clean(bare_from(s, i), Mode::Text),
    decreases s.len() - i,
{
    let ps = json_comments::spans_from(s, i);
    if i < s.len() {
        let e = json_comments::span_end(s, i);
        lemma_bare_from(s, i);
        let rest = json_comments::spans_from(s, e);
        assert(ps == seq![(json_comments::piece_at(s, i), i, e)] + rest);
        assert forall|k: int| 0 <= k < rest.len() implies rest[k] == #[trigger] ps[k + 1] by {}
        assert(!joins_among(s, rest)) by {
            if joins_among(s, rest) {
                let k = choose|k: int|
                    0 <= k < rest.len() && (#[trigger] rest[k]).0 == Piece::Text
                        && json_comments::at(s, rest[k].2 - 1, '{') && notes_end(s, rest[k].2)
                        > rest[k].2 && json_comments::at(s, notes_end(s, rest[k].2), '{');
                assert(ps[k + 1] == rest[k]);
            }
        }
        lemma_bare_is_clean(s, e);
        let x = bare_from(s, e);
        let t = bare_from(s, i);
        let part = s.subrange(i, e);
        if e == s.len() {
            assert(rest =~= Seq::<(Piece, int, int)>::empty());
            assert(x =~= Seq::<char>::empty());
        }
        match json_comments::piece_at(s, i) {
            Piece::Text => {
                json_comments::lemma_text_end(s, i);
                if e < s.len() && x.len() > 0 {
                    assert(json_comments::piece_at(s, e - 1) == Piece::Text);
                    lemma_behind_notes(s, e);
                    assert(ps[0] == (Piece::Text, i, e));
                    if s[e - 1] == '{' && x[0] == '{' {
                        assert(json_comments::at(s, notes_end(s, e), '{'));
                        if notes_end(s, e) == e {
                            assert(json_comments::piece_at(s, e - 1) == Piece::Template);
                        }
                        assert(joins_among(s, ps));
                    }
                    if s[e - 1] == '/' {
                        lemma_bare_from(s, e);
                        assert(s[e] != '/' && s[e] != '*');
                        assert(json_comments::piece_at(s, e) != Piece::Comment);
                        assert(x[0] == s.subrange(e, json_comments::span_end(s, e))[0]);
                    }
                }
                lemma_in_text(s, i, e, x);
            },
            Piece::Str => {
                lemma_in_string(s, i + 1, x);
                assert(t[0] == part[0]);
                assert(t.skip(1) =~= s.subrange(i + 1, e) + x);
            },
            Piece::Template => {
                json_comments::lemma_pair_end(s, '}', '}', i + 2);
                lemma_in_template(s, i + 2, x);
                assert(t[0] == part[0] && t[1] == part[1]);
                assert(t.skip(2) =~= s.subrange(i + 2, e) + x);
            },
            Piece::Comment => {
                lemma_newlines(part);
                lemma_newlines_are_text(json_comments::newlines_of(part), x);
            },
        }
    } else {
        assert(ps =~= Seq::<(Piece, int, int)>::empty());
        assert(bare_from(s, i) =~= Seq::<char>::empty());
    }
}

/// No line that is kept holds a line feed.
proof fn lemma_kept_unbroken(before: Seq<Seq<char>>, after: Seq<Seq<char>>)
    requires
        forall|i: int| 0 <= i < after.len() ==> !(#[trigger] after[i]).contains('\n'),
    ensures
        forall|i: int|
            0 <= i < json_comments::kept_lines(before, after).len() ==> !(
            #[trigger] json_comments::kept_lines(before, after)[i]).contains('\n'),
    decreases before.len(),
{
    if before.len() > 0 && after.len() > 0 {
        let more = after.drop_first();
        assert forall|i: int| 0 <= i < more.len() implies !(#[trigger] more[i]).contains('\n') by {
            assert(more[i] == after[i + 1]);
        }
        lemma_kept_unbroken(before.drop_first(), more);
        let rest = json_comments::kept_lines(before.drop_first(), more);
        let kept = json_comments::kept_lines(before, after);
        let t = text::trimmed_end(after[0]);
        text::lemma_trimmed_end(after[0]);
        assert(!t.contains('\n')) by {
            if t.contains('\n') {
                let i = choose|i: int| 0 <= i < t.len() && t[i] == '\n';
                assert(after[0][i] == '\n');
            }
        }
        assert forall|i: int| 0 <= i < kept.len() implies !(#[trigger] kept[i]).contains('\n') by {
            if json_comments::only_comment(before.first(), after.first()) {
                assert(kept[i] == rest[i]);
            } else if i > 0 {
                assert(kept[i] == rest[i - 1]);
            } else {
                assert(kept[0] == t);
            }
        }
    }
}

proof fn lemma_lines_unbroken(t: Seq<char>)
    ensures
        forall|i: int|
            0 <= i < text::lines_of(t).len() ==> !(#[trigger] text::lines_of(t)[i]).contains('\n'),
    decreases t.len(),
{
    if t.len() > 0 {
        let n = text::find(t, '\n');
        text::lemma_find_from(t, '\n', 0);
        let lines = text::lines_of(t);
        if n >= t.len() {
            assert(lines == seq![t]);
            assert(!t.contains('\n'));
        } else {
            let r = t.skip(n + 1);
            lemma_lines_unbroken(r);
            let c = text::chomped(t.take(n));
            assert(!c.contains('\n')) by {
                if c.contains('\n') {
                    let i = choose|i: int| 0 <= i < c.len() && c[i] == '\n';
                    assert(t[i] == '\n');
                }
            }
            assert forall|i: int| 0 <= i < lines.len() implies !(#[trigger] lines[i]).contains(
                '\n',
            ) by {
                if i > 0 {
                    assert(lines[i] == text::lines_of(r)[i - 1]);
                }
            }
        }
    }
}

/// A text without its comments has none, unless taking them out puts two braces
/// together.
pub proof fn a_stripped_text_has_no_comments(s: Seq<char>)
    requires
        !joins_braces(s),
    ensures
        !json_comments::commented(json_comments::stripped(s)),
{
    let b = json_comments::bare(s);
    let before = text::lines_of(s);
    let after = text::lines_of(b);
    let out = json_comments::stripped(s);
    lemma_bare_is_clean(s, 0);
    assert(b == bare_from(s, 0));
    lemma_lines_of(b, Mode::Text);
    lemma_kept_lines(before, after, Mode::Text);
    lemma_lines_unbroken(b);
    lemma_kept_unbroken(before, after);
    let tail = if s.len() > 0 && s.last() == '\n' {
        seq!['\n']
    } else {
        seq![]
    };
    lemma_joined(json_comments::kept_lines(before, after), tail, Mode::Text);
    lemma_clean_spans(out, 0);
    assert(out.skip(0) =~= out);
}

/// Whatever a body begins with and whatever it holds: where it has a comment, and
/// what is left of it without its comments, and the commas that they orphan, reads
/// as JSON, then no comment goes on the wire. Where it does not read as JSON, or
/// there is no comment, the body goes as it is.
pub proof fn no_comment_of_a_json_body_is_sent(s: Seq<char>)
    ensures
        ({
            let left = json_comments::stripped(json_comments::without_orphans(s));
            let reads = json::is_json(json_comments::json_shape(left));
            &&& json_comments::commented(s) && reads && !joins_braces(
                json_comments::without_orphans(s),
            ) ==> !json_comments::commented(json_comments::wire(s))
            &&& json_comments::commented(s) && reads ==> json_comments::wire(s) == left
            &&& !json_comments::commented(s) || !reads ==> json_comments::wire(s) == s
        }),
{
    let w = json_comments::without_orphans(s);
    if !joins_braces(w) {
        a_stripped_text_has_no_comments(w);
    }
}

// ---------------------------------------------------------------------------
// What is left
// ---------------------------------------------------------------------------
/// The characters of `s` from `i` up to `e` that are not gone.
pub open spec fn remaining(s: Seq<char>, gone: spec_fn(int) -> bool, i: int, e: int) -> Seq<char>
    decreases e - i,
{
    if i >= e {
        Seq::empty()
    } else if gone(i) {
        remaining(s, gone, i + 1, e)
    } else {
        seq![s[i]] + remaining(s, gone, i + 1, e)
    }
}

/// Whether position `i` of `s` lies in a span of a kind.
pub open spec fn inside(s: Seq<char>, kind: Piece, i: int) -> bool {
    exists|k: int|
        0 <= k < json_comments::spans(s).len() && (#[trigger] json_comments::spans(s)[k]).0 == kind
            && json_comments::spans(s)[k].1 <= i < json_comments::spans(s)[k].2
}

proof fn lemma_remaining_add(s: Seq<char>, gone: spec_fn(int) -> bool, i: int, m: int, e: int)
    requires
        i <= m <= e,
    ensures
        remaining(s, gone, i, e) == remaining(s, gone, i, m) + remaining(s, gone, m, e),
    decreases m - i,
{
    if i < m {
        lemma_remaining_add(s, gone, i + 1, m, e);
        assert(seq![s[i]] + (remaining(s, gone, i + 1, m) + remaining(s, gone, m, e)) =~= seq![s[i]]
            + remaining(s, gone, i + 1, m) + remaining(s, gone, m, e));
    } else {
        assert(remaining(s, gone, i, m) + remaining(s, gone, m, e) =~= remaining(s, gone, m, e));
    }
}

proof fn lemma_remaining_all(s: Seq<char>, gone: spec_fn(int) -> bool, i: int, e: int)
    requires
        0 <= i <= e <= s.len(),
        forall|j: int| i <= j < e ==> !#[trigger] gone(j),
    ensures
        remaining(s, gone, i, e) == s.subrange(i, e),
    decreases e - i,
{
    if i < e {
        lemma_remaining_all(s, gone, i + 1, e);
        assert(seq![s[i]] + s.subrange(i + 1, e) =~= s.subrange(i, e));
    } else {
        assert(s.subrange(i, e) =~= Seq::<char>::empty());
    }
}

proof fn lemma_remaining_parts(
    s: Seq<char>,
    gone: spec_fn(int) -> bool,
    f: spec_fn((Piece, int, int)) -> Seq<char>,
    i: int,
)
    requires
        0 <= i <= s.len(),
        forall|k: int|
            0 <= k < json_comments::spans_from(s, i).len() ==> f(
                #[trigger] json_comments::spans_from(s, i)[k],
            ) == remaining(
                s,
                gone,
                json_comments::spans_from(s, i)[k].1,
                json_comments::spans_from(s, i)[k].2,
            ),
    ensures
        text::concat(json_comments::spans_from(s, i).map_values(f)) == remaining(
            s,
            gone,
            i,
            s.len() as int,
        ),
    decreases s.len() - i,
{
    let ps = json_comments::spans_from(s, i);
    if i < s.len() {
        let e = json_comments::span_end(s, i);
        json_comments::lemma_span_end(s, i);
        let p = (json_comments::piece_at(s, i), i, e);
        let rest = json_comments::spans_from(s, e);
        assert(ps == seq![p] + rest);
        assert forall|k: int| 0 <= k < rest.len() implies f(#[trigger] rest[k]) == remaining(
            s,
            gone,
            rest[k].1,
            rest[k].2,
        ) by {
            assert(ps[k + 1] == rest[k]);
        }
        lemma_remaining_parts(s, gone, f, e);
        assert(ps.map_values(f) =~= seq![f(p)] + rest.map_values(f));
        lemma_concat_first(f(p), rest.map_values(f));
        assert(ps[0] == p);
        lemma_remaining_add(s, gone, i, e, s.len() as int);
    } else {
        assert(ps.map_values(f) =~= Seq::<Seq<char>>::empty());
    }
}

/// The spans stand one behind the other.
proof fn lemma_spans_apart(s: Seq<char>, i: int, k: int, m: int)
    requires
        0 <= i <= s.len(),
        0 <= k < m < json_comments::spans_from(s, i).len(),
    ensures
        json_comments::spans_from(s, i)[k].2 <= json_comments::spans_from(s, i)[m].1,
    decreases s.len() - i,
{
    json_comments::lemma_span_end(s, i);
    let e = json_comments::span_end(s, i);
    let rest = json_comments::spans_from(s, e);
    if k == 0 {
        lemma_spans_begin(s, e, m - 1);
    } else {
        lemma_spans_apart(s, e, k - 1, m - 1);
    }
}

proof fn lemma_spans_begin(s: Seq<char>, i: int, m: int)
    requires
        0 <= i <= s.len(),
        0 <= m < json_comments::spans_from(s, i).len(),
    ensures
        i <= json_comments::spans_from(s, i)[m].1,
    decreases s.len() - i,
{
    json_comments::lemma_span_end(s, i);
    if m > 0 {
        lemma_spans_begin(s, json_comments::span_end(s, i), m - 1);
    }
}

/// What lies in a span of one kind lies in none of another.
proof fn lemma_inside_one(s: Seq<char>, k: int, kind: Piece, i: int)
    requires
        0 <= k < json_comments::spans(s).len(),
        json_comments::spans(s)[k].1 <= i < json_comments::spans(s)[k].2,
    ensures
        inside(s, kind, i) == (json_comments::spans(s)[k].0 == kind),
{
    let ps = json_comments::spans(s);
    if inside(s, kind, i) {
        let m = choose|m: int|
            0 <= m < ps.len() && (#[trigger] ps[m]).0 == kind && ps[m].1 <= i < ps[m].2;
        if m < k {
            lemma_spans_apart(s, 0, m, k);
        } else if k < m {
            lemma_spans_apart(s, 0, k, m);
        }
    }
}

proof fn lemma_remaining_newlines(s: Seq<char>, gone: spec_fn(int) -> bool, i: int, e: int)
    requires
        0 <= i <= e <= s.len(),
        forall|j: int| i <= j < e ==> #[trigger] gone(j) == (s[j] != '\n'),
    ensures
        remaining(s, gone, i, e) == json_comments::newlines_of(s.subrange(i, e)),
    decreases e - i,
{
    broadcast use Seq::filter_distributes_over_add;

    let p = |c: char| c == '\n';
    if i < e {
        lemma_remaining_newlines(s, gone, i + 1, e);
        assert(s.subrange(i, e) =~= seq![s[i]] + s.subrange(i + 1, e));
        Seq::filter_distributes_over_add(seq![s[i]], s.subrange(i + 1, e), p);
        reveal_with_fuel(Seq::filter, 2);
        assert(gone(i) == (s[i] != '\n'));
        assert(seq![s[i]].drop_last() =~= Seq::<char>::empty());
        assert(Seq::<char>::empty().filter(p) =~= Seq::<char>::empty());
        if s[i] == '\n' {
            assert(seq![s[i]].filter(p) =~= seq![s[i]]);
        } else {
            assert(seq![s[i]].filter(p) =~= Seq::<char>::empty());
            assert(Seq::<char>::empty() + json_comments::newlines_of(s.subrange(i + 1, e))
                =~= json_comments::newlines_of(s.subrange(i + 1, e)));
        }
    } else {
        reveal(Seq::filter);
        assert(s.subrange(i, e) =~= Seq::<char>::empty());
    }
}

/// Taking the comments of a text out takes what lies in them and nothing else, but
/// for their line feeds.
pub proof fn only_what_lies_in_comments_goes(s: Seq<char>)
    ensures
        json_comments::bare(s) == remaining(
            s,
            |i: int| inside(s, Piece::Comment, i) && s[i] != '\n',
            0,
            s.len() as int,
        ),
{
    let gone = |i: int| inside(s, Piece::Comment, i) && s[i] != '\n';
    let f = |p: (Piece, int, int)| json_comments::bare_span(s, p);
    let ps = json_comments::spans(s);
    json_comments::lemma_spans_inside(s, 0);
    assert forall|k: int| 0 <= k < ps.len() implies f(#[trigger] ps[k]) == remaining(
        s,
        gone,
        ps[k].1,
        ps[k].2,
    ) by {
        assert forall|j: int| ps[k].1 <= j < ps[k].2 implies #[trigger] gone(j) == (ps[k].0
            == Piece::Comment && s[j] != '\n') by {
            lemma_inside_one(s, k, Piece::Comment, j);
        }
        if ps[k].0 == Piece::Comment {
            lemma_remaining_newlines(s, gone, ps[k].1, ps[k].2);
        } else {
            lemma_remaining_all(s, gone, ps[k].1, ps[k].2);
        }
    }
    lemma_remaining_parts(s, gone, f, 0);
}

/// Whether there is nothing but white space and comments from `i` up to `e`.
pub open spec fn is_filler(s: Seq<char>, i: int, e: int) -> bool
    decreases e - i,
{
    ||| i == e
    ||| 0 <= i < e <= s.len() && text::is_ascii_white(s[i]) && is_filler(s, i + 1, e)
    ||| 0 <= i < e <= s.len() && json_comments::piece_at(s, i) == Piece::Comment && i
        < json_comments::span_end(s, i) <= e && is_filler(s, json_comments::span_end(s, i), e)
}

/// Whether a comma stands at `i` that leads to nothing: behind it is white space, a
/// comment, and nothing but more of both up to a bracket that closes.
pub open spec fn is_idle_comma(s: Seq<char>, i: int) -> bool {
    json_comments::at(s, i, ',') && exists|a: int, e: int|
        i < a <= e && (forall|j: int| i < j < a ==> text::is_ascii_white(#[trigger] s[j]))
            && json_comments::piece_at(s, a) == Piece::Comment && #[trigger] is_filler_from(s, a, e)
            && (json_comments::at(s, e, '}') || json_comments::at(s, e, ']'))
}

pub open spec fn is_filler_from(s: Seq<char>, a: int, e: int) -> bool {
    is_filler(s, a, e)
}

proof fn lemma_white_run(s: Seq<char>, i: int, a: int)
    requires
        0 <= i <= a < s.len(),
        forall|j: int| i <= j < a ==> text::is_ascii_white(#[trigger] s[j]),
        !text::is_ascii_white(s[a]),
    ensures
        json_comments::white_end(s, i) == a,
        json_comments::filler_end(s, i) == json_comments::filler_end(s, a),
    decreases a - i,
{
    if i < a {
        assert(text::is_ascii_white(s[i]));
        lemma_white_run(s, i + 1, a);
    }
}

proof fn lemma_filler(s: Seq<char>, i: int, e: int)
    requires
        is_filler(s, i, e),
        0 <= i <= e < s.len(),
        s[e] == '}' || s[e] == ']',
    ensures
        json_comments::filler_end(s, i) == e,
    decreases e - i,
{
    if i < e {
        if text::is_ascii_white(s[i]) {
            assert(json_comments::piece_at(s, i) == Piece::Text);
            lemma_filler(s, i + 1, e);
        } else {
            json_comments::lemma_span_end(s, i);
            let m = json_comments::span_end(s, i);
            lemma_filler(s, m, e);
        }
    }
}

proof fn lemma_filler_is(s: Seq<char>, i: int)
    requires
        0 <= i <= s.len(),
    ensures
        i <= json_comments::filler_end(s, i) <= s.len(),
        is_filler(s, i, json_comments::filler_end(s, i)),
    decreases s.len() - i,
{
    if i < s.len() {
        if text::is_ascii_white(s[i]) {
            lemma_filler_is(s, i + 1);
        } else if json_comments::piece_at(s, i) == Piece::Comment {
            json_comments::lemma_span_end(s, i);
            lemma_filler_is(s, json_comments::span_end(s, i));
        }
    }
}

proof fn lemma_white_end_is(s: Seq<char>, i: int)
    requires
        0 <= i <= s.len(),
    ensures
        i <= json_comments::white_end(s, i) <= s.len(),
        forall|j: int|
            i <= j < json_comments::white_end(s, i) ==> text::is_ascii_white(#[trigger] s[j]),
    decreases s.len() - i,
{
    if i < s.len() && text::is_ascii_white(s[i]) {
        lemma_white_end_is(s, i + 1);
    }
}

proof fn lemma_orphaned(s: Seq<char>, i: int)
    requires
        0 <= i < s.len(),
    ensures
        json_comments::is_orphaned(s, i) == is_idle_comma(s, i),
{
    if is_idle_comma(s, i) {
        let (a, e) = choose|a: int, e: int|
            i < a <= e && (forall|j: int| i < j < a ==> text::is_ascii_white(#[trigger] s[j]))
                && json_comments::piece_at(s, a) == Piece::Comment && #[trigger] is_filler_from(
                s,
                a,
                e,
            ) && (json_comments::at(s, e, '}') || json_comments::at(s, e, ']'));
        lemma_white_run(s, i + 1, a);
        lemma_filler(s, a, e);
    }
    if json_comments::is_orphaned(s, i) {
        let a = json_comments::white_end(s, i + 1);
        let e = json_comments::filler_end(s, i + 1);
        lemma_white_end_is(s, i + 1);
        assert(a < s.len());
        lemma_white_run(s, i + 1, a);
        lemma_filler_is(s, a);
        assert(is_filler_from(s, a, e));
    }
}

proof fn lemma_remaining_text(s: Seq<char>, gone: spec_fn(int) -> bool, i: int, e: int)
    requires
        0 <= i <= e <= s.len(),
        forall|j: int| i <= j < e ==> #[trigger] gone(j) == json_comments::is_orphaned(s, j),
    ensures
        remaining(s, gone, i, e) == json_comments::text_without_orphans(s, i, e),
    decreases e - i,
{
    if i < e {
        assert(gone(i) == json_comments::is_orphaned(s, i));
        lemma_remaining_text(s, gone, i + 1, e);
    }
}

/// Of the commas of a body those go that its comments leave without anything to lead
/// to, in an object and in a list alike, and nothing else goes with them.
pub proof fn only_idle_commas_go(s: Seq<char>)
    ensures
        json_comments::without_orphans(s) == remaining(
            s,
            |i: int| inside(s, Piece::Text, i) && is_idle_comma(s, i),
            0,
            s.len() as int,
        ),
{
    let gone = |i: int| inside(s, Piece::Text, i) && is_idle_comma(s, i);
    let f = |p: (Piece, int, int)| json_comments::span_without_orphans(s, p);
    let ps = json_comments::spans(s);
    json_comments::lemma_spans_inside(s, 0);
    assert forall|k: int| 0 <= k < ps.len() implies f(#[trigger] ps[k]) == remaining(
        s,
        gone,
        ps[k].1,
        ps[k].2,
    ) by {
        assert forall|j: int| ps[k].1 <= j < ps[k].2 implies #[trigger] gone(j) == (ps[k].0
            == Piece::Text && json_comments::is_orphaned(s, j)) by {
            lemma_inside_one(s, k, Piece::Text, j);
            lemma_orphaned(s, j);
        }
        if ps[k].0 == Piece::Text {
            lemma_remaining_text(s, gone, ps[k].1, ps[k].2);
        } else {
            lemma_remaining_all(s, gone, ps[k].1, ps[k].2);
        }
    }
    lemma_remaining_parts(s, gone, f, 0);
}

// ---------------------------------------------------------------------------
// Lines
// ---------------------------------------------------------------------------
/// The characters of `t` that are not white space.
pub open spec fn words(t: Seq<char>) -> Seq<char> {
    t.filter(|c: char| !text::is_white(c))
}

/// Whether a line was nothing but comment.
pub open spec fn is_note_line(before: Seq<char>, after: Seq<char>) -> bool {
    &&& forall|i: int| 0 <= i < after.len() ==> text::is_white(#[trigger] after[i])
    &&& exists|i: int| 0 <= i < before.len() && !text::is_white(#[trigger] before[i])
}

/// The first `n` lines without those that were nothing but comment, each without
/// the white space at its end.
pub open spec fn lines_left(
    before: Seq<Seq<char>>,
    after: Seq<Seq<char>>,
    n: int,
) -> Seq<Seq<char>>
    decreases n,
{
    if n <= 0 {
        Seq::empty()
    } else if is_note_line(before[n - 1], after[n - 1]) {
        lines_left(before, after, n - 1)
    } else {
        lines_left(before, after, n - 1).push(text::trimmed_end(after[n - 1]))
    }
}

proof fn lemma_lines_left_first(before: Seq<Seq<char>>, after: Seq<Seq<char>>, n: int)
    requires
        1 <= n <= before.len(),
        n <= after.len(),
    ensures
        lines_left(before, after, n) == (if is_note_line(before[0], after[0]) {
            seq![]
        } else {
            seq![text::trimmed_end(after[0])]
        }) + lines_left(before.drop_first(), after.drop_first(), n - 1),
    decreases n,
{
    let b = before.drop_first();
    let a = after.drop_first();
    if n == 1 {
        reveal_with_fuel(lines_left, 2);
        assert(lines_left(b, a, 0) =~= Seq::<Seq<char>>::empty());
        assert(lines_left(before, after, 0) =~= Seq::<Seq<char>>::empty());
    } else {
        lemma_lines_left_first(before, after, n - 1);
        assert(b[n - 2] == before[n - 1] && a[n - 2] == after[n - 1]);
    }
}

proof fn lemma_only_comment(before: Seq<char>, after: Seq<char>)
    ensures
        json_comments::only_comment(before, after) == is_note_line(before, after),
{
    text_laws::trimming_leaves_the_core(before);
    text_laws::trimming_leaves_the_core(after);
}

proof fn lemma_kept_is_left(before: Seq<Seq<char>>, after: Seq<Seq<char>>, n: int)
    requires
        n == before.len() || n == after.len(),
        0 <= n <= before.len(),
        n <= after.len(),
    ensures
        json_comments::kept_lines(before, after) == lines_left(before, after, n),
    decreases n,
{
    if n > 0 {
        lemma_lines_left_first(before, after, n);
        lemma_kept_is_left(before.drop_first(), after.drop_first(), n - 1);
        lemma_only_comment(before[0], after[0]);
    }
}

/// How many lines a text has.
proof fn lemma_line_count(t: Seq<char>)
    ensures
        text::lines_of(t).len() == json_comments::newlines_of(t).len() + (if t.len() > 0 && t.last()
            != '\n' {
            1int
        } else {
            0int
        }),
    decreases t.len(),
{
    broadcast use Seq::filter_distributes_over_add;

    let p = |c: char| c == '\n';
    reveal(Seq::filter);
    if t.len() > 0 {
        let n = text::find(t, '\n');
        text::lemma_find_from(t, '\n', 0);
        if n >= t.len() {
            lemma_newlines(t);
            assert(!t.contains('\n'));
            assert(text::lines_of(t) == seq![t]);
        } else {
            let r = t.skip(n + 1);
            lemma_line_count(r);
            assert(t =~= t.take(n) + seq!['\n'] + r);
            lemma_newlines(t.take(n));
            assert(!t.take(n).contains('\n'));
            assert(seq!['\n'].drop_last() =~= Seq::<char>::empty());
            assert(json_comments::newlines_of(seq!['\n']).len() == 1) by {
                reveal_with_fuel(Seq::filter, 2);
            }
            assert(json_comments::newlines_of(t) == json_comments::newlines_of(t.take(n))
                + json_comments::newlines_of(seq!['\n']) + json_comments::newlines_of(r));
            if r.len() > 0 {
                assert(r.last() == t.last());
            } else {
                assert(t.last() == '\n');
            }
        }
    }
}

proof fn lemma_remaining_last(s: Seq<char>, gone: spec_fn(int) -> bool, i: int)
    requires
        0 <= i < s.len(),
        !gone(s.len() - 1),
    ensures
        remaining(s, gone, i, s.len() as int).len() > 0,
        remaining(s, gone, i, s.len() as int).last() == s.last(),
    decreases s.len() - i,
{
    if i + 1 < s.len() {
        lemma_remaining_last(s, gone, i + 1);
    } else {
        assert(remaining(s, gone, i + 1, s.len() as int) =~= Seq::<char>::empty());
    }
}

/// The lines of a text and of its bare form pair up.
proof fn lemma_lines_pair_up(s: Seq<char>)
    ensures
        text::lines_of(json_comments::bare(s)).len() <= text::lines_of(s).len(),
{
    let b = json_comments::bare(s);
    lemma_line_count(s);
    lemma_line_count(b);
    json_comments::bare_keeps_line_breaks(s);
    if s.len() == 0 {
        assert(json_comments::spans(s) =~= Seq::<(Piece, int, int)>::empty());
        assert(b =~= Seq::<char>::empty());
    } else if s.last() == '\n' {
        let gone = |i: int| inside(s, Piece::Comment, i) && s[i] != '\n';
        only_what_lies_in_comments_goes(s);
        lemma_remaining_last(s, gone, 0);
    }
}

/// Without its comments a text keeps its lines, each without the white space at its
/// end, but for those that were nothing but comment. A blank line stays, and so does
/// the line feed at the end.
pub proof fn only_lines_of_comment_go(s: Seq<char>)
    ensures
        ({
            let before = text::lines_of(s);
            let after = text::lines_of(json_comments::bare(s));
            &&& after.len() <= before.len()
            &&& json_comments::stripped(s) == text::joined(
                lines_left(before, after, after.len() as int),
                seq!['\n'],
            ) + (if s.len() > 0 && s.last() == '\n' {
                seq!['\n']
            } else {
                seq![]
            })
        }),
{
    let before = text::lines_of(s);
    let after = text::lines_of(json_comments::bare(s));
    lemma_lines_pair_up(s);
    lemma_kept_is_left(before, after, after.len() as int);
}

proof fn lemma_words_white(w: Seq<char>)
    requires
        all_white(w),
    ensures
        words(w) == Seq::<char>::empty(),
    decreases w.len(),
{
    reveal(Seq::filter);
    if w.len() > 0 {
        assert(text::is_white(w[w.len() - 1]));
        assert(all_white(w.drop_last())) by {
            assert forall|i: int| 0 <= i < w.drop_last().len() implies text::is_white(
                #[trigger] w.drop_last()[i],
            ) by {
                assert(w.drop_last()[i] == w[i]);
            }
        }
        lemma_words_white(w.drop_last());
    }
}

proof fn lemma_words_trimmed(l: Seq<char>)
    ensures
        words(text::trimmed_end(l)) == words(l),
        words(text::chomped(l)) == words(l),
{
    broadcast use Seq::filter_distributes_over_add;

    let t = text::trimmed_end(l);
    text::lemma_trimmed_end(l);
    let w = l.skip(t.len() as int);
    assert(l =~= t + w);
    assert(all_white(w)) by {
        assert forall|i: int| 0 <= i < w.len() implies text::is_white(#[trigger] w[i]) by {
            assert(w[i] == l[t.len() + i]);
        }
    }
    lemma_words_white(w);
    assert(words(l) =~= words(t));
    if text::chomped(l) != l {
        let c = text::chomped(l);
        assert(l =~= c + seq!['\r']);
        lemma_words_white(seq!['\r']);
        assert(words(l) =~= words(c));
    }
}

/// The words of some lines, one line's behind the other's.
spec fn words_in(lines: Seq<Seq<char>>) -> Seq<char>
    decreases lines.len(),
{
    if lines.len() == 0 {
        Seq::empty()
    } else {
        words(lines[0]) + words_in(lines.drop_first())
    }
}

proof fn lemma_words_in_lines(t: Seq<char>)
    ensures
        words_in(text::lines_of(t)) == words(t),
    decreases t.len(),
{
    broadcast use Seq::filter_distributes_over_add;

    if t.len() == 0 {
        reveal(Seq::filter);
    } else {
        let n = text::find(t, '\n');
        text::lemma_find_from(t, '\n', 0);
        let lines = text::lines_of(t);
        if n >= t.len() {
            assert(lines == seq![t]);
            assert(lines.drop_first() =~= Seq::<Seq<char>>::empty());
            assert(words_in(lines.drop_first()) =~= Seq::<char>::empty());
        } else {
            let r = t.skip(n + 1);
            lemma_words_in_lines(r);
            assert(t =~= t.take(n) + seq!['\n'] + r);
            lemma_words_white(seq!['\n']);
            lemma_words_trimmed(t.take(n));
            assert(lines.drop_first() =~= text::lines_of(r));
            assert(words(t) =~= words(t.take(n)) + words(r));
        }
    }
}

proof fn lemma_words_joined(lines: Seq<Seq<char>>, sep: Seq<char>)
    requires
        all_white(sep),
    ensures
        words(text::joined(lines, sep)) == words_in(lines),
    decreases lines.len(),
{
    broadcast use Seq::filter_distributes_over_add;

    if lines.len() == 0 {
        reveal(Seq::filter);
    } else {
        lemma_joined_first(lines, sep);
        lemma_words_joined(lines.drop_first(), sep);
        lemma_words_white(sep);
        if lines.len() == 1 {
            assert(words_in(lines.drop_first()) =~= Seq::<char>::empty());
            assert(words_in(lines) =~= words(lines[0]));
        } else {
            let u = text::joined(lines.drop_first(), sep);
            assert(words(sep + u) =~= words(u));
        }
    }
}

proof fn lemma_words_kept(before: Seq<Seq<char>>, after: Seq<Seq<char>>)
    requires
        after.len() <= before.len(),
    ensures
        words_in(json_comments::kept_lines(before, after)) == words_in(after),
    decreases before.len(),
{
    if before.len() > 0 && after.len() > 0 {
        lemma_words_kept(before.drop_first(), after.drop_first());
        let rest = json_comments::kept_lines(before.drop_first(), after.drop_first());
        lemma_words_trimmed(after[0]);
        if json_comments::only_comment(before.first(), after.first()) {
            lemma_only_comment(before[0], after[0]);
            lemma_words_white(after[0]);
            assert(words_in(after) =~= words_in(after.drop_first()));
        } else {
            let kept = seq![text::trimmed_end(after.first())] + rest;
            assert(kept.drop_first() =~= rest);
            assert(kept[0] == text::trimmed_end(after[0]));
        }
    }
}

/// Everything that lies outside the comments of a text, but for white space, is left
/// when they are taken out, in its order.
pub proof fn nothing_but_comments_is_taken_out(s: Seq<char>)
    ensures
        words(json_comments::stripped(s)) == words(
            remaining(s, |i: int| inside(s, Piece::Comment, i) && s[i] != '\n', 0, s.len() as int),
        ),
{
    broadcast use Seq::filter_distributes_over_add;

    let b = json_comments::bare(s);
    let before = text::lines_of(s);
    let after = text::lines_of(b);
    lemma_lines_pair_up(s);
    lemma_words_kept(before, after);
    lemma_words_in_lines(b);
    lemma_words_joined(json_comments::kept_lines(before, after), seq!['\n']);
    only_what_lies_in_comments_goes(s);
    lemma_words_white(seq!['\n']);
    lemma_words_white(seq![]);
    assert(words(json_comments::stripped(s)) =~= words(
        text::joined(json_comments::kept_lines(before, after), seq!['\n']),
    ));
}

// ---------------------------------------------------------------------------
// Where spans begin and end
// ---------------------------------------------------------------------------
/// Whether `a` and `b` stand at `i`, one behind the other.
pub open spec fn pair_stands(s: Seq<char>, a: char, b: char, i: int) -> bool {
    0 <= i && i + 1 < s.len() && s[i] == a && s[i + 1] == b
}

proof fn lemma_pair_end_first(s: Seq<char>, a: char, b: char, i: int)
    requires
        0 <= i <= s.len(),
    ensures
        ({
            let e = json_comments::pair_end(s, a, b, i);
            &&& i <= e <= s.len()
            &&& pair_stands(s, a, b, e - 2) && i <= e - 2 || e == s.len() && forall|j: int|
                i <= j ==> !pair_stands(s, a, b, j)
            &&& forall|j: int| i <= j < e - 2 ==> !pair_stands(s, a, b, j)
        }),
    decreases s.len() - i,
{
    if i < s.len() && !(s[i] == a && json_comments::at(s, i + 1, b)) {
        lemma_pair_end_first(s, a, b, i + 1);
    }
}

/// What begins a comment in ordinary source is two slashes, or a slash and a star. The
/// first kind goes on to the end of the line, the second up to the first star and
/// slash behind it, or to the end of the text.
pub proof fn a_comment_ends_with_its_line_or_its_mark(s: Seq<char>, i: int)
    requires
        0 <= i < s.len(),
    ensures
        (json_comments::piece_at(s, i) == Piece::Comment) == (pair_stands(s, '/', '/', i)
            || pair_stands(s, '/', '*', i)),
        pair_stands(s, '/', '/', i) ==> {
            let e = json_comments::span_end(s, i);
            &&& forall|j: int| i <= j < e ==> #[trigger] s[j] != '\n'
            &&& e == s.len() || e < s.len() && s[e] == '\n'
        },
        pair_stands(s, '/', '*', i) ==> {
            let e = json_comments::span_end(s, i);
            &&& pair_stands(s, '*', '/', e - 2) && i + 2 <= e - 2 || e == s.len() && forall|j: int|
                i + 2 <= j ==> !pair_stands(s, '*', '/', j)
            &&& forall|j: int| i + 2 <= j < e - 2 ==> !pair_stands(s, '*', '/', j)
        },
{
    text::lemma_find_from(s, '\n', i);
    if i + 2 <= s.len() {
        lemma_pair_end_first(s, '*', '/', i + 2);
    }
}

/// A template begins with two braces and goes on up to the first two that close
/// behind them, or to the end of the text.
pub proof fn a_template_ends_with_its_braces(s: Seq<char>, i: int)
    requires
        0 <= i < s.len(),
    ensures
        (json_comments::piece_at(s, i) == Piece::Template) == pair_stands(s, '{', '{', i),
        pair_stands(s, '{', '{', i) ==> {
            let e = json_comments::span_end(s, i);
            &&& pair_stands(s, '}', '}', e - 2) && i + 2 <= e - 2 || e == s.len() && forall|j: int|
                i + 2 <= j ==> !pair_stands(s, '}', '}', j)
            &&& forall|j: int| i + 2 <= j < e - 2 ==> !pair_stands(s, '}', '}', j)
        },
{
    if i + 2 <= s.len() {
        lemma_pair_end_first(s, '}', '}', i + 2);
    }
}

/// How many backslashes stand right before `j`, counted back to `i`.
pub open spec fn backslashes(s: Seq<char>, i: int, j: int) -> nat
    decreases j - i,
{
    if i < j <= s.len() && s[j - 1] == '\\' {
        backslashes(s, i, j - 1) + 1
    } else {
        0
    }
}

proof fn lemma_string_closes(s: Seq<char>, from: int, i: int)
    requires
        0 <= from <= i <= s.len(),
        backslashes(s, from, i) % 2 == 0,
    ensures
        ({
            let e = json_comments::string_end(s, i);
            &&& i <= e <= s.len()
            &&& e > i && s[e - 1] == '"' && backslashes(s, from, e - 1) % 2 == 0 && (forall|j: int|
                i <= j < e - 1 && #[trigger] s[j] == '"' ==> backslashes(s, from, j) % 2 == 1) || e
                == s.len() && (forall|j: int|
                i <= j < e && #[trigger] s[j] == '"' ==> backslashes(s, from, j) % 2 == 1)
        }),
    decreases s.len() - i,
{
    if i < s.len() {
        if s[i] == '\\' {
            assert(backslashes(s, from, i + 1) == backslashes(s, from, i) + 1);
            if i + 1 < s.len() {
                assert(s[i + 1] == '\\' ==> backslashes(s, from, i + 2) == backslashes(
                    s,
                    from,
                    i + 1,
                ) + 1);
                assert(s[i + 1] != '\\' ==> backslashes(s, from, i + 2) == 0);
                lemma_string_closes(s, from, i + 2);
                let e = json_comments::string_end(s, i);
                assert forall|j: int| i <= j < i + 2 && #[trigger] s[j] == '"' implies backslashes(
                    s,
                    from,
                    j,
                ) % 2 == 1 by {
                    assert(j == i + 1);
                }
            }
        } else if s[i] != '"' {
            assert(backslashes(s, from, i + 1) == 0);
            lemma_string_closes(s, from, i + 1);
        }
    }
}

/// A string begins with a quote, and ends with the first quote behind it that has no
/// backslash before it, or an even number of them. Where there is none it goes on to
/// the end of the text.
pub proof fn a_string_ends_with_its_quote(s: Seq<char>, i: int)
    requires
        0 <= i < s.len(),
    ensures
        (json_comments::piece_at(s, i) == Piece::Str) == (s[i] == '"'),
        s[i] == '"' ==> {
            let e = json_comments::span_end(s, i);
            &&& i < e <= s.len()
            &&& e > i + 1 && s[e - 1] == '"' && backslashes(s, i + 1, e - 1) % 2 == 0 && (forall|
                j: int,
            |
                i < j < e - 1 && #[trigger] s[j] == '"' ==> backslashes(s, i + 1, j) % 2 == 1) || e
                == s.len() && (forall|j: int|
                i < j < e && #[trigger] s[j] == '"' ==> backslashes(s, i + 1, j) % 2 == 1)
        },
{
    lemma_string_closes(s, i + 1, i + 1);
}

/// What a JSON reader is given of a body without templates is its text, all of it but
/// for what lies in its comments.
pub proof fn a_body_without_templates_is_read_as_it_is(s: Seq<char>)
    requires
        forall|k: int|
            0 <= k < json_comments::spans(s).len() ==> (#[trigger] json_comments::spans(s)[k]).0
                != Piece::Template,
    ensures
        json_comments::json_shape(s) == remaining(
            s,
            |i: int| inside(s, Piece::Comment, i),
            0,
            s.len() as int,
        ),
{
    let gone = |i: int| inside(s, Piece::Comment, i);
    let f = |p: (Piece, int, int)| json_comments::shape_span(s, p);
    let ps = json_comments::spans(s);
    json_comments::lemma_spans_inside(s, 0);
    assert forall|k: int| 0 <= k < ps.len() implies f(#[trigger] ps[k]) == remaining(
        s,
        gone,
        ps[k].1,
        ps[k].2,
    ) by {
        assert forall|j: int| ps[k].1 <= j < ps[k].2 implies #[trigger] gone(j) == (ps[k].0
            == Piece::Comment) by {
            lemma_inside_one(s, k, Piece::Comment, j);
        }
        if ps[k].0 == Piece::Comment {
            lemma_remaining_none(s, gone, ps[k].1, ps[k].2);
        } else {
            lemma_remaining_all(s, gone, ps[k].1, ps[k].2);
        }
    }
    lemma_remaining_parts(s, gone, f, 0);
}

proof fn lemma_remaining_none(s: Seq<char>, gone: spec_fn(int) -> bool, i: int, e: int)
    requires
        forall|j: int| i <= j < e ==> #[trigger] gone(j),
    ensures
        remaining(s, gone, i, e) == Seq::<char>::empty(),
    decreases e - i,
{
    if i < e {
        assert(gone(i));
        lemma_remaining_none(s, gone, i + 1, e);
    }
}

/// A template is given to the JSON reader as a string that holds its own text behind
/// a mark, wherever it stands.
pub proof fn a_template_is_read_as_a_string_of_its_own(s: Seq<char>, k: int)
    requires
        0 <= k < json_comments::spans(s).len(),
        json_comments::spans(s)[k].0 == Piece::Template,
    ensures
        exists|before: Seq<char>, behind: Seq<char>|
            json_comments::json_shape(s) == #[trigger] (before + json::json_quoted(
                "\u{0}hurl-template:"@ + s.subrange(
                    json_comments::spans(s)[k].1,
                    json_comments::spans(s)[k].2,
                ),
            ) + behind),
{
    let f = |p: (Piece, int, int)| json_comments::shape_span(s, p);
    let parts = json_comments::spans(s).map_values(f);
    let a = parts.take(k);
    let b = parts.skip(k + 1);
    assert(parts =~= a + (seq![parts[k]] + b));
    text::lemma_concat_add(a, seq![parts[k]] + b);
    lemma_concat_first(parts[k], b);
    assert(text::concat(a) + (parts[k] + text::concat(b)) =~= text::concat(a) + parts[k]
        + text::concat(b));
    assert(parts[k] == json::json_quoted(
        "\u{0}hurl-template:"@ + s.subrange(
            json_comments::spans(s)[k].1,
            json_comments::spans(s)[k].2,
        ),
    ));
}

// ---------------------------------------------------------------------------
// Bodies that say the same
// ---------------------------------------------------------------------------
proof fn lemma_words_of(s: Seq<char>)
    ensures
        words_in(text::words_of(s)) == words(s),
    decreases s.len(),
{
    broadcast use Seq::filter_distributes_over_add;

    let t = text::trimmed_start(s);
    text::lemma_trimmed_start(s);
    let n = s.len() - t.len();
    let w = s.take(n);
    assert(s =~= w + t);
    assert(all_white(w)) by {
        assert forall|i: int| 0 <= i < w.len() implies text::is_white(#[trigger] w[i]) by {
            assert(w[i] == s[i]);
        }
    }
    lemma_words_white(w);
    if t.len() == 0 {
        assert(words(s) =~= Seq::<char>::empty()) by {
            assert(t =~= Seq::<char>::empty());
            lemma_words_white(t);
        }
    } else {
        text::lemma_word_len(t);
        let k = text::word_len(t) as int;
        let rest = t.skip(k);
        assert(k > 0);
        lemma_words_of(rest);
        let all = text::words_of(s);
        assert(all == seq![t.take(k)] + text::words_of(rest));
        assert(all.drop_first() =~= text::words_of(rest));
        assert(t =~= t.take(k) + rest);
        assert(words(s) =~= words(t.take(k)) + words(rest));
    }
}

/// Two bodies say the same where they are the same text; where a JSON reader reads
/// both, also where it reads the same value; and where it does not, also where they
/// hold the same words. Two that say the same hold the same characters but for white
/// space, unless it reads both.
pub proof fn bodies_say_the_same_by_value_or_by_words(a: Seq<char>, b: Seq<char>)
    ensures
        a == b ==> json_comments::equivalent(a, b),
        ({
            let x = json_comments::json_shape(a);
            let y = json_comments::json_shape(b);
            let both = json::is_json(x) && json::is_json(y);
            &&& a != b && both ==> json_comments::equivalent(a, b) == json::same_json(x, y)
            &&& !both && text::words_of(a) == text::words_of(b) ==> json_comments::equivalent(a, b)
            &&& !both && json_comments::equivalent(a, b) ==> words(a) == words(b)
        }),
{
    reveal_strlit(" ");
    assert(all_white(" "@));
    lemma_words_of(a);
    lemma_words_of(b);
    lemma_words_joined(text::words_of(a), " "@);
    lemma_words_joined(text::words_of(b), " "@);
}

} // verus!
