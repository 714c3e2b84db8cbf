//! What holds of every text that is kept from Hurl's parser.
use vstd::prelude::*;

use crate::hurl_ast;
use crate::text;
use crate::unfinished;
use crate::walk;
use crate::walk::Step;

verus! {

/// Whether a character is a hexadecimal digit.
pub open spec fn is_hex(c: char) -> bool {
    '0' <= c <= '9' || 'a' <= c <= 'f' || 'A' <= c <= 'F'
}

/// Whether the escape of a character stands at `p` that has eight digits or more.
pub open spec fn is_overlong(s: Seq<char>, p: int) -> bool {
    &&& 0 <= p && p + 11 <= s.len()
    &&& s[p] == '\\' && s[p + 1] == 'u' && s[p + 2] == '{'
    &&& forall|i: int| p + 3 <= i < p + 11 ==> is_hex(#[trigger] s[i])
}

/// Whether three backquotes stand at `p`, and somewhere behind them a backslash.
pub open spec fn opens_with_escapes(s: Seq<char>, p: int) -> bool {
    &&& 0 <= p && p + 2 < s.len() && s[p] == '`' && s[p + 1] == '`' && s[p + 2] == '`'
    &&& exists|k: int| p < k < s.len() && #[trigger] s[k] == '\\'
}

/// Whether that stands at `p` which the parser does not come to an end of.
pub open spec fn is_break(s: Seq<char>, p: int) -> bool {
    is_overlong(s, p) || opens_with_escapes(s, p)
}

proof fn lemma_digits_reach(s: Seq<char>, i: int, e: int)
    requires
        0 <= i <= e <= s.len(),
        forall|j: int| i <= j < e ==> is_hex(#[trigger] s[j]),
    ensures
        unfinished::digits_end(s, i) >= e,
    decreases e - i,
{
    if i < e {
        assert(is_hex(s[i]));
        lemma_digits_reach(s, i + 1, e);
    } else if i < s.len() {
        unfinished::lemma_digits_end(s, i);
    }
}

proof fn lemma_wide(s: Seq<char>, p: int)
    requires
        0 <= p < s.len(),
    ensures
        unfinished::is_wide(s, p) == is_overlong(s, p),
{
    if unfinished::is_wide(s, p) {
        unfinished::lemma_digits_end(s, p + 3);
        assert forall|i: int| p + 3 <= i < p + 11 implies is_hex(#[trigger] s[i]) by {
            assert(unfinished::digit_value(s[i]) is Some);
        }
    }
    if is_overlong(s, p) {
        lemma_digits_reach(s, p + 3, p + 11);
    }
}

proof fn lemma_wide_from(s: Seq<char>, i: int, e: int)
    requires
        0 <= i,
        e <= s.len(),
    ensures
        ({
            let w = unfinished::wide_from(s, i, e);
            w < e ==> i <= w && is_break(s, w)
        }),
    decreases e - i,
{
    if i < e {
        if s[i] != '\\' {
            lemma_wide_from(s, i + 1, e);
        } else {
            lemma_wide(s, i);
            if !unfinished::is_wide(s, i) && i + 2 < e {
                lemma_wide_from(s, i + 2, e);
            }
        }
    }
}

proof fn lemma_runs_off(s: Seq<char>, i: int)
    requires
        0 <= i,
        unfinished::runs_off(s, i),
    ensures
        exists|k: int| i <= k < s.len() && #[trigger] s[k] == '\\',
    decreases s.len() - i,
{
    if s[i] != '\\' {
        lemma_runs_off(s, i + 1);
        let k = choose|k: int| i + 1 <= k < s.len() && #[trigger] s[k] == '\\';
        assert(s[k] == '\\');
    }
}

proof fn lemma_fence_step(s: Seq<char>, f: int)
    requires
        0 <= f,
        unfinished::is_fence(s, f),
    ensures
        walk::fence_step(s, f) matches Step::Broken(p) ==> is_break(s, p),
{
    let n = walk::line_end(s, f + 3);
    text::lemma_find_from(s, '\n', f + 3);
    if walk::fence_step(s, f) is Broken {
        lemma_runs_off(s, n + 1);
        let k = choose|k: int| n + 1 <= k < s.len() && #[trigger] s[k] == '\\';
        assert(s[k] == '\\' && f < k);
    }
}

proof fn lemma_assert_step(s: Seq<char>, i: int, quoted: bool)
    requires
        0 <= i,
    ensures
        walk::assert_step(s, i, quoted) matches Step::Broken(p) ==> is_break(s, p),
    decreases s.len() - i,
{
    if i < s.len() && s[i] != '\n' {
        if quoted {
            if s[i] != '\\' {
                lemma_assert_step(s, i + 1, s[i] != '"');
            } else {
                lemma_wide(s, i);
                if i + 2 <= s.len() {
                    lemma_assert_step(s, i + 2, true);
                }
            }
        } else {
            lemma_assert_step(s, i + 1, false);
            lemma_assert_step(s, i + 1, true);
            if unfinished::is_fence(s, i) {
                lemma_fence_step(s, i);
            }
            let e = walk::regex_end(s, i + 1);
            if i < e < s.len() {
                lemma_assert_step(s, e + 1, false);
            }
        }
    }
}

proof fn lemma_hash_from(s: Seq<char>, i: int, e: int)
    requires
        0 <= i <= e,
    ensures
        i <= walk::hash_from(s, i, e) <= e,
    decreases e - i,
{
    if i < e && s[i] != '#' {
        if s[i] == '\\' {
            if i + 2 < e {
                lemma_hash_from(s, i + 2, e);
            }
        } else {
            lemma_hash_from(s, i + 1, e);
        }
    }
}

proof fn lemma_step(s: Seq<char>, b: int)
    requires
        0 <= b < s.len(),
    ensures
        walk::step(s, b) matches Step::Broken(p) ==> is_break(s, p),
{
    let e = walk::line_end(s, b);
    text::lemma_find_from(s, '\n', b);
    lemma_hash_from(s, b, e);
    if unfinished::is_fence(s, b) {
        lemma_fence_step(s, b);
    }
    lemma_assert_step(s, b, false);
    lemma_wide_from(s, b, walk::hash_from(s, b, e));
    lemma_wide_from(s, b, walk::comment_in(s, b, e, true));
    lemma_wide_from(s, b, walk::comment_in(s, b, e, false));
}

proof fn lemma_open_from(s: Seq<char>, i: int)
    requires
        0 <= i,
    ensures
        ({
            let p = unfinished::open_from(s, i);
            p < s.len() ==> is_break(s, p)
        }),
    decreases s.len() - i,
{
    if i < s.len() {
        let n = text::find_from(s, '\n', i + 3);
        if unfinished::begins_escaped(s, i) && unfinished::runs_off(s, n + 1) {
            text::lemma_find_from(s, '\n', i + 3);
            lemma_runs_off(s, n + 1);
            let k = choose|k: int| n + 1 <= k < s.len() && #[trigger] s[k] == '\\';
            assert(s[k] == '\\' && i < k);
        } else {
            lemma_open_from(s, i + 1);
        }
    }
}

proof fn lemma_break_behind(s: Seq<char>, i: int)
    requires
        0 <= i,
    ensures
        unfinished::break_behind(s, i) matches Some(p) ==> is_break(s, p),
{
    lemma_wide_from(s, i, s.len() as int);
    lemma_open_from(s, i);
}

proof fn lemma_past_spaces(s: Seq<char>, i: int)
    requires
        0 <= i <= s.len(),
    ensures
        i <= walk::past_spaces(s, i) <= s.len(),
    decreases s.len() - i,
{
    if i < s.len() && walk::is_space(s[i]) {
        lemma_past_spaces(s, i + 1);
    }
}

proof fn lemma_break_from(s: Seq<char>, i: int, markup: bool)
    requires
        0 <= i,
    ensures
        walk::break_from(s, i, markup) matches Some(p) ==> is_break(s, p),
    decreases s.len() - i,
{
    if i < s.len() {
        let b = walk::past_spaces(s, i);
        let n = walk::next_line(s, b);
        lemma_past_spaces(s, i);
        lemma_break_behind(s, i);
        text::lemma_find_from(s, '\n', b);
        if n > i {
            if unfinished::at(s, b, '#') {
                lemma_break_from(s, n, markup);
            } else if walk::opens_body(s, b) {
                lemma_wide_from(s, b, walk::line_end(s, b));
                if n <= walk::body_end(s, n) <= s.len() {
                    lemma_break_from(s, walk::body_end(s, n), markup || s[b] == '<');
                }
            } else {
                if b < s.len() {
                    lemma_step(s, b);
                } else {
                    lemma_step_at_end(s);
                }
                match walk::step(s, b) {
                    Step::Onward(k) => {
                        if i < k <= s.len() {
                            lemma_break_from(s, k, markup);
                        }
                    },
                    _ => {},
                }
            }
        }
    }
}

proof fn lemma_step_at_end(s: Seq<char>)
    ensures
        !(walk::step(s, s.len() as int) is Broken),
{
    let b = s.len() as int;
    assert(walk::line_end(s, b) == b);
    assert(walk::past_capitals(s, b) == b);
    assert(walk::hash_from(s, b, b) == b);
}

/// A text is kept from the parser for a reason that can be seen: at the place that is
/// told stands the escape of a character with eight digits or more, or a multi-line
/// string begins with a backslash behind it.
pub proof fn a_text_is_held_back_for_an_escape(s: Seq<char>)
    ensures
        walk::break_in(s) matches Some(p) ==> is_break(s, p),
{
    lemma_break_from(s, 0, false);
}

/// So a text without a backslash always reaches the parser.
pub proof fn a_text_without_a_backslash_reaches_the_parser(s: Seq<char>)
    requires
        forall|i: int| 0 <= i < s.len() ==> #[trigger] s[i] != '\\',
    ensures
        walk::break_in(s) is None,
{
    a_text_is_held_back_for_an_escape(s);
    if let Some(p) = walk::break_in(s) {
        if is_overlong(s, p) {
            assert(s[p] != '\\');
        } else {
            let k = choose|k: int| p < k < s.len() && #[trigger] s[k] == '\\';
            assert(s[k] != '\\');
        }
    }
}

proof fn lemma_capitals(s: Seq<char>, i: int, e: int)
    requires
        0 <= i <= e <= s.len(),
        forall|j: int| i <= j < e ==> 'A' <= #[trigger] s[j] <= 'Z',
        e < s.len() ==> !('A' <= s[e] <= 'Z'),
    ensures
        walk::past_capitals(s, i) == e,
    decreases e - i,
{
    if i < e {
        assert('A' <= s[i] <= 'Z');
        lemma_capitals(s, i + 1, e);
    }
}

proof fn lemma_wide_at(s: Seq<char>, i: int, p: int, e: int)
    requires
        0 <= i <= p < e,
        forall|j: int| i <= j < p ==> #[trigger] s[j] != '\\',
        is_overlong(s, p),
    ensures
        unfinished::wide_from(s, i, e) == p,
    decreases p - i,
{
    if i < p {
        assert(s[i] != '\\');
        lemma_wide_at(s, i + 1, p, e);
    } else {
        lemma_wide(s, p);
    }
}

/// An escape with too many digits in the first request line is found: capitals and a
/// space at the beginning of the text, and no line break, comment or other escape
/// before it.
pub proof fn an_overlong_escape_in_a_request_line_is_found(
    method: Seq<char>,
    rest: Seq<char>,
    p: int,
)
    requires
        method.len() > 0,
        forall|i: int| 0 <= i < method.len() ==> 'A' <= #[trigger] method[i] <= 'Z',
        rest.len() > 0 && !walk::is_space(rest[0]) && rest[0] != ':',
        0 <= p,
        is_overlong(rest, p),
        forall|i: int|
            0 <= i < p ==> #[trigger] rest[i] != '\\' && rest[i] != '#' && rest[i] != '\n',
    ensures
        walk::break_in(method + seq![' '] + rest) == Some(method.len() + 1 + p),
{
    let s = method + seq![' '] + rest;
    let n = method.len() as int;
    assert(s[n] == ' ');
    assert forall|j: int| 0 <= j < n implies 'A' <= #[trigger] s[j] <= 'Z' by {
        assert(s[j] == method[j]);
    }
    assert(s[0] == method[0]);
    assert('A' <= s[0] <= 'Z');
    lemma_capitals(s, 0, n);
    assert(walk::past_spaces(s, 0) == 0);
    assert(s[n + 1] == rest[0]);
    assert(walk::past_spaces(s, n + 1) == n + 1);
    assert(walk::past_spaces(s, n) == n + 1);
    let q = n + 1 + p;
    assert forall|i: int| q + 3 <= i < q + 11 implies is_hex(#[trigger] s[i]) by {
        assert(s[i] == rest[i - n - 1]);
    }
    assert(s[q] == rest[p] && s[q + 1] == rest[p + 1] && s[q + 2] == rest[p + 2]);
    assert(is_overlong(s, q));
    let e = walk::line_end(s, 0);
    text::lemma_find_from(s, '\n', 0);
    assert forall|j: int| 0 <= j < q implies #[trigger] s[j] != '\\' && s[j] != '#' && s[j]
        != '\n' by {
        if j < n {
            assert(s[j] == method[j]);
        } else if j > n {
            assert(s[j] == rest[j - n - 1]);
        }
    }
    assert(e > q) by {
        if e <= q {
            assert(s[e] == '\n');
        }
    }
    lemma_found(s, 0, q, e);
    lemma_wide_at(s, 0, q, walk::hash_from(s, 0, e));
}

proof fn lemma_found(s: Seq<char>, i: int, p: int, e: int)
    requires
        0 <= i <= p < e <= s.len(),
        forall|j: int| i <= j < p ==> #[trigger] s[j] != '\\' && s[j] != '#',
        s[p] == '\\',
    ensures
        walk::hash_from(s, i, e) > p,
    decreases p - i,
{
    if i < p {
        assert(s[i] != '\\' && s[i] != '#');
        lemma_found(s, i + 1, p, e);
    } else if i + 2 < e {
        lemma_hash_from(s, i + 2, e);
    }
}

proof fn lemma_count(s: Seq<char>, c: char)
    ensures
        text::count_of(s, c) == s.filter(|x: char| x == c).len(),
    decreases s.len(),
{
    reveal(Seq::filter);
    if s.len() > 0 {
        lemma_count(s.drop_last(), c);
    }
}

/// A text that is kept from the parser is a fault on the line on which the reason for it
/// stands; of any other text the parser's word is final.
pub proof fn a_text_held_back_is_told_by_its_line(s: Seq<char>, p: int)
    requires
        s.len() < usize::MAX,
    ensures
        walk::break_in(s) is None ==> hurl_ast::parsed(s) == hurl_ast::hurl_parse(s),
        walk::break_in(s) == Some(p) ==> {
            &&& hurl_ast::parsed(s) is Err
            &&& hurl_ast::parsed(s)->Err_0.line == 1 + s.take(p).filter(|x: char| x == '\n').len()
        },
{
    if walk::break_in(s) == Some(p) {
        a_text_is_held_back_for_an_escape(s);
        let before = s.take(p);
        lemma_count(before, '\n');
        before.lemma_filter_len(|x: char| x == '\n');
    }
}

} // verus!
