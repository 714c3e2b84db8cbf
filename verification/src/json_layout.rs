//! What laying a body out keeps.
//!
//! A law of [`json_format`](crate::json_format): a layout holds the characters of
//! its source that are not white space, in order.
use vstd::prelude::*;

use crate::json_comments;
use crate::json_format;
use crate::json_format::{Gap, Kind};
use crate::text;

verus! {

broadcast use Seq::filter_distributes_over_add;

// ---------------------------------------------------------------------------
// Solid characters
// ---------------------------------------------------------------------------
/// Whether `c` is white space: ASCII's, or any of Unicode's where `wide`.
pub open spec fn is_blank(c: char, wide: bool) -> bool {
    text::is_ascii_white(c) || wide && text::is_white(c)
}

/// The characters of `s` that are not white space of that sort.
pub open spec fn stripped(s: Seq<char>, wide: bool) -> Seq<char> {
    s.filter(|c: char| !is_blank(c, wide))
}

/// The characters of `s` that are not ASCII white space.
pub open spec fn solid(s: Seq<char>) -> Seq<char> {
    s.filter(|c: char| !text::is_ascii_white(c))
}

/// The characters of `s` that are not white space.
pub open spec fn non_white(s: Seq<char>) -> Seq<char> {
    s.filter(|c: char| !text::is_white(c))
}

/// Whether the white space at the beginning of `s` is ASCII, where not `wide`.
pub open spec fn plainly_indented(s: Seq<char>, wide: bool) -> bool {
    forall|i: int|
        0 <= i < s.len() - text::trimmed_start(s).len() ==> is_blank(#[trigger] s[i], wide)
}

/// Whether every line behind the first is indented so.
pub open spec fn plain_lines(t: Seq<char>, wide: bool) -> bool {
    forall|j: int|
        1 <= j < text::split_on(t, '\n').len() ==> plainly_indented(
            #[trigger] text::split_on(t, '\n')[j],
            wide,
        )
}

/// Whether every block comment of `s` is indented so.
pub open spec fn plain_comments(s: Seq<char>, wide: bool) -> bool {
    forall|k: int|
        0 <= k < json_format::tokens(s).len() && (#[trigger] json_format::tokens(s)[k]).0
            == Kind::BlockComment ==> plain_lines(
            json_format::token_text(s, json_format::tokens(s)[k]),
            wide,
        )
}

proof fn lemma_solid_white(s: Seq<char>, wide: bool)
    requires
        forall|i: int| 0 <= i < s.len() ==> is_blank(#[trigger] s[i], wide),
    ensures
        stripped(s, wide) == Seq::<char>::empty(),
    decreases s.len(),
{
    reveal(Seq::filter);
    if s.len() > 0 {
        assert(is_blank(s[s.len() - 1], wide));
        assert forall|i: int| 0 <= i < s.drop_last().len() implies is_blank(
            #[trigger] s.drop_last()[i],
            wide,
        ) by {
            assert(s.drop_last()[i] == s[i]);
        }
        lemma_solid_white(s.drop_last(), wide);
    }
}

proof fn lemma_solid_gap(gap: Gap, level: nat, wide: bool)
    ensures
        stripped(json_format::gap_text(gap, level), wide) == Seq::<char>::empty(),
{
    lemma_solid_white(json_format::gap_text(gap, level), wide);
}

proof fn lemma_solid_moved_line(line: Seq<char>, col: nat, level: nat, wide: bool)
    requires
        plainly_indented(line, wide),
    ensures
        stripped(json_format::moved_line(line, col, level), wide) == stripped(line, wide),
{
    text::lemma_trimmed_start(line);
    let body = text::trimmed_start(line);
    let n = line.len() - body.len();
    assert(line == line.take(n) + body);
    assert forall|i: int| 0 <= i < n implies is_blank(#[trigger] line.take(n)[i], wide) by {
        assert(line.take(n)[i] == line[i]);
    }
    lemma_solid_white(line.take(n), wide);
    if body.len() == 0 {
        lemma_solid_white(seq!['\n'], wide);
        assert(stripped(body, wide) == Seq::<char>::empty()) by {
            lemma_solid_white(body, wide);
        }
    } else {
        let pad = seq!['\n'] + json_format::indent(level) + json_format::spaces(
            json_format::extra_indent(line, col),
        );
        lemma_solid_white(pad, wide);
    }
}

/// The solid characters of a text are those of its lines.
proof fn lemma_solid_lines(t: Seq<char>, col: nat, level: nat, wide: bool)
    requires
        forall|j: int|
            0 <= j < text::split_on(t, '\n').len() ==> plainly_indented(
                #[trigger] text::split_on(t, '\n')[j],
                wide,
            ),
    ensures
        stripped(
            text::concat(
                text::split_on(t, '\n').map_values(
                    |line: Seq<char>| json_format::moved_line(line, col, level),
                ),
            ),
            wide,
        ) == stripped(t, wide),
    decreases t.len(),
{
    let f = |line: Seq<char>| json_format::moved_line(line, col, level);
    let lines = text::split_on(t, '\n');
    let n = text::find(t, '\n');
    text::lemma_find_from(t, '\n', 0);
    if n >= t.len() {
        assert(lines == seq![t]);
        assert(lines.map_values(f) == seq![f(t)] + Seq::<Seq<char>>::empty());
        json_format::lemma_concat_cons(f(t), Seq::empty());
        assert(plainly_indented(lines[0], wide));
        lemma_solid_moved_line(t, col, level, wide);
    } else {
        let tail = t.skip(n + 1);
        let rest = text::split_on(tail, '\n');
        assert(lines == seq![t.take(n)] + rest);
        assert forall|j: int| 0 <= j < rest.len() implies plainly_indented(
            #[trigger] rest[j],
            wide,
        ) by {
            assert(rest[j] == lines[j + 1]);
        }
        lemma_solid_lines(tail, col, level, wide);
        assert(lines.map_values(f) == seq![f(t.take(n))] + rest.map_values(f));
        json_format::lemma_concat_cons(f(t.take(n)), rest.map_values(f));
        assert(plainly_indented(lines[0], wide));
        lemma_solid_moved_line(t.take(n), col, level, wide);
        lemma_solid_white(seq!['\n'], wide);
        assert(t == t.take(n) + seq!['\n'] + tail);
    }
}

proof fn lemma_solid_moved(t: Seq<char>, col: nat, level: nat, wide: bool)
    requires
        t.contains('\n'),
        plain_lines(t, wide),
    ensures
        stripped(json_format::moved(t, col, level), wide) == stripped(t, wide),
{
    let f = |line: Seq<char>| json_format::moved_line(line, col, level);
    let lines = text::split_on(t, '\n');
    let n = text::find(t, '\n');
    text::lemma_find_from(t, '\n', 0);
    let i = choose|i: int| 0 <= i < t.len() && t[i] == '\n';
    assert(n < t.len());
    let tail = t.skip(n + 1);
    let rest = text::split_on(tail, '\n');
    assert(lines == seq![t.take(n)] + rest);
    assert(lines.drop_first() == rest);
    assert forall|j: int| 0 <= j < rest.len() implies plainly_indented(
        #[trigger] rest[j],
        wide,
    ) by {
        assert(rest[j] == lines[j + 1]);
    }
    lemma_solid_lines(tail, col, level, wide);
    lemma_solid_white(seq!['\n'], wide);
    assert(t == t.take(n) + seq!['\n'] + tail);
}

/// Where the text before token `k` ends: behind the token before it.
pub open spec fn end_before(toks: Seq<(Kind, int, int)>, k: int) -> int {
    if k <= 0 {
        0
    } else {
        toks[k - 1].2
    }
}

/// Token `k` of `s` is the one found from the end of the token before it.
proof fn lemma_token_step(s: Seq<char>, i: int, k: int)
    requires
        0 <= i <= s.len(),
        0 <= k <= json_format::tokens_from(s, i).len(),
    ensures
        ({
            let toks = json_format::tokens_from(s, i);
            let e = if k == 0 {
                i
            } else {
                toks[k - 1].2
            };
            &&& i <= e <= s.len()
            &&& json_format::tokens_from(s, e) == toks.skip(k)
        }),
    decreases k,
{
    let toks = json_format::tokens_from(s, i);
    if k == 0 {
        assert(toks.skip(0) == toks);
    } else {
        let j = json_comments::white_end(s, i);
        json_format::lemma_white_end(s, i);
        json_format::lemma_token_end(s, j);
        let e = json_format::token_end(s, j);
        let rest = json_format::tokens_from(s, e);
        assert(toks.skip(1) == rest);
        lemma_token_step(s, e, k - 1);
        assert(rest.skip(k - 1) == toks.skip(k));
        if k > 1 {
            assert(rest[k - 2] == toks[k - 1]);
        }
    }
}

/// What token `k` of `s` is, and that only white space stands before it.
pub proof fn lemma_token(s: Seq<char>, k: int)
    requires
        0 <= k < json_format::tokens(s).len(),
    ensures
        ({
            let toks = json_format::tokens(s);
            let e = end_before(toks, k);
            let j = toks[k].1;
            &&& 0 <= e <= j < toks[k].2 <= s.len()
            &&& toks[k] == (json_format::kind_at(s, j), j, json_format::token_end(s, j))
            &&& !text::is_ascii_white(s[j])
            &&& forall|i: int| e <= i < j ==> text::is_ascii_white(s[i])
        }),
{
    let toks = json_format::tokens(s);
    lemma_token_step(s, 0, k);
    let e = end_before(toks, k);
    json_format::lemma_white_end(s, e);
    assert(toks.skip(k).len() > 0);
    assert(toks.skip(k)[0] == toks[k]);
    json_format::lemma_token_end(s, toks[k].1);
}

/// Behind the last token of `s` there is only white space.
pub proof fn lemma_after_tokens(s: Seq<char>)
    ensures
        ({
            let e = end_before(json_format::tokens(s), json_format::tokens(s).len() as int);
            &&& 0 <= e <= s.len()
            &&& forall|i: int| e <= i < s.len() ==> text::is_ascii_white(s[i])
        }),
{
    let toks = json_format::tokens(s);
    lemma_token_step(s, 0, toks.len() as int);
    let e = end_before(toks, toks.len() as int);
    json_format::lemma_white_end(s, e);
    assert(toks.skip(toks.len() as int).len() == 0);
}

proof fn lemma_solid_to(s: Seq<char>, k: int, wide: bool)
    requires
        plain_comments(s, wide),
        0 <= k <= json_format::tokens(s).len(),
    ensures
        0 <= end_before(json_format::tokens(s), k) <= s.len(),
        stripped(json_format::laid_out_to(s, json_format::tokens(s), k), wide) == stripped(
            s.take(end_before(json_format::tokens(s), k)),
            wide,
        ),
    decreases k,
{
    let toks = json_format::tokens(s);
    if k == 0 {
        assert(s.take(0) == Seq::<char>::empty());
    } else {
        lemma_solid_to(s, k - 1, wide);
        lemma_token(s, k - 1);
        let e = end_before(toks, k - 1);
        let t = toks[k - 1];
        let gap = json_format::gap_text(
            json_format::gap_before(s, toks, k - 1),
            json_format::level_of(toks, k - 1),
        );
        let w = json_format::written(s, toks, k - 1);
        lemma_solid_gap(
            json_format::gap_before(s, toks, k - 1),
            json_format::level_of(toks, k - 1),
            wide,
        );
        let tt = json_format::token_text(s, t);
        if t.0 == Kind::BlockComment && tt.contains('\n') {
            lemma_solid_moved(
                tt,
                json_format::column(s, t.1),
                json_format::level_of(toks, k - 1),
                wide,
            );
        }
        assert(stripped(w, wide) == stripped(tt, wide));
        let white = s.subrange(e, t.1);
        lemma_solid_white(white, wide);
        assert(s.take(t.2) == s.take(e) + white + tt);
    }
}

proof fn lemma_layout_stripped(s: Seq<char>, wide: bool)
    requires
        plain_comments(s, wide),
    ensures
        stripped(json_format::laid_out(s), wide) == stripped(s, wide),
{
    let toks = json_format::tokens(s);
    lemma_solid_to(s, toks.len() as int, wide);
    lemma_after_tokens(s);
    let e = end_before(toks, toks.len() as int);
    lemma_solid_white(s.skip(e), wide);
    assert(s == s.take(e) + s.skip(e));
    lemma_solid_white(seq!['\n'], wide);
    lemma_solid_white(Seq::<char>::empty(), wide);
}

/// A layout holds the characters of its source that are not white space, all
/// of them and in their order.
pub proof fn layout_keeps_the_characters(s: Seq<char>)
    ensures
        non_white(json_format::laid_out(s)) == non_white(s),
{
    assert forall|t: Seq<char>| #[trigger] plainly_indented(t, true) by {
        text::lemma_trimmed_start(t);
    }
    lemma_layout_stripped(s, true);
    assert((|c: char| !is_blank(c, true)) =~= (|c: char| !text::is_white(c)));
}

/// A layout also holds its source's white space outside ASCII, as it does the
/// other characters, where none of it indents a block comment.
pub proof fn layout_keeps_solid_characters(s: Seq<char>)
    requires
        plain_comments(s, false),
    ensures
        solid(json_format::laid_out(s)) == solid(s),
{
    lemma_layout_stripped(s, false);
    assert((|c: char| !is_blank(c, false)) =~= (|c: char| !text::is_ascii_white(c)));
}

} // verus!
