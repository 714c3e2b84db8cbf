//! How a body is laid out.
//!
//! The laws here go by the words of the tokens alone: what opens and closes, what is
//! a comment, and where the author broke the line.
use vstd::prelude::*;

use crate::json_comments;
use crate::json_comments::Piece;
use crate::json_format;
use crate::json_format::Kind;
use crate::json_layout;
use crate::json_settle;
use crate::text;

verus! {

// ---------------------------------------------------------------------------
// Words
// ---------------------------------------------------------------------------
/// The words of token `k` of `s`.
pub open spec fn word(s: Seq<char>, k: int) -> Seq<char> {
    json_format::token_text(s, json_format::tokens(s)[k])
}

/// Whether a token opens an object or an array.
pub open spec fn opens(w: Seq<char>) -> bool {
    w == seq!['{'] || w == seq!['[']
}

/// Whether a token closes an object or an array.
pub open spec fn closes(w: Seq<char>) -> bool {
    w == seq!['}'] || w == seq![']']
}

/// Whether a token is a comment to the end of its line.
pub open spec fn is_line_note(w: Seq<char>) -> bool {
    w.len() >= 2 && w[0] == '/' && w[1] == '/'
}

/// Whether a token is a comment between marks.
pub open spec fn is_block_note(w: Seq<char>) -> bool {
    w.len() >= 2 && w[0] == '/' && w[1] == '*'
}

/// How many more brackets are opened than closed before token `k`.
pub open spec fn balance(s: Seq<char>, k: int) -> int
    decreases k,
{
    if k <= 0 {
        0
    } else {
        balance(s, k - 1) + (if opens(word(s, k - 1)) {
            1int
        } else if closes(word(s, k - 1)) {
            -1int
        } else {
            0int
        })
    }
}

/// How many brackets token `k` stands in. One that closes stands outside the pair.
pub open spec fn depth(s: Seq<char>, k: int) -> int {
    if closes(word(s, k)) {
        balance(s, k) - 1
    } else {
        balance(s, k)
    }
}

/// Whether no bracket up to token `k` closes what was never opened.
pub open spec fn is_nested(s: Seq<char>, k: int) -> bool {
    forall|m: int| 0 <= m <= k ==> #[trigger] depth(s, m) >= 0
}

/// What a layout puts between token `k` and the one before it.
pub open spec fn between(s: Seq<char>, k: int) -> Seq<char> {
    let out = json_format::laid_out(s);
    let toks = json_format::tokens(out);
    out.subrange(toks[k - 1].2, toks[k].1)
}

/// How many line feeds the author put between token `k` and the one before it.
pub open spec fn breaks(s: Seq<char>, k: int) -> nat {
    let toks = json_format::tokens(s);
    s.subrange(toks[k - 1].2, toks[k].1).filter(|c: char| c == '\n').len()
}

proof fn lemma_kind(s: Seq<char>, k: int)
    requires
        0 <= k < json_format::tokens(s).len(),
    ensures
        ({
            let kind = json_format::tokens(s)[k].0;
            let w = word(s, k);
            &&& w.len() > 0
            &&& (kind == Kind::Open) == opens(w)
            &&& (kind == Kind::Close) == closes(w)
            &&& (kind == Kind::Comma) == (w == seq![','])
            &&& (kind == Kind::Colon) == (w == seq![':'])
            &&& (kind == Kind::LineComment) == is_line_note(w)
            &&& (kind == Kind::BlockComment) == is_block_note(w)
        }),
{
    let t = json_format::tokens(s)[k];
    let j = t.1;
    let w = word(s, k);
    json_layout::lemma_token(s, k);
    json_format::lemma_value_end(s, j);
    json_comments::lemma_span_end(s, j);
    assert(w.len() == t.2 - j);
    assert(w[0] == s[j]);
    if w.len() > 1 {
        assert(w[1] == s[j + 1]);
    }
    if json_comments::piece_at(s, j) == Piece::Text {
        if json_format::is_punctuation(s[j]) {
            assert(w == seq![s[j]]);
        } else if w.len() > 1 {
            assert(json_format::in_value(s, j));
            assert(json_comments::piece_at(s, j) == Piece::Text);
        }
    } else if json_comments::piece_at(s, j) == Piece::Comment {
        if json_comments::at(s, j + 1, '/') {
            text::lemma_find_from(s, '\n', j);
            assert(s[j] != '\n' && s[j + 1] != '\n');
            assert(json_comments::span_end(s, j) >= j + 2) by {
                assert(text::find_from(s, '\n', j) == text::find_from(s, '\n', j + 1));
                assert(text::find_from(s, '\n', j + 1) == text::find_from(s, '\n', j + 2));
                text::lemma_find_from(s, '\n', j + 2);
            }
        } else {
            json_comments::lemma_pair_end(s, '*', '/', j + 2);
        }
    } else if json_comments::piece_at(s, j) == Piece::Template {
        json_comments::lemma_pair_end(s, '}', '}', j + 2);
    }
    assert(seq!['{'][0] == '{' && seq!['['][0] == '[' && seq!['}'][0] == '}' && seq![']'][0] == ']'
        && seq![','][0] == ',' && seq![':'][0] == ':');
    assert(seq!['{'].len() == 1);
}

proof fn lemma_depth(s: Seq<char>, k: int)
    requires
        0 <= k <= json_format::tokens(s).len(),
        is_nested(s, k - 1),
    ensures
        json_format::depth_before(json_format::tokens(s), k) == balance(s, k),
    decreases k,
{
    if k > 0 {
        assert(depth(s, k - 1) >= 0);
        lemma_depth(s, k - 1);
        lemma_kind(s, k - 1);
    }
}

proof fn lemma_level(s: Seq<char>, k: int)
    requires
        0 <= k < json_format::tokens(s).len(),
        is_nested(s, k),
    ensures
        json_format::level_of(json_format::tokens(s), k) == depth(s, k),
{
    assert(depth(s, k) >= 0);
    lemma_depth(s, k);
    lemma_kind(s, k);
}

proof fn lemma_between(s: Seq<char>, k: int)
    requires
        json_format::ends_outside_tokens(s),
        0 < k < json_format::tokens(s).len(),
    ensures
        between(s, k) == json_format::gap_text(
            json_format::gap_before(s, json_format::tokens(s), k),
            json_format::level_of(json_format::tokens(s), k),
        ),
{
    let toks = json_format::tokens(s);
    let out = json_format::laid_out(s);
    json_settle::layout_is_read_back(s);
    json_settle::lemma_placed(s, k);
    let gap = json_format::gap_text(
        json_format::gap_before(s, toks, k),
        json_format::level_of(toks, k),
    );
    let moved = json_settle::new_tokens(s);
    assert(moved[k - 1].2 == json_settle::new_end(s, k));
    assert(moved[k].1 == json_settle::new_start(s, k));
    assert forall|j: int| 0 <= j < gap.len() implies between(s, k)[j] == gap[j] by {
        assert(out[json_settle::new_end(s, k) + j] == gap[j]);
    }
    assert(between(s, k) =~= gap);
}

// ---------------------------------------------------------------------------
// Laws
// ---------------------------------------------------------------------------
/// In a layout every token that begins a line is indented by two columns for each
/// bracket that it stands in, at any depth. The first token begins the text.
pub proof fn a_line_is_indented_by_its_depth(s: Seq<char>, k: int)
    requires
        json_format::ends_outside_tokens(s),
        0 <= k < json_format::tokens(s).len(),
        is_nested(s, k),
    ensures
        json_format::tokens(json_format::laid_out(s)).len() == json_format::tokens(s).len(),
        k == 0 ==> json_format::tokens(json_format::laid_out(s))[0].1 == 0,
        k > 0 && between(s, k).contains('\n') ==> {
            let g = between(s, k);
            let n = g.len() - 2 * depth(s, k);
            &&& n >= 1
            &&& g[n - 1] == '\n'
            &&& forall|j: int| n <= j < g.len() ==> #[trigger] g[j] == ' '
        },
{
    let toks = json_format::tokens(s);
    lemma_level(s, k);
    json_settle::layout_is_read_back(s);
    json_settle::lemma_placed(s, k);
    if k == 0 {
        json_settle::lemma_layout_begins(s);
    } else {
        lemma_between(s, k);
        let g = between(s, k);
        let gap = json_format::gap_before(s, toks, k);
        if g.contains('\n') {
            assert(gap is Line) by {
                if !(gap is Line) {
                    let i = choose|i: int| 0 <= i < g.len() && g[i] == '\n';
                    assert(g[i] == ' ');
                }
            }
        }
    }
}

/// Where a layout breaks the line, and where it does not. Behind a comment to the
/// line's end always. Never before a comma or a colon, nor inside a pair with nothing
/// in it. A comment that stood on the line of the token before it stays there, behind
/// a space. What stands behind a colon follows it on its line, behind a space. Before
/// anything else the line is broken, and a blank line is left where the author left
/// one or more.
pub proof fn lines_are_broken_between_the_parts(s: Seq<char>, k: int)
    requires
        json_format::ends_outside_tokens(s),
        0 < k < json_format::tokens(s).len(),
    ensures
        ({
            let g = between(s, k);
            let before = word(s, k - 1);
            let w = word(s, k);
            let noted = is_line_note(w) || is_block_note(w);
            let tight = w == seq![','] || w == seq![':'] || closes(w) && opens(before);
            let spaced = noted && breaks(s, k) == 0 || before == seq![':'];
            &&& !is_line_note(before) && tight ==> g.len() == 0
            &&& !is_line_note(before) && !tight && spaced ==> g == seq![' ']
            &&& is_line_note(before) || !tight && !spaced ==> {
                &&& g.len() > 0 && g[0] == '\n'
                &&& breaks(s, k) >= 2 ==> g.len() > 1 && g[1] == '\n'
                &&& forall|j: int| 1 <= j < g.len() ==> #[trigger] g[j] == ' ' || (j == 1
                    && breaks(s, k) >= 2)
            }
        }),
{
    let toks = json_format::tokens(s);
    lemma_between(s, k);
    lemma_kind(s, k - 1);
    lemma_kind(s, k);
    assert(json_format::breaks_before(s, toks, k) == breaks(s, k));
    assert(seq![','][0] == ',' && seq![':'][0] == ':');
}

/// A layout holds the tokens of its source, in order and word for word, but for the
/// indentation inside comments over several lines. A line feed at the end stays, and
/// none is added.
pub proof fn a_layout_copies_every_token(s: Seq<char>, k: int)
    requires
        json_format::ends_outside_tokens(s),
        0 <= k < json_format::tokens(s).len(),
    ensures
        !(is_block_note(word(s, k)) && word(s, k).contains('\n')) ==> word(
            json_format::laid_out(s),
            k,
        ) == word(s, k),
        ({
            let out = json_format::laid_out(s);
            let e = json_format::tokens(out).last().2;
            &&& s.last() == '\n' ==> out.skip(e) == seq!['\n']
            &&& s.last() != '\n' ==> e == out.len()
        }),
{
    let toks = json_format::tokens(s);
    let n = toks.len() as int;
    lemma_kind(s, k);
    json_settle::layout_is_read_back(s);
    json_layout::lemma_token(s, k);
    assert(json_settle::new_tokens(s)[k] == json_format::tokens(json_format::laid_out(s))[k]);
    json_settle::lemma_layout_ends(s);
    assert(json_settle::new_tokens(s).last().2 == json_settle::new_end(s, n));
}

/// The lines of a comment over several lines are moved together with its mark: each
/// keeps its words, and is indented as much further than the mark as it was, and
/// never less. Blank lines hold nothing.
pub proof fn a_tall_comment_is_moved_as_one(s: Seq<char>, k: int, i: int)
    requires
        json_format::ends_outside_tokens(s),
        0 <= k < json_format::tokens(s).len(),
        is_nested(s, k),
        is_block_note(word(s, k)),
        0 <= i < text::split_on(word(s, k), '\n').len(),
        word(s, k).contains('\n'),
    ensures
        ({
            let had = text::split_on(word(s, k), '\n');
            let has = text::split_on(word(json_format::laid_out(s), k), '\n');
            let own = text::trimmed_start(had[i]);
            let lead = text::byte_len(had[i]) - text::byte_len(own);
            let mark = json_format::column(s, json_format::tokens(s)[k].1);
            &&& has.len() == had.len()
            &&& i == 0 ==> has[0] == had[0]
            &&& i > 0 && own.len() == 0 ==> has[i].len() == 0
            &&& i > 0 && own.len() > 0 && lead <= mark ==> has[i] == json_format::spaces(
                (2 * depth(s, k)) as nat,
            ) + own
            &&& i > 0 && own.len() > 0 && lead > mark ==> has[i] == json_format::spaces(
                (2 * depth(s, k) + lead - mark) as nat,
            ) + own
        }),
{
    let toks = json_format::tokens(s);
    let t = word(s, k);
    lemma_kind(s, k);
    lemma_level(s, k);
    json_settle::layout_is_read_back(s);
    assert(json_settle::new_tokens(s)[k] == json_format::tokens(json_format::laid_out(s))[k]);
    let col = json_format::column(s, toks[k].1);
    let level = json_format::level_of(toks, k);
    let w = json_format::moved(t, col, level);
    assert(word(json_format::laid_out(s), k) == w);
    lemma_moved_split(t, col, level, i);
    text::lemma_trimmed_start(text::split_on(t, '\n')[i]);
    let extra = json_format::extra_indent(text::split_on(t, '\n')[i], col);
    assert(json_format::indent(level) + json_format::spaces(extra) =~= json_format::spaces(
        2 * level + extra,
    ));
}

/// The lines of a text that is split, one behind the other.
proof fn lemma_split_first(h: Seq<char>, u: Seq<char>)
    requires
        !h.contains('\n'),
    ensures
        text::split_on(h, '\n') == seq![h],
        text::split_on(h + (seq!['\n'] + u), '\n') == seq![h] + text::split_on(u, '\n'),
{
    let w = h + (seq!['\n'] + u);
    assert forall|j: int| 0 <= j < h.len() implies h[j] != '\n' && w[j] != '\n' by {
        assert(h.contains(h[j]));
    }
    text::lemma_find_is(h, '\n', 0, h.len() as int);
    text::lemma_find_is(w, '\n', 0, h.len() as int);
    assert(w.take(h.len() as int) == h);
    assert(w.skip(h.len() as int + 1) == u);
}

spec fn moved_on(line: Seq<char>, col: nat, level: nat) -> Seq<char> {
    if text::trimmed_start(line).len() == 0 {
        Seq::empty()
    } else {
        json_format::indent(level) + json_format::spaces(json_format::extra_indent(line, col))
            + text::trimmed_start(line)
    }
}

proof fn lemma_moved_lines(h: Seq<char>, t: Seq<char>, col: nat, level: nat)
    requires
        !h.contains('\n'),
    ensures
        ({
            let f = |line: Seq<char>| json_format::moved_line(line, col, level);
            let u = text::concat(text::split_on(t, '\n').map_values(f));
            text::split_on(h + u, '\n') == seq![h] + text::split_on(t, '\n').map_values(
                |line: Seq<char>| moved_on(line, col, level),
            )
        }),
    decreases t.len(),
{
    let f = |line: Seq<char>| json_format::moved_line(line, col, level);
    let g = |line: Seq<char>| moved_on(line, col, level);
    let lines = text::split_on(t, '\n');
    let n = text::find(t, '\n');
    text::lemma_find_from(t, '\n', 0);
    let line = if n >= t.len() {
        t
    } else {
        t.take(n)
    };
    assert(!line.contains('\n'));
    let m = moved_on(line, col, level);
    text::lemma_trimmed_start(line);
    assert(!m.contains('\n')) by {
        let body = text::trimmed_start(line);
        if body.len() > 0 {
            assert forall|j: int| 0 <= j < m.len() implies m[j] != '\n' by {
                let pad = m.len() - body.len();
                if j >= pad {
                    assert(m[j] == body[j - pad]);
                    assert(body[j - pad] == line[line.len() - body.len() + j - pad]);
                    assert(line.contains(line[line.len() - body.len() + j - pad]));
                }
            }
        }
    }
    assert(f(line) == seq!['\n'] + m);
    if n >= t.len() {
        assert(lines == seq![t]);
        assert(lines.map_values(f) == seq![f(t)] + Seq::<Seq<char>>::empty());
        json_format::lemma_concat_cons(f(t), Seq::empty());
        assert(text::concat(lines.map_values(f)) == seq!['\n'] + m);
        lemma_split_first(h, m);
        lemma_split_first(m, Seq::empty());
        assert(lines.map_values(g) == seq![m]);
    } else {
        let tail = t.skip(n + 1);
        let rest = text::split_on(tail, '\n');
        let v = text::concat(rest.map_values(f));
        assert(lines == seq![line] + rest);
        assert(lines.map_values(f) == seq![f(line)] + rest.map_values(f));
        json_format::lemma_concat_cons(f(line), rest.map_values(f));
        let u = text::concat(lines.map_values(f));
        assert(u == seq!['\n'] + (m + v));
        lemma_moved_lines(m, tail, col, level);
        lemma_split_first(h, m + v);
        assert(lines.map_values(g) == seq![m] + rest.map_values(g));
        assert(seq![h] + (seq![m] + rest.map_values(g)) == seq![h] + lines.map_values(g));
    }
}

proof fn lemma_moved_split(t: Seq<char>, col: nat, level: nat, i: int)
    requires
        t.contains('\n'),
        0 <= i < text::split_on(t, '\n').len(),
    ensures
        ({
            let had = text::split_on(t, '\n');
            let has = text::split_on(json_format::moved(t, col, level), '\n');
            &&& has.len() == had.len()
            &&& i == 0 ==> has[0] == had[0]
            &&& i > 0 ==> has[i] == moved_on(had[i], col, level)
        }),
{
    let n = text::find(t, '\n');
    text::lemma_find_from(t, '\n', 0);
    let at = choose|at: int| 0 <= at < t.len() && t[at] == '\n';
    let h = t.take(n);
    let tail = t.skip(n + 1);
    let had = text::split_on(t, '\n');
    assert(!h.contains('\n'));
    assert(had == seq![h] + text::split_on(tail, '\n'));
    assert(had.drop_first() == text::split_on(tail, '\n'));
    lemma_moved_lines(h, tail, col, level);
    if i > 0 {
        assert(had[i] == text::split_on(tail, '\n')[i - 1]);
    }
}

} // verus!
