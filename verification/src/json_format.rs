//! Lays a JSON request body out again without changing what it says.
//!
//! Nothing is parsed. The body is cut into tokens where the comment scanner
//! and JSON's punctuation cut it, and the tokens are written out again with
//! fresh indentation. Every token is copied as it is; only the white space
//! between tokens is decided here, and the indentation inside a block comment
//! that runs over several lines. Numbers, duplicate keys, the order of keys,
//! comments and templates survive by construction.
use vstd::prelude::*;
use vstd::string::*;
use vstd::utf8::*;

use crate::json_comments;
use crate::json_comments::{Piece, Span};
use crate::text;

verus! {

/// What a token is, as far as the layout rules care.
#[derive(Clone, Copy, PartialEq, Eq, Debug, Structural)]
pub enum Kind {
    /// `{` or `[`.
    Open,
    /// `}` or `]`.
    Close,
    Comma,
    Colon,
    /// A string, a template, a number, `true`, `false`, `null`: anything that
    /// isn't punctuation. Never inspected, only copied.
    Value,
    /// `// …`. Whatever follows it must begin a new line.
    LineComment,
    /// `/* … */`, which may run over several lines.
    BlockComment,
}

/// A token, by the positions of its first character and of the one behind its
/// last.
#[derive(Clone, Copy, PartialEq, Eq, Debug, Structural)]
pub struct Token {
    pub kind: Kind,
    pub start: usize,
    pub end: usize,
}

impl DeepView for Token {
    type V = (Kind, int, int);

    open spec fn deep_view(&self) -> (Kind, int, int) {
        (self.kind, self.start as int, self.end as int)
    }
}

// ---------------------------------------------------------------------------
// Tokens
// ---------------------------------------------------------------------------
/// JSON's punctuation.
pub open spec fn is_punctuation(c: char) -> bool {
    c == '{' || c == '[' || c == '}' || c == ']' || c == ',' || c == ':'
}

/// What a character of ordinary source is.
pub open spec fn char_kind(c: char) -> Kind {
    if c == '{' || c == '[' {
        Kind::Open
    } else if c == '}' || c == ']' {
        Kind::Close
    } else if c == ',' {
        Kind::Comma
    } else if c == ':' {
        Kind::Colon
    } else {
        Kind::Value
    }
}

/// What the token at position `i` is.
pub open spec fn kind_at(s: Seq<char>, i: int) -> Kind {
    match json_comments::piece_at(s, i) {
        Piece::Text => char_kind(s[i]),
        Piece::Comment => if json_comments::at(s, i + 1, '/') {
            Kind::LineComment
        } else {
            Kind::BlockComment
        },
        _ => Kind::Value,
    }
}

/// Whether a bare value goes on through position `i`.
pub open spec fn in_value(s: Seq<char>, i: int) -> bool {
    &&& 0 <= i < s.len()
    &&& !text::is_ascii_white(s[i])
    &&& !is_punctuation(s[i])
    &&& json_comments::piece_at(s, i) == Piece::Text
}

/// The first position at or behind `i` that a bare value does not go on
/// through.
pub open spec fn value_end(s: Seq<char>, i: int) -> int
    decreases s.len() - i,
{
    if in_value(s, i) {
        value_end(s, i + 1)
    } else {
        i
    }
}

/// The position behind the token at position `i`.
pub open spec fn token_end(s: Seq<char>, i: int) -> int {
    if json_comments::piece_at(s, i) != Piece::Text {
        json_comments::span_end(s, i)
    } else if is_punctuation(s[i]) {
        i + 1
    } else {
        value_end(s, i)
    }
}

pub proof fn lemma_white_end(s: Seq<char>, i: int)
    requires
        0 <= i <= s.len(),
    ensures
        i <= json_comments::white_end(s, i) <= s.len(),
        forall|j: int| i <= j < json_comments::white_end(s, i) ==> text::is_ascii_white(s[j]),
        json_comments::white_end(s, i) < s.len() ==> !text::is_ascii_white(
            s[json_comments::white_end(s, i)],
        ),
    decreases s.len() - i,
{
    if i < s.len() && text::is_ascii_white(s[i]) {
        lemma_white_end(s, i + 1);
    }
}

pub proof fn lemma_value_end(s: Seq<char>, i: int)
    requires
        0 <= i <= s.len(),
    ensures
        i <= value_end(s, i) <= s.len(),
        forall|j: int| i <= j < value_end(s, i) ==> in_value(s, j),
        !in_value(s, value_end(s, i)),
    decreases s.len() - i,
{
    if in_value(s, i) {
        lemma_value_end(s, i + 1);
    }
}

/// A token holds at least one character and lies inside the text.
pub proof fn lemma_token_end(s: Seq<char>, i: int)
    requires
        0 <= i < s.len(),
        !text::is_ascii_white(s[i]),
    ensures
        i < token_end(s, i) <= s.len(),
{
    json_comments::lemma_span_end(s, i);
    lemma_value_end(s, i);
    if in_value(s, i) {
        lemma_value_end(s, i + 1);
    }
}

/// The tokens of `s` from position `i` on: each with its kind, where it begins
/// and where it ends. Only white space stands between them.
pub open spec fn tokens_from(s: Seq<char>, i: int) -> Seq<(Kind, int, int)>
    decreases s.len() - i,
{
    let j = json_comments::white_end(s, i);
    if i < 0 || j >= s.len() {
        Seq::empty()
    } else {
        proof {
            lemma_white_end(s, i);
            lemma_token_end(s, j);
        }
        seq![(kind_at(s, j), j, token_end(s, j))] + tokens_from(s, token_end(s, j))
    }
}

/// The tokens of `s`.
pub open spec fn tokens(s: Seq<char>) -> Seq<(Kind, int, int)> {
    tokens_from(s, 0)
}

/// What of `s` a token covers.
pub open spec fn token_text(s: Seq<char>, t: (Kind, int, int)) -> Seq<char> {
    s.subrange(t.1, t.2)
}

/// How many line feeds there are in `s`.
pub open spec fn line_feeds(s: Seq<char>) -> nat {
    json_comments::newlines_of(s).len()
}

/// The line feeds between token `k` and the one before it. Two or more mean
/// that the author left a blank line there.
pub open spec fn breaks_before(s: Seq<char>, toks: Seq<(Kind, int, int)>, k: int) -> nat {
    line_feeds(
        s.subrange(
            if k == 0 {
                0
            } else {
                toks[k - 1].2
            },
            toks[k].1,
        ),
    )
}

/// Where the line begins on which position `i` of `s` stands.
pub open spec fn line_start(s: Seq<char>, i: int) -> int
    decreases i,
{
    if i <= 0 || s[i - 1] == '\n' {
        i
    } else {
        line_start(s, i - 1)
    }
}

/// The column of position `i` of `s`, counted in bytes.
pub open spec fn column(s: Seq<char>, i: int) -> nat {
    text::byte_len(s.subrange(line_start(s, i), i))
}

// ---------------------------------------------------------------------------
// Layout
// ---------------------------------------------------------------------------
/// What goes between two tokens.
#[derive(Clone, Copy, PartialEq, Eq, Debug, Structural)]
pub enum Gap {
    Nothing,
    Space,
    Line { blank: bool },
}

/// What goes between a token of kind `prev` and the token of kind `kind` that
/// had `breaks` line feeds before it.
///
/// - Nothing may share a line with a `//` before it, not even a comma, which
///   would end up commented out.
/// - An empty object or array is one thing, not three lines.
/// - A comment at the end of a line belongs to that line; moving it would
///   change which field it is read as annotating.
pub open spec fn gap_between(prev: Kind, kind: Kind, breaks: nat) -> Gap {
    let is_comment = kind == Kind::LineComment || kind == Kind::BlockComment;
    if prev == Kind::LineComment {
        Gap::Line { blank: breaks >= 2 }
    } else if kind == Kind::Comma || kind == Kind::Colon {
        Gap::Nothing
    } else if kind == Kind::Close && prev == Kind::Open {
        Gap::Nothing
    } else if is_comment && breaks == 0 {
        Gap::Space
    } else if prev == Kind::Colon {
        Gap::Space
    } else {
        Gap::Line { blank: breaks >= 2 }
    }
}

/// What goes before token `k`.
pub open spec fn gap_before(s: Seq<char>, toks: Seq<(Kind, int, int)>, k: int) -> Gap {
    if k == 0 {
        Gap::Nothing
    } else {
        gap_between(toks[k - 1].0, toks[k].0, breaks_before(s, toks, k))
    }
}

/// One level less, and no less than none.
pub open spec fn one_less(n: nat) -> nat {
    if n == 0 {
        0
    } else {
        (n - 1) as nat
    }
}

/// How many brackets are open before token `k`. A closing bracket too many
/// closes nothing.
pub open spec fn depth_before(toks: Seq<(Kind, int, int)>, k: int) -> nat
    decreases k,
{
    if k <= 0 {
        0
    } else if toks[k - 1].0 == Kind::Open {
        depth_before(toks, k - 1) + 1
    } else if toks[k - 1].0 == Kind::Close {
        one_less(depth_before(toks, k - 1))
    } else {
        depth_before(toks, k - 1)
    }
}

/// The level token `k` is indented to. A closing bracket stands with the line
/// it closes, not with the contents.
pub open spec fn level_of(toks: Seq<(Kind, int, int)>, k: int) -> nat {
    if toks[k].0 == Kind::Close {
        one_less(depth_before(toks, k))
    } else {
        depth_before(toks, k)
    }
}

/// `n` spaces.
pub open spec fn spaces(n: nat) -> Seq<char> {
    Seq::new(n, |i: int| ' ')
}

/// The indentation of a level.
pub open spec fn indent(level: nat) -> Seq<char> {
    spaces(2 * level)
}

/// The text of a gap before a token of the given level.
pub open spec fn gap_text(gap: Gap, level: nat) -> Seq<char> {
    match gap {
        Gap::Nothing => Seq::empty(),
        Gap::Space => seq![' '],
        Gap::Line { blank } => (if blank {
            seq!['\n', '\n']
        } else {
            seq!['\n']
        }) + indent(level),
    }
}

/// How much further a line of a block comment is indented than the comment
/// itself was.
pub open spec fn extra_indent(line: Seq<char>, col: nat) -> nat {
    let lead = text::byte_len(line) - text::byte_len(text::trimmed_start(line));
    if lead <= col {
        0
    } else {
        (lead - col) as nat
    }
}

/// A line of a block comment behind the first, with its line feed: it keeps
/// however much further it was indented than the opening `/*`, so a column of
/// stars stays one.
pub open spec fn moved_line(line: Seq<char>, col: nat, level: nat) -> Seq<char> {
    if text::trimmed_start(line).len() == 0 {
        seq!['\n']
    } else {
        seq!['\n'] + indent(level) + spaces(extra_indent(line, col)) + text::trimmed_start(line)
    }
}

/// A text whose lines behind the first are moved to the given level.
pub open spec fn moved(t: Seq<char>, col: nat, level: nat) -> Seq<char> {
    let lines = text::split_on(t, '\n');
    lines[0] + text::concat(
        lines.drop_first().map_values(|line: Seq<char>| moved_line(line, col, level)),
    )
}

/// Token `k` as it is written.
pub open spec fn written(s: Seq<char>, toks: Seq<(Kind, int, int)>, k: int) -> Seq<char> {
    let t = token_text(s, toks[k]);
    if toks[k].0 == Kind::BlockComment && t.contains('\n') {
        moved(t, column(s, toks[k].1), level_of(toks, k))
    } else {
        t
    }
}

/// The first `k` tokens laid out.
pub open spec fn laid_out_to(s: Seq<char>, toks: Seq<(Kind, int, int)>, k: int) -> Seq<char>
    decreases k,
{
    if k <= 0 {
        Seq::empty()
    } else {
        laid_out_to(s, toks, k - 1) + gap_text(
            gap_before(s, toks, k - 1),
            level_of(toks, k - 1),
        ) + written(s, toks, k - 1)
    }
}

/// `s` laid out afresh. A line feed at the end is kept, and none is added.
pub open spec fn laid_out(s: Seq<char>) -> Seq<char> {
    laid_out_to(s, tokens(s), tokens(s).len() as int) + (if s.len() > 0 && s.last() == '\n' {
        seq!['\n']
    } else {
        seq![]
    })
}

// ---------------------------------------------------------------------------
// The functions
// ---------------------------------------------------------------------------
fn punctuation(c: char) -> (r: bool)
    ensures
        r == is_punctuation(c),
{
    c == '{' || c == '[' || c == '}' || c == ']' || c == ',' || c == ':'
}

fn kind_of_char(c: char) -> (r: Kind)
    ensures
        r == char_kind(c),
{
    match c {
        '{' | '[' => Kind::Open,
        '}' | ']' => Kind::Close,
        ',' => Kind::Comma,
        ':' => Kind::Colon,
        _ => Kind::Value,
    }
}

/// The position behind the bare value that begins at `from`.
fn after_value(b: &[char], from: usize) -> (r: usize)
    requires
        from <= b.len(),
    ensures
        r == value_end(b@, from as int),
{
    let mut i: usize = from;
    while i < b.len() && !text::is_ascii_whitespace(b[i]) && !punctuation(b[i])
        && json_comments::classify(b, i) == Piece::Text
        invariant
            from <= i <= b.len(),
            value_end(b@, from as int) == value_end(b@, i as int),
        decreases b.len() - i,
    {
        i += 1;
    }
    i
}

/// The token at position `i`.
fn token_at(b: &[char], i: usize) -> (r: Token)
    requires
        i < b.len(),
        !text::is_ascii_white(b@[i as int]),
    ensures
        r.deep_view() == (kind_at(b@, i as int), i as int, token_end(b@, i as int)),
        i < r.end <= b.len(),
{
    proof {
        lemma_token_end(b@, i as int);
    }
    match json_comments::classify(b, i) {
        Piece::Text => {
            let kind = kind_of_char(b[i]);
            let end: usize = if punctuation(b[i]) {
                i + 1
            } else {
                after_value(b, i)
            };
            Token { kind, start: i, end }
        },
        Piece::Comment => {
            let kind = if b[i + 1] == '/' {
                Kind::LineComment
            } else {
                Kind::BlockComment
            };
            Token { kind, start: i, end: json_comments::end_of_span(b, i) }
        },
        _ => Token { kind: Kind::Value, start: i, end: json_comments::end_of_span(b, i) },
    }
}

/// Splits body text into layout tokens.
///
/// Strings, templates and comments are taken whole, which makes a `,` inside a
/// string, or a `}` inside a `{{ template }}`, harmless here.
fn tokenize(b: &[char]) -> (r: Vec<Token>)
    ensures
        r.deep_view() == tokens(b@),
{
    let mut out: Vec<Token> = Vec::new();
    let mut i: usize = 0;
    assert(out.deep_view() + tokens_from(b@, 0) == tokens(b@));
    loop
        invariant
            i <= b.len(),
            out.deep_view() + tokens_from(b@, i as int) == tokens(b@),
        decreases b.len() - i,
    {
        let ghost done = out.deep_view();
        let mut j: usize = i;
        while j < b.len() && text::is_ascii_whitespace(b[j])
            invariant
                i <= j <= b.len(),
                json_comments::white_end(b@, i as int) == json_comments::white_end(b@, j as int),
            decreases b.len() - j,
        {
            j += 1;
        }
        if j == b.len() {
            assert(tokens_from(b@, i as int) == Seq::<(Kind, int, int)>::empty());
            return out;
        }
        let t: Token = token_at(b, j);
        out.push(t);
        assert(out.deep_view() == done.push(t.deep_view()));
        i = t.end;
    }
}

/// Whether the tokens stand inside the text, one behind the other.
pub open spec fn tokens_in_order(s: Seq<char>, toks: Seq<(Kind, int, int)>, from: int) -> bool {
    &&& forall|k: int| 0 <= k < toks.len() ==> from <= (#[trigger] toks[k]).1 < toks[k].2 <= s.len()
    &&& forall|j: int, k: int|
        0 <= j < k < toks.len() ==> (#[trigger] toks[j]).2 <= (#[trigger] toks[k]).1
}

pub proof fn lemma_tokens_in_order(s: Seq<char>, i: int)
    requires
        0 <= i <= s.len(),
    ensures
        tokens_in_order(s, tokens_from(s, i), i),
    decreases s.len() - i,
{
    lemma_white_end(s, i);
    let j = json_comments::white_end(s, i);
    if j < s.len() {
        lemma_token_end(s, j);
        let e = token_end(s, j);
        lemma_tokens_in_order(s, e);
        let all = tokens_from(s, i);
        let rest = tokens_from(s, e);
        assert(all[0] == (kind_at(s, j), j, e));
        assert forall|k: int| 0 < k < all.len() implies #[trigger] all[k] == rest[k - 1] by {}
    }
}

/// How many line feeds there are in `cs`.
fn count_line_feeds(cs: &[char]) -> (r: usize)
    ensures
        r == line_feeds(cs@),
{
    let mut n: usize = 0;
    for i in 0..cs.len()
        invariant
            n <= i,
            n == line_feeds(cs@.take(i as int)),
    {
        reveal(Seq::filter);
        assert(cs@.take(i + 1).drop_last() == cs@.take(i as int));
        if cs[i] == '\n' {
            n += 1;
        }
    }
    assert(cs@.take(cs.len() as int) == cs@);
    n
}

/// The column of position `i`, in bytes.
fn column_of(b: &[char], i: usize) -> (r: usize)
    requires
        i <= b.len(),
        text::byte_len(b@) <= usize::MAX,
    ensures
        r == column(b@, i as int),
{
    let mut from: usize = i;
    while from > 0 && b[from - 1] != '\n'
        invariant
            from <= i <= b.len(),
            line_start(b@, i as int) == line_start(b@, from as int),
        decreases from,
    {
        from -= 1;
    }
    proof {
        text::lemma_byte_len_part(b@, from as int, i as int);
    }
    text::width(&b[from..i])
}

/// What goes between two tokens.
fn gap(prev: Kind, kind: Kind, breaks: usize) -> (r: Gap)
    ensures
        r == gap_between(prev, kind, breaks as nat),
{
    if prev == Kind::LineComment {
        return Gap::Line { blank: breaks >= 2 };
    }
    match kind {
        Kind::Comma | Kind::Colon => Gap::Nothing,
        Kind::Close if prev == Kind::Open => Gap::Nothing,
        Kind::LineComment if breaks == 0 => Gap::Space,
        Kind::BlockComment if breaks == 0 => Gap::Space,
        _ if prev == Kind::Colon => Gap::Space,
        _ => Gap::Line { blank: breaks >= 2 },
    }
}

/// Adds `n` spaces at the end of `out`.
fn push_spaces(out: &mut String, n: usize)
    ensures
        final(out)@ == old(out)@ + spaces(n as nat),
{
    for i in 0..n
        invariant
            out@ == old(out)@ + spaces(i as nat),
    {
        out.push(' ');
        assert(spaces((i + 1) as nat) == spaces(i as nat).push(' '));
    }
}

/// Adds the indentation of a level at the end of `out`.
fn push_indent(out: &mut String, level: usize)
    ensures
        final(out)@ == old(out)@ + indent(level as nat),
{
    for i in 0..level
        invariant
            out@ == old(out)@ + indent(i as nat),
    {
        out.push(' ');
        out.push(' ');
        assert(indent((i + 1) as nat) == indent(i as nat).push(' ').push(' '));
    }
}

/// Copies one token, moving the inside of a block comment over several lines.
fn write_token(out: &mut String, cs: &[char], kind: Kind, col: usize, level: usize)
    requires
        text::byte_len(cs@) <= usize::MAX,
    ensures
        final(out)@ == old(out)@ + (if kind == Kind::BlockComment && cs@.contains('\n') {
            moved(cs@, col as nat, level as nat)
        } else {
            cs@
        }),
{
    let first: usize = text::find_char(cs, '\n', 0);
    if first < cs.len() {
        assert(cs@[first as int] == '\n');
    }
    if kind != Kind::BlockComment || first == cs.len() {
        text::push_chars(out, cs);
        return;
    }
    let ghost f = |line: Seq<char>| moved_line(line, col as nat, level as nat);
    let ghost lines = text::split_on(cs@, '\n');
    let ghost before = out@;
    text::push_chars(out, &cs[0..first]);
    let mut i: usize = first + 1;
    let ghost rest = text::split_on(cs@.skip(i as int), '\n');
    proof {
        assert(cs@.subrange(0, first as int) == cs@.take(first as int));
        assert(lines == seq![cs@.take(first as int)] + rest);
        assert(lines.drop_first() == rest);
        assert(out@ == before + lines[0]);
        assert(out@ + text::concat(rest.map_values(f)) == before + (lines[0] + text::concat(
            lines.drop_first().map_values(f),
        )));
    }
    loop
        invariant
            0 < i <= cs.len(),
            kind == Kind::BlockComment,
            cs@.contains('\n'),
            before == old(out)@,
            text::byte_len(cs@) <= usize::MAX,
            f == (|line: Seq<char>| moved_line(line, col as nat, level as nat)),
            out@ + text::concat(text::split_on(cs@.skip(i as int), '\n').map_values(f)) == before
                + moved(cs@, col as nat, level as nat),
        decreases cs.len() - i,
    {
        let ghost tail = cs@.skip(i as int);
        let ghost parts = text::split_on(tail, '\n');
        let n: usize = text::find_char(cs, '\n', i);
        let line: &[char] = &cs[i..n];
        proof {
            text::lemma_find_is(tail, '\n', 0, n - i);
            assert(line@ == tail.take(n - i));
            text::lemma_byte_len_part(cs@, i as int, n as int);
            text::lemma_trimmed_start(line@);
        }
        let ghost had = out@;
        out.push('\n');
        let body: &[char] = text::trim_start_chars(line);
        if body.len() > 0 {
            let lead: &[char] = &line[0..line.len() - body.len()];
            proof {
                assert(line@ == lead@ + body@);
                text::lemma_byte_len_add(lead@, body@);
            }
            let w: usize = text::width(lead);
            let extra: usize = if w <= col {
                0
            } else {
                w - col
            };
            push_indent(out, level);
            push_spaces(out, extra);
            text::push_chars(out, body);
        }
        assert(out@ == had + f(line@));
        if n == cs.len() {
            proof {
                assert(parts == seq![line@]);
                assert(parts.map_values(f) == seq![f(line@)]);
                lemma_concat_cons(f(line@), Seq::empty());
                assert(seq![f(line@)] + Seq::<Seq<char>>::empty() == seq![f(line@)]);
            }
            return;
        }
        proof {
            assert(tail.skip(n - i + 1) == cs@.skip(n + 1));
            let more = text::split_on(cs@.skip(n + 1), '\n');
            assert(parts == seq![line@] + more);
            assert(parts.map_values(f) == seq![f(line@)] + more.map_values(f));
            lemma_concat_cons(f(line@), more.map_values(f));
        }
        i = n + 1;
    }
}

pub proof fn lemma_concat_cons(first: Seq<char>, rest: Seq<Seq<char>>)
    ensures
        text::concat(seq![first] + rest) == first + text::concat(rest),
{
    text::lemma_concat_add(seq![first], rest);
    reveal_with_fuel(text::concat, 2);
    assert(seq![first].drop_last() == Seq::<Seq<char>>::empty());
}

/// Writes the tokens out with fresh indentation.
fn lay_out(b: &[char], toks: &[Token]) -> (r: String)
    requires
        toks.deep_view() == tokens(b@),
        text::byte_len(b@) <= usize::MAX,
    ensures
        r@ == laid_out_to(b@, tokens(b@), tokens(b@).len() as int),
{
    let ghost s = b@;
    let ghost ts = tokens(s);
    proof {
        lemma_tokens_in_order(s, 0);
    }
    let mut out = String::new();
    let mut depth: usize = 0;
    for k in 0..toks.len()
        invariant
            s == b@,
            ts == tokens(s),
            toks.deep_view() == ts,
            tokens_in_order(s, ts, 0),
            text::byte_len(s) <= usize::MAX,
            depth <= k,
            depth == depth_before(ts, k as int),
            out@ == laid_out_to(s, ts, k as int),
    {
        let t: Token = toks[k];
        assert(ts[k as int] == t.deep_view());
        let level: usize = if t.kind == Kind::Close && depth > 0 {
            depth - 1
        } else {
            depth
        };
        assert(level == level_of(ts, k as int));
        let before: Gap = if k == 0 {
            Gap::Nothing
        } else {
            let prev: Token = toks[k - 1];
            assert(ts[k - 1] == prev.deep_view());
            let breaks: usize = count_line_feeds(&b[prev.end..t.start]);
            gap(prev.kind, t.kind, breaks)
        };
        assert(before == gap_before(s, ts, k as int));
        let ghost had = out@;
        match before {
            Gap::Nothing => {},
            Gap::Space => {
                out.push(' ');
            },
            Gap::Line { blank } => {
                out.push('\n');
                if blank {
                    out.push('\n');
                }
                push_indent(&mut out, level);
            },
        }
        assert(out@ == had + gap_text(before, level as nat));
        let col: usize = column_of(b, t.start);
        proof {
            text::lemma_byte_len_part(s, t.start as int, t.end as int);
        }
        write_token(&mut out, &b[t.start..t.end], t.kind, col, level);
        assert(out@ == had + gap_text(before, level as nat) + written(s, ts, k as int));
        depth = if t.kind == Kind::Open {
            level + 1
        } else {
            level
        };
    }
    out
}

/// A comment with the indentation of its lines taken away.
pub open spec fn comment_words(t: Seq<char>) -> Seq<char> {
    text::joined(text::lines_of(t).map_values(|line: Seq<char>| text::trimmed(line)), "\n"@)
}

/// The comments among the spans `ps` of `s`, in order.
pub open spec fn comments_among(s: Seq<char>, ps: Seq<(Piece, int, int)>) -> Seq<Seq<char>>
    decreases ps.len(),
{
    if ps.len() == 0 {
        Seq::empty()
    } else if ps.last().0 == Piece::Comment {
        comments_among(s, ps.drop_last()).push(
            comment_words(json_comments::covered(s, ps.last())),
        )
    } else {
        comments_among(s, ps.drop_last())
    }
}

/// Every comment of `s`, in order, with its own indentation taken away: what
/// tells whether a comment was dropped, reordered, or had its words altered.
pub open spec fn comments_of(s: Seq<char>) -> Seq<Seq<char>> {
    comments_among(s, json_comments::spans(s))
}

/// A comment with the indentation of its lines taken away.
fn words_of_comment(cs: &[char]) -> (r: String)
    ensures
        r@ == comment_words(cs@),
{
    let all = text::lines(text::string_of(cs).as_str());
    let ghost f = |line: Seq<char>| text::trimmed(line);
    let ghost want = text::lines_of(cs@).map_values(f);
    let mut out: Vec<String> = Vec::new();
    for k in 0..all.len()
        invariant
            f == (|line: Seq<char>| text::trimmed(line)),
            all.deep_view() == text::lines_of(cs@),
            want == text::lines_of(cs@).map_values(f),
            out.deep_view() == want.take(k as int),
    {
        let ghost done = out.deep_view();
        let line = text::trim(all[k].as_str());
        out.push(line);
        assert(all.deep_view()[k as int] == all@[k as int]@);
        assert(out.deep_view() == done.push(line@));
        assert(want.take(k + 1) == want.take(k as int).push(want[k as int]));
    }
    assert(want.take(all.len() as int) == want);
    text::join(out.as_slice(), "\n")
}

/// Every comment of `src`, in order.
fn comments(src: &str) -> (r: Vec<String>)
    ensures
        r.deep_view() == comments_of(src@),
{
    let b = text::chars_of(src);
    let all = json_comments::scan(b.as_slice());
    let ghost s = b@;
    let ghost ps = json_comments::spans(s);
    let mut out: Vec<String> = Vec::new();
    proof {
        json_comments::lemma_spans_inside(s, 0);
    }
    for k in 0..all.len()
        invariant
            s == b@,
            ps == json_comments::spans(s),
            all.deep_view() == ps,
            json_comments::spans_inside(s, ps),
            out.deep_view() == comments_among(s, ps.take(k as int)),
    {
        let ghost done = out.deep_view();
        let span: Span = all[k];
        assert(ps[k as int] == span.deep_view());
        assert(ps.take(k + 1).drop_last() == ps.take(k as int));
        if span.kind == Piece::Comment {
            let note = words_of_comment(&b[span.start..span.end]);
            out.push(note);
            assert(out.deep_view() == done.push(note@));
        }
    }
    assert(ps.take(all.len() as int) == ps);
    out
}

/// What a prettify request came to.
#[derive(Debug, Clone, PartialEq, Eq)]
pub enum Prettified {
    /// Laid out afresh; this is the new body text.
    Changed(String),
    /// Already laid out this way. Worth telling apart from a keystroke that did
    /// nothing because it was misaimed.
    Unchanged,
    /// Nothing safe to do: an empty body, a GraphQL, XML or plain-text one, or
    /// JSON that is half-typed.
    NotJson,
}

/// Whether the line feed at the end of `s`, if there is one, stands outside its
/// tokens: `s` does not break off inside a string, a template or a comment with
/// a line feed as the last thing in it.
pub open spec fn ends_outside_tokens(s: Seq<char>) -> bool {
    let toks = tokens(s);
    s.len() > 0 && s.last() == '\n' && toks.len() > 0 ==> toks.last().2 < s.len()
}

/// Whether a body can be laid out: it is JSON as it goes on the wire and is not
/// half-typed, and the layout is JSON there too, still says the same thing and
/// carries the same comments.
pub open spec fn formats(s: Seq<char>) -> bool {
    &&& !text::is_blank(s)
    &&& json_comments::is_json_body(json_comments::wire(s))
    &&& ends_outside_tokens(s)
    &&& json_comments::is_json_body(json_comments::wire(laid_out(s)))
    &&& json_comments::equivalent(json_comments::wire(s), json_comments::wire(laid_out(s)))
    &&& comments_of(laid_out(s)) == comments_of(s)
}

/// Re-indents a JSON request body, keeping its comments and templates.
///
/// The result is checked before it is offered: it must still be JSON and say the
/// same thing as the input once both are reduced to what goes on the wire, and it
/// must still carry the same comments in the same order.
pub fn prettify_json(src: &str) -> (r: Prettified)
    ensures
        match r {
            Prettified::NotJson => !formats(src@),
            Prettified::Unchanged => formats(src@) && laid_out(src@) == src@,
            Prettified::Changed(out) => formats(src@) && out@ == laid_out(src@) && out@ != src@,
        },
{
    if text::blank(src) {
        return Prettified::NotJson;
    }
    let before = json_comments::wire_text(src);
    if !json_comments::parses_as_json(before.as_str()) {
        return Prettified::NotJson;
    }
    let b = text::chars_of(src);
    let bytes: &[u8] = src.as_bytes();
    assert(bytes.len() == text::byte_len(src@));
    let toks = tokenize(b.as_slice());
    assert(forall|k: int|
        0 <= k < toks.len() ==> tokens(src@)[k] == (#[trigger] toks@[k]).deep_view());
    if b[b.len() - 1] == '\n' && toks.len() > 0 && toks[toks.len() - 1].end >= b.len() {
        return Prettified::NotJson;
    }
    let mut out = lay_out(b.as_slice(), toks.as_slice());
    if b[b.len() - 1] == '\n' {
        out.push('\n');
    }
    assert(out@ == laid_out(src@));
    let after = json_comments::wire_text(out.as_str());
    if !json_comments::parses_as_json(after.as_str()) {
        return Prettified::NotJson;
    }
    if !json_comments::bodies_equivalent(before.as_str(), after.as_str()) {
        return Prettified::NotJson;
    }
    let had = comments(src);
    let has = comments(out.as_str());
    if !text::same_lists(has.as_slice(), had.as_slice()) {
        return Prettified::NotJson;
    }
    if text::same(out.as_str(), src) {
        Prettified::Unchanged
    } else {
        Prettified::Changed(out)
    }
}

// ---------------------------------------------------------------------------
// The cursor
// ---------------------------------------------------------------------------
/// Whether a byte is ASCII white space.
pub open spec fn is_white_byte(b: u8) -> bool {
    b == 0x20 || b == 0x09 || b == 0x0a || b == 0x0c || b == 0x0d
}

/// How many of the bytes are not white space.
pub open spec fn solid_bytes(bytes: Seq<u8>) -> nat {
    bytes.filter(|b: u8| !is_white_byte(b)).len()
}

/// The position behind the `n`th byte at or behind `i` that is not white space;
/// the end where there are fewer.
pub open spec fn after_solid(bytes: Seq<u8>, n: nat, i: int) -> int
    decreases bytes.len() - i,
{
    if i >= bytes.len() {
        bytes.len() as int
    } else if is_white_byte(bytes[i]) {
        after_solid(bytes, n, i + 1)
    } else if n <= 1 {
        i + 1
    } else {
        after_solid(bytes, (n - 1) as nat, i + 1)
    }
}

/// The first character boundary at or behind `i`.
pub open spec fn boundary_from(bytes: Seq<u8>, i: int) -> int
    decreases bytes.len() - i,
{
    if i >= bytes.len() || is_char_boundary(bytes, i) {
        i
    } else {
        boundary_from(bytes, i + 1)
    }
}

/// Where a cursor at byte `at` of `src` belongs in `out`: behind as many solid
/// bytes as it was behind before.
pub open spec fn cursor_in(src: Seq<u8>, out: Seq<u8>, at: int) -> int {
    let wanted = solid_bytes(
        src.take(
            if at <= src.len() {
                at
            } else {
                src.len() as int
            },
        ),
    );
    if wanted == 0 {
        0
    } else {
        boundary_from(out, after_solid(out, wanted, 0))
    }
}

fn white_byte(b: u8) -> (r: bool)
    ensures
        r == is_white_byte(b),
{
    b == 0x20 || b == 0x09 || b == 0x0a || b == 0x0c || b == 0x0d
}

pub proof fn lemma_after_solid(bytes: Seq<u8>, n: nat, i: int)
    requires
        0 <= i <= bytes.len(),
    ensures
        i <= after_solid(bytes, n, i) <= bytes.len(),
    decreases bytes.len() - i,
{
    if i < bytes.len() {
        if is_white_byte(bytes[i]) {
            lemma_after_solid(bytes, n, i + 1);
        } else if n > 1 {
            lemma_after_solid(bytes, (n - 1) as nat, i + 1);
        }
    }
}

/// Where a cursor at byte offset `at` in `src` belongs in the reformatted
/// `out`: on the character the user was looking at, never inside one.
pub fn map_cursor(src: &str, out: &str, at: usize) -> (r: usize)
    ensures
        r == cursor_in(encode_utf8(src@), encode_utf8(out@), at as int),
        r <= encode_utf8(out@).len(),
        is_char_boundary(encode_utf8(out@), r as int),
{
    let a: &[u8] = src.as_bytes();
    let b: &[u8] = out.as_bytes();
    proof {
        encode_utf8_valid_utf8(out@);
        is_char_boundary_start_end_of_seq(b@);
    }
    let upto: usize = if at <= a.len() {
        at
    } else {
        a.len()
    };
    let mut wanted: usize = 0;
    for i in 0..upto
        invariant
            upto <= a.len(),
            wanted <= i,
            wanted == solid_bytes(a@.take(i as int)),
    {
        reveal(Seq::filter);
        assert(a@.take(i + 1).drop_last() == a@.take(i as int));
        if !white_byte(a[i]) {
            wanted += 1;
        }
    }
    if wanted == 0 {
        return 0;
    }
    let mut left: usize = wanted;
    let mut i: usize = 0;
    let mut landed: usize = b.len();
    while i < b.len()
        invariant_except_break
            0 < left,
            i <= b.len(),
            landed == b.len(),
            after_solid(b@, wanted as nat, 0) == after_solid(b@, left as nat, i as int),
        ensures
            landed == after_solid(b@, wanted as nat, 0),
        decreases b.len() - i,
    {
        if !white_byte(b[i]) {
            if left == 1 {
                landed = i + 1;
                break;
            }
            left -= 1;
        }
        i += 1;
    }
    proof {
        lemma_after_solid(b@, wanted as nat, 0);
    }
    while landed < b.len() && !out.is_char_boundary(landed)
        invariant
            b@ == encode_utf8(out@),
            landed <= b.len(),
            boundary_from(b@, after_solid(b@, wanted as nat, 0)) == boundary_from(
                b@,
                landed as int,
            ),
        decreases b.len() - landed,
    {
        landed += 1;
    }
    landed
}

} // verus!
