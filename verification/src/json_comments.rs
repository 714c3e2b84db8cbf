//! Comments inside a JSON request body.
//!
//! Hurl has no notion of a commented body: its parser rejects `//` outright.
//! People keep notes in their bodies all the same, so the body is stored as
//! authored, comments included, and the comments are taken out on the way to
//! the wire and on the way into a `.hurl` file, where every other Hurl runner
//! sees ordinary strict JSON.
//!
//! Everything here is a function of body text alone.
use std::borrow::Cow;
use vstd::prelude::*;

use crate::json;
use crate::text;

verus! {

/// What a span of body text is.
#[derive(Clone, Copy, PartialEq, Eq, Debug, Structural)]
pub enum Piece {
    /// Ordinary source outside any string, template or comment.
    Text,
    /// A string literal, quotes included. A `//` in here is data.
    Str,
    /// A `{{ … }}` Hurl template, braces included. What is inside is not JSON.
    Template,
    /// A `//` line comment or a `/* … */` block comment.
    Comment,
}

/// A span of body text, by the positions of its first character and of the one
/// behind its last.
#[derive(Clone, Copy, PartialEq, Eq, Debug, Structural)]
pub struct Span {
    pub kind: Piece,
    pub start: usize,
    pub end: usize,
}

impl DeepView for Span {
    type V = (Piece, int, int);

    open spec fn deep_view(&self) -> (Piece, int, int) {
        (self.kind, self.start as int, self.end as int)
    }
}

// ---------------------------------------------------------------------------
// Spans
// ---------------------------------------------------------------------------
/// Whether `c` stands at position `i` of `s`.
pub open spec fn at(s: Seq<char>, i: int, c: char) -> bool {
    0 <= i < s.len() && s[i] == c
}

/// What begins at position `i` of `s`, read as source.
pub open spec fn piece_at(s: Seq<char>, i: int) -> Piece {
    if at(s, i, '"') {
        Piece::Str
    } else if at(s, i, '{') && at(s, i + 1, '{') {
        Piece::Template
    } else if at(s, i, '/') && (at(s, i + 1, '/') || at(s, i + 1, '*')) {
        Piece::Comment
    } else {
        Piece::Text
    }
}

/// The position behind the quote that closes a string whose contents go on at
/// `i`. A backslash hides the character behind it. An open string runs to the
/// end.
pub open spec fn string_end(s: Seq<char>, i: int) -> int
    decreases s.len() - i,
{
    if i >= s.len() || (s[i] == '\\' && i + 1 >= s.len()) {
        s.len() as int
    } else if s[i] == '\\' {
        string_end(s, i + 2)
    } else if s[i] == '"' {
        i + 1
    } else {
        string_end(s, i + 1)
    }
}

/// The position behind the first `ab` at or behind `i`; the end where there is
/// none.
pub open spec fn pair_end(s: Seq<char>, a: char, b: char, i: int) -> int
    decreases s.len() - i,
{
    if i >= s.len() {
        s.len() as int
    } else if s[i] == a && at(s, i + 1, b) {
        i + 2
    } else {
        pair_end(s, a, b, i + 1)
    }
}

/// The first position at or behind `i` where something other than ordinary
/// source begins.
pub open spec fn text_end(s: Seq<char>, i: int) -> int
    decreases s.len() - i,
{
    if i >= s.len() || piece_at(s, i) != Piece::Text {
        i
    } else {
        text_end(s, i + 1)
    }
}

/// The position behind the span that begins at `i`.
pub open spec fn span_end(s: Seq<char>, i: int) -> int {
    match piece_at(s, i) {
        Piece::Text => text_end(s, i),
        Piece::Str => string_end(s, i + 1),
        Piece::Template => pair_end(s, '}', '}', i + 2),
        Piece::Comment => if at(s, i + 1, '/') {
            text::find_from(s, '\n', i)
        } else {
            pair_end(s, '*', '/', i + 2)
        },
    }
}

pub proof fn lemma_string_end(s: Seq<char>, i: int)
    requires
        0 <= i,
    ensures
        i <= s.len() ==> i <= string_end(s, i),
        string_end(s, i) <= s.len(),
    decreases s.len() - i,
{
    if i < s.len() {
        if s[i] == '\\' {
            if i + 1 < s.len() {
                lemma_string_end(s, i + 2);
            }
        } else if s[i] != '"' {
            lemma_string_end(s, i + 1);
        }
    }
}

pub proof fn lemma_pair_end(s: Seq<char>, a: char, b: char, i: int)
    requires
        0 <= i <= s.len(),
    ensures
        i <= pair_end(s, a, b, i) <= s.len(),
    decreases s.len() - i,
{
    if i < s.len() && !(s[i] == a && at(s, i + 1, b)) {
        lemma_pair_end(s, a, b, i + 1);
    }
}

pub proof fn lemma_text_end(s: Seq<char>, i: int)
    requires
        0 <= i <= s.len(),
    ensures
        i <= text_end(s, i) <= s.len(),
        forall|j: int| i <= j < text_end(s, i) ==> piece_at(s, j) == Piece::Text,
        text_end(s, i) < s.len() ==> piece_at(s, text_end(s, i)) != Piece::Text,
    decreases s.len() - i,
{
    if i < s.len() && piece_at(s, i) == Piece::Text {
        lemma_text_end(s, i + 1);
    }
}

/// A span holds at least one character and lies inside the text.
pub proof fn lemma_span_end(s: Seq<char>, i: int)
    requires
        0 <= i < s.len(),
    ensures
        i < span_end(s, i) <= s.len(),
{
    lemma_string_end(s, i + 1);
    lemma_text_end(s, i);
    text::lemma_find_from(s, '\n', i);
    if piece_at(s, i) == Piece::Text {
        lemma_text_end(s, i + 1);
    }
    if i + 2 <= s.len() {
        lemma_pair_end(s, '}', '}', i + 2);
        lemma_pair_end(s, '*', '/', i + 2);
    }
}

/// The spans of `s` from position `i` on: each with its kind, where it begins
/// and where it ends.
pub open spec fn spans_from(s: Seq<char>, i: int) -> Seq<(Piece, int, int)>
    decreases s.len() - i,
{
    if i < 0 || i >= s.len() {
        Seq::empty()
    } else {
        proof {
            lemma_span_end(s, i);
        }
        seq![(piece_at(s, i), i, span_end(s, i))] + spans_from(s, span_end(s, i))
    }
}

/// The spans of `s`.
pub open spec fn spans(s: Seq<char>) -> Seq<(Piece, int, int)> {
    spans_from(s, 0)
}

/// What of `s` a span covers.
pub open spec fn covered(s: Seq<char>, p: (Piece, int, int)) -> Seq<char> {
    s.subrange(p.1, p.2)
}

/// Whether `c` stands at position `i` of `b`.
fn has_at(b: &[char], i: usize, c: char) -> (r: bool)
    ensures
        r == at(b@, i as int, c),
{
    i < b.len() && b[i] == c
}

/// What begins at position `i` of `b`.
pub(crate) fn classify(b: &[char], i: usize) -> (r: Piece)
    requires
        i < b.len(),
    ensures
        r == piece_at(b@, i as int),
{
    if b[i] == '"' {
        Piece::Str
    } else if b[i] == '{' && has_at(b, i + 1, '{') {
        Piece::Template
    } else if b[i] == '/' && (has_at(b, i + 1, '/') || has_at(b, i + 1, '*')) {
        Piece::Comment
    } else {
        Piece::Text
    }
}

/// The position behind the first `xy` at or behind `from`.
fn after_pair(b: &[char], x: char, y: char, from: usize) -> (r: usize)
    requires
        from <= b.len(),
    ensures
        r == pair_end(b@, x, y, from as int),
{
    let mut i: usize = from;
    while i < b.len() && !(b[i] == x && has_at(b, i + 1, y))
        invariant
            i <= b.len(),
            pair_end(b@, x, y, from as int) == pair_end(b@, x, y, i as int),
        decreases b.len() - i,
    {
        i += 1;
    }
    if i < b.len() {
        i + 2
    } else {
        i
    }
}

/// The position behind the string whose contents begin at `from`.
fn after_string(b: &[char], from: usize) -> (r: usize)
    requires
        from <= b.len(),
    ensures
        r == string_end(b@, from as int),
{
    let mut i: usize = from;
    while i < b.len()
        invariant
            i <= b.len(),
            string_end(b@, from as int) == string_end(b@, i as int),
        decreases b.len() - i,
    {
        if b[i] == '\\' {
            if b.len() - i == 1 {
                // The backslash has nothing behind it to hide.
                return b.len();
            }
            i += 2;
        } else if b[i] == '"' {
            return i + 1;
        } else {
            i += 1;
        }
    }
    i
}

/// The position behind the span that begins at `i`.
pub(crate) fn end_of_span(b: &[char], i: usize) -> (r: usize)
    requires
        i < b.len(),
    ensures
        r == span_end(b@, i as int),
        i < r <= b.len(),
{
    proof {
        lemma_span_end(b@, i as int);
    }
    match classify(b, i) {
        Piece::Str => after_string(b, i + 1),
        Piece::Template => after_pair(b, '}', '}', i + 2),
        Piece::Comment => if has_at(b, i + 1, '/') {
            text::find_char(b, '\n', i)
        } else {
            after_pair(b, '*', '/', i + 2)
        },
        Piece::Text => {
            let mut j: usize = i;
            while j < b.len() && classify(b, j) == Piece::Text
                invariant
                    i <= j <= b.len(),
                    text_end(b@, i as int) == text_end(b@, j as int),
                decreases b.len() - j,
            {
                j += 1;
            }
            j
        },
    }
}

/// Splits body text into classified spans.
///
/// One pass from left to right. An open string, template or block comment runs
/// to the end of the input: half-written text is the normal case in an editor.
pub(crate) fn scan(b: &[char]) -> (r: Vec<Span>)
    ensures
        r.deep_view() == spans(b@),
{
    let mut out: Vec<Span> = Vec::new();
    let mut i: usize = 0;
    assert(out.deep_view() + spans_from(b@, 0) == spans(b@));
    while i < b.len()
        invariant
            i <= b.len(),
            out.deep_view() + spans_from(b@, i as int) == spans(b@),
        decreases b.len() - i,
    {
        let ghost done = out.deep_view();
        let e: usize = end_of_span(b, i);
        let span = Span { kind: classify(b, i), start: i, end: e };
        out.push(span);
        assert(out.deep_view() == done.push(span.deep_view()));
        i = e;
    }
    out
}

// ---------------------------------------------------------------------------
// Taking comments out
// ---------------------------------------------------------------------------
/// Whether `s` carries a comment.
pub open spec fn commented(s: Seq<char>) -> bool {
    exists|k: int| 0 <= k < spans(s).len() && (#[trigger] spans(s)[k]).0 == Piece::Comment
}

/// Whether body text carries any JSON comment at all.
pub fn has_comments(src: &str) -> (r: bool)
    ensures
        r == commented(src@),
{
    let b = text::chars_of(src);
    let all = scan(b.as_slice());
    let ghost ps = spans(src@);
    for k in 0..all.len()
        invariant
            all.deep_view() == ps,
            ps == spans(src@),
            forall|j: int| 0 <= j < k ==> (#[trigger] ps[j]).0 != Piece::Comment,
    {
        let span: Span = all[k];
        assert(ps[k as int] == span.deep_view());
        if span.kind == Piece::Comment {
            return true;
        }
    }
    false
}

/// The line feeds of `s`, and nothing else of it.
pub open spec fn newlines_of(s: Seq<char>) -> Seq<char> {
    s.filter(|c: char| c == '\n')
}

/// What is left of a span: of a comment its line feeds, of anything else the
/// whole of it.
pub open spec fn bare_span(s: Seq<char>, p: (Piece, int, int)) -> Seq<char> {
    if p.0 == Piece::Comment {
        newlines_of(covered(s, p))
    } else {
        covered(s, p)
    }
}

/// `s` with each comment replaced by the line feeds it contained.
pub open spec fn bare(s: Seq<char>) -> Seq<char> {
    text::concat(spans(s).map_values(|p: (Piece, int, int)| bare_span(s, p)))
}

/// Whether a line was nothing but comment: there was something on it, and
/// nothing is left.
pub open spec fn only_comment(before: Seq<char>, after: Seq<char>) -> bool {
    text::is_blank(after) && !text::is_blank(before)
}

/// The lines that stay, each without the white space at its end. A line that
/// was nothing but comment goes; one that was blank all along stays.
pub open spec fn kept_lines(before: Seq<Seq<char>>, after: Seq<Seq<char>>) -> Seq<Seq<char>>
    decreases before.len(),
{
    if before.len() == 0 || after.len() == 0 {
        Seq::empty()
    } else {
        let rest = kept_lines(before.drop_first(), after.drop_first());
        if only_comment(before.first(), after.first()) {
            rest
        } else {
            seq![text::trimmed_end(after.first())] + rest
        }
    }
}

/// `s` without its comments. The line count of a text and of its bare form
/// agree up to the last line, so their lines can be compared one by one.
pub open spec fn stripped(s: Seq<char>) -> Seq<char> {
    text::joined(kept_lines(text::lines_of(s), text::lines_of(bare(s))), seq!['\n']) + (if s.len()
        > 0 && s.last() == '\n' {
        seq!['\n']
    } else {
        seq![]
    })
}

/// Adds the line feeds of `cs` at the end of `out`.
fn push_newlines(out: &mut String, cs: &[char])
    ensures
        final(out)@ == old(out)@ + newlines_of(cs@),
{
    reveal(Seq::filter);
    for i in 0..cs.len()
        invariant
            out@ == old(out)@ + newlines_of(cs@.take(i as int)),
    {
        reveal(Seq::filter);
        assert(cs@.take(i + 1).drop_last() == cs@.take(i as int));
        if cs[i] == '\n' {
            out.push('\n');
        }
    }
    assert(cs@.take(cs.len() as int) == cs@);
}

/// The text with each comment replaced by its line feeds.
fn bare_text(b: &[char]) -> (r: String)
    ensures
        r@ == bare(b@),
{
    let all = scan(b);
    let ghost s = b@;
    let ghost ps = spans(s);
    let ghost parts = ps.map_values(|p: (Piece, int, int)| bare_span(s, p));
    let mut out = String::new();
    proof {
        lemma_spans_inside(s, 0);
    }
    for k in 0..all.len()
        invariant
            s == b@,
            ps == spans(s),
            all.deep_view() == ps,
            parts == ps.map_values(|p: (Piece, int, int)| bare_span(s, p)),
            spans_inside(s, ps),
            out@ == text::concat(parts.take(k as int)),
    {
        let span: Span = all[k];
        assert(ps[k as int] == span.deep_view());
        assert(parts.take(k + 1).drop_last() == parts.take(k as int));
        if span.kind == Piece::Comment {
            push_newlines(&mut out, &b[span.start..span.end]);
        } else {
            text::push_chars(&mut out, &b[span.start..span.end]);
        }
    }
    assert(parts.take(all.len() as int) == parts);
    out
}

/// Whether every span lies inside the text.
pub open spec fn spans_inside(s: Seq<char>, ps: Seq<(Piece, int, int)>) -> bool {
    forall|k: int| 0 <= k < ps.len() ==> 0 <= (#[trigger] ps[k]).1 < ps[k].2 <= s.len()
}

pub proof fn lemma_spans_inside(s: Seq<char>, i: int)
    requires
        0 <= i <= s.len(),
    ensures
        spans_inside(s, spans_from(s, i)),
    decreases s.len() - i,
{
    if i < s.len() {
        lemma_span_end(s, i);
        lemma_spans_inside(s, span_end(s, i));
        let rest = spans_from(s, span_end(s, i));
        assert forall|k: int| 0 <= k < spans_from(s, i).len() implies 0 <= (#[trigger] spans_from(
            s,
            i,
        )[k]).1 < spans_from(s, i)[k].2 <= s.len() by {
            if k > 0 {
                assert(spans_from(s, i)[k] == rest[k - 1]);
            }
        }
    }
}

/// Removes JSON comments from body text.
///
/// Comment spans are replaced by the line feeds they contained, so the lines
/// still pair up with those of the input: a line that was nothing but comment
/// goes with it, a blank line the user typed is their spacing and stays.
pub fn strip_comments(src: &str) -> (r: String)
    ensures
        r@ == stripped(src@),
{
    let b = text::chars_of(src);
    let bare_src = bare_text(b.as_slice());
    let before = text::lines(src);
    let after = text::lines(bare_src.as_str());
    let ghost bs = before.deep_view();
    let ghost afs = after.deep_view();
    let mut kept: Vec<String> = Vec::new();
    let mut i: usize = 0;
    assert(bs.skip(0) == bs && afs.skip(0) == afs);
    assert(kept.deep_view() + kept_lines(bs, afs) == kept_lines(bs, afs));
    while i < before.len() && i < after.len()
        invariant
            bs == before.deep_view(),
            afs == after.deep_view(),
            i <= before.len() && i <= after.len(),
            kept.deep_view() + kept_lines(bs.skip(i as int), afs.skip(i as int)) == kept_lines(
                bs,
                afs,
            ),
        decreases before.len() - i,
    {
        let ghost done = kept.deep_view();
        assert(bs.skip(i as int).drop_first() == bs.skip(i + 1));
        assert(afs.skip(i as int).drop_first() == afs.skip(i + 1));
        if !(text::blank(after[i].as_str()) && !text::blank(before[i].as_str())) {
            let line = text::trim_end(after[i].as_str());
            kept.push(line);
            assert(kept.deep_view() == done.push(line@));
        }
        i += 1;
    }
    let mut out = text::join(kept.as_slice(), "\n");
    proof {
        reveal_strlit("\n");
        assert("\n"@ == seq!['\n']);
        assert(kept_lines(bs.skip(i as int), afs.skip(i as int)) == Seq::<Seq<char>>::empty());
        assert(kept.deep_view() == kept_lines(bs, afs));
    }
    if b.len() > 0 && b[b.len() - 1] == '\n' {
        out.push('\n');
    }
    out
}

// ---------------------------------------------------------------------------
// Commas that a comment leaves behind
// ---------------------------------------------------------------------------
/// The first position at or behind `i` that is not ASCII white space.
pub open spec fn white_end(s: Seq<char>, i: int) -> int
    decreases s.len() - i,
{
    if 0 <= i < s.len() && text::is_ascii_white(s[i]) {
        white_end(s, i + 1)
    } else {
        i
    }
}

/// The first position at or behind `i` that is neither white space nor comment.
pub open spec fn filler_end(s: Seq<char>, i: int) -> int
    decreases s.len() - i,
{
    if 0 <= i < s.len() && text::is_ascii_white(s[i]) {
        filler_end(s, i + 1)
    } else if 0 <= i < s.len() && piece_at(s, i) == Piece::Comment {
        proof {
            lemma_span_end(s, i);
        }
        filler_end(s, span_end(s, i))
    } else {
        i
    }
}

/// Whether the comma at `i` has nothing but comment between it and the bracket
/// that closes its object or array: the field it led to has been commented out.
/// A comma with a bare bracket behind it is a slip of the author's, and theirs
/// to mend.
pub open spec fn is_orphaned(s: Seq<char>, i: int) -> bool {
    let e = filler_end(s, i + 1);
    &&& at(s, i, ',')
    &&& piece_at(s, white_end(s, i + 1)) == Piece::Comment
    &&& at(s, e, '}') || at(s, e, ']')
}

/// The characters `i..end` of `s`, without the commas that are orphaned.
pub open spec fn text_without_orphans(s: Seq<char>, i: int, end: int) -> Seq<char>
    decreases end - i,
{
    if i >= end {
        Seq::empty()
    } else if is_orphaned(s, i) {
        text_without_orphans(s, i + 1, end)
    } else {
        seq![s[i]] + text_without_orphans(s, i + 1, end)
    }
}

/// What of a span stays when the orphaned commas go. A comma inside a string,
/// a template or a comment is data.
pub open spec fn span_without_orphans(s: Seq<char>, p: (Piece, int, int)) -> Seq<char> {
    if p.0 == Piece::Text {
        text_without_orphans(s, p.1, p.2)
    } else {
        covered(s, p)
    }
}

/// `s` without the commas that its comments orphan.
pub open spec fn without_orphans(s: Seq<char>) -> Seq<char> {
    text::concat(spans(s).map_values(|p: (Piece, int, int)| span_without_orphans(s, p)))
}

/// Whether the character at `i`, in ordinary source, is an orphaned comma.
fn orphaned(b: &[char], i: usize) -> (r: bool)
    requires
        i < b.len(),
    ensures
        r == is_orphaned(b@, i as int),
{
    if b[i] != ',' {
        return false;
    }
    let mut w: usize = i + 1;
    while w < b.len() && text::is_ascii_whitespace(b[w])
        invariant
            i < w <= b.len(),
            white_end(b@, i + 1) == white_end(b@, w as int),
        decreases b.len() - w,
    {
        w += 1;
    }
    if w >= b.len() || classify(b, w) != Piece::Comment {
        return false;
    }
    let mut e: usize = i + 1;
    while e < b.len()
        invariant_except_break
            filler_end(b@, i + 1) == filler_end(b@, e as int),
        invariant
            i < e <= b.len(),
        ensures
            e == filler_end(b@, i + 1),
        decreases b.len() - e,
    {
        if text::is_ascii_whitespace(b[e]) {
            e += 1;
        } else if classify(b, e) == Piece::Comment {
            e = end_of_span(b, e);
        } else {
            break;
        }
    }
    has_at(b, e, '}') || has_at(b, e, ']')
}

/// Body text without the commas that its comments orphan.
fn drop_orphans(b: &[char]) -> (r: String)
    ensures
        r@ == without_orphans(b@),
{
    let all = scan(b);
    let ghost s = b@;
    let ghost ps = spans(s);
    let ghost parts = ps.map_values(|p: (Piece, int, int)| span_without_orphans(s, p));
    let mut out = String::new();
    proof {
        lemma_spans_inside(s, 0);
    }
    for k in 0..all.len()
        invariant
            s == b@,
            ps == spans(s),
            all.deep_view() == ps,
            parts == ps.map_values(|p: (Piece, int, int)| span_without_orphans(s, p)),
            spans_inside(s, ps),
            out@ == text::concat(parts.take(k as int)),
    {
        let span: Span = all[k];
        let ghost before = out@;
        assert(ps[k as int] == span.deep_view());
        assert(parts.take(k + 1).drop_last() == parts.take(k as int));
        if span.kind == Piece::Text {
            let mut i: usize = span.start;
            assert(out@ + text_without_orphans(s, i as int, span.end as int) == before
                + text_without_orphans(s, span.start as int, span.end as int));
            while i < span.end
                invariant
                    s == b@,
                    span.start <= i <= span.end <= b.len(),
                    out@ + text_without_orphans(s, i as int, span.end as int) == before
                        + text_without_orphans(s, span.start as int, span.end as int),
                decreases span.end - i,
            {
                let ghost rest = text_without_orphans(s, i + 1, span.end as int);
                if !orphaned(b, i) {
                    let ghost had = out@;
                    out.push(b[i]);
                    assert(had + (seq![s[i as int]] + rest) == had.push(s[i as int]) + rest);
                }
                i += 1;
            }
            assert(out@ + Seq::<char>::empty() == out@);
        } else {
            text::push_chars(&mut out, &b[span.start..span.end]);
        }
    }
    assert(parts.take(all.len() as int) == parts);
    out
}

// ---------------------------------------------------------------------------
// The body as it is sent
// ---------------------------------------------------------------------------
/// What stands in for a span when the body is read as JSON: nothing for a
/// comment, a string that carries the template's own text for a template, so
/// that two different templates never read as the same value.
pub open spec fn shape_span(s: Seq<char>, p: (Piece, int, int)) -> Seq<char> {
    match p.0 {
        Piece::Comment => Seq::empty(),
        Piece::Template => json::json_quoted("\u{0}hurl-template:"@ + covered(s, p)),
        _ => covered(s, p),
    }
}

/// `s` as something a JSON parser can read.
pub open spec fn json_shape(s: Seq<char>) -> Seq<char> {
    text::concat(spans(s).map_values(|p: (Piece, int, int)| shape_span(s, p)))
}

/// Whether `s` is JSON once its comments are gone and its templates are stood
/// in for.
pub open spec fn is_json_body(s: Seq<char>) -> bool {
    json::is_json(json_shape(s))
}

/// Whether the comments of `s` can come out: it has some, and what is left
/// without them, and without the commas they orphan, is JSON.
pub open spec fn strips(s: Seq<char>) -> bool {
    commented(s) && is_json_body(stripped(without_orphans(s)))
}

/// `s` as it goes on the wire and into a `.hurl` file.
pub open spec fn wire(s: Seq<char>) -> Seq<char> {
    if strips(s) {
        stripped(without_orphans(s))
    } else {
        s
    }
}

/// Rewrites body text into something a JSON parser can read.
fn shape(src: &str) -> (r: String)
    ensures
        r@ == json_shape(src@),
{
    let b = text::chars_of(src);
    let all = scan(b.as_slice());
    let ghost s = b@;
    let ghost ps = spans(s);
    let ghost parts = ps.map_values(|p: (Piece, int, int)| shape_span(s, p));
    let mut out = String::new();
    proof {
        lemma_spans_inside(s, 0);
    }
    for k in 0..all.len()
        invariant
            s == b@,
            ps == spans(s),
            all.deep_view() == ps,
            parts == ps.map_values(|p: (Piece, int, int)| shape_span(s, p)),
            spans_inside(s, ps),
            out@ == text::concat(parts.take(k as int)),
    {
        let span: Span = all[k];
        assert(ps[k as int] == span.deep_view());
        assert(parts.take(k + 1).drop_last() == parts.take(k as int));
        match span.kind {
            Piece::Comment => {
                assert(out@ + Seq::<char>::empty() == out@);
            },
            Piece::Template => {
                let mut marked = String::new();
                marked.push_str("\u{0}hurl-template:");
                text::push_chars(&mut marked, &b[span.start..span.end]);
                assert(marked@ == "\u{0}hurl-template:"@ + covered(s, ps[k as int]));
                out.push_str(json::quote(marked.as_str()).as_str());
            },
            _ => {
                text::push_chars(&mut out, &b[span.start..span.end]);
            },
        }
    }
    assert(parts.take(all.len() as int) == parts);
    out
}

/// Whether body text is JSON once its templates are stood in for.
pub fn parses_as_json(src: &str) -> (r: bool)
    ensures
        r == is_json_body(src@),
{
    json::reads_as_json(shape(src).as_str())
}

/// Body text as it goes on the wire and into a `.hurl` file: the authored text
/// with its JSON comments removed, and with them the commas they orphan.
///
/// Stripping only applies when the result is JSON. A plain-text or GraphQL body
/// containing `//` is data, so anything that doesn't parse is handed back
/// untouched.
pub fn wire_body(src: &str) -> (r: Cow<'_, str>)
    ensures
        r@ == wire(src@),
        r is Owned == strips(src@),
{
    if !has_comments(src) {
        return Cow::Borrowed(src);
    }
    let b = text::chars_of(src);
    let whole = drop_orphans(b.as_slice());
    let out = strip_comments(whole.as_str());
    if parses_as_json(out.as_str()) {
        Cow::Owned(out)
    } else {
        Cow::Borrowed(src)
    }
}

/// [`wire_body`] as a string of its own.
pub fn wire_text(src: &str) -> (r: String)
    ensures
        r@ == wire(src@),
{
    match wire_body(src) {
        Cow::Borrowed(s) => s.to_owned(),
        Cow::Owned(s) => s,
    }
}

/// `s` with every run of white space reduced to one space, and none around it.
pub open spec fn squashed(s: Seq<char>) -> Seq<char> {
    text::joined(text::words_of(s), " "@)
}

/// Whether two bodies say the same thing: as JSON values where both are JSON,
/// word by word where one of them is not.
pub open spec fn equivalent(a: Seq<char>, b: Seq<char>) -> bool {
    ||| a == b
    ||| if is_json_body(a) && is_json_body(b) {
        json::same_json(json_shape(a), json_shape(b))
    } else {
        squashed(a) == squashed(b)
    }
}

/// Whether two bodies say the same thing.
///
/// The comparison is of values and not of bytes: a reformat, or another order
/// of keys, changes nothing about what is sent. Where either side isn't JSON,
/// only white space is ignored.
pub fn bodies_equivalent(a: &str, b: &str) -> (r: bool)
    ensures
        r == equivalent(a@, b@),
{
    if text::same(a, b) {
        return true;
    }
    match json::values_agree(shape(a).as_str(), shape(b).as_str()) {
        Some(agree) => agree,
        None => {
            let x = text::join(text::words(a).as_slice(), " ");
            let y = text::join(text::words(b).as_slice(), " ");
            text::same(x.as_str(), y.as_str())
        },
    }
}

// ---------------------------------------------------------------------------
// Laws
// ---------------------------------------------------------------------------
/// Scanning loses nothing: the spans, one behind the other, are the text.
pub proof fn spans_cover_the_text(s: Seq<char>)
    ensures
        text::concat(spans(s).map_values(|p: (Piece, int, int)| covered(s, p))) == s,
{
    lemma_spans_cover(s, 0);
    assert(s.skip(0) == s);
}

proof fn lemma_spans_cover(s: Seq<char>, i: int)
    requires
        0 <= i <= s.len(),
    ensures
        text::concat(spans_from(s, i).map_values(|p: (Piece, int, int)| covered(s, p))) == s.skip(
            i,
        ),
    decreases s.len() - i,
{
    let f = |p: (Piece, int, int)| covered(s, p);
    if i < s.len() {
        lemma_span_end(s, i);
        let e = span_end(s, i);
        lemma_spans_cover(s, e);
        let head = seq![(piece_at(s, i), i, e)];
        assert((head + spans_from(s, e)).map_values(f) == head.map_values(f) + spans_from(
            s,
            e,
        ).map_values(f));
        text::lemma_concat_add(head.map_values(f), spans_from(s, e).map_values(f));
        lemma_concat_one(head.map_values(f));
        assert(s.subrange(i, e) + s.skip(e) == s.skip(i));
    } else {
        assert(spans_from(s, i).map_values(f) == Seq::<Seq<char>>::empty());
        assert(s.skip(i) == Seq::<char>::empty());
    }
}

proof fn lemma_concat_one(parts: Seq<Seq<char>>)
    requires
        parts.len() == 1,
    ensures
        text::concat(parts) == parts[0],
{
    reveal_with_fuel(text::concat, 2);
    assert(parts.drop_last() == Seq::<Seq<char>>::empty());
}

/// Replacing comments by their line feeds keeps every line break of the text,
/// so it keeps the line each thing stands on.
pub proof fn bare_keeps_line_breaks(s: Seq<char>)
    ensures
        newlines_of(bare(s)) == newlines_of(s),
{
    let f = |p: (Piece, int, int)| covered(s, p);
    let g = |p: (Piece, int, int)| bare_span(s, p);
    spans_cover_the_text(s);
    assert forall|k: int| 0 <= k < spans(s).len() implies newlines_of(
        #[trigger] spans(s).map_values(g)[k],
    ) == newlines_of(spans(s).map_values(f)[k]) by {
        lemma_newlines_twice(covered(s, spans(s)[k]));
    }
    lemma_newlines_concat(spans(s).map_values(g), spans(s).map_values(f));
}

proof fn lemma_newlines_twice(t: Seq<char>)
    ensures
        newlines_of(newlines_of(t)) == newlines_of(t),
    decreases t.len(),
{
    reveal(Seq::filter);
    if t.len() > 0 {
        lemma_newlines_twice(t.drop_last());
        let u = newlines_of(t.drop_last());
        if t.last() == '\n' {
            assert(u.push('\n').drop_last() == u);
        }
    }
}

proof fn lemma_newlines_concat(a: Seq<Seq<char>>, b: Seq<Seq<char>>)
    requires
        a.len() == b.len(),
        forall|k: int| 0 <= k < a.len() ==> newlines_of(#[trigger] a[k]) == newlines_of(b[k]),
    ensures
        newlines_of(text::concat(a)) == newlines_of(text::concat(b)),
    decreases a.len(),
{
    broadcast use Seq::filter_distributes_over_add;

    if a.len() > 0 {
        assert forall|k: int| 0 <= k < a.drop_last().len() implies newlines_of(
            #[trigger] a.drop_last()[k],
        ) == newlines_of(b.drop_last()[k]) by {
            assert(a.drop_last()[k] == a[k]);
        }
        lemma_newlines_concat(a.drop_last(), b.drop_last());
        assert(newlines_of(a.last()) == newlines_of(b.last())) by {
            assert(a.last() == a[a.len() - 1]);
        }
    }
}

/// What goes on the wire is the authored text untouched, or JSON.
pub proof fn wire_is_untouched_or_json(s: Seq<char>)
    ensures
        wire(s) == s || is_json_body(wire(s)),
        !commented(s) ==> wire(s) == s,
{
}

/// Two templates that differ never stand for the same JSON string.
pub proof fn stand_ins_differ(s: Seq<char>, p: (Piece, int, int), t: Seq<char>, q: (Piece, int, int))
    requires
        p.0 == Piece::Template,
        q.0 == Piece::Template,
        covered(s, p) != covered(t, q),
    ensures
        shape_span(s, p) != shape_span(t, q),
{
    let marker = "\u{0}hurl-template:"@;
    let a = marker + covered(s, p);
    let b = marker + covered(t, q);
    if json::json_quoted(a) == json::json_quoted(b) {
        json::quoting_is_injective(a, b);
        assert(a.skip(marker.len() as int) == covered(s, p));
        assert(b.skip(marker.len() as int) == covered(t, q));
    }
}

} // verus!
