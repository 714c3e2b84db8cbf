//! A walk over a Hurl text, along the parts whose escapes the parser reads.
//!
//! Comments, regular expressions, multi-line strings without the word that asks
//! for escapes, and JSON and XML bodies are passed over: whatever stands in them
//! does the parser no harm. Where it cannot be told from the line alone what the
//! parser takes a part for, all that follows counts as read.
use vstd::prelude::*;

use crate::text;
use crate::unfinished;

verus! {

// ---------------------------------------------------------------------------
// Lines
// ---------------------------------------------------------------------------
/// Where the line that `i` stands in ends: its line feed, or the text's end.
pub open spec fn line_end(s: Seq<char>, i: int) -> int {
    text::find_from(s, '\n', i)
}

/// Where the line behind the one of `i` begins.
pub open spec fn next_line(s: Seq<char>, i: int) -> int {
    if line_end(s, i) < s.len() {
        line_end(s, i) + 1
    } else {
        s.len() as int
    }
}

pub open spec fn is_space(c: char) -> bool {
    c == ' ' || c == '\t'
}

/// The first position at or behind `i` that is neither a space nor a tab.
pub open spec fn past_spaces(s: Seq<char>, i: int) -> int
    decreases s.len() - i,
{
    if 0 <= i < s.len() && is_space(s[i]) {
        past_spaces(s, i + 1)
    } else {
        i
    }
}

/// The first position at or behind `i` that is no capital letter.
pub open spec fn past_capitals(s: Seq<char>, i: int) -> int
    decreases s.len() - i,
{
    if 0 <= i < s.len() && 'A' <= s[i] <= 'Z' {
        past_capitals(s, i + 1)
    } else {
        i
    }
}

/// The first position at or behind `i` that is neither a small letter nor a digit.
pub open spec fn past_small(s: Seq<char>, i: int) -> int
    decreases s.len() - i,
{
    if 0 <= i < s.len() && ('a' <= s[i] <= 'z' || '0' <= s[i] <= '9') {
        past_small(s, i + 1)
    } else {
        i
    }
}

// ---------------------------------------------------------------------------
// Bodies
// ---------------------------------------------------------------------------
/// Whether a JSON or XML body begins at `b`, the first character of a line: a
/// single brace, a list that is no section's name, or a tag.
pub open spec fn opens_body(s: Seq<char>, b: int) -> bool {
    ||| unfinished::at(s, b, '<')
    ||| unfinished::at(s, b, '{') && !unfinished::at(s, b + 1, '{')
    ||| opens_list(s, b)
}

/// Whether a JSON list begins at `b`: a bracket with nothing behind it that could
/// be a section's name.
pub open spec fn opens_list(s: Seq<char>, b: int) -> bool {
    unfinished::at(s, b, '[') && (b + 1 >= s.len() || s[b + 1] == '"' || s[b + 1] == '{' || s[b + 1]
        == '[' || s[b + 1] == ']' || s[b + 1] == '\n' || s[b + 1] == '\r' || is_space(s[b + 1]))
}

/// Whether a request line or a status line begins at `b`: capitals, and a space or
/// a slash behind them. Nothing else follows a body.
pub open spec fn opens_entry(s: Seq<char>, b: int) -> bool {
    let e = past_capitals(s, b);
    b < e < s.len() && (is_space(s[e]) || s[e] == '/')
}

/// The first line at or behind the one that begins at `i` that a body cannot reach:
/// a request line or a status line.
pub open spec fn body_end(s: Seq<char>, i: int) -> int
    decreases s.len() - i,
{
    if i < 0 || i >= s.len() {
        s.len() as int
    } else if opens_entry(s, past_spaces(s, i)) || next_line(s, i) <= i {
        i
    } else {
        body_end(s, next_line(s, i))
    }
}

// ---------------------------------------------------------------------------
// One line, or the string that begins in it
// ---------------------------------------------------------------------------
/// What comes of a line: something that the parser would not come to an end of, the
/// position where the walk goes on, or nothing that is certain.
pub enum Step {
    Broken(int),
    Onward(int),
    Unclear,
}

/// The first three backquotes at or behind `i`; the end where there are none.
pub open spec fn fence_from(s: Seq<char>, i: int) -> int
    decreases s.len() - i,
{
    if i < 0 || i >= s.len() {
        s.len() as int
    } else if unfinished::is_fence(s, i) {
        i
    } else {
        fence_from(s, i + 1)
    }
}

/// The line behind the one that the backquotes at `c` end a string in.
pub open spec fn past_fence(s: Seq<char>, c: int) -> int {
    if c < s.len() {
        next_line(s, c)
    } else {
        s.len() as int
    }
}

/// What comes of the multi-line string that the backquotes at `f` begin. The
/// variables of a GraphQL string may hold backquotes of their own.
pub open spec fn fence_step(s: Seq<char>, f: int) -> Step {
    let n = line_end(s, f + 3);
    if n >= s.len() {
        Step::Onward(s.len() as int)
    } else if text::begins(s.skip(f + 3), "graphql"@) {
        let c = fence_from(s, n + 1);
        if unfinished::holds_word(s, n + 1, c, "\nvariables"@) {
            Step::Unclear
        } else {
            Step::Onward(past_fence(s, c))
        }
    } else if unfinished::holds_word(s, f + 3, n, "escape"@) {
        if unfinished::runs_off(s, n + 1) {
            Step::Broken(f)
        } else {
            Step::Onward(past_fence(s, unfinished::escaped_end(s, n + 1)))
        }
    } else {
        Step::Onward(past_fence(s, fence_from(s, n + 1)))
    }
}

/// Whether a slash at `i` may begin a regular expression: it stands behind a space
/// or, in an assertion, behind a comparison.
pub open spec fn begins_regex(s: Seq<char>, i: int, asserted: bool) -> bool {
    unfinished::at(s, i, '/') && i > 0 && (is_space(s[i - 1]) || asserted && (s[i - 1] == '=' || s[i
        - 1] == '<' || s[i - 1] == '>'))
}

/// The slash that ends a regular expression going on at `i`: the first without a
/// backslash before it.
pub open spec fn regex_end(s: Seq<char>, i: int) -> int
    decreases s.len() - i,
{
    if i < 0 || i >= s.len() {
        s.len() as int
    } else if s[i] == '/' {
        i
    } else if s[i] == '\\' && unfinished::at(s, i + 1, '/') {
        regex_end(s, i + 2)
    } else {
        regex_end(s, i + 1)
    }
}

/// Whether an assertion can stand at `b`, the first character of a line, and
/// nothing else with a string in it: a word, and no colon behind it.
pub open spec fn opens_assert(s: Seq<char>, b: int) -> bool {
    let e = past_small(s, b);
    let m = past_spaces(s, e);
    0 <= b < s.len() && 'a' <= s[b] <= 'z' && e < m && m < s.len() && s[m] != ':'
}

/// What comes of an assertion's line, from `i` on, in or out of a quoted string.
/// Out of them stand regular expressions, multi-line strings and a comment.
pub open spec fn assert_step(s: Seq<char>, i: int, quoted: bool) -> Step
    decreases s.len() - i,
{
    if i < 0 || i >= s.len() {
        Step::Onward(s.len() as int)
    } else if s[i] == '\n' {
        Step::Onward(i + 1)
    } else if quoted {
        if s[i] == '"' {
            assert_step(s, i + 1, false)
        } else if s[i] != '\\' {
            assert_step(s, i + 1, true)
        } else if unfinished::is_wide(s, i) {
            Step::Broken(i)
        } else if i + 1 >= s.len() || s[i + 1] == '"' || s[i + 1] == '\n' {
            Step::Unclear
        } else {
            assert_step(s, i + 2, true)
        }
    } else if s[i] == '#' {
        Step::Onward(next_line(s, i))
    } else if s[i] == '"' {
        assert_step(s, i + 1, true)
    } else if unfinished::is_fence(s, i) {
        fence_step(s, i)
    } else if s[i] == '`' || s[i] == '\\' || s[i] == ',' {
        Step::Unclear
    } else if begins_regex(s, i, true) {
        let e = regex_end(s, i + 1);
        if i < e < s.len() {
            assert_step(s, e + 1, false)
        } else {
            Step::Onward(s.len() as int)
        }
    } else {
        assert_step(s, i + 1, false)
    }
}

/// The first `#` from `i` up to `e`; `e` where there is none. A backslash hides the
/// character behind it.
pub open spec fn hash_from(s: Seq<char>, i: int, e: int) -> int
    decreases e - i,
{
    if i < 0 || i >= e || s[i] == '#' {
        if i < e {
            i
        } else {
            e
        }
    } else if s[i] == '\\' {
        if i + 2 >= e {
            e
        } else {
            hash_from(s, i + 2, e)
        }
    } else {
        hash_from(s, i + 1, e)
    }
}

/// Whether a regular expression may begin from `i` up to `e`.
pub open spec fn regex_within(s: Seq<char>, i: int, e: int, asserted: bool) -> bool
    decreases e - i,
{
    i < e && (begins_regex(s, i, asserted) || regex_within(s, i + 1, e, asserted))
}

/// Whether no string is open at `p`, whatever the line from `b` on is: no backquotes
/// and no regular expression, and quotes in pairs, without a backslash that one of
/// them could belong to.
pub open spec fn is_bare(s: Seq<char>, b: int, p: int, asserted: bool) -> bool {
    let part = s.subrange(b, p);
    &&& text::count_of(part, '`') == 0
    &&& !regex_within(s, b, p, asserted)
    &&& text::count_of(part, '"') == 0 || text::count_of(part, '\\') == 0 && text::count_of(
        part,
        '"',
    ) % 2 == 0
}

/// Where a line's comment begins, if that is certain; the line's end `e` otherwise.
pub open spec fn comment_in(s: Seq<char>, b: int, e: int, asserted: bool) -> int {
    let p = hash_from(s, b, e);
    if p < e && is_bare(s, b, p, asserted) {
        p
    } else {
        e
    }
}

/// Whether something may begin from `i` up to `c` that goes on behind the line's
/// end `e`: a multi-line string, a regular expression, or Base64 text.
pub open spec fn goes_on(s: Seq<char>, i: int, c: int, e: int, asserted: bool) -> bool
    decreases c - i,
{
    i < c && (asserted && unfinished::is_fence(s, i) || begins_regex(s, i, asserted) && regex_end(
        s,
        i + 1,
    ) >= e || text::begins(s.skip(i), "base64,"@) && text::find_from(s, ';', i) >= e || goes_on(
        s,
        i + 1,
        c,
        e,
        asserted,
    ))
}

/// What comes of a line from `b` on, of which the part up to `c` is read.
pub open spec fn part_step(s: Seq<char>, b: int, c: int) -> Step {
    let w = unfinished::wide_from(s, b, c);
    if w < c {
        Step::Broken(w)
    } else {
        Step::Onward(next_line(s, b))
    }
}

/// What comes of a line that is no certain assertion, nor a request line.
pub open spec fn plain_step(s: Seq<char>, b: int, asserted: bool) -> Step {
    let e = line_end(s, b);
    let c = comment_in(s, b, e, asserted);
    if goes_on(s, b, c, e, asserted) {
        Step::Unclear
    } else {
        part_step(s, b, c)
    }
}

/// Whether a request line or a status line begins at `b`, and no name of a row.
pub open spec fn is_entry_line(s: Seq<char>, b: int) -> bool {
    opens_entry(s, b) && !unfinished::at(s, past_spaces(s, past_capitals(s, b)), ':')
}

/// What comes of the line whose first character stands at `b`. A request line's
/// comment begins with its first `#`.
pub open spec fn step(s: Seq<char>, b: int) -> Step {
    if unfinished::is_fence(s, b) {
        fence_step(s, b)
    } else if is_entry_line(s, b) {
        part_step(s, b, hash_from(s, b, line_end(s, b)))
    } else if opens_assert(s, b) {
        if assert_step(s, b, false) is Unclear {
            plain_step(s, b, true)
        } else {
            assert_step(s, b, false)
        }
    } else {
        plain_step(s, b, false)
    }
}

// ---------------------------------------------------------------------------
// The walk
// ---------------------------------------------------------------------------
/// Where that begins, in the lines from `i` on, which the parser would not come to
/// an end of. Behind an XML body, whose end is not looked for, a string over more
/// than one line may be the body's own text.
pub open spec fn break_from(s: Seq<char>, i: int, markup: bool) -> Option<int>
    decreases s.len() - i,
{
    let b = past_spaces(s, i);
    let n = next_line(s, b);
    if i < 0 || i >= s.len() {
        None
    } else if n <= i {
        unfinished::break_behind(s, i)
    } else if unfinished::at(s, b, '#') {
        break_from(s, n, markup)
    } else if opens_body(s, b) {
        let w = unfinished::wide_from(s, b, line_end(s, b));
        if opens_list(s, b) && w < line_end(s, b) {
            Some(w)
        } else if n <= body_end(s, n) <= s.len() {
            break_from(s, body_end(s, n), markup || s[b] == '<')
        } else {
            unfinished::break_behind(s, i)
        }
    } else {
        match step(s, b) {
            Step::Broken(p) => Some(p),
            Step::Onward(k) => if i < k <= s.len() && (markup ==> k <= n) {
                break_from(s, k, markup)
            } else {
                unfinished::break_behind(s, i)
            },
            Step::Unclear => unfinished::break_behind(s, i),
        }
    }
}

/// Where that begins which the parser would not come to an end of, if there is
/// such a thing in a part whose escapes it reads.
pub open spec fn break_in(s: Seq<char>) -> Option<int> {
    break_from(s, 0, false)
}

// ---------------------------------------------------------------------------
// Walking
// ---------------------------------------------------------------------------
/// [`Step`], as it is worked out.
pub enum Way {
    Broken(usize),
    Onward(usize),
    Unclear,
}

impl Way {
    pub open spec fn is(self, st: Step) -> bool {
        match self {
            Way::Broken(p) => st == Step::Broken(p as int),
            Way::Onward(k) => st == Step::Onward(k as int),
            Way::Unclear => st is Unclear,
        }
    }

    /// Whether its position is one of a text of `n` characters.
    pub open spec fn within(self, n: nat) -> bool {
        match self {
            Way::Broken(p) => p < n,
            Way::Onward(k) => k <= n,
            Way::Unclear => true,
        }
    }
}

fn end_of_line(cs: &[char], i: usize) -> (r: usize)
    requires
        i <= cs.len(),
    ensures
        r == line_end(cs@, i as int),
        i <= r <= cs.len(),
{
    text::find_char(cs, '\n', i)
}

fn line_behind(cs: &[char], i: usize) -> (r: usize)
    requires
        i <= cs.len(),
    ensures
        r == next_line(cs@, i as int),
        i <= r <= cs.len(),
{
    let e: usize = end_of_line(cs, i);
    if e < cs.len() {
        e + 1
    } else {
        cs.len()
    }
}

fn is_blank(c: char) -> (r: bool)
    ensures
        r == is_space(c),
{
    c == ' ' || c == '\t'
}

fn skip_spaces(cs: &[char], from: usize) -> (r: usize)
    requires
        from <= cs.len(),
    ensures
        r == past_spaces(cs@, from as int),
        from <= r <= cs.len(),
{
    let mut i: usize = from;
    while i < cs.len() && is_blank(cs[i])
        invariant
            from <= i <= cs.len(),
            past_spaces(cs@, from as int) == past_spaces(cs@, i as int),
        decreases cs.len() - i,
    {
        i += 1;
    }
    i
}

fn skip_capitals(cs: &[char], from: usize) -> (r: usize)
    requires
        from <= cs.len(),
    ensures
        r == past_capitals(cs@, from as int),
        from <= r <= cs.len(),
{
    let mut i: usize = from;
    while i < cs.len() && 'A' <= cs[i] && cs[i] <= 'Z'
        invariant
            from <= i <= cs.len(),
            past_capitals(cs@, from as int) == past_capitals(cs@, i as int),
        decreases cs.len() - i,
    {
        i += 1;
    }
    i
}

fn skip_small(cs: &[char], from: usize) -> (r: usize)
    requires
        from <= cs.len(),
    ensures
        r == past_small(cs@, from as int),
        from <= r <= cs.len(),
{
    let mut i: usize = from;
    while i < cs.len() && (('a' <= cs[i] && cs[i] <= 'z') || ('0' <= cs[i] && cs[i] <= '9'))
        invariant
            from <= i <= cs.len(),
            past_small(cs@, from as int) == past_small(cs@, i as int),
        decreases cs.len() - i,
    {
        i += 1;
    }
    i
}

fn is_list(cs: &[char], b: usize) -> (r: bool)
    requires
        b < cs.len(),
    ensures
        r == opens_list(cs@, b as int),
{
    cs[b] == '[' && (cs.len() - b <= 1 || cs[b + 1] == '"' || cs[b + 1] == '{' || cs[b + 1] == '['
        || cs[b + 1] == ']' || cs[b + 1] == '\n' || cs[b + 1] == '\r' || is_blank(cs[b + 1]))
}

fn is_body(cs: &[char], b: usize) -> (r: bool)
    requires
        b < cs.len(),
    ensures
        r == opens_body(cs@, b as int),
{
    cs[b] == '<' || (cs[b] == '{' && (cs.len() - b <= 1 || cs[b + 1] != '{')) || is_list(cs, b)
}

fn is_entry(cs: &[char], b: usize) -> (r: bool)
    requires
        b <= cs.len(),
    ensures
        r == opens_entry(cs@, b as int),
{
    let e: usize = skip_capitals(cs, b);
    b < e && e < cs.len() && (is_blank(cs[e]) || cs[e] == '/')
}

fn end_of_body(cs: &[char], from: usize) -> (r: usize)
    requires
        from <= cs.len(),
    ensures
        r == body_end(cs@, from as int),
        r <= cs.len(),
{
    let mut i: usize = from;
    while i < cs.len()
        invariant
            i <= cs.len(),
            body_end(cs@, from as int) == body_end(cs@, i as int),
        decreases cs.len() - i,
    {
        let n: usize = line_behind(cs, i);
        if is_entry(cs, skip_spaces(cs, i)) || n <= i {
            return i;
        }
        i = n;
    }
    i
}

fn find_fence(cs: &[char], from: usize) -> (r: usize)
    requires
        from <= cs.len(),
    ensures
        r == fence_from(cs@, from as int),
        from <= r <= cs.len(),
{
    let mut i: usize = from;
    while i < cs.len()
        invariant
            from <= i <= cs.len(),
            fence_from(cs@, from as int) == fence_from(cs@, i as int),
        decreases cs.len() - i,
    {
        if unfinished::fence(cs, i) {
            return i;
        }
        i += 1;
    }
    i
}

fn behind_fence(cs: &[char], c: usize) -> (r: usize)
    requires
        c <= cs.len(),
    ensures
        r == past_fence(cs@, c as int),
        r <= cs.len(),
{
    if c < cs.len() {
        line_behind(cs, c)
    } else {
        cs.len()
    }
}

fn walk_fence(cs: &[char], f: usize) -> (r: Way)
    requires
        f < cs.len(),
        unfinished::is_fence(cs@, f as int),
    ensures
        r.is(fence_step(cs@, f as int)),
        r.within(cs@.len()),
{
    let n: usize = end_of_line(cs, f + 3);
    if n >= cs.len() {
        return Way::Onward(cs.len());
    }
    let graphql = text::chars_of("graphql");
    let variables = text::chars_of("\nvariables");
    let escape = text::chars_of("escape");
    proof {
        reveal_strlit("\nvariables");
        reveal_strlit("escape");
    }
    if text::stands_at(cs, f + 3, graphql.as_slice()) {
        let c: usize = find_fence(cs, n + 1);
        if unfinished::finds_word(cs, n + 1, c, variables.as_slice()) {
            Way::Unclear
        } else {
            Way::Onward(behind_fence(cs, c))
        }
    } else if unfinished::finds_word(cs, f + 3, n, escape.as_slice()) {
        if unfinished::reads_off(cs, n + 1) {
            Way::Broken(f)
        } else {
            let c: usize = unfinished::end_of_escaped(cs, n + 1);
            Way::Onward(behind_fence(cs, c))
        }
    } else {
        let c: usize = find_fence(cs, n + 1);
        Way::Onward(behind_fence(cs, c))
    }
}

fn is_regex(cs: &[char], i: usize, asserted: bool) -> (r: bool)
    requires
        i < cs.len(),
    ensures
        r == begins_regex(cs@, i as int, asserted),
{
    cs[i] == '/' && i > 0 && (is_blank(cs[i - 1]) || (asserted && (cs[i - 1] == '=' || cs[i - 1]
        == '<' || cs[i - 1] == '>')))
}

fn end_of_regex(cs: &[char], from: usize) -> (r: usize)
    requires
        from <= cs.len(),
    ensures
        r == regex_end(cs@, from as int),
        from <= r <= cs.len(),
{
    let mut i: usize = from;
    while i < cs.len()
        invariant
            from <= i <= cs.len(),
            regex_end(cs@, from as int) == regex_end(cs@, i as int),
        decreases cs.len() - i,
    {
        if cs[i] == '/' {
            return i;
        }
        if cs[i] == '\\' && cs.len() - i >= 2 && cs[i + 1] == '/' {
            i += 2;
        } else {
            i += 1;
        }
    }
    i
}

fn is_assert(cs: &[char], b: usize) -> (r: bool)
    requires
        b <= cs.len(),
    ensures
        r == opens_assert(cs@, b as int),
{
    let e: usize = skip_small(cs, b);
    let m: usize = skip_spaces(cs, e);
    b < cs.len() && 'a' <= cs[b] && cs[b] <= 'z' && e < m && m < cs.len() && cs[m] != ':'
}

fn walk_assert(cs: &[char], from: usize) -> (r: Way)
    requires
        from <= cs.len(),
    ensures
        r.is(assert_step(cs@, from as int, false)),
        r.within(cs@.len()),
{
    let mut i: usize = from;
    let mut quoted = false;
    while i < cs.len()
        invariant
            i <= cs.len(),
            assert_step(cs@, from as int, false) == assert_step(cs@, i as int, quoted),
        decreases cs.len() - i,
    {
        let c = cs[i];
        if c == '\n' {
            return Way::Onward(i + 1);
        }
        if quoted {
            if c == '"' {
                quoted = false;
                i += 1;
            } else if c != '\\' {
                i += 1;
            } else if unfinished::too_wide(cs, i) {
                return Way::Broken(i);
            } else if cs.len() - i <= 1 || cs[i + 1] == '"' || cs[i + 1] == '\n' {
                return Way::Unclear;
            } else {
                i += 2;
            }
        } else if c == '#' {
            return Way::Onward(line_behind(cs, i));
        } else if c == '"' {
            quoted = true;
            i += 1;
        } else if unfinished::fence(cs, i) {
            return walk_fence(cs, i);
        } else if c == '`' || c == '\\' || c == ',' {
            return Way::Unclear;
        } else if is_regex(cs, i, true) {
            let e: usize = end_of_regex(cs, i + 1);
            if e == cs.len() {
                return Way::Onward(cs.len());
            }
            i = e + 1;
        } else {
            i += 1;
        }
    }
    Way::Onward(cs.len())
}

fn find_hash(cs: &[char], from: usize, to: usize) -> (r: usize)
    requires
        from <= to <= cs.len(),
    ensures
        r == hash_from(cs@, from as int, to as int),
        from <= r <= to,
{
    let mut i: usize = from;
    while i < to
        invariant
            from <= i <= to <= cs.len(),
            hash_from(cs@, from as int, to as int) == hash_from(cs@, i as int, to as int),
        decreases to - i,
    {
        if cs[i] == '#' {
            return i;
        }
        if cs[i] == '\\' {
            if to - i <= 2 {
                return to;
            }
            i += 2;
        } else {
            i += 1;
        }
    }
    to
}

fn holds_regex(cs: &[char], from: usize, to: usize, asserted: bool) -> (r: bool)
    requires
        from <= to <= cs.len(),
    ensures
        r == regex_within(cs@, from as int, to as int, asserted),
{
    let mut i: usize = from;
    while i < to
        invariant
            from <= i <= to <= cs.len(),
            regex_within(cs@, from as int, to as int, asserted) == regex_within(
                cs@,
                i as int,
                to as int,
                asserted,
            ),
        decreases to - i,
    {
        if is_regex(cs, i, asserted) {
            return true;
        }
        i += 1;
    }
    false
}

fn no_string_open(cs: &[char], b: usize, p: usize, asserted: bool) -> (r: bool)
    requires
        b <= p <= cs.len(),
    ensures
        r == is_bare(cs@, b as int, p as int, asserted),
{
    let part = &cs[b..p];
    let quotes: usize = text::count_char(part, '"');
    text::count_char(part, '`') == 0 && !holds_regex(cs, b, p, asserted) && (quotes == 0 || (
    text::count_char(part, '\\') == 0 && quotes % 2 == 0))
}

fn goes_behind(cs: &[char], from: usize, c: usize, e: usize, asserted: bool) -> (r: bool)
    requires
        from <= c <= e <= cs.len(),
    ensures
        r == goes_on(cs@, from as int, c as int, e as int, asserted),
{
    let base64 = text::chars_of("base64,");
    let mut i: usize = from;
    while i < c
        invariant
            from <= i <= c <= e <= cs.len(),
            base64@ == "base64,"@,
            goes_on(cs@, from as int, c as int, e as int, asserted) == goes_on(
                cs@,
                i as int,
                c as int,
                e as int,
                asserted,
            ),
        decreases c - i,
    {
        if (asserted && unfinished::fence(cs, i)) || (is_regex(cs, i, asserted) && end_of_regex(
            cs,
            i + 1,
        ) >= e) || (text::stands_at(cs, i, base64.as_slice()) && text::find_char(cs, ';', i) >= e) {
            return true;
        }
        i += 1;
    }
    false
}

fn walk_part(cs: &[char], b: usize, c: usize) -> (r: Way)
    requires
        b <= c <= cs.len(),
    ensures
        r.is(part_step(cs@, b as int, c as int)),
        r.within(cs@.len()),
{
    let w: usize = unfinished::find_wide(cs, b, c);
    if w < c {
        Way::Broken(w)
    } else {
        Way::Onward(line_behind(cs, b))
    }
}

fn walk_plain(cs: &[char], b: usize, asserted: bool) -> (r: Way)
    requires
        b <= cs.len(),
    ensures
        r.is(plain_step(cs@, b as int, asserted)),
        r.within(cs@.len()),
{
    let e: usize = end_of_line(cs, b);
    let p: usize = find_hash(cs, b, e);
    let c: usize = if p < e && no_string_open(cs, b, p, asserted) {
        p
    } else {
        e
    };
    if goes_behind(cs, b, c, e, asserted) {
        Way::Unclear
    } else {
        walk_part(cs, b, c)
    }
}

fn walk_line(cs: &[char], b: usize) -> (r: Way)
    requires
        b <= cs.len(),
    ensures
        r.is(step(cs@, b as int)),
        r.within(cs@.len()),
{
    if b < cs.len() && unfinished::fence(cs, b) {
        return walk_fence(cs, b);
    }
    if is_entry(cs, b) {
        let m: usize = skip_spaces(cs, skip_capitals(cs, b));
        if !unfinished::stands(cs, m, ':') {
            let c: usize = find_hash(cs, b, end_of_line(cs, b));
            return walk_part(cs, b, c);
        }
    }
    if is_assert(cs, b) {
        match walk_assert(cs, b) {
            Way::Unclear => walk_plain(cs, b, true),
            way => way,
        }
    } else {
        walk_plain(cs, b, false)
    }
}

/// Where that begins which the parser would not come to an end of, if there is
/// such a thing.
pub fn find_break(cs: &[char]) -> (r: Option<usize>)
    ensures
        r is Some == break_in(cs@) is Some,
        r matches Some(i) ==> i < cs.len() && break_in(cs@) == Some(i as int),
{
    let mut i: usize = 0;
    let mut markup = false;
    while i < cs.len()
        invariant
            i <= cs.len(),
            break_in(cs@) == break_from(cs@, i as int, markup),
        decreases cs.len() - i,
    {
        let b: usize = skip_spaces(cs, i);
        let n: usize = line_behind(cs, b);
        if n <= i {
            return unfinished::find_break_behind(cs, i);
        }
        if unfinished::stands(cs, b, '#') {
            i = n;
        } else if b < cs.len() && is_body(cs, b) {
            let e: usize = end_of_line(cs, b);
            let w: usize = unfinished::find_wide(cs, b, e);
            if is_list(cs, b) && w < e {
                return Some(w);
            }
            let k: usize = end_of_body(cs, n);
            if k < n {
                return unfinished::find_break_behind(cs, i);
            }
            markup = markup || cs[b] == '<';
            i = k;
        } else {
            match walk_line(cs, b) {
                Way::Broken(p) => {
                    return Some(p);
                },
                Way::Onward(k) => {
                    if k <= i || (markup && k > n) {
                        return unfinished::find_break_behind(cs, i);
                    }
                    i = k;
                },
                Way::Unclear => {
                    return unfinished::find_break_behind(cs, i);
                },
            }
        }
    }
    None
}

} // verus!
