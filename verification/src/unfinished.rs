//! Texts that Hurl's parser does not come to an end of.
//!
//! Two things in a text bring the parser down instead of making it report a
//! fault: an escape sequence that the text breaks off behind, in a multi-line
//! string whose escapes are read, and the escape of a character with more digits
//! than any character has. Both are told here; [`crate::walk`] says in which parts
//! of a text they count.
use vstd::prelude::*;

use crate::text;

verus! {

// ---------------------------------------------------------------------------
// Escape sequences
// ---------------------------------------------------------------------------
/// Whether `c` stands at position `i` of `s`.
pub open spec fn at(s: Seq<char>, i: int, c: char) -> bool {
    0 <= i < s.len() && s[i] == c
}

/// What a hexadecimal digit stands for.
pub open spec fn digit_value(c: char) -> Option<nat> {
    if '0' <= c <= '9' {
        Some((c as int - '0' as int) as nat)
    } else if 'a' <= c <= 'f' {
        Some((c as int - 'a' as int + 10) as nat)
    } else if 'A' <= c <= 'F' {
        Some((c as int - 'A' as int + 10) as nat)
    } else {
        None
    }
}

/// The first position at or behind `i` that no hexadecimal digit stands at.
pub open spec fn digits_end(s: Seq<char>, i: int) -> int
    decreases s.len() - i,
{
    if 0 <= i < s.len() && digit_value(s[i]) is Some {
        digits_end(s, i + 1)
    } else {
        i
    }
}

/// The number that the hexadecimal digits from `i` up to `e` make.
pub open spec fn number_of(s: Seq<char>, i: int, e: int) -> nat
    decreases e - i,
{
    if i >= e {
        0
    } else {
        16 * number_of(s, i, e - 1) + digit_value(s[e - 1]).unwrap()
    }
}

/// Whether a number is a character's.
pub open spec fn is_character(n: nat) -> bool {
    n < 0xd800 || 0xe000 <= n <= 0x10ffff
}

/// Whether a backslash and `c` are an escape sequence.
pub open spec fn is_escape(c: char) -> bool {
    c == '#' || c == '"' || c == '`' || c == '\\' || c == '/' || c == 'b' || c == 'n' || c == 'f'
        || c == 'r' || c == 't'
}

/// Whether the escape of a character begins at position `i`: a backslash, `u` and
/// a brace.
pub open spec fn begins_character(s: Seq<char>, i: int) -> bool {
    at(s, i, '\\') && at(s, i + 1, 'u') && at(s, i + 2, '{')
}

/// Whether it has more digits than the parser's 32 bits have room for.
pub open spec fn is_wide(s: Seq<char>, i: int) -> bool {
    begins_character(s, i) && digits_end(s, i + 3) >= i + 11
}

/// How far an escape sequence at position `i` is read, and whether it is one.
pub open spec fn escape_end(s: Seq<char>, i: int) -> (bool, int) {
    if i + 1 >= s.len() {
        (false, i + 1)
    } else if is_escape(s[i + 1]) {
        (true, i + 2)
    } else if s[i + 1] != 'u' || i + 2 >= s.len() {
        (false, i + 2)
    } else if s[i + 2] != '{' {
        (false, i + 3)
    } else {
        let e = digits_end(s, i + 3);
        if e == i + 3 {
            (
                false,
                if e < s.len() {
                    e + 1
                } else {
                    e
                },
            )
        } else if !is_character(number_of(s, i + 3, e)) || e >= s.len() {
            (false, e)
        } else {
            (s[e] == '}', e + 1)
        }
    }
}

pub proof fn lemma_digits_end(s: Seq<char>, i: int)
    requires
        0 <= i <= s.len(),
    ensures
        i <= digits_end(s, i) <= s.len(),
        forall|j: int| i <= j < digits_end(s, i) ==> digit_value(#[trigger] s[j]) is Some,
    decreases s.len() - i,
{
    if i < s.len() && digit_value(s[i]) is Some {
        lemma_digits_end(s, i + 1);
    }
}

pub proof fn lemma_escape_end(s: Seq<char>, i: int)
    requires
        0 <= i < s.len(),
    ensures
        i < escape_end(s, i).1 <= s.len(),
{
    if i + 3 <= s.len() {
        lemma_digits_end(s, i + 3);
    }
}

// ---------------------------------------------------------------------------
// Where a text breaks off
// ---------------------------------------------------------------------------
/// The first escape of a character from `i` up to `e` that has too many digits; `e`
/// where there is none. A backslash hides the character behind it.
pub open spec fn wide_from(s: Seq<char>, i: int, e: int) -> int
    decreases e - i,
{
    if i < 0 || i >= e {
        e
    } else if s[i] != '\\' {
        wide_from(s, i + 1, e)
    } else if is_wide(s, i) {
        i
    } else if i + 2 >= e {
        e
    } else {
        wide_from(s, i + 2, e)
    }
}

/// Whether three backquotes stand at position `i`.
pub open spec fn is_fence(s: Seq<char>, i: int) -> bool {
    at(s, i, '`') && at(s, i + 1, '`') && at(s, i + 2, '`')
}

/// Whether the text ends while the escapes of a multi-line string that goes on at
/// `i` are read: behind a backslash that is no escape sequence, where the parser
/// takes one more character for granted. An escape with too many digits is no
/// better.
pub open spec fn runs_off(s: Seq<char>, i: int) -> bool
    decreases s.len() - i,
{
    if i < 0 || i >= s.len() || is_fence(s, i) {
        false
    } else if s[i] != '\\' {
        runs_off(s, i + 1)
    } else if is_wide(s, i) {
        true
    } else {
        let (ok, e) = escape_end(s, i);
        proof {
            lemma_escape_end(s, i);
        }
        if ok {
            runs_off(s, e)
        } else {
            e >= s.len() || runs_off(s, e + 1)
        }
    }
}

/// Where the backquotes stand that end a multi-line string whose escapes are read,
/// going on at `i`; the end where there are none.
pub open spec fn escaped_end(s: Seq<char>, i: int) -> int
    decreases s.len() - i,
{
    if i < 0 || i >= s.len() {
        s.len() as int
    } else if is_fence(s, i) {
        i
    } else if s[i] != '\\' {
        escaped_end(s, i + 1)
    } else {
        let (ok, e) = escape_end(s, i);
        proof {
            lemma_escape_end(s, i);
        }
        if ok {
            escaped_end(s, e)
        } else if e >= s.len() {
            s.len() as int
        } else {
            escaped_end(s, e + 1)
        }
    }
}

/// Whether a word stands between two positions.
pub open spec fn holds_word(s: Seq<char>, from: int, to: int, word: Seq<char>) -> bool {
    exists|k: int| from <= k && k + word.len() <= to && #[trigger] s.subrange(k, k + word.len())
        == word
}

/// Whether a multi-line string whose escapes are read begins at position `i`: three
/// backquotes, and the word that asks for it on their line.
pub open spec fn begins_escaped(s: Seq<char>, i: int) -> bool {
    let n = text::find_from(s, '\n', i + 3);
    is_fence(s, i) && n < s.len() && holds_word(s, i + 3, n, "escape"@)
}

/// The first multi-line string at or behind `i` that the text breaks off in; the
/// end where there is none.
pub open spec fn open_from(s: Seq<char>, i: int) -> int
    decreases s.len() - i,
{
    if i < 0 || i >= s.len() {
        s.len() as int
    } else if begins_escaped(s, i) && runs_off(s, text::find_from(s, '\n', i + 3) + 1) {
        i
    } else {
        open_from(s, i + 1)
    }
}

/// Where an escape with too many digits stands at or behind `i`, or a multi-line
/// string that the text breaks off in, whatever part of a file that is.
pub open spec fn break_behind(s: Seq<char>, i: int) -> Option<int> {
    if wide_from(s, i, s.len() as int) < s.len() {
        Some(wide_from(s, i, s.len() as int))
    } else if open_from(s, i) < s.len() {
        Some(open_from(s, i))
    } else {
        None
    }
}

// ---------------------------------------------------------------------------
// Finding it
// ---------------------------------------------------------------------------
/// Whether `c` stands at position `i`.
pub fn stands(cs: &[char], i: usize, c: char) -> (r: bool)
    ensures
        r == at(cs@, i as int, c),
{
    i < cs.len() && cs[i] == c
}

fn value_of_digit(c: char) -> (r: Option<u32>)
    ensures
        r is Some == digit_value(c) is Some,
        r matches Some(d) ==> d < 16 && digit_value(c) == Some(d as nat),
{
    if '0' <= c && c <= '9' {
        Some(c as u32 - '0' as u32)
    } else if 'a' <= c && c <= 'f' {
        Some(c as u32 - 'a' as u32 + 10)
    } else if 'A' <= c && c <= 'F' {
        Some(c as u32 - 'A' as u32 + 10)
    } else {
        None
    }
}

fn end_of_digits(cs: &[char], from: usize) -> (r: usize)
    requires
        from <= cs.len(),
    ensures
        r == digits_end(cs@, from as int),
        from <= r <= cs.len(),
{
    let mut i: usize = from;
    while i < cs.len() && value_of_digit(cs[i]).is_some()
        invariant
            from <= i <= cs.len(),
            digits_end(cs@, from as int) == digits_end(cs@, i as int),
        decreases cs.len() - i,
    {
        i += 1;
    }
    i
}

/// Whether an escape with too many digits stands at position `i`.
pub fn too_wide(cs: &[char], i: usize) -> (r: bool)
    requires
        i < cs.len(),
    ensures
        r == is_wide(cs@, i as int),
{
    if cs.len() - i < 11 || !stands(cs, i, '\\') || !stands(cs, i + 1, 'u') || !stands(
        cs,
        i + 2,
        '{',
    ) {
        proof {
            if i + 3 <= cs@.len() {
                lemma_digits_end(cs@, i + 3);
            }
        }
        return false;
    }
    end_of_digits(cs, i + 3) >= i + 11
}

/// Whether up to seven digits are a character's number.
fn is_characters(cs: &[char], from: usize, to: usize) -> (r: bool)
    requires
        from <= to <= cs.len(),
        to - from < 8,
        forall|j: int| from <= j < to ==> digit_value(#[trigger] cs@[j]) is Some,
    ensures
        r == is_character(number_of(cs@, from as int, to as int)),
{
    let mut n: u32 = 0;
    let mut i: usize = from;
    while i < to
        invariant
            from <= i <= to <= cs.len(),
            to - from < 8,
            forall|j: int| from <= j < to ==> digit_value(#[trigger] cs@[j]) is Some,
            n == number_of(cs@, from as int, i as int),
            i - from == 0 ==> n == 0,
            i - from == 1 ==> n < 0x10,
            i - from == 2 ==> n < 0x100,
            i - from == 3 ==> n < 0x1000,
            i - from == 4 ==> n < 0x10000,
            i - from == 5 ==> n < 0x100000,
            i - from == 6 ==> n < 0x1000000,
            i - from == 7 ==> n < 0x10000000,
        decreases to - i,
    {
        assert(digit_value(cs@[i as int]) is Some);
        if let Some(d) = value_of_digit(cs[i]) {
            n = n * 16 + d;
        }
        i += 1;
    }
    n < 0xd800 || (0xe000 <= n && n <= 0x10ffff)
}

fn is_short_escape(c: char) -> (r: bool)
    ensures
        r == is_escape(c),
{
    c == '#' || c == '"' || c == '`' || c == '\\' || c == '/' || c == 'b' || c == 'n' || c == 'f'
        || c == 'r' || c == 't'
}

fn read_escape(cs: &[char], i: usize) -> (r: (bool, usize))
    requires
        i < cs.len(),
        !is_wide(cs@, i as int),
        cs@[i as int] == '\\',
    ensures
        r.0 == escape_end(cs@, i as int).0,
        r.1 == escape_end(cs@, i as int).1,
        i < r.1 <= cs.len(),
{
    proof {
        lemma_escape_end(cs@, i as int);
    }
    if cs.len() - i <= 1 {
        return (false, i + 1);
    }
    if is_short_escape(cs[i + 1]) {
        return (true, i + 2);
    }
    if cs[i + 1] != 'u' || cs.len() - i <= 2 {
        return (false, i + 2);
    }
    if cs[i + 2] != '{' {
        return (false, i + 3);
    }
    let e: usize = end_of_digits(cs, i + 3);
    proof {
        lemma_digits_end(cs@, i + 3);
    }
    if e == i + 3 {
        return (
            false,
            if e < cs.len() {
                e + 1
            } else {
                e
            },
        );
    }
    if !is_characters(cs, i + 3, e) || e == cs.len() {
        return (false, e);
    }
    (cs[e] == '}', e + 1)
}

/// The first escape of a character between two positions that has too many digits.
pub fn find_wide(cs: &[char], from: usize, to: usize) -> (r: usize)
    requires
        from <= to <= cs.len(),
    ensures
        r == wide_from(cs@, from as int, to as int),
        r <= to,
{
    let mut i: usize = from;
    while i < to
        invariant
            i <= to <= cs.len(),
            wide_from(cs@, from as int, to as int) == wide_from(cs@, i as int, to as int),
        decreases to - i,
    {
        if cs[i] != '\\' {
            i += 1;
        } else if too_wide(cs, i) {
            return i;
        } else if to - i <= 2 {
            return to;
        } else {
            i += 2;
        }
    }
    i
}

/// Whether three backquotes stand at position `i`.
pub fn fence(cs: &[char], i: usize) -> (r: bool)
    requires
        i < cs.len(),
    ensures
        r == is_fence(cs@, i as int),
{
    cs.len() - i >= 3 && stands(cs, i, '`') && stands(cs, i + 1, '`') && stands(cs, i + 2, '`')
}

/// Whether the text ends while a multi-line string's escapes are read.
pub fn reads_off(cs: &[char], from: usize) -> (r: bool)
    requires
        from <= cs.len(),
    ensures
        r == runs_off(cs@, from as int),
{
    let mut i: usize = from;
    while i < cs.len()
        invariant
            i <= cs.len(),
            runs_off(cs@, from as int) == runs_off(cs@, i as int),
        decreases cs.len() - i,
    {
        if fence(cs, i) {
            return false;
        }
        if cs[i] != '\\' {
            i += 1;
        } else if too_wide(cs, i) {
            return true;
        } else {
            let (ok, e) = read_escape(cs, i);
            if ok {
                i = e;
            } else if e == cs.len() {
                return true;
            } else {
                i = e + 1;
            }
        }
    }
    false
}

/// Whether a word stands between two positions.
pub fn finds_word(cs: &[char], from: usize, to: usize, word: &[char]) -> (r: bool)
    requires
        from <= to <= cs.len(),
        word.len() > 0,
    ensures
        r == holds_word(cs@, from as int, to as int, word@),
{
    let n = word.len();
    let mut k: usize = from;
    while k < to && to - k >= n
        invariant
            from <= k <= to <= cs.len(),
            n == word.len(),
            n > 0,
            forall|j: int| from <= j < k ==> #[trigger] cs@.subrange(j, j + n) != word@,
        decreases to - k,
    {
        if text::same_chars(&cs[k..k + n], word) {
            assert(cs@.subrange(k as int, k + n) == word@);
            return true;
        }
        k += 1;
    }
    assert forall|j: int| from <= j && j + n <= to implies #[trigger] cs@.subrange(j, j + n)
        != word@ by {}
    false
}

fn find_open(cs: &[char], from: usize) -> (r: usize)
    requires
        from <= cs.len(),
    ensures
        r == open_from(cs@, from as int),
        r <= cs.len(),
{
    let word = text::chars_of("escape");
    proof {
        reveal_strlit("escape");
    }
    let mut i: usize = from;
    while i < cs.len()
        invariant
            i <= cs.len(),
            word@ == "escape"@,
            word.len() > 0,
            open_from(cs@, from as int) == open_from(cs@, i as int),
        decreases cs.len() - i,
    {
        if fence(cs, i) {
            let n: usize = text::find_char(cs, '\n', i + 3);
            if n < cs.len() && finds_word(cs, i + 3, n, word.as_slice()) && reads_off(cs, n + 1) {
                return i;
            }
        }
        i += 1;
    }
    i
}

/// Where the backquotes stand that end a multi-line string whose escapes are read.
pub fn end_of_escaped(cs: &[char], from: usize) -> (r: usize)
    requires
        from <= cs.len(),
        !runs_off(cs@, from as int),
    ensures
        r == escaped_end(cs@, from as int),
        from <= r <= cs.len(),
{
    let mut i: usize = from;
    while i < cs.len()
        invariant
            from <= i <= cs.len(),
            !runs_off(cs@, i as int),
            escaped_end(cs@, from as int) == escaped_end(cs@, i as int),
        decreases cs.len() - i,
    {
        if fence(cs, i) {
            return i;
        }
        if cs[i] != '\\' {
            i += 1;
        } else {
            let (ok, e) = read_escape(cs, i);
            if ok {
                i = e;
            } else {
                i = e + 1;
            }
        }
    }
    i
}

/// Where an escape with too many digits stands at or behind `from`, or a multi-line
/// string that the text breaks off in.
pub fn find_break_behind(cs: &[char], from: usize) -> (r: Option<usize>)
    requires
        from <= cs.len(),
    ensures
        r is Some == break_behind(cs@, from as int) is Some,
        r matches Some(i) ==> i < cs.len() && break_behind(cs@, from as int) == Some(i as int),
{
    let wide: usize = find_wide(cs, from, cs.len());
    if wide < cs.len() {
        return Some(wide);
    }
    let open: usize = find_open(cs, from);
    if open < cs.len() {
        Some(open)
    } else {
        None
    }
}

} // verus!
