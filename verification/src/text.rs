//! Text as a sequence of characters.
//!
//! Every rule of this library reads or writes text, so the vocabulary the
//! contracts use for it lives here: what trimming, splitting into lines and
//! joining mean, each stated over `Seq<char>`, next to the function that does
//! it.
use vstd::prelude::*;
use vstd::string::*;
use vstd::utf8::*;

verus! {

/// `String::push`: the character is added at the end.
pub assume_specification[ String::push ](s: &mut String, c: char)
    ensures
        final(s)@ == old(s)@.push(c),
;

/// `String::push_str`: the text is added at the end.
pub assume_specification[ String::push_str ](s: &mut String, t: &str)
    ensures
        final(s)@ == old(s)@ + t@,
;

// ---------------------------------------------------------------------------
// Characters
// ---------------------------------------------------------------------------
/// The characters with Unicode's `White_Space` property.
pub open spec fn is_white(c: char) -> bool {
    ||| '\u{9}' <= c <= '\u{d}'
    ||| c == ' '
    ||| c == '\u{85}'
    ||| c == '\u{a0}'
    ||| c == '\u{1680}'
    ||| '\u{2000}' <= c <= '\u{200a}'
    ||| c == '\u{2028}'
    ||| c == '\u{2029}'
    ||| c == '\u{202f}'
    ||| c == '\u{205f}'
    ||| c == '\u{3000}'
}

/// Whether `c` is white space, in Unicode's sense.
pub fn is_whitespace(c: char) -> (r: bool)
    ensures
        r == is_white(c),
{
    ('\u{9}' <= c && c <= '\u{d}') || c == ' ' || c == '\u{85}' || c == '\u{a0}' || c == '\u{1680}'
        || ('\u{2000}' <= c && c <= '\u{200a}') || c == '\u{2028}' || c == '\u{2029}' || c
        == '\u{202f}' || c == '\u{205f}' || c == '\u{3000}'
}

/// ASCII's white space: space, tab, line feed, form feed, carriage return.
pub open spec fn is_ascii_white(c: char) -> bool {
    c == ' ' || c == '\t' || c == '\n' || c == '\u{c}' || c == '\r'
}

/// Whether `c` is one of ASCII's white space characters.
pub fn is_ascii_whitespace(c: char) -> (r: bool)
    ensures
        r == is_ascii_white(c),
{
    c == ' ' || c == '\t' || c == '\n' || c == '\u{c}' || c == '\r'
}

// ---------------------------------------------------------------------------
// Characters in and out of strings
// ---------------------------------------------------------------------------
/// The characters of `s`, in order.
pub fn chars_of(s: &str) -> (r: Vec<char>)
    ensures
        r@ == s@,
{
    let mut r: Vec<char> = Vec::new();
    for c in it: s.chars()
        invariant
            it.seq() == s@,
            r@ == s@.take(it.index()),
    {
        r.push(c);
    }
    r
}

/// Adds the characters `cs` at the end of `out`.
pub fn push_chars(out: &mut String, cs: &[char])
    ensures
        final(out)@ == old(out)@ + cs@,
{
    for i in 0..cs.len()
        invariant
            out@ == old(out)@ + cs@.take(i as int),
    {
        out.push(cs[i]);
        assert(cs@.take(i + 1) == cs@.take(i as int).push(cs@[i as int]));
    }
    assert(cs@.take(cs.len() as int) == cs@);
}

/// The text made of `cs`.
pub fn string_of(cs: &[char]) -> (r: String)
    ensures
        r@ == cs@,
{
    let mut r = String::new();
    push_chars(&mut r, cs);
    r
}

/// Whether two texts are the same.
pub fn same(a: &str, b: &str) -> (r: bool)
    ensures
        r == (a@ == b@),
{
    let x = chars_of(a);
    let y = chars_of(b);
    same_chars(x.as_slice(), y.as_slice())
}

/// Whether two runs of characters are the same.
pub fn same_chars(x: &[char], y: &[char]) -> (r: bool)
    ensures
        r == (x@ == y@),
{
    if x.len() != y.len() {
        return false;
    }
    for i in 0..x.len()
        invariant
            x.len() == y.len(),
            x@.take(i as int) == y@.take(i as int),
    {
        if x[i] != y[i] {
            return false;
        }
        assert(x@.take(i + 1) == x@.take(i as int).push(x@[i as int]));
        assert(y@.take(i + 1) == y@.take(i as int).push(y@[i as int]));
    }
    assert(x@.take(x.len() as int) == x@);
    assert(y@.take(y.len() as int) == y@);
    true
}

// ---------------------------------------------------------------------------
// Trimming
// ---------------------------------------------------------------------------
/// `s` without its leading white space.
pub open spec fn trimmed_start(s: Seq<char>) -> Seq<char>
    decreases s.len(),
{
    if s.len() > 0 && is_white(s.first()) {
        trimmed_start(s.drop_first())
    } else {
        s
    }
}

/// `s` without its trailing white space.
pub open spec fn trimmed_end(s: Seq<char>) -> Seq<char>
    decreases s.len(),
{
    if s.len() > 0 && is_white(s.last()) {
        trimmed_end(s.drop_last())
    } else {
        s
    }
}

/// `s` without the white space around it.
pub open spec fn trimmed(s: Seq<char>) -> Seq<char> {
    trimmed_end(trimmed_start(s))
}

/// What is left has no white space at its beginning.
pub proof fn lemma_trimmed_start(s: Seq<char>)
    ensures
        trimmed_start(s).len() <= s.len(),
        trimmed_start(s).len() > 0 ==> !is_white(trimmed_start(s).first()),
        trimmed_start(s) == s.skip(s.len() - trimmed_start(s).len()),
        forall|i: int| 0 <= i < s.len() - trimmed_start(s).len() ==> is_white(s[i]),
    decreases s.len(),
{
    if s.len() > 0 && is_white(s.first()) {
        let t = s.drop_first();
        lemma_trimmed_start(t);
        assert(t.skip(t.len() - trimmed_start(s).len()) == s.skip(
            s.len() - trimmed_start(s).len(),
        ));
        assert forall|i: int| 0 <= i < s.len() - trimmed_start(s).len() implies is_white(s[i]) by {
            if i > 0 {
                assert(s[i] == t[i - 1]);
            }
        }
    } else {
        assert(s.skip(0) == s);
    }
}

/// What is left has no white space at its end.
pub proof fn lemma_trimmed_end(s: Seq<char>)
    ensures
        trimmed_end(s).len() <= s.len(),
        trimmed_end(s).len() > 0 ==> !is_white(trimmed_end(s).last()),
        trimmed_end(s) == s.take(trimmed_end(s).len() as int),
        forall|i: int| trimmed_end(s).len() <= i < s.len() ==> is_white(s[i]),
    decreases s.len(),
{
    if s.len() > 0 && is_white(s.last()) {
        let t = s.drop_last();
        lemma_trimmed_end(t);
        assert(t.take(trimmed_end(s).len() as int) == s.take(trimmed_end(s).len() as int));
        assert forall|i: int| trimmed_end(s).len() <= i < s.len() implies is_white(s[i]) by {
            if i < s.len() - 1 {
                assert(s[i] == t[i]);
            }
        }
    } else {
        assert(s.take(s.len() as int) == s);
    }
}

/// The characters of `cs` behind its leading white space.
pub fn trim_start_chars(cs: &[char]) -> (r: &[char])
    ensures
        r@ == trimmed_start(cs@),
{
    let mut i: usize = 0;
    assert(cs@.skip(0) == cs@);
    while i < cs.len() && is_whitespace(cs[i])
        invariant
            i <= cs.len(),
            trimmed_start(cs@) == trimmed_start(cs@.skip(i as int)),
        decreases cs.len() - i,
    {
        assert(cs@.skip(i as int).drop_first() == cs@.skip(i + 1));
        i += 1;
    }
    assert(cs@.skip(i as int) == cs@.subrange(i as int, cs@.len() as int));
    &cs[i..cs.len()]
}

/// The characters of `cs` before its trailing white space.
pub fn trim_end_chars(cs: &[char]) -> (r: &[char])
    ensures
        r@ == trimmed_end(cs@),
{
    let mut n: usize = cs.len();
    assert(cs@.take(n as int) == cs@);
    while n > 0 && is_whitespace(cs[n - 1])
        invariant
            n <= cs.len(),
            trimmed_end(cs@) == trimmed_end(cs@.take(n as int)),
        decreases n,
    {
        assert(cs@.take(n as int).drop_last() == cs@.take(n - 1));
        n -= 1;
    }
    assert(cs@.take(n as int) == cs@.subrange(0, n as int));
    &cs[0..n]
}

/// The characters of `cs` without the white space around them.
pub fn trim_chars(cs: &[char]) -> (r: &[char])
    ensures
        r@ == trimmed(cs@),
{
    trim_end_chars(trim_start_chars(cs))
}

/// `s` without the white space around it.
pub fn trim(s: &str) -> (r: String)
    ensures
        r@ == trimmed(s@),
{
    let cs = chars_of(s);
    string_of(trim_chars(cs.as_slice()))
}

/// `s` without its leading white space.
pub fn trim_start(s: &str) -> (r: String)
    ensures
        r@ == trimmed_start(s@),
{
    let cs = chars_of(s);
    string_of(trim_start_chars(cs.as_slice()))
}

/// `s` without its trailing white space.
pub fn trim_end(s: &str) -> (r: String)
    ensures
        r@ == trimmed_end(s@),
{
    let cs = chars_of(s);
    string_of(trim_end_chars(cs.as_slice()))
}

// ---------------------------------------------------------------------------
// Searching
// ---------------------------------------------------------------------------
/// Where `c` first stands in `s` at or behind position `i`; the length of `s`
/// where it does not.
pub open spec fn find_from(s: Seq<char>, c: char, i: int) -> int
    decreases s.len() - i,
{
    if i >= s.len() || s[i] == c {
        i
    } else {
        find_from(s, c, i + 1)
    }
}

/// Where `c` first stands in `s`; the length of `s` where it does not.
pub open spec fn find(s: Seq<char>, c: char) -> int {
    find_from(s, c, 0)
}

/// What [`find_from`] says: nothing before it is `c`, and it is `c` or the end.
pub proof fn lemma_find_from(s: Seq<char>, c: char, i: int)
    requires
        0 <= i <= s.len(),
    ensures
        i <= find_from(s, c, i) <= s.len(),
        forall|j: int| i <= j < find_from(s, c, i) ==> s[j] != c,
        find_from(s, c, i) < s.len() ==> s[find_from(s, c, i)] == c,
    decreases s.len() - i,
{
    if i < s.len() && s[i] != c {
        lemma_find_from(s, c, i + 1);
    }
}

/// A position that is `c`, with nothing before it that is, is the one found.
pub proof fn lemma_find_is(s: Seq<char>, c: char, i: int, n: int)
    requires
        0 <= i <= n <= s.len(),
        forall|j: int| i <= j < n ==> s[j] != c,
        n < s.len() ==> s[n] == c,
    ensures
        find_from(s, c, i) == n,
    decreases s.len() - i,
{
    if i < n {
        lemma_find_is(s, c, i + 1, n);
    }
}

/// Where `c` first stands in `cs` at or behind position `from`.
pub fn find_char(cs: &[char], c: char, from: usize) -> (r: usize)
    requires
        from <= cs.len(),
    ensures
        r == find_from(cs@, c, from as int),
        from <= r <= cs.len(),
        r < cs.len() ==> cs@[r as int] == c,
        forall|j: int| from <= j < r ==> cs@[j] != c,
{
    let mut i: usize = from;
    while i < cs.len() && cs[i] != c
        invariant
            from <= i <= cs.len(),
            forall|j: int| from <= j < i ==> cs@[j] != c,
            find_from(cs@, c, from as int) == find_from(cs@, c, i as int),
        decreases cs.len() - i,
    {
        i += 1;
    }
    i
}

/// Whether `s` begins with `p`.
pub open spec fn begins(s: Seq<char>, p: Seq<char>) -> bool {
    p.len() <= s.len() && s.take(p.len() as int) == p
}

/// Whether `p` stands in `cs` at position `i`.
pub fn stands_at(cs: &[char], i: usize, p: &[char]) -> (r: bool)
    requires
        i <= cs.len(),
    ensures
        r == begins(cs@.skip(i as int), p@),
{
    let ghost rest = cs@.skip(i as int);
    if cs.len() - i < p.len() {
        return false;
    }
    for j in 0..p.len()
        invariant
            i <= cs.len(),
            p.len() <= cs.len() - i,
            rest == cs@.skip(i as int),
            rest.take(j as int) == p@.take(j as int),
    {
        if cs[i + j] != p[j] {
            assert(rest.take(p.len() as int)[j as int] != p@[j as int]);
            return false;
        }
        assert(rest.take(j + 1) == rest.take(j as int).push(rest[j as int]));
        assert(p@.take(j + 1) == p@.take(j as int).push(p@[j as int]));
    }
    assert(p@.take(p.len() as int) == p@);
    true
}

/// Whether `s` begins with `p`.
pub fn starts_with(s: &str, p: &str) -> (r: bool)
    ensures
        r == begins(s@, p@),
{
    let cs = chars_of(s);
    let ps = chars_of(p);
    assert(cs@.skip(0) == cs@);
    stands_at(cs.as_slice(), 0, ps.as_slice())
}

/// What of `s` stands behind the prefix `p`, where it begins with it.
pub open spec fn without_prefix(s: Seq<char>, p: Seq<char>) -> Option<Seq<char>> {
    if begins(s, p) {
        Some(s.skip(p.len() as int))
    } else {
        None
    }
}

/// `s` behind its prefix `p`.
pub fn strip_prefix(s: &str, p: &str) -> (r: Option<String>)
    ensures
        r.deep_view() == without_prefix(s@, p@),
{
    if starts_with(s, p) {
        let cs = chars_of(s);
        let ps = chars_of(p);
        let r = string_of(&cs[ps.len()..cs.len()]);
        assert(r@ == s@.skip(p@.len() as int));
        Some(r)
    } else {
        None
    }
}

// ---------------------------------------------------------------------------
// Lines
// ---------------------------------------------------------------------------
/// `s` without one carriage return at its end.
pub open spec fn chomped(s: Seq<char>) -> Seq<char> {
    if s.len() > 0 && s.last() == '\r' {
        s.drop_last()
    } else {
        s
    }
}

/// The lines of `s`. A line feed ends a line, and so does a carriage return
/// with a line feed behind it; the last line may lack its end.
pub open spec fn lines_of(s: Seq<char>) -> Seq<Seq<char>>
    decreases s.len(),
{
    let n = find(s, '\n');
    if s.len() == 0 {
        Seq::empty()
    } else if n == s.len() {
        seq![s]
    } else {
        proof {
            lemma_find_from(s, '\n', 0);
        }
        seq![chomped(s.take(n))] + lines_of(s.skip(n + 1))
    }
}

/// The lines of `s`.
pub fn lines(s: &str) -> (r: Vec<String>)
    ensures
        r.deep_view() == lines_of(s@),
{
    let cs = chars_of(s);
    let mut r: Vec<String> = Vec::new();
    let mut i: usize = 0;
    assert(cs@.skip(0) == cs@);
    assert(r.deep_view() + lines_of(cs@) == lines_of(cs@));
    while i < cs.len()
        invariant
            i <= cs.len(),
            r.deep_view() + lines_of(cs@.skip(i as int)) == lines_of(cs@),
        decreases cs.len() - i,
    {
        let ghost rest = cs@.skip(i as int);
        let ghost done = r.deep_view();
        let n: usize = find_char(cs.as_slice(), '\n', i);
        proof {
            lemma_find_is(rest, '\n', 0, n - i);
        }
        if n == cs.len() {
            let line = string_of(&cs[i..n]);
            assert(line@ == rest);
            r.push(line);
            assert(r.deep_view() == done.push(rest));
            i = n;
            assert(lines_of(cs@.skip(i as int)) == Seq::<Seq<char>>::empty());
        } else {
            let end: usize = if n > i && cs[n - 1] == '\r' {
                n - 1
            } else {
                n
            };
            let line = string_of(&cs[i..end]);
            assert(line@ == chomped(rest.take(n - i)));
            r.push(line);
            assert(r.deep_view() == done.push(line@));
            assert(rest.skip(n - i + 1) == cs@.skip(n + 1));
            i = n + 1;
        }
    }
    assert(lines_of(cs@.skip(i as int)) == Seq::<Seq<char>>::empty());
    r
}

/// The parts, with `sep` between every two of them.
pub open spec fn joined(parts: Seq<Seq<char>>, sep: Seq<char>) -> Seq<char>
    decreases parts.len(),
{
    if parts.len() == 0 {
        Seq::empty()
    } else if parts.len() == 1 {
        parts[0]
    } else {
        joined(parts.drop_last(), sep) + sep + parts.last()
    }
}

/// The parts, with `sep` between every two of them.
pub fn join(parts: &[String], sep: &str) -> (r: String)
    ensures
        r@ == joined(parts.deep_view(), sep@),
{
    let mut r = String::new();
    let ghost all = parts.deep_view();
    for i in 0..parts.len()
        invariant
            all == parts.deep_view(),
            r@ == joined(all.take(i as int), sep@),
    {
        if i > 0 {
            r.push_str(sep);
        }
        r.push_str(parts[i].as_str());
        assert(all.take(i + 1).drop_last() == all.take(i as int));
        assert(all.take(i + 1).last() == parts@[i as int]@);
    }
    assert(all.take(parts.len() as int) == all);
    r
}

/// The parts one behind the other.
pub open spec fn concat(parts: Seq<Seq<char>>) -> Seq<char>
    decreases parts.len(),
{
    if parts.len() == 0 {
        Seq::empty()
    } else {
        concat(parts.drop_last()) + parts.last()
    }
}

/// The parts of two lists, one list behind the other.
pub proof fn lemma_concat_add(a: Seq<Seq<char>>, b: Seq<Seq<char>>)
    ensures
        concat(a + b) == concat(a) + concat(b),
    decreases b.len(),
{
    if b.len() == 0 {
        assert(a + b == a);
    } else {
        assert((a + b).drop_last() == a + b.drop_last());
        lemma_concat_add(a, b.drop_last());
    }
}

/// How many characters at the beginning of `s` are not white space.
pub open spec fn word_len(s: Seq<char>) -> nat
    decreases s.len(),
{
    if s.len() == 0 || is_white(s.first()) {
        0
    } else {
        1 + word_len(s.drop_first())
    }
}

/// The words of `s`: what stands between white space.
pub open spec fn words_of(s: Seq<char>) -> Seq<Seq<char>>
    decreases s.len(),
{
    let t = trimmed_start(s);
    if t.len() == 0 {
        Seq::empty()
    } else {
        proof {
            lemma_trimmed_start(s);
            lemma_word_len(t);
        }
        seq![t.take(word_len(t) as int)] + words_of(t.skip(word_len(t) as int))
    }
}

pub proof fn lemma_word_len(s: Seq<char>)
    ensures
        word_len(s) <= s.len(),
        forall|i: int| 0 <= i < word_len(s) ==> !is_white(s[i]),
        word_len(s) < s.len() ==> is_white(s[word_len(s) as int]),
    decreases s.len(),
{
    if s.len() > 0 && !is_white(s.first()) {
        lemma_word_len(s.drop_first());
        assert forall|i: int| 0 <= i < word_len(s) implies !is_white(s[i]) by {
            if i > 0 {
                assert(s[i] == s.drop_first()[i - 1]);
            }
        }
        if word_len(s) < s.len() {
            assert(s[word_len(s) as int] == s.drop_first()[word_len(s) - 1]);
        }
    }
}

/// The words of `s`.
pub fn words(s: &str) -> (r: Vec<String>)
    ensures
        r.deep_view() == words_of(s@),
{
    let all = chars_of(s);
    let mut rest: &[char] = all.as_slice();
    let mut r: Vec<String> = Vec::new();
    assert(r.deep_view() + words_of(s@) == words_of(s@));
    loop
        invariant
            r.deep_view() + words_of(rest@) == words_of(s@),
        decreases rest.len(),
    {
        let ghost done = r.deep_view();
        let ghost before = rest@;
        let t: &[char] = trim_start_chars(rest);
        proof {
            lemma_trimmed_start(before);
            lemma_word_len(t@);
        }
        if t.len() == 0 {
            assert(words_of(before) == Seq::<Seq<char>>::empty());
            return r;
        }
        let mut n: usize = 0;
        assert(t@.skip(0) == t@);
        while n < t.len() && !is_whitespace(t[n])
            invariant
                n <= t.len(),
                word_len(t@) == n + word_len(t@.skip(n as int)),
            decreases t.len() - n,
        {
            assert(t@.skip(n as int).drop_first() == t@.skip(n + 1));
            n += 1;
        }
        assert(word_len(t@.skip(n as int)) == 0);
        let word = string_of(&t[0..n]);
        r.push(word);
        assert(word@ == t@.take(n as int));
        assert(r.deep_view() == done.push(word@));
        rest = &t[n..t.len()];
        assert(rest@ == t@.skip(n as int));
    }
}

/// Whether every character of `s` is white space.
pub open spec fn is_blank(s: Seq<char>) -> bool {
    trimmed(s).len() == 0
}

/// Whether `s` holds nothing but white space.
pub fn blank(s: &str) -> (r: bool)
    ensures
        r == is_blank(s@),
{
    let cs = chars_of(s);
    trim_chars(cs.as_slice()).len() == 0
}

// ---------------------------------------------------------------------------
// Splitting
// ---------------------------------------------------------------------------
/// The parts of `s` between the characters `c`. There is always one part more
/// than there are `c`.
pub open spec fn split_on(s: Seq<char>, c: char) -> Seq<Seq<char>>
    decreases s.len(),
{
    let n = find(s, c);
    if n >= s.len() {
        seq![s]
    } else {
        proof {
            lemma_find_from(s, c, 0);
        }
        seq![s.take(n)] + split_on(s.skip(n + 1), c)
    }
}

/// The parts of `s` between the characters `c`.
pub fn split(s: &str, c: char) -> (r: Vec<String>)
    ensures
        r.deep_view() == split_on(s@, c),
{
    let cs = chars_of(s);
    let mut r: Vec<String> = Vec::new();
    let mut i: usize = 0;
    assert(cs@.skip(0) == cs@);
    assert(r.deep_view() + split_on(cs@, c) == split_on(cs@, c));
    loop
        invariant
            i <= cs.len(),
            r.deep_view() + split_on(cs@.skip(i as int), c) == split_on(cs@, c),
            cs@ == s@,
        decreases cs.len() - i,
    {
        let ghost rest = cs@.skip(i as int);
        let ghost done = r.deep_view();
        let n: usize = find_char(cs.as_slice(), c, i);
        proof {
            lemma_find_is(rest, c, 0, n - i);
        }
        let part = string_of(&cs[i..n]);
        assert(part@ == rest.take(n - i));
        r.push(part);
        assert(r.deep_view() == done.push(part@));
        if n == cs.len() {
            assert(part@ == rest);
            assert(r.deep_view() == split_on(cs@, c));
            return r;
        }
        assert(rest.skip(n - i + 1) == cs@.skip(n + 1));
        i = n + 1;
    }
}

/// `s` without one carriage return at its end.
pub fn chomp(s: &str) -> (r: String)
    ensures
        r@ == chomped(s@),
{
    let cs = chars_of(s);
    let n: usize = if cs.len() > 0 && cs[cs.len() - 1] == '\r' {
        cs.len() - 1
    } else {
        cs.len()
    };
    let r = string_of(&cs[0..n]);
    assert(r@ == chomped(s@));
    r
}

// ---------------------------------------------------------------------------
// Bytes
// ---------------------------------------------------------------------------
/// How many bytes `s` takes in UTF-8.
pub open spec fn byte_len(s: Seq<char>) -> nat {
    encode_utf8(s).len()
}

pub proof fn lemma_byte_len_add(a: Seq<char>, b: Seq<char>)
    ensures
        encode_utf8(a + b) == encode_utf8(a) + encode_utf8(b),
        byte_len(a + b) == byte_len(a) + byte_len(b),
    decreases a.len(),
{
    if a.len() == 0 {
        assert(a + b == b);
    } else {
        assert((a + b).drop_first() == a.drop_first() + b);
        lemma_byte_len_add(a.drop_first(), b);
    }
}

/// A part of a text takes no more bytes than the whole.
pub proof fn lemma_byte_len_part(s: Seq<char>, a: int, b: int)
    requires
        0 <= a <= b <= s.len(),
    ensures
        byte_len(s.subrange(a, b)) <= byte_len(s),
{
    assert(s == s.take(a) + s.subrange(a, b) + s.skip(b));
    lemma_byte_len_add(s.take(a) + s.subrange(a, b), s.skip(b));
    lemma_byte_len_add(s.take(a), s.subrange(a, b));
}

/// How many bytes `c` takes in UTF-8.
pub fn char_width(c: char) -> (r: usize)
    ensures
        r == byte_len(seq![c]),
        1 <= r <= 4,
{
    proof {
        reveal_with_fuel(encode_utf8, 2);
        assert(seq![c].drop_first() == Seq::<char>::empty());
        assert(encode_utf8(seq![c]) == encode_scalar(c as u32));
    }
    let v: u32 = c as u32;
    if v <= 0x7f {
        1
    } else if v <= 0x7ff {
        2
    } else if v <= 0xffff {
        3
    } else {
        4
    }
}

/// How many bytes `cs` takes in UTF-8.
pub fn width(cs: &[char]) -> (r: usize)
    requires
        byte_len(cs@) <= usize::MAX,
    ensures
        r == byte_len(cs@),
{
    let mut n: usize = 0;
    for i in 0..cs.len()
        invariant
            byte_len(cs@) <= usize::MAX,
            n == byte_len(cs@.take(i as int)),
    {
        proof {
            assert(cs@.take(i + 1) == cs@.take(i as int) + seq![cs@[i as int]]);
            lemma_byte_len_add(cs@.take(i as int), seq![cs@[i as int]]);
            lemma_byte_len_part(cs@, 0, i + 1);
            assert(cs@.subrange(0, i + 1) == cs@.take(i + 1));
        }
        n += char_width(cs[i]);
    }
    assert(cs@.take(cs.len() as int) == cs@);
    n
}

/// Whether two lists of texts are the same.
pub fn same_lists(a: &[String], b: &[String]) -> (r: bool)
    ensures
        r == (a.deep_view() == b.deep_view()),
{
    let ghost x = a.deep_view();
    let ghost y = b.deep_view();
    if a.len() != b.len() {
        assert(x.len() != y.len());
        return false;
    }
    for i in 0..a.len()
        invariant
            x == a.deep_view(),
            y == b.deep_view(),
            a.len() == b.len(),
            forall|j: int| 0 <= j < i ==> x[j] == y[j],
    {
        if !same(a[i].as_str(), b[i].as_str()) {
            assert(x[i as int] != y[i as int]);
            return false;
        }
        assert(x[i as int] == y[i as int]);
    }
    assert(x == y);
    true
}

// ---------------------------------------------------------------------------
// Runs of characters
// ---------------------------------------------------------------------------
/// Where the first character that meets `p` stands in `s`; the length of `s`
/// where none does.
pub open spec fn seek(s: Seq<char>, p: spec_fn(char) -> bool) -> int
    decreases s.len(),
{
    if s.len() == 0 || p(s.first()) {
        0
    } else {
        1 + seek(s.drop_first(), p)
    }
}

pub proof fn lemma_seek(s: Seq<char>, p: spec_fn(char) -> bool)
    ensures
        0 <= seek(s, p) <= s.len(),
        forall|i: int| 0 <= i < seek(s, p) ==> !p(#[trigger] s[i]),
        seek(s, p) < s.len() ==> p(s[seek(s, p)]),
    decreases s.len(),
{
    if s.len() > 0 && !p(s.first()) {
        let t = s.drop_first();
        lemma_seek(t, p);
        assert forall|i: int| 0 <= i < seek(s, p) implies !p(#[trigger] s[i]) by {
            if i > 0 {
                assert(s[i] == t[i - 1]);
            }
        }
        if seek(s, p) < s.len() {
            assert(s[seek(s, p)] == t[seek(t, p)]);
        }
    }
}

pub proof fn lemma_seek_is(s: Seq<char>, p: spec_fn(char) -> bool, n: int)
    requires
        0 <= n <= s.len(),
        forall|i: int| 0 <= i < n ==> !p(#[trigger] s[i]),
        n < s.len() ==> p(s[n]),
    ensures
        seek(s, p) == n,
    decreases s.len(),
{
    if n > 0 {
        assert(!p(s[0]));
        let t = s.drop_first();
        assert forall|i: int| 0 <= i < n - 1 implies !p(#[trigger] t[i]) by {
            assert(t[i] == s[i + 1]);
        }
        lemma_seek_is(t, p, n - 1);
    }
}

/// Where the first character stands for which `f` answers yes.
pub(crate) fn seek_where(cs: &[char], f: impl Fn(char) -> bool, Ghost(p): Ghost<spec_fn(char) -> bool>) -> (r:
    usize)
    requires
        forall|c: char| #[trigger] call_requires(f, (c,)),
        forall|c: char, b: bool| #[trigger] call_ensures(f, (c,), b) ==> b == p(c),
    ensures
        r == seek(cs@, p),
        r <= cs.len(),
        r < cs.len() ==> p(cs@[r as int]),
        forall|i: int| 0 <= i < r ==> !p(#[trigger] cs@[i]),
{
    let mut i: usize = 0;
    while i < cs.len() && !f(cs[i])
        invariant
            i <= cs.len(),
            forall|c: char| #[trigger] call_requires(f, (c,)),
            forall|c: char, b: bool| #[trigger] call_ensures(f, (c,), b) ==> b == p(c),
            forall|j: int| 0 <= j < i ==> !p(#[trigger] cs@[j]),
        decreases cs.len() - i,
    {
        i += 1;
    }
    proof {
        lemma_seek_is(cs@, p, i as int);
    }
    i
}

/// `s` behind the characters at its beginning that meet `p`.
pub open spec fn without_leading(s: Seq<char>, p: spec_fn(char) -> bool) -> Seq<char>
    decreases s.len(),
{
    if s.len() > 0 && p(s.first()) {
        without_leading(s.drop_first(), p)
    } else {
        s
    }
}

/// `s` before the characters at its end that meet `p`.
pub open spec fn without_trailing(s: Seq<char>, p: spec_fn(char) -> bool) -> Seq<char>
    decreases s.len(),
{
    if s.len() > 0 && p(s.last()) {
        without_trailing(s.drop_last(), p)
    } else {
        s
    }
}

/// `cs` behind the characters at its beginning for which `f` answers yes.
pub(crate) fn drop_leading<'a>(
    cs: &'a [char],
    f: impl Fn(char) -> bool,
    Ghost(p): Ghost<spec_fn(char) -> bool>,
) -> (r: &'a [char])
    requires
        forall|c: char| #[trigger] call_requires(f, (c,)),
        forall|c: char, b: bool| #[trigger] call_ensures(f, (c,), b) ==> b == p(c),
    ensures
        r@ == without_leading(cs@, p),
{
    let mut i: usize = 0;
    assert(cs@.skip(0) == cs@);
    while i < cs.len() && f(cs[i])
        invariant
            i <= cs.len(),
            forall|c: char| #[trigger] call_requires(f, (c,)),
            forall|c: char, b: bool| #[trigger] call_ensures(f, (c,), b) ==> b == p(c),
            without_leading(cs@, p) == without_leading(cs@.skip(i as int), p),
        decreases cs.len() - i,
    {
        assert(cs@.skip(i as int).drop_first() == cs@.skip(i + 1));
        i += 1;
    }
    assert(cs@.skip(i as int) == cs@.subrange(i as int, cs@.len() as int));
    &cs[i..cs.len()]
}

/// `cs` before the characters at its end for which `f` answers yes.
pub(crate) fn drop_trailing<'a>(
    cs: &'a [char],
    f: impl Fn(char) -> bool,
    Ghost(p): Ghost<spec_fn(char) -> bool>,
) -> (r: &'a [char])
    requires
        forall|c: char| #[trigger] call_requires(f, (c,)),
        forall|c: char, b: bool| #[trigger] call_ensures(f, (c,), b) ==> b == p(c),
    ensures
        r@ == without_trailing(cs@, p),
{
    let mut n: usize = cs.len();
    assert(cs@.take(n as int) == cs@);
    while n > 0 && f(cs[n - 1])
        invariant
            n <= cs.len(),
            forall|c: char| #[trigger] call_requires(f, (c,)),
            forall|c: char, b: bool| #[trigger] call_ensures(f, (c,), b) ==> b == p(c),
            without_trailing(cs@, p) == without_trailing(cs@.take(n as int), p),
        decreases n,
    {
        assert(cs@.take(n as int).drop_last() == cs@.take(n - 1));
        n -= 1;
    }
    assert(cs@.take(n as int) == cs@.subrange(0, n as int));
    &cs[0..n]
}

/// Where `ab` first stands in `s` at or behind position `i`; the length of `s`
/// where it does not.
pub open spec fn find_pair(s: Seq<char>, a: char, b: char, i: int) -> int
    decreases s.len() - i,
{
    if i >= s.len() {
        s.len() as int
    } else if s[i] == a && i + 1 < s.len() && s[i + 1] == b {
        i
    } else {
        find_pair(s, a, b, i + 1)
    }
}

/// Where `ab` first stands in `cs` at or behind position `from`.
pub fn pair_at(cs: &[char], a: char, b: char, from: usize) -> (r: usize)
    requires
        from <= cs.len(),
    ensures
        r == find_pair(cs@, a, b, from as int),
        from <= r <= cs.len(),
        r < cs.len() ==> r + 1 < cs.len() && cs@[r as int] == a && cs@[r + 1] == b,
{
    let mut i: usize = from;
    while i < cs.len() && !(cs[i] == a && i + 1 < cs.len() && cs[i + 1] == b)
        invariant
            from <= i <= cs.len(),
            find_pair(cs@, a, b, from as int) == find_pair(cs@, a, b, i as int),
        decreases cs.len() - i,
    {
        i += 1;
    }
    i
}

pub proof fn lemma_find_pair(s: Seq<char>, a: char, b: char, i: int)
    requires
        0 <= i <= s.len(),
    ensures
        i <= find_pair(s, a, b, i) <= s.len(),
        find_pair(s, a, b, i) < s.len() ==> find_pair(s, a, b, i) + 1 < s.len() && s[find_pair(
            s,
            a,
            b,
            i,
        )] == a && s[find_pair(s, a, b, i) + 1] == b,
        forall|j: int|
            i <= j < find_pair(s, a, b, i) ==> !(#[trigger] s[j] == a && j + 1 < s.len() && s[j + 1]
                == b),
    decreases s.len() - i,
{
    if i < s.len() && !(s[i] == a && i + 1 < s.len() && s[i + 1] == b) {
        lemma_find_pair(s, a, b, i + 1);
    }
}

/// Whether a text has no line break in it.
pub open spec fn unbroken(s: Seq<char>) -> bool {
    !s.contains('\n') && !s.contains('\r')
}

/// Whether a text has no line break in it.
pub fn on_one_line(s: &str) -> (r: bool)
    ensures
        r == unbroken(s@),
{
    let cs = chars_of(s);
    for i in 0..cs.len()
        invariant
            cs@ == s@,
            forall|j: int| 0 <= j < i ==> cs@[j] != '\n' && cs@[j] != '\r',
    {
        if cs[i] == '\n' || cs[i] == '\r' {
            assert(s@.contains(cs@[i as int]));
            return false;
        }
    }
    true
}

// ---------------------------------------------------------------------------
// Letters
// ---------------------------------------------------------------------------
/// `c` in lower case, where it is an ASCII letter.
pub open spec fn ascii_lower(c: char) -> char {
    if 'A' <= c <= 'Z' {
        (c as int + 32) as char
    } else {
        c
    }
}

/// `s` with its ASCII letters in lower case.
pub open spec fn lowered(s: Seq<char>) -> Seq<char> {
    s.map_values(|c: char| ascii_lower(c))
}

/// `c` in lower case, where it is an ASCII letter.
pub fn to_ascii_lower(c: char) -> (r: char)
    ensures
        r == ascii_lower(c),
{
    if 'A' <= c && c <= 'Z' {
        ((c as u8) + 32) as char
    } else {
        c
    }
}

/// Whether two runs of characters differ in nothing but the case of their
/// ASCII letters.
pub fn same_letters(x: &[char], y: &[char]) -> (r: bool)
    ensures
        r == (lowered(x@) == lowered(y@)),
{
    if x.len() != y.len() {
        assert(lowered(x@).len() != lowered(y@).len());
        return false;
    }
    for i in 0..x.len()
        invariant
            x.len() == y.len(),
            forall|j: int| 0 <= j < i ==> lowered(x@)[j] == lowered(y@)[j],
    {
        if to_ascii_lower(x[i]) != to_ascii_lower(y[i]) {
            assert(lowered(x@)[i as int] != lowered(y@)[i as int]);
            return false;
        }
    }
    assert(lowered(x@) == lowered(y@));
    true
}

/// Whether two texts differ in nothing but the case of their ASCII letters.
pub fn same_ignoring_case(a: &str, b: &str) -> (r: bool)
    ensures
        r == (lowered(a@) == lowered(b@)),
{
    let x = chars_of(a);
    let y = chars_of(b);
    same_letters(x.as_slice(), y.as_slice())
}

// ---------------------------------------------------------------------------
// Numbers
// ---------------------------------------------------------------------------
/// Whether `c` is an ASCII digit.
pub open spec fn is_digit(c: char) -> bool {
    '0' <= c <= '9'
}

/// The digit for a number below ten.
pub open spec fn digit(n: int) -> char {
    (n + '0' as int) as char
}

/// `n` in decimal.
pub open spec fn decimal(n: nat) -> Seq<char>
    decreases n,
{
    if n < 10 {
        seq![digit(n as int)]
    } else {
        decimal(n / 10).push(digit((n % 10) as int))
    }
}

/// The number that a run of digits stands for.
pub open spec fn digits_value(s: Seq<char>) -> nat
    decreases s.len(),
{
    if s.len() == 0 {
        0
    } else {
        (digits_value(s.drop_last()) * 10 + (s.last() as int - '0' as int)) as nat
    }
}

/// Whether `s` is a run of one digit or more.
pub open spec fn all_digits(s: Seq<char>) -> bool {
    s.len() > 0 && forall|i: int| 0 <= i < s.len() ==> is_digit(#[trigger] s[i])
}

/// The number that `s` is written as, where it is no more than `max`: digits,
/// with a plus sign before them or none.
pub open spec fn number_in(s: Seq<char>, max: nat) -> Option<nat> {
    let body = if s.len() > 0 && s.first() == '+' {
        s.drop_first()
    } else {
        s
    };
    if all_digits(body) && digits_value(body) <= max {
        Some(digits_value(body))
    } else {
        None
    }
}

pub proof fn lemma_digits_value_grows(s: Seq<char>, i: int)
    requires
        0 <= i <= s.len(),
        forall|j: int| 0 <= j < s.len() ==> is_digit(#[trigger] s[j]),
    ensures
        digits_value(s.take(i)) <= digits_value(s),
    decreases s.len() - i,
{
    if i == s.len() {
        assert(s.take(i) == s);
    } else {
        lemma_digits_value_grows(s, i + 1);
        assert(s.take(i + 1).drop_last() == s.take(i));
        assert(is_digit(s[i]));
        assert(s.take(i + 1).last() == s[i]);
    }
}

/// What is written in decimal is read back.
pub proof fn lemma_decimal_value(n: nat)
    ensures
        all_digits(decimal(n)),
        digits_value(decimal(n)) == n,
    decreases n,
{
    if n < 10 {
        let d = decimal(n);
        reveal_with_fuel(digits_value, 2);
        assert(d.drop_last() == Seq::<char>::empty());
        assert(d.last() as int == n + '0' as int);
    } else {
        lemma_decimal_value(n / 10);
        let d = decimal(n);
        assert(d.drop_last() == decimal(n / 10));
        assert(d.last() as int == (n % 10) + '0' as int);
        assert forall|i: int| 0 <= i < d.len() implies is_digit(#[trigger] d[i]) by {
            if i < d.len() - 1 {
                assert(d[i] == decimal(n / 10)[i]);
            }
        }
    }
}

/// Two numbers written the same are the same.
pub proof fn lemma_decimal_injective(m: nat, n: nat)
    requires
        decimal(m) == decimal(n),
    ensures
        m == n,
{
    lemma_decimal_value(m);
    lemma_decimal_value(n);
}

/// `n` in decimal.
pub fn to_decimal(n: u128) -> (r: String)
    ensures
        r@ == decimal(n as nat),
    decreases n,
{
    if n < 10 {
        let mut r = String::new();
        let d: u8 = 48 + n as u8;
        r.push(d as char);
        assert(r@ == decimal(n as nat));
        r
    } else {
        let mut r = to_decimal(n / 10);
        let d: u8 = 48 + (n % 10) as u8;
        r.push(d as char);
        r
    }
}

/// The number that `s` is written as, where it is no more than `max`.
pub fn parse_number(s: &str, max: u64) -> (r: Option<u64>)
    ensures
        r is Some == number_in(s@, max as nat) is Some,
        r matches Some(n) ==> number_in(s@, max as nat) == Some(n as nat),
{
    let cs = chars_of(s);
    let plus = cs.len() > 0 && cs[0] == '+';
    let from: usize = if plus {
        1
    } else {
        0
    };
    let body: &[char] = &cs[from..cs.len()];
    assert(body@ == if plus {
        s@.drop_first()
    } else {
        s@
    });
    if body.len() == 0 {
        return None;
    }
    let mut n: u64 = 0;
    for i in 0..body.len()
        invariant
            forall|j: int| 0 <= j < i ==> is_digit(#[trigger] body@[j]),
            n == digits_value(body@.take(i as int)),
            n <= max,
            body@ == (if s@.len() > 0 && s@.first() == '+' {
                s@.drop_first()
            } else {
                s@
            }),
    {
        let c: char = body[i];
        if !('0' <= c && c <= '9') {
            assert(!is_digit(body@[i as int]));
            return None;
        }
        let d: u64 = (c as u8 - 48) as u64;
        assert(body@.take(i + 1).drop_last() == body@.take(i as int));
        assert(digits_value(body@.take(i + 1)) == n * 10 + d);
        if n > (u64::MAX - d) / 10 || n * 10 + d > max {
            proof {
                assert(n * 10 + d > max);
                if all_digits(body@) {
                    lemma_digits_value_grows(body@, i + 1);
                }
            }
            return None;
        }
        n = n * 10 + d;
    }
    assert(body@.take(body.len() as int) == body@);
    Some(n)
}

/// The number of 64 bits that `s` is written as: digits, with a sign before
/// them or none.
pub open spec fn integer_in(s: Seq<char>) -> Option<int> {
    if s.len() > 0 && s.first() == '-' {
        let body = s.drop_first();
        if all_digits(body) && digits_value(body) <= 0x8000_0000_0000_0000 {
            Some(-digits_value(body))
        } else {
            None
        }
    } else {
        match number_in(s, i64::MAX as nat) {
            Some(n) => Some(n as int),
            None => None,
        }
    }
}

/// The number of 64 bits that `s` is written as.
pub fn parse_integer(s: &str) -> (r: Option<i64>)
    ensures
        r is Some == integer_in(s@) is Some,
        r matches Some(n) ==> integer_in(s@) == Some(n as int),
{
    let cs = chars_of(s);
    if cs.len() > 0 && cs[0] == '-' {
        let body = string_of(&cs[1..cs.len()]);
        assert(body@ == s@.drop_first());
        if cs.len() > 1 && cs[1] == '+' {
            assert(!is_digit(body@[0]));
            return None;
        }
        match parse_number(body.as_str(), 0x8000_0000_0000_0000) {
            Some(n) => if n == 0x8000_0000_0000_0000 {
                Some(i64::MIN)
            } else {
                Some(-(n as i64))
            },
            None => None,
        }
    } else {
        match parse_number(s, i64::MAX as u64) {
            Some(n) => Some(n as i64),
            None => None,
        }
    }
}

// ---------------------------------------------------------------------------
// Putting one text in place of another
// ---------------------------------------------------------------------------
/// `s` from `i` on, with each occurrence of `p` from there on replaced by `with`,
/// from left to right.
pub open spec fn replaced_from(s: Seq<char>, p: Seq<char>, with: Seq<char>, i: int) -> Seq<char>
    decreases s.len() - i,
{
    if i < 0 || i >= s.len() {
        Seq::empty()
    } else if p.len() > 0 && begins(s.skip(i), p) {
        with + replaced_from(s, p, with, i + p.len())
    } else {
        seq![s[i]] + replaced_from(s, p, with, i + 1)
    }
}

/// `s` with each occurrence of `p` replaced by `with`.
pub open spec fn replaced(s: Seq<char>, p: Seq<char>, with: Seq<char>) -> Seq<char> {
    replaced_from(s, p, with, 0)
}

/// `s` with each occurrence of `p` replaced by `with`. Nothing occurs where `p`
/// is empty.
pub fn replace(s: &str, p: &str, with: &str) -> (r: String)
    ensures
        r@ == replaced(s@, p@, with@),
{
    let cs = chars_of(s);
    let ps = chars_of(p);
    let mut out = String::new();
    let mut i: usize = 0;
    assert(out@ + replaced_from(s@, p@, with@, 0) == replaced(s@, p@, with@));
    while i < cs.len()
        invariant
            cs@ == s@,
            ps@ == p@,
            i <= cs.len(),
            out@ + replaced_from(s@, p@, with@, i as int) == replaced(s@, p@, with@),
        decreases cs.len() - i,
    {
        let ghost done = out@;
        if ps.len() > 0 && stands_at(cs.as_slice(), i, ps.as_slice()) {
            out.push_str(with);
            assert(replaced_from(s@, p@, with@, i as int) == with@ + replaced_from(
                s@,
                p@,
                with@,
                i + p@.len(),
            ));
            i = i + ps.len();
            assert(out@ + replaced_from(s@, p@, with@, i as int) == done + (with@
                + replaced_from(s@, p@, with@, i as int)));
        } else {
            out.push(cs[i]);
            assert(replaced_from(s@, p@, with@, i as int) == seq![s@[i as int]] + replaced_from(
                s@,
                p@,
                with@,
                i + 1,
            ));
            i = i + 1;
            assert(out@ + replaced_from(s@, p@, with@, i as int) == done + (seq![s@[i - 1]]
                + replaced_from(s@, p@, with@, i as int)));
        }
    }
    assert(out@ + Seq::<char>::empty() == out@);
    out
}

// ---------------------------------------------------------------------------
// Counting
// ---------------------------------------------------------------------------
/// How often `c` stands in `s`.
pub open spec fn count_of(s: Seq<char>, c: char) -> nat
    decreases s.len(),
{
    if s.len() == 0 {
        0
    } else if s.last() == c {
        count_of(s.drop_last(), c) + 1
    } else {
        count_of(s.drop_last(), c)
    }
}

/// How often `c` stands in `cs`.
pub fn count_char(cs: &[char], c: char) -> (r: usize)
    ensures
        r == count_of(cs@, c),
        r <= cs.len(),
{
    let mut n: usize = 0;
    for i in 0..cs.len()
        invariant
            n == count_of(cs@.take(i as int), c),
            n <= i,
    {
        assert(cs@.take(i + 1).drop_last() == cs@.take(i as int));
        if cs[i] == c {
            n += 1;
        }
    }
    assert(cs@.take(cs.len() as int) == cs@);
    n
}

/// Whether every character of `s` is an ASCII one.
pub open spec fn is_ascii(s: Seq<char>) -> bool {
    forall|i: int| 0 <= i < s.len() ==> (#[trigger] s[i] as int) < 128
}

} // verus!
