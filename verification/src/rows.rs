//! What a row of a Hurl file can carry.
//!
//! A name that is written but not read back is a row that vanishes on the next
//! load, and one that Hurl won't parse costs the whole file. So the writer and
//! the reader go by the same rules, and the rules are here.
use vstd::prelude::*;

use crate::text;

verus! {

/// Whether `char::is_alphanumeric` holds of a character outside ASCII.
pub uninterp spec fn unicode_alphanumeric(c: char) -> bool;

/// ASCII's letters and digits.
pub open spec fn ascii_alphanumeric(c: char) -> bool {
    '0' <= c <= '9' || 'A' <= c <= 'Z' || 'a' <= c <= 'z'
}

/// Unicode's letters and numbers. White space is none of them.
pub open spec fn is_alphanumeric(c: char) -> bool {
    if (c as int) < 128 {
        ascii_alphanumeric(c)
    } else {
        unicode_alphanumeric(c) && !text::is_white(c)
    }
}

/// `char::is_alphanumeric`. Of an ASCII character it holds just where it is a
/// letter or a digit, and it holds of no white space.
pub assume_specification[ char::is_alphanumeric ](c: char) -> (r: bool)
    ensures
        (c as int) < 128 ==> r == ascii_alphanumeric(c),
        (c as int) >= 128 ==> r == unicode_alphanumeric(c),
        text::is_white(c) ==> !r,
;

// ---------------------------------------------------------------------------
// Names
// ---------------------------------------------------------------------------
/// The characters Hurl can carry inside a row's name, outside of a `{{…}}`
/// template. Anything else ends the name early, starts a comment, or breaks the
/// line in two. Braces are carried only as a matched `{{…}}` pair.
pub open spec fn key_char(c: char) -> bool {
    is_alphanumeric(c) || c == '-' || c == '_' || c == '.' || c == '[' || c == ']' || c == '$'
}

/// The narrower set a name may start with: a leading `[` opens a section.
pub open spec fn key_start(c: char) -> bool {
    key_char(c) && c != '['
}

/// Whether `c` can stand inside a row's name.
pub fn key_char_allowed(c: char) -> (r: bool)
    ensures
        r == key_char(c),
{
    c.is_alphanumeric() || c == '-' || c == '_' || c == '.' || c == '[' || c == ']' || c == '$'
}

/// Whether `c` can stand at the start of a row's name.
pub fn key_start_allowed(c: char) -> (r: bool)
    ensures
        r == key_start(c),
{
    key_char_allowed(c) && c != '['
}

/// Why a row's name can't be written to a Hurl file.
#[derive(Debug, Clone, Copy, PartialEq, Eq, Structural)]
pub enum KeyProblem {
    /// No name at all.
    Empty,
    /// A leading `[`, which Hurl reads as the start of a section.
    LeadingBracket,
    /// A character that a name can't carry.
    Char(char),
}

/// The first character of `s` from position `i` on that a name can't carry. A
/// template is passed over whole; one that is not closed is reported by its
/// brace.
pub open spec fn key_fault(s: Seq<char>, i: int) -> Option<KeyProblem>
    decreases s.len() - i,
{
    if i < 0 || i >= s.len() {
        None
    } else if s[i] == '{' && i + 1 < s.len() && s[i + 1] == '{' {
        let close = text::find_pair(s, '}', '}', i + 2);
        if close >= s.len() {
            Some(KeyProblem::Char('{'))
        } else {
            proof {
                text::lemma_find_pair(s, '}', '}', i + 2);
            }
            key_fault(s, close + 2)
        }
    } else if if i == 0 {
        key_start(s[i])
    } else {
        key_char(s[i])
    } {
        key_fault(s, i + 1)
    } else {
        Some(KeyProblem::Char(s[i]))
    }
}

/// The first reason why `s` can't be a row's name.
pub open spec fn key_trouble(s: Seq<char>) -> Option<KeyProblem> {
    let key = text::trimmed(s);
    if key.len() == 0 {
        Some(KeyProblem::Empty)
    } else if key[0] == '[' {
        Some(KeyProblem::LeadingBracket)
    } else {
        key_fault(key, 0)
    }
}

/// The first reason why `key` can't be a row's name, if there is one.
///
/// A name may be, contain, or be built from templates (`X-{{Tenant}}-Id`), and
/// what is in them is the substitution's business. A lone brace is refused:
/// Hurl fails the whole file on one.
pub fn key_problem(key: &str) -> (r: Option<KeyProblem>)
    ensures
        r == key_trouble(key@),
{
    let all = text::chars_of(key);
    let cs: &[char] = text::trim_chars(all.as_slice());
    if cs.len() == 0 {
        return Some(KeyProblem::Empty);
    }
    if cs[0] == '[' {
        return Some(KeyProblem::LeadingBracket);
    }
    let mut i: usize = 0;
    while i < cs.len()
        invariant
            cs@ == text::trimmed(key@),
            cs@.len() > 0 && cs@[0] != '[',
            i <= cs.len(),
            key_fault(cs@, 0) == key_fault(cs@, i as int),
        decreases cs.len() - i,
    {
        if cs[i] == '{' && i + 1 < cs.len() && cs[i + 1] == '{' {
            let close: usize = text::pair_at(cs, '}', '}', i + 2);
            if close == cs.len() {
                return Some(KeyProblem::Char('{'));
            }
            i = close + 2;
        } else {
            let ok = if i == 0 {
                key_start_allowed(cs[i])
            } else {
                key_char_allowed(cs[i])
            };
            if !ok {
                return Some(KeyProblem::Char(cs[i]));
            }
            i += 1;
        }
    }
    None
}

// ---------------------------------------------------------------------------
// Values
// ---------------------------------------------------------------------------
/// The characters that break a row's value: line breaks, the tab, and the
/// backslash that starts an escape sequence.
pub open spec fn breaks_value(c: char) -> bool {
    c == '\n' || c == '\r' || c == '\t' || c == '\\'
}

/// The first character of `s` that a row's value can't carry.
pub open spec fn value_trouble(s: Seq<char>) -> Option<char> {
    let n = text::seek(s, |c: char| breaks_value(c));
    if n < s.len() {
        Some(s[n])
    } else {
        None
    }
}

/// Whether a row's value breaks at `c`.
fn value_breaker(c: char) -> (r: bool)
    ensures
        r == breaks_value(c),
{
    c == '\n' || c == '\r' || c == '\t' || c == '\\'
}

/// The first character a row's value can't carry, if any.
pub fn value_problem(value: &str) -> (r: Option<char>)
    ensures
        r == value_trouble(value@),
{
    let cs = text::chars_of(value);
    let n: usize = text::seek_where(
        cs.as_slice(),
        value_breaker,
        Ghost(|c: char| breaks_value(c)),
    );
    if n < cs.len() {
        Some(cs[n])
    } else {
        None
    }
}

// ---------------------------------------------------------------------------
// Placeholders
// ---------------------------------------------------------------------------
/// What Hurl makes of a `{{…}}` placeholder, where that is not what its author
/// meant.
#[derive(Debug, Clone, PartialEq, Eq)]
pub enum PlaceholderProblem {
    /// Hurl reads a name off the front and silently drops the rest.
    Truncated { written: String, read: String },
    /// Hurl can't read a name at all, so the whole file fails to parse.
    Unparsable { written: String },
}

/// What a [`PlaceholderProblem`] holds.
#[verifier::ext_equal]
pub enum PlaceholderTrouble {
    Truncated { written: Seq<char>, read: Seq<char> },
    Unparsable { written: Seq<char> },
}

impl DeepView for PlaceholderProblem {
    type V = PlaceholderTrouble;

    open spec fn deep_view(&self) -> PlaceholderTrouble {
        match self {
            PlaceholderProblem::Truncated { written, read } => PlaceholderTrouble::Truncated {
                written: written@,
                read: read@,
            },
            PlaceholderProblem::Unparsable { written } => PlaceholderTrouble::Unparsable {
                written: written@,
            },
        }
    }
}

/// The characters Hurl reads as part of a `{{name}}`.
pub open spec fn name_char(c: char) -> bool {
    is_alphanumeric(c) || c == '_' || c == '-'
}

/// Characters that end a template early, so that the file fails to parse.
pub open spec fn stops_template(c: char) -> bool {
    c == '\\' || c == '\u{8}' || c == '\n' || c == '\u{c}' || c == '\r' || c == '\t' || c == '#'
}

/// Whether Hurl reads `c` as part of a `{{name}}`.
pub(crate) fn hurl_name_char(c: char) -> (r: bool)
    ensures
        r == name_char(c),
{
    c.is_alphanumeric() || c == '_' || c == '-'
}

/// Whether `c` ends a template early.
fn hurl_template_stopper(c: char) -> (r: bool)
    ensures
        r == stops_template(c),
{
    c == '\\' || c == '\u{8}' || c == '\n' || c == '\u{c}' || c == '\r' || c == '\t' || c == '#'
}

/// `s` without the spaces around it.
pub open spec fn without_spaces(s: Seq<char>) -> Seq<char> {
    text::without_trailing(text::without_leading(s, |c: char| c == ' '), |c: char| c == ' ')
}

/// A placeholder as it is written.
pub open spec fn placeholder(inner: Seq<char>) -> Seq<char> {
    seq!['{', '{'] + inner + seq!['}', '}']
}

/// How many characters at the beginning of `s` Hurl reads as a name.
pub open spec fn name_len(s: Seq<char>) -> int {
    text::seek(s, |c: char| !name_char(c))
}

/// What Hurl makes of a placeholder with the contents `inner`, where it does
/// not read the whole of it as a name.
pub open spec fn placeholder_trouble(inner: Seq<char>) -> Option<PlaceholderTrouble> {
    let body = without_spaces(inner);
    let n = name_len(body);
    let stopped = text::seek(body, |c: char| stops_template(c)) < body.len();
    if stopped || n == 0 {
        Some(PlaceholderTrouble::Unparsable { written: placeholder(inner) })
    } else if n == body.len() {
        None
    } else {
        Some(PlaceholderTrouble::Truncated { written: placeholder(inner), read: body.take(n) })
    }
}

fn ends_name(c: char) -> (r: bool)
    ensures
        r == !name_char(c),
{
    !hurl_name_char(c)
}

fn is_space(c: char) -> (r: bool)
    ensures
        r == (c == ' '),
{
    c == ' '
}

/// How many characters at the beginning of `cs` Hurl reads as a name.
fn length_of_name(cs: &[char]) -> (r: usize)
    ensures
        r == name_len(cs@),
        r <= cs.len(),
{
    text::seek_where(
        cs,
        ends_name,
        Ghost(|c: char| !name_char(c)),
    )
}

/// How Hurl reads the placeholder whose contents, between the braces, are
/// `inner`, when that is not a whole name.
///
/// Hurl's grammar takes a run of letters, digits, `_` and `-` for the name, and
/// drops what is left of the placeholder without a word: `{{ api.key }}` goes
/// on the wire as the value of `api`. A request that succeeds having sent the
/// wrong thing is worth refusing beforehand.
pub fn placeholder_problem(inner: &str) -> (r: Option<PlaceholderProblem>)
    ensures
        r.deep_view() == placeholder_trouble(inner@),
{
    let mut written = String::new();
    written.push('{');
    written.push('{');
    written.push_str(inner);
    written.push('}');
    written.push('}');
    assert(written@ == placeholder(inner@));
    let all = text::chars_of(inner);
    let from: &[char] = text::drop_leading(
        all.as_slice(),
        is_space,
        Ghost(|c: char| c == ' '),
    );
    let body: &[char] = text::drop_trailing(
        from,
        is_space,
        Ghost(|c: char| c == ' '),
    );
    let stop: usize = text::seek_where(
        body,
        hurl_template_stopper,
        Ghost(|c: char| stops_template(c)),
    );
    if stop < body.len() {
        return Some(PlaceholderProblem::Unparsable { written });
    }
    let n: usize = length_of_name(body);
    if n == 0 {
        return Some(PlaceholderProblem::Unparsable { written });
    }
    if n == body.len() {
        return None;
    }
    let read = text::string_of(&body[0..n]);
    assert(read@ == body@.take(n as int));
    Some(PlaceholderProblem::Truncated { written, read })
}

/// What Hurl makes of the placeholders of `s` from position `i` on, in order,
/// where it does not read them whole. A placeholder opens at `{{` and closes at
/// the first `}}` behind that; one that is not closed is left alone.
pub open spec fn placeholder_troubles(s: Seq<char>, i: int) -> Seq<PlaceholderTrouble>
    decreases s.len() - i,
{
    let open = text::find_pair(s, '{', '{', i);
    let close = text::find_pair(s, '}', '}', open + 2);
    if i < 0 || open >= s.len() || close >= s.len() {
        Seq::empty()
    } else {
        proof {
            text::lemma_find_pair(s, '{', '{', i);
            text::lemma_find_pair(s, '}', '}', open + 2);
        }
        let rest = placeholder_troubles(s, close + 2);
        match placeholder_trouble(s.subrange(open + 2, close)) {
            Some(p) => seq![p] + rest,
            None => rest,
        }
    }
}

/// Every placeholder in `text` that Hurl would not read whole, in the order
/// written.
pub fn placeholder_problems(text: &str) -> (r: Vec<PlaceholderProblem>)
    ensures
        r.deep_view() == placeholder_troubles(text@, 0),
{
    let cs = text::chars_of(text);
    let mut out: Vec<PlaceholderProblem> = Vec::new();
    let mut i: usize = 0;
    assert(out.deep_view() + placeholder_troubles(cs@, 0) == placeholder_troubles(cs@, 0));
    loop
        invariant
            i <= cs.len(),
            cs@ == text@,
            out.deep_view() + placeholder_troubles(cs@, i as int) == placeholder_troubles(cs@, 0),
        decreases cs.len() - i,
    {
        let ghost done = out.deep_view();
        let open: usize = text::pair_at(cs.as_slice(), '{', '{', i);
        if open == cs.len() {
            assert(placeholder_troubles(cs@, i as int) == Seq::<PlaceholderTrouble>::empty());
            return out;
        }
        let close: usize = text::pair_at(cs.as_slice(), '}', '}', open + 2);
        if close == cs.len() {
            assert(placeholder_troubles(cs@, i as int) == Seq::<PlaceholderTrouble>::empty());
            return out;
        }
        let inner = text::string_of(&cs[open + 2..close]);
        if let Some(p) = placeholder_problem(inner.as_str()) {
            out.push(p);
            assert(out.deep_view() == done.push(p.deep_view()));
        }
        i = close + 2;
    }
}

/// Whether `s` can be the name of a variable that Hurl resolves.
pub open spec fn names_variable(s: Seq<char>) -> bool {
    s.len() > 0 && name_len(s) == s.len()
}

/// Whether `name` could be the name of a `{{name}}` variable that Hurl will
/// resolve: not empty, and read to its end.
pub fn is_variable_name(name: &str) -> (r: bool)
    ensures
        r == names_variable(name@),
{
    let cs = text::chars_of(name);
    cs.len() > 0 && length_of_name(cs.as_slice()) == cs.len()
}

// ---------------------------------------------------------------------------
// Laws
// ---------------------------------------------------------------------------
/// A name that can be used for a variable is one that Hurl reads whole when it
/// stands in a placeholder.
pub proof fn variable_names_are_read_whole(s: Seq<char>)
    requires
        names_variable(s),
    ensures
        placeholder_trouble(s) is None,
{
    let p = |c: char| !name_char(c);
    text::lemma_seek(s, p);
    assert(!p(s[0]) && !p(s[s.len() - 1]));
    assert(without_spaces(s) == s);
    let stops = |c: char| stops_template(c);
    assert forall|i: int| 0 <= i < s.len() implies !stops(#[trigger] s[i]) by {
        assert(!p(s[i]));
    }
    text::lemma_seek_is(s, stops, s.len() as int);
}

} // verus!
