//! What `serde_json` decides about a text.
use vstd::prelude::*;

use crate::text;

verus! {

/// Whether `serde_json` reads the text as one JSON value.
pub uninterp spec fn is_json(s: Seq<char>) -> bool;

/// Whether `serde_json` reads both texts, and reads equal values from them.
pub uninterp spec fn same_json(a: Seq<char>, b: Seq<char>) -> bool;

/// A hexadecimal digit, in lower case.
pub open spec fn hex_digit(n: int) -> char {
    if n < 10 {
        (n + '0' as int) as char
    } else {
        (n - 10 + 'a' as int) as char
    }
}

/// How a character stands inside a JSON string.
pub open spec fn json_escaped(c: char) -> Seq<char> {
    if c == '"' || c == '\\' {
        seq!['\\', c]
    } else if c == '\u{8}' {
        seq!['\\', 'b']
    } else if c == '\u{c}' {
        seq!['\\', 'f']
    } else if c == '\n' {
        seq!['\\', 'n']
    } else if c == '\r' {
        seq!['\\', 'r']
    } else if c == '\t' {
        seq!['\\', 't']
    } else if (c as int) < 0x20 {
        seq!['\\', 'u', '0', '0', hex_digit(c as int / 16), hex_digit(c as int % 16)]
    } else {
        seq![c]
    }
}

/// The JSON string literal for `s`.
pub open spec fn json_quoted(s: Seq<char>) -> Seq<char> {
    seq!['"'] + text::concat(s.map_values(|c: char| json_escaped(c))) + seq!['"']
}

/// `serde_json::from_str`, asked only whether it reads a value from the text.
#[verifier::external_body]
pub(crate) fn reads_as_json(s: &str) -> (r: bool)
    ensures
        r == is_json(s@),
{
    serde_json::from_str::<serde_json::Value>(s).is_ok()
}

/// `serde_json::Value`'s equality, on what `serde_json::from_str` reads from
/// the two texts: `None` unless it reads both. The same text never reads as
/// two different values.
#[verifier::external_body]
pub(crate) fn values_agree(a: &str, b: &str) -> (r: Option<bool>)
    ensures
        r is Some == (is_json(a@) && is_json(b@)),
        r == Some(true) <==> same_json(a@, b@),
        a@ == b@ ==> r != Some(false),
{
    let x = serde_json::from_str::<serde_json::Value>(a).ok()?;
    let y = serde_json::from_str::<serde_json::Value>(b).ok()?;
    Some(x == y)
}

/// `serde_json::Value::String` written out: the text in quotes, with the quote,
/// the backslash and the control characters below the space escaped.
#[verifier::external_body]
pub(crate) fn quote(s: &str) -> (r: String)
    ensures
        r@ == json_quoted(s@),
{
    serde_json::Value::String(s.to_string()).to_string()
}

/// How `serde_json` lays out the value that it reads from a text.
pub uninterp spec fn json_laid_out(s: Seq<char>) -> Option<Seq<char>>;

/// `serde_json::to_string_pretty`, on the value that `serde_json::from_str` reads
/// from the text; `None` unless it reads one. How the value is laid out is left
/// unsaid.
#[verifier::external_body]
pub(crate) fn lay_out_json(s: &str) -> (r: Option<String>)
    ensures
        r is Some == is_json(s@),
        r.deep_view() == json_laid_out(s@),
{
    let v = serde_json::from_str::<serde_json::Value>(s).ok()?;
    serde_json::to_string_pretty(&v).ok()
}

/// Two texts with the same JSON string literal are the same text.
pub proof fn quoting_is_injective(a: Seq<char>, b: Seq<char>)
    requires
        json_quoted(a) == json_quoted(b),
    ensures
        a == b,
{
    let f = |c: char| json_escaped(c);
    let x = text::concat(a.map_values(f));
    let y = text::concat(b.map_values(f));
    assert(json_quoted(a).len() == x.len() + 2);
    assert(json_quoted(b).len() == y.len() + 2);
    assert(x == json_quoted(a).subrange(1, x.len() as int + 1));
    assert(y == json_quoted(b).subrange(1, y.len() as int + 1));
    lemma_escaping_is_injective(a, b);
}

/// The first escape of an escaped text tells its first character.
proof fn lemma_escaping_is_injective(a: Seq<char>, b: Seq<char>)
    requires
        text::concat(a.map_values(|c: char| json_escaped(c))) == text::concat(
            b.map_values(|c: char| json_escaped(c)),
        ),
    ensures
        a == b,
    decreases a.len(),
{
    let f = |c: char| json_escaped(c);
    let x = text::concat(a.map_values(f));
    if a.len() > 0 {
        lemma_escape_first(a);
    }
    if b.len() > 0 {
        lemma_escape_first(b);
    }
    if a.len() == 0 || b.len() == 0 {
        assert(a == b);
    } else {
        let p = json_escaped(a[0]);
        let q = json_escaped(b[0]);
        let u = text::concat(a.drop_first().map_values(f));
        let v = text::concat(b.drop_first().map_values(f));
        assert(x == p + u);
        assert(x == q + v);
        lemma_escape_tells(a[0], b[0], u, v);
        assert(u == x.skip(p.len() as int));
        assert(v == x.skip(p.len() as int));
        lemma_escaping_is_injective(a.drop_first(), b.drop_first());
        assert(a == seq![a[0]] + a.drop_first());
        assert(b == seq![b[0]] + b.drop_first());
    }
}

proof fn lemma_escape_tells(c: char, d: char, u: Seq<char>, v: Seq<char>)
    requires
        json_escaped(c) + u == json_escaped(d) + v,
    ensures
        c == d,
{
    let x = json_escaped(c) + u;
    let p = json_escaped(c);
    let q = json_escaped(d);
    assert(forall|i: int| 0 <= i < p.len() ==> p[i] == x[i]);
    assert(forall|i: int| 0 <= i < q.len() ==> q[i] == x[i]);
    assert(p[0] == q[0]);
    if p.len() > 1 && q.len() > 1 {
        assert(p[1] == q[1]);
    }
    if p.len() == 6 && q.len() == 6 {
        assert((c as int) < 32 && (d as int) < 32);
        assert(p[4] == q[4] && p[5] == q[5]);
        lemma_hex_digit(c as int / 16, d as int / 16);
        lemma_hex_digit(c as int % 16, d as int % 16);
        assert(c as int == d as int);
    }
}

proof fn lemma_hex_digit(m: int, n: int)
    requires
        0 <= m < 16,
        0 <= n < 16,
        hex_digit(m) == hex_digit(n),
    ensures
        m == n,
{
}

proof fn lemma_escape_first(a: Seq<char>)
    requires
        a.len() > 0,
    ensures
        text::concat(a.map_values(|c: char| json_escaped(c))) == json_escaped(a[0]) + text::concat(
            a.drop_first().map_values(|c: char| json_escaped(c)),
        ),
{
    let f = |c: char| json_escaped(c);
    let head = seq![json_escaped(a[0])];
    assert(a.map_values(f) == head + a.drop_first().map_values(f));
    text::lemma_concat_add(head, a.drop_first().map_values(f));
    reveal_with_fuel(text::concat, 2);
    assert(head.drop_last() == Seq::<Seq<char>>::empty());
}

} // verus!
