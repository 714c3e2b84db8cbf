//! Base64, as the `base64` crate writes and reads it.
use base64::engine::general_purpose::{STANDARD, URL_SAFE_NO_PAD};
use base64::Engine;
use vstd::prelude::*;
use vstd::utf8::*;

verus! {

/// Which of the two alphabets: the standard one, written with padding, or the
/// one that is safe in URLs, written without.
pub enum Alphabet {
    Standard,
    UrlSafe,
}

/// The character for six bits.
pub open spec fn sextet(n: int, alphabet: Alphabet) -> char {
    if n < 26 {
        (n + 'A' as int) as char
    } else if n < 52 {
        (n - 26 + 'a' as int) as char
    } else if n < 62 {
        (n - 52 + '0' as int) as char
    } else {
        match alphabet {
            Alphabet::Standard => if n == 62 {
                '+'
            } else {
                '/'
            },
            Alphabet::UrlSafe => if n == 62 {
                '-'
            } else {
                '_'
            },
        }
    }
}

/// The padding that fills a group of four characters up.
pub open spec fn padding(n: nat, alphabet: Alphabet) -> Seq<char> {
    match alphabet {
        Alphabet::Standard => Seq::new(n, |i: int| '='),
        Alphabet::UrlSafe => Seq::empty(),
    }
}

/// `b` in base64: every three bytes as four characters of six bits each.
pub open spec fn base64_of(b: Seq<u8>, alphabet: Alphabet) -> Seq<char>
    decreases b.len(),
{
    if b.len() == 0 {
        Seq::empty()
    } else if b.len() == 1 {
        seq![sextet(b[0] as int / 4, alphabet), sextet(b[0] as int % 4 * 16, alphabet)] + padding(
            2,
            alphabet,
        )
    } else if b.len() == 2 {
        seq![
            sextet(b[0] as int / 4, alphabet),
            sextet(b[0] as int % 4 * 16 + b[1] as int / 16, alphabet),
            sextet(b[1] as int % 16 * 4, alphabet),
        ] + padding(1, alphabet)
    } else {
        seq![
            sextet(b[0] as int / 4, alphabet),
            sextet(b[0] as int % 4 * 16 + b[1] as int / 16, alphabet),
            sextet(b[1] as int % 16 * 4 + b[2] as int / 64, alphabet),
            sextet(b[2] as int % 64, alphabet),
        ] + base64_of(b.skip(3), alphabet)
    }
}

/// The bytes whose URL-safe base64 is `s`, if there are any.
pub open spec fn url_decoded(s: Seq<char>) -> Option<Seq<u8>> {
    if exists|b: Seq<u8>| base64_of(b, Alphabet::UrlSafe) == s {
        Some(choose|b: Seq<u8>| base64_of(b, Alphabet::UrlSafe) == s)
    } else {
        None
    }
}

/// `base64`'s `URL_SAFE_NO_PAD` engine, encoding.
#[verifier::external_body]
pub(crate) fn url_encode(bytes: &[u8]) -> (r: String)
    ensures
        r@ == base64_of(bytes@, Alphabet::UrlSafe),
{
    URL_SAFE_NO_PAD.encode(bytes)
}

/// `base64`'s `URL_SAFE_NO_PAD` engine, decoding: it takes just what it writes,
/// with no padding and no stray bits at the end.
#[verifier::external_body]
pub(crate) fn url_decode(s: &str) -> (r: Option<Vec<u8>>)
    ensures
        r matches Some(b) ==> base64_of(b@, Alphabet::UrlSafe) == s@,
        r is None ==> forall|b: Seq<u8>| base64_of(b, Alphabet::UrlSafe) != s@,
{
    URL_SAFE_NO_PAD.decode(s).ok()
}

/// `base64`'s `STANDARD` engine, encoding.
#[verifier::external_body]
pub(crate) fn standard_encode(bytes: &[u8]) -> (r: String)
    ensures
        r@ == base64_of(bytes@, Alphabet::Standard),
{
    STANDARD.encode(bytes)
}

/// `String::from_utf8`: the text that the bytes encode, where they are UTF-8.
#[verifier::external_body]
fn text_of_bytes(bytes: Vec<u8>) -> (r: Option<String>)
    ensures
        r is Some == valid_utf8(bytes@),
        r matches Some(s) ==> encode_utf8(s@) == bytes@,
{
    String::from_utf8(bytes).ok()
}

// ---------------------------------------------------------------------------
// Texts in base64
// ---------------------------------------------------------------------------
/// The text that `s` carries in URL-safe base64; nothing where it carries none.
pub open spec fn carried_text(s: Seq<char>) -> Seq<char> {
    match url_decoded(s) {
        Some(b) => if valid_utf8(b) {
            decode_utf8(b)
        } else {
            Seq::empty()
        },
        None => Seq::empty(),
    }
}

/// `s` in URL-safe base64.
pub open spec fn carrier(s: Seq<char>) -> Seq<char> {
    base64_of(encode_utf8(s), Alphabet::UrlSafe)
}

/// `s` in URL-safe base64.
pub fn carry(s: &str) -> (r: String)
    ensures
        r@ == carrier(s@),
{
    url_encode(s.as_bytes())
}

/// The text that `s` carries in URL-safe base64; nothing where it carries none.
pub fn carried(s: &str) -> (r: String)
    ensures
        r@ == carried_text(s@),
{
    match url_decode(s) {
        Some(bytes) => {
            let ghost b = bytes@;
            proof {
                lemma_url_decoded(b);
            }
            match text_of_bytes(bytes) {
                Some(text) => {
                    proof {
                        encode_utf8_decode_utf8(text@);
                    }
                    text
                },
                None => String::new(),
            }
        },
        None => String::new(),
    }
}

// ---------------------------------------------------------------------------
// Laws
// ---------------------------------------------------------------------------
proof fn lemma_sextet(m: int, n: int, alphabet: Alphabet)
    requires
        0 <= m < 64,
        0 <= n < 64,
        sextet(m, alphabet) == sextet(n, alphabet),
    ensures
        m == n,
{
}

/// Two runs of bytes with the same URL-safe base64 are the same.
pub proof fn url_base64_is_injective(a: Seq<u8>, b: Seq<u8>)
    requires
        base64_of(a, Alphabet::UrlSafe) == base64_of(b, Alphabet::UrlSafe),
    ensures
        a == b,
    decreases a.len(),
{
    let u = Alphabet::UrlSafe;
    let x = base64_of(a, u);
    let y = base64_of(b, u);
    lemma_base64_len(a);
    lemma_base64_len(b);
    if a.len() == 0 || b.len() == 0 {
        assert(a == b);
    } else {
        assert(x[0] == sextet(a[0] as int / 4, u));
        assert(y[0] == sextet(b[0] as int / 4, u));
        lemma_sextet(a[0] as int / 4, b[0] as int / 4, u);
        if a.len() == 1 {
            assert(x[1] == sextet(a[0] as int % 4 * 16, u));
            assert(y[1] == sextet(b[0] as int % 4 * 16, u));
            lemma_sextet(a[0] as int % 4 * 16, b[0] as int % 4 * 16, u);
            assert(a == b);
        } else {
            let p = a[0] as int % 4 * 16 + a[1] as int / 16;
            let q = b[0] as int % 4 * 16 + b[1] as int / 16;
            assert(x[1] == sextet(p, u));
            assert(y[1] == sextet(q, u));
            lemma_sextet(p, q, u);
            if a.len() == 2 {
                assert(x[2] == sextet(a[1] as int % 16 * 4, u));
                assert(y[2] == sextet(b[1] as int % 16 * 4, u));
                lemma_sextet(a[1] as int % 16 * 4, b[1] as int % 16 * 4, u);
                assert(a == b);
            } else {
                let v = a[1] as int % 16 * 4 + a[2] as int / 64;
                let w = b[1] as int % 16 * 4 + b[2] as int / 64;
                assert(x[2] == sextet(v, u));
                assert(y[2] == sextet(w, u));
                lemma_sextet(v, w, u);
                assert(x[3] == sextet(a[2] as int % 64, u));
                assert(y[3] == sextet(b[2] as int % 64, u));
                lemma_sextet(a[2] as int % 64, b[2] as int % 64, u);
                assert(x.skip(4) == base64_of(a.skip(3), u));
                assert(y.skip(4) == base64_of(b.skip(3), u));
                url_base64_is_injective(a.skip(3), b.skip(3));
                assert(a == a.take(3) + a.skip(3));
                assert(b == b.take(3) + b.skip(3));
                assert(a.take(3) == b.take(3));
            }
        }
    }
}

/// How many characters base64 without padding takes tells how many bytes there
/// are.
proof fn lemma_base64_len(b: Seq<u8>)
    ensures
        base64_of(b, Alphabet::UrlSafe).len() == b.len() / 3 * 4 + (if b.len() % 3 == 0 {
            0nat
        } else {
            b.len() % 3 + 1
        }),
    decreases b.len(),
{
    if b.len() >= 3 {
        lemma_base64_len(b.skip(3));
    }
}

/// What is written in URL-safe base64 is read back.
pub proof fn lemma_url_decoded(b: Seq<u8>)
    ensures
        url_decoded(base64_of(b, Alphabet::UrlSafe)) == Some(b),
{
    let s = base64_of(b, Alphabet::UrlSafe);
    let c = choose|c: Seq<u8>| base64_of(c, Alphabet::UrlSafe) == s;
    assert(base64_of(b, Alphabet::UrlSafe) == s);
    url_base64_is_injective(b, c);
}

/// A text carried in URL-safe base64 comes back as it was.
pub proof fn a_carried_text_comes_back(s: Seq<char>)
    ensures
        carried_text(carrier(s)) == s,
{
    lemma_url_decoded(encode_utf8(s));
    encode_utf8_valid_utf8(s);
    encode_utf8_decode_utf8(s);
}

/// URL-safe base64 is made of letters, digits, `-` and `_`.
pub proof fn lemma_url_base64_chars(b: Seq<u8>)
    ensures
        forall|i: int|
            0 <= i < base64_of(b, Alphabet::UrlSafe).len() ==> {
                let c = #[trigger] base64_of(b, Alphabet::UrlSafe)[i];
                'A' <= c <= 'Z' || 'a' <= c <= 'z' || '0' <= c <= '9' || c == '-' || c == '_'
            },
    decreases b.len(),
{
    if b.len() >= 3 {
        lemma_url_base64_chars(b.skip(3));
        let s = base64_of(b, Alphabet::UrlSafe);
        let t = base64_of(b.skip(3), Alphabet::UrlSafe);
        assert forall|i: int| 0 <= i < s.len() implies {
            let c = #[trigger] s[i];
            'A' <= c <= 'Z' || 'a' <= c <= 'z' || '0' <= c <= '9' || c == '-' || c == '_'
        } by {
            if i >= 4 {
                assert(s[i] == t[i - 4]);
            }
        }
    }
}

} // verus!
