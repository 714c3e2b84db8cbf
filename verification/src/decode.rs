//! Response bodies as they were before they were compressed.
use hurl::http::{Header, HeaderVec, HttpVersion, Response};
use vstd::prelude::*;

use crate::text;

verus! {

/// What Hurl makes of a body by the encodings that the headers name; `None` where
/// it knows one of them not, or where the body is none of its making.
pub uninterp spec fn uncompressed(
    headers: Seq<(Seq<char>, Seq<char>)>,
    body: Seq<u8>,
) -> Option<Seq<u8>>;

/// Whether a header says how the body is encoded, or might: its name is outside
/// ASCII, where letters have cases that are not spelled out here.
pub open spec fn names_encoding(header: (Seq<char>, Seq<char>)) -> bool {
    !text::is_ascii(header.0) || text::lowered(header.0) == text::lowered("Content-Encoding"@)
}

/// Whether no header says how the body is encoded.
pub open spec fn is_plain(headers: Seq<(Seq<char>, Seq<char>)>) -> bool {
    forall|i: int| 0 <= i < headers.len() ==> !names_encoding(#[trigger] headers[i])
}

/// A body as it was before it was compressed, or as it was received where it
/// cannot be uncompressed.
pub open spec fn plain(headers: Seq<(Seq<char>, Seq<char>)>, body: Seq<u8>) -> Seq<u8> {
    if is_plain(headers) {
        body
    } else {
        match uncompressed(headers, body) {
            Some(bytes) => bytes,
            None => body,
        }
    }
}

/// `hurl::http::Response::uncompress_body`, of a response with the given headers
/// and body; it looks at nothing else. Without a `Content-Encoding` header the
/// body is left as it is. What the encodings are is left unsaid.
#[verifier::external_body]
fn uncompress_body(headers: &[(String, String)], body: &[u8]) -> (r: Option<Vec<u8>>)
    ensures
        r.deep_view() == uncompressed(headers.deep_view(), body@),
        is_plain(headers.deep_view()) ==> r.deep_view() == Some(body@),
{
    let mut all = HeaderVec::new();
    for h in headers {
        all.push(Header::new(&h.0, &h.1));
    }
    let (version, bytes) = (HttpVersion::Http11, body.to_vec());
    let url = "http://localhost".parse().ok()?;
    let (time, ip) = (Default::default(), Default::default());
    Response::new(version, 200, all, bytes, time, url, None, ip).uncompress_body().ok()
}

/// A body as uncompressed, or as received where that came to nothing.
pub fn or_received(found: Option<Vec<u8>>, body: Vec<u8>) -> (r: Vec<u8>)
    ensures
        r@ == (match found {
            Some(bytes) => bytes@,
            None => body@,
        }),
{
    match found {
        Some(bytes) => bytes,
        None => body,
    }
}

/// A response's body, uncompressed by its headers. What cannot be uncompressed is
/// kept as it was received.
pub fn plain_body(headers: &[(String, String)], body: Vec<u8>) -> (r: Vec<u8>)
    ensures
        r@ == plain(headers.deep_view(), body@),
{
    let found = uncompress_body(headers, body.as_slice());
    assert(found matches Some(bytes) ==> bytes.deep_view() == bytes@);
    or_received(found, body)
}

} // verus!
