//! Hurl's own parser, `hurl_core`, and what it hands back.
//!
//! The tree that `hurl_core` builds is read here, one part at a time, into the
//! plain values of [`shape`](crate::shape).
use hurl_core::ast::{
    Bytes, CountOption, ExprKind, HurlFile, MultipartParam, OptionKind, SectionValue, StatusValue,
    VersionValue,
};
use hurl_core::error::DisplaySourceError;
use hurl_core::parser::ParseErrorKind;
use hurl_core::typing::{Count, ToSource};
use vstd::prelude::*;

use crate::shape::BodyValue::{Line, Text};
use crate::shape::{
    BodyShape, BodyValue, BodyView, CheckShape, CheckTag, EntryShape, EntryShapeView, Fault,
    FaultKind, FaultKindView, FaultView, OptionShape, PartShape, RequestShape, ResponseShape, SectionBody,
    SectionShape, SectionTag, StatusShape,
};
use crate::text;
use crate::walk;

verus! {

/// `hurl_core`'s tree of a whole file. Opaque; see [`file_content`].
#[verifier::external_type_specification]
#[verifier::external_body]
pub struct ExHurlFile(hurl_core::ast::HurlFile);

/// What `hurl_core` makes of a text: its entries, or why it is no Hurl file.
pub uninterp spec fn hurl_parse(s: Seq<char>) -> Result<Seq<EntryShapeView>, FaultView>;

/// The entries that a file's tree holds.
pub uninterp spec fn file_content(f: HurlFile) -> Seq<EntryShapeView>;

/// `hurl_core::parser::parse_hurl_file`: the tree of the text, or the error where
/// it is no Hurl file. What the parser's grammar is, is left unsaid. A text that
/// the parser does not come to an end of must not be handed to it: its
/// `multiline_string_value` takes a character for granted behind a sequence that
/// is no escape, and its `hex_value` counts in 32 bits. The parser calls itself
/// for each level of a JSON body, without a limit: how deep a body may go before
/// the stack ends depends on the machine, and is left unsaid.
#[verifier::external_body]
fn parse_file(s: &str) -> (r: Result<HurlFile, Fault>)
    requires
        walk::break_in(s@) is None,
    ensures
        r is Ok == hurl_parse(s@) is Ok,
        r matches Ok(f) ==> file_content(f) == hurl_parse(s@)->Ok_0,
        r matches Err(fault) ==> fault.deep_view() == hurl_parse(s@)->Err_0,
{
    let e = match hurl_core::parser::parse_hurl_file(s) { Ok(f) => return Ok(f), Err(e) => e };
    let kind = match &e.kind {
        ParseErrorKind::RequestSectionName { name } => FaultKind::Section(name.clone()),
        ParseErrorKind::Method { .. } => FaultKind::Method,
        ParseErrorKind::Version => FaultKind::Version,
        ParseErrorKind::Status => FaultKind::Status,
        ParseErrorKind::UrlInvalidStart => FaultKind::Url,
        ParseErrorKind::UrlIllegalCharacter(_) => FaultKind::Url,
        _ => FaultKind::Other,
    };
    let (description, debug) = (e.description(), format!("{:?}", e.kind));
    Err(Fault { line: e.pos.line, kind, description, debug })
}

/// How many entries `HurlFile::entries` holds.
#[verifier::external_body]
fn entry_count(f: &HurlFile) -> (r: usize)
    ensures
        r == file_content(*f).len(),
{
    f.entries.len()
}

/// The request line of an entry: `Request::method`, and `Request::url` as
/// source and as text.
#[verifier::external_body]
fn request_of(f: &HurlFile, i: usize) -> (r: RequestShape)
    requires
        i < file_content(*f).len(),
    ensures
        r.deep_view() == file_content(*f)[i as int].request,
{
    let req = &f.entries[i].request;
    RequestShape {
        line: req.source_info.start.line,
        method: req.method.to_string(),
        url: req.url.to_source().to_string(),
        plain_url: req.url.to_string(),
        url_line: req.url.source_info.start.line,
    }
}

/// How many sections `Request::sections` holds.
#[verifier::external_body]
fn section_count(f: &HurlFile, i: usize) -> (r: usize)
    requires
        i < file_content(*f).len(),
    ensures
        r == file_content(*f)[i as int].sections.len(),
{
    f.entries[i].request.sections.len()
}

/// The line and the kind of a request's section.
#[verifier::external_body]
fn section_head(f: &HurlFile, i: usize, j: usize) -> (r: (usize, SectionTag))
    requires
        i < file_content(*f).len(),
        j < file_content(*f)[i as int].sections.len(),
    ensures
        r.0 == file_content(*f)[i as int].sections[j as int].line,
        r.1 == file_content(*f)[i as int].sections[j as int].body.tag(),
{
    let section = &f.entries[i].request.sections[j];
    let tag = match &section.value {
        SectionValue::BasicAuth(_) => SectionTag::BasicAuth,
        SectionValue::Cookies(_) => SectionTag::Cookies,
        SectionValue::QueryParams(..) => SectionTag::Query,
        SectionValue::FormParams(..) => SectionTag::Form,
        SectionValue::MultipartFormData(..) => SectionTag::Multipart,
        SectionValue::Options(_) => SectionTag::Options,
        _ => SectionTag::Other,
    };
    (section.source_info.start.line, tag)
}

/// The credentials of a `SectionValue::BasicAuth`, as written.
#[verifier::external_body]
fn auth_of(f: &HurlFile, i: usize, j: usize) -> (r: Option<(String, String)>)
    requires
        i < file_content(*f).len(),
        j < file_content(*f)[i as int].sections.len(),
        file_content(*f)[i as int].sections[j as int].body is BasicAuth,
    ensures
        r.deep_view() == file_content(*f)[i as int].sections[j as int].body->BasicAuth_0,
{
    match &f.entries[i].request.sections[j].value {
        SectionValue::BasicAuth(Some(kv)) => Some(
            (kv.key.to_source().to_string(), kv.value.to_source().to_string()),
        ),
        _ => None,
    }
}

/// How many rows a `SectionValue::FormParams` holds.
#[verifier::external_body]
fn form_row_count(f: &HurlFile, i: usize, j: usize) -> (r: usize)
    requires
        i < file_content(*f).len(),
        j < file_content(*f)[i as int].sections.len(),
        file_content(*f)[i as int].sections[j as int].body is Form,
    ensures
        r == file_content(*f)[i as int].sections[j as int].body->Form_0.len(),
{
    match &f.entries[i].request.sections[j].value {
        SectionValue::FormParams(rows, _) => rows.len(),
        _ => 0,
    }
}

/// A row of a `SectionValue::FormParams`: the line of its name, its name and
/// its value, as written.
#[verifier::external_body]
fn form_row(f: &HurlFile, i: usize, j: usize, k: usize) -> (r: (usize, String, String))
    requires
        i < file_content(*f).len(),
        j < file_content(*f)[i as int].sections.len(),
        file_content(*f)[i as int].sections[j as int].body is Form,
        k < file_content(*f)[i as int].sections[j as int].body->Form_0.len(),
    ensures
        r.deep_view() == file_content(*f)[i as int].sections[j as int].body->Form_0[k as int],
{
    match &f.entries[i].request.sections[j].value {
        SectionValue::FormParams(rows, _) => (
            rows[k].key.source_info.start.line,
            rows[k].key.to_source().to_string(),
            rows[k].value.to_source().to_string(),
        ),
        _ => (0, String::new(), String::new()),
    }
}

/// How many rows a `SectionValue::MultipartFormData` holds.
#[verifier::external_body]
fn part_count(f: &HurlFile, i: usize, j: usize) -> (r: usize)
    requires
        i < file_content(*f).len(),
        j < file_content(*f)[i as int].sections.len(),
        file_content(*f)[i as int].sections[j as int].body is Multipart,
    ensures
        r == file_content(*f)[i as int].sections[j as int].body->Multipart_0.len(),
{
    match &f.entries[i].request.sections[j].value {
        SectionValue::MultipartFormData(parts, _) => parts.len(),
        _ => 0,
    }
}

/// A row of a `SectionValue::MultipartFormData`, by its kind: names, values and
/// content types as written, a file's path with its escapes resolved.
#[verifier::external_body]
fn part_of(f: &HurlFile, i: usize, j: usize, k: usize) -> (r: Option<PartShape>)
    requires
        i < file_content(*f).len(),
        j < file_content(*f)[i as int].sections.len(),
        file_content(*f)[i as int].sections[j as int].body is Multipart,
        k < file_content(*f)[i as int].sections[j as int].body->Multipart_0.len(),
    ensures
        r.deep_view() == Some(
            file_content(*f)[i as int].sections[j as int].body->Multipart_0[k as int],
        ),
{
    let section = &f.entries[i].request.sections[j].value;
    let SectionValue::MultipartFormData(parts, _) = section else { return None };
    Some(match &parts[k] {
        MultipartParam::Param(kv) => PartShape::Text {
            line: kv.key.source_info.start.line,
            key: kv.key.to_source().to_string(),
            value: kv.value.to_source().to_string(),
        },
        MultipartParam::FileParam(fp) => PartShape::File {
            line: fp.key.source_info.start.line,
            key: fp.key.to_source().to_string(),
            path: fp.value.filename.to_string(),
            content_type: fp.value.content_type.as_ref().map(|t| t.to_source().to_string()),
        },
    })
}

/// The lines of a body: `Body::space0`, where it begins, and the line feed of
/// `Body::line_terminator0`. `expected` asks for the response's body.
#[verifier::external_body]
fn body_lines(f: &HurlFile, i: usize, expected: bool) -> (r: Option<(usize, usize)>)
    requires
        i < file_content(*f).len(),
    ensures
        r is Some == body_in(file_content(*f)[i as int], expected) is Some,
        r matches Some(lines) ==> lines.0 == body_in(
            file_content(*f)[i as int],
            expected,
        ).unwrap().start,
        r matches Some(lines) ==> lines.1 == body_in(
            file_content(*f)[i as int],
            expected,
        ).unwrap().last,
{
    let body = if expected {
        f.entries[i].response.as_ref()?.body.as_ref()?
    } else {
        f.entries[i].request.body.as_ref()?
    };
    let last = body.line_terminator0.newline.source_info.start.line;
    Some((body.space0.source_info.start.line, last))
}

/// The value of a body, by the kind of `Bytes` it is: its source text, or for a
/// file or base64 the line it stands on. `expected` asks for the response's
/// body.
#[verifier::external_body]
fn body_value(f: &HurlFile, i: usize, expected: bool) -> (r: Option<BodyValue>)
    requires
        i < file_content(*f).len(),
    ensures
        r is Some == body_in(file_content(*f)[i as int], expected) is Some,
        r matches Some(value) ==> value.deep_view() == body_in(
            file_content(*f)[i as int],
            expected,
        ).unwrap().value,
{
    let body = if expected {
        f.entries[i].response.as_ref()?.body.as_ref()?
    } else {
        f.entries[i].request.body.as_ref()?
    };
    Some(match &body.value {
        Bytes::Json(v) => Text(v.to_source().to_string()),
        Bytes::Xml(x) => Text(x.clone()),
        Bytes::OnelineString(t) => Text(t.to_source().to_string()),
        Bytes::MultilineString(m) => Text(m.to_source().to_string()),
        Bytes::Hex(h) => Text(h.to_string()),
        Bytes::Base64(x) => Line(x.space0.source_info.start.line),
        Bytes::File(x) => Line(x.space0.source_info.start.line),
    })
}

/// The response line of an entry: the line of `Response::status` and its value,
/// `Response::version`, and how many headers `Response::headers` holds.
#[verifier::external_body]
fn status_of(f: &HurlFile, i: usize) -> (r: Option<StatusShape>)
    requires
        i < file_content(*f).len(),
    ensures
        r is Some == file_content(*f)[i as int].response is Some,
        r matches Some(head) ==> head.deep_view() == file_content(
            *f,
        )[i as int].response.unwrap().head,
{
    let resp = f.entries[i].response.as_ref()?;
    let status = match resp.status.value {
        StatusValue::Any => None,
        StatusValue::Specific(n) => Some(n),
    };
    let version = match resp.version.value {
        VersionValue::VersionAny => None,
        v => Some(v.to_string()),
    };
    let line = resp.status.source_info.start.line;
    Some(StatusShape { line, status, version, header_count: resp.headers.len() })
}

/// How many sections `Response::sections` holds.
#[verifier::external_body]
fn check_count(f: &HurlFile, i: usize) -> (r: usize)
    requires
        i < file_content(*f).len(),
        file_content(*f)[i as int].response is Some,
    ensures
        r == file_content(*f)[i as int].response.unwrap().sections.len(),
{
    match &f.entries[i].response {
        Some(resp) => resp.sections.len(),
        None => 0,
    }
}

/// A response's section: its line, its kind, and how many captures or asserts
/// it holds.
#[verifier::external_body]
fn check_head(f: &HurlFile, i: usize, j: usize) -> (r: (usize, CheckTag, usize))
    requires
        i < file_content(*f).len(),
        file_content(*f)[i as int].response is Some,
        j < file_content(*f)[i as int].response.unwrap().sections.len(),
    ensures
        r.0 == file_content(*f)[i as int].response.unwrap().sections[j as int].line,
        r.1 == file_content(*f)[i as int].response.unwrap().sections[j as int].tag,
        r.2 == file_content(*f)[i as int].response.unwrap().sections[j as int].queries.len(),
{
    let section = &f.entries[i].response.as_ref().unwrap().sections[j];
    let (tag, n) = match &section.value {
        SectionValue::Captures(all) => (CheckTag::Captures, all.len()),
        SectionValue::Asserts(all) => (CheckTag::Asserts, all.len()),
        _ => (CheckTag::Other, 0),
    };
    (section.source_info.start.line, tag, n)
}

/// The line of the query of a capture or an assert.
#[verifier::external_body]
fn query_line(f: &HurlFile, i: usize, j: usize, k: usize) -> (r: usize)
    requires
        i < file_content(*f).len(),
        file_content(*f)[i as int].response is Some,
        j < file_content(*f)[i as int].response.unwrap().sections.len(),
        k < file_content(*f)[i as int].response.unwrap().sections[j as int].queries.len(),
    ensures
        r == file_content(*f)[i as int].response.unwrap().sections[j as int].queries[k as int],
{
    match &f.entries[i].response.as_ref().unwrap().sections[j].value {
        SectionValue::Captures(all) => all[k].query.source_info.start.line,
        SectionValue::Asserts(all) => all[k].query.source_info.start.line,
        _ => 0,
    }
}

/// How many options `Request::options` returns.
#[verifier::external_body]
fn option_count(f: &HurlFile, i: usize) -> (r: usize)
    requires
        i < file_content(*f).len(),
    ensures
        r == file_content(*f)[i as int].options.len(),
{
    f.entries[i].request.options().len()
}

/// An option of a request, by its `OptionKind`: a retry's count, or a
/// variable's name and value.
#[verifier::external_body]
fn option_of(f: &HurlFile, i: usize, k: usize) -> (r: OptionShape)
    requires
        i < file_content(*f).len(),
        k < file_content(*f)[i as int].options.len(),
    ensures
        r.deep_view() == file_content(*f)[i as int].options[k as int],
{
    match &f.entries[i].request.options()[k].kind {
        OptionKind::Retry(CountOption::Literal(Count::Finite(n))) => OptionShape::RetryTimes(*n),
        OptionKind::Retry(CountOption::Literal(Count::Infinite)) => OptionShape::RetryForever,
        OptionKind::Retry(CountOption::Placeholder(p)) => match &p.expr.kind {
            ExprKind::Variable(v) => OptionShape::RetryNamed(v.name.clone()),
            ExprKind::Function(_) => OptionShape::RetryComputed,
        },
        OptionKind::Variable(def) => OptionShape::Variable(
            def.name.clone(),
            def.value.to_string(),
        ),
        _ => OptionShape::Other,
    }
}

/// The body of an entry's request, or the one expected of its response.
pub open spec fn body_in(e: EntryShapeView, expected: bool) -> Option<BodyView> {
    if !expected {
        e.body
    } else {
        match e.response {
            Some(resp) => resp.body,
            None => None,
        }
    }
}

// ---------------------------------------------------------------------------
// A file in plain values
// ---------------------------------------------------------------------------
/// A body of an entry.
fn read_body(f: &HurlFile, i: usize, expected: bool) -> (r: Option<BodyShape>)
    requires
        i < file_content(*f).len(),
    ensures
        r.deep_view() == body_in(file_content(*f)[i as int], expected),
{
    match (body_lines(f, i, expected), body_value(f, i, expected)) {
        (Some(lines), Some(value)) => Some(BodyShape { start: lines.0, last: lines.1, value }),
        _ => None,
    }
}

/// A section of a request.
fn read_section(f: &HurlFile, i: usize, j: usize) -> (r: SectionShape)
    requires
        i < file_content(*f).len(),
        j < file_content(*f)[i as int].sections.len(),
    ensures
        r.deep_view() == file_content(*f)[i as int].sections[j as int],
{
    let ghost want = file_content(*f)[i as int].sections[j as int];
    let (line, tag) = section_head(f, i, j);
    let body = match tag {
        SectionTag::BasicAuth => SectionBody::BasicAuth(auth_of(f, i, j)),
        SectionTag::Cookies => SectionBody::Cookies,
        SectionTag::Query => SectionBody::Query,
        SectionTag::Form => {
            let ghost all = want.body->Form_0;
            let n: usize = form_row_count(f, i, j);
            let mut rows: Vec<(usize, String, String)> = Vec::new();
            for k in 0..n
                invariant
                    i < file_content(*f).len(),
                    j < file_content(*f)[i as int].sections.len(),
                    want == file_content(*f)[i as int].sections[j as int],
                    want.body is Form,
                    all == want.body->Form_0,
                    n == all.len(),
                    rows.len() == k,
                    forall|m: int| 0 <= m < k ==> (#[trigger] rows@[m]).deep_view() == all[m],
            {
                rows.push(form_row(f, i, j, k));
            }
            assert(rows.deep_view() == all);
            SectionBody::Form(rows)
        },
        SectionTag::Multipart => {
            let ghost all = want.body->Multipart_0;
            let n: usize = part_count(f, i, j);
            let mut parts: Vec<PartShape> = Vec::new();
            for k in 0..n
                invariant
                    i < file_content(*f).len(),
                    j < file_content(*f)[i as int].sections.len(),
                    want == file_content(*f)[i as int].sections[j as int],
                    want.body is Multipart,
                    all == want.body->Multipart_0,
                    n == all.len(),
                    parts.len() == k,
                    forall|m: int| 0 <= m < k ==> (#[trigger] parts@[m]).deep_view() == all[m],
            {
                if let Some(part) = part_of(f, i, j, k) {
                    parts.push(part);
                }
            }
            assert(parts.deep_view() == all);
            SectionBody::Multipart(parts)
        },
        SectionTag::Options => SectionBody::Options,
        SectionTag::Other => SectionBody::Other,
    };
    SectionShape { line, body }
}

/// What is expected of an entry's response.
fn read_response(f: &HurlFile, i: usize) -> (r: Option<ResponseShape>)
    requires
        i < file_content(*f).len(),
    ensures
        r.deep_view() == file_content(*f)[i as int].response,
{
    match status_of(f, i) {
        Some(head) => {
            let ghost want = file_content(*f)[i as int].response.unwrap();
            let n: usize = check_count(f, i);
            let mut sections: Vec<CheckShape> = Vec::new();
            for j in 0..n
                invariant
                    i < file_content(*f).len(),
                    file_content(*f)[i as int].response == Some(want),
                    n == want.sections.len(),
                    sections.len() == j,
                    forall|m: int|
                        0 <= m < j ==> (#[trigger] sections@[m]).deep_view() == want.sections[m],
            {
                let (line, tag, count) = check_head(f, i, j);
                let ghost all = want.sections[j as int].queries;
                let mut queries: Vec<usize> = Vec::new();
                for k in 0..count
                    invariant
                        i < file_content(*f).len(),
                        file_content(*f)[i as int].response == Some(want),
                        j < want.sections.len(),
                        all == want.sections[j as int].queries,
                        count == all.len(),
                        queries.len() == k,
                        forall|m: int| 0 <= m < k ==> #[trigger] queries@[m] == all[m],
                {
                    queries.push(query_line(f, i, j, k));
                }
                assert(queries@ == all);
                sections.push(CheckShape { line, tag, queries });
            }
            assert(sections.deep_view() == want.sections);
            Some(ResponseShape { head, sections, body: read_body(f, i, true) })
        },
        None => None,
    }
}

/// An entry of a file.
fn read_entry(f: &HurlFile, i: usize) -> (r: EntryShape)
    requires
        i < file_content(*f).len(),
    ensures
        r.deep_view() == file_content(*f)[i as int],
{
    let ghost want = file_content(*f)[i as int];
    let n: usize = section_count(f, i);
    let mut sections: Vec<SectionShape> = Vec::new();
    for j in 0..n
        invariant
            i < file_content(*f).len(),
            want == file_content(*f)[i as int],
            n == want.sections.len(),
            sections.len() == j,
            forall|m: int|
                0 <= m < j ==> (#[trigger] sections@[m]).deep_view() == want.sections[m],
    {
        sections.push(read_section(f, i, j));
    }
    assert(sections.deep_view() == want.sections);
    let count: usize = option_count(f, i);
    let mut options: Vec<OptionShape> = Vec::new();
    for k in 0..count
        invariant
            i < file_content(*f).len(),
            want == file_content(*f)[i as int],
            count == want.options.len(),
            options.len() == k,
            forall|m: int| 0 <= m < k ==> (#[trigger] options@[m]).deep_view() == want.options[m],
    {
        options.push(option_of(f, i, k));
    }
    assert(options.deep_view() == want.options);
    EntryShape {
        request: request_of(f, i),
        sections,
        body: read_body(f, i, false),
        options,
        response: read_response(f, i),
    }
}

/// Why a text is no Hurl file that the parser does not come to an end of.
pub open spec fn break_fault(s: Seq<char>, i: int) -> FaultView {
    FaultView {
        line: (1 + text::count_of(s.take(i), '\n')) as usize,
        kind: FaultKindView::Other,
        description: "unfinished escape sequence"@,
        debug: "UnfinishedEscape"@,
    }
}

/// What comes of reading a text as a Hurl file: what the parser makes of it, but
/// for a text that it does not come to an end of, which is no Hurl file.
pub open spec fn parsed(s: Seq<char>) -> Result<Seq<EntryShapeView>, FaultView> {
    match walk::break_in(s) {
        Some(i) => Err(break_fault(s, i)),
        None => hurl_parse(s),
    }
}

/// What comes of reading a text as a Hurl file: its entries, or why it is none.
pub fn parse(s: &str) -> (r: Result<Vec<EntryShape>, Fault>)
    ensures
        match r {
            Ok(entries) => parsed(s@) is Ok && entries.deep_view() == parsed(s@)->Ok_0,
            Err(fault) => parsed(s@) is Err && fault.deep_view() == parsed(s@)->Err_0,
        },
{
    let cs = text::chars_of(s);
    if let Some(i) = walk::find_break(cs.as_slice()) {
        let n: usize = text::count_char(&cs[0..i], '\n');
        assert(cs@.subrange(0, i as int) == s@.take(i as int));
        return Err(
            Fault {
                line: n + 1,
                kind: FaultKind::Other,
                description: "unfinished escape sequence".to_owned(),
                debug: "UnfinishedEscape".to_owned(),
            },
        );
    }
    match parse_file(s) {
        Ok(f) => {
            let ghost want = file_content(f);
            let n: usize = entry_count(&f);
            let mut entries: Vec<EntryShape> = Vec::new();
            for i in 0..n
                invariant
                    want == file_content(f),
                    n == want.len(),
                    entries.len() == i,
                    forall|m: int| 0 <= m < i ==> (#[trigger] entries@[m]).deep_view() == want[m],
            {
                entries.push(read_entry(&f, i));
            }
            assert(entries.deep_view() == want);
            Ok(entries)
        },
        Err(fault) => Err(fault),
    }
}

} // verus!
