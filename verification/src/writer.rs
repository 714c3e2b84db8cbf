//! Requests written out as Hurl text.
//!
//! The blocks of a request stand in the order in which they are read back: the
//! title, the request line, the headers, the request's sections, its body, then
//! the response line and what is expected of the response. A disabled row, a
//! row's note, a body's comments and the report fields are kept as `#`
//! comments, which Hurl passes over.
use std::borrow::Cow;
use vstd::prelude::*;

use crate::base64_text;
use crate::entry::{
    CommentAnchor, CommentView, EntryComment, EntryView, FieldView, FormField, FormFieldKind,
    HurlEntry, KvRow, RowView,
};
use crate::json_comments;
use crate::rows;
use crate::text;

verus! {

/// Marks the content type of a file field that is sent as base64 text. The
/// field's prefix follows it, in URL-safe base64.
pub const BASE64_FILE_CT_MARKER: &'static str = "x-paperboy-base64;";

/// Marks the comment line that carries a row's note.
pub const DESC_MARKER: &'static str = "# @desc ";

// ---------------------------------------------------------------------------
// Lines
// ---------------------------------------------------------------------------
/// `s` as a line of its own.
pub open spec fn as_line(s: Seq<char>) -> Seq<char> {
    s.push('\n')
}

/// `s` with its line breaks turned into spaces.
pub open spec fn flattened(s: Seq<char>) -> Seq<char> {
    s.map_values(
        |c: char|
            if c == '\n' || c == '\r' {
                ' '
            } else {
                c
            },
    )
}

/// A row's line. A disabled one is commented out, and has to stay on one line:
/// a line break in it would end the comment.
pub open spec fn row_line(line: Seq<char>, enabled: bool) -> Seq<char> {
    if enabled {
        as_line(line)
    } else {
        as_line("# "@ + flattened(line))
    }
}

/// A row's note: one marked line for each of its lines.
pub open spec fn desc_lines(desc: Seq<char>) -> Seq<char> {
    text::concat(
        text::lines_of(desc).map_values(|line: Seq<char>| as_line(DESC_MARKER@ + line)),
    )
}

/// A row's name and value.
pub open spec fn kv(key: Seq<char>, value: Seq<char>) -> Seq<char> {
    key + ": "@ + value
}

/// Whether Hurl can carry a name. One with a line break in a template would be
/// cut in two.
pub open spec fn name_is_writable(key: Seq<char>) -> bool {
    rows::key_trouble(key) is None && text::unbroken(key)
}

/// Whether Hurl can carry a row.
pub open spec fn row_is_writable(row: RowView) -> bool {
    name_is_writable(row.key) && rows::value_trouble(row.value) is None
}

/// A row as it is written: its note, then its line. A row that Hurl can't carry
/// is commented out even when enabled, where the user can see and mend it; it
/// would otherwise cost every request in the file.
pub open spec fn kv_text(row: RowView) -> Seq<char> {
    desc_lines(row.desc) + row_line(
        kv(row.key, row.value),
        row.enabled && row_is_writable(row),
    )
}

/// The rows one below the other.
pub open spec fn rows_text(all: Seq<RowView>) -> Seq<char> {
    text::concat(all.map_values(|row: RowView| kv_text(row)))
}

/// A section with its rows; nothing where there are none.
pub open spec fn section_text(header: Seq<char>, all: Seq<RowView>) -> Seq<char> {
    if all.len() == 0 {
        Seq::empty()
    } else {
        header + rows_text(all)
    }
}

/// `s` on a single line, without white space around it.
pub open spec fn on_one_line(s: Seq<char>) -> Seq<char> {
    text::trimmed(flattened(s))
}

// ---------------------------------------------------------------------------
// Form fields
// ---------------------------------------------------------------------------
/// A character of a file's path as Hurl wants it written.
pub open spec fn path_char(c: char) -> Seq<char> {
    if c == ' ' || c == '#' || c == ';' || c == '\\' {
        seq!['\\', c]
    } else if c == '\n' {
        seq!['\\', 'n']
    } else if c == '\r' {
        seq!['\\', 'r']
    } else {
        seq![c]
    }
}

/// A file's path as Hurl wants it written. Braces are left alone, so `{{var}}`
/// is still substituted.
pub open spec fn escaped_path(path: Seq<char>) -> Seq<char> {
    text::concat(path.map_values(|c: char| path_char(c)))
}

/// The content type of a file field, where it has one to write.
pub open spec fn written_type(f: FieldView) -> Seq<char> {
    match f.content_type {
        Some(ct) => text::trimmed(ct),
        None => Seq::empty(),
    }
}

/// The text in an optional text; nothing where there is none.
pub open spec fn text_or_empty(t: Option<Seq<char>>) -> Seq<char> {
    match t {
        Some(s) => s,
        None => Seq::empty(),
    }
}

/// A form field's line, without its line feed.
pub open spec fn field_line(f: FieldView) -> Seq<char> {
    match f.kind {
        FormFieldKind::Text => kv(f.key, f.value),
        FormFieldKind::File => {
            let file = f.key + ": file,"@ + escaped_path(f.value) + ";"@;
            if written_type(f).len() > 0 {
                file + " "@ + written_type(f)
            } else {
                file
            }
        },
        FormFieldKind::Base64File => f.key + ": file,"@ + escaped_path(f.value) + "; "@
            + BASE64_FILE_CT_MARKER@ + base64_text::carrier(text_or_empty(f.base64_prefix)),
    }
}

/// Whether Hurl can carry a form field. A file's path is escaped, so only a
/// text field's value can be in the way.
pub open spec fn field_is_writable(f: FieldView) -> bool {
    name_is_writable(f.key) && (f.kind != FormFieldKind::Text || rows::value_trouble(f.value)
        is None)
}

/// A form field as it is written.
pub open spec fn field_text(f: FieldView) -> Seq<char> {
    desc_lines(f.desc) + row_line(field_line(f), f.enabled && field_is_writable(f))
}

/// Whether an enabled field names a file.
pub open spec fn any_file(fields: Seq<FieldView>) -> bool {
    exists|i: int|
        0 <= i < fields.len() && (#[trigger] fields[i]).enabled && fields[i].kind.names_file()
}

/// The form's section; nothing where there are no fields.
pub open spec fn form_text(fields: Seq<FieldView>, is_multipart: bool) -> Seq<char> {
    if fields.len() == 0 {
        Seq::empty()
    } else {
        (if any_file(fields) || is_multipart {
            "[Multipart]\n"@
        } else {
            "[Form]\n"@
        }) + text::concat(fields.map_values(|f: FieldView| field_text(f)))
    }
}

// ---------------------------------------------------------------------------
// Comments
// ---------------------------------------------------------------------------
/// The comments that stand before a block, each on its line.
pub open spec fn comments_at(comments: Seq<CommentView>, anchor: CommentAnchor) -> Seq<char> {
    text::concat(
        comments.map_values(
            |c: CommentView|
                if c.anchor == anchor {
                    as_line(c.text)
                } else {
                    Seq::empty()
                },
        ),
    )
}

/// Whether any comment stands before a block.
pub open spec fn has_comments_at(comments: Seq<CommentView>, anchor: CommentAnchor) -> bool {
    exists|i: int| 0 <= i < comments.len() && (#[trigger] comments[i]).anchor == anchor
}

/// Whether any comment stands in the response's part of the entry.
pub open spec fn has_response_comments(comments: Seq<CommentView>) -> bool {
    ||| has_comments_at(comments, CommentAnchor::Response)
    ||| has_comments_at(comments, CommentAnchor::ResponseHeaders)
    ||| has_comments_at(comments, CommentAnchor::Asserts)
    ||| has_comments_at(comments, CommentAnchor::Captures)
    ||| has_comments_at(comments, CommentAnchor::ResponseBody)
}

// ---------------------------------------------------------------------------
// Bodies
// ---------------------------------------------------------------------------
/// One line of an authored body behind its marker. An empty line is a bare `#`,
/// so that nothing in the file ends with white space.
pub open spec fn body_block_line(line: Seq<char>) -> Seq<char> {
    let l = text::chomped(line);
    if l.len() == 0 {
        "#\n"@
    } else {
        as_line("# "@ + l)
    }
}

/// An authored body as the `# [Body]` block that carries it through a file: how
/// many lines it has, then each of them.
pub open spec fn body_block(src: Seq<char>) -> Seq<char> {
    let lines = text::split_on(src, '\n');
    as_line("# [Body] "@ + text::decimal(lines.len())) + text::concat(
        lines.map_values(|line: Seq<char>| body_block_line(line)),
    )
}

/// A text ended by a line feed.
pub open spec fn closed_line(s: Seq<char>) -> Seq<char> {
    if s.len() > 0 && s.last() == '\n' {
        s
    } else {
        as_line(s)
    }
}

/// A body as it is written: what is sent, and before it the authored text as a
/// block where the two differ.
pub open spec fn body_text(body_src: Option<Seq<char>>) -> Seq<char> {
    match body_src {
        Some(src) => (if src != json_comments::wire(src) {
            body_block(src)
        } else {
            Seq::empty()
        }) + closed_line(json_comments::wire(src)),
        None => Seq::empty(),
    }
}

/// An expected body as it is written.
pub open spec fn expected_body_text(body: Option<Seq<char>>) -> Seq<char> {
    match body {
        Some(b) => closed_line(b),
        None => Seq::empty(),
    }
}

// ---------------------------------------------------------------------------
// Entries
// ---------------------------------------------------------------------------
/// The comments above the title, with a blank line behind them that keeps them
/// out of it.
pub open spec fn lead_text(e: EntryView) -> Seq<char> {
    comments_at(e.comments, CommentAnchor::Lead) + (if has_comments_at(
        e.comments,
        CommentAnchor::Lead,
    ) {
        seq!['\n']
    } else {
        seq![]
    })
}

/// The title line.
pub open spec fn title_text(title: Seq<char>) -> Seq<char> {
    if text::is_blank(title) {
        Seq::empty()
    } else {
        as_line("# "@ + on_one_line(title))
    }
}

/// The request line.
pub open spec fn request_line(method: Seq<char>, url: Seq<char>) -> Seq<char> {
    as_line(
        (if method.len() == 0 {
            "GET"@
        } else {
            method
        }) + " "@ + url,
    )
}

/// The credentials' section.
pub open spec fn auth_text(auth: Option<(Seq<char>, Seq<char>)>) -> Seq<char> {
    match auth {
        Some(pair) => "[BasicAuth]\n"@ + as_line(kv(pair.0, pair.1)),
        None => Seq::empty(),
    }
}

/// Whether there is anything to say of the response.
pub open spec fn has_response_area(e: EntryView) -> bool {
    ||| e.expected_status is Some
    ||| e.response_version is Some
    ||| e.response_headers.len() > 0
    ||| e.response_body is Some
    ||| e.asserts.len() > 0
    ||| e.captures.len() > 0
    ||| e.reports.len() > 0
    ||| has_response_comments(e.comments)
}

/// The response line. With nothing said of the status it is `*`, and with
/// nothing said of the response at all there is none.
pub open spec fn status_text(e: EntryView) -> Seq<char> {
    let version = match e.response_version {
        Some(v) => v,
        None => "HTTP"@,
    };
    match e.expected_status {
        Some(status) => as_line(version + " "@ + text::decimal(status as nat)),
        None => if has_response_area(e) {
            as_line(version + " *"@)
        } else {
            Seq::empty()
        },
    }
}

/// The asserts' section.
pub open spec fn asserts_text(asserts: Seq<Seq<char>>) -> Seq<char> {
    if asserts.len() == 0 {
        Seq::empty()
    } else {
        "[Asserts]\n"@ + text::concat(asserts.map_values(|a: Seq<char>| as_line(a)))
    }
}

/// The captures' section.
pub open spec fn captures_text(captures: Seq<(Seq<char>, Seq<char>)>) -> Seq<char> {
    if captures.len() == 0 {
        Seq::empty()
    } else {
        "[Captures]\n"@ + text::concat(
            captures.map_values(|c: (Seq<char>, Seq<char>)| as_line(kv(c.0, c.1))),
        )
    }
}

/// The report fields, as a block of comments.
pub open spec fn reports_text(reports: Seq<(Seq<char>, Seq<char>)>) -> Seq<char> {
    if reports.len() == 0 {
        Seq::empty()
    } else {
        "# [Reports]\n"@ + text::concat(
            reports.map_values(|r: (Seq<char>, Seq<char>)| as_line("# "@ + kv(r.0, r.1))),
        )
    }
}

/// The request's part of an entry.
pub open spec fn request_text(e: EntryView) -> Seq<char> {
    lead_text(e) + title_text(e.title) + request_line(e.method, e.url) + comments_at(
        e.comments,
        CommentAnchor::Headers,
    ) + rows_text(e.headers) + comments_at(e.comments, CommentAnchor::BasicAuth) + auth_text(
        e.basic_auth,
    ) + comments_at(e.comments, CommentAnchor::Cookies) + section_text("[Cookies]\n"@, e.cookies)
        + comments_at(e.comments, CommentAnchor::Query) + section_text("[Query]\n"@, e.queries)
        + comments_at(e.comments, CommentAnchor::Form) + form_text(e.form_fields, e.is_multipart)
        + comments_at(e.comments, CommentAnchor::Options) + section_text("[Options]\n"@, e.options)
        + comments_at(e.comments, CommentAnchor::Body) + body_text(e.body_src)
}

/// The response's part of an entry, with the report fields and the comments
/// behind everything else.
pub open spec fn response_text(e: EntryView) -> Seq<char> {
    comments_at(e.comments, CommentAnchor::Response) + status_text(e) + comments_at(
        e.comments,
        CommentAnchor::ResponseHeaders,
    ) + rows_text(e.response_headers) + comments_at(e.comments, CommentAnchor::Asserts)
        + asserts_text(e.asserts) + comments_at(e.comments, CommentAnchor::Captures)
        + captures_text(e.captures) + comments_at(e.comments, CommentAnchor::ResponseBody)
        + expected_body_text(e.response_body) + reports_text(e.reports) + comments_at(
        e.comments,
        CommentAnchor::Trailing,
    )
}

/// An entry as Hurl text. One that could not be parsed is written back as it
/// came, but for the line breaks at its end.
pub open spec fn hurl_text(e: EntryView) -> Seq<char> {
    match e.unparsed {
        Some(raw) => as_line(text::without_trailing(raw, |c: char| c == '\n' || c == '\r')),
        None => request_text(e) + response_text(e),
    }
}

/// A collection as a Hurl document: its entries with a blank line between them.
pub open spec fn collection_text(entries: Seq<EntryView>) -> Seq<char> {
    text::joined(entries.map_values(|e: EntryView| hurl_text(e)), "\n"@)
}

// ---------------------------------------------------------------------------
// The functions
// ---------------------------------------------------------------------------
/// Adds `s` with its line breaks turned into spaces at the end of `out`.
fn push_flat(out: &mut String, s: &str)
    ensures
        final(out)@ == old(out)@ + flattened(s@),
{
    let cs = text::chars_of(s);
    for i in 0..cs.len()
        invariant
            cs@ == s@,
            out@ == old(out)@ + flattened(cs@.take(i as int)),
    {
        let c: char = cs[i];
        if c == '\n' || c == '\r' {
            out.push(' ');
        } else {
            out.push(c);
        }
        assert(flattened(cs@.take(i + 1)) == flattened(cs@.take(i as int)).push(
            flattened(cs@)[i as int],
        ));
    }
    assert(cs@.take(cs.len() as int) == cs@);
}

/// Adds `line` as a line of its own, commented out where the row is disabled.
fn push_line(out: &mut String, line: &str, enabled: bool)
    ensures
        final(out)@ == old(out)@ + row_line(line@, enabled),
{
    if enabled {
        out.push_str(line);
    } else {
        out.push_str("# ");
        push_flat(out, line);
    }
    out.push('\n');
    assert(out@ == old(out)@ + row_line(line@, enabled));
}

/// Adds a row's note, one marked line for each of its lines.
fn push_desc(out: &mut String, desc: &str)
    ensures
        final(out)@ == old(out)@ + desc_lines(desc@),
{
    let all = text::lines(desc);
    let ghost f = |line: Seq<char>| as_line(DESC_MARKER@ + line);
    let ghost parts = text::lines_of(desc@).map_values(f);
    for i in 0..all.len()
        invariant
            f == (|line: Seq<char>| as_line(DESC_MARKER@ + line)),
            all.deep_view() == text::lines_of(desc@),
            parts == text::lines_of(desc@).map_values(f),
            out@ == old(out)@ + text::concat(parts.take(i as int)),
    {
        let ghost before = out@;
        assert(all.deep_view()[i as int] == all@[i as int]@);
        out.push_str(DESC_MARKER);
        out.push_str(all[i].as_str());
        out.push('\n');
        assert(out@ == before + parts[i as int]);
        assert(parts.take(i + 1).drop_last() == parts.take(i as int));
    }
    assert(parts.take(all.len() as int) == parts);
}

/// A row's name and value.
fn kv_line(key: &str, value: &str) -> (r: String)
    ensures
        r@ == kv(key@, value@),
{
    let mut r = key.to_owned();
    r.push_str(": ");
    r.push_str(value);
    r
}

/// Whether Hurl can carry a name.
fn can_write_name(key: &str) -> (r: bool)
    ensures
        r == name_is_writable(key@),
{
    rows::key_problem(key).is_none() && text::on_one_line(key)
}

/// Adds one row of a section.
fn push_kv_line(out: &mut String, row: &KvRow)
    ensures
        final(out)@ == old(out)@ + kv_text(row.deep_view()),
{
    push_desc(out, row.desc.as_str());
    let writable = can_write_name(row.key.as_str()) && rows::value_problem(
        row.value.as_str(),
    ).is_none();
    let line = kv_line(row.key.as_str(), row.value.as_str());
    push_line(out, line.as_str(), row.enabled && writable);
    assert(out@ == old(out)@ + kv_text(row.deep_view()));
}

/// Adds rows one below the other.
fn push_rows(out: &mut String, all: &[KvRow])
    ensures
        final(out)@ == old(out)@ + rows_text(all.deep_view()),
{
    let ghost f = |row: RowView| kv_text(row);
    let ghost parts = all.deep_view().map_values(f);
    for i in 0..all.len()
        invariant
            f == (|row: RowView| kv_text(row)),
            parts == all.deep_view().map_values(f),
            out@ == old(out)@ + text::concat(parts.take(i as int)),
    {
        push_kv_line(out, &all[i]);
        assert(parts[i as int] == kv_text(all@[i as int].deep_view()));
        assert(parts.take(i + 1).drop_last() == parts.take(i as int));
    }
    assert(parts.take(all.len() as int) == parts);
}

/// Adds a section with its rows, where there are any.
fn push_section(out: &mut String, header: &str, all: &[KvRow])
    ensures
        final(out)@ == old(out)@ + section_text(header@, all.deep_view()),
{
    if all.len() > 0 {
        out.push_str(header);
        push_rows(out, all);
    }
    assert(out@ == old(out)@ + section_text(header@, all.deep_view()));
}

/// `s` on a single line, without white space around it.
///
/// A title is written as one comment above the method line. A title with a line
/// break in it would not stay one: what is behind the break would be read as
/// another request.
pub fn single_line(s: &str) -> (r: String)
    ensures
        r@ == on_one_line(s@),
{
    let mut flat = String::new();
    push_flat(&mut flat, s);
    assert(flat@ == flattened(s@));
    text::trim(flat.as_str())
}

/// A file's path as Hurl wants it written.
pub fn escape_form_file_path(path: &str) -> (r: String)
    ensures
        r@ == escaped_path(path@),
{
    let cs = text::chars_of(path);
    let ghost f = |c: char| path_char(c);
    let ghost parts = cs@.map_values(f);
    let mut out = String::new();
    for i in 0..cs.len()
        invariant
            f == (|c: char| path_char(c)),
            parts == cs@.map_values(f),
            out@ == text::concat(parts.take(i as int)),
    {
        let c: char = cs[i];
        let ghost before = out@;
        if c == ' ' || c == '#' || c == ';' || c == '\\' {
            out.push('\\');
            out.push(c);
        } else if c == '\n' {
            out.push('\\');
            out.push('n');
        } else if c == '\r' {
            out.push('\\');
            out.push('r');
        } else {
            out.push(c);
        }
        assert(out@ == before + parts[i as int]);
        assert(parts.take(i + 1).drop_last() == parts.take(i as int));
    }
    assert(parts.take(cs.len() as int) == parts);
    out
}

/// A form field's line, without its line feed.
fn form_field_line(f: &FormField) -> (r: String)
    ensures
        r@ == field_line(f.deep_view()),
{
    match f.kind {
        FormFieldKind::Text => kv_line(f.key.as_str(), f.value.as_str()),
        FormFieldKind::File => {
            let mut r = f.key.clone();
            r.push_str(": file,");
            r.push_str(escape_form_file_path(f.value.as_str()).as_str());
            r.push_str(";");
            let ct = match &f.content_type {
                Some(ct) => text::trim(ct.as_str()),
                None => String::new(),
            };
            if !ct.as_str().is_empty() {
                r.push_str(" ");
                r.push_str(ct.as_str());
            }
            r
        },
        FormFieldKind::Base64File => {
            let mut r = f.key.clone();
            r.push_str(": file,");
            r.push_str(escape_form_file_path(f.value.as_str()).as_str());
            r.push_str("; ");
            r.push_str(BASE64_FILE_CT_MARKER);
            let prefix = match &f.base64_prefix {
                Some(p) => p.clone(),
                None => String::new(),
            };
            r.push_str(base64_text::carry(prefix.as_str()).as_str());
            r
        },
    }
}

/// Adds the form's section, where there are fields.
fn push_form(out: &mut String, fields: &[FormField], is_multipart: bool)
    ensures
        final(out)@ == old(out)@ + form_text(fields.deep_view(), is_multipart),
{
    let ghost all = fields.deep_view();
    if fields.len() == 0 {
        assert(out@ == old(out)@ + form_text(all, is_multipart));
        return;
    }
    let mut multipart = is_multipart;
    for i in 0..fields.len()
        invariant
            all == fields.deep_view(),
            multipart == (is_multipart || exists|j: int|
                0 <= j < i && (#[trigger] all[j]).enabled && all[j].kind.names_file()),
    {
        let f: &FormField = &fields[i];
        assert(all[i as int] == f.deep_view());
        if f.enabled && f.kind.is_multipart() {
            multipart = true;
        }
    }
    assert(multipart == (any_file(all) || is_multipart));
    if multipart {
        out.push_str("[Multipart]\n");
    } else {
        out.push_str("[Form]\n");
    }
    let ghost head = out@;
    let ghost g = |f: FieldView| field_text(f);
    let ghost parts = all.map_values(g);
    for i in 0..fields.len()
        invariant
            all == fields.deep_view(),
            g == (|f: FieldView| field_text(f)),
            parts == all.map_values(g),
            out@ == head + text::concat(parts.take(i as int)),
    {
        let f: &FormField = &fields[i];
        let ghost before = out@;
        assert(all[i as int] == f.deep_view());
        push_desc(out, f.desc.as_str());
        let writable = can_write_name(f.key.as_str()) && (f.kind != FormFieldKind::Text
            || rows::value_problem(f.value.as_str()).is_none());
        let line = form_field_line(f);
        push_line(out, line.as_str(), f.enabled && writable);
        assert(out@ == before + parts[i as int]);
        assert(parts.take(i + 1).drop_last() == parts.take(i as int));
    }
    assert(parts.take(fields.len() as int) == parts);
    assert(out@ == old(out)@ + form_text(all, is_multipart));
}

/// Adds the comments that stand before a block, each on its line.
fn push_comments(out: &mut String, comments: &[EntryComment], anchor: CommentAnchor)
    ensures
        final(out)@ == old(out)@ + comments_at(comments.deep_view(), anchor),
{
    let ghost f = |c: CommentView|
        if c.anchor == anchor {
            as_line(c.text)
        } else {
            Seq::empty()
        };
    let ghost parts = comments.deep_view().map_values(f);
    for i in 0..comments.len()
        invariant
            f == (|c: CommentView|
                if c.anchor == anchor {
                    as_line(c.text)
                } else {
                    Seq::empty()
                }),
            parts == comments.deep_view().map_values(f),
            out@ == old(out)@ + text::concat(parts.take(i as int)),
    {
        let ghost before = out@;
        let c: &EntryComment = &comments[i];
        assert(parts[i as int] == f(c.deep_view()));
        if c.anchor == anchor {
            out.push_str(c.text.as_str());
            out.push('\n');
        }
        assert(out@ == before + parts[i as int]);
        assert(parts.take(i + 1).drop_last() == parts.take(i as int));
    }
    assert(parts.take(comments.len() as int) == parts);
}

/// Whether any comment stands before a block.
fn any_comment(comments: &[EntryComment], anchor: CommentAnchor) -> (r: bool)
    ensures
        r == has_comments_at(comments.deep_view(), anchor),
{
    let ghost all = comments.deep_view();
    for i in 0..comments.len()
        invariant
            all == comments.deep_view(),
            forall|j: int| 0 <= j < i ==> (#[trigger] all[j]).anchor != anchor,
    {
        assert(all[i as int] == comments@[i as int].deep_view());
        if comments[i].anchor == anchor {
            return true;
        }
    }
    false
}

/// Writes an authored body as the `# [Body]` block that carries it through a
/// `.hurl` file.
pub fn encode_body_block(src: &str) -> (r: String)
    ensures
        r@ == body_block(src@),
{
    let lines = text::split(src, '\n');
    let ghost f = |line: Seq<char>| body_block_line(line);
    let ghost all = text::split_on(src@, '\n');
    let ghost parts = all.map_values(f);
    let mut out = String::new();
    out.push_str("# [Body] ");
    out.push_str(text::to_decimal(lines.len() as u128).as_str());
    out.push('\n');
    let ghost head = out@;
    assert(head == as_line("# [Body] "@ + text::decimal(all.len())));
    for i in 0..lines.len()
        invariant
            f == (|line: Seq<char>| body_block_line(line)),
            all == lines.deep_view(),
            parts == all.map_values(f),
            out@ == head + text::concat(parts.take(i as int)),
    {
        let ghost before = out@;
        assert(all[i as int] == lines@[i as int]@);
        let l = text::chomp(lines[i].as_str());
        if l.as_str().is_empty() {
            out.push_str("#\n");
        } else {
            out.push_str("# ");
            out.push_str(l.as_str());
            out.push('\n');
        }
        assert(out@ == before + parts[i as int]);
        assert(parts.take(i + 1).drop_last() == parts.take(i as int));
    }
    assert(parts.take(lines.len() as int) == parts);
    out
}

/// Adds a text, and a line feed where it does not end with one.
fn push_closed(out: &mut String, s: &str)
    ensures
        final(out)@ == old(out)@ + closed_line(s@),
{
    let cs = text::chars_of(s);
    out.push_str(s);
    if !(cs.len() > 0 && cs[cs.len() - 1] == '\n') {
        out.push('\n');
    }
    assert(out@ == old(out)@ + closed_line(s@));
}

/// Adds a body: what is sent, and before it the authored text as a block where
/// the two differ.
fn push_body(out: &mut String, body_src: &Option<String>)
    ensures
        final(out)@ == old(out)@ + body_text(body_src.deep_view()),
{
    if let Some(src) = body_src {
        let body = json_comments::wire_text(src.as_str());
        if !text::same(src.as_str(), body.as_str()) {
            let block = encode_body_block(src.as_str());
            out.push_str(block.as_str());
        }
        push_closed(out, body.as_str());
    }
    assert(out@ == old(out)@ + body_text(body_src.deep_view()));
}

/// Adds the response line.
fn push_status(out: &mut String, e: &HurlEntry)
    ensures
        final(out)@ == old(out)@ + status_text(e.deep_view()),
{
    let comments: &[EntryComment] = e.comments.as_slice();
    let area = e.expected_status.is_some() || e.response_version.is_some()
        || e.response_headers.len() > 0 || e.response_body.is_some() || e.asserts.len() > 0
        || e.captures.len() > 0 || e.reports.len() > 0 || any_comment(
        comments,
        CommentAnchor::Response,
    ) || any_comment(comments, CommentAnchor::ResponseHeaders) || any_comment(
        comments,
        CommentAnchor::Asserts,
    ) || any_comment(comments, CommentAnchor::Captures) || any_comment(
        comments,
        CommentAnchor::ResponseBody,
    );
    let ghost v = e.deep_view();
    assert(area == has_response_area(v));
    if area {
        match &e.response_version {
            Some(version) => {
                out.push_str(version.as_str());
            },
            None => {
                out.push_str("HTTP");
            },
        }
        match e.expected_status {
            Some(status) => {
                out.push_str(" ");
                out.push_str(text::to_decimal(status as u128).as_str());
            },
            None => {
                out.push_str(" *");
            },
        }
        out.push('\n');
    }
    assert(out@ == old(out)@ + status_text(v));
}

/// Adds the asserts' section, where there are any.
fn push_asserts(out: &mut String, asserts: &[String])
    ensures
        final(out)@ == old(out)@ + asserts_text(asserts.deep_view()),
{
    let ghost all = asserts.deep_view();
    if asserts.len() > 0 {
        out.push_str("[Asserts]\n");
        let ghost head = out@;
        let ghost f = |a: Seq<char>| as_line(a);
        let ghost parts = all.map_values(f);
        for i in 0..asserts.len()
            invariant
                all == asserts.deep_view(),
                f == (|a: Seq<char>| as_line(a)),
                parts == all.map_values(f),
                out@ == head + text::concat(parts.take(i as int)),
        {
            let ghost before = out@;
            assert(all[i as int] == asserts@[i as int]@);
            out.push_str(asserts[i].as_str());
            out.push('\n');
            assert(out@ == before + parts[i as int]);
            assert(parts.take(i + 1).drop_last() == parts.take(i as int));
        }
        assert(parts.take(asserts.len() as int) == parts);
    }
    assert(out@ == old(out)@ + asserts_text(all));
}

/// Adds names and queries under a header, each line behind `mark`.
fn push_pairs(out: &mut String, header: &str, mark: &str, pairs: &[(String, String)])
    ensures
        final(out)@ == old(out)@ + (if pairs.deep_view().len() == 0 {
            Seq::empty()
        } else {
            header@ + text::concat(
                pairs.deep_view().map_values(
                    |p: (Seq<char>, Seq<char>)| as_line(mark@ + kv(p.0, p.1)),
                ),
            )
        }),
{
    let ghost all = pairs.deep_view();
    if pairs.len() > 0 {
        out.push_str(header);
        let ghost head = out@;
        let ghost f = |p: (Seq<char>, Seq<char>)| as_line(mark@ + kv(p.0, p.1));
        let ghost parts = all.map_values(f);
        for i in 0..pairs.len()
            invariant
                all == pairs.deep_view(),
                f == (|p: (Seq<char>, Seq<char>)| as_line(mark@ + kv(p.0, p.1))),
                parts == all.map_values(f),
                out@ == head + text::concat(parts.take(i as int)),
        {
            let ghost before = out@;
            assert(all[i as int] == pairs@[i as int].deep_view());
            out.push_str(mark);
            out.push_str(kv_line(pairs[i].0.as_str(), pairs[i].1.as_str()).as_str());
            out.push('\n');
            assert(out@ == before + parts[i as int]);
            assert(parts.take(i + 1).drop_last() == parts.take(i as int));
        }
        assert(parts.take(pairs.len() as int) == parts);
    }
}

/// Adds the captures' section, where there are any.
fn push_captures(out: &mut String, captures: &[(String, String)])
    ensures
        final(out)@ == old(out)@ + captures_text(captures.deep_view()),
{
    push_pairs(out, "[Captures]\n", "", captures);
    proof {
        reveal_strlit("");
        let f = |p: (Seq<char>, Seq<char>)| as_line(""@ + kv(p.0, p.1));
        let g = |c: (Seq<char>, Seq<char>)| as_line(kv(c.0, c.1));
        let all = captures.deep_view();
        assert forall|i: int| 0 <= i < all.len() implies all.map_values(f)[i] == all.map_values(
            g,
        )[i] by {
            assert(""@ + kv(all[i].0, all[i].1) == kv(all[i].0, all[i].1));
        }
        assert(all.map_values(f) == all.map_values(g));
    }
}

impl HurlEntry {
    /// The body as it goes on the wire and into a `.hurl` file: the authored
    /// one with its JSON comments stripped.
    ///
    /// Every path that sends a request or writes a file goes through here, or
    /// it would ship the user's notes to their server.
    pub fn body_wire(&self) -> (r: Option<Cow<'_, str>>)
        ensures
            r is Some == self.body_src is Some,
            r matches Some(body) ==> body@ == json_comments::wire(self.body_src.unwrap()@),
    {
        match &self.body_src {
            Some(src) => Some(json_comments::wire_body(src.as_str())),
            None => None,
        }
    }

    /// Adds the request's part of this entry.
    fn push_request(&self, out: &mut String)
        ensures
            final(out)@ == old(out)@ + request_text(self.deep_view()),
    {
        let comments: &[EntryComment] = self.comments.as_slice();
        let mut r = String::new();
        push_comments(&mut r, comments, CommentAnchor::Lead);
        if any_comment(comments, CommentAnchor::Lead) {
            r.push('\n');
        }
        assert(r@ == lead_text(self.deep_view()));
        if !text::blank(self.title.as_str()) {
            r.push_str("# ");
            r.push_str(single_line(self.title.as_str()).as_str());
            r.push('\n');
        }
        assert(r@ == lead_text(self.deep_view()) + title_text(self.title@));
        let ghost before = r@;
        if self.method.as_str().is_empty() {
            r.push_str("GET");
        } else {
            r.push_str(self.method.as_str());
        }
        r.push_str(" ");
        r.push_str(self.url.as_str());
        r.push('\n');
        assert(r@ == before + request_line(self.method@, self.url@));
        push_comments(&mut r, comments, CommentAnchor::Headers);
        push_rows(&mut r, self.headers.as_slice());
        push_comments(&mut r, comments, CommentAnchor::BasicAuth);
        let ghost before = r@;
        if let Some(pair) = &self.basic_auth {
            r.push_str("[BasicAuth]\n");
            r.push_str(kv_line(pair.0.as_str(), pair.1.as_str()).as_str());
            r.push('\n');
        }
        assert(r@ == before + auth_text(self.basic_auth.deep_view()));
        push_comments(&mut r, comments, CommentAnchor::Cookies);
        push_section(&mut r, "[Cookies]\n", self.cookies.as_slice());
        push_comments(&mut r, comments, CommentAnchor::Query);
        push_section(&mut r, "[Query]\n", self.queries.as_slice());
        push_comments(&mut r, comments, CommentAnchor::Form);
        push_form(&mut r, self.form_fields.as_slice(), self.is_multipart);
        push_comments(&mut r, comments, CommentAnchor::Options);
        push_section(&mut r, "[Options]\n", self.options.as_slice());
        push_comments(&mut r, comments, CommentAnchor::Body);
        push_body(&mut r, &self.body_src);
        out.push_str(r.as_str());
    }

    /// Adds the response's part of this entry.
    fn push_response(&self, out: &mut String)
        ensures
            final(out)@ == old(out)@ + response_text(self.deep_view()),
    {
        let comments: &[EntryComment] = self.comments.as_slice();
        let mut r = String::new();
        push_comments(&mut r, comments, CommentAnchor::Response);
        push_status(&mut r, self);
        push_comments(&mut r, comments, CommentAnchor::ResponseHeaders);
        push_rows(&mut r, self.response_headers.as_slice());
        push_comments(&mut r, comments, CommentAnchor::Asserts);
        push_asserts(&mut r, self.asserts.as_slice());
        push_comments(&mut r, comments, CommentAnchor::Captures);
        push_captures(&mut r, self.captures.as_slice());
        push_comments(&mut r, comments, CommentAnchor::ResponseBody);
        let ghost before = r@;
        if let Some(body) = &self.response_body {
            push_closed(&mut r, body.as_str());
        }
        assert(r@ == before + expected_body_text(self.response_body.deep_view()));
        push_pairs(&mut r, "# [Reports]\n", "# ", self.reports.as_slice());
        push_comments(&mut r, comments, CommentAnchor::Trailing);
        assert(r@ == response_text(self.deep_view()));
        out.push_str(r.as_str());
    }

    /// This entry as Hurl text, in the order in which it is read back.
    ///
    /// An entry that could not be parsed is written back as it came: anything
    /// else would turn a damaged file into a lost one.
    pub fn to_hurl(&self) -> (r: String)
        ensures
            r@ == hurl_text(self.deep_view()),
    {
        let mut out = String::new();
        if let Some(raw) = &self.unparsed {
            let cs = text::chars_of(raw.as_str());
            let kept: &[char] = text::drop_trailing(
                cs.as_slice(),
                line_break,
                Ghost(|c: char| c == '\n' || c == '\r'),
            );
            text::push_chars(&mut out, kept);
            out.push('\n');
            assert(out@ == hurl_text(self.deep_view()));
            return out;
        }
        self.push_request(&mut out);
        self.push_response(&mut out);
        assert(out@ == hurl_text(self.deep_view()));
        out
    }
}

fn line_break(c: char) -> (r: bool)
    ensures
        r == (c == '\n' || c == '\r'),
{
    c == '\n' || c == '\r'
}

/// A whole collection as a Hurl document, its entries with a blank line between
/// them.
pub fn collection_to_hurl(entries: &[HurlEntry]) -> (r: String)
    ensures
        r@ == collection_text(entries.deep_view()),
{
    let ghost f = |e: EntryView| hurl_text(e);
    let ghost want = entries.deep_view().map_values(f);
    let mut all: Vec<String> = Vec::new();
    for i in 0..entries.len()
        invariant
            f == (|e: EntryView| hurl_text(e)),
            want == entries.deep_view().map_values(f),
            all.len() == i,
            forall|j: int| 0 <= j < i ==> (#[trigger] all@[j])@ == want[j],
    {
        all.push(entries[i].to_hurl());
        assert(want[i as int] == hurl_text(entries@[i as int].deep_view()));
    }
    assert(all.deep_view() == want);
    text::join(all.as_slice(), "\n")
}

} // verus!
