//! Reading rows straight from a Hurl file's lines.
//!
//! Hurl's parser passes over comments, and with them over disabled rows, notes
//! and report fields. Those are read from the source here, line by line. Lines
//! are counted from nought in this module.
use vstd::prelude::*;

use crate::base64_text;
use crate::entry::{FieldView, FormField, FormFieldKind, KvRow, RowView};
use crate::rows;
use crate::text;
use crate::writer;

verus! {

// ---------------------------------------------------------------------------
// One line
// ---------------------------------------------------------------------------
/// Whether a line is a comment.
pub open spec fn is_comment(line: Seq<char>) -> bool {
    text::begins(text::trimmed(line), "#"@)
}

/// Whether a line holds anything but white space and comment.
pub open spec fn is_content(line: Seq<char>) -> bool {
    !text::is_blank(line) && !is_comment(line)
}

/// A line without the mark that disables it, and whether it had none.
pub open spec fn uncommented(line: Seq<char>) -> (bool, Seq<char>) {
    let t = text::trimmed(line);
    if text::begins(t, "#"@) {
        (false, text::trimmed_start(t.skip(1)))
    } else {
        (true, t)
    }
}

/// Where a name ends that goes on at position `i` of `s`: at the first colon that
/// stands in no template, or at the end where there is none. What is in a
/// template that is closed is passed over, as it is in a name.
pub open spec fn name_end(s: Seq<char>, i: int) -> int
    decreases s.len() - i,
{
    if i < 0 || i >= s.len() {
        s.len() as int
    } else if s[i] == '{' && i + 1 < s.len() && s[i + 1] == '{' && text::find_pair(
        s,
        '}',
        '}',
        i + 2,
    ) < s.len() {
        proof {
            text::lemma_find_pair(s, '}', '}', i + 2);
        }
        name_end(s, text::find_pair(s, '}', '}', i + 2) + 2)
    } else if s[i] == ':' {
        i
    } else {
        name_end(s, i + 1)
    }
}

/// A name ends at a colon, or with the text.
pub proof fn lemma_name_end(s: Seq<char>, i: int)
    requires
        0 <= i,
    ensures
        0 <= name_end(s, i) <= s.len(),
        i <= s.len() ==> i <= name_end(s, i),
        name_end(s, i) < s.len() ==> s[name_end(s, i)] == ':',
    decreases s.len() - i,
{
    if i < s.len() {
        let close = text::find_pair(s, '}', '}', i + 2);
        if i + 1 < s.len() {
            text::lemma_find_pair(s, '}', '}', i + 2);
        }
        if s[i] == '{' && i + 1 < s.len() && s[i + 1] == '{' && close < s.len() {
            lemma_name_end(s, close + 2);
        } else if s[i] != ':' {
            lemma_name_end(s, i + 1);
        }
    }
}

/// Without a colon there is no name.
pub proof fn lemma_no_colon(s: Seq<char>)
    requires
        !s.contains(':'),
    ensures
        key_and_value(s) is None,
{
    lemma_name_end(s, 0);
}

/// A `key: value` text cut into its name and value, where the name is one that
/// Hurl can carry. The rule is the writer's own, so a row that can be written
/// can be read back; it also keeps an ordinary comment with a colon in it from
/// being taken for a row.
pub open spec fn key_and_value(s: Seq<char>) -> Option<(Seq<char>, Seq<char>)> {
    let n = name_end(s, 0);
    let key = text::trimmed(s.take(n));
    if n < s.len() && rows::key_trouble(key) is None {
        Some((key, text::trimmed(s.skip(n + 1))))
    } else {
        None
    }
}

/// The row on a line, disabled where the line is commented out.
pub open spec fn row_on(line: Seq<char>) -> Option<RowView> {
    match key_and_value(uncommented(line).1) {
        Some(pair) => Some(
            RowView { key: pair.0, value: pair.1, enabled: uncommented(line).0, desc: seq![] },
        ),
        None => None,
    }
}

/// The text of a line that carries a note.
pub open spec fn note_on(line: Seq<char>) -> Option<Seq<char>> {
    match text::without_prefix(text::trimmed_start(line), "# @desc"@) {
        Some(rest) => if text::begins(rest, " "@) {
            Some(text::trimmed_end(rest.skip(1)))
        } else if rest.len() == 0 {
            Some(Seq::empty())
        } else {
            None
        },
        None => None,
    }
}

/// Whether a line is a comment.
pub(crate) fn comment_line(line: &str) -> (r: bool)
    ensures
        r == is_comment(line@),
{
    text::starts_with(text::trim(line).as_str(), "#")
}

/// Whether a line holds anything but white space and comment.
pub(crate) fn content_line(line: &str) -> (r: bool)
    ensures
        r == is_content(line@),
{
    !text::blank(line) && !comment_line(line)
}

/// Strips a leading `#` and the white space around, and says whether there was
/// none.
pub(crate) fn uncomment(line: &str) -> (r: (bool, String))
    ensures
        r.0 == uncommented(line@).0,
        r.1@ == uncommented(line@).1,
{
    let t = text::trim(line);
    match text::strip_prefix(t.as_str(), "#") {
        Some(rest) => {
            proof {
                reveal_strlit("#");
            }
            (false, text::trim_start(rest.as_str()))
        },
        None => (true, t),
    }
}

/// Where a name ends.
fn end_of_name(cs: &[char]) -> (r: usize)
    ensures
        r == name_end(cs@, 0),
        r <= cs.len(),
{
    let mut i: usize = 0;
    while i < cs.len()
        invariant
            i <= cs.len(),
            name_end(cs@, 0) == name_end(cs@, i as int),
        decreases cs.len() - i,
    {
        if cs[i] == '{' && i + 1 < cs.len() && cs[i + 1] == '{' {
            let close: usize = text::pair_at(cs, '}', '}', i + 2);
            if close < cs.len() {
                i = close + 2;
            } else {
                i += 1;
            }
        } else if cs[i] == ':' {
            return i;
        } else {
            i += 1;
        }
    }
    i
}

/// Splits a `key: value` text into its trimmed name and value.
pub fn split_kv(s: &str) -> (r: Option<(String, String)>)
    ensures
        r.deep_view() == key_and_value(s@),
{
    let cs = text::chars_of(s);
    let n: usize = end_of_name(cs.as_slice());
    if n == cs.len() {
        return None;
    }
    let key = text::string_of(text::trim_chars(&cs[0..n]));
    assert(cs@.subrange(0, n as int) == s@.take(n as int));
    if rows::key_problem(key.as_str()).is_some() {
        return None;
    }
    let value = text::string_of(text::trim_chars(&cs[n + 1..cs.len()]));
    assert(cs@.subrange(n + 1, cs@.len() as int) == s@.skip(n + 1));
    Some((key, value))
}

/// Parses a single row, without its note.
pub(crate) fn parse_kv_row(line: &str) -> (r: Option<KvRow>)
    ensures
        r.deep_view() == row_on(line@),
{
    let (enabled, rest) = uncomment(line);
    match split_kv(rest.as_str()) {
        Some((key, value)) => Some(KvRow::toggled(key.as_str(), value.as_str(), enabled)),
        None => None,
    }
}

/// The text of a `# @desc …` line, or `None` for anything else. What follows
/// the marker must be set off from it, so `# @description` is not one.
pub fn desc_line(line: &str) -> (r: Option<String>)
    ensures
        r.deep_view() == note_on(line@),
{
    let from = text::trim_start(line);
    match text::strip_prefix(from.as_str(), "# @desc") {
        Some(rest) => match text::strip_prefix(rest.as_str(), " ") {
            Some(text) => {
                proof {
                    reveal_strlit(" ");
                }
                Some(text::trim_end(text.as_str()))
            },
            None => {
                if rest.as_str().is_empty() {
                    Some(String::new())
                } else {
                    None
                }
            },
        },
        None => None,
    }
}

// ---------------------------------------------------------------------------
// Rows below one another
// ---------------------------------------------------------------------------
/// The rows on the lines from `i` up to `limit`, given the lines of a note read
/// already.
///
/// In a bounded scan blank lines and other comments are passed over, as Hurl
/// passes over them; a note above one describes nothing. An open scan has
/// nothing below it that bounds it from the next request, so it ends at the
/// first line that is neither row nor note.
pub open spec fn rows_from(
    lines: Seq<Seq<char>>,
    i: int,
    limit: int,
    bounded: bool,
    note: Seq<Seq<char>>,
) -> Seq<RowView>
    decreases lines.len() - i,
{
    if i < 0 || i >= limit || i >= lines.len() {
        Seq::empty()
    } else if note_on(lines[i]) is Some {
        rows_from(lines, i + 1, limit, bounded, note.push(note_on(lines[i]).unwrap()))
    } else if row_on(lines[i]) is Some {
        seq![RowView { desc: text::joined(note, "\n"@), ..row_on(lines[i]).unwrap() }] + rows_from(
            lines,
            i + 1,
            limit,
            bounded,
            Seq::empty(),
        )
    } else if bounded {
        rows_from(lines, i + 1, limit, bounded, Seq::empty())
    } else {
        Seq::empty()
    }
}

/// Where a scan with the given bound stops: before the line of that number,
/// counted from one, or at the end of the file.
pub open spec fn limit_of(lines: Seq<Seq<char>>, end: Option<usize>) -> int {
    match end {
        Some(e) => if e == 0 {
            0
        } else {
            e - 1
        },
        None => lines.len() as int,
    }
}

/// The rows on the lines from `start` on.
pub open spec fn rows_in(lines: Seq<Seq<char>>, start: int, end: Option<usize>) -> Seq<RowView> {
    rows_from(lines, start, limit_of(lines, end), end is Some, Seq::empty())
}

/// Where a scan with the given bound stops.
fn scan_limit(lines: &[String], end: Option<usize>) -> (r: usize)
    ensures
        r == limit_of(lines.deep_view(), end),
{
    match end {
        Some(e) => if e == 0 {
            0
        } else {
            e - 1
        },
        None => lines.len(),
    }
}

/// Scans a block of rows from line `start` on. A commented row comes back
/// disabled, and the note lines directly above a row as its note.
pub(crate) fn scan_kv_rows(lines: &[String], start: usize, end: Option<usize>) -> (r: Vec<KvRow>)
    ensures
        r.deep_view() == rows_in(lines.deep_view(), start as int, end),
{
    let ghost all = lines.deep_view();
    let limit: usize = scan_limit(lines, end);
    let bounded = end.is_some();
    let mut out: Vec<KvRow> = Vec::new();
    let mut note: Vec<String> = Vec::new();
    let mut i: usize = start;
    assert(note.deep_view() == Seq::<Seq<char>>::empty());
    assert(out.deep_view() + rows_in(all, start as int, end) == rows_in(all, start as int, end));
    while i < limit && i < lines.len()
        invariant
            all == lines.deep_view(),
            limit == limit_of(all, end),
            bounded == end is Some,
            out.deep_view() + rows_from(all, i as int, limit as int, bounded, note.deep_view())
                == rows_in(all, start as int, end),
        decreases lines.len() - i,
    {
        let line = lines[i].as_str();
        let ghost done = out.deep_view();
        let ghost notes = note.deep_view();
        assert(all[i as int] == line@);
        match desc_line(line) {
            Some(t) => {
                note.push(t);
                assert(note.deep_view() == notes.push(t@));
            },
            None => match parse_kv_row(line) {
                Some(row) => {
                    let desc = text::join(note.as_slice(), "\n");
                    let full = KvRow {
                        key: row.key,
                        value: row.value,
                        enabled: row.enabled,
                        desc,
                    };
                    out.push(full);
                    note = Vec::new();
                    assert(out.deep_view() == done.push(full.deep_view()));
                    assert(note.deep_view() == Seq::<Seq<char>>::empty());
                },
                None => {
                    if !bounded {
                        assert(rows_from(all, i as int, limit as int, bounded, notes) == Seq::<
                            RowView,
                        >::empty());
                        return out;
                    }
                    note = Vec::new();
                    assert(note.deep_view() == Seq::<Seq<char>>::empty());
                },
            },
        }
        i += 1;
    }
    assert(rows_from(all, i as int, limit as int, bounded, note.deep_view()) == Seq::<
        RowView,
    >::empty());
    out
}

// ---------------------------------------------------------------------------
// Form fields
// ---------------------------------------------------------------------------
/// Where the first `;` stands that no backslash hides, at or behind `i`; the
/// end where there is none.
pub open spec fn bare_semicolon(s: Seq<char>, i: int) -> int
    decreases s.len() - i,
{
    if i >= s.len() || (s[i] == '\\' && i + 1 >= s.len()) {
        s.len() as int
    } else if s[i] == '\\' {
        bare_semicolon(s, i + 2)
    } else if s[i] == ';' {
        i
    } else {
        bare_semicolon(s, i + 1)
    }
}

/// What a character behind a backslash stands for.
pub open spec fn unescaped_char(c: char) -> char {
    if c == 'n' {
        '\n'
    } else if c == 'r' {
        '\r'
    } else {
        c
    }
}

/// A file's path as Hurl has it written, turned back into the path.
pub open spec fn unescaped_path(s: Seq<char>) -> Seq<char>
    decreases s.len(),
{
    if s.len() == 0 {
        Seq::empty()
    } else if s[0] == '\\' && s.len() == 1 {
        s
    } else if s[0] == '\\' {
        seq![unescaped_char(s[1])] + unescaped_path(s.skip(2))
    } else {
        seq![s[0]] + unescaped_path(s.skip(1))
    }
}

/// What is before the semicolon that ends a path; the whole where there is none.
pub open spec fn before_semicolon(s: Seq<char>) -> Seq<char> {
    s.take(bare_semicolon(s, 0))
}

/// What is behind the semicolon that ends a path.
pub open spec fn behind_semicolon(s: Seq<char>) -> Seq<char> {
    let n = bare_semicolon(s, 0);
    if n < s.len() {
        s.skip(n + 1)
    } else {
        Seq::empty()
    }
}

/// A text field.
pub open spec fn text_field(key: Seq<char>, value: Seq<char>) -> FieldView {
    FieldView {
        key,
        value,
        kind: FormFieldKind::Text,
        content_type: None,
        base64_prefix: None,
        enabled: true,
        desc: seq![],
    }
}

/// A file field with the given content type as written. The marker in it makes
/// it one that is sent as base64 text.
pub open spec fn file_field(
    key: Seq<char>,
    path: Seq<char>,
    content_type: Option<Seq<char>>,
) -> FieldView {
    let prefix = match content_type {
        Some(ct) => text::without_prefix(ct, writer::BASE64_FILE_CT_MARKER@),
        None => None,
    };
    FieldView {
        key,
        value: path,
        kind: if prefix is Some {
            FormFieldKind::Base64File
        } else {
            FormFieldKind::File
        },
        content_type: if prefix is Some {
            None
        } else {
            content_type
        },
        base64_prefix: match prefix {
            Some(p) => Some(base64_text::carried_text(p)),
            None => None,
        },
        enabled: true,
        desc: seq![],
    }
}

/// The field that a `PATH; CONTENT-TYPE` text describes.
pub open spec fn file_value(key: Seq<char>, s: Seq<char>) -> FieldView {
    let ct = text::trimmed(behind_semicolon(s));
    file_field(
        key,
        unescaped_path(before_semicolon(s)),
        if ct.len() == 0 {
            None
        } else {
            Some(ct)
        },
    )
}

/// The form field that a line describes. In a `[Multipart]` section a value
/// that begins with `file,` is a file.
pub open spec fn field_on(s: Seq<char>, multipart: bool) -> Option<FieldView> {
    match key_and_value(s) {
        Some(pair) => match text::without_prefix(pair.1, "file,"@) {
            Some(spec_text) => if multipart {
                Some(file_value(pair.0, spec_text))
            } else {
                Some(text_field(pair.0, pair.1))
            },
            None => Some(text_field(pair.0, pair.1)),
        },
        None => None,
    }
}

pub proof fn lemma_bare_semicolon(s: Seq<char>, i: int)
    requires
        0 <= i <= s.len(),
    ensures
        i <= bare_semicolon(s, i) <= s.len(),
    decreases s.len() - i,
{
    if i < s.len() {
        if s[i] == '\\' {
            if i + 1 < s.len() {
                lemma_bare_semicolon(s, i + 2);
            }
        } else if s[i] != ';' {
            lemma_bare_semicolon(s, i + 1);
        }
    }
}

/// Where the first `;` stands that no backslash hides.
fn find_bare_semicolon(cs: &[char]) -> (r: usize)
    ensures
        r == bare_semicolon(cs@, 0),
        r <= cs.len(),
{
    let mut i: usize = 0;
    while i < cs.len() && cs[i] != ';'
        invariant
            i <= cs.len(),
            bare_semicolon(cs@, 0) == bare_semicolon(cs@, i as int),
        decreases cs.len() - i,
    {
        if cs[i] == '\\' {
            if cs.len() - i == 1 {
                return cs.len();
            }
            i += 2;
        } else {
            i += 1;
        }
    }
    i
}

/// Splits a text at the first `;` that no backslash hides: the path before it, and
/// what stands behind it.
pub fn split_unescaped_semicolon(s: &str) -> (r: (String, String))
    ensures
        r.0@ == before_semicolon(s@),
        r.1@ == behind_semicolon(s@),
{
    let cs = text::chars_of(s);
    let n: usize = find_bare_semicolon(cs.as_slice());
    let from: usize = if n < cs.len() {
        n + 1
    } else {
        n
    };
    assert(cs@.subrange(0, n as int) == before_semicolon(s@));
    assert(cs@.subrange(from as int, cs@.len() as int) == behind_semicolon(s@));
    (text::string_of(&cs[0..n]), text::string_of(&cs[from..cs.len()]))
}

/// Turns a Hurl filename back into a path.
pub fn unescape_form_file_path(s: &str) -> (r: String)
    ensures
        r@ == unescaped_path(s@),
{
    let cs = text::chars_of(s);
    let mut out = String::new();
    let mut i: usize = 0;
    assert(cs@.skip(0) == cs@);
    assert(out@ + unescaped_path(cs@) == unescaped_path(cs@));
    while i < cs.len()
        invariant
            cs@ == s@,
            i <= cs.len(),
            out@ + unescaped_path(cs@.skip(i as int)) == unescaped_path(cs@),
        decreases cs.len() - i,
    {
        let ghost rest = cs@.skip(i as int);
        let ghost had = out@;
        if cs[i] == '\\' {
            if cs.len() - i == 1 {
                out.push('\\');
                assert(rest == seq!['\\']);
                assert(had.push('\\') == had + rest);
                return out;
            }
            let c: char = cs[i + 1];
            if c == 'n' {
                out.push('\n');
            } else if c == 'r' {
                out.push('\r');
            } else {
                out.push(c);
            }
            assert(rest.skip(2) == cs@.skip(i + 2));
            assert(out@ == had + seq![unescaped_char(c)]);
            assert(out@ + unescaped_path(rest.skip(2)) == had + (seq![unescaped_char(c)]
                + unescaped_path(rest.skip(2))));
            i += 2;
        } else {
            out.push(cs[i]);
            assert(rest.skip(1) == cs@.skip(i + 1));
            assert(out@ + unescaped_path(rest.skip(1)) == had + (seq![rest[0]] + unescaped_path(
                rest.skip(1),
            )));
            i += 1;
        }
    }
    assert(unescaped_path(cs@.skip(i as int)) == Seq::<char>::empty());
    out
}

/// A text field.
pub(crate) fn make_text_field(key: String, value: String) -> (r: FormField)
    ensures
        r.deep_view() == text_field(key@, value@),
{
    FormField {
        key,
        value,
        kind: FormFieldKind::Text,
        content_type: None,
        base64_prefix: None,
        enabled: true,
        desc: String::new(),
    }
}

/// A file field with the given content type as written.
pub(crate) fn make_file_field(key: String, path: String, content_type: Option<String>) -> (r:
    FormField)
    ensures
        r.deep_view() == file_field(key@, path@, content_type.deep_view()),
{
    let prefix = match &content_type {
        Some(ct) => text::strip_prefix(ct.as_str(), writer::BASE64_FILE_CT_MARKER),
        None => None,
    };
    match prefix {
        Some(encoded) => FormField {
            key,
            value: path,
            kind: FormFieldKind::Base64File,
            content_type: None,
            base64_prefix: Some(base64_text::carried(encoded.as_str())),
            enabled: true,
            desc: String::new(),
        },
        None => FormField {
            key,
            value: path,
            kind: FormFieldKind::File,
            content_type,
            base64_prefix: None,
            enabled: true,
            desc: String::new(),
        },
    }
}

/// Parses the `PATH; CONTENT-TYPE` part of a `file,…` value into a field.
pub fn parse_file_form_value(key: &str, spec_text: &str) -> (r: FormField)
    ensures
        r.deep_view() == file_value(key@, spec_text@),
{
    let (before, behind) = split_unescaped_semicolon(spec_text);
    let path = unescape_form_file_path(before.as_str());
    let ct = text::trim(behind.as_str());
    let content_type = if ct.as_str().is_empty() {
        None
    } else {
        Some(ct)
    };
    make_file_field(key.to_owned(), path, content_type)
}

/// Parses one form field's line, without the mark that disables it. `None` when
/// it is no field.
pub(crate) fn parse_form_field_line(body: &str, multipart: bool) -> (r: Option<FormField>)
    ensures
        r.deep_view() == field_on(body@, multipart),
{
    match split_kv(body) {
        Some((key, value)) => {
            if multipart {
                if let Some(spec_text) = text::strip_prefix(value.as_str(), "file,") {
                    return Some(parse_file_form_value(key.as_str(), spec_text.as_str()));
                }
            }
            Some(make_text_field(key, value))
        },
        None => None,
    }
}

/// The disabled fields on the lines from `i` up to `limit`, each with the line
/// it stands on, counted from one. Enabled ones are stepped over.
///
/// A disabled field is read as one that can be a file whatever its section: the
/// section's kind goes by the enabled fields alone.
pub open spec fn disabled_fields_from(
    lines: Seq<Seq<char>>,
    i: int,
    limit: int,
    bounded: bool,
) -> Seq<(int, FieldView)>
    decreases lines.len() - i,
{
    if i < 0 || i >= limit || i >= lines.len() {
        Seq::empty()
    } else {
        let rest = disabled_fields_from(lines, i + 1, limit, bounded);
        let (enabled, body) = uncommented(lines[i]);
        if note_on(lines[i]) is Some {
            rest
        } else {
            match field_on(body, true) {
                Some(f) => if enabled {
                    rest
                } else {
                    seq![(i + 1, FieldView { enabled: false, ..f })] + rest
                },
                None => if bounded {
                    rest
                } else {
                    Seq::empty()
                },
            }
        }
    }
}

/// A list of fields with their lines.
pub open spec fn numbered_fields(v: Seq<(usize, FormField)>) -> Seq<(int, FieldView)> {
    v.map_values(|p: (usize, FormField)| (p.0 as int, p.1.deep_view()))
}

/// Walks a form's section from line `start` on and collects its disabled
/// fields, each with its line counted from one.
pub(crate) fn scan_disabled_form_rows(lines: &[String], start: usize, end: Option<usize>) -> (r:
    Vec<(usize, FormField)>)
    ensures
        numbered_fields(r@) == disabled_fields_from(
            lines.deep_view(),
            start as int,
            limit_of(lines.deep_view(), end),
            end is Some,
        ),
{
    let ghost all = lines.deep_view();
    let limit: usize = scan_limit(lines, end);
    let bounded = end.is_some();
    let mut out: Vec<(usize, FormField)> = Vec::new();
    let mut i: usize = start;
    let ghost want = disabled_fields_from(all, start as int, limit as int, bounded);
    assert(numbered_fields(out@) + want == want);
    while i < limit && i < lines.len()
        invariant
            all == lines.deep_view(),
            limit == limit_of(all, end),
            bounded == end is Some,
            want == disabled_fields_from(all, start as int, limit as int, bounded),
            numbered_fields(out@) + disabled_fields_from(all, i as int, limit as int, bounded)
                == want,
        decreases lines.len() - i,
    {
        let line = lines[i].as_str();
        let ghost done = numbered_fields(out@);
        assert(all[i as int] == line@);
        if desc_line(line).is_none() {
            let (enabled, rest) = uncomment(line);
            match parse_form_field_line(rest.as_str(), true) {
                Some(f) => {
                    if !enabled {
                        let off = FormField {
                            key: f.key,
                            value: f.value,
                            kind: f.kind,
                            content_type: f.content_type,
                            base64_prefix: f.base64_prefix,
                            enabled: false,
                            desc: f.desc,
                        };
                        out.push((i + 1, off));
                        assert(numbered_fields(out@) == done.push((i + 1, off.deep_view())));
                    }
                },
                None => {
                    if !bounded {
                        assert(disabled_fields_from(all, i as int, limit as int, bounded) == Seq::<
                            (int, FieldView),
                        >::empty());
                        return out;
                    }
                },
            }
        }
        i += 1;
    }
    assert(disabled_fields_from(all, i as int, limit as int, bounded) == Seq::<
        (int, FieldView),
    >::empty());
    out
}

/// The first of the note lines that stand directly above line `k`, no further
/// up than `from`.
pub open spec fn note_top(lines: Seq<Seq<char>>, k: int, from: int) -> int
    decreases k - from,
{
    if from < k <= lines.len() && note_on(lines[k - 1]) is Some {
        note_top(lines, k - 1, from)
    } else {
        k
    }
}

/// The note on the lines directly above line `k`, where `k` is a line of the
/// block from `from` up to `limit`.
pub open spec fn note_above(lines: Seq<Seq<char>>, k: int, from: int, limit: int) -> Option<
    Seq<char>,
> {
    let top = note_top(lines, k, from);
    if from <= k < limit && k < lines.len() && note_on(lines[k]) is None && top < k {
        Some(
            text::joined(
                lines.subrange(top, k).map_values(|l: Seq<char>| note_on(l).unwrap()),
                "\n"@,
            ),
        )
    } else {
        None
    }
}

pub proof fn lemma_note_top(lines: Seq<Seq<char>>, k: int, from: int)
    requires
        0 <= from <= k <= lines.len(),
    ensures
        from <= note_top(lines, k, from) <= k,
        forall|j: int| note_top(lines, k, from) <= j < k ==> note_on(#[trigger] lines[j]) is Some,
    decreases k - from,
{
    if from < k && note_on(lines[k - 1]) is Some {
        lemma_note_top(lines, k - 1, from);
    }
}

/// The note on the lines directly above line `k`.
pub(crate) fn read_note_above(lines: &[String], k: usize, from: usize, end: Option<usize>) -> (r:
    Option<String>)
    ensures
        r.deep_view() == note_above(
            lines.deep_view(),
            k as int,
            from as int,
            limit_of(lines.deep_view(), end),
        ),
{
    let ghost all = lines.deep_view();
    let limit: usize = scan_limit(lines, end);
    if k < from || k >= limit || k >= lines.len() {
        return None;
    }
    assert(all[k as int] == lines@[k as int]@);
    if desc_line(lines[k].as_str()).is_some() {
        return None;
    }
    let mut top: usize = k;
    while top > from && desc_line(lines[top - 1].as_str()).is_some()
        invariant
            all == lines.deep_view(),
            from <= top <= k < lines.len(),
            note_top(all, k as int, from as int) == note_top(all, top as int, from as int),
        decreases top,
    {
        assert(all[top - 1] == lines@[top - 1]@);
        top -= 1;
    }
    if top > from {
        assert(all[top - 1] == lines@[top - 1]@);
    }
    if top == k {
        return None;
    }
    proof {
        lemma_note_top(all, k as int, from as int);
    }
    let ghost f = |l: Seq<char>| note_on(l).unwrap();
    let ghost want = all.subrange(top as int, k as int).map_values(f);
    let mut note: Vec<String> = Vec::new();
    for j in top..k
        invariant
            all == lines.deep_view(),
            top <= j <= k < lines.len(),
            f == (|l: Seq<char>| note_on(l).unwrap()),
            want == all.subrange(top as int, k as int).map_values(f),
            forall|m: int| top <= m < k ==> note_on(#[trigger] all[m]) is Some,
            note.len() == j - top,
            forall|m: int| 0 <= m < j - top ==> (#[trigger] note@[m])@ == want[m],
    {
        assert(all[j as int] == lines@[j as int]@);
        if let Some(t) = desc_line(lines[j].as_str()) {
            assert(want[j - top] == t@);
            note.push(t);
        }
    }
    assert(note.deep_view() == want);
    Some(text::join(note.as_slice(), "\n"))
}

// ---------------------------------------------------------------------------
// Titles and request lines
// ---------------------------------------------------------------------------
/// The first line at or below `i` that holds anything but white space and
/// comment; the end of the file where there is none.
pub open spec fn content_from(lines: Seq<Seq<char>>, i: int) -> int
    decreases lines.len() - i,
{
    if i < 0 || i >= lines.len() {
        lines.len() as int
    } else if is_content(lines[i]) {
        i
    } else {
        content_from(lines, i + 1)
    }
}

/// The first of the comment lines that stand directly above line `k`, no
/// further up than `from`.
pub open spec fn comment_top(lines: Seq<Seq<char>>, k: int, from: int) -> int
    decreases k - from,
{
    if from < k <= lines.len() && is_comment(lines[k - 1]) {
        comment_top(lines, k - 1, from)
    } else {
        k
    }
}

/// A line of a title without its marks and its decoration.
pub open spec fn title_words(line: Seq<char>) -> Seq<char> {
    text::trimmed(
        text::without_leading(line, |c: char| c == '#').filter(|c: char| c != '-' && c != '='),
    )
}

/// The lines that have anything left when they are read as a title.
pub open spec fn title_parts(lines: Seq<Seq<char>>) -> Seq<Seq<char>>
    decreases lines.len(),
{
    if lines.len() == 0 {
        Seq::empty()
    } else {
        let before = title_parts(lines.drop_last());
        if title_words(lines.last()).len() == 0 {
            before
        } else {
            before.push(title_words(lines.last()))
        }
    }
}

/// The title of the request whose first line is `method`: the comments directly
/// above it.
pub open spec fn title_above(lines: Seq<Seq<char>>, method: int) -> Seq<char> {
    text::joined(title_parts(lines.subrange(comment_top(lines, method, 0), method)), " "@)
}

/// The first line at or below the line numbered `start`, counted from one, that
/// is neither blank nor comment.
pub(crate) fn first_content(lines: &[String], start: usize) -> (r: usize)
    ensures
        r == content_from(
            lines.deep_view(),
            if start == 0 {
                0
            } else {
                start - 1
            },
        ),
        r <= lines.len(),
{
    let ghost all = lines.deep_view();
    let from: usize = if start == 0 {
        0
    } else {
        start - 1
    };
    let mut i: usize = from;
    while i < lines.len() && !content_line(lines[i].as_str())
        invariant
            all == lines.deep_view(),
            content_from(all, from as int) == content_from(all, i as int),
        decreases lines.len() - i,
    {
        assert(all[i as int] == lines@[i as int]@);
        i += 1;
    }
    if i < lines.len() {
        assert(all[i as int] == lines@[i as int]@);
        i
    } else {
        lines.len()
    }
}

/// The first of the comment lines directly above line `k`.
pub(crate) fn top_of_comments(lines: &[String], k: usize, from: usize) -> (r: usize)
    requires
        k <= lines.len(),
    ensures
        r == comment_top(lines.deep_view(), k as int, from as int),
        r <= k,
{
    let ghost all = lines.deep_view();
    let mut top: usize = k;
    while top > from && comment_line(lines[top - 1].as_str())
        invariant
            all == lines.deep_view(),
            top <= k <= lines.len(),
            comment_top(all, k as int, from as int) == comment_top(all, top as int, from as int),
        decreases top,
    {
        assert(all[top - 1] == lines@[top - 1]@);
        top -= 1;
    }
    if top > from {
        assert(all[top - 1] == lines@[top - 1]@);
    }
    top
}

fn hash_mark(c: char) -> (r: bool)
    ensures
        r == (c == '#'),
{
    c == '#'
}

/// A line of a title without its marks and its decoration.
fn words_of_title(line: &str) -> (r: String)
    ensures
        r@ == title_words(line@),
{
    let cs = text::chars_of(line);
    let marked: &[char] = text::drop_leading(cs.as_slice(), hash_mark, Ghost(|c: char| c == '#'));
    let ghost p = |c: char| c != '-' && c != '=';
    let mut kept: Vec<char> = Vec::new();
    reveal(Seq::filter);
    for i in 0..marked.len()
        invariant
            p == (|c: char| c != '-' && c != '='),
            kept@ == marked@.take(i as int).filter(p),
    {
        reveal(Seq::filter);
        assert(marked@.take(i + 1).drop_last() == marked@.take(i as int));
        if marked[i] != '-' && marked[i] != '=' {
            kept.push(marked[i]);
        }
    }
    assert(marked@.take(marked.len() as int) == marked@);
    text::string_of(text::trim_chars(kept.as_slice()))
}

/// The title of the request whose first line is `method`.
pub(crate) fn read_title(lines: &[String], method: usize) -> (r: String)
    requires
        method <= lines.len(),
    ensures
        r@ == title_above(lines.deep_view(), method as int),
{
    let ghost all = lines.deep_view();
    let top: usize = top_of_comments(lines, method, 0);
    let ghost block = all.subrange(top as int, method as int);
    let mut parts: Vec<String> = Vec::new();
    for j in top..method
        invariant
            all == lines.deep_view(),
            top <= j <= method <= lines.len(),
            block == all.subrange(top as int, method as int),
            parts.deep_view() == title_parts(block.take(j - top)),
    {
        let ghost done = parts.deep_view();
        assert(block.take(j - top + 1).drop_last() == block.take(j - top));
        assert(block.take(j - top + 1).last() == lines@[j as int]@);
        let words = words_of_title(lines[j].as_str());
        if !words.as_str().is_empty() {
            parts.push(words);
            assert(parts.deep_view() == done.push(words@));
        }
    }
    assert(block.take(method - top) == block);
    text::join(parts.as_slice(), " ")
}

// ---------------------------------------------------------------------------
// Reports
// ---------------------------------------------------------------------------
/// Whether a line is the marker of the report fields' block.
pub open spec fn is_reports_line(line: Seq<char>) -> bool {
    match text::without_prefix(text::trimmed_start(line), "#"@) {
        Some(rest) => text::lowered(text::trimmed(rest)) == text::lowered("[Reports]"@),
        None => false,
    }
}

/// The report field on a line: a name that is a single word, and a query.
pub open spec fn report_on(line: Seq<char>) -> Option<(Seq<char>, Seq<char>)> {
    match text::without_prefix(text::trimmed_start(line), "#"@) {
        Some(behind) => {
            let rest = text::trimmed_start(behind);
            let n = text::find(rest, ':');
            let name = text::trimmed(rest.take(n));
            let query = text::trimmed(rest.skip(n + 1));
            if text::begins(rest, "["@) || n >= rest.len() || query.len() == 0
                || !rows::names_variable(name) {
                None
            } else {
                Some((name, query))
            }
        },
        None => None,
    }
}

/// The first marker of a reports block at or below `i` and above `to`; `to`
/// where there is none.
pub open spec fn reports_marker(lines: Seq<Seq<char>>, i: int, to: int) -> int
    decreases to - i,
{
    if i >= to || is_reports_line(lines[i]) {
        i
    } else {
        reports_marker(lines, i + 1, to)
    }
}

/// The first line at or below `i` that carries no report field, no further down
/// than `to`.
pub open spec fn reports_end(lines: Seq<Seq<char>>, i: int, to: int) -> int
    decreases to - i,
{
    if i >= to || report_on(lines[i]) is None {
        i
    } else {
        reports_end(lines, i + 1, to)
    }
}

/// The report fields of the request on the lines from `from` up to `to`.
pub open spec fn reports_in(lines: Seq<Seq<char>>, from: int, to: int) -> Seq<
    (Seq<char>, Seq<char>),
> {
    let m = reports_marker(lines, from, to);
    if m >= to {
        Seq::empty()
    } else {
        lines.subrange(m + 1, reports_end(lines, m + 1, to)).map_values(
            |l: Seq<char>| report_on(l).unwrap(),
        )
    }
}

/// Whether `line` is the marker of the report fields' block.
pub(crate) fn is_reports_marker(line: &str) -> (r: bool)
    ensures
        r == is_reports_line(line@),
{
    let from = text::trim_start(line);
    match text::strip_prefix(from.as_str(), "#") {
        Some(rest) => text::same_ignoring_case(text::trim(rest.as_str()).as_str(), "[Reports]"),
        None => false,
    }
}

/// Parses one `# name: query` report row. The name must be a single word, so
/// that a comment with a colon in it is not taken for one.
pub(crate) fn parse_report_row(line: &str) -> (r: Option<(String, String)>)
    ensures
        r.deep_view() == report_on(line@),
{
    let from = text::trim_start(line);
    match text::strip_prefix(from.as_str(), "#") {
        Some(behind) => {
            let rest = text::trim_start(behind.as_str());
            if text::starts_with(rest.as_str(), "[") {
                return None;
            }
            let cs = text::chars_of(rest.as_str());
            let n: usize = text::find_char(cs.as_slice(), ':', 0);
            if n == cs.len() {
                return None;
            }
            let name = text::string_of(text::trim_chars(&cs[0..n]));
            let query = text::string_of(text::trim_chars(&cs[n + 1..cs.len()]));
            proof {
                assert(cs@.subrange(0, n as int) == rest@.take(n as int));
                assert(cs@.subrange(n + 1, cs@.len() as int) == rest@.skip(n + 1));
            }
            if query.as_str().is_empty() || !rows::is_variable_name(name.as_str()) {
                None
            } else {
                Some((name, query))
            }
        },
        None => None,
    }
}

/// Where the reports block stands on the lines from `from` up to `to`: its
/// marker, and the first line behind its fields. Both are `to` where there is
/// none.
pub(crate) fn find_reports(lines: &[String], from: usize, to: usize) -> (r: (usize, usize))
    requires
        from <= to <= lines.len(),
    ensures
        r.0 == reports_marker(lines.deep_view(), from as int, to as int),
        r.0 < to ==> r.1 == reports_end(lines.deep_view(), r.0 + 1, to as int),
        r.0 >= to ==> r.1 == to,
        from <= r.0 <= to,
        r.0 < to ==> r.0 < r.1,
        r.1 <= to,
{
    let ghost all = lines.deep_view();
    let mut m: usize = from;
    while m < to && !is_reports_marker(lines[m].as_str())
        invariant
            all == lines.deep_view(),
            from <= m <= to <= lines.len(),
            reports_marker(all, from as int, to as int) == reports_marker(all, m as int, to as int),
        decreases to - m,
    {
        assert(all[m as int] == lines@[m as int]@);
        m += 1;
    }
    if m == to {
        return (to, to);
    }
    assert(all[m as int] == lines@[m as int]@);
    let mut e: usize = m + 1;
    while e < to && parse_report_row(lines[e].as_str()).is_some()
        invariant
            all == lines.deep_view(),
            m < e <= to <= lines.len(),
            reports_end(all, m + 1, to as int) == reports_end(all, e as int, to as int),
        decreases to - e,
    {
        assert(all[e as int] == lines@[e as int]@);
        e += 1;
    }
    if e < to {
        assert(all[e as int] == lines@[e as int]@);
    }
    (m, e)
}

proof fn lemma_reports_end(lines: Seq<Seq<char>>, i: int, to: int)
    requires
        0 <= i <= to,
    ensures
        i <= reports_end(lines, i, to) <= to,
        forall|j: int|
            i <= j < reports_end(lines, i, to) ==> report_on(#[trigger] lines[j]) is Some,
    decreases to - i,
{
    if i < to && report_on(lines[i]) is Some {
        lemma_reports_end(lines, i + 1, to);
    }
}

/// The report fields of the request on the lines from `from` up to `to`.
pub(crate) fn read_reports(lines: &[String], from: usize, to: usize) -> (r: Vec<(String, String)>)
    requires
        from <= to <= lines.len(),
    ensures
        r.deep_view() == reports_in(lines.deep_view(), from as int, to as int),
{
    let ghost all = lines.deep_view();
    let (m, e) = find_reports(lines, from, to);
    let mut out: Vec<(String, String)> = Vec::new();
    if m == to {
        assert(out.deep_view() == reports_in(all, from as int, to as int));
        return out;
    }
    proof {
        lemma_reports_end(all, m + 1, to as int);
    }
    let ghost f = |l: Seq<char>| report_on(l).unwrap();
    let ghost want = all.subrange(m + 1, e as int).map_values(f);
    for j in m + 1..e
        invariant
            all == lines.deep_view(),
            m < j <= e <= to <= lines.len(),
            f == (|l: Seq<char>| report_on(l).unwrap()),
            want == all.subrange(m + 1, e as int).map_values(f),
            forall|k: int| m + 1 <= k < e ==> report_on(#[trigger] all[k]) is Some,
            out.len() == j - m - 1,
            forall|k: int| 0 <= k < j - m - 1 ==> (#[trigger] out@[k]).deep_view() == want[k],
    {
        assert(all[j as int] == lines@[j as int]@);
        if let Some(p) = parse_report_row(lines[j].as_str()) {
            assert(want[j - m - 1] == p.deep_view());
            out.push(p);
        }
    }
    assert(out.deep_view() == want);
    out
}

// ---------------------------------------------------------------------------
// Single lines
// ---------------------------------------------------------------------------
/// The line numbered `n`, counted from one, without the white space around it;
/// `None` where there is nothing on it.
pub open spec fn line_numbered(lines: Seq<Seq<char>>, n: usize) -> Option<Seq<char>> {
    if 1 <= n <= lines.len() && !text::is_blank(lines[n - 1]) {
        Some(text::trimmed(lines[n - 1]))
    } else {
        None
    }
}

/// The name and the query of the capture on the line numbered `n`.
pub open spec fn capture_on(lines: Seq<Seq<char>>, n: usize) -> Option<(Seq<char>, Seq<char>)> {
    match line_numbered(lines, n) {
        Some(line) => {
            let c = text::find(line, ':');
            if c < line.len() {
                Some((text::trimmed(line.take(c)), text::trimmed(line.skip(c + 1))))
            } else {
                None
            }
        },
        None => None,
    }
}

/// The trimmed line numbered `n`, if there is anything on it.
pub(crate) fn source_line(lines: &[String], n: usize) -> (r: Option<String>)
    ensures
        r.deep_view() == line_numbered(lines.deep_view(), n),
{
    if n == 0 || n > lines.len() {
        return None;
    }
    assert(lines.deep_view()[n - 1] == lines@[n - 1]@);
    let line = text::trim(lines[n - 1].as_str());
    if line.as_str().is_empty() {
        None
    } else {
        Some(line)
    }
}

/// A `name: query` line split into its name and its query.
pub(crate) fn capture_pair(lines: &[String], n: usize) -> (r: Option<(String, String)>)
    ensures
        r.deep_view() == capture_on(lines.deep_view(), n),
{
    match source_line(lines, n) {
        Some(line) => {
            let cs = text::chars_of(line.as_str());
            let c: usize = text::find_char(cs.as_slice(), ':', 0);
            if c == cs.len() {
                return None;
            }
            let name = text::string_of(text::trim_chars(&cs[0..c]));
            let query = text::string_of(text::trim_chars(&cs[c + 1..cs.len()]));
            proof {
                assert(cs@.subrange(0, c as int) == line@.take(c as int));
                assert(cs@.subrange(c + 1, cs@.len() as int) == line@.skip(c + 1));
            }
            Some((name, query))
        },
        None => None,
    }
}

} // verus!
