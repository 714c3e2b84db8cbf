//! Making requests, and what has to hold before one is sent.
use vstd::prelude::*;

use crate::entry;
use crate::entry::{EntryView, FieldView, FormField, HurlEntry, KvRow, RowView};
use crate::json_comments;
use crate::params;
use crate::source;
use crate::text;
use crate::writer;

verus! {

// ---------------------------------------------------------------------------
// Making entries
// ---------------------------------------------------------------------------
/// The first line of `s` with anything on it, without the white space around
/// it; nothing where there is none.
pub open spec fn first_line_with_text(lines: Seq<Seq<char>>) -> Seq<char>
    decreases lines.len(),
{
    if lines.len() == 0 {
        Seq::empty()
    } else if text::trimmed(lines.first()).len() > 0 {
        text::trimmed(lines.first())
    } else {
        first_line_with_text(lines.drop_first())
    }
}

/// The first of some lines that is a comment, without the white space around it.
pub open spec fn first_comment(lines: Seq<Seq<char>>) -> Option<Seq<char>>
    decreases lines.len(),
{
    if lines.len() == 0 {
        None
    } else if source::is_comment(lines.first()) {
        Some(text::trimmed(lines.first()))
    } else {
        first_comment(lines.drop_first())
    }
}

/// The line that an unreadable text is known by: its first comment, or its first
/// line with anything on it where it has none.
pub open spec fn heading(lines: Seq<Seq<char>>) -> Seq<char> {
    match first_comment(lines) {
        Some(line) => line,
        None => first_line_with_text(lines),
    }
}

/// What an unreadable text is called: its heading, without the marks of a
/// comment, and cut short.
pub open spec fn recovered_title(s: Seq<char>) -> Seq<char> {
    let line = text::trimmed(
        text::without_leading(heading(text::lines_of(s)), |c: char| c == '#'),
    );
    params::at_most(line, 80)
}

/// The rows that have a name, each without white space around its name and
/// value.
pub open spec fn tidy_rows(all: Seq<RowView>) -> Seq<RowView>
    decreases all.len(),
{
    if all.len() == 0 {
        Seq::empty()
    } else {
        let row = all.last();
        let before = tidy_rows(all.drop_last());
        if text::trimmed(row.key).len() == 0 {
            before
        } else {
            before.push(
                RowView {
                    key: text::trimmed(row.key),
                    value: text::trimmed(row.value),
                    enabled: row.enabled,
                    desc: row.desc,
                },
            )
        }
    }
}

fn hash_mark(c: char) -> (r: bool)
    ensures
        r == (c == '#'),
{
    c == '#'
}

impl HurlEntry {
    /// An entry for text that could not be parsed: kept as it is, shown in the
    /// list, and written back unchanged. Its title is its first comment, or its
    /// first line with anything on it where it has none.
    pub fn unreadable(text: &str) -> (r: Self)
        ensures
            r.deep_view() == (EntryView {
                title: recovered_title(text@),
                unparsed: Some(text@),
                ..entry::blank_entry()
            }),
    {
        let all = text::lines(text);
        let ghost lines = all.deep_view();
        let mut first = String::new();
        let mut i: usize = 0;
        assert(lines.skip(0) == lines);
        while i < all.len()
            invariant_except_break
                i <= all.len(),
                lines == all.deep_view(),
                first_comment(lines) == first_comment(lines.skip(i as int)),
                first_line_with_text(lines) == (if first@.len() > 0 {
                    first@
                } else {
                    first_line_with_text(lines.skip(i as int))
                }),
            ensures
                first@ == heading(lines),
            decreases all.len() - i,
        {
            assert(lines[i as int] == all@[i as int]@);
            assert(lines.skip(i as int).first() == lines[i as int]);
            assert(lines.skip(i as int).drop_first() == lines.skip(i + 1));
            let line = text::trim(all[i].as_str());
            if source::comment_line(all[i].as_str()) {
                first = line;
                break;
            }
            if first.as_str().is_empty() {
                first = line;
            }
            i += 1;
        }
        let cs = text::chars_of(first.as_str());
        let marked: &[char] = text::drop_leading(
            cs.as_slice(),
            hash_mark,
            Ghost(|c: char| c == '#'),
        );
        let line: &[char] = text::trim_chars(marked);
        let n: usize = if line.len() <= 80 {
            line.len()
        } else {
            80
        };
        let title = text::string_of(&line[0..n]);
        assert(title@ == recovered_title(text@));
        let mut r = HurlEntry::default();
        r.title = title;
        r.unparsed = Some(text.to_owned());
        r
    }

    /// Whether this is text that could not be parsed. Sending it, or editing it
    /// as fields, is meaningless.
    pub fn is_unreadable(&self) -> (r: bool)
        ensures
            r == self.unparsed is Some,
    {
        self.unparsed.is_some()
    }

    /// Builds an entry from what the user entered. Rows without a name are
    /// dropped and the others trimmed, and an empty body is none.
    pub fn from_fields(
        name: &str,
        method: &str,
        url: &str,
        headers: Vec<KvRow>,
        body: &str,
    ) -> (r: Self)
        ensures
            r.deep_view() == (EntryView {
                title: writer::on_one_line(name@),
                method: method@,
                url: text::trimmed(url@),
                headers: tidy_rows(headers.deep_view()),
                body_src: if text::is_blank(body@) {
                    None
                } else {
                    Some(body@)
                },
                ..entry::blank_entry()
            }),
    {
        let ghost all = headers.deep_view();
        let mut tidy: Vec<KvRow> = Vec::new();
        for i in 0..headers.len()
            invariant
                all == headers.deep_view(),
                tidy.deep_view() == tidy_rows(all.take(i as int)),
        {
            let row: &KvRow = &headers[i];
            assert(all.take(i + 1).drop_last() == all.take(i as int));
            assert(all.take(i + 1).last() == row.deep_view());
            let key = text::trim(row.key.as_str());
            if !key.as_str().is_empty() {
                let ghost done = tidy.deep_view();
                let kept = KvRow {
                    key,
                    value: text::trim(row.value.as_str()),
                    enabled: row.enabled,
                    desc: row.desc.clone(),
                };
                tidy.push(kept);
                assert(tidy.deep_view() == done.push(kept.deep_view()));
            }
        }
        assert(all.take(all.len() as int) == all);
        let mut r = HurlEntry::default();
        r.title = writer::single_line(name);
        r.method = method.to_owned();
        r.url = text::trim(url);
        r.headers = tidy;
        r.body_src = if text::blank(body) {
            None
        } else {
            Some(body.to_owned())
        };
        r
    }
}

// ---------------------------------------------------------------------------
// Before sending
// ---------------------------------------------------------------------------
/// Whether two texts differ in nothing but the case of their ASCII letters.
pub open spec fn same_name(a: Seq<char>, b: Seq<char>) -> bool {
    text::lowered(a) == text::lowered(b)
}

/// Whether requests of a method normally carry a body.
pub open spec fn carries_body(method: Seq<char>) -> bool {
    ||| same_name(method, "POST"@)
    ||| same_name(method, "PUT"@)
    ||| same_name(method, "PATCH"@)
    ||| same_name(method, "DELETE"@)
}

/// Whether a header of that name is among the rows.
pub open spec fn has_header(headers: Seq<RowView>, name: Seq<char>) -> bool {
    exists|i: int| 0 <= i < headers.len() && same_name((#[trigger] headers[i]).key, name)
}

/// Whether a request needs a length said of the body it does not have: its
/// method carries one, it has neither body nor form, and no length is said.
pub open spec fn lacks_length(e: EntryView) -> bool {
    &&& carries_body(e.method)
    &&& e.body_src is Some ==> text::is_blank(json_comments::wire(e.body_src.unwrap()))
    &&& e.form_fields.len() == 0
    &&& !has_header(e.headers, "content-length"@)
}

/// Where the first enabled file field without a path stands; the length where
/// there is none.
pub open spec fn empty_file_field(fields: Seq<FieldView>) -> int
    decreases fields.len(),
{
    if fields.len() == 0 || (fields.first().enabled && fields.first().kind.names_file()
        && text::is_blank(fields.first().value)) {
        0
    } else {
        1 + empty_file_field(fields.drop_first())
    }
}

impl HurlEntry {
    /// Adds an explicit `Content-Length: 0` header to a request without a body
    /// whose method normally carries one.
    ///
    /// Browsers send it, and some servers turn such a request down without it.
    /// Nothing is added where there is a body or a form, or where the header is
    /// there already. Only for the copy that is sent, never for what is saved.
    pub fn ensure_run_content_length(&mut self)
        ensures
            final(self).deep_view() == (EntryView {
                headers: if lacks_length(old(self).deep_view()) {
                    old(self).headers.deep_view().push(
                        RowView {
                            key: "Content-Length"@,
                            value: "0"@,
                            enabled: true,
                            desc: seq![],
                        },
                    )
                } else {
                    old(self).headers.deep_view()
                },
                ..old(self).deep_view()
            }),
    {
        let method = self.method.as_str();
        let carries = text::same_ignoring_case(method, "POST") || text::same_ignoring_case(
            method,
            "PUT",
        ) || text::same_ignoring_case(method, "PATCH") || text::same_ignoring_case(
            method,
            "DELETE",
        );
        let has_body = match &self.body_src {
            Some(src) => !text::blank(json_comments::wire_text(src.as_str()).as_str()),
            None => false,
        };
        let ghost all = self.headers.deep_view();
        let mut said = false;
        for i in 0..self.headers.len()
            invariant
                all == self.headers.deep_view(),
                said == exists|j: int|
                    0 <= j < i && same_name((#[trigger] all[j]).key, "content-length"@),
        {
            assert(all[i as int] == self.headers@[i as int].deep_view());
            if text::same_ignoring_case(self.headers[i].key.as_str(), "content-length") {
                said = true;
            }
        }
        assert(said == has_header(all, "content-length"@));
        if carries && !has_body && !said && self.form_fields.len() == 0 {
            let row = KvRow::new("Content-Length", "0");
            self.headers.push(row);
            assert(self.headers.deep_view() == all.push(row.deep_view()));
        }
    }

    /// Whether this request carries both a raw body and enabled form fields.
    ///
    /// Hurl sends the body in the form's place, labelled as a form: the request
    /// succeeds having sent the wrong thing. Any body counts, even a stray
    /// space; only enabled fields do, since a disabled one never reaches the
    /// wire.
    pub fn body_form_conflict(&self) -> (r: bool)
        ensures
            r == (self.body_src is Some && exists|i: int|
                0 <= i < self.form_fields@.len() && (#[trigger] self.form_fields@[i]).enabled),
    {
        if self.body_src.is_none() {
            return false;
        }
        for i in 0..self.form_fields.len()
            invariant
                forall|j: int| 0 <= j < i ==> !(#[trigger] self.form_fields@[j]).enabled,
                self.body_src is Some,
        {
            if self.form_fields[i].enabled {
                return true;
            }
        }
        false
    }

    /// The key of the first enabled file field with an empty path, if any: it
    /// would be written as a line that can't be read back.
    pub fn first_empty_file_field(&self) -> (r: Option<&str>)
        ensures
            ({
                let all = self.form_fields.deep_view();
                let i = empty_file_field(all);
                match r {
                    Some(key) => 0 <= i < all.len() && key@ == all[i].key,
                    None => i == all.len(),
                }
            }),
    {
        let ghost all = self.form_fields.deep_view();
        let mut i: usize = 0;
        assert(all.skip(0) == all);
        while i < self.form_fields.len()
            invariant
                all == self.form_fields.deep_view(),
                i <= self.form_fields.len(),
                empty_file_field(all) == i + empty_file_field(all.skip(i as int)),
            decreases self.form_fields.len() - i,
        {
            let f: &FormField = &self.form_fields[i];
            assert(all.skip(i as int).first() == f.deep_view());
            if f.enabled && f.kind.is_multipart() && text::blank(f.value.as_str()) {
                return Some(f.key.as_str());
            }
            assert(all.skip(i as int).drop_first() == all.skip(i + 1));
            i += 1;
        }
        None
    }
}

// ---------------------------------------------------------------------------
// Expectations and methods
// ---------------------------------------------------------------------------
/// The status that a plain `status == <code>` expression checks.
pub open spec fn status_checked(expr: Seq<char>) -> Option<nat> {
    match text::without_prefix(text::trimmed(expr), "status"@) {
        Some(rest) => match text::without_prefix(text::trimmed_start(rest), "=="@) {
            Some(code) => text::number_in(text::trimmed(code), u16::MAX as nat),
            None => None,
        },
        None => None,
    }
}

/// Recognises a `status == <code>` assert and returns the code it checks.
///
/// It says the same as the `HTTP <code>` response line, so the check is kept
/// once, as the entry's expected status. Anything but a plain equality on
/// `status` is an ordinary assert.
pub fn status_eq_code(expr: &str) -> (r: Option<u16>)
    ensures
        r is Some == status_checked(expr@) is Some,
        r matches Some(code) ==> status_checked(expr@) == Some(code as nat),
{
    let whole = text::trim(expr);
    match text::strip_prefix(whole.as_str(), "status") {
        Some(rest) => {
            let op = text::trim_start(rest.as_str());
            match text::strip_prefix(op.as_str(), "==") {
                Some(code) => {
                    let digits = text::trim(code.as_str());
                    match text::parse_number(digits.as_str(), u16::MAX as u64) {
                        Some(n) => Some(n as u16),
                        None => None,
                    }
                },
                None => None,
            }
        },
        None => None,
    }
}

/// HTTP methods offered when making a request.
pub const METHODS: [&'static str; 6] = ["GET", "POST", "PUT", "PATCH", "DELETE", "HEAD"];

/// The colour that badges an HTTP method; `None` for an unknown one.
pub open spec fn badge_of(method: Seq<char>) -> Option<(u8, u8, u8)> {
    if method == "GET"@ {
        Some((97u8, 175u8, 239u8))
    } else if method == "POST"@ {
        Some((73u8, 204u8, 144u8))
    } else if method == "PUT"@ {
        Some((252u8, 161u8, 48u8))
    } else if method == "DELETE"@ {
        Some((248u8, 81u8, 73u8))
    } else if method == "PATCH"@ {
        Some((80u8, 227u8, 194u8))
    } else if method == "ANY"@ {
        Some((252u8, 161u8, 48u8))
    } else {
        None
    }
}

/// The RGB colour used to badge each HTTP method. `None` for unknown ones, for
/// which callers fall back to a neutral colour of their own.
pub fn method_rgb(method: &str) -> (r: Option<(u8, u8, u8)>)
    ensures
        r == badge_of(method@),
{
    if text::same(method, "GET") {
        Some((97, 175, 239))
    } else if text::same(method, "POST") {
        Some((73, 204, 144))
    } else if text::same(method, "PUT") {
        Some((252, 161, 48))
    } else if text::same(method, "DELETE") {
        Some((248, 81, 73))
    } else if text::same(method, "PATCH") {
        Some((80, 227, 194))
    } else if text::same(method, "ANY") {
        Some((252, 161, 48))
    } else {
        None
    }
}

} // verus!
