//! The request model.
//!
//! A [`HurlEntry`] is one request of a Hurl file, or one the user made: what
//! every editor shows and edits. Each type here has a mathematical view, which
//! the contracts of the other modules speak of.
use vstd::prelude::*;

use crate::text;

verus! {

/// Whether a `[Form]`/`[Multipart]` field is a plain text value, a file upload,
/// or a file whose base64 encoding is sent inline as text.
///
/// A set of `Text` fields is written as `[Form]`; an enabled `File` or
/// `Base64File` field switches the whole section to `[Multipart]`. A
/// `Base64File` field names a file like `File` does, but is sent as a plain
/// text field: its prefix, then the file's base64 encoding.
#[derive(Debug, Clone, Copy, PartialEq, Eq, Structural)]
pub enum FormFieldKind {
    Text,
    File,
    Base64File,
}

impl FormFieldKind {
    /// Whether the field is written with the `file,…` syntax.
    pub open spec fn names_file(self) -> bool {
        self is File || self is Base64File
    }

    /// Whether a field of this kind makes its section `[Multipart]`.
    pub fn is_multipart(&self) -> (r: bool)
        ensures
            r == self.names_file(),
    {
        matches!(self, FormFieldKind::Base64File | FormFieldKind::File)
    }
}

impl Default for FormFieldKind {
    fn default() -> (r: Self)
        ensures
            r == FormFieldKind::Text,
    {
        FormFieldKind::Text
    }
}

/// One row of a `[Form]`/`[Multipart]` section.
#[derive(Debug, PartialEq)]
pub struct FormField {
    pub key: String,
    pub value: String,
    pub kind: FormFieldKind,
    /// Only meaningful for `File` fields: with `None`, Hurl infers the content
    /// type from the file's extension.
    pub content_type: Option<String>,
    /// Only meaningful for `Base64File` fields.
    pub base64_prefix: Option<String>,
    pub enabled: bool,
    /// A note about this field.
    pub desc: String,
}

/// What a [`FormField`] holds.
#[verifier::ext_equal]
pub struct FieldView {
    pub key: Seq<char>,
    pub value: Seq<char>,
    pub kind: FormFieldKind,
    pub content_type: Option<Seq<char>>,
    pub base64_prefix: Option<Seq<char>>,
    pub enabled: bool,
    pub desc: Seq<char>,
}

impl DeepView for FormField {
    type V = FieldView;

    open spec fn deep_view(&self) -> FieldView {
        FieldView {
            key: self.key@,
            value: self.value@,
            kind: self.kind,
            content_type: self.content_type.deep_view(),
            base64_prefix: self.base64_prefix.deep_view(),
            enabled: self.enabled,
            desc: self.desc@,
        }
    }
}

impl Clone for FormField {
    fn clone(&self) -> (r: Self)
        ensures
            r.deep_view() == self.deep_view(),
    {
        FormField {
            key: self.key.clone(),
            value: self.value.clone(),
            kind: self.kind,
            content_type: clone_text(&self.content_type),
            base64_prefix: clone_text(&self.base64_prefix),
            enabled: self.enabled,
            desc: self.desc.clone(),
        }
    }
}

impl Default for FormField {
    fn default() -> (r: Self)
        ensures
            r.deep_view() == (FieldView {
                key: seq![],
                value: seq![],
                kind: FormFieldKind::Text,
                content_type: None,
                base64_prefix: None,
                enabled: false,
                desc: seq![],
            }),
    {
        FormField {
            key: String::new(),
            value: String::new(),
            kind: FormFieldKind::Text,
            content_type: None,
            base64_prefix: None,
            enabled: false,
            desc: String::new(),
        }
    }
}

/// One row of a `[Header]`/`[Cookies]`/`[Query]`/`[Options]` section:
/// `key: value`, whether it is sent, and a free-text note about it.
///
/// Hurl has no notion of a note on a row. It is kept as a `# @desc …` comment
/// line directly above the row, so a file with notes is still one that any
/// other tool runs unchanged.
#[derive(Debug, PartialEq)]
pub struct KvRow {
    pub key: String,
    pub value: String,
    pub enabled: bool,
    /// Empty means "no note".
    pub desc: String,
}

/// What a [`KvRow`] holds.
#[verifier::ext_equal]
pub struct RowView {
    pub key: Seq<char>,
    pub value: Seq<char>,
    pub enabled: bool,
    pub desc: Seq<char>,
}

impl DeepView for KvRow {
    type V = RowView;

    open spec fn deep_view(&self) -> RowView {
        RowView {
            key: self.key@,
            value: self.value@,
            enabled: self.enabled,
            desc: self.desc@,
        }
    }
}

impl Clone for KvRow {
    fn clone(&self) -> (r: Self)
        ensures
            r.deep_view() == self.deep_view(),
    {
        KvRow {
            key: self.key.clone(),
            value: self.value.clone(),
            enabled: self.enabled,
            desc: self.desc.clone(),
        }
    }
}

impl Default for KvRow {
    fn default() -> (r: Self)
        ensures
            r.deep_view() == (RowView {
                key: seq![],
                value: seq![],
                enabled: false,
                desc: seq![],
            }),
    {
        KvRow {
            key: String::new(),
            value: String::new(),
            enabled: false,
            desc: String::new(),
        }
    }
}

impl KvRow {
    /// An enabled row without a note.
    pub fn new(key: &str, value: &str) -> (r: Self)
        ensures
            r.deep_view() == (RowView { key: key@, value: value@, enabled: true, desc: seq![] }),
    {
        KvRow { key: key.to_owned(), value: value.to_owned(), enabled: true, desc: String::new() }
    }

    /// A row with an explicit enabled flag and no note.
    pub fn toggled(key: &str, value: &str, enabled: bool) -> (r: Self)
        ensures
            r.deep_view() == (RowView { key: key@, value: value@, enabled, desc: seq![] }),
    {
        KvRow { key: key.to_owned(), value: value.to_owned(), enabled, desc: String::new() }
    }
}

impl From<(String, String, bool)> for KvRow {
    fn from(row: (String, String, bool)) -> (r: Self)
        ensures
            r.deep_view() == (RowView {
                key: row.0@,
                value: row.1@,
                enabled: row.2,
                desc: seq![],
            }),
    {
        KvRow { key: row.0, value: row.1, enabled: row.2, desc: String::new() }
    }
}

impl vstd::std_specs::convert::FromSpecImpl<(String, String, bool)> for KvRow {
    open spec fn obeys_from_spec() -> bool {
        false
    }

    open spec fn from_spec(row: (String, String, bool)) -> Self {
        arbitrary()
    }
}

impl PartialEq<(String, String, bool)> for KvRow {
    /// Whether the row has this name, value and flag, and no note: a row with one
    /// is more than the triple says.
    fn eq(&self, other: &(String, String, bool)) -> (r: bool)
        ensures
            r == (self.key@ == other.0@ && self.value@ == other.1@ && self.enabled == other.2
                && self.desc@.len() == 0),
    {
        text::same(self.key.as_str(), other.0.as_str()) && text::same(
            self.value.as_str(),
            other.1.as_str(),
        ) && self.enabled == other.2 && self.desc.as_str().is_empty()
    }
}

impl vstd::std_specs::cmp::PartialEqSpecImpl<(String, String, bool)> for KvRow {
    open spec fn obeys_eq_spec() -> bool {
        true
    }

    open spec fn eq_spec(&self, other: &(String, String, bool)) -> bool {
        self.key@ == other.0@ && self.value@ == other.1@ && self.enabled == other.2
            && self.desc@.len() == 0
    }
}

/// Outcome of the most recent pass over an entry's collection.
#[derive(Debug, Clone, Copy, PartialEq, Eq, Structural)]
pub enum RunStatus {
    /// Hasn't run yet this session, or the last pass never reached it.
    NotRun,
    /// A pass is currently running.
    Running,
    Passed,
    Failed,
}

impl Default for RunStatus {
    fn default() -> (r: Self)
        ensures
            r == RunStatus::NotRun,
    {
        RunStatus::NotRun
    }
}

/// The block of an entry that a preserved comment stands before.
///
/// Comments are anchored to the block they precede, not to a line, so they come
/// out at roughly the same place even when unrelated lines are added or
/// removed. The variants stand in the order in which the blocks are written.
#[derive(Debug, Clone, Copy, PartialEq, Eq, Structural)]
pub enum CommentAnchor {
    /// Above the entry's title and method line.
    Lead,
    /// In the header region, between the request line and the first block.
    Headers,
    BasicAuth,
    Cookies,
    Query,
    Form,
    /// Just before the request's `[Options]` section.
    Options,
    Body,
    /// Just before the `HTTP <status>` line.
    Response,
    /// Between the `HTTP <status>` line and the first response block.
    ResponseHeaders,
    Asserts,
    Captures,
    /// Just before the expected response body.
    ResponseBody,
    /// After every other block.
    Trailing,
}

impl Default for CommentAnchor {
    fn default() -> (r: Self)
        ensures
            r == CommentAnchor::Headers,
    {
        CommentAnchor::Headers
    }
}

/// A comment of a `.hurl` file that no other part of the model stands for.
#[derive(Debug, PartialEq, Eq)]
pub struct EntryComment {
    pub anchor: CommentAnchor,
    /// The comment line as it is, its leading `#` included.
    pub text: String,
}

/// What an [`EntryComment`] holds.
#[verifier::ext_equal]
pub struct CommentView {
    pub anchor: CommentAnchor,
    pub text: Seq<char>,
}

impl DeepView for EntryComment {
    type V = CommentView;

    open spec fn deep_view(&self) -> CommentView {
        CommentView { anchor: self.anchor, text: self.text@ }
    }
}

impl Clone for EntryComment {
    fn clone(&self) -> (r: Self)
        ensures
            r.deep_view() == self.deep_view(),
    {
        EntryComment { anchor: self.anchor, text: self.text.clone() }
    }
}

/// A single request of a Hurl file, or one the user made.
#[derive(Debug)]
pub struct HurlEntry {
    /// The entry's display name: the comment block above its method line.
    pub title: String,
    pub method: String,
    pub url: String,
    pub headers: Vec<KvRow>,
    pub basic_auth: Option<(String, String)>,
    pub form_fields: Vec<FormField>,
    pub is_multipart: bool,
    pub queries: Vec<KvRow>,
    pub cookies: Vec<KvRow>,
    /// Request `[Options]` rows, such as `retry: 3`.
    pub options: Vec<KvRow>,
    /// The request body as authored, comments and all. What goes on the wire
    /// and into a `.hurl` file is [`HurlEntry::body_wire`].
    pub body_src: Option<String>,
    pub expected_status: Option<u16>,
    /// The expected HTTP version, such as `HTTP/1.1`; `None` for any.
    pub response_version: Option<String>,
    /// Expected response headers.
    pub response_headers: Vec<KvRow>,
    /// Expected response body.
    pub response_body: Option<String>,
    /// Names and the queries that capture them.
    pub captures: Vec<(String, String)>,
    /// `[Asserts]` expressions as they are written.
    pub asserts: Vec<String>,
    /// Report columns and the queries that fill them, kept in a `# [Reports]`
    /// comment block.
    pub reports: Vec<(String, String)>,
    /// Comments that no other field stands for.
    pub comments: Vec<EntryComment>,
    /// The source text, when it could not be parsed. An entry that has this has
    /// no meaningful method, URL or body.
    pub unparsed: Option<String>,
    /// Made by hand in a collection. Never written to a `.hurl` file.
    pub user_added: bool,
    /// Edited away from its loaded state. Never written to a `.hurl` file.
    pub modified: bool,
    /// A runtime identity; zero means "not stamped yet".
    pub uid: u64,
    pub last_run: RunStatus,
}

/// What a [`HurlEntry`] holds.
#[verifier::ext_equal]
pub struct EntryView {
    pub title: Seq<char>,
    pub method: Seq<char>,
    pub url: Seq<char>,
    pub headers: Seq<RowView>,
    pub basic_auth: Option<(Seq<char>, Seq<char>)>,
    pub form_fields: Seq<FieldView>,
    pub is_multipart: bool,
    pub queries: Seq<RowView>,
    pub cookies: Seq<RowView>,
    pub options: Seq<RowView>,
    pub body_src: Option<Seq<char>>,
    pub expected_status: Option<u16>,
    pub response_version: Option<Seq<char>>,
    pub response_headers: Seq<RowView>,
    pub response_body: Option<Seq<char>>,
    pub captures: Seq<(Seq<char>, Seq<char>)>,
    pub asserts: Seq<Seq<char>>,
    pub reports: Seq<(Seq<char>, Seq<char>)>,
    pub comments: Seq<CommentView>,
    pub unparsed: Option<Seq<char>>,
    pub user_added: bool,
    pub modified: bool,
    pub uid: u64,
    pub last_run: RunStatus,
}

impl DeepView for HurlEntry {
    type V = EntryView;

    open spec fn deep_view(&self) -> EntryView {
        EntryView {
            title: self.title@,
            method: self.method@,
            url: self.url@,
            headers: self.headers.deep_view(),
            basic_auth: self.basic_auth.deep_view(),
            form_fields: self.form_fields.deep_view(),
            is_multipart: self.is_multipart,
            queries: self.queries.deep_view(),
            cookies: self.cookies.deep_view(),
            options: self.options.deep_view(),
            body_src: self.body_src.deep_view(),
            expected_status: self.expected_status,
            response_version: self.response_version.deep_view(),
            response_headers: self.response_headers.deep_view(),
            response_body: self.response_body.deep_view(),
            captures: self.captures.deep_view(),
            asserts: self.asserts.deep_view(),
            reports: self.reports.deep_view(),
            comments: self.comments.deep_view(),
            unparsed: self.unparsed.deep_view(),
            user_added: self.user_added,
            modified: self.modified,
            uid: self.uid,
            last_run: self.last_run,
        }
    }
}

/// An entry with nothing in it.
pub open spec fn blank_entry() -> EntryView {
    EntryView {
        title: seq![],
        method: seq![],
        url: seq![],
        headers: seq![],
        basic_auth: None,
        form_fields: seq![],
        is_multipart: false,
        queries: seq![],
        cookies: seq![],
        options: seq![],
        body_src: None,
        expected_status: None,
        response_version: None,
        response_headers: seq![],
        response_body: None,
        captures: seq![],
        asserts: seq![],
        reports: seq![],
        comments: seq![],
        unparsed: None,
        user_added: false,
        modified: false,
        uid: 0,
        last_run: RunStatus::NotRun,
    }
}

impl Default for HurlEntry {
    fn default() -> (r: Self)
        ensures
            r.deep_view() == blank_entry(),
    {
        let r = HurlEntry {
            title: String::new(),
            method: String::new(),
            url: String::new(),
            headers: Vec::new(),
            basic_auth: None,
            form_fields: Vec::new(),
            is_multipart: false,
            queries: Vec::new(),
            cookies: Vec::new(),
            options: Vec::new(),
            body_src: None,
            expected_status: None,
            response_version: None,
            response_headers: Vec::new(),
            response_body: None,
            captures: Vec::new(),
            asserts: Vec::new(),
            reports: Vec::new(),
            comments: Vec::new(),
            unparsed: None,
            user_added: false,
            modified: false,
            uid: 0,
            last_run: RunStatus::NotRun,
        };
        assert(r.deep_view() =~~= blank_entry());
        r
    }
}

// ---------------------------------------------------------------------------
// Copies
// ---------------------------------------------------------------------------
pub(crate) fn clone_text(t: &Option<String>) -> (r: Option<String>)
    ensures
        r.deep_view() == t.deep_view(),
{
    match t {
        Some(s) => Some(s.clone()),
        None => None,
    }
}

fn clone_rows(rows: &Vec<KvRow>) -> (r: Vec<KvRow>)
    ensures
        r.deep_view() == rows.deep_view(),
{
    let mut out: Vec<KvRow> = Vec::new();
    for i in 0..rows.len()
        invariant
            out.len() == i,
            forall|j: int| 0 <= j < i ==> (#[trigger] out@[j]).deep_view() == rows@[j].deep_view(),
    {
        out.push(rows[i].clone());
    }
    assert(out.deep_view() =~= rows.deep_view());
    out
}

fn clone_fields(fields: &Vec<FormField>) -> (r: Vec<FormField>)
    ensures
        r.deep_view() == fields.deep_view(),
{
    let mut out: Vec<FormField> = Vec::new();
    for i in 0..fields.len()
        invariant
            out.len() == i,
            forall|j: int|
                0 <= j < i ==> (#[trigger] out@[j]).deep_view() == fields@[j].deep_view(),
    {
        out.push(fields[i].clone());
    }
    assert(out.deep_view() =~= fields.deep_view());
    out
}

fn clone_comments(comments: &Vec<EntryComment>) -> (r: Vec<EntryComment>)
    ensures
        r.deep_view() == comments.deep_view(),
{
    let mut out: Vec<EntryComment> = Vec::new();
    for i in 0..comments.len()
        invariant
            out.len() == i,
            forall|j: int|
                0 <= j < i ==> (#[trigger] out@[j]).deep_view() == comments@[j].deep_view(),
    {
        out.push(comments[i].clone());
    }
    assert(out.deep_view() =~= comments.deep_view());
    out
}

fn clone_texts(texts: &Vec<String>) -> (r: Vec<String>)
    ensures
        r.deep_view() == texts.deep_view(),
{
    let mut out: Vec<String> = Vec::new();
    for i in 0..texts.len()
        invariant
            out.len() == i,
            forall|j: int| 0 <= j < i ==> (#[trigger] out@[j])@ == texts@[j]@,
    {
        out.push(texts[i].clone());
    }
    assert(out.deep_view() =~= texts.deep_view());
    out
}

pub(crate) fn clone_pairs(pairs: &Vec<(String, String)>) -> (r: Vec<(String, String)>)
    ensures
        r.deep_view() == pairs.deep_view(),
{
    let mut out: Vec<(String, String)> = Vec::new();
    for i in 0..pairs.len()
        invariant
            out.len() == i,
            forall|j: int|
                0 <= j < i ==> (#[trigger] out@[j]).0@ == pairs@[j].0@ && out@[j].1@
                    == pairs@[j].1@,
    {
        out.push((pairs[i].0.clone(), pairs[i].1.clone()));
    }
    assert(out.deep_view() =~= pairs.deep_view());
    out
}

impl Clone for HurlEntry {
    fn clone(&self) -> (r: Self)
        ensures
            r.deep_view() == self.deep_view(),
    {
        HurlEntry {
            title: self.title.clone(),
            method: self.method.clone(),
            url: self.url.clone(),
            headers: clone_rows(&self.headers),
            basic_auth: match &self.basic_auth {
                Some(pair) => Some((pair.0.clone(), pair.1.clone())),
                None => None,
            },
            form_fields: clone_fields(&self.form_fields),
            is_multipart: self.is_multipart,
            queries: clone_rows(&self.queries),
            cookies: clone_rows(&self.cookies),
            options: clone_rows(&self.options),
            body_src: clone_text(&self.body_src),
            expected_status: self.expected_status,
            response_version: clone_text(&self.response_version),
            response_headers: clone_rows(&self.response_headers),
            response_body: clone_text(&self.response_body),
            captures: clone_pairs(&self.captures),
            asserts: clone_texts(&self.asserts),
            reports: clone_pairs(&self.reports),
            comments: clone_comments(&self.comments),
            unparsed: clone_text(&self.unparsed),
            user_added: self.user_added,
            modified: self.modified,
            uid: self.uid,
            last_run: self.last_run,
        }
    }
}

} // verus!
