//! A parsed Hurl file in plain values.
//!
//! What Hurl's own parser makes of a text, reduced to what the request model is
//! read from: names, values and the lines they stand on. Lines are counted from
//! one.
use vstd::prelude::*;

verus! {

/// One row of a `[Multipart]` section.
#[derive(Debug)]
pub enum PartShape {
    /// A plain text field.
    Text { line: usize, key: String, value: String },
    /// A file field: its path with the escapes resolved, and its content type
    /// as written.
    File { line: usize, key: String, path: String, content_type: Option<String> },
}

/// What a [`PartShape`] holds.
#[verifier::ext_equal]
pub enum PartView {
    Text { line: usize, key: Seq<char>, value: Seq<char> },
    File { line: usize, key: Seq<char>, path: Seq<char>, content_type: Option<Seq<char>> },
}

impl DeepView for PartShape {
    type V = PartView;

    open spec fn deep_view(&self) -> PartView {
        match self {
            PartShape::Text { line, key, value } => PartView::Text {
                line: *line,
                key: key@,
                value: value@,
            },
            PartShape::File { line, key, path, content_type } => PartView::File {
                line: *line,
                key: key@,
                path: path@,
                content_type: content_type.deep_view(),
            },
        }
    }
}

/// What kind of section a request's section is.
#[derive(Debug, Clone, Copy, PartialEq, Eq, Structural)]
pub enum SectionTag {
    BasicAuth,
    Cookies,
    Query,
    Form,
    Multipart,
    Options,
    Other,
}

/// What a request's section holds, as far as it is taken from the parse. The
/// rows of the others are read from the source.
#[derive(Debug)]
pub enum SectionBody {
    BasicAuth(Option<(String, String)>),
    Cookies,
    Query,
    /// Each row's line, name and value.
    Form(Vec<(usize, String, String)>),
    Multipart(Vec<PartShape>),
    Options,
    Other,
}

/// What a [`SectionBody`] holds.
#[verifier::ext_equal]
pub enum SectionBodyView {
    BasicAuth(Option<(Seq<char>, Seq<char>)>),
    Cookies,
    Query,
    Form(Seq<(usize, Seq<char>, Seq<char>)>),
    Multipart(Seq<PartView>),
    Options,
    Other,
}

impl DeepView for SectionBody {
    type V = SectionBodyView;

    open spec fn deep_view(&self) -> SectionBodyView {
        match self {
            SectionBody::BasicAuth(auth) => SectionBodyView::BasicAuth(auth.deep_view()),
            SectionBody::Cookies => SectionBodyView::Cookies,
            SectionBody::Query => SectionBodyView::Query,
            SectionBody::Form(rows) => SectionBodyView::Form(rows.deep_view()),
            SectionBody::Multipart(parts) => SectionBodyView::Multipart(parts.deep_view()),
            SectionBody::Options => SectionBodyView::Options,
            SectionBody::Other => SectionBodyView::Other,
        }
    }
}

impl SectionBodyView {
    /// What kind of section this is.
    pub open spec fn tag(self) -> SectionTag {
        match self {
            SectionBodyView::BasicAuth(_) => SectionTag::BasicAuth,
            SectionBodyView::Cookies => SectionTag::Cookies,
            SectionBodyView::Query => SectionTag::Query,
            SectionBodyView::Form(_) => SectionTag::Form,
            SectionBodyView::Multipart(_) => SectionTag::Multipart,
            SectionBodyView::Options => SectionTag::Options,
            SectionBodyView::Other => SectionTag::Other,
        }
    }
}

/// A request's section, with the line of its header.
#[derive(Debug)]
pub struct SectionShape {
    pub line: usize,
    pub body: SectionBody,
}

/// What a [`SectionShape`] holds.
#[verifier::ext_equal]
pub struct SectionView {
    pub line: usize,
    pub body: SectionBodyView,
}

impl DeepView for SectionShape {
    type V = SectionView;

    open spec fn deep_view(&self) -> SectionView {
        SectionView { line: self.line, body: self.body.deep_view() }
    }
}

/// A body's value: its source text, or the line it has to be taken from.
#[derive(Debug)]
pub enum BodyValue {
    Text(String),
    Line(usize),
}

/// What a [`BodyValue`] holds.
#[verifier::ext_equal]
pub enum BodyValueView {
    Text(Seq<char>),
    Line(usize),
}

impl DeepView for BodyValue {
    type V = BodyValueView;

    open spec fn deep_view(&self) -> BodyValueView {
        match self {
            BodyValue::Text(s) => BodyValueView::Text(s@),
            BodyValue::Line(line) => BodyValueView::Line(*line),
        }
    }
}

/// A body, with the line it begins on and the line its last line feed is on.
#[derive(Debug)]
pub struct BodyShape {
    pub start: usize,
    pub last: usize,
    pub value: BodyValue,
}

/// What a [`BodyShape`] holds.
#[verifier::ext_equal]
pub struct BodyView {
    pub start: usize,
    pub last: usize,
    pub value: BodyValueView,
}

impl DeepView for BodyShape {
    type V = BodyView;

    open spec fn deep_view(&self) -> BodyView {
        BodyView { start: self.start, last: self.last, value: self.value.deep_view() }
    }
}

/// What kind of section a response's section is.
#[derive(Debug, Clone, Copy, PartialEq, Eq, Structural)]
pub enum CheckTag {
    Captures,
    Asserts,
    Other,
}

/// A response's section: the line of its header, and the line of each query in
/// it.
#[derive(Debug)]
pub struct CheckShape {
    pub line: usize,
    pub tag: CheckTag,
    pub queries: Vec<usize>,
}

/// What a [`CheckShape`] holds.
#[verifier::ext_equal]
pub struct CheckView {
    pub line: usize,
    pub tag: CheckTag,
    pub queries: Seq<usize>,
}

impl DeepView for CheckShape {
    type V = CheckView;

    open spec fn deep_view(&self) -> CheckView {
        CheckView { line: self.line, tag: self.tag, queries: self.queries@ }
    }
}

/// The response line of an entry, and how many response headers the parse has.
#[derive(Debug)]
pub struct StatusShape {
    pub line: usize,
    /// `None` for `*`.
    pub status: Option<u64>,
    /// `None` for `HTTP` without a version.
    pub version: Option<String>,
    pub header_count: usize,
}

/// What a [`StatusShape`] holds.
#[verifier::ext_equal]
pub struct StatusView {
    pub line: usize,
    pub status: Option<u64>,
    pub version: Option<Seq<char>>,
    pub header_count: usize,
}

impl DeepView for StatusShape {
    type V = StatusView;

    open spec fn deep_view(&self) -> StatusView {
        StatusView {
            line: self.line,
            status: self.status,
            version: self.version.deep_view(),
            header_count: self.header_count,
        }
    }
}

/// What is expected of a response.
#[derive(Debug)]
pub struct ResponseShape {
    pub head: StatusShape,
    pub sections: Vec<CheckShape>,
    pub body: Option<BodyShape>,
}

/// What a [`ResponseShape`] holds.
#[verifier::ext_equal]
pub struct ResponseView {
    pub head: StatusView,
    pub sections: Seq<CheckView>,
    pub body: Option<BodyView>,
}

impl DeepView for ResponseShape {
    type V = ResponseView;

    open spec fn deep_view(&self) -> ResponseView {
        ResponseView {
            head: self.head.deep_view(),
            sections: self.sections.deep_view(),
            body: self.body.deep_view(),
        }
    }
}

/// An option of a request, as far as running it depends on the parse.
#[derive(Debug)]
pub enum OptionShape {
    /// `retry: N`.
    RetryTimes(usize),
    /// `retry: -1`.
    RetryForever,
    /// `retry: {{name}}`.
    RetryNamed(String),
    /// `retry:` with a function's value.
    RetryComputed,
    /// `variable: NAME=value`.
    Variable(String, String),
    Other,
}

/// What an [`OptionShape`] holds.
#[verifier::ext_equal]
pub enum OptionView {
    RetryTimes(usize),
    RetryForever,
    RetryNamed(Seq<char>),
    RetryComputed,
    Variable(Seq<char>, Seq<char>),
    Other,
}

impl DeepView for OptionShape {
    type V = OptionView;

    open spec fn deep_view(&self) -> OptionView {
        match self {
            OptionShape::RetryTimes(n) => OptionView::RetryTimes(*n),
            OptionShape::RetryForever => OptionView::RetryForever,
            OptionShape::RetryNamed(name) => OptionView::RetryNamed(name@),
            OptionShape::RetryComputed => OptionView::RetryComputed,
            OptionShape::Variable(name, value) => OptionView::Variable(name@, value@),
            OptionShape::Other => OptionView::Other,
        }
    }
}

/// The request line of an entry.
#[derive(Debug)]
pub struct RequestShape {
    /// The line the request's span begins on, which may be one of the comments
    /// above it.
    pub line: usize,
    pub method: String,
    /// The URL as it is written.
    pub url: String,
    /// The URL with its escapes resolved.
    pub plain_url: String,
    pub url_line: usize,
}

/// What a [`RequestShape`] holds.
#[verifier::ext_equal]
pub struct RequestView {
    pub line: usize,
    pub method: Seq<char>,
    pub url: Seq<char>,
    pub plain_url: Seq<char>,
    pub url_line: usize,
}

impl DeepView for RequestShape {
    type V = RequestView;

    open spec fn deep_view(&self) -> RequestView {
        RequestView {
            line: self.line,
            method: self.method@,
            url: self.url@,
            plain_url: self.plain_url@,
            url_line: self.url_line,
        }
    }
}

/// An entry of a parsed Hurl file.
#[derive(Debug)]
pub struct EntryShape {
    pub request: RequestShape,
    pub sections: Vec<SectionShape>,
    pub body: Option<BodyShape>,
    pub options: Vec<OptionShape>,
    pub response: Option<ResponseShape>,
}

/// What an [`EntryShape`] holds.
#[verifier::ext_equal]
pub struct EntryShapeView {
    pub request: RequestView,
    pub sections: Seq<SectionView>,
    pub body: Option<BodyView>,
    pub options: Seq<OptionView>,
    pub response: Option<ResponseView>,
}

impl DeepView for EntryShape {
    type V = EntryShapeView;

    open spec fn deep_view(&self) -> EntryShapeView {
        EntryShapeView {
            request: self.request.deep_view(),
            sections: self.sections.deep_view(),
            body: self.body.deep_view(),
            options: self.options.deep_view(),
            response: self.response.deep_view(),
        }
    }
}

/// Why a text is not a Hurl file, as far as it is told apart.
#[derive(Debug)]
pub enum FaultKind {
    /// An unknown request section, by its name.
    Section(String),
    Method,
    Version,
    Status,
    Url,
    Other,
}

/// What a [`FaultKind`] holds.
#[verifier::ext_equal]
pub enum FaultKindView {
    Section(Seq<char>),
    Method,
    Version,
    Status,
    Url,
    Other,
}

impl DeepView for FaultKind {
    type V = FaultKindView;

    open spec fn deep_view(&self) -> FaultKindView {
        match self {
            FaultKind::Section(name) => FaultKindView::Section(name@),
            FaultKind::Method => FaultKindView::Method,
            FaultKind::Version => FaultKindView::Version,
            FaultKind::Status => FaultKindView::Status,
            FaultKind::Url => FaultKindView::Url,
            FaultKind::Other => FaultKindView::Other,
        }
    }
}

/// Why a text is not a Hurl file.
#[derive(Debug)]
pub struct Fault {
    pub line: usize,
    pub kind: FaultKind,
    /// The parser's description of it.
    pub description: String,
    /// The parser's own name for it.
    pub debug: String,
}

/// What a [`Fault`] holds.
#[verifier::ext_equal]
pub struct FaultView {
    pub line: usize,
    pub kind: FaultKindView,
    pub description: Seq<char>,
    pub debug: Seq<char>,
}

impl DeepView for Fault {
    type V = FaultView;

    open spec fn deep_view(&self) -> FaultView {
        FaultView {
            line: self.line,
            kind: self.kind.deep_view(),
            description: self.description@,
            debug: self.debug@,
        }
    }
}

} // verus!
