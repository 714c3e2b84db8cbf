//! Reading Hurl text into the request model.
//!
//! Hurl's own parser says where everything stands; what has to keep its exact
//! text, and what the parser passes over as comments, is taken from the source
//! lines. Lines are counted from nought in the windows here, and from one in
//! what the parser hands back.
use vstd::prelude::*;

use crate::body_notes;
use crate::comment_scan;
use crate::comment_scan::{Scan, Window};
use crate::entry;
use crate::entry::{
    CommentAnchor, EntryComment, EntryView, FieldView, FormField, HurlEntry, KvRow, RowView,
    RunStatus,
};
use crate::hurl_ast;
use crate::order;
use crate::shape::{
    BodyShape, BodyValue, BodyValueView, BodyView, CheckShape, CheckTag, CheckView, EntryShape,
    EntryShapeView, Fault, FaultKind, FaultKindView, FaultView, PartShape, PartView, ResponseShape,
    ResponseView, SectionBody, SectionBodyView, SectionShape, SectionView,
};
use crate::source;
use crate::text;

verus! {

// ---------------------------------------------------------------------------
// Where blocks begin and end
// ---------------------------------------------------------------------------
/// The least of some lines that stand below `after`.
pub open spec fn least_below(s: Seq<usize>, after: int) -> Option<usize>
    decreases s.len(),
{
    if s.len() == 0 {
        None
    } else {
        let rest = least_below(s.drop_last(), after);
        if s.last() > after && (rest is None || s.last() < rest.unwrap()) {
            Some(s.last())
        } else {
            rest
        }
    }
}

/// The lines that bound the headers and the rows of each section: the request's
/// sections, its body, and the response's line.
pub open spec fn anchors(e: EntryShapeView) -> Seq<usize> {
    e.sections.map_values(|s: SectionView| s.line) + (match e.body {
        Some(b) => seq![b.start],
        None => seq![],
    }) + (match e.response {
        Some(r) => seq![r.head.line],
        None => seq![],
    })
}

/// The lines that bound a response's headers: its sections and its body.
pub open spec fn response_anchors(r: ResponseView) -> Seq<usize> {
    r.sections.map_values(|s: CheckView| s.line) + (match r.body {
        Some(b) => seq![b.start],
        None => seq![],
    })
}

/// The block that a request's section is.
pub open spec fn section_anchor(body: SectionBodyView) -> Option<CommentAnchor> {
    match body {
        SectionBodyView::BasicAuth(_) => Some(CommentAnchor::BasicAuth),
        SectionBodyView::Cookies => Some(CommentAnchor::Cookies),
        SectionBodyView::Query => Some(CommentAnchor::Query),
        SectionBodyView::Form(_) => Some(CommentAnchor::Form),
        SectionBodyView::Multipart(_) => Some(CommentAnchor::Form),
        SectionBodyView::Options => Some(CommentAnchor::Options),
        SectionBodyView::Other => None,
    }
}

/// The block that a response's section is.
pub open spec fn check_anchor(tag: CheckTag) -> Option<CommentAnchor> {
    match tag {
        CheckTag::Asserts => Some(CommentAnchor::Asserts),
        CheckTag::Captures => Some(CommentAnchor::Captures),
        CheckTag::Other => None,
    }
}

/// A line's place counted from nought.
pub open spec fn place(line: usize) -> int {
    if line == 0 {
        0
    } else {
        line - 1
    }
}

/// Where a request's sections begin.
pub open spec fn section_marks(sections: Seq<SectionView>) -> Seq<(int, CommentAnchor)>
    decreases sections.len(),
{
    if sections.len() == 0 {
        Seq::empty()
    } else {
        let before = section_marks(sections.drop_last());
        match section_anchor(sections.last().body) {
            Some(anchor) => before.push((place(sections.last().line), anchor)),
            None => before,
        }
    }
}

/// Where a response's sections begin.
pub open spec fn check_marks(sections: Seq<CheckView>) -> Seq<(int, CommentAnchor)>
    decreases sections.len(),
{
    if sections.len() == 0 {
        Seq::empty()
    } else {
        let before = check_marks(sections.drop_last());
        match check_anchor(sections.last().tag) {
            Some(anchor) => before.push((place(sections.last().line), anchor)),
            None => before,
        }
    }
}

/// Where a body begins.
pub open spec fn body_mark(body: Option<BodyView>, anchor: CommentAnchor) -> Seq<
    (int, CommentAnchor),
> {
    match body {
        Some(b) => seq![(place(b.start), anchor)],
        None => seq![],
    }
}

/// The expected headers of a response.
pub open spec fn headers_expected(lines: Seq<Seq<char>>, r: ResponseView) -> Seq<RowView> {
    source::rows_in(lines, r.head.line as int, least_below(response_anchors(r), -1))
}

/// Whether any row is disabled.
pub open spec fn some_disabled(rows: Seq<RowView>) -> bool {
    exists|i: int| 0 <= i < rows.len() && !(#[trigger] rows[i]).enabled
}

/// Where the blocks of a response begin. Its headers begin below its line, if
/// there are any, be they disabled.
pub open spec fn response_marks(lines: Seq<Seq<char>>, r: ResponseView) -> Seq<
    (int, CommentAnchor),
> {
    let headed = r.head.header_count > 0 || some_disabled(headers_expected(lines, r));
    seq![(place(r.head.line), CommentAnchor::Response)] + (if headed {
        seq![(place(r.head.line) + 1, CommentAnchor::ResponseHeaders)]
    } else {
        seq![]
    }) + check_marks(r.sections) + body_mark(r.body, CommentAnchor::ResponseBody)
}

/// Where the blocks of an entry begin, from the top down.
pub open spec fn landmarks(lines: Seq<Seq<char>>, e: EntryShapeView) -> Seq<(int, CommentAnchor)> {
    order::by_line(
        section_marks(e.sections) + body_mark(e.body, CommentAnchor::Body) + (match e.response {
            Some(r) => response_marks(lines, r),
            None => seq![],
        }),
    )
}

/// The first and last line of a body.
pub open spec fn body_span(body: Option<BodyView>) -> Seq<(usize, usize)> {
    match body {
        Some(b) => seq![(b.start, b.last)],
        None => seq![],
    }
}

/// The lines of an entry, from its method's line to the next entry's.
pub open spec fn window_of(lines: Seq<Seq<char>>, e: EntryShapeView, method: int, end: int) -> Window {
    Window {
        lines,
        landmarks: landmarks(lines, e),
        bodies: body_span(e.body) + body_span(
            match e.response {
                Some(r) => r.body,
                None => None,
            },
        ),
        method,
        end,
    }
}

// ---------------------------------------------------------------------------
// What the parts hold
// ---------------------------------------------------------------------------
/// The last section that is a given block.
pub open spec fn last_section(sections: Seq<SectionView>, anchor: CommentAnchor) -> Option<
    SectionView,
>
    decreases sections.len(),
{
    if sections.len() == 0 {
        None
    } else if section_anchor(sections.last().body) == Some(anchor) {
        Some(sections.last())
    } else {
        last_section(sections.drop_last(), anchor)
    }
}

/// The rows of the last section that is a given block.
pub open spec fn rows_of_section(
    lines: Seq<Seq<char>>,
    e: EntryShapeView,
    anchor: CommentAnchor,
) -> Seq<RowView> {
    match last_section(e.sections, anchor) {
        Some(s) => source::rows_in(lines, s.line as int, least_below(anchors(e), s.line as int)),
        None => Seq::empty(),
    }
}

/// The last user name and password given.
pub open spec fn auth_in(sections: Seq<SectionView>) -> Option<(Seq<char>, Seq<char>)>
    decreases sections.len(),
{
    if sections.len() == 0 {
        None
    } else {
        match sections.last().body {
            SectionBodyView::BasicAuth(Some(pair)) => Some(pair),
            _ => auth_in(sections.drop_last()),
        }
    }
}

/// The enabled fields of a form, with their lines.
pub open spec fn fields_given(body: SectionBodyView) -> Seq<(int, FieldView)> {
    match body {
        SectionBodyView::Form(rows) => rows.map_values(
            |row: (usize, Seq<char>, Seq<char>)|
                (row.0 as int, source::text_field(row.1, row.2)),
        ),
        SectionBodyView::Multipart(parts) => parts.map_values(|p: PartView| part_field(p)),
        _ => Seq::empty(),
    }
}

/// A row of a `[Multipart]` section as a field, with its line.
pub open spec fn part_field(p: PartView) -> (int, FieldView) {
    match p {
        PartView::Text { line, key, value } => (line as int, source::text_field(key, value)),
        PartView::File { line, key, path, content_type } => (
            line as int,
            source::file_field(key, path, content_type),
        ),
    }
}

/// A field with the note above its line.
pub open spec fn noted(
    lines: Seq<Seq<char>>,
    row: (int, FieldView),
    from: int,
    limit: int,
) -> FieldView {
    FieldView {
        desc: match source::note_above(lines, row.0 - 1, from, limit) {
            Some(note) => note,
            None => row.1.desc,
        },
        ..row.1
    }
}

/// The fields of a form: the enabled ones from the parse, the disabled ones from
/// the source, in the order of their lines, each with its note.
pub open spec fn fields_of_section(
    lines: Seq<Seq<char>>,
    s: SectionView,
    end: Option<usize>,
) -> Seq<FieldView> {
    let limit = source::limit_of(lines, end);
    order::by_line(
        fields_given(s.body) + source::disabled_fields_from(
            lines,
            s.line as int,
            limit,
            end is Some,
        ),
    ).map_values(|row: (int, FieldView)| noted(lines, row, s.line as int, limit))
}

/// The form fields of an entry.
pub open spec fn form_of(lines: Seq<Seq<char>>, e: EntryShapeView) -> Seq<FieldView> {
    match last_section(e.sections, CommentAnchor::Form) {
        Some(s) => fields_of_section(lines, s, least_below(anchors(e), s.line as int)),
        None => Seq::empty(),
    }
}

/// Whether a form has an enabled field that names a file.
pub open spec fn sends_file(fields: Seq<FieldView>) -> bool {
    exists|i: int|
        0 <= i < fields.len() && (#[trigger] fields[i]).enabled && fields[i].kind.names_file()
}

/// A body's text, if there is any.
pub open spec fn body_text_of(lines: Seq<Seq<char>>, body: Option<BodyView>) -> Option<Seq<char>> {
    match body {
        Some(b) => {
            let s = match b.value {
                BodyValueView::Text(s) => Some(s),
                BodyValueView::Line(n) => source::line_numbered(lines, n),
            };
            if s is Some && !text::is_blank(s.unwrap()) {
                Some(text::trimmed(s.unwrap()))
            } else {
                None
            }
        },
        None => None,
    }
}

/// The last section of a response with a given tag.
pub open spec fn last_check(sections: Seq<CheckView>, tag: CheckTag) -> Option<CheckView>
    decreases sections.len(),
{
    if sections.len() == 0 {
        None
    } else if sections.last().tag == tag {
        Some(sections.last())
    } else {
        last_check(sections.drop_last(), tag)
    }
}

/// The captures on some lines.
pub open spec fn captures_on(lines: Seq<Seq<char>>, queries: Seq<usize>) -> Seq<
    (Seq<char>, Seq<char>),
>
    decreases queries.len(),
{
    if queries.len() == 0 {
        Seq::empty()
    } else {
        let before = captures_on(lines, queries.drop_last());
        match source::capture_on(lines, queries.last()) {
            Some(pair) => before.push(pair),
            None => before,
        }
    }
}

/// The assertions on some lines.
pub open spec fn asserts_on(lines: Seq<Seq<char>>, queries: Seq<usize>) -> Seq<Seq<char>>
    decreases queries.len(),
{
    if queries.len() == 0 {
        Seq::empty()
    } else {
        let before = asserts_on(lines, queries.drop_last());
        match source::line_numbered(lines, queries.last()) {
            Some(line) => before.push(line),
            None => before,
        }
    }
}

/// An entry with what is expected of its response.
pub open spec fn with_response(
    lines: Seq<Seq<char>>,
    e: EntryView,
    response: Option<ResponseView>,
) -> EntryView {
    match response {
        Some(r) => EntryView {
            expected_status: match r.head.status {
                Some(n) => Some(n as u16),
                None => None,
            },
            response_version: r.head.version,
            response_headers: headers_expected(lines, r),
            response_body: body_text_of(lines, r.body),
            captures: match last_check(r.sections, CheckTag::Captures) {
                Some(c) => captures_on(lines, c.queries),
                None => Seq::empty(),
            },
            asserts: match last_check(r.sections, CheckTag::Asserts) {
                Some(c) => asserts_on(lines, c.queries),
                None => Seq::empty(),
            },
            ..e
        },
        None => e,
    }
}

/// An entry whose comments hold its body as it was authored, with that as its
/// body and those comments gone.
pub open spec fn with_authored_body(e: EntryView) -> EntryView {
    let block = match e.body_src {
        Some(b) => body_notes::body_block_in(e.comments, Some(b)),
        None => None,
    };
    match block {
        Some(b) => EntryView {
            body_src: Some(b.1),
            comments: body_notes::comments_without(e.comments, b.0),
            ..e
        },
        None => e,
    }
}

/// The request that an entry of a parsed file stands for, given the line of its
/// method and where its window ends.
pub open spec fn entry_of(
    lines: Seq<Seq<char>>,
    e: EntryShapeView,
    method: int,
    end: int,
    first: bool,
) -> EntryView {
    let fields = form_of(lines, e);
    with_authored_body(
        with_response(
            lines,
            EntryView {
                title: source::title_above(lines, method),
                method: e.request.method,
                url: e.request.url,
                headers: source::rows_in(
                    lines,
                    e.request.url_line as int,
                    least_below(anchors(e), e.request.url_line as int),
                ),
                basic_auth: auth_in(e.sections),
                form_fields: fields,
                is_multipart: sends_file(fields),
                queries: rows_of_section(lines, e, CommentAnchor::Query),
                cookies: rows_of_section(lines, e, CommentAnchor::Cookies),
                options: rows_of_section(lines, e, CommentAnchor::Options),
                body_src: body_text_of(lines, e.body),
                reports: source::reports_in(lines, method, end),
                comments: comment_scan::comments_in(window_of(lines, e, method, end), first),
                ..entry::blank_entry()
            },
            e.response,
        ),
    )
}

/// The line of an entry's method.
pub open spec fn method_line(lines: Seq<Seq<char>>, e: EntryShapeView) -> int {
    source::content_from(lines, place(e.request.line))
}

/// The `i`-th request of a parsed file.
pub open spec fn request_at(lines: Seq<Seq<char>>, shapes: Seq<EntryShapeView>, i: int) -> EntryView {
    entry_of(
        lines,
        shapes[i],
        method_line(lines, shapes[i]),
        if i + 1 < shapes.len() {
            method_line(lines, shapes[i + 1])
        } else {
            lines.len() as int
        },
        i == 0,
    )
}

/// The requests of a parsed file with the given text.
pub open spec fn requests(shapes: Seq<EntryShapeView>, content: Seq<char>) -> Seq<EntryView> {
    Seq::new(shapes.len(), |i: int| request_at(text::lines_of(content), shapes, i))
}

/// The requests of a Hurl text; none where it is no Hurl text.
pub open spec fn requests_in(content: Seq<char>) -> Seq<EntryView> {
    match hurl_ast::parsed(content) {
        Ok(shapes) => requests(shapes, content),
        Err(_) => Seq::empty(),
    }
}

// ---------------------------------------------------------------------------
// Blocks
// ---------------------------------------------------------------------------
/// The least of some lines that stand below `after`, or of all of them.
fn first_anchor(s: &[usize], after: Option<usize>) -> (r: Option<usize>)
    ensures
        r == least_below(
            s@,
            match after {
                Some(a) => a as int,
                None => -1,
            },
        ),
{
    let ghost a: int = match after {
        Some(a) => a as int,
        None => -1,
    };
    let mut least: Option<usize> = None;
    for i in 0..s.len()
        invariant
            a == (match after {
                Some(a) => a as int,
                None => -1,
            }),
            least == least_below(s@.take(i as int), a),
    {
        assert(s@.take(i + 1).drop_last() == s@.take(i as int));
        assert(s@.take(i + 1).last() == s@[i as int]);
        let line: usize = s[i];
        let below = match after {
            Some(a) => line > a,
            None => true,
        };
        let less = match least {
            Some(l) => line < l,
            None => true,
        };
        if below && less {
            least = Some(line);
        }
    }
    assert(s@.take(s.len() as int) == s@);
    least
}

/// The lines that bound the headers and the rows of each section.
fn anchors_of(e: &EntryShape) -> (r: Vec<usize>)
    ensures
        r@ == anchors(e.deep_view()),
{
    let mut out: Vec<usize> = Vec::new();
    let ghost want = e.sections.deep_view().map_values(|s: SectionView| s.line);
    for i in 0..e.sections.len()
        invariant
            want == e.sections.deep_view().map_values(|s: SectionView| s.line),
            out@ == want.take(i as int),
    {
        out.push(e.sections[i].line);
        assert(want[i as int] == e.sections@[i as int].line);
    }
    assert(out@ == want);
    if let Some(b) = &e.body {
        out.push(b.start);
    }
    if let Some(r) = &e.response {
        out.push(r.head.line);
    }
    assert(out@ == anchors(e.deep_view()));
    out
}

/// The lines that bound a response's headers.
fn anchors_of_response(r: &ResponseShape) -> (out: Vec<usize>)
    ensures
        out@ == response_anchors(r.deep_view()),
{
    let mut out: Vec<usize> = Vec::new();
    let ghost want = r.sections.deep_view().map_values(|s: CheckView| s.line);
    for i in 0..r.sections.len()
        invariant
            want == r.sections.deep_view().map_values(|s: CheckView| s.line),
            out@ == want.take(i as int),
    {
        out.push(r.sections[i].line);
        assert(want[i as int] == r.sections@[i as int].line);
    }
    assert(out@ == want);
    if let Some(b) = &r.body {
        out.push(b.start);
    }
    assert(out@ == response_anchors(r.deep_view()));
    out
}

/// The block that a request's section is.
fn anchor_of_section(s: &SectionShape) -> (r: Option<CommentAnchor>)
    ensures
        r == section_anchor(s.deep_view().body),
{
    match &s.body {
        SectionBody::BasicAuth(_) => Some(CommentAnchor::BasicAuth),
        SectionBody::Cookies => Some(CommentAnchor::Cookies),
        SectionBody::Query => Some(CommentAnchor::Query),
        SectionBody::Form(_) => Some(CommentAnchor::Form),
        SectionBody::Multipart(_) => Some(CommentAnchor::Form),
        SectionBody::Options => Some(CommentAnchor::Options),
        SectionBody::Other => None,
    }
}

/// The block that a response's section is.
fn anchor_of_check(tag: CheckTag) -> (r: Option<CommentAnchor>)
    ensures
        r == check_anchor(tag),
{
    match tag {
        CheckTag::Asserts => Some(CommentAnchor::Asserts),
        CheckTag::Captures => Some(CommentAnchor::Captures),
        CheckTag::Other => None,
    }
}

/// A line's place counted from nought.
fn place_of(line: usize) -> (r: usize)
    ensures
        r == place(line),
        r < usize::MAX,
{
    if line == 0 {
        0
    } else {
        line - 1
    }
}

/// Whether each mark but that of response headers has a line below it.
spec fn marks_fit(v: Seq<(usize, CommentAnchor)>) -> bool {
    forall|k: int|
        0 <= k < v.len() ==> (#[trigger] v[k]).0 < usize::MAX || v[k].1 is ResponseHeaders
}

proof fn lemma_keyed_push<T>(v: Seq<(usize, T)>, x: (usize, T))
    ensures
        order::keyed(v.push(x)) == order::keyed(v).push((x.0 as int, x.1)),
{
    assert(order::keyed(v.push(x)) =~= order::keyed(v).push((x.0 as int, x.1)));
}

/// Adds where a request's sections begin.
fn mark_sections(out: &mut Vec<(usize, CommentAnchor)>, sections: &[SectionShape])
    requires
        marks_fit(old(out)@),
    ensures
        order::keyed(final(out)@) == order::keyed(old(out)@) + section_marks(sections.deep_view()),
        marks_fit(final(out)@),
{
    let ghost all = sections.deep_view();
    let ghost head = order::keyed(out@);
    assert(head + section_marks(all.take(0)) == head);
    for i in 0..sections.len()
        invariant
            all == sections.deep_view(),
            order::keyed(out@) == head + section_marks(all.take(i as int)),
            marks_fit(out@),
    {
        assert(all.take(i + 1).drop_last() == all.take(i as int));
        assert(all.take(i + 1).last() == sections@[i as int].deep_view());
        if let Some(anchor) = anchor_of_section(&sections[i]) {
            let mark: (usize, CommentAnchor) = (place_of(sections[i].line), anchor);
            proof {
                lemma_keyed_push(out@, mark);
            }
            out.push(mark);
        }
        assert(order::keyed(out@) == head + section_marks(all.take(i + 1)));
    }
    assert(all.take(all.len() as int) == all);
}

/// Adds where a response's sections begin.
fn mark_checks(out: &mut Vec<(usize, CommentAnchor)>, sections: &[CheckShape])
    requires
        marks_fit(old(out)@),
    ensures
        order::keyed(final(out)@) == order::keyed(old(out)@) + check_marks(sections.deep_view()),
        marks_fit(final(out)@),
{
    let ghost all = sections.deep_view();
    let ghost head = order::keyed(out@);
    assert(head + check_marks(all.take(0)) == head);
    for i in 0..sections.len()
        invariant
            all == sections.deep_view(),
            order::keyed(out@) == head + check_marks(all.take(i as int)),
            marks_fit(out@),
    {
        assert(all.take(i + 1).drop_last() == all.take(i as int));
        assert(all.take(i + 1).last() == sections@[i as int].deep_view());
        if let Some(anchor) = anchor_of_check(sections[i].tag) {
            let mark: (usize, CommentAnchor) = (place_of(sections[i].line), anchor);
            proof {
                lemma_keyed_push(out@, mark);
            }
            out.push(mark);
        }
        assert(order::keyed(out@) == head + check_marks(all.take(i + 1)));
    }
    assert(all.take(all.len() as int) == all);
}

/// Adds where a body begins.
fn mark_body(
    out: &mut Vec<(usize, CommentAnchor)>,
    body: &Option<BodyShape>,
    anchor: CommentAnchor,
)
    requires
        marks_fit(old(out)@),
    ensures
        order::keyed(final(out)@) == order::keyed(old(out)@) + body_mark(body.deep_view(), anchor),
        marks_fit(final(out)@),
{
    let ghost head = order::keyed(out@);
    if let Some(b) = body {
        let mark: (usize, CommentAnchor) = (place_of(b.start), anchor);
        proof {
            lemma_keyed_push(out@, mark);
        }
        out.push(mark);
    }
    assert(order::keyed(out@) == head + body_mark(body.deep_view(), anchor));
}

/// The expected headers of a response.
fn read_expected_headers(lines: &[String], r: &ResponseShape) -> (out: Vec<KvRow>)
    ensures
        out.deep_view() == headers_expected(lines.deep_view(), r.deep_view()),
{
    let bounds = anchors_of_response(r);
    source::scan_kv_rows(lines, r.head.line, first_anchor(bounds.as_slice(), None))
}

/// Whether any row is disabled.
fn any_disabled(rows: &[KvRow]) -> (r: bool)
    ensures
        r == some_disabled(rows.deep_view()),
{
    for i in 0..rows.len()
        invariant
            forall|j: int| 0 <= j < i ==> (#[trigger] rows.deep_view()[j]).enabled,
    {
        assert(rows.deep_view()[i as int].enabled == rows@[i as int].enabled);
        if !rows[i].enabled {
            return true;
        }
    }
    false
}

/// Adds where the blocks of a response begin.
fn mark_response(out: &mut Vec<(usize, CommentAnchor)>, lines: &[String], r: &ResponseShape)
    requires
        marks_fit(old(out)@),
    ensures
        order::keyed(final(out)@) == order::keyed(old(out)@) + response_marks(
            lines.deep_view(),
            r.deep_view(),
        ),
        marks_fit(final(out)@),
{
    let ghost head = order::keyed(out@);
    let at: usize = place_of(r.head.line);
    proof {
        lemma_keyed_push(out@, (at, CommentAnchor::Response));
    }
    out.push((at, CommentAnchor::Response));
    let expected = read_expected_headers(lines, r);
    if r.head.header_count > 0 || any_disabled(expected.as_slice()) {
        proof {
            lemma_keyed_push(out@, ((at + 1) as usize, CommentAnchor::ResponseHeaders));
        }
        out.push((at + 1, CommentAnchor::ResponseHeaders));
    }
    mark_checks(out, r.sections.as_slice());
    mark_body(out, &r.body, CommentAnchor::ResponseBody);
    assert(order::keyed(out@) == head + response_marks(lines.deep_view(), r.deep_view()));
}

/// Where the blocks of an entry begin, from the top down.
fn marks_of(lines: &[String], e: &EntryShape) -> (r: Vec<(usize, CommentAnchor)>)
    ensures
        order::keyed(r@) == landmarks(lines.deep_view(), e.deep_view()),
        marks_fit(r@),
{
    let mut found: Vec<(usize, CommentAnchor)> = Vec::new();
    assert(order::keyed(found@) == Seq::<(int, CommentAnchor)>::empty());
    mark_sections(&mut found, e.sections.as_slice());
    mark_body(&mut found, &e.body, CommentAnchor::Body);
    if let Some(r) = &e.response {
        mark_response(&mut found, lines, r);
    }
    let ghost all = order::keyed(found@);
    let ghost raw = found@;
    assert(all == section_marks(e.sections.deep_view()) + body_mark(
        e.body.deep_view(),
        CommentAnchor::Body,
    ) + (match e.response.deep_view() {
        Some(r) => response_marks(lines.deep_view(), r),
        None => seq![],
    }));
    let out = order::sort_by_line(found);
    proof {
        order::items_are_ordered_by_line(all);
        let s = order::keyed(out@);
        assert forall|k: int| 0 <= k < out@.len() implies (#[trigger] out@[k]).0 < usize::MAX
            || out@[k].1 is ResponseHeaders by {
            assert(s[k] == (out@[k].0 as int, out@[k].1));
            broadcast use vstd::seq_lib::group_to_multiset_ensures;

            assert(s.contains(s[k]));
            assert(s.to_multiset().count(s[k]) > 0);
            assert(all.to_multiset().count(s[k]) > 0);
            assert(all.contains(s[k]));
            let j = choose|j: int| 0 <= j < all.len() && all[j] == s[k];
            assert(all[j] == (raw[j].0 as int, raw[j].1));
        }
    }
    out
}

// ---------------------------------------------------------------------------
// Parts
// ---------------------------------------------------------------------------
/// The last section that is a given block.
fn find_section(sections: &[SectionShape], anchor: CommentAnchor) -> (r: Option<&SectionShape>)
    ensures
        match r {
            Some(s) => last_section(sections.deep_view(), anchor) == Some(s.deep_view()),
            None => last_section(sections.deep_view(), anchor) is None,
        },
{
    let ghost all = sections.deep_view();
    let mut i: usize = sections.len();
    assert(all.take(all.len() as int) == all);
    while i > 0
        invariant
            all == sections.deep_view(),
            i <= sections.len(),
            last_section(all, anchor) == last_section(all.take(i as int), anchor),
        decreases i,
    {
        assert(all.take(i as int).drop_last() == all.take(i - 1));
        assert(all.take(i as int).last() == sections@[i - 1].deep_view());
        if let Some(a) = anchor_of_section(&sections[i - 1]) {
            if a == anchor {
                return Some(&sections[i - 1]);
            }
        }
        i -= 1;
    }
    None
}

/// The rows of the last section that is a given block.
fn read_section_rows(
    lines: &[String],
    e: &EntryShape,
    bounds: &[usize],
    anchor: CommentAnchor,
) -> (r: Vec<KvRow>)
    requires
        bounds@ == anchors(e.deep_view()),
    ensures
        r.deep_view() == rows_of_section(lines.deep_view(), e.deep_view(), anchor),
{
    match find_section(e.sections.as_slice(), anchor) {
        Some(s) => source::scan_kv_rows(lines, s.line, first_anchor(bounds, Some(s.line))),
        None => {
            let none: Vec<KvRow> = Vec::new();
            assert(none.deep_view() == Seq::<RowView>::empty());
            none
        },
    }
}

/// The last user name and password given.
fn read_auth(sections: &[SectionShape]) -> (r: Option<(String, String)>)
    ensures
        r.deep_view() == auth_in(sections.deep_view()),
{
    let ghost all = sections.deep_view();
    let mut i: usize = sections.len();
    assert(all.take(all.len() as int) == all);
    while i > 0
        invariant
            all == sections.deep_view(),
            i <= sections.len(),
            auth_in(all) == auth_in(all.take(i as int)),
        decreases i,
    {
        assert(all.take(i as int).drop_last() == all.take(i - 1));
        assert(all.take(i as int).last() == sections@[i - 1].deep_view());
        if let SectionBody::BasicAuth(Some(pair)) = &sections[i - 1].body {
            return Some((pair.0.clone(), pair.1.clone()));
        }
        i -= 1;
    }
    None
}

/// A row of a `[Multipart]` section as a field, with its line.
fn multipart_field(p: &PartShape) -> (r: (usize, FormField))
    ensures
        (r.0 as int, r.1.deep_view()) == part_field(p.deep_view()),
{
    match p {
        PartShape::Text { line, key, value } => (
            *line,
            source::make_text_field(key.clone(), value.clone()),
        ),
        PartShape::File { line, key, path, content_type } => (
            *line,
            source::make_file_field(key.clone(), path.clone(), entry::clone_text(content_type)),
        ),
    }
}

/// The enabled fields of a form, with their lines.
fn read_given_fields(body: &SectionBody) -> (r: Vec<(usize, FormField)>)
    ensures
        source::numbered_fields(r@) == fields_given(body.deep_view()),
{
    let mut out: Vec<(usize, FormField)> = Vec::new();
    let ghost want = fields_given(body.deep_view());
    match body {
        SectionBody::Form(rows) => {
            for i in 0..rows.len()
                invariant
                    body.deep_view() == SectionBodyView::Form(rows.deep_view()),
                    want == fields_given(body.deep_view()),
                    source::numbered_fields(out@) == want.take(i as int),
            {
                let ghost done = source::numbered_fields(out@);
                let row = &rows[i];
                assert(rows.deep_view()[i as int] == (row.0, row.1@, row.2@));
                let f = source::make_text_field(row.1.clone(), row.2.clone());
                out.push((row.0, f));
                assert(source::numbered_fields(out@) == done.push((row.0 as int, f.deep_view())));
                assert(want.take(i + 1) == done.push(want[i as int]));
            }
        },
        SectionBody::Multipart(parts) => {
            for i in 0..parts.len()
                invariant
                    body.deep_view() == SectionBodyView::Multipart(parts.deep_view()),
                    want == fields_given(body.deep_view()),
                    source::numbered_fields(out@) == want.take(i as int),
            {
                let ghost done = source::numbered_fields(out@);
                let row = multipart_field(&parts[i]);
                assert(parts.deep_view()[i as int] == parts@[i as int].deep_view());
                out.push(row);
                assert(source::numbered_fields(out@) == done.push(
                    (row.0 as int, row.1.deep_view()),
                ));
                assert(want.take(i + 1) == done.push(want[i as int]));
            }
        },
        _ => {},
    }
    assert(source::numbered_fields(out@) == want);
    out
}

proof fn lemma_numbered(v: Seq<(usize, FormField)>)
    ensures
        source::numbered_fields(v) == order::keyed(v).map_values(
            |p: (int, FormField)| (p.0, (|f: FormField| f.deep_view())(p.1)),
        ),
{
    assert(source::numbered_fields(v) =~= order::keyed(v).map_values(
        |p: (int, FormField)| (p.0, (|f: FormField| f.deep_view())(p.1)),
    ));
}

/// The fields of a form's section.
fn form_fields_from_section(lines: &[String], s: &SectionShape, end: Option<usize>) -> (r: Vec<
    FormField,
>)
    ensures
        r.deep_view() == fields_of_section(lines.deep_view(), s.deep_view(), end),
{
    let ghost all = lines.deep_view();
    let ghost limit = source::limit_of(all, end);
    let mut found = read_given_fields(&s.body);
    let ghost given = found@;
    let mut off = source::scan_disabled_form_rows(lines, s.line, end);
    let ghost disabled = off@;
    found.append(&mut off);
    let ghost raw = found@;
    assert(source::numbered_fields(raw) == source::numbered_fields(given)
        + source::numbered_fields(disabled));
    let sorted = order::sort_by_line(found);
    let ghost want = order::by_line(source::numbered_fields(raw));
    proof {
        lemma_numbered(raw);
        lemma_numbered(sorted@);
        order::lemma_by_line_map(order::keyed(raw), |f: FormField| f.deep_view());
    }
    assert(source::numbered_fields(sorted@) == want);
    let ghost f = |row: (int, FieldView)| noted(all, row, s.line as int, limit);
    let mut out: Vec<FormField> = Vec::new();
    for i in 0..sorted.len()
        invariant
            all == lines.deep_view(),
            limit == source::limit_of(all, end),
            source::numbered_fields(sorted@) == want,
            f == (|row: (int, FieldView)| noted(all, row, s.line as int, limit)),
            out.len() == i,
            forall|m: int| 0 <= m < i ==> (#[trigger] out@[m]).deep_view() == f(want[m]),
    {
        let line: usize = sorted[i].0;
        assert(want[i as int] == (line as int, sorted@[i as int].1.deep_view()));
        let mut field = sorted[i].1.clone();
        let note = if line == 0 {
            None
        } else {
            source::read_note_above(lines, line - 1, s.line, end)
        };
        if let Some(desc) = note {
            field.desc = desc;
        }
        assert(field.deep_view() == f(want[i as int]));
        out.push(field);
    }
    assert(out.deep_view() == want.map_values(f));
    out
}

/// The form fields of an entry.
fn read_form(lines: &[String], e: &EntryShape, bounds: &[usize]) -> (r: Vec<FormField>)
    requires
        bounds@ == anchors(e.deep_view()),
    ensures
        r.deep_view() == form_of(lines.deep_view(), e.deep_view()),
{
    match find_section(e.sections.as_slice(), CommentAnchor::Form) {
        Some(s) => form_fields_from_section(lines, s, first_anchor(bounds, Some(s.line))),
        None => {
            let none: Vec<FormField> = Vec::new();
            assert(none.deep_view() == Seq::<FieldView>::empty());
            none
        },
    }
}

/// Whether a form has an enabled field that names a file.
fn any_file_sent(fields: &[FormField]) -> (r: bool)
    ensures
        r == sends_file(fields.deep_view()),
{
    let ghost all = fields.deep_view();
    for i in 0..fields.len()
        invariant
            all == fields.deep_view(),
            forall|j: int|
                0 <= j < i ==> !((#[trigger] all[j]).enabled && all[j].kind.names_file()),
    {
        assert(all[i as int] == fields@[i as int].deep_view());
        if fields[i].enabled && fields[i].kind.is_multipart() {
            return true;
        }
    }
    false
}

/// A body's text, if there is any. A body that is given as a file or in base64
/// has no text of its own and is taken from its line.
fn body_source(lines: &[String], body: &Option<BodyShape>) -> (r: Option<String>)
    ensures
        r.deep_view() == body_text_of(lines.deep_view(), body.deep_view()),
{
    match body {
        Some(b) => {
            let s = match &b.value {
                BodyValue::Text(s) => Some(s.clone()),
                BodyValue::Line(n) => source::source_line(lines, *n),
            };
            match s {
                Some(s) => if text::blank(s.as_str()) {
                    None
                } else {
                    Some(text::trim(s.as_str()))
                },
                None => None,
            }
        },
        None => None,
    }
}

/// The last section of a response with a given tag.
fn find_check(sections: &[CheckShape], tag: CheckTag) -> (r: Option<&CheckShape>)
    ensures
        match r {
            Some(s) => last_check(sections.deep_view(), tag) == Some(s.deep_view()),
            None => last_check(sections.deep_view(), tag) is None,
        },
{
    let ghost all = sections.deep_view();
    let mut i: usize = sections.len();
    assert(all.take(all.len() as int) == all);
    while i > 0
        invariant
            all == sections.deep_view(),
            i <= sections.len(),
            last_check(all, tag) == last_check(all.take(i as int), tag),
        decreases i,
    {
        assert(all.take(i as int).drop_last() == all.take(i - 1));
        assert(all.take(i as int).last() == sections@[i - 1].deep_view());
        if sections[i - 1].tag == tag {
            return Some(&sections[i - 1]);
        }
        i -= 1;
    }
    None
}

/// The captures on some lines.
fn read_captures(lines: &[String], queries: &[usize]) -> (r: Vec<(String, String)>)
    ensures
        r.deep_view() == captures_on(lines.deep_view(), queries@),
{
    let ghost all = lines.deep_view();
    let mut out: Vec<(String, String)> = Vec::new();
    for i in 0..queries.len()
        invariant
            all == lines.deep_view(),
            out.deep_view() == captures_on(all, queries@.take(i as int)),
    {
        let ghost done = out.deep_view();
        assert(queries@.take(i + 1).drop_last() == queries@.take(i as int));
        assert(queries@.take(i + 1).last() == queries@[i as int]);
        if let Some(pair) = source::capture_pair(lines, queries[i]) {
            out.push(pair);
            assert(out.deep_view() == done.push(pair.deep_view()));
        }
    }
    assert(queries@.take(queries.len() as int) == queries@);
    out
}

/// The assertions on some lines.
fn read_asserts(lines: &[String], queries: &[usize]) -> (r: Vec<String>)
    ensures
        r.deep_view() == asserts_on(lines.deep_view(), queries@),
{
    let ghost all = lines.deep_view();
    let mut out: Vec<String> = Vec::new();
    for i in 0..queries.len()
        invariant
            all == lines.deep_view(),
            out.deep_view() == asserts_on(all, queries@.take(i as int)),
    {
        let ghost done = out.deep_view();
        assert(queries@.take(i + 1).drop_last() == queries@.take(i as int));
        assert(queries@.take(i + 1).last() == queries@[i as int]);
        if let Some(line) = source::source_line(lines, queries[i]) {
            out.push(line);
            assert(out.deep_view() == done.push(line@));
        }
    }
    assert(queries@.take(queries.len() as int) == queries@);
    out
}

/// Reads what is expected of the response into an entry.
fn read_response(entry: HurlEntry, lines: &[String], response: &Option<ResponseShape>) -> (r:
    HurlEntry)
    ensures
        r.deep_view() == with_response(
            lines.deep_view(),
            entry.deep_view(),
            response.deep_view(),
        ),
{
    let mut out = entry;
    if let Some(r) = response {
        out.expected_status = match r.head.status {
            #[verifier::truncate]
            Some(n) => Some(n as u16),
            None => None,
        };
        out.response_version = entry::clone_text(&r.head.version);
        out.response_headers = read_expected_headers(lines, r);
        out.response_body = body_source(lines, &r.body);
        out.captures = match find_check(r.sections.as_slice(), CheckTag::Captures) {
            Some(c) => read_captures(lines, c.queries.as_slice()),
            None => Vec::new(),
        };
        out.asserts = match find_check(r.sections.as_slice(), CheckTag::Asserts) {
            Some(c) => read_asserts(lines, c.queries.as_slice()),
            None => Vec::new(),
        };
        assert(out.deep_view() == with_response(
            lines.deep_view(),
            entry.deep_view(),
            response.deep_view(),
        ));
    }
    out
}

/// Takes the body as it was authored out of an entry's comments, where they
/// hold it.
fn claim_authored_body(entry: HurlEntry) -> (r: HurlEntry)
    ensures
        r.deep_view() == with_authored_body(entry.deep_view()),
{
    let mut out = entry;
    let block = match &out.body_src {
        Some(b) => body_notes::find_body_block(out.comments.as_slice(), Some(b.as_str())),
        None => None,
    };
    if let Some((at, notes)) = block {
        let mut comments: Vec<EntryComment> = Vec::new();
        std::mem::swap(&mut comments, &mut out.comments);
        out.comments = body_notes::drop_comments(comments, at.as_slice());
        out.body_src = Some(notes);
    }
    out
}

/// The first and last line of the bodies of an entry.
fn bodies_of(e: &EntryShape) -> (r: Vec<(usize, usize)>)
    ensures
        r@ == body_span(e.body.deep_view()) + body_span(
            match e.response.deep_view() {
                Some(r) => r.body,
                None => None,
            },
        ),
{
    let mut out: Vec<(usize, usize)> = Vec::new();
    if let Some(b) = &e.body {
        out.push((b.start, b.last));
    }
    if let Some(r) = &e.response {
        if let Some(b) = &r.body {
            out.push((b.start, b.last));
        }
    }
    out
}

/// Maps an entry of a parsed file onto the request it stands for.
pub(crate) fn map_entry(
    e: &EntryShape,
    lines: &[String],
    method: usize,
    end: usize,
    is_first: bool,
) -> (r: HurlEntry)
    requires
        method <= lines.len(),
        end <= lines.len(),
    ensures
        r.deep_view() == entry_of(
            lines.deep_view(),
            e.deep_view(),
            method as int,
            end as int,
            is_first,
        ),
{
    let bounds = anchors_of(e);
    let marks = marks_of(lines, e);
    let bodies = bodies_of(e);
    let form_fields = read_form(lines, e, bounds.as_slice());
    let is_multipart = any_file_sent(form_fields.as_slice());
    let reports: Vec<(String, String)> = if method <= end {
        source::read_reports(lines, method, end)
    } else {
        Vec::new()
    };
    assert(reports.deep_view() == source::reports_in(lines.deep_view(), method as int, end as int));
    let scan = Scan {
        lines,
        landmarks: marks.as_slice(),
        bodies: bodies.as_slice(),
        method,
        end,
    };
    let comments = comment_scan::scan_comments(&scan, is_first);
    let headers = source::scan_kv_rows(
        lines,
        e.request.url_line,
        first_anchor(bounds.as_slice(), Some(e.request.url_line)),
    );
    let entry = HurlEntry {
        title: source::read_title(lines, method),
        method: e.request.method.clone(),
        url: e.request.url.clone(),
        headers,
        basic_auth: read_auth(e.sections.as_slice()),
        form_fields,
        is_multipart,
        queries: read_section_rows(lines, e, bounds.as_slice(), CommentAnchor::Query),
        cookies: read_section_rows(lines, e, bounds.as_slice(), CommentAnchor::Cookies),
        options: read_section_rows(lines, e, bounds.as_slice(), CommentAnchor::Options),
        body_src: body_source(lines, &e.body),
        expected_status: None,
        response_version: None,
        response_headers: Vec::new(),
        response_body: None,
        captures: Vec::new(),
        asserts: Vec::new(),
        reports,
        comments,
        unparsed: None,
        user_added: false,
        modified: false,
        uid: 0,
        last_run: RunStatus::NotRun,
    };
    assert(entry.deep_view() == (EntryView {
        title: source::title_above(lines.deep_view(), method as int),
        method: e.request.method@,
        url: e.request.url@,
        headers: headers.deep_view(),
        basic_auth: auth_in(e.sections.deep_view()),
        form_fields: form_fields.deep_view(),
        is_multipart,
        queries: entry.queries.deep_view(),
        cookies: entry.cookies.deep_view(),
        options: entry.options.deep_view(),
        body_src: entry.body_src.deep_view(),
        reports: reports.deep_view(),
        comments: comments.deep_view(),
        ..entry::blank_entry()
    }));
    claim_authored_body(read_response(entry, lines, &e.response))
}

// ---------------------------------------------------------------------------
// Whole files
// ---------------------------------------------------------------------------
/// Maps the entries of a parsed file onto the requests they stand for.
pub fn map_entries(shapes: &[EntryShape], content: &str) -> (r: Vec<HurlEntry>)
    ensures
        r.deep_view() == requests(shapes.deep_view(), content@),
{
    let read = text::lines(content);
    let lines = read.as_slice();
    let ghost all = lines.deep_view();
    let ghost want = requests(shapes.deep_view(), content@);
    let mut out: Vec<HurlEntry> = Vec::new();
    for i in 0..shapes.len()
        invariant
            lines.deep_view() == text::lines_of(content@),
            want == requests(shapes.deep_view(), content@),
            out.len() == i,
            forall|m: int| 0 <= m < i ==> (#[trigger] out@[m]).deep_view() == want[m],
    {
        let method: usize = source::first_content(lines, shapes[i].request.line);
        let end: usize = if i + 1 < shapes.len() {
            source::first_content(lines, shapes[i + 1].request.line)
        } else {
            lines.len()
        };
        assert(shapes.deep_view()[i as int] == shapes@[i as int].deep_view());
        let entry = map_entry(&shapes[i], lines, method, end, i == 0);
        assert(entry.deep_view() == want[i as int]);
        out.push(entry);
    }
    assert(out.deep_view() == want);
    out
}

/// Parses a Hurl text into its requests. A text that is no Hurl text has none.
pub fn parse_hurl(content: &str) -> (r: Vec<HurlEntry>)
    ensures
        r.deep_view() == requests_in(content@),
{
    match hurl_ast::parse(content) {
        Ok(shapes) => map_entries(shapes.as_slice(), content),
        Err(_) => {
            let none: Vec<HurlEntry> = Vec::new();
            assert(none.deep_view() == Seq::<EntryView>::empty());
            none
        },
    }
}

// ---------------------------------------------------------------------------
// Why a text is no Hurl text
// ---------------------------------------------------------------------------
/// What `str::to_lowercase` makes of a text.
pub uninterp spec fn unicode_lower(s: Seq<char>) -> Seq<char>;

/// `str::to_lowercase`. Of a text of ASCII characters alone, each letter in
/// upper case becomes the one in lower case, and the others stay.
#[verifier::external_body]
fn to_lower(s: &str) -> (r: String)
    ensures
        r@ == unicode_lower(s@),
        (forall|i: int| 0 <= i < s@.len() ==> (#[trigger] s@[i] as int) < 128) ==> r@
            == text::lowered(s@),
{
    s.to_lowercase()
}

/// The reason for a fault, on one short line. A section that belongs to the
/// response gets the advice that makes it one.
pub open spec fn fault_reason(f: FaultView) -> Seq<char> {
    match f.kind {
        FaultKindView::Section(name) => if name == "Captures"@ || name == "Asserts"@ {
            "["@ + name + "] is a response section — add an 'HTTP' status line "@
                + "above it (use 'HTTP *' to accept any status)"@
        } else {
            "["@ + name + "] is not a valid request section"@
        },
        FaultKindView::Method => "expected an HTTP method (e.g. GET, POST)"@,
        FaultKindView::Version =>
            "a response line must be 'HTTP <status>' (e.g. 'HTTP 200')"@,
        FaultKindView::Status => "invalid status code"@,
        FaultKindView::Url => "invalid URL"@,
        FaultKindView::Other => unicode_lower(f.description),
    }
}

/// A fault in words: its line and its reason.
pub open spec fn fault_text(f: FaultView) -> Seq<char> {
    "line "@ + text::decimal(f.line as nat) + ": "@ + fault_reason(f)
}

/// Puts a fault into words.
pub fn explain_fault(f: &Fault) -> (r: String)
    ensures
        r@ == fault_text(f.deep_view()),
{
    let mut out = "line ".to_owned();
    out.push_str(text::to_decimal(f.line as u128).as_str());
    out.push_str(": ");
    match &f.kind {
        FaultKind::Section(name) => {
            out.push_str("[");
            out.push_str(name.as_str());
            if text::same(name.as_str(), "Captures") || text::same(name.as_str(), "Asserts") {
                out.push_str("] is a response section — add an 'HTTP' status line ");
                out.push_str("above it (use 'HTTP *' to accept any status)");
            } else {
                out.push_str("] is not a valid request section");
            }
        },
        FaultKind::Method => {
            out.push_str("expected an HTTP method (e.g. GET, POST)");
        },
        FaultKind::Version => {
            out.push_str("a response line must be 'HTTP <status>' (e.g. 'HTTP 200')");
        },
        FaultKind::Status => {
            out.push_str("invalid status code");
        },
        FaultKind::Url => {
            out.push_str("invalid URL");
        },
        FaultKind::Other => {
            out.push_str(to_lower(f.description.as_str()).as_str());
        },
    }
    assert(out@ == fault_text(f.deep_view()));
    out
}

/// Explains, on one short line, why a text is no Hurl text; `None` where it is
/// one.
pub fn parse_hurl_error(content: &str) -> (r: Option<String>)
    ensures
        r.deep_view() == (match hurl_ast::parsed(content@) {
            Ok(_) => None,
            Err(f) => Some(fault_text(f)),
        }),
{
    match hurl_ast::parse(content) {
        Ok(_) => None,
        Err(f) => Some(explain_fault(&f)),
    }
}

} // verus!
