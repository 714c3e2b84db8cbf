//! The lines that an entry is written as.
use vstd::prelude::*;

use crate::block_laws;
use crate::comment_laws;
use crate::entry::{CommentAnchor, CommentView, EntryView, FieldView, RowView};
use crate::form_laws;
use crate::json_comments;
use crate::line_laws;
use crate::parser;
use crate::sheet_laws;
use crate::sheet_laws::Slab;
use crate::source;
use crate::text;
use crate::text_laws;
use crate::writer;

verus! {

// ---------------------------------------------------------------------------
// Text and lines
// ---------------------------------------------------------------------------
/// Whether a text is empty or ends with a line feed.
pub open spec fn is_closed(s: Seq<char>) -> bool {
    s.len() == 0 || s.last() == '\n'
}

/// Behind a text that ends with a line feed a line begins.
pub proof fn lemma_lines_add(a: Seq<char>, b: Seq<char>)
    requires
        is_closed(a),
    ensures
        text::lines_of(a + b) == text::lines_of(a) + text::lines_of(b),
        is_closed(b) ==> is_closed(a + b),
    decreases a.len(),
{
    if a.len() == 0 {
        assert(a + b =~= b);
        assert(text::lines_of(a) + text::lines_of(b) =~= text::lines_of(b));
    } else {
        let n = text::find(a, '\n');
        text::lemma_find_from(a, '\n', 0);
        if n == a.len() {
            assert(a[a.len() - 1] == '\n');
            assert(false);
        }
        let s = a + b;
        assert forall|j: int| 0 <= j < n implies s[j] != '\n' by {
            assert(s[j] == a[j]);
        }
        assert(s[n] == '\n');
        text::lemma_find_is(s, '\n', 0, n);
        let rest = a.skip(n + 1);
        assert(s.take(n) =~= a.take(n));
        assert(s.skip(n + 1) =~= rest + b);
        lemma_lines_add(rest, b);
        let first = text::chomped(a.take(n));
        assert(seq![first] + (text::lines_of(rest) + text::lines_of(b)) =~= (seq![first]
            + text::lines_of(rest)) + text::lines_of(b));
    }
    if b.len() > 0 {
        assert((a + b).last() == b.last());
    } else {
        assert(a + b =~= a);
    }
}

/// Lines as a text are its lines.
pub proof fn lemma_lines_of_text(lines: Seq<Seq<char>>)
    requires
        text_laws::are_lines(lines),
    ensures
        text::lines_of(text_laws::as_text(lines)) == lines,
        is_closed(text_laws::as_text(lines)),
{
    let t = text_laws::as_text(lines);
    let none = Seq::<char>::empty();
    text_laws::lines_are_read_back(lines, none);
    assert(t + none =~= t);
    assert(lines + text::lines_of(none) =~= lines);
    if lines.len() > 0 {
        let f = |l: Seq<char>| l.push('\n');
        let last = lines.map_values(f).last();
        assert(last == lines.last().push('\n'));
        assert(t == text::concat(lines.map_values(f).drop_last()) + last);
        assert(t.last() == '\n');
    } else {
        assert(lines.map_values(|l: Seq<char>| l.push('\n')) =~= Seq::<Seq<char>>::empty());
    }
}

/// A text with a line feed behind it, if it has none yet, has a last line.
pub proof fn lemma_closed_line(s: Seq<char>)
    ensures
        is_closed(writer::closed_line(s)),
        text::lines_of(writer::closed_line(s)).len() > 0,
{
    let c = writer::closed_line(s);
    assert(c.len() > 0 && c.last() == '\n');
    assert(text::lines_of(c).len() > 0);
}

/// Whether a text is a line that is neither blank nor comment.
pub open spec fn is_plain(s: Seq<char>) -> bool {
    text_laws::is_line(s) && source::is_content(s)
}

proof fn lemma_header(h: Seq<char>)
    requires
        h.len() > 1,
        h[0] == '[',
        h.last() == ']',
        !h.contains('\n'),
    ensures
        is_plain(h),
        text::lines_of(writer::as_line(h)) == seq![h],
        is_closed(writer::as_line(h)),
{
    reveal_strlit("#");
    text_laws::lemma_is_trimmed(h);
    if text::begins(h, "#"@) {
        assert(h.take(1)[0] == '#');
    }
    lemma_one_line(h);
}

/// A line with its line feed is that line.
pub proof fn lemma_one_line(l: Seq<char>)
    requires
        text_laws::is_line(l),
    ensures
        text::lines_of(writer::as_line(l)) == seq![l],
        is_closed(writer::as_line(l)),
{
    text_laws::lemma_as_text_one(l);
    assert(text_laws::are_lines(seq![l]));
    lemma_lines_of_text(seq![l]);
}

// ---------------------------------------------------------------------------
// The lines of the parts
// ---------------------------------------------------------------------------
/// The comments that stand before a block.
pub open spec fn prose_at(comments: Seq<CommentView>, anchor: CommentAnchor) -> Seq<Seq<char>>
    decreases comments.len(),
{
    if comments.len() == 0 {
        Seq::empty()
    } else if comments.last().anchor == anchor {
        prose_at(comments.drop_last(), anchor).push(comments.last().text)
    } else {
        prose_at(comments.drop_last(), anchor)
    }
}

/// Some lines as comments before a block.
pub open spec fn remarks(lines: Seq<Seq<char>>, anchor: CommentAnchor) -> Seq<CommentView> {
    lines.map_values(|l: Seq<char>| CommentView { anchor, text: l })
}

/// The lines of a section with its rows.
pub open spec fn section_lines(header: Seq<char>, rows: Seq<RowView>) -> Seq<Seq<char>> {
    if rows.len() == 0 {
        Seq::empty()
    } else {
        seq![header] + block_laws::stacked(rows)
    }
}

/// The lines of the credentials' section.
pub open spec fn auth_lines(auth: Option<(Seq<char>, Seq<char>)>) -> Seq<Seq<char>> {
    match auth {
        Some(pair) => seq!["[BasicAuth]"@, writer::kv(pair.0, pair.1)],
        None => Seq::empty(),
    }
}

/// The header of a form's section.
pub open spec fn form_header(fields: Seq<FieldView>) -> Seq<char> {
    if parser::sends_file(fields) {
        "[Multipart]"@
    } else {
        "[Form]"@
    }
}

/// The lines of a form's section.
pub open spec fn form_lines(fields: Seq<FieldView>) -> Seq<Seq<char>> {
    if fields.len() == 0 {
        Seq::empty()
    } else {
        seq![form_header(fields)] + form_laws::stacked(fields)
    }
}

/// The lines of a body.
pub open spec fn body_lines(body: Option<Seq<char>>) -> Seq<Seq<char>> {
    match body {
        Some(b) => text::lines_of(writer::closed_line(b)),
        None => Seq::empty(),
    }
}

/// What is sent as a body.
pub open spec fn sent(e: EntryView) -> Option<Seq<char>> {
    match e.body_src {
        Some(src) => Some(json_comments::wire(src)),
        None => None,
    }
}

/// Whether a body was authored with something that is not sent.
pub open spec fn is_noted(e: EntryView) -> bool {
    e.body_src is Some && e.body_src != sent(e)
}

/// The lines that carry the body as it was authored.
pub open spec fn authored_lines(e: EntryView) -> Seq<Seq<char>> {
    if is_noted(e) {
        comment_laws::notes_lines(e.body_src.unwrap())
    } else {
        Seq::empty()
    }
}

/// The request line.
pub open spec fn request_line(e: EntryView) -> Seq<char> {
    e.method + " "@ + e.url
}

/// The response line.
pub open spec fn status_line(e: EntryView) -> Seq<char> {
    let version = match e.response_version {
        Some(v) => v,
        None => "HTTP"@,
    };
    match e.expected_status {
        Some(status) => version + " "@ + text::decimal(status as nat),
        None => version + " *"@,
    }
}

/// The response line, if there is one.
pub open spec fn status_lines(e: EntryView) -> Seq<Seq<char>> {
    if writer::has_response_area(e) {
        seq![status_line(e)]
    } else {
        Seq::empty()
    }
}

/// The lines of the captures.
pub open spec fn capture_rows(captures: Seq<(Seq<char>, Seq<char>)>) -> Seq<Seq<char>> {
    captures.map_values(|c: (Seq<char>, Seq<char>)| writer::kv(c.0, c.1))
}

/// The lines of a section of one-line items.
pub open spec fn listed(header: Seq<char>, items: Seq<Seq<char>>) -> Seq<Seq<char>> {
    if items.len() == 0 {
        Seq::empty()
    } else {
        seq![header] + items
    }
}

/// The comments above the title, with the blank line behind them.
pub open spec fn lead_lines(e: EntryView) -> Seq<Seq<char>> {
    let lead = prose_at(e.comments, CommentAnchor::Lead);
    if lead.len() == 0 {
        Seq::empty()
    } else {
        lead + seq![Seq::<char>::empty()]
    }
}

// ---------------------------------------------------------------------------
// Blocks
// ---------------------------------------------------------------------------
/// How many blocks an entry can have.
pub open spec fn block_count() -> nat {
    12
}

/// The blocks in the order in which they are written.
pub open spec fn block_anchor(k: int) -> CommentAnchor {
    if k == 0 {
        CommentAnchor::Headers
    } else if k == 1 {
        CommentAnchor::BasicAuth
    } else if k == 2 {
        CommentAnchor::Cookies
    } else if k == 3 {
        CommentAnchor::Query
    } else if k == 4 {
        CommentAnchor::Form
    } else if k == 5 {
        CommentAnchor::Options
    } else if k == 6 {
        CommentAnchor::Body
    } else if k == 7 {
        CommentAnchor::Response
    } else if k == 8 {
        CommentAnchor::ResponseHeaders
    } else if k == 9 {
        CommentAnchor::Asserts
    } else if k == 10 {
        CommentAnchor::Captures
    } else {
        CommentAnchor::ResponseBody
    }
}

/// The lines of a block.
pub open spec fn block_lines(e: EntryView, k: int) -> Seq<Seq<char>> {
    if k == 0 {
        block_laws::stacked(e.headers)
    } else if k == 1 {
        auth_lines(e.basic_auth)
    } else if k == 2 {
        section_lines("[Cookies]"@, e.cookies)
    } else if k == 3 {
        section_lines("[Query]"@, e.queries)
    } else if k == 4 {
        form_lines(e.form_fields)
    } else if k == 5 {
        section_lines("[Options]"@, e.options)
    } else if k == 6 {
        body_lines(sent(e))
    } else if k == 7 {
        status_lines(e)
    } else if k == 8 {
        block_laws::stacked(e.response_headers)
    } else if k == 9 {
        listed("[Asserts]"@, e.asserts)
    } else if k == 10 {
        listed("[Captures]"@, capture_rows(e.captures))
    } else {
        body_lines(e.response_body)
    }
}

/// A block with the comments before it: those of the entry, and before the body,
/// if asked for, those that carry it as it was authored.
pub open spec fn block(e: EntryView, k: int, noted: bool) -> Slab {
    Slab {
        anchor: block_anchor(k),
        prose: prose_at(e.comments, block_anchor(k)) + (if noted && k == 6 {
            authored_lines(e)
        } else {
            Seq::empty()
        }),
        own: block_lines(e, k),
    }
}

/// The blocks of an entry.
pub open spec fn blocks(e: EntryView, noted: bool) -> Seq<Slab> {
    Seq::new(block_count(), |k: int| block(e, k, noted))
}

/// The lines from the top of an entry to its request line.
pub open spec fn head_lines(e: EntryView) -> Seq<Seq<char>> {
    lead_lines(e) + comment_laws::title_lines(e.title) + seq![request_line(e)]
}

/// The lines of an entry.
pub open spec fn entry_lines(e: EntryView) -> Seq<Seq<char>> {
    head_lines(e) + sheet_laws::laid(blocks(e, true)) + comment_laws::report_lines(e.reports)
        + prose_at(e.comments, CommentAnchor::Trailing)
}

// ---------------------------------------------------------------------------
// Entries that come back as they were written
// ---------------------------------------------------------------------------
/// Whether comments before the `k`-th block stand where rows are read: behind
/// the headers or a section of rows, or behind the response line, below which its
/// headers are read.
pub open spec fn takes_rows(e: EntryView, k: int) -> bool {
    ||| sheet_laws::ends_in_rows(blocks(e, true), k)
    ||| 8 <= k && forall|j: int| 8 <= j < k ==> (#[trigger] block_lines(e, j)).len() == 0
}

/// Whether no comment is taken for a row: where rows are read, none carries one.
/// Behind everything else only the first can be, where nothing but the response
/// line stands above it.
#[verifier::opaque]
pub open spec fn rows_kept_apart(e: EntryView) -> bool {
    let tail = prose_at(e.comments, CommentAnchor::Trailing);
    &&& forall|k: int|
        0 <= k < block_count() && #[trigger] takes_rows(e, k) ==> sheet_laws::no_rows(
            block(e, k, true).prose,
        )
    &&& sheet_laws::ends_in_rows(blocks(e, true), block_count() as int) ==> sheet_laws::no_rows(tail)
    &&& takes_rows(e, block_count() as int) && writer::has_response_area(e) && e.reports.len() == 0
        && tail.len() > 0 ==> block_laws::no_row(tail[0])
}

/// The lines below the request line of an entry.
pub open spec fn lines_below(e: EntryView) -> Seq<Seq<char>> {
    sheet_laws::laid(blocks(e, true)) + comment_laws::report_lines(e.reports) + prose_at(
        e.comments,
        CommentAnchor::Trailing,
    )
}

/// Whether nothing is taken for the report fields but what is written for them.
#[verifier::opaque]
pub open spec fn reports_kept_apart(e: EntryView) -> bool {
    let tail = prose_at(e.comments, CommentAnchor::Trailing);
    if e.reports.len() > 0 {
        &&& body_fits(sent(e))
        &&& body_fits(e.response_body)
        &&& tail.len() > 0 ==> source::report_on(tail[0]) is None
    } else {
        source::reports_in(lines_below(e), 0, lines_below(e).len() as int).len() == 0
    }
}

/// The comments of an entry as they are written, with those that carry its body
/// as it was authored.
pub open spec fn comments_written(e: EntryView) -> Seq<CommentView> {
    remarks(prose_at(e.comments, CommentAnchor::Lead), CommentAnchor::Lead) + sheet_laws::gathered(
        blocks(e, true),
    ) + remarks(prose_at(e.comments, CommentAnchor::Trailing), CommentAnchor::Trailing)
}

/// Whether the comments of an entry come back as they were written: each is one
/// trimmed line, none is a marker to the reader, each stands before a block that
/// is there, and they stand in the order of the blocks. A scan that nothing
/// bounds takes rows only from its first line, so comments before the headers
/// need a block below them.
pub open spec fn comments_fit(e: EntryView) -> bool {
    &&& forall|i: int|
        0 <= i < e.comments.len() ==> text_laws::is_line((#[trigger] e.comments[i]).text)
            && source::is_comment(e.comments[i].text) && text::trimmed(e.comments[i].text)
            == e.comments[i].text
    &&& forall|i: int|
        0 <= i < e.comments.len() && !((#[trigger] e.comments[i]).anchor is Lead)
            ==> sheet_laws::is_prose(e.comments[i].text)
    &&& sent(e) matches Some(body) ==> forall|k: int|
        0 <= k < prose_at(e.comments, CommentAnchor::Body).len() ==> !(
        #[trigger] comment_laws::claims(comments_written(e), body, k))
    &&& e.comments == remarks(prose_at(e.comments, CommentAnchor::Lead), CommentAnchor::Lead)
        + sheet_laws::gathered(blocks(e, false)) + remarks(
        prose_at(e.comments, CommentAnchor::Trailing),
        CommentAnchor::Trailing,
    )
    &&& forall|k: int|
        0 <= k < block_count() && (#[trigger] block_lines(e, k)).len() == 0 ==> prose_at(
            e.comments,
            block_anchor(k),
        ).len() == 0
    &&& prose_at(e.comments, CommentAnchor::Headers).len() > 0 ==> exists|k: int|
        1 <= k <= 7 && (#[trigger] block_lines(e, k)).len() > 0
    &&& prose_at(e.comments, CommentAnchor::ResponseHeaders).len() > 0 ==> exists|k: int|
        9 <= k <= 11 && (#[trigger] block_lines(e, k)).len() > 0
}

/// Whether no line of a body is the marker of report fields.
pub open spec fn body_fits(body: Option<Seq<char>>) -> bool {
    forall|i: int|
        0 <= i < body_lines(body).len() ==> !source::is_reports_line(
            #[trigger] body_lines(body)[i],
        )
}

/// Whether an entry comes back as it was written.
pub open spec fn fits(e: EntryView) -> bool {
    &&& e.unparsed is None && !e.user_added && !e.modified && e.uid == 0 && e.last_run is NotRun
    &&& comment_laws::title_fits(e.title)
    &&& e.method.len() > 0 && is_plain(request_line(e))
    &&& block_laws::rows_fit(e.headers)
    &&& block_laws::rows_fit(e.cookies)
    &&& block_laws::rows_fit(e.queries)
    &&& block_laws::rows_fit(e.options)
    &&& block_laws::rows_fit(e.response_headers)
    &&& form_laws::fields_fit(e.form_fields)
    &&& e.is_multipart == parser::sends_file(e.form_fields)
    &&& e.basic_auth matches Some(pair) ==> is_plain(writer::kv(pair.0, pair.1))
    &&& is_noted(e) ==> comment_laws::notes_fit(e.body_src.unwrap()) && sheet_laws::all_prose(
        authored_lines(e),
    )
    &&& writer::has_response_area(e) ==> is_plain(status_line(e))
    &&& forall|i: int|
        0 <= i < e.asserts.len() ==> is_plain(#[trigger] e.asserts[i]) && text::trimmed(
            e.asserts[i],
        ) == e.asserts[i]
    &&& forall|i: int|
        0 <= i < e.captures.len() ==> line_laws::capture_fits(#[trigger] e.captures[i])
    &&& comment_laws::reports_fit(e.reports)
    &&& comments_fit(e)
    &&& rows_kept_apart(e)
    &&& reports_kept_apart(e)
}

// ---------------------------------------------------------------------------
// Writing
// ---------------------------------------------------------------------------
proof fn lemma_prose_member(comments: Seq<CommentView>, anchor: CommentAnchor, i: int) -> (j: int)
    requires
        0 <= i < prose_at(comments, anchor).len(),
    ensures
        0 <= j < comments.len(),
        comments[j].anchor == anchor,
        comments[j].text == prose_at(comments, anchor)[i],
    decreases comments.len(),
{
    let front = comments.drop_last();
    if comments.last().anchor == anchor && i == prose_at(front, anchor).len() {
        comments.len() - 1
    } else {
        lemma_prose_member(front, anchor, i)
    }
}

/// The comments before a block are lines, comments and trimmed, and but for
/// those above the title they are prose.
pub proof fn lemma_prose_fits(e: EntryView, anchor: CommentAnchor)
    requires
        comments_fit(e),
    ensures
        text_laws::are_lines(prose_at(e.comments, anchor)),
        forall|i: int|
            0 <= i < prose_at(e.comments, anchor).len() ==> source::is_comment(
                #[trigger] prose_at(e.comments, anchor)[i],
            ) && text::trimmed(prose_at(e.comments, anchor)[i]) == prose_at(e.comments, anchor)[i],
        !(anchor is Lead) ==> sheet_laws::all_prose(prose_at(e.comments, anchor)),
{
    let p = prose_at(e.comments, anchor);
    assert forall|i: int| 0 <= i < p.len() implies text_laws::is_line(#[trigger] p[i])
        && source::is_comment(p[i]) && text::trimmed(p[i]) == p[i] && (!(anchor is Lead)
        ==> sheet_laws::is_prose(p[i])) by {
        let j = lemma_prose_member(e.comments, anchor, i);
        assert(text_laws::is_line(e.comments[j].text));
    }
}

proof fn lemma_comments_text(comments: Seq<CommentView>, anchor: CommentAnchor)
    ensures
        writer::comments_at(comments, anchor) == text_laws::as_text(prose_at(comments, anchor)),
        writer::has_comments_at(comments, anchor) == (prose_at(comments, anchor).len() > 0),
    decreases comments.len(),
{
    let f = |c: CommentView|
        if c.anchor == anchor {
            writer::as_line(c.text)
        } else {
            Seq::empty()
        };
    let none = Seq::<Seq<char>>::empty();
    if comments.len() == 0 {
        assert(comments.map_values(f) =~= none);
        assert(prose_at(comments, anchor).map_values(|l: Seq<char>| l.push('\n')) =~= none);
    } else {
        let front = comments.drop_last();
        lemma_comments_text(front, anchor);
        assert(comments.map_values(f).drop_last() =~= front.map_values(f));
        let p = prose_at(front, anchor);
        let c = comments.last();
        assert(comments[comments.len() - 1] == c);
        assert forall|i: int| 0 <= i < front.len() implies front[i] == comments[i] by {}
        if writer::has_comments_at(front, anchor) {
            let i = choose|i: int| 0 <= i < front.len() && (#[trigger] front[i]).anchor == anchor;
            assert(comments[i].anchor == anchor);
        }
        if c.anchor == anchor {
            assert(prose_at(comments, anchor) =~= p + seq![c.text]);
            text_laws::lemma_as_text_add(p, seq![c.text]);
            text_laws::lemma_as_text_one(c.text);
        } else {
            assert(writer::comments_at(comments, anchor) =~= writer::comments_at(front, anchor));
            if writer::has_comments_at(comments, anchor) {
                let i = choose|i: int|
                    0 <= i < comments.len() && (#[trigger] comments[i]).anchor == anchor;
                assert(front[i].anchor == anchor);
            }
        }
    }
}

/// Whether a text is that of some lines, with nothing behind them.
spec fn is_text_of(s: Seq<char>, lines: Seq<Seq<char>>) -> bool {
    is_closed(s) && text::lines_of(s) == lines
}

proof fn lemma_appended(s: Seq<char>, a: Seq<Seq<char>>, t: Seq<char>, b: Seq<Seq<char>>)
    requires
        is_text_of(s, a),
        is_text_of(t, b),
    ensures
        is_text_of(s + t, a + b),
{
    lemma_lines_add(s, t);
}

proof fn lemma_comments_written(e: EntryView, anchor: CommentAnchor)
    requires
        comments_fit(e),
    ensures
        is_text_of(writer::comments_at(e.comments, anchor), prose_at(e.comments, anchor)),
{
    lemma_comments_text(e.comments, anchor);
    lemma_prose_fits(e, anchor);
    lemma_lines_of_text(prose_at(e.comments, anchor));
}

proof fn lemma_rows_written(rows: Seq<RowView>)
    requires
        block_laws::rows_fit(rows),
    ensures
        is_text_of(writer::rows_text(rows), block_laws::stacked(rows)),
{
    block_laws::lemma_rows_written(rows);
    lemma_lines_of_text(block_laws::stacked(rows));
}

proof fn lemma_section_written(header: Seq<char>, line: Seq<char>, rows: Seq<RowView>)
    requires
        block_laws::rows_fit(rows),
        header == writer::as_line(line),
        is_text_of(header, seq![line]),
    ensures
        is_text_of(writer::section_text(header, rows), section_lines(line, rows)),
{
    if rows.len() > 0 {
        lemma_rows_written(rows);
        lemma_appended(header, seq![line], writer::rows_text(rows), block_laws::stacked(rows));
    }
}

/// The headers of the sections are lines of their own.
pub proof fn lemma_headers()
    ensures
        is_plain("[BasicAuth]"@),
        is_plain("[Cookies]"@),
        is_plain("[Query]"@),
        is_plain("[Form]"@),
        is_plain("[Multipart]"@),
        is_plain("[Options]"@),
        is_plain("[Asserts]"@),
        is_plain("[Captures]"@),
        "[BasicAuth]\n"@ == writer::as_line("[BasicAuth]"@),
        "[Cookies]\n"@ == writer::as_line("[Cookies]"@),
        "[Query]\n"@ == writer::as_line("[Query]"@),
        "[Form]\n"@ == writer::as_line("[Form]"@),
        "[Multipart]\n"@ == writer::as_line("[Multipart]"@),
        "[Options]\n"@ == writer::as_line("[Options]"@),
        "[Asserts]\n"@ == writer::as_line("[Asserts]"@),
        "[Captures]\n"@ == writer::as_line("[Captures]"@),
{
    reveal_strlit("[BasicAuth]");
    reveal_strlit("[Cookies]");
    reveal_strlit("[Query]");
    reveal_strlit("[Form]");
    reveal_strlit("[Multipart]");
    reveal_strlit("[Options]");
    reveal_strlit("[Asserts]");
    reveal_strlit("[Captures]");
    reveal_strlit("[BasicAuth]\n");
    reveal_strlit("[Cookies]\n");
    reveal_strlit("[Query]\n");
    reveal_strlit("[Form]\n");
    reveal_strlit("[Multipart]\n");
    reveal_strlit("[Options]\n");
    reveal_strlit("[Asserts]\n");
    reveal_strlit("[Captures]\n");
    assert("[BasicAuth]\n"@ =~= "[BasicAuth]"@.push('\n'));
    assert("[Cookies]\n"@ =~= "[Cookies]"@.push('\n'));
    assert("[Query]\n"@ =~= "[Query]"@.push('\n'));
    assert("[Form]\n"@ =~= "[Form]"@.push('\n'));
    assert("[Multipart]\n"@ =~= "[Multipart]"@.push('\n'));
    assert("[Options]\n"@ =~= "[Options]"@.push('\n'));
    assert("[Asserts]\n"@ =~= "[Asserts]"@.push('\n'));
    assert("[Captures]\n"@ =~= "[Captures]"@.push('\n'));
    lemma_header("[BasicAuth]"@);
    lemma_header("[Cookies]"@);
    lemma_header("[Query]"@);
    lemma_header("[Form]"@);
    lemma_header("[Multipart]"@);
    lemma_header("[Options]"@);
    lemma_header("[Asserts]"@);
    lemma_header("[Captures]"@);
}

proof fn lemma_auth_written(auth: Option<(Seq<char>, Seq<char>)>)
    requires
        auth matches Some(pair) ==> is_plain(writer::kv(pair.0, pair.1)),
    ensures
        is_text_of(writer::auth_text(auth), auth_lines(auth)),
{
    if let Some(pair) = auth {
        let line = writer::kv(pair.0, pair.1);
        lemma_headers();
        lemma_one_line("[BasicAuth]"@);
        lemma_one_line(line);
        lemma_appended("[BasicAuth]\n"@, seq!["[BasicAuth]"@], writer::as_line(line), seq![line]);
        assert(seq!["[BasicAuth]"@] + seq![line] =~= auth_lines(auth));
    }
}

proof fn lemma_form_written(fields: Seq<FieldView>)
    requires
        form_laws::fields_fit(fields),
    ensures
        is_text_of(
            writer::form_text(fields, parser::sends_file(fields)),
            form_lines(fields),
        ),
{
    if fields.len() > 0 {
        assert(writer::any_file(fields) == parser::sends_file(fields));
        form_laws::lemma_fields_written(fields);
        lemma_lines_of_text(form_laws::stacked(fields));
        lemma_headers();
        let h = form_header(fields);
        lemma_one_line(h);
        lemma_appended(
            writer::as_line(h),
            seq![h],
            text_laws::as_text(form_laws::stacked(fields)),
            form_laws::stacked(fields),
        );
    }
}

proof fn lemma_list_written(header: Seq<char>, items: Seq<Seq<char>>)
    requires
        text_laws::is_line(header),
        text_laws::are_lines(items),
        items.len() > 0,
    ensures
        is_text_of(
            writer::as_line(header) + text::concat(
                items.map_values(|a: Seq<char>| writer::as_line(a)),
            ),
            listed(header, items),
        ),
{
    lemma_one_line(header);
    lemma_lines_of_text(items);
    assert(items.map_values(|a: Seq<char>| writer::as_line(a)) =~= items.map_values(
        |l: Seq<char>| l.push('\n'),
    ));
    lemma_appended(writer::as_line(header), seq![header], text_laws::as_text(items), items);
}

/// The line of a capture.
pub proof fn lemma_capture_line(e: EntryView, i: int)
    requires
        fits(e),
        0 <= i < e.captures.len(),
    ensures
        is_plain(capture_rows(e.captures)[i]),
{
    let l = capture_rows(e.captures)[i];
    assert(line_laws::capture_fits(e.captures[i]));
    line_laws::a_written_capture_is_read_back(seq![l], e.captures[i], 1);
}

proof fn lemma_checks_written(e: EntryView)
    requires
        fits(e),
    ensures
        is_text_of(writer::asserts_text(e.asserts), listed("[Asserts]"@, e.asserts)),
        is_text_of(
            writer::captures_text(e.captures),
            listed("[Captures]"@, capture_rows(e.captures)),
        ),
{
    lemma_headers();
    if e.asserts.len() > 0 {
        assert forall|i: int| 0 <= i < e.asserts.len() implies text_laws::is_line(
            #[trigger] e.asserts[i],
        ) by {
            assert(is_plain(e.asserts[i]));
        }
        lemma_list_written("[Asserts]"@, e.asserts);
    }
    if e.captures.len() > 0 {
        let rows = capture_rows(e.captures);
        assert forall|i: int| 0 <= i < rows.len() implies text_laws::is_line(#[trigger] rows[i]) by {
            lemma_capture_line(e, i);
        }
        lemma_list_written("[Captures]"@, rows);
        assert(rows.map_values(|a: Seq<char>| writer::as_line(a)) =~= e.captures.map_values(
            |c: (Seq<char>, Seq<char>)| writer::as_line(writer::kv(c.0, c.1)),
        ));
    }
}

proof fn lemma_head_written(e: EntryView)
    requires
        fits(e),
    ensures
        is_text_of(
            writer::lead_text(e) + writer::title_text(e.title) + writer::request_line(
                e.method,
                e.url,
            ),
            head_lines(e),
        ),
{
    let lead = prose_at(e.comments, CommentAnchor::Lead);
    lemma_comments_written(e, CommentAnchor::Lead);
    lemma_comments_text(e.comments, CommentAnchor::Lead);
    let blank = Seq::<char>::empty();
    let c = writer::comments_at(e.comments, CommentAnchor::Lead);
    if lead.len() > 0 {
        lemma_one_line(blank);
        assert(writer::as_line(blank) =~= seq!['\n']);
        lemma_appended(c, lead, seq!['\n'], seq![blank]);
    } else {
        assert(lead =~= Seq::<Seq<char>>::empty());
        assert(c + Seq::<char>::empty() =~= c);
    }
    assert(is_text_of(writer::lead_text(e), lead_lines(e)));
    let t = writer::title_text(e.title);
    let tl = comment_laws::title_lines(e.title);
    assert(is_text_of(t, tl)) by {
        if e.title.len() > 0 {
            let l = "# "@ + e.title;
            line_laws::lemma_flattened(e.title);
            assert(writer::on_one_line(e.title) == e.title);
            comment_laws::lemma_title_words(e.title);
            lemma_one_line(l);
        } else {
            assert(text::trimmed(e.title).len() == 0);
        }
    }
    lemma_appended(writer::lead_text(e), lead_lines(e), t, tl);
    lemma_one_line(request_line(e));
    lemma_appended(
        writer::lead_text(e) + t,
        lead_lines(e) + tl,
        writer::request_line(e.method, e.url),
        seq![request_line(e)],
    );
}

/// A block's text behind what came before it.
proof fn lemma_block_appended(
    e: EntryView,
    k: int,
    s: Seq<char>,
    before: Seq<Seq<char>>,
    prose: Seq<char>,
    own: Seq<char>,
)
    requires
        0 <= k < block_count(),
        is_text_of(s, before + sheet_laws::laid(blocks(e, true).take(k))),
        is_text_of(prose, block(e, k, true).prose),
        is_text_of(own, block_lines(e, k)),
    ensures
        is_text_of(s + prose + own, before + sheet_laws::laid(blocks(e, true).take(k + 1))),
{
    let b = blocks(e, true);
    sheet_laws::lemma_laid_take(b, k);
    let l = before + sheet_laws::laid(b.take(k));
    lemma_appended(s, l, prose, b[k].prose);
    lemma_appended(s + prose, l + b[k].prose, own, b[k].own);
    assert(l + b[k].prose + b[k].own =~= before + (sheet_laws::laid(b.take(k)) + b[k].lines()));
}

proof fn lemma_prose_written(e: EntryView, k: int)
    requires
        comments_fit(e),
        k != 6,
    ensures
        is_text_of(
            writer::comments_at(e.comments, block_anchor(k)),
            block(e, k, true).prose,
        ),
{
    lemma_comments_written(e, block_anchor(k));
    assert(block(e, k, true).prose =~= prose_at(e.comments, block_anchor(k)));
}

proof fn lemma_body_written(body: Option<Seq<char>>)
    ensures
        is_text_of(writer::expected_body_text(body), body_lines(body)),
{
    if let Some(b) = body {
        lemma_closed_line(b);
    }
}

/// The comments that carry the body as it was authored.
spec fn authored_text(e: EntryView) -> Seq<char> {
    if is_noted(e) {
        writer::body_block(e.body_src.unwrap())
    } else {
        Seq::empty()
    }
}

proof fn lemma_authored_written(e: EntryView)
    requires
        fits(e),
    ensures
        is_text_of(
            writer::comments_at(e.comments, CommentAnchor::Body) + authored_text(e),
            block(e, 6, true).prose,
        ),
        writer::body_text(e.body_src) == authored_text(e) + writer::expected_body_text(sent(e)),
{
    lemma_comments_written(e, CommentAnchor::Body);
    if is_noted(e) {
        comment_laws::lemma_notes_written(e.body_src.unwrap());
        lemma_lines_of_text(authored_lines(e));
    }
    lemma_appended(
        writer::comments_at(e.comments, CommentAnchor::Body),
        prose_at(e.comments, CommentAnchor::Body),
        authored_text(e),
        authored_lines(e),
    );
    assert(writer::body_text(e.body_src) =~= authored_text(e) + writer::expected_body_text(
        sent(e),
    ));
}

proof fn lemma_grouped(r: Seq<char>, a: Seq<char>, b: Seq<char>, c: Seq<char>)
    ensures
        r + a + (b + c) == r + (a + b) + c,
{
    assert(r + a + (b + c) =~= r + (a + b) + c);
}

/// The first lines of an entry, down to its cookies.
spec fn upper_text(e: EntryView) -> Seq<char> {
    writer::lead_text(e) + writer::title_text(e.title) + writer::request_line(e.method, e.url)
        + writer::comments_at(e.comments, CommentAnchor::Headers) + writer::rows_text(e.headers)
        + writer::comments_at(e.comments, CommentAnchor::BasicAuth) + writer::auth_text(
        e.basic_auth,
    ) + writer::comments_at(e.comments, CommentAnchor::Cookies) + writer::section_text(
        "[Cookies]\n"@,
        e.cookies,
    )
}

proof fn lemma_upper_written(e: EntryView)
    requires
        fits(e),
    ensures
        is_text_of(upper_text(e), head_lines(e) + sheet_laws::laid(blocks(e, true).take(3))),
{
    let h = head_lines(e);
    let c = e.comments;
    let t = writer::lead_text(e) + writer::title_text(e.title) + writer::request_line(
        e.method,
        e.url,
    );
    lemma_head_written(e);
    lemma_headers();
    assert(blocks(e, true).take(0) =~= Seq::<Slab>::empty());
    assert(h + sheet_laws::laid(blocks(e, true).take(0)) =~= h);
    let c0 = writer::comments_at(c, CommentAnchor::Headers);
    let p0 = writer::rows_text(e.headers);
    lemma_prose_written(e, 0);
    lemma_rows_written(e.headers);
    lemma_block_appended(e, 0, t, h, c0, p0);
    let t = t + c0 + p0;
    let c1 = writer::comments_at(c, CommentAnchor::BasicAuth);
    let p1 = writer::auth_text(e.basic_auth);
    lemma_prose_written(e, 1);
    lemma_auth_written(e.basic_auth);
    lemma_block_appended(e, 1, t, h, c1, p1);
    let t = t + c1 + p1;
    let c2 = writer::comments_at(c, CommentAnchor::Cookies);
    let p2 = writer::section_text("[Cookies]\n"@, e.cookies);
    lemma_prose_written(e, 2);
    lemma_one_line("[Cookies]"@);
    lemma_section_written("[Cookies]\n"@, "[Cookies]"@, e.cookies);
    lemma_block_appended(e, 2, t, h, c2, p2);
}

/// The request's part of an entry is written as its lines.
proof fn lemma_request_written(e: EntryView)
    requires
        fits(e),
    ensures
        is_text_of(
            writer::request_text(e),
            head_lines(e) + sheet_laws::laid(blocks(e, true).take(7)),
        ),
{
    let h = head_lines(e);
    let c = e.comments;
    let t = upper_text(e);
    lemma_upper_written(e);
    lemma_headers();
    let c3 = writer::comments_at(c, CommentAnchor::Query);
    let p3 = writer::section_text("[Query]\n"@, e.queries);
    lemma_prose_written(e, 3);
    lemma_one_line("[Query]"@);
    lemma_section_written("[Query]\n"@, "[Query]"@, e.queries);
    lemma_block_appended(e, 3, t, h, c3, p3);
    let t = t + c3 + p3;
    let c4 = writer::comments_at(c, CommentAnchor::Form);
    let p4 = writer::form_text(e.form_fields, e.is_multipart);
    lemma_prose_written(e, 4);
    lemma_form_written(e.form_fields);
    lemma_block_appended(e, 4, t, h, c4, p4);
    let t = t + c4 + p4;
    let c5 = writer::comments_at(c, CommentAnchor::Options);
    let p5 = writer::section_text("[Options]\n"@, e.options);
    lemma_prose_written(e, 5);
    lemma_one_line("[Options]"@);
    lemma_section_written("[Options]\n"@, "[Options]"@, e.options);
    lemma_block_appended(e, 5, t, h, c5, p5);
    let t = t + c5 + p5;
    let c6 = writer::comments_at(c, CommentAnchor::Body);
    let p6 = writer::expected_body_text(sent(e));
    let n6 = authored_text(e);
    lemma_authored_written(e);
    lemma_body_written(sent(e));
    lemma_block_appended(e, 6, t, h, c6 + n6, p6);
    lemma_grouped(t, c6, n6, p6);
}

/// An entry that fits is written as its lines.
pub proof fn a_written_entry_has_these_lines(e: EntryView)
    requires
        fits(e),
    ensures
        text::lines_of(writer::hurl_text(e)) == entry_lines(e),
        is_closed(writer::hurl_text(e)),
{
    let h = head_lines(e);
    let c = e.comments;
    let r = writer::request_text(e);
    lemma_request_written(e);
    let c7 = writer::comments_at(c, CommentAnchor::Response);
    let p7 = writer::status_text(e);
    lemma_prose_written(e, 7);
    if writer::has_response_area(e) {
        lemma_one_line(status_line(e));
    }
    lemma_block_appended(e, 7, r, h, c7, p7);
    let c8 = writer::comments_at(c, CommentAnchor::ResponseHeaders);
    let p8 = writer::rows_text(e.response_headers);
    lemma_prose_written(e, 8);
    lemma_rows_written(e.response_headers);
    lemma_block_appended(e, 8, r + c7 + p7, h, c8, p8);
    let c9 = writer::comments_at(c, CommentAnchor::Asserts);
    let p9 = writer::asserts_text(e.asserts);
    lemma_prose_written(e, 9);
    lemma_checks_written(e);
    lemma_block_appended(e, 9, r + c7 + p7 + c8 + p8, h, c9, p9);
    let c10 = writer::comments_at(c, CommentAnchor::Captures);
    let p10 = writer::captures_text(e.captures);
    lemma_prose_written(e, 10);
    lemma_block_appended(e, 10, r + c7 + p7 + c8 + p8 + c9 + p9, h, c10, p10);
    let c11 = writer::comments_at(c, CommentAnchor::ResponseBody);
    let p11 = writer::expected_body_text(e.response_body);
    lemma_prose_written(e, 11);
    lemma_body_written(e.response_body);
    let t = r + c7 + p7 + c8 + p8 + c9 + p9 + c10 + p10;
    lemma_block_appended(e, 11, t, h, c11, p11);
    let b = blocks(e, true);
    assert(b.take(12) =~= b);
    let t = t + c11 + p11;
    let q = writer::reports_text(e.reports);
    let z = writer::comments_at(c, CommentAnchor::Trailing);
    comment_laws::lemma_reports_written(e.reports);
    lemma_lines_of_text(comment_laws::report_lines(e.reports));
    lemma_comments_written(e, CommentAnchor::Trailing);
    lemma_appended(t, h + sheet_laws::laid(b), q, comment_laws::report_lines(e.reports));
    lemma_appended(
        t + q,
        h + sheet_laws::laid(b) + comment_laws::report_lines(e.reports),
        z,
        prose_at(c, CommentAnchor::Trailing),
    );
    lemma_regrouped(r, c7, p7, c8, p8);
    let s = c7 + p7 + c8 + p8;
    lemma_regrouped(r, s, c9, p9, c10);
    lemma_regrouped(r, s + c9 + p9 + c10, p10, c11, p11);
    lemma_regrouped(r, s + c9 + p9 + c10 + p10 + c11 + p11, q, z, Seq::empty());
    assert(t + q + z + Seq::<char>::empty() =~= t + q + z);
    let whole = writer::response_text(e);
    assert(whole + Seq::<char>::empty() =~= whole);
}

proof fn lemma_regrouped(r: Seq<char>, a: Seq<char>, b: Seq<char>, c: Seq<char>, d: Seq<char>)
    ensures
        r + (a + b + c + d) == r + a + b + c + d,
{
    assert(r + (a + b + c + d) =~= r + a + b + c + d);
}

} // verus!
