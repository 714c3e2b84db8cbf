//! What is read from a Hurl file.
//!
//! Hurl's own parser says what the parts are and on which lines they stand. The laws
//! here say what of that, and of the lines, a request comes to hold.
use vstd::prelude::*;

use crate::body_notes;
use crate::comment_scan;
use crate::entry::{CommentAnchor, CommentView, EntryView};
use crate::file_laws;
use crate::json_comments;
use crate::parser;
use crate::scan_laws;
use crate::shape::{BodyView, CheckTag, CheckView, EntryShapeView, SectionBodyView, SectionView};
use crate::source;
use crate::text;
use crate::text_laws;

verus! {

/// The request that the `i`-th entry of a parsed text is read as.
pub open spec fn read(shapes: Seq<EntryShapeView>, content: Seq<char>, i: int) -> EntryView {
    parser::requests(shapes, content)[i]
}

// ---------------------------------------------------------------------------
// Bodies
// ---------------------------------------------------------------------------
/// Whether a body is what stands between white space in the text that the parser
/// gives, and there is none where that is white space alone or there is no such text.
pub open spec fn is_body_of(
    lines: Seq<Seq<char>>,
    found: Option<BodyView>,
    body: Option<Seq<char>>,
) -> bool {
    match found {
        None => body is None,
        Some(b) => {
            let t = file_laws::value_found(lines, b.value);
            if exists|i: int| 0 <= i < t.len() && !text::is_white(#[trigger] t[i]) {
                body is Some && text_laws::is_core(t, body.unwrap())
            } else {
                body is None
            }
        },
    }
}

proof fn lemma_body(lines: Seq<Seq<char>>, found: Option<BodyView>)
    ensures
        is_body_of(lines, found, parser::body_text_of(lines, found)),
{
    if let Some(b) = found {
        let t = file_laws::value_found(lines, b.value);
        text_laws::trimming_leaves_the_core(t);
        text_laws::trimming_leaves_the_core(Seq::empty());
        if exists|i: int| 0 <= i < t.len() && !text::is_white(#[trigger] t[i]) {
            text_laws::a_core_is_what_trimming_leaves(t, text::trimmed(t));
        }
    }
}

/// The body that is expected of a response is the text that stands in the file, all of
/// it in one piece, without the white space around it.
pub proof fn an_expected_body_is_read_as_it_stands(
    shapes: Seq<EntryShapeView>,
    content: Seq<char>,
    i: int,
)
    requires
        0 <= i < shapes.len(),
    ensures
        is_body_of(
            text::lines_of(content),
            match shapes[i].response {
                Some(r) => r.body,
                None => None,
            },
            read(shapes, content, i).response_body,
        ),
{
    let lines = text::lines_of(content);
    match shapes[i].response {
        Some(r) => {
            lemma_body(lines, r.body);
        },
        None => {},
    }
}

/// The comments that are found among the lines of a request.
pub open spec fn comments_found(
    shapes: Seq<EntryShapeView>,
    content: Seq<char>,
    i: int,
) -> Seq<CommentView> {
    let lines = text::lines_of(content);
    let end = if i + 1 < shapes.len() {
        parser::method_line(lines, shapes[i + 1])
    } else {
        lines.len() as int
    };
    comment_scan::comments_in(
        parser::window_of(lines, shapes[i], parser::method_line(lines, shapes[i]), end),
        i == 0,
    )
}

/// A request's body is the text that stands in the file, all of it in one piece,
/// without the white space around it. Only comments before it can change that: where
/// they carry a body that comes to the same on the wire, it is that one.
pub proof fn a_body_is_read_as_it_stands(shapes: Seq<EntryShapeView>, content: Seq<char>, i: int)
    requires
        0 <= i < shapes.len(),
    ensures
        ({
            let lines = text::lines_of(content);
            let got = read(shapes, content, i).body_src;
            let notes = comments_found(shapes, content, i);
            &&& shapes[i].body is None ==> got is None
            &&& (forall|k: int| 0 <= k < notes.len() ==> !((#[trigger] notes[k]).anchor is Body))
                ==> is_body_of(lines, shapes[i].body, got)
            &&& is_body_of(lines, shapes[i].body, got) || exists|core: Seq<char>|
                #[trigger] is_body_of(lines, shapes[i].body, Some(core)) && got is Some
                    && json_comments::equivalent(json_comments::wire(got.unwrap()), core)
        }),
{
    let lines = text::lines_of(content);
    let notes = comments_found(shapes, content, i);
    let plain = parser::body_text_of(lines, shapes[i].body);
    lemma_body(lines, shapes[i].body);
    if let Some(b) = plain {
        let at = body_notes::positions(notes, CommentAnchor::Body);
        lemma_block_reconciles(notes, at, 0, b);
        if forall|k: int| 0 <= k < notes.len() ==> !((#[trigger] notes[k]).anchor is Body) {
            lemma_no_positions(notes);
        }
        assert(is_body_of(lines, shapes[i].body, Some(b)));
    }
}

proof fn lemma_block_reconciles(
    comments: Seq<CommentView>,
    at: Seq<int>,
    pos: int,
    body: Seq<char>,
)
    ensures
        body_notes::block_from(comments, at, pos, Some(body)) matches Some(block)
            ==> json_comments::equivalent(json_comments::wire(block.1), body),
    decreases at.len() - pos,
{
    if pos < at.len() {
        lemma_block_reconciles(comments, at, pos + 1, body);
    }
}

proof fn lemma_no_positions(comments: Seq<CommentView>)
    requires
        forall|k: int| 0 <= k < comments.len() ==> !((#[trigger] comments[k]).anchor is Body),
    ensures
        body_notes::positions(comments, CommentAnchor::Body).len() == 0,
    decreases comments.len(),
{
    if comments.len() > 0 {
        let front = comments.drop_last();
        assert forall|k: int| 0 <= k < front.len() implies !((#[trigger] front[k]).anchor is Body) by {
            assert(front[k] == comments[k]);
        }
        assert(!(comments[comments.len() - 1].anchor is Body));
        lemma_no_positions(front);
    }
}

// ---------------------------------------------------------------------------
// What the parser says
// ---------------------------------------------------------------------------
/// Every entry of a parsed text is read as a request, in order, with the method and
/// the URL that the parser found, and what it found of the response line. Without a
/// response nothing is expected.
pub proof fn what_the_parser_found_is_read(
    shapes: Seq<EntryShapeView>,
    content: Seq<char>,
    i: int,
)
    requires
        0 <= i < shapes.len(),
    ensures
        parser::requests(shapes, content).len() == shapes.len(),
        ({
            let got = read(shapes, content, i);
            &&& got.method == shapes[i].request.method
            &&& got.url == shapes[i].request.url
            &&& match shapes[i].response {
                Some(r) => {
                    &&& got.response_version == r.head.version
                    &&& r.head.status is None ==> got.expected_status is None
                    &&& r.head.status matches Some(n) ==> n <= u16::MAX ==> got.expected_status
                        == Some(n as u16)
                },
                None => {
                    &&& got.response_version is None && got.expected_status is None
                    &&& got.response_headers.len() == 0 && got.response_body is None
                    &&& got.captures.len() == 0 && got.asserts.len() == 0
                },
            }
        }),
{
}

/// The user name and password of a request are the last that the parser found.
pub proof fn the_last_credentials_count(shapes: Seq<EntryShapeView>, content: Seq<char>, i: int)
    requires
        0 <= i < shapes.len(),
    ensures
        ({
            let got = read(shapes, content, i).basic_auth;
            let sections = shapes[i].sections;
            &&& (forall|j: int|
                0 <= j < sections.len() ==> !gives_credentials(#[trigger] sections[j]))
                ==> got is None
            &&& forall|j: int|
                0 <= j < sections.len() && #[trigger] gives_credentials(sections[j]) && (forall|
                    k: int,
                |
                    j < k < sections.len() ==> !gives_credentials(#[trigger] sections[k]))
                    ==> sections[j].body == SectionBodyView::BasicAuth(got)
        }),
{
    lemma_auth(shapes[i].sections);
}

/// Whether a section gives a user name and a password.
pub open spec fn gives_credentials(s: SectionView) -> bool {
    s.body matches SectionBodyView::BasicAuth(pair) && pair is Some
}

proof fn lemma_auth(sections: Seq<SectionView>)
    ensures
        (forall|j: int| 0 <= j < sections.len() ==> !gives_credentials(#[trigger] sections[j]))
            ==> parser::auth_in(sections) is None,
        forall|j: int|
            0 <= j < sections.len() && #[trigger] gives_credentials(sections[j]) && (forall|k: int|
                j < k < sections.len() ==> !gives_credentials(#[trigger] sections[k]))
                ==> sections[j].body == SectionBodyView::BasicAuth(parser::auth_in(sections)),
    decreases sections.len(),
{
    if sections.len() > 0 {
        let front = sections.drop_last();
        let n = sections.len() - 1;
        lemma_auth(front);
        assert forall|j: int| 0 <= j < front.len() implies front[j] == #[trigger] sections[j] by {}
        assert(gives_credentials(sections[n]) == gives_credentials(sections.last()));
        if gives_credentials(sections.last()) {
            assert forall|j: int|
                0 <= j < sections.len() && #[trigger] gives_credentials(sections[j]) && (forall|
                    k: int,
                |
                    j < k < sections.len() ==> !gives_credentials(#[trigger] sections[k])) implies j
                == n by {
                if j < n {
                    assert(gives_credentials(sections[n]));
                }
            }
        } else {
            assert forall|j: int|
                0 <= j < sections.len() && #[trigger] gives_credentials(sections[j]) && (forall|
                    k: int,
                |
                    j < k < sections.len() ==> !gives_credentials(#[trigger] sections[k])) implies
                sections[j].body == SectionBodyView::BasicAuth(parser::auth_in(front)) by {
                assert(j < n);
                assert(gives_credentials(front[j]));
                assert forall|k: int| j < k < front.len() implies !gives_credentials(
                    #[trigger] front[k],
                ) by {
                    assert(!gives_credentials(sections[k]));
                }
            }
        }
    }
}

// ---------------------------------------------------------------------------
// Assertions and captures
// ---------------------------------------------------------------------------
/// Whether `j` is the last of some sections of a response with a tag.
pub open spec fn is_last_check(sections: Seq<CheckView>, tag: CheckTag, j: int) -> bool {
    &&& 0 <= j < sections.len() && sections[j].tag == tag
    &&& forall|k: int| j < k < sections.len() ==> (#[trigger] sections[k]).tag != tag
}

/// Whether there is something on the line numbered `n`, counted from one.
pub open spec fn has_words(lines: Seq<Seq<char>>, n: usize) -> bool {
    1 <= n <= lines.len() && exists|i: int|
        0 <= i < lines[n - 1].len() && !text::is_white(#[trigger] lines[n - 1][i])
}

proof fn lemma_last_check(sections: Seq<CheckView>, tag: CheckTag, j: int)
    requires
        is_last_check(sections, tag, j),
    ensures
        parser::last_check(sections, tag) == Some(sections[j]),
    decreases sections.len(),
{
    if j < sections.len() - 1 {
        assert(sections[sections.len() - 1].tag != tag);
        assert forall|k: int| j < k < sections.drop_last().len() implies (
        #[trigger] sections.drop_last()[k]).tag != tag by {
            assert(sections.drop_last()[k] == sections[k]);
        }
        lemma_last_check(sections.drop_last(), tag, j);
    }
}

/// The assertions of a request are those of its last `[Asserts]` section: each the words
/// of its line, as they stand, in the order in which the parser found them.
pub proof fn assertions_are_read_as_they_stand(
    shapes: Seq<EntryShapeView>,
    content: Seq<char>,
    i: int,
    j: int,
)
    requires
        0 <= i < shapes.len(),
        shapes[i].response is Some,
        is_last_check(shapes[i].response.unwrap().sections, CheckTag::Asserts, j),
        forall|k: int|
            0 <= k < shapes[i].response.unwrap().sections[j].queries.len() ==> has_words(
                text::lines_of(content),
                #[trigger] shapes[i].response.unwrap().sections[j].queries[k],
            ),
    ensures
        ({
            let got = read(shapes, content, i).asserts;
            let queries = shapes[i].response.unwrap().sections[j].queries;
            &&& got.len() == queries.len()
            &&& forall|k: int|
                0 <= k < got.len() ==> text_laws::is_core(
                    text::lines_of(content)[queries[k] - 1],
                    #[trigger] got[k],
                )
        }),
{
    lemma_last_check(shapes[i].response.unwrap().sections, CheckTag::Asserts, j);
    lemma_asserts_on(
        text::lines_of(content),
        shapes[i].response.unwrap().sections[j].queries,
    );
}

proof fn lemma_asserts_on(lines: Seq<Seq<char>>, queries: Seq<usize>)
    requires
        forall|k: int| 0 <= k < queries.len() ==> has_words(lines, #[trigger] queries[k]),
    ensures
        ({
            let got = parser::asserts_on(lines, queries);
            &&& got.len() == queries.len()
            &&& forall|k: int|
                0 <= k < got.len() ==> text_laws::is_core(
                    lines[queries[k] - 1],
                    #[trigger] got[k],
                )
        }),
    decreases queries.len(),
{
    if queries.len() > 0 {
        let front = queries.drop_last();
        assert forall|k: int| 0 <= k < front.len() implies has_words(
            lines,
            #[trigger] front[k],
        ) by {
            assert(front[k] == queries[k]);
        }
        lemma_asserts_on(lines, front);
        assert(has_words(lines, queries[queries.len() - 1]));
        text_laws::trimming_leaves_the_core(lines[queries.last() - 1]);
    }
}

/// Whether a capture is what a line says: a name, and behind the line's first colon a
/// query.
pub open spec fn is_capture_on(line: Seq<char>, c: (Seq<char>, Seq<char>)) -> bool {
    exists|n: int|
        {
            &&& 0 <= n < text::trimmed(line).len()
            &&& #[trigger] text::trimmed(line)[n] == ':'
            &&& forall|m: int| 0 <= m < n ==> #[trigger] text::trimmed(line)[m] != ':'
            &&& c.0 == text::trimmed(text::trimmed(line).take(n))
            &&& c.1 == text::trimmed(text::trimmed(line).skip(n + 1))
        }
}

/// The captures of a request are those of its last `[Captures]` section: each with its
/// name and its query, in the order in which the parser found them.
pub proof fn captures_are_read_as_they_stand(
    shapes: Seq<EntryShapeView>,
    content: Seq<char>,
    i: int,
    j: int,
)
    requires
        0 <= i < shapes.len(),
        shapes[i].response is Some,
        is_last_check(shapes[i].response.unwrap().sections, CheckTag::Captures, j),
        forall|k: int|
            0 <= k < shapes[i].response.unwrap().sections[j].queries.len() ==> has_colon(
                text::lines_of(content),
                #[trigger] shapes[i].response.unwrap().sections[j].queries[k],
            ),
    ensures
        ({
            let got = read(shapes, content, i).captures;
            let queries = shapes[i].response.unwrap().sections[j].queries;
            &&& got.len() == queries.len()
            &&& forall|k: int|
                0 <= k < got.len() ==> is_capture_on(
                    text::lines_of(content)[queries[k] - 1],
                    #[trigger] got[k],
                )
        }),
{
    lemma_last_check(shapes[i].response.unwrap().sections, CheckTag::Captures, j);
    lemma_captures_on(
        text::lines_of(content),
        shapes[i].response.unwrap().sections[j].queries,
    );
}

/// Whether there is a colon on the line numbered `n`, counted from one.
pub open spec fn has_colon(lines: Seq<Seq<char>>, n: usize) -> bool {
    1 <= n <= lines.len() && lines[n - 1].contains(':')
}

proof fn lemma_capture_on(lines: Seq<Seq<char>>, n: usize)
    requires
        has_colon(lines, n),
    ensures
        source::capture_on(lines, n) matches Some(c) && is_capture_on(lines[n - 1], c),
{
    let line = lines[n - 1];
    let i = choose|i: int| 0 <= i < line.len() && line[i] == ':';
    assert(!text::is_white(line[i]));
    text_laws::trimming_leaves_the_core(line);
    let t = text::trimmed(line);
    let (a, b) = choose|a: int, b: int| #[trigger] text_laws::is_core_at(line, t, a, b);
    assert(a <= i < b) by {
        if i < a || b <= i {
            assert(text::is_white(line[i]));
        }
    }
    assert(t[i - a] == ':');
    let c = text::find(t, ':');
    text::lemma_find_from(t, ':', 0);
    assert(c < t.len()) by {
        if c >= t.len() {
            assert(t[i - a] != ':');
        }
    }
    assert(t[c] == ':');
}

proof fn lemma_captures_on(lines: Seq<Seq<char>>, queries: Seq<usize>)
    requires
        forall|k: int| 0 <= k < queries.len() ==> has_colon(lines, #[trigger] queries[k]),
    ensures
        ({
            let got = parser::captures_on(lines, queries);
            &&& got.len() == queries.len()
            &&& forall|k: int|
                0 <= k < got.len() ==> is_capture_on(lines[queries[k] - 1], #[trigger] got[k])
        }),
    decreases queries.len(),
{
    if queries.len() > 0 {
        let front = queries.drop_last();
        assert forall|k: int| 0 <= k < front.len() implies has_colon(
            lines,
            #[trigger] front[k],
        ) by {
            assert(front[k] == queries[k]);
        }
        lemma_captures_on(lines, front);
        assert(has_colon(lines, queries[queries.len() - 1]));
        lemma_capture_on(lines, queries.last());
    }
}

// ---------------------------------------------------------------------------
// Rows
// ---------------------------------------------------------------------------
/// A request's headers are the rows below its URL, up to the first of its parts below
/// that; its queries, cookies and options are those of their sections, and its form has
/// the fields of its own. It is multipart where a field that is enabled names a file.
/// Its title is what stands right above its method.
pub proof fn a_request_holds_its_rows(shapes: Seq<EntryShapeView>, content: Seq<char>, i: int)
    requires
        0 <= i < shapes.len(),
    ensures
        ({
            let lines = text::lines_of(content);
            let e = shapes[i];
            let got = read(shapes, content, i);
            &&& exists|b: Option<usize>|
                #[trigger] scan_laws::is_next_part(e, e.request.url_line as int, b) && got.headers
                    == source::rows_in(lines, e.request.url_line as int, b)
            &&& got.queries == parser::rows_of_section(lines, e, CommentAnchor::Query)
            &&& got.cookies == parser::rows_of_section(lines, e, CommentAnchor::Cookies)
            &&& got.options == parser::rows_of_section(lines, e, CommentAnchor::Options)
            &&& got.form_fields == parser::form_of(lines, e)
            &&& got.is_multipart == exists|k: int|
                0 <= k < got.form_fields.len() && (#[trigger] got.form_fields[k]).enabled
                    && !(got.form_fields[k].kind is Text)
            &&& got.title == source::title_above(lines, parser::method_line(lines, e))
        }),
{
    let e = shapes[i];
    let got = read(shapes, content, i);
    scan_laws::lemma_next_part(e, e.request.url_line as int);
    assert(got.is_multipart == parser::sends_file(got.form_fields));
    if got.is_multipart {
        let k = choose|k: int|
            0 <= k < got.form_fields.len() && (#[trigger] got.form_fields[k]).enabled
                && got.form_fields[k].kind.names_file();
        assert(!(got.form_fields[k].kind is Text));
    }
    assert forall|k: int|
        0 <= k < got.form_fields.len() && (#[trigger] got.form_fields[k]).enabled && !(
        got.form_fields[k].kind is Text) implies got.is_multipart by {
        assert(got.form_fields[k].kind.names_file());
    }
}

/// The headers that are expected of a response are the rows below its line, up to the
/// first of its parts.
pub proof fn expected_headers_stand_below_the_response_line(
    shapes: Seq<EntryShapeView>,
    content: Seq<char>,
    i: int,
)
    requires
        0 <= i < shapes.len(),
        shapes[i].response is Some,
    ensures
        ({
            let r = shapes[i].response.unwrap();
            exists|b: Option<usize>|
                #[trigger] scan_laws::is_first_check(r, b) && read(
                    shapes,
                    content,
                    i,
                ).response_headers == source::rows_in(
                    text::lines_of(content),
                    r.head.line as int,
                    b,
                )
        }),
{
    scan_laws::lemma_first_check(shapes[i].response.unwrap());
}

/// Where a request's comments carry no body, they are just those that were found among
/// its lines.
pub proof fn comments_are_read_as_they_were_found(
    shapes: Seq<EntryShapeView>,
    content: Seq<char>,
    i: int,
)
    requires
        0 <= i < shapes.len(),
        forall|k: int|
            0 <= k < comments_found(shapes, content, i).len() ==> !((#[trigger] comments_found(
                shapes,
                content,
                i,
            )[k]).anchor is Body),
    ensures
        read(shapes, content, i).comments == comments_found(shapes, content, i),
{
    lemma_no_positions(comments_found(shapes, content, i));
}

} // verus!
