//! What holds of a request before it is sent, and of what is kept with it.
use vstd::prelude::*;

use crate::adopt;
use crate::body_notes;
use crate::entry::{CommentAnchor, CommentView, EntryView, FieldView, FormFieldKind, RowView};
use crate::json_comments;
use crate::parser;
use crate::request;
use crate::source;
use crate::text;
use crate::text_laws;
use crate::writer;

verus! {

// ---------------------------------------------------------------------------
// Lengths
// ---------------------------------------------------------------------------
/// Whether a request has something to send: a form, or a body with more than white
/// space in what is sent of it.
pub open spec fn has_content(e: EntryView) -> bool {
    ||| e.form_fields.len() > 0
    ||| e.body_src matches Some(b) && exists|i: int|
        0 <= i < json_comments::wire(b).len() && !text::is_white(
            #[trigger] json_comments::wire(b)[i],
        )
}

/// Whether a name is that of the header that says a length, in letters of either case.
pub open spec fn says_length(name: Seq<char>) -> bool {
    text::lowered(name) == text::lowered("Content-Length"@)
}

/// Whether two texts are the same but for the case of their letters.
pub open spec fn same_letters(a: Seq<char>, b: Seq<char>) -> bool {
    a.len() == b.len() && forall|i: int|
        0 <= i < a.len() ==> text::ascii_lower(#[trigger] a[i]) == text::ascii_lower(b[i])
}

proof fn lemma_same_letters(a: Seq<char>, b: Seq<char>)
    ensures
        same_letters(a, b) == (text::lowered(a) == text::lowered(b)),
{
    if text::lowered(a) == text::lowered(b) {
        assert(text::lowered(a).len() == a.len() && text::lowered(b).len() == b.len());
        assert forall|i: int| 0 <= i < a.len() implies text::ascii_lower(#[trigger] a[i])
            == text::ascii_lower(b[i]) by {
            assert(text::lowered(a)[i] == text::lowered(b)[i]);
        }
    } else if same_letters(a, b) {
        assert(text::lowered(a) =~= text::lowered(b));
    }
}

/// A length is said of nothing just where a request with a method that carries a body
/// has nothing to send and says no length itself, be it in a row that is disabled.
pub proof fn a_length_is_said_where_one_is_missing(e: EntryView)
    ensures
        ({
            let said = exists|i: int|
                0 <= i < e.headers.len() && says_length((#[trigger] e.headers[i]).key);
            let carries = same_letters(e.method, "POST"@) || same_letters(e.method, "PUT"@)
                || same_letters(e.method, "PATCH"@) || same_letters(e.method, "DELETE"@);
            request::lacks_length(e) == (carries && !has_content(e) && !said)
        }),
{
    lemma_same_letters(e.method, "POST"@);
    lemma_same_letters(e.method, "PUT"@);
    lemma_same_letters(e.method, "PATCH"@);
    lemma_same_letters(e.method, "DELETE"@);
    reveal_strlit("Content-Length");
    reveal_strlit("content-length");
    lemma_same_letters("Content-Length"@, "content-length"@);
    assert(same_letters("Content-Length"@, "content-length"@));
    if let Some(b) = e.body_src {
        let w = json_comments::wire(b);
        text_laws::trimming_leaves_the_core(w);
        if !(exists|i: int| 0 <= i < w.len() && !text::is_white(#[trigger] w[i])) {
            assert(forall|i: int| 0 <= i < w.len() ==> text::is_white(#[trigger] w[i]));
        }
    }
    let said = exists|i: int|
        0 <= i < e.headers.len() && says_length((#[trigger] e.headers[i]).key);
    if said {
        let i = choose|i: int|
            0 <= i < e.headers.len() && says_length((#[trigger] e.headers[i]).key);
        assert(request::same_name(e.headers[i].key, "content-length"@));
    }
    if request::has_header(e.headers, "content-length"@) {
        let i = choose|i: int|
            0 <= i < e.headers.len() && request::same_name(
                (#[trigger] e.headers[i]).key,
                "content-length"@,
            );
        assert(says_length(e.headers[i].key));
    }
}

// ---------------------------------------------------------------------------
// Fields and rows
// ---------------------------------------------------------------------------
/// Whether a field would be sent with a file that it does not name.
pub open spec fn names_no_file(f: FieldView) -> bool {
    &&& f.enabled
    &&& f.kind != FormFieldKind::Text
    &&& forall|i: int| 0 <= i < f.value.len() ==> text::is_white(#[trigger] f.value[i])
}

/// The field that is told of is the first that names no file.
pub proof fn the_first_field_without_a_file_is_told(fields: Seq<FieldView>, i: int)
    requires
        0 <= i <= fields.len(),
        forall|j: int| 0 <= j < i ==> !names_no_file(#[trigger] fields[j]),
        i < fields.len() ==> names_no_file(fields[i]),
    ensures
        request::empty_file_field(fields) == i,
    decreases i,
{
    if fields.len() > 0 {
        let f = fields[0];
        text_laws::trimming_leaves_the_core(f.value);
        if names_no_file(f) {
            assert(f.kind.names_file());
        } else if f.enabled && f.kind.names_file() {
            assert(!(forall|k: int| 0 <= k < f.value.len() ==> text::is_white(
                #[trigger] f.value[k],
            )));
        }
        if i > 0 {
            assert(!names_no_file(fields[0]));
            let rest = fields.drop_first();
            assert forall|j: int| 0 <= j < i - 1 implies !names_no_file(#[trigger] rest[j]) by {
                assert(rest[j] == fields[j + 1]);
            }
            if i < fields.len() {
                assert(rest[i - 1] == fields[i]);
            }
            the_first_field_without_a_file_is_told(rest, i - 1);
        }
    }
}

/// Of rows that were entered those stay that have a name, in their order: without the
/// white space around name and value, and with nothing else changed.
pub proof fn rows_without_a_name_are_dropped(before: Seq<RowView>, behind: Seq<RowView>, row: RowView)
    ensures
        request::tidy_rows(before + behind) == request::tidy_rows(before) + request::tidy_rows(
            behind,
        ),
        (forall|i: int| 0 <= i < row.key.len() ==> text::is_white(#[trigger] row.key[i]))
            ==> request::tidy_rows(seq![row]).len() == 0,
        (exists|i: int| 0 <= i < row.key.len() && !text::is_white(#[trigger] row.key[i]))
            ==> request::tidy_rows(seq![row]) == seq![
            RowView { key: text::trimmed(row.key), value: text::trimmed(row.value), ..row },
        ],
    decreases behind.len(),
{
    text_laws::trimming_leaves_the_core(row.key);
    if exists|i: int| 0 <= i < row.key.len() && !text::is_white(#[trigger] row.key[i]) {
        let core = text::trimmed(row.key);
        let (a, b) = choose|a: int, b: int| #[trigger] text_laws::is_core_at(row.key, core, a, b);
        assert(core.len() > 0);
    }
    assert(seq![row].drop_last() =~= Seq::<RowView>::empty());
    assert(request::tidy_rows(Seq::<RowView>::empty()).len() == 0);
    if behind.len() == 0 {
        assert(before + behind =~= before);
    } else {
        let less = behind.drop_last();
        rows_without_a_name_are_dropped(before, less, row);
        assert((before + behind).drop_last() =~= before + less);
        assert((before + behind).last() == behind.last());
    }
}

// ---------------------------------------------------------------------------
// Unreadable texts
// ---------------------------------------------------------------------------
proof fn lemma_first_comment(lines: Seq<Seq<char>>, i: int)
    requires
        0 <= i <= lines.len(),
        forall|j: int| 0 <= j < i ==> !source::is_comment(#[trigger] lines[j]),
        i < lines.len() ==> source::is_comment(lines[i]),
    ensures
        request::first_comment(lines) == if i < lines.len() {
            Some(text::trimmed(lines[i]))
        } else {
            None
        },
    decreases i,
{
    if i > 0 {
        let rest = lines.drop_first();
        assert(!source::is_comment(lines[0]));
        assert forall|j: int| 0 <= j < i - 1 implies !source::is_comment(#[trigger] rest[j]) by {
            assert(rest[j] == lines[j + 1]);
        }
        if i < lines.len() {
            assert(rest[i - 1] == lines[i]);
        }
        lemma_first_comment(rest, i - 1);
    }
}

proof fn lemma_first_text(lines: Seq<Seq<char>>, i: int)
    requires
        0 <= i <= lines.len(),
        forall|j: int| 0 <= j < i ==> text::trimmed(#[trigger] lines[j]).len() == 0,
        i < lines.len() ==> text::trimmed(lines[i]).len() > 0,
    ensures
        request::first_line_with_text(lines) == if i < lines.len() {
            text::trimmed(lines[i])
        } else {
            Seq::empty()
        },
    decreases i,
{
    if i > 0 {
        let rest = lines.drop_first();
        assert(text::trimmed(lines[0]).len() == 0);
        assert forall|j: int| 0 <= j < i - 1 implies text::trimmed(#[trigger] rest[j]).len() == 0 by {
            assert(rest[j] == lines[j + 1]);
        }
        if i < lines.len() {
            assert(rest[i - 1] == lines[i]);
        }
        lemma_first_text(rest, i - 1);
    }
}

/// The heading of a text that can't be read is its first comment. Where it has none, it
/// is its first line with anything on it.
pub proof fn an_unreadable_text_is_called_by_its_first_comment(
    lines: Seq<Seq<char>>,
    i: int,
    k: int,
)
    requires
        0 <= i <= lines.len(),
        forall|j: int| 0 <= j < i ==> !source::is_comment(#[trigger] lines[j]),
        i < lines.len() ==> source::is_comment(lines[i]),
        0 <= k <= lines.len(),
        forall|j: int| 0 <= j < k ==> text::trimmed(#[trigger] lines[j]).len() == 0,
        k < lines.len() ==> text::trimmed(lines[k]).len() > 0,
    ensures
        i < lines.len() ==> request::heading(lines) == text::trimmed(lines[i]),
        i == lines.len() && k < lines.len() ==> request::heading(lines) == text::trimmed(lines[k]),
        k == lines.len() && i == lines.len() ==> request::heading(lines).len() == 0,
{
    lemma_first_comment(lines, i);
    lemma_first_text(lines, k);
}

/// A title that is recovered is never long, and is the whole of a short heading.
pub proof fn a_recovered_title_is_cut_short(s: Seq<char>)
    ensures
        ({
            let line = text::trimmed(
                text::without_leading(
                    request::heading(text::lines_of(s)),
                    |c: char| c == '#',
                ),
            );
            let got = request::recovered_title(s);
            &&& got.len() <= 80 && got == line.take(got.len() as int)
            &&& line.len() <= 80 ==> got == line
            &&& line.len() > 80 ==> got.len() == 80
        }),
{
    let line = text::trimmed(
        text::without_leading(request::heading(text::lines_of(s)), |c: char| c == '#'),
    );
    assert(line.take(line.len() as int) =~= line);
}

// ---------------------------------------------------------------------------
// Expected statuses
// ---------------------------------------------------------------------------
/// An assertion that is an equality of `status` with a number is a check of that status,
/// with any white space around its parts.
pub proof fn a_plain_status_check_is_recognised(
    a: Seq<char>,
    b: Seq<char>,
    c: Seq<char>,
    d: Seq<char>,
    n: nat,
)
    requires
        is_all_white(a) && is_all_white(b) && is_all_white(c) && is_all_white(d),
    ensures
        request::status_checked(a + "status"@ + b + "=="@ + c + text::decimal(n) + d) == if n
            <= 65535 {
            Some(n)
        } else {
            None
        },
{
    let digits = text::decimal(n);
    lemma_digits(n);
    let code = c + digits;
    lemma_code(c, n);
    reveal_strlit("==");
    let op = "=="@ + code;
    assert(op.take(2) =~= "=="@);
    assert(op.skip(2) =~= code);
    let rest = b + op;
    assert(op[0] == '=');
    lemma_lead(b, op);
    reveal_strlit("status");
    let core = "status"@ + rest;
    assert(core.take(6) =~= "status"@);
    assert(core.skip(6) =~= rest);
    assert(core[0] == 's');
    assert(core.last() == digits.last());
    lemma_around(a, core, d);
    assert(a + "status"@ + b + "=="@ + c + digits + d =~= a + core + d);
}

proof fn lemma_digits(n: nat)
    ensures
        ({
            let digits = text::decimal(n);
            &&& digits.len() > 0 && !text::is_white(digits[0]) && !text::is_white(digits.last())
            &&& digits[0] != '+'
            &&& text::all_digits(digits) && text::digits_value(digits) == n
        }),
{
    let digits = text::decimal(n);
    text::lemma_decimal_value(n);
    assert(text::is_digit(digits[0]) && text::is_digit(digits[digits.len() - 1]));
}

proof fn lemma_code(c: Seq<char>, n: nat)
    requires
        is_all_white(c),
    ensures
        text::number_in(text::trimmed(c + text::decimal(n)), u16::MAX as nat) == if n <= 65535 {
            Some(n)
        } else {
            None
        },
{
    lemma_digits(n);
    let digits = text::decimal(n);
    let none = Seq::<char>::empty();
    lemma_around(c, digits, none);
    assert(c + digits + none =~= c + digits);
}

pub proof fn lemma_lead(b: Seq<char>, op: Seq<char>)
    requires
        is_all_white(b),
        op.len() > 0 && !text::is_white(op[0]),
    ensures
        text::trimmed_start(b + op) == op,
{
    let s = b + op;
    let n = b.len() as int;
    assert forall|i: int| 0 <= i < n implies text::is_white(#[trigger] s[i]) by {
        assert(s[i] == b[i]);
    }
    assert(s[n] == op[0]);
    text_laws::lemma_trimmed_start_is(s, n);
    assert(s.skip(n) =~= op);
}

pub proof fn lemma_around(a: Seq<char>, core: Seq<char>, d: Seq<char>)
    requires
        is_all_white(a) && is_all_white(d),
        core.len() > 0 && !text::is_white(core[0]) && !text::is_white(core.last()),
    ensures
        text::trimmed(a + core + d) == core,
{
    let s = a + core + d;
    let x = a.len() as int;
    let y = x + core.len();
    assert forall|i: int| 0 <= i < x implies text::is_white(#[trigger] s[i]) by {
        assert(s[i] == a[i]);
    }
    assert forall|i: int| y <= i < s.len() implies text::is_white(#[trigger] s[i]) by {
        assert(s[i] == d[i - y]);
    }
    assert(s[x] == core[0] && s[y - 1] == core.last());
    text_laws::lemma_trimmed_is(s, x, y);
    assert(s.subrange(x, y) =~= core);
}

/// Whether a text is white space alone.
pub open spec fn is_all_white(s: Seq<char>) -> bool {
    forall|i: int| 0 <= i < s.len() ==> text::is_white(#[trigger] s[i])
}

// ---------------------------------------------------------------------------
// Leftover notes
// ---------------------------------------------------------------------------
/// The comments before a block are found, all of them and in order.
pub proof fn the_comments_before_a_block_are_found(
    comments: Seq<CommentView>,
    anchor: CommentAnchor,
)
    ensures
        ({
            let at = body_notes::positions(comments, anchor);
            &&& forall|i: int|
                0 <= i < comments.len() ==> ((#[trigger] comments[i]).anchor == anchor
                    <==> at.contains(i))
            &&& forall|j: int| 0 <= j < at.len() ==> 0 <= #[trigger] at[j] < comments.len()
            &&& forall|j: int, k: int|
                0 <= j < k < at.len() ==> #[trigger] at[j] < #[trigger] at[k]
        }),
    decreases comments.len(),
{
    if comments.len() > 0 {
        let front = comments.drop_last();
        let n = comments.len() - 1;
        the_comments_before_a_block_are_found(front, anchor);
        let old_at = body_notes::positions(front, anchor);
        let at = body_notes::positions(comments, anchor);
        assert forall|i: int| 0 <= i < comments.len() implies ((#[trigger] comments[i]).anchor
            == anchor <==> at.contains(i)) by {
            if i < n {
                assert(front[i] == comments[i]);
                if old_at.contains(i) {
                    let j = choose|j: int| 0 <= j < old_at.len() && old_at[j] == i;
                    assert(at[j] == i);
                }
                if at.contains(i) {
                    let j = choose|j: int| 0 <= j < at.len() && at[j] == i;
                    assert(old_at[j] == i);
                }
            } else {
                if comments[n].anchor == anchor {
                    assert(at[old_at.len() as int] == n);
                } else if at.contains(n) {
                    let j = choose|j: int| 0 <= j < at.len() && at[j] == n;
                    assert(old_at[j] == n);
                }
            }
        }
        assert forall|j: int| 0 <= j < at.len() implies 0 <= #[trigger] at[j] < comments.len() by {
            if j < old_at.len() {
                assert(at[j] == old_at[j]);
            }
        }
        assert forall|j: int, k: int| 0 <= j < k < at.len() implies #[trigger] at[j]
            < #[trigger] at[k] by {
            assert(at[j] == old_at[j]);
            if k < old_at.len() {
                assert(at[k] == old_at[k]);
            }
        }
    }
}

/// Of several blocks the first counts, or where there is a body, the first that says
/// what it says. Where there is none, none does.
pub proof fn the_first_block_that_fits_counts(
    comments: Seq<CommentView>,
    at: Seq<int>,
    body: Option<Seq<char>>,
    from: int,
    pos: int,
)
    requires
        0 <= from <= pos <= at.len(),
        forall|p: int|
            from <= p < pos ==> match #[trigger] body_notes::block_at(comments, at, p) {
                Some(block) => body is Some && !json_comments::equivalent(
                    json_comments::wire(block.1),
                    body.unwrap(),
                ),
                None => true,
            },
        pos < at.len() ==> match body_notes::block_at(comments, at, pos) {
            Some(block) => body is None || json_comments::equivalent(
                json_comments::wire(block.1),
                body.unwrap(),
            ),
            None => false,
        },
    ensures
        body_notes::block_from(comments, at, from, body) == if pos < at.len() {
            body_notes::block_at(comments, at, pos)
        } else {
            None
        },
    decreases pos - from,
{
    if from < pos {
        let here = body_notes::block_at(comments, at, from);
        the_first_block_that_fits_counts(comments, at, body, from + 1, pos);
    }
}

/// Whether two lists are the same but for what stands at some places of the first.
pub open spec fn is_left(
    comments: Seq<CommentView>,
    at: Seq<int>,
    kept: Seq<int>,
    left: Seq<CommentView>,
) -> bool {
    &&& kept.len() == left.len()
    &&& forall|j: int|
        0 <= j < kept.len() ==> 0 <= #[trigger] kept[j] < comments.len() && !at.contains(kept[j])
            && left[j] == comments[kept[j]]
    &&& forall|j: int, k: int| 0 <= j < k < kept.len() ==> #[trigger] kept[j] < #[trigger] kept[k]
    &&& forall|i: int|
        0 <= i < comments.len() && !#[trigger] at.contains(i) ==> kept.contains(i)
}

/// When a block goes, the comments that it takes up go and no other: the others stay,
/// each once and in their order.
pub proof fn only_what_a_block_takes_up_goes(comments: Seq<CommentView>, at: Seq<int>)
    ensures
        exists|kept: Seq<int>| #[trigger]
            is_left(comments, at, kept, body_notes::comments_without(comments, at)),
{
    let kept = lemma_left(comments, at);
}

proof fn lemma_left(comments: Seq<CommentView>, at: Seq<int>) -> (kept: Seq<int>)
    ensures
        is_left(comments, at, kept, body_notes::comments_without(comments, at)),
    decreases comments.len(),
{
    if comments.len() == 0 {
        let none = Seq::<int>::empty();
        assert(is_left(comments, at, none, body_notes::comments_without(comments, at)));
        none
    } else {
        let front = comments.drop_last();
        let n = comments.len() - 1;
        let less = lemma_left(front, at);
        let kept = if at.contains(n) {
            less
        } else {
            less.push(n)
        };
        let left = body_notes::comments_without(comments, at);
        let before = body_notes::comments_without(front, at);
        assert forall|j: int| 0 <= j < kept.len() implies 0 <= #[trigger] kept[j] < comments.len()
            && !at.contains(kept[j]) && left[j] == comments[kept[j]] by {
            if j < less.len() {
                assert(kept[j] == less[j]);
                assert(left[j] == before[j]);
                assert(front[less[j]] == comments[less[j]]);
            }
        }
        assert forall|j: int, k: int| 0 <= j < k < kept.len() implies #[trigger] kept[j]
            < #[trigger] kept[k] by {
            assert(kept[j] == less[j]);
            if k < less.len() {
                assert(kept[k] == less[k]);
            }
        }
        assert forall|i: int|
            0 <= i < comments.len() && !#[trigger] at.contains(i) implies kept.contains(i) by {
            if i < n {
                assert(front[i] == comments[i]);
                let j = choose|j: int| 0 <= j < less.len() && less[j] == i;
                assert(kept[j] == i);
            } else {
                assert(kept[less.len() as int] == n);
            }
        }
        assert(kept.len() == left.len());
        assert(is_left(comments, at, kept, left));
        kept
    }
}

/// Notes are taken back only where the request, written out and read again, is one
/// request that sends what they say; and then it is otherwise the request that it was,
/// with a body that is what the notes say.
pub proof fn notes_are_taken_back_where_they_can_be_sent(e: EntryView)
    ensures
        adopt::adoptable(e) ==> {
            let block = body_notes::body_block_in(e.comments, None).unwrap();
            let next = adopt::adopted(e).unwrap();
            let back = parser::requests_in(writer::hurl_text(next));
            &&& body_notes::body_block_in(e.comments, None) is Some
            &&& next == (EntryView {
                body_src: Some(block.1),
                comments: body_notes::comments_without(e.comments, block.0),
                ..e
            })
            &&& back.len() == 1
            &&& back[0].body_src is Some && json_comments::wire(back[0].body_src.unwrap())
                == json_comments::wire(block.1)
        },
        body_notes::body_block_in(e.comments, None) is None ==> !adopt::adoptable(e),
{
}

} // verus!
