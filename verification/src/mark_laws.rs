//! What holds of the comments that carry more than words.
use vstd::prelude::*;

use crate::body_notes;
use crate::name_laws;
use crate::parser;
use crate::request_laws;
use crate::rows;
use crate::shape::{FaultKindView, FaultView};
use crate::source;
use crate::text;
use crate::text_laws;

verus! {

/// A comment behind white space.
pub open spec fn comment(lead: Seq<char>, words: Seq<char>) -> Seq<char> {
    lead + seq!['#'] + words
}

proof fn lemma_comment(lead: Seq<char>, words: Seq<char>)
    requires
        request_laws::is_all_white(lead),
    ensures
        text::trimmed_start(comment(lead, words)) == seq!['#'] + words,
        text::without_prefix(text::trimmed_start(comment(lead, words)), "#"@) == Some(words),
{
    reveal_strlit("#");
    let s = comment(lead, words);
    let n = lead.len() as int;
    assert forall|i: int| 0 <= i < n implies text::is_white(#[trigger] s[i]) by {
        assert(s[i] == lead[i]);
    }
    assert(s[n] == '#');
    text_laws::lemma_trimmed_start_is(s, n);
    let t = seq!['#'] + words;
    assert(s.skip(n) =~= t);
    assert(t.take(1) =~= "#"@);
    assert(t.skip(1) =~= words);
}

proof fn lemma_letters(a: Seq<char>, b: Seq<char>)
    requires
        request_laws::same_letters(a, b),
    ensures
        text::lowered(a) == text::lowered(b),
{
    assert(text::lowered(a) =~= text::lowered(b));
}

/// A note is what stands behind the mark of one and a space, up to the white space at
/// its end. No other line carries a note.
pub proof fn a_note_stands_behind_its_mark(lead: Seq<char>, words: Seq<char>, line: Seq<char>)
    requires
        request_laws::is_all_white(lead),
    ensures
        source::note_on(lead + "# @desc "@ + words) == Some(text::trimmed_end(words)),
        source::note_on(lead + "# @desc"@) == Some(Seq::<char>::empty()),
        source::note_on(line) is Some ==> text::begins(text::trimmed_start(line), "# @desc"@),
{
    reveal_strlit("# @desc ");
    reveal_strlit("# @desc");
    reveal_strlit(" ");
    reveal_strlit("#");
    let mark = "# @desc"@;
    let whole = lead + "# @desc "@ + words;
    let behind = mark.skip(1) + seq![' '] + words;
    assert(whole =~= comment(lead, behind));
    lemma_comment(lead, behind);
    let t = seq!['#'] + behind;
    assert(t.take(7) =~= mark);
    let rest = seq![' '] + words;
    assert(t.skip(7) =~= rest);
    assert(rest.take(1) =~= " "@);
    assert(rest.skip(1) =~= words);
    let bare = lead + mark;
    assert(bare =~= comment(lead, mark.skip(1)));
    lemma_comment(lead, mark.skip(1));
    assert(seq!['#'] + mark.skip(1) =~= mark);
    assert(mark.take(7) =~= mark);
    assert(mark.skip(7) =~= Seq::<char>::empty());
    assert(!text::begins(Seq::<char>::empty(), " "@));
}

/// The block of report fields begins with its mark, in letters of either case and with
/// any white space around it.
pub proof fn report_fields_stand_below_their_mark(
    lead: Seq<char>,
    gap: Seq<char>,
    name: Seq<char>,
    tail: Seq<char>,
)
    requires
        request_laws::is_all_white(lead) && request_laws::is_all_white(gap)
            && request_laws::is_all_white(tail),
        name.len() > 0 && !text::is_white(name[0]) && !text::is_white(name.last()),
    ensures
        source::is_reports_line(comment(lead, gap + name + tail)) == request_laws::same_letters(
            name,
            "[Reports]"@,
        ),
{
    lemma_comment(lead, gap + name + tail);
    request_laws::lemma_around(gap, name, tail);
    if request_laws::same_letters(name, "[Reports]"@) {
        lemma_letters(name, "[Reports]"@);
    } else if text::lowered(name) == text::lowered("[Reports]"@) {
        assert(text::lowered(name).len() == name.len());
        assert(text::lowered("[Reports]"@).len() == "[Reports]"@.len());
        assert forall|i: int| 0 <= i < name.len() implies text::ascii_lower(#[trigger] name[i])
            == text::ascii_lower("[Reports]"@[i]) by {
            assert(text::lowered(name)[i] == text::lowered("[Reports]"@)[i]);
        }
    }
}

/// A report field has a name and a query with a colon between them: the first of the
/// comment, before which stands what can be a variable's name. A query there must be,
/// and the comment must not begin with a bracket.
pub proof fn a_report_field_is_split_at_its_first_colon(
    lead: Seq<char>,
    gap: Seq<char>,
    name: Seq<char>,
    query: Seq<char>,
)
    requires
        request_laws::is_all_white(lead) && request_laws::is_all_white(gap),
        name.len() > 0,
        forall|i: int| 0 <= i < name.len() ==> name_laws::suits_variable(#[trigger] name[i]),
    ensures
        ({
            let got = source::report_on(comment(lead, gap + name + seq![':'] + query));
            &&& text::trimmed(query).len() > 0 ==> got == Some((name, text::trimmed(query)))
            &&& text::trimmed(query).len() == 0 ==> got is None
        }),
{
    reveal_strlit("[");
    let rest = name + seq![':'] + query;
    assert(gap + name + seq![':'] + query =~= gap + rest);
    lemma_comment(lead, gap + rest);
    assert(name_laws::suits_variable(name[0]) && name_laws::suits_variable(name[name.len() - 1]));
    assert(rest[0] == name[0]);
    request_laws::lemma_lead(gap, rest);
    let n = name.len() as int;
    assert forall|j: int| 0 <= j < n implies rest[j] != ':' by {
        assert(rest[j] == name[j]);
        assert(name_laws::suits_variable(name[j]));
    }
    assert(rest[n] == ':');
    text::lemma_find_is(rest, ':', 0, n);
    assert(rest.take(n) =~= name);
    assert(rest.skip(n + 1) =~= query);
    text_laws::lemma_is_trimmed(name);
    assert(rest.take(1)[0] == name[0]);
    let p = |c: char| !rows::name_char(c);
    assert forall|i: int| 0 <= i < name.len() implies !p(#[trigger] name[i]) by {
        assert(name_laws::suits_variable(name[i]));
    }
    text::lemma_seek_is(name, p, n);
}

/// A block that carries a body begins with its mark, in letters of either case, and the
/// count of its lines.
pub proof fn a_body_block_begins_with_its_count(
    lead: Seq<char>,
    gap: Seq<char>,
    name: Seq<char>,
    between: Seq<char>,
    n: nat,
    tail: Seq<char>,
)
    requires
        request_laws::is_all_white(lead) && request_laws::is_all_white(gap)
            && request_laws::is_all_white(between) && request_laws::is_all_white(tail),
        request_laws::same_letters(name, "[body]"@),
    ensures
        body_notes::body_marker(
            comment(lead, gap + name + (between + text::decimal(n) + tail)),
        ) == if n <= usize::MAX {
            Some(n)
        } else {
            None
        },
{
    reveal_strlit("[body]");
    let digits = text::decimal(n);
    let count = between + digits + tail;
    let rest = name + count;
    assert(gap + name + count =~= gap + rest);
    lemma_comment(lead, gap + rest);
    assert(text::ascii_lower(name[0]) == text::ascii_lower("[body]"@[0]));
    assert(name[0] == '[');
    assert(rest[0] == '[');
    request_laws::lemma_lead(gap, rest);
    assert(rest.take(6) =~= name);
    assert(rest.skip(6) =~= count);
    lemma_letters(name, "[body]"@);
    text::lemma_decimal_value(n);
    assert(text::is_digit(digits[0]) && text::is_digit(digits[digits.len() - 1]));
    request_laws::lemma_around(between, digits, tail);
}

/// A fault is told with the line that it is on and, for a section, with its name; two
/// faults of one kind are told alike but for their lines.
pub proof fn a_fault_is_told_with_its_line(a: FaultView, b: FaultView, name: Seq<char>)
    ensures
        a.kind == b.kind && a.description == b.description ==> parser::fault_reason(a)
            == parser::fault_reason(b),
        parser::fault_text(a) == "line "@ + text::decimal(a.line as nat) + ": "@
            + parser::fault_reason(a),
        a.kind == FaultKindView::Section(name) ==> text::begins(
            parser::fault_reason(a),
            "["@ + name + "]"@,
        ),
        a.kind == FaultKindView::Other ==> parser::fault_reason(a) == parser::unicode_lower(
            a.description,
        ),
{
    reveal_strlit("[");
    reveal_strlit("]");
    reveal_strlit("] is a response section — add an 'HTTP' status line ");
    reveal_strlit("] is not a valid request section");
    if a.kind == FaultKindView::Section(name) {
        let said = parser::fault_reason(a);
        let want = "["@ + name + "]"@;
        assert(said.take(want.len() as int) =~= want);
    }
}

} // verus!
