//! What is kept in comments is read back: titles, report fields, authored
//! bodies.
use vstd::prelude::*;

use crate::block_laws;
use crate::body_notes;
use crate::entry::{CommentAnchor, CommentView, EntryView};
use crate::json_comments;
use crate::line_laws;
use crate::parser;
use crate::source;
use crate::text;
use crate::text_laws;
use crate::writer;

verus! {

// ---------------------------------------------------------------------------
// Titles
// ---------------------------------------------------------------------------
/// Whether a title comes back as it was written: on one line, without white
/// space around it, and without the characters that decorate a title.
pub open spec fn title_fits(title: Seq<char>) -> bool {
    text::trimmed(title) == title && text::unbroken(title) && !title.contains('-')
        && !title.contains('=')
}

/// The lines of a title.
pub open spec fn title_lines(title: Seq<char>) -> Seq<Seq<char>> {
    if title.len() == 0 {
        Seq::empty()
    } else {
        seq!["# "@ + title]
    }
}

proof fn lemma_filter_all(s: Seq<char>, p: spec_fn(char) -> bool)
    requires
        forall|i: int| 0 <= i < s.len() ==> p(#[trigger] s[i]),
    ensures
        s.filter(p) == s,
    decreases s.len(),
{
    reveal(Seq::filter);
    if s.len() > 0 {
        let front = s.drop_last();
        assert forall|i: int| 0 <= i < front.len() implies p(#[trigger] front[i]) by {
            assert(front[i] == s[i]);
        }
        lemma_filter_all(front, p);
        assert(p(s[s.len() - 1]));
        assert(s =~= front.push(s.last()));
    }
}

/// A title that fits is read from its line.
pub proof fn lemma_title_words(title: Seq<char>)
    requires
        title_fits(title),
        title.len() > 0,
    ensures
        source::title_words("# "@ + title) == title,
        source::is_comment("# "@ + title),
        text_laws::is_line("# "@ + title),
{
    reveal_strlit("# ");
    reveal_strlit("#");
    let line = "# "@ + title;
    let mark = |c: char| c == '#';
    let keep = |c: char| c != '-' && c != '=';
    text_laws::lemma_trimmed_ends(title);
    assert(line[0] == '#' && line[1] == ' ');
    let rest = line.skip(1);
    assert(line.drop_first() =~= rest);
    reveal_with_fuel(text::without_leading, 3);
    assert(text::without_leading(line, mark) == rest);
    assert forall|i: int| 0 <= i < rest.len() implies keep(#[trigger] rest[i]) by {
        if i > 0 {
            assert(rest[i] == title[i - 1]);
            assert(title.contains(title[i - 1]));
        }
    }
    lemma_filter_all(rest, keep);
    assert(rest[0] == ' ' && rest[1] == title[0]);
    assert(rest[rest.len() - 1] == title[title.len() - 1]);
    text_laws::lemma_trimmed_is(rest, 1, rest.len() as int);
    assert(rest.subrange(1, rest.len() as int) =~= title);
    text_laws::lemma_is_trimmed(line);
    assert(line.take(1) =~= "#"@);
    if line.contains('\n') {
        let i = choose|i: int| 0 <= i < line.len() && line[i] == '\n';
        assert(title[i - 2] == '\n');
    }
    assert(line.last() == title[title.len() - 1]);
    assert(title.contains(title[title.len() - 1]));
}

/// Where the comments directly above a line begin.
pub proof fn lemma_comment_top_is(lines: Seq<Seq<char>>, k: int, from: int, top: int)
    requires
        0 <= from <= top <= k <= lines.len(),
        forall|j: int| top <= j < k ==> source::is_comment(#[trigger] lines[j]),
        top == from || !source::is_comment(lines[top - 1]),
    ensures
        source::comment_top(lines, k, from) == top,
    decreases k - top,
{
    if top < k {
        assert(source::is_comment(lines[k - 1]));
        lemma_comment_top_is(lines, k - 1, from, top);
    }
}

/// A title that fits is read back from above its request's line.
pub proof fn a_written_title_is_read_back(lines: Seq<Seq<char>>, i: int, title: Seq<char>)
    requires
        title_fits(title),
        block_laws::stands(lines, i, title_lines(title)),
        i == 0 || !source::is_comment(lines[i - 1]),
    ensures
        source::title_above(lines, i + title_lines(title).len()) == title,
        source::comment_top(lines, i + title_lines(title).len(), 0) == i,
{
    let k = i + title_lines(title).len();
    let none = Seq::<Seq<char>>::empty();
    if title.len() == 0 {
        lemma_comment_top_is(lines, k, 0, i);
        assert(lines.subrange(i, k) =~= none);
        assert(title =~= Seq::<char>::empty());
    } else {
        lemma_title_words(title);
        block_laws::lemma_stands_at(lines, i, title_lines(title), 0);
        lemma_comment_top_is(lines, k, 0, i);
        let block = lines.subrange(i, k);
        assert(block =~= seq!["# "@ + title]);
        assert(block.drop_last() =~= none);
        reveal_with_fuel(source::title_parts, 2);
        assert(source::title_parts(block) =~= seq![title]);
    }
}

// ---------------------------------------------------------------------------
// Report fields
// ---------------------------------------------------------------------------
/// Whether each of some report fields comes back as it was written.
pub open spec fn reports_fit(reports: Seq<(Seq<char>, Seq<char>)>) -> bool {
    forall|i: int| 0 <= i < reports.len() ==> line_laws::report_fits(#[trigger] reports[i])
}

/// The lines of some report fields, below their marker.
pub open spec fn report_rows(reports: Seq<(Seq<char>, Seq<char>)>) -> Seq<Seq<char>> {
    reports.map_values(|r: (Seq<char>, Seq<char>)| "# "@ + writer::kv(r.0, r.1))
}

/// The lines of the report fields.
pub open spec fn report_lines(reports: Seq<(Seq<char>, Seq<char>)>) -> Seq<Seq<char>> {
    if reports.len() == 0 {
        Seq::empty()
    } else {
        seq!["# [Reports]"@] + report_rows(reports)
    }
}

/// What the marker of the report fields is, and is not.
pub proof fn lemma_reports_marker()
    ensures
        source::is_reports_line("# [Reports]"@),
        source::is_comment("# [Reports]"@),
        block_laws::no_row("# [Reports]"@),
        text_laws::is_line("# [Reports]"@),
        source::report_on("# [Reports]"@) is None,
{
    reveal_strlit("# [Reports]");
    reveal_strlit("[Reports]");
    reveal_strlit("#");
    reveal_strlit("[");
    reveal_strlit("# @desc");
    let s = "# [Reports]"@;
    text_laws::lemma_is_trimmed(s);
    assert(s.take(1) =~= "#"@);
    let rest = s.skip(1);
    assert(rest[0] == ' ' && rest[1] == '[' && rest[9] == ']');
    text_laws::lemma_trimmed_is(rest, 1, 10);
    text_laws::lemma_trimmed_start_is(rest, 1);
    assert(rest.subrange(1, 10) =~= "[Reports]"@);
    assert(rest.skip(1) =~= "[Reports]"@);
    assert("[Reports]"@.take(1) =~= "["@);
    let c = "[Reports]"@;
    assert forall|j: int| 0 <= j < c.len() implies c[j] != ':' by {}
    text::lemma_find_is(c, ':', 0, c.len() as int);
    source::lemma_no_colon(c);
    if text::begins(s, "# @desc"@) {
        assert(s.take(7)[2] == '@');
    }
}

/// Report fields that fit are written as their lines.
pub proof fn lemma_reports_written(reports: Seq<(Seq<char>, Seq<char>)>)
    requires
        reports_fit(reports),
    ensures
        writer::reports_text(reports) == text_laws::as_text(report_lines(reports)),
        text_laws::are_lines(report_lines(reports)),
        forall|i: int|
            0 <= i < report_lines(reports).len() ==> source::is_comment(
                #[trigger] report_lines(reports)[i],
            ),
{
    let f = |r: (Seq<char>, Seq<char>)| writer::as_line("# "@ + writer::kv(r.0, r.1));
    let rows = report_rows(reports);
    let g = |l: Seq<char>| l.push('\n');
    if reports.len() == 0 {
        assert(report_lines(reports).map_values(g) =~= Seq::<Seq<char>>::empty());
    } else {
        assert(reports.map_values(f) =~= rows.map_values(g));
        text_laws::lemma_as_text_add(seq!["# [Reports]"@], rows);
        text_laws::lemma_as_text_one("# [Reports]"@);
        reveal_strlit("# [Reports]");
        reveal_strlit("# [Reports]\n");
        assert("# [Reports]"@.push('\n') =~= "# [Reports]\n"@);
        lemma_reports_marker();
        assert forall|i: int| 0 <= i < report_lines(reports).len() implies text_laws::is_line(
            #[trigger] report_lines(reports)[i],
        ) && source::is_comment(report_lines(reports)[i]) by {
            if i > 0 {
                assert(report_lines(reports)[i] == rows[i - 1]);
                assert(line_laws::report_fits(reports[i - 1]));
                line_laws::a_written_report_field_is_read_back(reports[i - 1]);
            }
        }
    }
}

/// Where the first marker of report fields is.
pub proof fn lemma_marker_is(lines: Seq<Seq<char>>, from: int, m: int, to: int)
    requires
        0 <= from <= m <= to,
        forall|j: int| from <= j < m ==> !source::is_reports_line(#[trigger] lines[j]),
        m < to ==> source::is_reports_line(lines[m]),
    ensures
        source::reports_marker(lines, from, to) == m,
    decreases m - from,
{
    if from < m {
        assert(!source::is_reports_line(lines[from]));
        lemma_marker_is(lines, from + 1, m, to);
    }
}

/// Where report fields end.
pub proof fn lemma_reports_end_is(lines: Seq<Seq<char>>, i: int, e: int, to: int)
    requires
        0 <= i <= e <= to,
        forall|j: int| i <= j < e ==> source::report_on(#[trigger] lines[j]) is Some,
        e < to ==> source::report_on(lines[e]) is None,
    ensures
        source::reports_end(lines, i, to) == e,
    decreases e - i,
{
    if i < e {
        assert(source::report_on(lines[i]) is Some);
        lemma_reports_end_is(lines, i + 1, e, to);
    }
}

/// Report fields that fit are read back from where they stand: behind what is no
/// marker, and before what is no such field.
pub proof fn written_report_fields_are_read_back(
    lines: Seq<Seq<char>>,
    from: int,
    i: int,
    to: int,
    reports: Seq<(Seq<char>, Seq<char>)>,
)
    requires
        reports_fit(reports),
        0 <= from <= i,
        block_laws::stands(lines, i, report_lines(reports)),
        i + report_lines(reports).len() <= to <= lines.len(),
        forall|j: int| from <= j < i ==> !source::is_reports_line(#[trigger] lines[j]),
        reports.len() == 0 ==> forall|j: int|
            i <= j < to ==> !source::is_reports_line(#[trigger] lines[j]),
        i + report_lines(reports).len() < to ==> source::report_on(
            lines[i + report_lines(reports).len()],
        ) is None,
    ensures
        source::reports_in(lines, from, to) == reports,
        reports.len() > 0 ==> source::reports_marker(lines, from, to) == i && source::reports_end(
            lines,
            i + 1,
            to,
        ) == i + report_lines(reports).len(),
        reports.len() == 0 ==> source::reports_marker(lines, from, to) == to,
{
    if reports.len() == 0 {
        lemma_marker_is(lines, from, to, to);
        assert(source::reports_in(lines, from, to) =~= reports);
    } else {
        let all = report_lines(reports);
        let rows = report_rows(reports);
        let e = i + all.len();
        lemma_reports_marker();
        block_laws::lemma_stands_at(lines, i, all, 0);
        lemma_marker_is(lines, from, i, to);
        assert forall|j: int| i + 1 <= j < e implies source::report_on(#[trigger] lines[j]) == Some(
            reports[j - i - 1],
        ) by {
            block_laws::lemma_stands_at(lines, i, all, j - i);
            assert(all[j - i] == rows[j - i - 1]);
            assert(line_laws::report_fits(reports[j - i - 1]));
            line_laws::a_written_report_field_is_read_back(reports[j - i - 1]);
        }
        lemma_reports_end_is(lines, i + 1, e, to);
        let got = source::reports_in(lines, from, to);
        assert forall|k: int| 0 <= k < reports.len() implies got[k] == reports[k] by {
            assert(source::report_on(lines[i + 1 + k]) == Some(reports[k]));
        }
        assert(got =~= reports);
    }
}

// ---------------------------------------------------------------------------
// Authored bodies
// ---------------------------------------------------------------------------
/// Whether an authored body comes back from its comments: no line of it ends in
/// white space.
pub open spec fn notes_fit(src: Seq<char>) -> bool {
    text::split_on(src, '\n').len() <= usize::MAX && forall|i: int|
        0 <= i < text::split_on(src, '\n').len() ==> text::trimmed_end(
            #[trigger] text::split_on(src, '\n')[i],
        ) == text::split_on(src, '\n')[i]
}

/// A line of an authored body as a comment.
pub open spec fn noted_line(l: Seq<char>) -> Seq<char> {
    if l.len() == 0 {
        "#"@
    } else {
        "# "@ + l
    }
}

/// The lines of the block that carries an authored body.
pub open spec fn notes_lines(src: Seq<char>) -> Seq<Seq<char>> {
    let lines = text::split_on(src, '\n');
    seq!["# [Body] "@ + text::decimal(lines.len())] + lines.map_values(
        |l: Seq<char>| noted_line(l),
    )
}

/// The comments that the block is read as.
pub open spec fn notes_comments(src: Seq<char>) -> Seq<CommentView> {
    notes_lines(src).map_values(
        |l: Seq<char>| CommentView { anchor: CommentAnchor::Body, text: l },
    )
}

/// What is cut at a character and joined by it again is as it was.
pub proof fn splitting_and_joining_changes_nothing(s: Seq<char>)
    ensures
        text::joined(text::split_on(s, '\n'), "\n"@) == s,
        text::split_on(s, '\n').len() > 0,
        forall|i: int|
            0 <= i < text::split_on(s, '\n').len() ==> !(#[trigger] text::split_on(
                s,
                '\n',
            )[i]).contains('\n'),
    decreases s.len(),
{
    reveal_strlit("\n");
    let n = text::find(s, '\n');
    text::lemma_find_from(s, '\n', 0);
    let all = text::split_on(s, '\n');
    if n >= s.len() {
        assert(all =~= seq![s]);
    } else {
        let rest = s.skip(n + 1);
        splitting_and_joining_changes_nothing(rest);
        let tail = text::split_on(rest, '\n');
        assert(all =~= seq![s.take(n)] + tail);
        lemma_joined_first(s.take(n), tail);
        assert(s =~= s.take(n) + "\n"@ + rest);
        assert forall|i: int| 0 <= i < all.len() implies !(#[trigger] all[i]).contains('\n') by {
            if i == 0 {
                assert(all[0] == s.take(n));
                if s.take(n).contains('\n') {
                    let k = choose|k: int| 0 <= k < n && s.take(n)[k] == '\n';
                    assert(s[k] == '\n');
                }
            } else {
                assert(all[i] == tail[i - 1]);
            }
        }
    }
}

proof fn lemma_joined_first(a: Seq<char>, tail: Seq<Seq<char>>)
    requires
        tail.len() > 0,
    ensures
        text::joined(seq![a] + tail, "\n"@) == a + "\n"@ + text::joined(tail, "\n"@),
    decreases tail.len(),
{
    let all = seq![a] + tail;
    if tail.len() == 1 {
        reveal_with_fuel(text::joined, 2);
        assert(all.drop_last() =~= seq![a]);
        assert(all.last() == tail[0]);
    } else {
        lemma_joined_first(a, tail.drop_last());
        assert(all.drop_last() =~= seq![a] + tail.drop_last());
        assert(all.last() == tail.last());
        assert(text::joined(all, "\n"@) =~= a + "\n"@ + text::joined(tail, "\n"@));
    }
}

/// A line of an authored body is read back from its comment.
proof fn lemma_noted_line(l: Seq<char>)
    requires
        text::trimmed_end(l) == l,
        !l.contains('\n'),
    ensures
        body_notes::body_line(noted_line(l)) == l,
        text::trimmed(noted_line(l)) == noted_line(l),
        source::is_comment(noted_line(l)),
        text_laws::is_line(noted_line(l)),
{
    reveal_strlit("#");
    reveal_strlit("# ");
    reveal_strlit(" ");
    let s = noted_line(l);
    text::lemma_trimmed_end(l);
    if l.len() == 0 {
        text_laws::lemma_is_trimmed(s);
        assert(s.take(1) =~= "#"@);
        let rest = s.skip(1);
        assert(rest.len() == 0);
        assert(rest =~= l);
        assert(text::without_prefix(rest, " "@) is None);
    } else {
        assert(s[0] == '#' && s[1] == ' ');
        assert(s[s.len() - 1] == l[l.len() - 1]);
        text_laws::lemma_is_trimmed(s);
        assert(s.take(1) =~= "#"@);
        let rest = s.skip(1);
        assert(rest.take(1) =~= " "@);
        assert(rest.skip(1) =~= l);
        if s.contains('\n') {
            let i = choose|i: int| 0 <= i < s.len() && s[i] == '\n';
            assert(l[i - 2] == '\n');
        }
        assert(s.last() == l.last());
    }
    assert(text::begins(text::trimmed(s), "#"@));
}

/// The marker of an authored body says how many lines it has.
proof fn lemma_notes_marker(n: nat)
    requires
        n <= usize::MAX,
    ensures
        ({
            let s = "# [Body] "@ + text::decimal(n);
            &&& body_notes::body_marker(s) == Some(n)
            &&& text::trimmed(s) == s
            &&& source::is_comment(s)
            &&& text_laws::is_line(s)
            &&& block_laws::no_row(s)
            &&& !source::is_reports_line(s)
            &&& source::report_on(s) is None
        }),
{
    reveal_strlit("# [Body] ");
    reveal_strlit("#");
    reveal_strlit("[body]");
    reveal_strlit("[Reports]");
    reveal_strlit("[");
    reveal_strlit("# @desc");
    let d = text::decimal(n);
    text::lemma_decimal_value(n);
    let s = "# [Body] "@ + d;
    assert forall|i: int| 0 <= i < d.len() implies '0' <= #[trigger] d[i] <= '9' by {
        assert(text::is_digit(d[i]));
    }
    assert(s[s.len() - 1] == d[d.len() - 1]);
    text_laws::lemma_is_trimmed(s);
    assert(s.take(1) =~= "#"@);
    let behind = s.skip(1);
    assert(behind[0] == ' ' && behind[1] == '[');
    text_laws::lemma_trimmed_start_is(behind, 1);
    let rest = behind.skip(1);
    assert(rest[0] == '[' && rest[1] == 'B' && rest[2] == 'o' && rest[3] == 'd' && rest[4] == 'y'
        && rest[5] == ']' && rest[6] == ' ');
    assert(text::lowered(rest.take(6)) =~= text::lowered("[body]"@));
    let number = rest.skip(6);
    assert(number[0] == ' ' && number[1] == d[0]);
    assert(number[number.len() - 1] == d[d.len() - 1]);
    text_laws::lemma_trimmed_is(number, 1, number.len() as int);
    assert(number.subrange(1, number.len() as int) =~= d);
    assert(d.first() == d[0]);
    if s.contains('\n') {
        let i = choose|i: int| 0 <= i < s.len() && s[i] == '\n';
        if i >= 9 {
            assert(d[i - 9] == '\n');
        }
    }
    if text::begins(s, "# @desc"@) {
        assert(s.take(7)[2] == '@');
    }
    assert forall|j: int| 0 <= j < rest.len() implies rest[j] != ':' by {
        if j >= 7 {
            assert(rest[j] == d[j - 7]);
        }
    }
    text::lemma_find_is(rest, ':', 0, rest.len() as int);
    source::lemma_no_colon(rest);
    assert(rest.take(1) =~= "["@);
    text_laws::lemma_trimmed_is(behind, 1, behind.len() as int);
    assert(behind.subrange(1, behind.len() as int) =~= rest);
    let low = text::lowered(rest);
    let want = text::lowered("[Reports]"@);
    if low == want {
        assert(low[1] == 'b');
        assert(want[1] == 'r');
    }
}

/// Lines with their line feeds are cut into those lines, with nothing behind.
proof fn lemma_split_lines(lines: Seq<Seq<char>>)
    requires
        forall|i: int| 0 <= i < lines.len() ==> !(#[trigger] lines[i]).contains('\n'),
    ensures
        text::split_on(text_laws::as_text(lines), '\n') == lines.push(Seq::<char>::empty()),
    decreases lines.len(),
{
    let t = text_laws::as_text(lines);
    let g = |l: Seq<char>| l.push('\n');
    if lines.len() == 0 {
        assert(lines.map_values(g) =~= Seq::<Seq<char>>::empty());
        text::lemma_find_from(t, '\n', 0);
        assert(text::split_on(t, '\n') =~= lines.push(Seq::<char>::empty()));
    } else {
        let l = lines[0];
        let rest = lines.skip(1);
        assert forall|i: int| 0 <= i < rest.len() implies !(#[trigger] rest[i]).contains('\n') by {
            assert(rest[i] == lines[i + 1]);
        }
        lemma_split_lines(rest);
        assert(lines =~= seq![l] + rest);
        text_laws::lemma_as_text_add(seq![l], rest);
        text_laws::lemma_as_text_one(l);
        let n = l.len() as int;
        assert forall|j: int| 0 <= j < n implies t[j] != '\n' by {
            assert(l.contains(l[j]));
        }
        assert(t[n] == '\n');
        text::lemma_find_is(t, '\n', 0, n);
        assert(t.take(n) =~= l);
        assert(t.skip(n + 1) =~= text_laws::as_text(rest));
        assert(text::split_on(t, '\n') =~= lines.push(Seq::<char>::empty()));
    }
}

/// A line of a block, less a carriage return at its end.
proof fn lemma_block_line(l: Seq<char>)
    requires
        !l.contains('\n'),
    ensures
        writer::body_block_line(l) == noted_line(text::chomped(l)).push('\n'),
        body_notes::body_line(noted_line(text::chomped(l))) == text::chomped(l),
        !noted_line(text::chomped(l)).contains('\n'),
        text::begins(noted_line(text::chomped(l)), "#"@),
{
    reveal_strlit("#");
    reveal_strlit("# ");
    reveal_strlit("#\n");
    reveal_strlit(" ");
    let c = text::chomped(l);
    let s = noted_line(c);
    assert forall|j: int| 0 <= j < c.len() implies c[j] != '\n' by {
        assert(c[j] == l[j]);
    }
    assert("#"@.push('\n') =~= "#\n"@);
    text_laws::lemma_trimmed_start_is(s, 0);
    assert(s.skip(0) =~= s);
    assert(s.take(1) =~= "#"@);
    let rest = s.skip(1);
    if c.len() == 0 {
        assert(rest =~= c);
    } else {
        assert(rest.take(1) =~= " "@);
        assert(rest.skip(1) =~= c);
    }
}

/// The block that carries an authored body is its marker, which says how many lines
/// the body has, and a comment for each of them. Each line comes back from its
/// comment, less a carriage return at its end.
pub proof fn a_body_block_carries_every_line(src: Seq<char>)
    requires
        text::split_on(src, '\n').len() <= usize::MAX,
    ensures
        ({
            let ls = text::split_on(writer::body_block(src), '\n');
            let of = text::split_on(src, '\n');
            &&& ls.len() == of.len() + 2
            &&& ls.last() == Seq::<char>::empty()
            &&& body_notes::body_marker(ls[0]) == Some(of.len())
            &&& forall|i: int|
                0 <= i < of.len() ==> text::begins(ls[i + 1], "#"@) && body_notes::body_line(
                    ls[i + 1],
                ) == text::chomped(#[trigger] of[i])
        }),
{
    let of = text::split_on(src, '\n');
    splitting_and_joining_changes_nothing(src);
    lemma_notes_marker(of.len());
    let marker = "# [Body] "@ + text::decimal(of.len());
    let rows = of.map_values(|l: Seq<char>| noted_line(text::chomped(l)));
    let g = |l: Seq<char>| l.push('\n');
    assert forall|i: int| 0 <= i < of.len() implies writer::body_block_line(#[trigger] of[i]) == g(
        rows[i],
    ) && body_notes::body_line(rows[i]) == text::chomped(of[i]) && !rows[i].contains('\n')
        && text::begins(rows[i], "#"@) by {
        lemma_block_line(of[i]);
    }
    assert(of.map_values(|line: Seq<char>| writer::body_block_line(line)) =~= rows.map_values(g));
    let all = seq![marker] + rows;
    text_laws::lemma_as_text_add(seq![marker], rows);
    text_laws::lemma_as_text_one(marker);
    assert(writer::body_block(src) == text_laws::as_text(all));
    assert forall|i: int| 0 <= i < all.len() implies !(#[trigger] all[i]).contains('\n') by {
        if i > 0 {
            assert(all[i] == rows[i - 1]);
            assert(writer::body_block_line(of[i - 1]) == g(rows[i - 1]));
        }
    }
    lemma_split_lines(all);
    let ls = all.push(Seq::<char>::empty());
    assert forall|i: int| 0 <= i < of.len() implies text::begins(ls[i + 1], "#"@)
        && body_notes::body_line(ls[i + 1]) == text::chomped(#[trigger] of[i]) by {
        assert(ls[i + 1] == rows[i]);
        assert(writer::body_block_line(of[i]) == g(rows[i]));
    }
}

/// The block that carries an authored body is written as its lines.
pub proof fn lemma_notes_written(src: Seq<char>)
    requires
        notes_fit(src),
    ensures
        writer::body_block(src) == text_laws::as_text(notes_lines(src)),
        text_laws::are_lines(notes_lines(src)),
        forall|i: int|
            0 <= i < notes_lines(src).len() ==> source::is_comment(#[trigger] notes_lines(src)[i])
                && text::trimmed(notes_lines(src)[i]) == notes_lines(src)[i],
{
    let ls = text::split_on(src, '\n');
    splitting_and_joining_changes_nothing(src);
    let marker = "# [Body] "@ + text::decimal(ls.len());
    let rows = ls.map_values(|l: Seq<char>| noted_line(l));
    let g = |l: Seq<char>| l.push('\n');
    assert(ls.map_values(|line: Seq<char>| writer::body_block_line(line)) =~= rows.map_values(g)) by {
        assert forall|i: int| 0 <= i < ls.len() implies writer::body_block_line(ls[i]) == g(
            rows[i],
        ) by {
            let l = ls[i];
            text::lemma_trimmed_end(l);
            assert(text::chomped(l) == l);
            reveal_strlit("#");
            reveal_strlit("#\n");
            assert("#"@.push('\n') =~= "#\n"@);
        }
    }
    text_laws::lemma_as_text_add(seq![marker], rows);
    text_laws::lemma_as_text_one(marker);
    lemma_notes_marker(ls.len());
    let all = notes_lines(src);
    assert forall|i: int| 0 <= i < all.len() implies text_laws::is_line(#[trigger] all[i])
        && source::is_comment(all[i]) && text::trimmed(all[i]) == all[i] by {
        if i > 0 {
            assert(all[i] == noted_line(ls[i - 1]));
            assert(!ls[i - 1].contains('\n'));
            lemma_noted_line(ls[i - 1]);
        }
    }
}

/// The positions among two lists are those in the first, then those in the
/// second.
pub proof fn lemma_positions_add(a: Seq<CommentView>, b: Seq<CommentView>, anchor: CommentAnchor)
    ensures
        body_notes::positions(a + b, anchor) == body_notes::positions(a, anchor)
            + body_notes::positions(b, anchor).map_values(|i: int| i + a.len()),
    decreases b.len(),
{
    let f = |i: int| i + a.len();
    if b.len() == 0 {
        assert(a + b =~= a);
        assert(body_notes::positions(a, anchor) + body_notes::positions(b, anchor).map_values(f)
            =~= body_notes::positions(a, anchor));
    } else {
        lemma_positions_add(a, b.drop_last(), anchor);
        assert((a + b).drop_last() =~= a + b.drop_last());
        assert((a + b).last() == b.last());
        assert(body_notes::positions(a + b, anchor) =~= body_notes::positions(a, anchor)
            + body_notes::positions(b, anchor).map_values(f));
    }
}

proof fn lemma_positions_all(c: Seq<CommentView>, anchor: CommentAnchor)
    requires
        forall|i: int| 0 <= i < c.len() ==> (#[trigger] c[i]).anchor == anchor,
    ensures
        body_notes::positions(c, anchor) == Seq::new(c.len(), |i: int| i),
    decreases c.len(),
{
    if c.len() == 0 {
        assert(body_notes::positions(c, anchor) =~= Seq::new(c.len(), |i: int| i));
    } else {
        let front = c.drop_last();
        assert forall|i: int| 0 <= i < front.len() implies (#[trigger] front[i]).anchor
            == anchor by {
            assert(front[i] == c[i]);
        }
        lemma_positions_all(front, anchor);
        assert(c[c.len() - 1].anchor == anchor);
        assert(body_notes::positions(c, anchor) =~= Seq::new(c.len(), |i: int| i));
    }
}

/// Whether the `k`-th of the comments before a body is read as the marker of that
/// body as it was authored.
pub open spec fn claims(comments: Seq<CommentView>, body: Seq<char>, k: int) -> bool {
    body_notes::block_at(comments, body_notes::positions(comments, CommentAnchor::Body), k) matches Some(
        block,
    ) && body_notes::reconciles(block.1, body)
}

/// Comments that are no such marker are passed over.
proof fn lemma_no_block(comments: Seq<CommentView>, pos: int, n: int, body: Seq<char>)
    requires
        0 <= pos <= n <= body_notes::positions(comments, CommentAnchor::Body).len(),
        forall|k: int| pos <= k < n ==> !(#[trigger] claims(comments, body, k)),
    ensures
        ({
            let at = body_notes::positions(comments, CommentAnchor::Body);
            body_notes::block_from(comments, at, pos, Some(body)) == body_notes::block_from(
                comments,
                at,
                n,
                Some(body),
            )
        }),
    decreases n - pos,
{
    if pos < n {
        assert(!claims(comments, body, pos));
        lemma_no_block(comments, pos + 1, n, body);
    }
}

proof fn lemma_without(
    pre: Seq<CommentView>,
    mid: Seq<CommentView>,
    post: Seq<CommentView>,
    at: Seq<int>,
)
    requires
        forall|i: int| at.contains(i) <==> pre.len() <= i < pre.len() + mid.len(),
    ensures
        body_notes::comments_without(pre + mid + post, at) == pre + post,
    decreases mid.len() + post.len() + pre.len(),
{
    let all = pre + mid + post;
    if post.len() > 0 {
        assert(all.drop_last() =~= pre + mid + post.drop_last());
        assert(all.last() == post.last());
        lemma_without(pre, mid, post.drop_last(), at);
        assert(!at.contains(all.len() - 1));
        assert(pre + post =~= (pre + post.drop_last()).push(post.last()));
    } else {
        lemma_without_mid(pre, mid, mid.len() as int, at);
        assert(mid.take(mid.len() as int) =~= mid);
        assert(all =~= pre + mid);
        assert(pre + post =~= pre);
    }
}

proof fn lemma_without_mid(pre: Seq<CommentView>, mid: Seq<CommentView>, n: int, at: Seq<int>)
    requires
        0 <= n <= mid.len(),
        forall|i: int| at.contains(i) <==> pre.len() <= i < pre.len() + mid.len(),
    ensures
        body_notes::comments_without(pre + mid.take(n), at) == pre,
    decreases n + pre.len(),
{
    let all = pre + mid.take(n);
    if n > 0 {
        assert(all.drop_last() =~= pre + mid.take(n - 1));
        lemma_without_mid(pre, mid, n - 1, at);
        assert(at.contains(all.len() - 1));
    } else {
        assert(all =~= pre);
        lemma_without_none(pre, at);
    }
}

proof fn lemma_without_none(pre: Seq<CommentView>, at: Seq<int>)
    requires
        forall|i: int| 0 <= i < pre.len() ==> !at.contains(i),
    ensures
        body_notes::comments_without(pre, at) == pre,
    decreases pre.len(),
{
    if pre.len() > 0 {
        lemma_without_none(pre.drop_last(), at);
        assert(!at.contains(pre.len() - 1));
        assert(pre =~= pre.drop_last().push(pre.last()));
    } else {
        assert(body_notes::comments_without(pre, at) =~= pre);
    }
}

/// A body that was authored with comments is read back from the block that
/// carries it, wherever among the other comments it stands, and the block is
/// gone from them.
pub proof fn an_authored_body_is_read_back(
    e: EntryView,
    src: Seq<char>,
    pre: Seq<CommentView>,
    post: Seq<CommentView>,
)
    requires
        notes_fit(src),
        forall|k: int|
            0 <= k < body_notes::positions(pre, CommentAnchor::Body).len() ==> !(#[trigger] claims(
                e.comments,
                json_comments::wire(src),
                k,
            )),
        e.body_src == Some(json_comments::wire(src)),
        e.comments == pre + notes_comments(src) + post,
    ensures
        parser::with_authored_body(e) == (EntryView {
            body_src: Some(src),
            comments: pre + post,
            ..e
        }),
{
    let ls = text::split_on(src, '\n');
    splitting_and_joining_changes_nothing(src);
    lemma_notes_marker(ls.len());
    let mid = notes_comments(src);
    let lines = notes_lines(src);
    let c = e.comments;
    let body = Some(json_comments::wire(src));
    let anchor = CommentAnchor::Body;
    let at = body_notes::positions(c, anchor);
    let p = body_notes::positions(pre, anchor);
    let q = body_notes::positions(mid, anchor);
    lemma_positions_add(pre + mid, post, anchor);
    lemma_positions_add(pre, mid, anchor);
    lemma_positions_all(mid, anchor);
    let n = p.len() as int;
    assert(at.len() >= n + mid.len());
    assert forall|j: int| n <= j < n + mid.len() implies #[trigger] at[j] == pre.len() + (j - n) by {
        assert(q[j - n] == j - n);
    }
    lemma_no_block(c, 0, n, json_comments::wire(src));
    assert(at[n] == pre.len());
    assert(c[at[n]] == mid[0]);
    assert(mid[0].text == lines[0]);
    assert(mid.len() == ls.len() + 1);
    let block = at.subrange(n, n + 1 + ls.len());
    let inner = at.subrange(n + 1, n + 1 + ls.len()).map_values(
        |i: int| body_notes::body_line(c[i].text),
    );
    assert(inner =~= ls) by {
        assert forall|k: int| 0 <= k < ls.len() implies inner[k] == ls[k] by {
            assert(at[n + 1 + k] == pre.len() + 1 + k);
            assert(c[pre.len() + 1 + k] == mid[1 + k]);
            assert(lines[1 + k] == noted_line(ls[k]));
            assert(!ls[k].contains('\n'));
            lemma_noted_line(ls[k]);
        }
    }
    assert(body_notes::block_at(c, at, n) == Some((block, src)));
    assert(body_notes::reconciles(src, json_comments::wire(src)));
    assert(body_notes::body_block_in(c, body) == Some((block, src)));
    assert forall|i: int| block.contains(i) <==> pre.len() <= i < pre.len() + mid.len() by {
        if block.contains(i) {
            let k = choose|k: int| 0 <= k < block.len() && block[k] == i;
            assert(block[k] == at[n + k]);
        }
        if pre.len() <= i < pre.len() + mid.len() {
            let k = i - pre.len();
            assert(block[k] == at[n + k]);
        }
    }
    lemma_without(pre, mid, post, block);
}

/// A body without such a block is left as it is, with all comments.
pub proof fn a_body_without_notes_is_left_alone(e: EntryView)
    requires
        e.body_src matches Some(body) ==> forall|k: int|
            0 <= k < body_notes::positions(e.comments, CommentAnchor::Body).len() ==> !(
            #[trigger] claims(e.comments, body, k)),
    ensures
        parser::with_authored_body(e) == e,
{
    let at = body_notes::positions(e.comments, CommentAnchor::Body);
    match e.body_src {
        Some(body) => {
            lemma_no_block(e.comments, 0, at.len() as int, body);
        },
        None => {},
    }
}

} // verus!
