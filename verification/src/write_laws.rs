//! What holds of every entry that is written, be it one that can be read back or not.
use vstd::prelude::*;

use crate::entry::{EntryView, FieldView, FormFieldKind, RowView};
use crate::json_comments;
use crate::name_laws;
use crate::rows;
use crate::text;
use crate::writer;

verus! {

/// Whether a text has a line break in it.
pub open spec fn is_broken(s: Seq<char>) -> bool {
    exists|i: int| 0 <= i < s.len() && (#[trigger] s[i] == '\n' || s[i] == '\r')
}

/// Whether a text has a character in it that no row's value can have.
pub open spec fn is_spoilt(s: Seq<char>) -> bool {
    exists|i: int| 0 <= i < s.len() && name_laws::spoils_value(#[trigger] s[i])
}

proof fn lemma_value(value: Seq<char>)
    ensures
        rows::value_trouble(value) is Some == is_spoilt(value),
{
    let p = |c: char| rows::breaks_value(c);
    text::lemma_seek(value, p);
    let n = text::seek(value, p);
    if n < value.len() {
        assert(name_laws::spoils_value(value[n]));
    } else {
        assert forall|i: int| 0 <= i < value.len() implies !name_laws::spoils_value(
            #[trigger] value[i],
        ) by {
            assert(!p(value[i]));
        }
    }
}

/// A row is written as its name, a colon and its value, on a line below its notes. It is
/// commented out, and then all on one line, where it is disabled, and also where Hurl
/// could not carry it: a name that can't be one, a line break in the name, or a value
/// with a line break, a tab or a backslash.
pub proof fn a_row_that_cannot_be_carried_is_commented_out(row: RowView)
    ensures
        ({
            let line = row.key + ": "@ + row.value;
            let carried = rows::key_trouble(row.key) is None && !is_broken(row.key) && !is_spoilt(
                row.value,
            );
            writer::kv_text(row) == writer::desc_lines(row.desc) + (if row.enabled && carried {
                line
            } else {
                "# "@ + writer::flattened(line)
            }) + seq!['\n']
        }),
{
    lemma_value(row.value);
    let line = row.key + ": "@ + row.value;
    let desc = writer::desc_lines(row.desc);
    assert(text::unbroken(row.key) == !is_broken(row.key));
    assert(desc + line.push('\n') =~= desc + line + seq!['\n']);
    let off = "# "@ + writer::flattened(line);
    assert(desc + off.push('\n') =~= desc + off + seq!['\n']);
}

/// Flattening a text turns its line breaks into spaces and keeps everything else.
pub proof fn flattening_keeps_all_but_line_breaks(s: Seq<char>, i: int)
    ensures
        writer::flattened(s).len() == s.len(),
        !is_broken(writer::flattened(s)),
        0 <= i < s.len() && s[i] != '\n' && s[i] != '\r' ==> writer::flattened(s)[i] == s[i],
        0 <= i < s.len() && (s[i] == '\n' || s[i] == '\r') ==> writer::flattened(s)[i] == ' ',
{
}

/// Rows are written one below the other, all of them.
pub proof fn every_row_is_written(above: Seq<RowView>, below: Seq<RowView>, row: RowView)
    ensures
        writer::rows_text(above + below) == writer::rows_text(above) + writer::rows_text(below),
        writer::rows_text(seq![row]) == writer::kv_text(row),
{
    let f = |r: RowView| writer::kv_text(r);
    assert((above + below).map_values(f) =~= above.map_values(f) + below.map_values(f));
    text::lemma_concat_add(above.map_values(f), below.map_values(f));
    let one = seq![row].map_values(f);
    assert(one.drop_last() =~= Seq::<Seq<char>>::empty());
    assert(text::concat(one.drop_last()) =~= Seq::<char>::empty());
    assert(Seq::<char>::empty() + writer::kv_text(row) =~= writer::kv_text(row));
}

/// A form is written under `[Multipart]` where it was so or where an enabled field names
/// a file, and under `[Form]` otherwise; below that stand its fields, all of them.
pub proof fn a_form_with_a_file_is_multipart(fields: Seq<FieldView>, is_multipart: bool)
    ensures
        fields.len() == 0 ==> writer::form_text(fields, is_multipart).len() == 0,
        fields.len() > 0 ==> {
            let names_file = exists|i: int|
                0 <= i < fields.len() && (#[trigger] fields[i]).enabled && fields[i].kind
                    != FormFieldKind::Text;
            let lines = text::concat(fields.map_values(|f: FieldView| writer::field_text(f)));
            &&& is_multipart || names_file ==> writer::form_text(fields, is_multipart)
                == "[Multipart]\n"@ + lines
            &&& !is_multipart && !names_file ==> writer::form_text(fields, is_multipart)
                == "[Form]\n"@ + lines
        },
{
    if writer::any_file(fields) {
        let i = choose|i: int|
            0 <= i < fields.len() && (#[trigger] fields[i]).enabled
                && fields[i].kind.names_file();
        assert(fields[i].kind != FormFieldKind::Text);
    } else {
        assert forall|i: int| 0 <= i < fields.len() implies !((#[trigger] fields[i]).enabled
            && fields[i].kind != FormFieldKind::Text) by {
            assert(!(fields[i].enabled && fields[i].kind.names_file()));
        }
    }
}

/// A body is written as it is sent, and ends its line. Where it was authored otherwise,
/// that stands before it, and nowhere else does anything.
pub proof fn a_body_is_written_as_it_is_sent(src: Seq<char>)
    ensures
        ({
            let sent = json_comments::wire(src);
            let line = if sent.len() > 0 && sent.last() == '\n' {
                sent
            } else {
                sent + seq!['\n']
            };
            &&& src == sent ==> writer::body_text(Some(src)) == line
            &&& src != sent ==> writer::body_text(Some(src)) == writer::body_block(src) + line
        }),
        writer::body_text(None).len() == 0,
{
    let sent = json_comments::wire(src);
    assert(sent.push('\n') =~= sent + seq!['\n']);
    let line = writer::closed_line(sent);
    assert(Seq::<char>::empty() + line =~= line);
}

/// A request without a method is written as a `GET`.
pub proof fn a_request_line_has_a_method(method: Seq<char>, url: Seq<char>)
    ensures
        method.len() > 0 ==> writer::request_line(method, url) == method + " "@ + url + seq!['\n'],
        method.len() == 0 ==> writer::request_line(method, url) == "GET "@ + url + seq!['\n'],
{
    reveal_strlit("GET");
    reveal_strlit("GET ");
    reveal_strlit(" ");
    assert("GET"@ + " "@ =~= "GET "@);
    assert((method + " "@ + url).push('\n') =~= method + " "@ + url + seq!['\n']);
    assert(("GET "@ + url).push('\n') =~= "GET "@ + url + seq!['\n']);
}

/// A response line is written where a status is expected, and with a `*` for it where
/// none is but something else is said of the response. Otherwise there is none.
pub proof fn a_response_line_is_written_where_something_is_expected(e: EntryView)
    ensures
        ({
            let version = match e.response_version {
                Some(v) => v,
                None => "HTTP"@,
            };
            let more = e.response_version is Some || e.response_headers.len() > 0
                || e.response_body is Some || e.asserts.len() > 0 || e.captures.len() > 0
                || e.reports.len() > 0;
            &&& e.expected_status matches Some(n) ==> writer::status_text(e) == version + " "@
                + text::decimal(n as nat) + seq!['\n']
            &&& e.expected_status is None && more ==> writer::status_text(e) == version + " *"@
                + seq!['\n']
            &&& e.expected_status is None && !more && e.comments.len() == 0 ==> writer::status_text(
                e,
            ).len() == 0
        }),
{
    let version = match e.response_version {
        Some(v) => v,
        None => "HTTP"@,
    };
    assert((version + " *"@).push('\n') =~= version + " *"@ + seq!['\n']);
    if let Some(n) = e.expected_status {
        let line = version + " "@ + text::decimal(n as nat);
        assert(line.push('\n') =~= line + seq!['\n']);
    }
}

proof fn lemma_without_breaks(s: Seq<char>, core: Seq<char>, breaks: Seq<char>)
    requires
        s == core + breaks,
        core.len() > 0 ==> core.last() != '\n' && core.last() != '\r',
        forall|i: int| 0 <= i < breaks.len() ==> #[trigger] breaks[i] == '\n' || breaks[i] == '\r',
    ensures
        text::without_trailing(s, |c: char| c == '\n' || c == '\r') == core,
    decreases breaks.len(),
{
    let p = |c: char| c == '\n' || c == '\r';
    if breaks.len() > 0 {
        let less = breaks.drop_last();
        assert(breaks[breaks.len() - 1] == '\n' || breaks[breaks.len() - 1] == '\r');
        assert(s.last() == breaks.last());
        assert(s.drop_last() =~= core + less);
        assert forall|i: int| 0 <= i < less.len() implies #[trigger] less[i] == '\n' || less[i]
            == '\r' by {
            assert(less[i] == breaks[i]);
        }
        lemma_without_breaks(s.drop_last(), core, less);
    } else {
        assert(s =~= core);
    }
}

/// A text that could not be read is written back as it came, with one line feed for the
/// line breaks at its end, whatever else there is of the entry.
pub proof fn an_unreadable_text_is_written_back(e: EntryView, core: Seq<char>, breaks: Seq<char>)
    requires
        e.unparsed == Some(core + breaks),
        core.len() > 0 ==> core.last() != '\n' && core.last() != '\r',
        forall|i: int| 0 <= i < breaks.len() ==> #[trigger] breaks[i] == '\n' || breaks[i] == '\r',
    ensures
        writer::hurl_text(e) == core + seq!['\n'],
{
    lemma_without_breaks(core + breaks, core, breaks);
    assert(core.push('\n') =~= core + seq!['\n']);
}

/// A collection is its entries, all of them in order, with a blank line between each two.
pub proof fn a_collection_is_written_entry_by_entry(entries: Seq<EntryView>, e: EntryView)
    ensures
        writer::collection_text(Seq::empty()).len() == 0,
        entries.len() == 0 ==> writer::collection_text(entries.push(e)) == writer::hurl_text(e),
        entries.len() > 0 ==> writer::collection_text(entries.push(e))
            == writer::collection_text(entries) + seq!['\n'] + writer::hurl_text(e),
{
    reveal_strlit("\n");
    let f = |x: EntryView| writer::hurl_text(x);
    let all = entries.push(e).map_values(f);
    assert("\n"@ =~= seq!['\n']);
    assert(all.drop_last() =~= entries.map_values(f));
    assert(all.last() == writer::hurl_text(e));
    assert(Seq::<EntryView>::empty().map_values(f) =~= Seq::<Seq<char>>::empty());
}

} // verus!
