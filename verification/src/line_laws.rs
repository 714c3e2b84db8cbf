//! What is written on a line is read back from it.
use vstd::prelude::*;

use crate::base64_text;
use crate::entry::{FieldView, FormFieldKind, RowView};
use crate::rows;
use crate::source;
use crate::text;
use crate::text_laws;
use crate::writer;

verus! {

// ---------------------------------------------------------------------------
// Rows
// ---------------------------------------------------------------------------
/// Whether a name comes back as it was written: one that Hurl can carry, without
/// white space around it, and without a line break in a template. A row with one
/// is commented out, on one line.
pub open spec fn name_fits(key: Seq<char>) -> bool {
    writer::name_is_writable(key) && text::trimmed(key) == key
}

/// Whether a value comes back as it was written.
pub open spec fn value_fits(value: Seq<char>, enabled: bool) -> bool {
    text::trimmed(value) == value && text::unbroken(value) && (enabled ==> rows::value_trouble(value)
        is None)
}

/// Whether a note comes back as it was written: one whose lines are ended by
/// line feeds, the last by nothing, and without white space at their ends.
pub open spec fn note_fits(desc: Seq<char>) -> bool {
    text::joined(text::lines_of(desc), "\n"@) == desc && forall|i: int|
        0 <= i < text::lines_of(desc).len() ==> text::trimmed_end(
            #[trigger] text::lines_of(desc)[i],
        ) == text::lines_of(desc)[i]
}

/// Whether a row comes back as it was written.
pub open spec fn row_fits(row: RowView) -> bool {
    name_fits(row.key) && value_fits(row.value, row.enabled) && note_fits(row.desc)
}

/// The line of a row.
pub open spec fn line_of(text: Seq<char>, enabled: bool) -> Seq<char> {
    if enabled {
        text
    } else {
        "# "@ + text
    }
}

/// A name begins with what no comment, section or note begins with.
pub proof fn lemma_name_begins(key: Seq<char>)
    requires
        name_fits(key),
    ensures
        key.len() > 0,
        key[0] != '#' && key[0] != '@' && key[0] != '[',
        !text::is_white(key[0]) && !text::is_white(key[key.len() - 1]),
{
    text_laws::lemma_trimmed_ends(key);
    reveal_with_fuel(rows::key_fault, 2);
}

/// A text without line breaks is not changed by flattening.
pub proof fn lemma_flattened(s: Seq<char>)
    requires
        text::unbroken(s),
    ensures
        writer::flattened(s) == s,
{
    assert forall|i: int| 0 <= i < s.len() implies writer::flattened(s)[i] == s[i] by {
        assert(s.contains(s[i]));
    }
    assert(writer::flattened(s) =~= s);
}

proof fn lemma_contains_add(a: Seq<char>, b: Seq<char>, c: char)
    ensures
        (a + b).contains(c) <==> a.contains(c) || b.contains(c),
{
    let s = a + b;
    if a.contains(c) {
        let i = choose|i: int| 0 <= i < a.len() && a[i] == c;
        assert(s[i] == c);
    }
    if b.contains(c) {
        let i = choose|i: int| 0 <= i < b.len() && b[i] == c;
        assert(s[i + a.len()] == c);
    }
    if s.contains(c) {
        let i = choose|i: int| 0 <= i < s.len() && s[i] == c;
        if i < a.len() {
            assert(a[i] == c);
        } else {
            assert(b[i - a.len()] == c);
        }
    }
}

/// A template that is closed in a name is closed there whatever stands behind.
proof fn lemma_pair_stays(key: Seq<char>, rest: Seq<char>, i: int)
    requires
        0 <= i,
        text::find_pair(key, '}', '}', i) < key.len(),
    ensures
        text::find_pair(key + rest, '}', '}', i) == text::find_pair(key, '}', '}', i),
    decreases key.len() - i,
{
    let s = key + rest;
    if i < key.len() {
        assert(s[i] == key[i]);
        if i + 1 < key.len() {
            assert(s[i + 1] == key[i + 1]);
        }
        if !(key[i] == '}' && i + 1 < key.len() && key[i + 1] == '}') {
            lemma_pair_stays(key, rest, i + 1);
            if i + 1 == key.len() {
                assert(text::find_pair(key, '}', '}', i + 1) == key.len());
            }
        }
    }
}

/// A name that Hurl can carry ends at the colon behind it.
proof fn lemma_name_ends(key: Seq<char>, rest: Seq<char>, i: int)
    requires
        0 <= i <= key.len(),
        rows::key_fault(key, i) is None,
        rest.len() > 0,
        rest[0] == ':',
    ensures
        source::name_end(key + rest, i) == key.len(),
    decreases key.len() - i,
{
    let s = key + rest;
    if i == key.len() {
        assert(s[i] == ':');
    } else {
        assert(s[i] == key[i]);
        if key[i] == '{' && i + 1 < key.len() && key[i + 1] == '{' {
            let close = text::find_pair(key, '}', '}', i + 2);
            text::lemma_find_pair(key, '}', '}', i + 2);
            assert(s[i + 1] == key[i + 1]);
            lemma_pair_stays(key, rest, i + 2);
            lemma_name_ends(key, rest, close + 2);
        } else {
            assert(rows::key_char(key[i]));
            lemma_name_ends(key, rest, i + 1);
        }
    }
}

/// A name and a value come back from the text they are written as.
pub proof fn lemma_kv_read(key: Seq<char>, value: Seq<char>)
    requires
        name_fits(key),
        text::trimmed(value) == value,
    ensures
        source::key_and_value(text::trimmed(writer::kv(key, value))) == Some((key, value)),
        text::trimmed(writer::kv(key, value)).len() > 0,
        text::trimmed(writer::kv(key, value))[0] == key[0],
{
    let s = writer::kv(key, value);
    let n = key.len() as int;
    reveal_strlit(": ");
    lemma_name_begins(key);
    text_laws::lemma_trimmed_ends(value);
    assert(s[0] == key[0]);
    assert(s[n] == ':');
    assert(s[n + 1] == ' ');
    let end = if value.len() == 0 {
        n + 1
    } else {
        s.len() as int
    };
    if value.len() > 0 {
        assert(s[s.len() - 1] == value[value.len() - 1]);
    }
    text_laws::lemma_trimmed_is(s, 0, end);
    let t = s.subrange(0, end);
    assert(t == key + t.skip(n));
    lemma_name_ends(key, t.skip(n), 0);
    assert(t.take(n) == key);
    let behind = t.skip(n + 1);
    if value.len() == 0 {
        assert(behind == Seq::<char>::empty());
        text_laws::lemma_is_trimmed(behind);
        assert(value =~= behind);
    } else {
        assert(behind == " "@ + value) by {
            reveal_strlit(" ");
            assert forall|j: int| 0 <= j < behind.len() implies behind[j] == (" "@ + value)[j] by {
                assert(behind[j] == s[n + 1 + j]);
            }
            assert(behind =~= " "@ + value);
        }
        assert(behind[0] == ' ') by {
            reveal_strlit(" ");
        }
        assert(behind[1] == value[0]);
        assert(behind[behind.len() - 1] == value[value.len() - 1]);
        assert(behind.len() == value.len() + 1);
        text_laws::lemma_trimmed_is(behind, 1, behind.len() as int);
        assert(behind.subrange(1, behind.len() as int) == value) by {
            assert forall|j: int| 0 <= j < value.len() implies behind.subrange(
                1,
                behind.len() as int,
            )[j] == value[j] by {
                assert(behind[j + 1] == s[n + 2 + j]);
            }
            assert(behind.subrange(1, behind.len() as int) =~= value);
        }
    }
}

/// What is written for a name and a value, disabled or not, is uncommented to
/// the same text, and is no note.
proof fn lemma_line_read(s: Seq<char>, enabled: bool)
    requires
        s.len() > 0,
        !text::is_white(s[0]),
        s[0] != '#' && s[0] != '@',
    ensures
        source::uncommented(line_of(s, enabled)) == (enabled, text::trimmed(s)),
        source::note_on(line_of(s, enabled)) is None,
        source::is_comment(line_of(s, enabled)) == !enabled,
        !text::is_blank(line_of(s, enabled)),
{
    reveal_strlit("#");
    reveal_strlit("# ");
    reveal_strlit("# @desc");
    let line = line_of(s, enabled);
    let t = text::trimmed(s);
    text_laws::lemma_trimmed_start_is(s, 0);
    assert(s.skip(0) == s);
    text::lemma_trimmed_end(s);
    assert(t == text::trimmed_end(s));
    assert(t.len() > 0) by {
        if t.len() == 0 {
            assert(text::is_white(s[0]));
        }
    }
    assert(t[0] == s[0]);
    if enabled {
        assert(!text::begins(t, "#"@)) by {
            if text::begins(t, "#"@) {
                assert(t.take(1)[0] == '#');
            }
        }
        if text::begins(s, "# @desc"@) {
            assert(s.take(7)[0] == '#');
        }
    } else {
        assert(line[0] == '#' && line[1] == ' ' && line[2] == s[0]);
        text_laws::lemma_trimmed_start_is(line, 0);
        assert(line.skip(0) == line);
        let n = t.len() as int;
        assert forall|i: int| n + 2 <= i < line.len() implies text::is_white(#[trigger] line[i]) by {
            assert(line[i] == s[i - 2]);
        }
        assert(line[n + 1] == s[n - 1]);
        assert(t.last() == s[n - 1]);
        text_laws::lemma_trimmed_is(line, 0, n + 2);
        let u = line.subrange(0, n + 2);
        assert(text::trimmed(line) == u);
        assert(u[0] == '#');
        assert(u.take(1) == "#"@);
        let v = u.skip(1);
        assert(v[0] == ' ' && v[1] == s[0]);
        text_laws::lemma_trimmed_start_is(v, 1);
        assert(v.skip(1) == t) by {
            assert forall|j: int| 0 <= j < n implies v.skip(1)[j] == t[j] by {
                assert(v.skip(1)[j] == line[j + 2]);
                assert(t[j] == s[j]);
            }
            assert(v.skip(1) =~= t);
        }
        if text::begins(line, "# @desc"@) {
            assert(line.take(7)[2] == '@');
        }
    }
}

/// A row that fits is read back from the line that is written for it, but for
/// its note.
pub proof fn a_written_row_is_read_back(row: RowView)
    requires
        row_fits(row),
    ensures
        source::row_on(line_of(writer::kv(row.key, row.value), row.enabled)) == Some(
            RowView { desc: seq![], ..row },
        ),
        source::note_on(line_of(writer::kv(row.key, row.value), row.enabled)) is None,
{
    let s = writer::kv(row.key, row.value);
    lemma_name_begins(row.key);
    assert(s[0] == row.key[0]);
    lemma_kv_read(row.key, row.value);
    lemma_line_read(s, row.enabled);
}

/// A row that fits is written as its note and that line.
pub proof fn lemma_row_written(row: RowView)
    requires
        row_fits(row),
    ensures
        writer::kv_text(row) == writer::desc_lines(row.desc) + line_of(
            writer::kv(row.key, row.value),
            row.enabled,
        ).push('\n'),
        text_laws::is_line(line_of(writer::kv(row.key, row.value), row.enabled)),
{
    let s = writer::kv(row.key, row.value);
    lemma_kv_unbroken(row.key, row.value);
    lemma_flattened(s);
    lemma_line_unbroken(s, row.enabled);
}

proof fn lemma_kv_unbroken(key: Seq<char>, value: Seq<char>)
    requires
        text::unbroken(key),
        text::unbroken(value),
    ensures
        text::unbroken(writer::kv(key, value)),
{
    reveal_strlit(": ");
    let c = ": "@;
    assert(!c.contains('\n') && !c.contains('\r'));
    lemma_contains_add(key + c, value, '\n');
    lemma_contains_add(key + c, value, '\r');
    lemma_contains_add(key, c, '\n');
    lemma_contains_add(key, c, '\r');
}

proof fn lemma_line_unbroken(s: Seq<char>, enabled: bool)
    requires
        text::unbroken(s),
    ensures
        text::unbroken(line_of(s, enabled)),
        text_laws::is_line(line_of(s, enabled)),
{
    reveal_strlit("# ");
    let c = "# "@;
    assert(!c.contains('\n') && !c.contains('\r'));
    lemma_contains_add(c, s, '\n');
    lemma_contains_add(c, s, '\r');
    let line = line_of(s, enabled);
    if line.len() > 0 {
        assert(line.contains(line.last()));
    }
}

// ---------------------------------------------------------------------------
// Notes
// ---------------------------------------------------------------------------
/// A line of a note is read back from the line that is written for it, but for
/// the white space at its end.
pub proof fn a_written_note_is_read_back(line: Seq<char>)
    ensures
        source::note_on(writer::DESC_MARKER@ + line) == Some(text::trimmed_end(line)),
        source::is_comment(writer::DESC_MARKER@ + line),
{
    reveal_strlit("# @desc");
    reveal_strlit("# @desc ");
    reveal_strlit(" ");
    reveal_strlit("#");
    let s = writer::DESC_MARKER@ + line;
    text_laws::lemma_trimmed_start_is(s, 0);
    assert(s.skip(0) == s);
    assert(s.take(7) == "# @desc"@) by {
        assert(s.take(7) =~= "# @desc"@);
    }
    let rest = s.skip(7);
    assert(rest[0] == ' ');
    assert(rest.take(1) == " "@) by {
        assert(rest.take(1) =~= " "@);
    }
    assert(rest.skip(1) == line) by {
        assert(rest.skip(1) =~= line);
    }
    text::lemma_trimmed_end(s);
    let t = text::trimmed_end(s);
    assert(t.len() > 0) by {
        if t.len() == 0 {
            assert(text::is_white(s[0]));
        }
    }
    assert(t.take(1) =~= "#"@);
}

// ---------------------------------------------------------------------------
// Reports
// ---------------------------------------------------------------------------
/// Whether a report field comes back as it was written.
pub open spec fn report_fits(r: (Seq<char>, Seq<char>)) -> bool {
    rows::names_variable(r.0) && text::trimmed(r.1) == r.1 && r.1.len() > 0 && text::unbroken(r.1)
}

/// A report field that fits is read back from the line that is written for it.
pub proof fn a_written_report_field_is_read_back(r: (Seq<char>, Seq<char>))
    requires
        report_fits(r),
    ensures
        source::report_on("# "@ + writer::kv(r.0, r.1)) == Some(r),
        text_laws::is_line("# "@ + writer::kv(r.0, r.1)),
        source::is_comment("# "@ + writer::kv(r.0, r.1)),
{
    reveal_strlit("# ");
    reveal_strlit("#");
    reveal_strlit("[");
    reveal_strlit(": ");
    let name = r.0;
    let n = name.len() as int;
    let s = writer::kv(r.0, r.1);
    let line = "# "@ + s;
    let p = |c: char| !rows::name_char(c);
    text::lemma_seek(name, p);
    assert forall|i: int| 0 <= i < n implies !text::is_white(#[trigger] name[i]) && name[i] != ':'
        && name[i] != '[' && name[i] != '#' && name[i] != '@' && name[i] != '\n' && name[i]
        != '\r' by {
        assert(!p(name[i]));
    }
    assert(line[0] == '#' && line[1] == ' ' && line[2] == name[0]);
    text_laws::lemma_trimmed_start_is(line, 0);
    assert(line.skip(0) == line);
    assert(line.take(1) =~= "#"@);
    let behind = line.skip(1);
    assert(behind[0] == ' ' && behind[1] == name[0]);
    text_laws::lemma_trimmed_start_is(behind, 1);
    assert(behind.skip(1) =~= s);
    assert(s[0] == name[0]);
    if text::begins(s, "["@) {
        assert(s.take(1)[0] == '[');
    }
    assert forall|j: int| 0 <= j < n implies s[j] != ':' by {
        assert(s[j] == name[j]);
    }
    assert(s[n] == ':');
    text::lemma_find_is(s, ':', 0, n);
    assert(s.take(n) =~= name);
    text_laws::lemma_is_trimmed(name);
    text_laws::lemma_trimmed_ends(r.1);
    let q = s.skip(n + 1);
    assert(q.len() == r.1.len() + 1);
    assert(q[0] == ' ');
    assert forall|j: int| 0 <= j < r.1.len() implies q[j + 1] == r.1[j] by {
        assert(q[j + 1] == s[n + 2 + j]);
    }
    text_laws::lemma_trimmed_is(q, 1, q.len() as int);
    assert(q.subrange(1, q.len() as int) =~= r.1);
    assert(text::unbroken(name)) by {
        if name.contains('\n') {
            let i = choose|i: int| 0 <= i < n && name[i] == '\n';
        }
        if name.contains('\r') {
            let i = choose|i: int| 0 <= i < n && name[i] == '\r';
        }
    }
    lemma_kv_unbroken(name, r.1);
    lemma_line_unbroken(s, false);
    lemma_line_read(s, false);
}

// ---------------------------------------------------------------------------
// Captures
// ---------------------------------------------------------------------------
/// Whether a capture comes back as it was written.
pub open spec fn capture_fits(c: (Seq<char>, Seq<char>)) -> bool {
    c.0.len() > 0 && text::trimmed(c.0) == c.0 && text::trimmed(c.1) == c.1 && !c.0.contains(':')
        && text::unbroken(c.0) && text::unbroken(c.1) && c.0[0] != '#'
}

/// A capture that fits is read back from the line that is written for it.
pub proof fn a_written_capture_is_read_back(lines: Seq<Seq<char>>, c: (Seq<char>, Seq<char>), n: usize)
    requires
        capture_fits(c),
        1 <= n <= lines.len(),
        lines[n - 1] == writer::kv(c.0, c.1),
    ensures
        source::capture_on(lines, n) == Some(c),
        text_laws::is_line(writer::kv(c.0, c.1)),
        source::is_content(writer::kv(c.0, c.1)),
{
    let s = writer::kv(c.0, c.1);
    let k = c.0.len() as int;
    reveal_strlit(": ");
    reveal_strlit("#");
    text_laws::lemma_trimmed_ends(c.0);
    text_laws::lemma_trimmed_ends(c.1);
    assert(s[0] == c.0[0]);
    assert(s[k] == ':' && s[k + 1] == ' ');
    let end = if c.1.len() == 0 {
        k + 1
    } else {
        s.len() as int
    };
    if c.1.len() > 0 {
        assert(s[s.len() - 1] == c.1[c.1.len() - 1]);
    }
    text_laws::lemma_trimmed_is(s, 0, end);
    let t = s.subrange(0, end);
    assert forall|j: int| 0 <= j < k implies t[j] != ':' by {
        assert(t[j] == c.0[j]);
        assert(c.0.contains(c.0[j]));
    }
    text::lemma_find_is(t, ':', 0, k);
    assert(t.take(k) =~= c.0);
    let q = t.skip(k + 1);
    if c.1.len() == 0 {
        assert(q =~= c.1);
    } else {
        assert(q[0] == ' ');
        assert forall|j: int| 0 <= j < c.1.len() implies q[j + 1] == c.1[j] by {
            assert(q[j + 1] == s[k + 2 + j]);
        }
        text_laws::lemma_trimmed_is(q, 1, q.len() as int);
        assert(q.subrange(1, q.len() as int) =~= c.1);
    }
    lemma_kv_unbroken(c.0, c.1);
    lemma_line_unbroken(s, true);
    if text::begins(t, "#"@) {
        assert(t.take(1)[0] == '#');
    }
}

// ---------------------------------------------------------------------------
// File paths
// ---------------------------------------------------------------------------
proof fn lemma_escaped_first(path: Seq<char>)
    requires
        path.len() > 0,
    ensures
        writer::escaped_path(path) == writer::path_char(path[0]) + writer::escaped_path(
            path.skip(1),
        ),
{
    let f = |c: char| writer::path_char(c);
    let head = seq![writer::path_char(path[0])];
    assert(path.map_values(f) == head + path.skip(1).map_values(f));
    text::lemma_concat_add(head, path.skip(1).map_values(f));
    reveal_with_fuel(text::concat, 2);
    assert(head.drop_last() == Seq::<Seq<char>>::empty());
    assert(text::concat(head) =~= writer::path_char(path[0]));
}

/// A file's path is read back from how it is written.
pub proof fn an_escaped_path_is_read_back(path: Seq<char>)
    ensures
        source::unescaped_path(writer::escaped_path(path)) == path,
    decreases path.len(),
{
    let f = |c: char| writer::path_char(c);
    if path.len() == 0 {
        assert(path.map_values(f) == Seq::<Seq<char>>::empty());
    } else {
        lemma_escaped_first(path);
        an_escaped_path_is_read_back(path.skip(1));
        let s = writer::escaped_path(path);
        let head = writer::path_char(path[0]);
        let rest = writer::escaped_path(path.skip(1));
        if head.len() == 2 {
            assert(s[0] == '\\' && s[1] == head[1]);
            assert(s.skip(2) =~= rest);
        } else {
            assert(s[0] == head[0]);
            assert(s.skip(1) =~= rest);
        }
        assert(path =~= seq![path[0]] + path.skip(1));
    }
}

/// No semicolon of a file's path is taken for the one behind it.
pub proof fn the_semicolon_behind_a_path_is_found(before: Seq<char>, path: Seq<char>, rest: Seq<char>)
    ensures
        source::bare_semicolon(
            before + writer::escaped_path(path) + ";"@ + rest,
            before.len() as int,
        ) == before.len() + writer::escaped_path(path).len(),
    decreases path.len(),
{
    reveal_strlit(";");
    let f = |c: char| writer::path_char(c);
    let s = before + writer::escaped_path(path) + ";"@ + rest;
    let i = before.len() as int;
    if path.len() == 0 {
        assert(path.map_values(f) == Seq::<Seq<char>>::empty());
        assert(s[i] == ';');
    } else {
        lemma_escaped_first(path);
        let head = writer::path_char(path[0]);
        let tail = writer::escaped_path(path.skip(1));
        the_semicolon_behind_a_path_is_found(before + head, path.skip(1), rest);
        assert(s =~= before + head + tail + ";"@ + rest);
        assert(s[i] == head[0]);
        if head.len() == 2 {
            assert(s[i] == '\\');
            assert(source::bare_semicolon(s, i) == source::bare_semicolon(s, i + 2));
        } else {
            assert(s[i] != '\\' && s[i] != ';');
            assert(source::bare_semicolon(s, i) == source::bare_semicolon(s, i + 1));
        }
    }
}

/// A path that is written with something behind its semicolon is told from that,
/// and comes back.
pub proof fn a_path_is_told_from_what_stands_behind_it(path: Seq<char>, rest: Seq<char>)
    ensures
        ({
            let s = writer::escaped_path(path) + ";"@ + rest;
            &&& source::before_semicolon(s) == writer::escaped_path(path)
            &&& source::behind_semicolon(s) == rest
            &&& source::unescaped_path(source::before_semicolon(s)) == path
        }),
{
    reveal_strlit(";");
    let e = writer::escaped_path(path);
    let s = e + ";"@ + rest;
    the_semicolon_behind_a_path_is_found(Seq::empty(), path, rest);
    assert(Seq::<char>::empty() + e + ";"@ + rest =~= s);
    assert(s.take(e.len() as int) =~= e);
    assert(s.skip(e.len() as int + 1) =~= rest);
    an_escaped_path_is_read_back(path);
}

proof fn lemma_escaped_unbroken(path: Seq<char>)
    ensures
        text::unbroken(writer::escaped_path(path)),
    decreases path.len(),
{
    let f = |c: char| writer::path_char(c);
    if path.len() == 0 {
        assert(path.map_values(f) == Seq::<Seq<char>>::empty());
    } else {
        lemma_escaped_first(path);
        lemma_escaped_unbroken(path.skip(1));
        let head = writer::path_char(path[0]);
        let tail = writer::escaped_path(path.skip(1));
        lemma_contains_add(head, tail, '\n');
        lemma_contains_add(head, tail, '\r');
        assert(!head.contains('\n') && !head.contains('\r'));
    }
}

// ---------------------------------------------------------------------------
// Form fields
// ---------------------------------------------------------------------------
/// Whether a content type comes back as it was written: one without white space
/// around it, on one line, and not one that marks a field as sent as base64.
pub open spec fn type_fits(ct: Seq<char>) -> bool {
    ct.len() > 0 && text::trimmed(ct) == ct && text::unbroken(ct) && !text::begins(
        ct,
        writer::BASE64_FILE_CT_MARKER@,
    )
}

/// Whether a form field holds what its kind allows, in a form that comes back as
/// it was written. A text that looks like a file comes back only where it is
/// enabled: a disabled field is read from its line alone.
pub open spec fn field_fits(f: FieldView) -> bool {
    name_fits(f.key) && note_fits(f.desc) && match f.kind {
        FormFieldKind::Text => value_fits(f.value, f.enabled) && (f.enabled || !text::begins(
            f.value,
            "file,"@,
        )) && f.content_type is None && f.base64_prefix is None,
        FormFieldKind::File => f.base64_prefix is None && (f.content_type is Some ==> type_fits(
            f.content_type.unwrap(),
        )),
        FormFieldKind::Base64File => f.base64_prefix is Some && f.content_type is None,
    }
}

/// The content type as it is written for a file field.
pub open spec fn type_written(f: FieldView) -> Option<Seq<char>> {
    match f.kind {
        FormFieldKind::Base64File => Some(
            writer::BASE64_FILE_CT_MARKER@ + base64_text::carrier(
                writer::text_or_empty(f.base64_prefix),
            ),
        ),
        _ => f.content_type,
    }
}

/// What is written behind the name of a file field.
pub open spec fn file_written(f: FieldView) -> Seq<char> {
    "file,"@ + writer::escaped_path(f.value) + ";"@ + (match type_written(f) {
        Some(ct) => " "@ + ct,
        None => Seq::empty(),
    })
}

/// What is written behind the name of a field.
pub open spec fn value_written(f: FieldView) -> Seq<char> {
    if f.kind.names_file() {
        file_written(f)
    } else {
        f.value
    }
}

proof fn lemma_marker_type(prefix: Seq<char>)
    ensures
        ({
            let ct = writer::BASE64_FILE_CT_MARKER@ + base64_text::carrier(prefix);
            &&& ct.len() > 0
            &&& text::trimmed(ct) == ct
            &&& text::unbroken(ct)
            &&& text::without_prefix(ct, writer::BASE64_FILE_CT_MARKER@) == Some(
                base64_text::carrier(prefix),
            )
        }),
{
    reveal_strlit("x-paperboy-base64;");
    let m = writer::BASE64_FILE_CT_MARKER@;
    let b = base64_text::carrier(prefix);
    let ct = m + b;
    base64_text::lemma_url_base64_chars(vstd::utf8::encode_utf8(prefix));
    assert forall|i: int| 0 <= i < ct.len() implies ct[i] != '\n' && ct[i] != '\r' by {
        if i >= m.len() {
            assert(ct[i] == b[i - m.len()]);
        }
    }
    assert(ct[0] == 'x');
    if b.len() > 0 {
        assert(ct[ct.len() - 1] == b[b.len() - 1]);
    }
    text_laws::lemma_is_trimmed(ct);
    assert(ct.take(m.len() as int) =~= m);
    assert(ct.skip(m.len() as int) =~= b);
}

/// What is written for a file field is unbroken and trimmed.
proof fn lemma_file_written(f: FieldView)
    requires
        field_fits(f),
        f.kind.names_file(),
    ensures
        text::unbroken(file_written(f)),
        text::trimmed(file_written(f)) == file_written(f),
        type_written(f) is Some ==> type_written(f).unwrap().len() > 0 && text::trimmed(
            type_written(f).unwrap(),
        ) == type_written(f).unwrap(),
{
    reveal_strlit("file,");
    reveal_strlit(";");
    reveal_strlit(" ");
    let w = file_written(f);
    let esc = writer::escaped_path(f.value);
    lemma_escaped_unbroken(f.value);
    lemma_marker_type(writer::text_or_empty(f.base64_prefix));
    let tail = match type_written(f) {
        Some(ct) => " "@ + ct,
        None => Seq::empty(),
    };
    if type_written(f) is Some {
        let ct = type_written(f).unwrap();
        lemma_contains_add(" "@, ct, '\n');
        lemma_contains_add(" "@, ct, '\r');
        text_laws::lemma_trimmed_ends(ct);
        assert(w[w.len() - 1] == ct[ct.len() - 1]);
    } else {
        assert(w[w.len() - 1] == ';');
    }
    assert(!"file,"@.contains('\n') && !"file,"@.contains('\r'));
    assert(!";"@.contains('\n') && !";"@.contains('\r'));
    assert(!" "@.contains('\n') && !" "@.contains('\r'));
    assert(!tail.contains('\n') && !tail.contains('\r'));
    lemma_contains_add("file,"@, esc, '\n');
    lemma_contains_add("file,"@, esc, '\r');
    lemma_contains_add("file,"@ + esc, ";"@, '\n');
    lemma_contains_add("file,"@ + esc, ";"@, '\r');
    lemma_contains_add("file,"@ + esc + ";"@, tail, '\n');
    lemma_contains_add("file,"@ + esc + ";"@, tail, '\r');
    assert(w[0] == 'f');
    text_laws::lemma_is_trimmed(w);
}

/// A field's line is its name and what is written behind it.
pub proof fn lemma_field_line(f: FieldView)
    requires
        field_fits(f),
    ensures
        writer::field_line(f) == writer::kv(f.key, value_written(f)),
        text::unbroken(value_written(f)),
        text::trimmed(value_written(f)) == value_written(f),
{
    reveal_strlit(": ");
    reveal_strlit(": file,");
    reveal_strlit("file,");
    reveal_strlit(";");
    reveal_strlit("; ");
    reveal_strlit(" ");
    if f.kind.names_file() {
        lemma_file_written(f);
        assert(": file,"@ =~= ": "@ + "file,"@);
        let esc = writer::escaped_path(f.value);
        if f.kind is Base64File {
            assert("; "@ =~= ";"@ + " "@);
            let ct = type_written(f).unwrap();
            assert(writer::field_line(f) =~= writer::kv(f.key, file_written(f)));
        } else if f.content_type is Some {
            assert(writer::field_line(f) =~= writer::kv(f.key, file_written(f)));
        } else {
            assert(writer::field_line(f) =~= writer::kv(f.key, file_written(f)));
        }
    }
}

/// A file field is read back from what is written behind its name.
proof fn lemma_file_read(f: FieldView)
    requires
        field_fits(f),
        f.kind.names_file(),
    ensures
        text::without_prefix(file_written(f), "file,"@) is Some,
        source::file_value(f.key, text::without_prefix(file_written(f), "file,"@).unwrap()) == (
        FieldView { enabled: true, desc: seq![], ..f }),
{
    reveal_strlit("file,");
    reveal_strlit(";");
    reveal_strlit(" ");
    lemma_file_written(f);
    let w = file_written(f);
    let esc = writer::escaped_path(f.value);
    let tail = match type_written(f) {
        Some(ct) => " "@ + ct,
        None => Seq::empty(),
    };
    assert(w.take(5) =~= "file,"@);
    let s = w.skip(5);
    assert(s =~= esc + ";"@ + tail);
    the_semicolon_behind_a_path_is_found(Seq::empty(), f.value, tail);
    assert(Seq::<char>::empty() + esc + ";"@ + tail =~= s);
    let n = esc.len() as int;
    assert(source::bare_semicolon(s, 0) == n);
    assert(s.take(n) =~= esc);
    an_escaped_path_is_read_back(f.value);
    assert(s.skip(n + 1) =~= tail);
    lemma_file_shape(f);
    match type_written(f) {
        Some(ct) => {
            text_laws::lemma_trimmed_ends(ct);
            assert(tail[0] == ' ' && tail[1] == ct[0]);
            assert(tail[tail.len() - 1] == ct[ct.len() - 1]);
            text_laws::lemma_trimmed_is(tail, 1, tail.len() as int);
            assert(tail.subrange(1, tail.len() as int) =~= ct);
        },
        None => {
            text_laws::lemma_is_trimmed(tail);
        },
    }
}

/// A file field is what its name, its path and its content type as written make.
pub proof fn lemma_file_shape(f: FieldView)
    requires
        field_fits(f),
        f.kind.names_file(),
    ensures
        source::file_field(f.key, f.value, type_written(f)) == (FieldView {
            enabled: true,
            desc: seq![],
            ..f
        }),
{
    if f.kind is Base64File {
        let prefix = f.base64_prefix.unwrap();
        lemma_marker_type(prefix);
        base64_text::a_carried_text_comes_back(prefix);
    } else {
        match f.content_type {
            Some(ct) => {
                assert(text::without_prefix(ct, writer::BASE64_FILE_CT_MARKER@) is None);
            },
            None => {},
        }
    }
}

/// A form field that fits is read back from the line that is written for it, but
/// for its note, unless it is a text that looks like a file.
pub proof fn a_written_field_is_read_back(f: FieldView)
    requires
        field_fits(f),
    ensures
        source::field_on(
            source::uncommented(line_of(writer::field_line(f), f.enabled)).1,
            true,
        ) is Some,
        f.kind.names_file() || !text::begins(f.value, "file,"@) ==> source::field_on(
            source::uncommented(line_of(writer::field_line(f), f.enabled)).1,
            true,
        ) == Some(FieldView { enabled: true, desc: seq![], ..f }),
        source::uncommented(line_of(writer::field_line(f), f.enabled)).0 == f.enabled,
        source::note_on(line_of(writer::field_line(f), f.enabled)) is None,
{
    lemma_field_line(f);
    let s = writer::field_line(f);
    lemma_name_begins(f.key);
    assert(s[0] == f.key[0]);
    lemma_kv_read(f.key, value_written(f));
    lemma_line_read(s, f.enabled);
    if f.kind.names_file() {
        lemma_file_read(f);
    }
}

/// A form field that fits is written as its note and that line.
pub proof fn lemma_field_written(f: FieldView)
    requires
        field_fits(f),
    ensures
        writer::field_text(f) == writer::desc_lines(f.desc) + line_of(
            writer::field_line(f),
            f.enabled,
        ).push('\n'),
        text_laws::is_line(line_of(writer::field_line(f), f.enabled)),
{
    lemma_field_line(f);
    let s = writer::field_line(f);
    lemma_kv_unbroken(f.key, value_written(f));
    lemma_flattened(s);
    lemma_line_unbroken(s, f.enabled);
}

// ---------------------------------------------------------------------------
// Line breaks
// ---------------------------------------------------------------------------
/// A commented row stays on one line, whatever stands in it: what follows a line
/// break would be no comment any more.
pub proof fn a_commented_row_stays_on_one_line(line: Seq<char>)
    ensures
        text::lines_of(writer::row_line(line, false)) == seq!["# "@ + writer::flattened(line)],
{
    reveal_strlit("# ");
    let l = "# "@ + writer::flattened(line);
    assert forall|i: int| 0 <= i < l.len() implies l[i] != '\n' && l[i] != '\r' by {
        if i >= 2 {
            assert(l[i] == writer::flattened(line)[i - 2]);
        }
    }
    let none = Seq::<char>::empty();
    text_laws::lemma_line_first(l, none);
    assert(l.push('\n') + none =~= l.push('\n'));
    assert(seq![l] + text::lines_of(none) =~= seq![l]);
}

/// A title takes one line at most, whatever stands in it.
pub proof fn a_title_stays_on_one_line(title: Seq<char>)
    ensures
        text::lines_of(writer::title_text(title)) == (if text::is_blank(title) {
            Seq::<Seq<char>>::empty()
        } else {
            seq!["# "@ + writer::on_one_line(title)]
        }),
{
    if !text::is_blank(title) {
        reveal_strlit("# ");
        let f = writer::flattened(title);
        let t = writer::on_one_line(title);
        let l = "# "@ + t;
        text::lemma_trimmed_start(f);
        text::lemma_trimmed_end(text::trimmed_start(f));
        assert forall|i: int| 0 <= i < l.len() implies l[i] != '\n' && l[i] != '\r' by {
            if i >= 2 {
                let k = f.len() - text::trimmed_start(f).len();
                assert(l[i] == t[i - 2]);
                assert(t[i - 2] == text::trimmed_start(f)[i - 2]);
                assert(text::trimmed_start(f)[i - 2] == f[k + i - 2]);
            }
        }
        let none = Seq::<char>::empty();
        text_laws::lemma_line_first(l, none);
        assert(l.push('\n') + none =~= l.push('\n'));
        assert(seq![l] + text::lines_of(none) =~= seq![l]);
    }
}

} // verus!
