//! What holds of the names and values of rows, of placeholders and of parameters.
use vstd::prelude::*;

use crate::entry::RowView;
use crate::i18n;
use crate::params;
use crate::params::ParamNameTrouble;
use crate::rows;
use crate::rows::{KeyProblem, PlaceholderTrouble};
use crate::text;
use crate::text_laws;

verus! {

// ---------------------------------------------------------------------------
// Values
// ---------------------------------------------------------------------------
/// Whether a character can't stand in the value of a row: a line break, a tab or a
/// backslash.
pub open spec fn spoils_value(c: char) -> bool {
    c == '\n' || c == '\r' || c == '\t' || c == '\\'
}

/// Any value can be written but one with a line break, a tab or a backslash in it, and
/// then the first of them is the reason.
pub proof fn a_value_is_refused_for_its_first_bad_character(value: Seq<char>, n: int)
    requires
        0 <= n <= value.len(),
        forall|i: int| 0 <= i < n ==> !spoils_value(#[trigger] value[i]),
        n < value.len() ==> spoils_value(value[n]),
    ensures
        n == value.len() ==> rows::value_trouble(value) is None,
        n < value.len() ==> rows::value_trouble(value) == Some(value[n]),
{
    let p = |c: char| rows::breaks_value(c);
    assert forall|i: int| 0 <= i < n implies !p(#[trigger] value[i]) by {
        assert(!spoils_value(value[i]));
    }
    text::lemma_seek_is(value, p, n);
}

// ---------------------------------------------------------------------------
// Names
// ---------------------------------------------------------------------------
/// Whether a character can stand in the name of a row.
pub open spec fn suits_name(c: char) -> bool {
    rows::is_alphanumeric(c) || c == '-' || c == '_' || c == '.' || c == '[' || c == ']' || c
        == '$'
}

proof fn lemma_fault_at(key: Seq<char>, i: int, n: int)
    requires
        0 <= i <= n <= key.len(),
        key.len() > 0 && key[0] != '[',
        forall|j: int| i <= j < n ==> suits_name(#[trigger] key[j]),
    ensures
        rows::key_fault(key, i) == rows::key_fault(key, n),
    decreases n - i,
{
    if i < n {
        assert(suits_name(key[i]));
        lemma_fault_at(key, i + 1, n);
    }
}

/// A name can be made of letters, digits and a few signs. Of any other character the
/// first is the reason why it can't be one; so are an opening bracket at its beginning
/// and that there is nothing of it.
pub proof fn a_name_is_refused_for_its_first_bad_character(key: Seq<char>, n: int)
    requires
        text::trimmed(key) == key,
        0 <= n <= key.len(),
        forall|i: int| 0 <= i < n ==> suits_name(#[trigger] key[i]),
        n < key.len() ==> !suits_name(key[n]) && !(n + 1 < key.len() && key[n] == '{' && key[n + 1]
            == '{'),
    ensures
        rows::key_trouble(key) == if key.len() == 0 {
            Some(KeyProblem::Empty)
        } else if key[0] == '[' {
            Some(KeyProblem::LeadingBracket)
        } else if n < key.len() {
            Some(KeyProblem::Char(key[n]))
        } else {
            None
        },
{
    if key.len() > 0 && key[0] != '[' {
        lemma_fault_at(key, 0, n);
    }
}

/// A template in braces.
pub open spec fn braced(inner: Seq<char>) -> Seq<char> {
    seq!['{', '{'] + inner + seq!['}', '}']
}

proof fn lemma_pair_is(s: Seq<char>, a: char, b: char, i: int, n: int)
    requires
        0 <= i <= n,
        n + 1 < s.len() && s[n] == a && s[n + 1] == b,
        forall|j: int| i <= j < n ==> #[trigger] s[j] != a,
    ensures
        text::find_pair(s, a, b, i) == n,
    decreases n - i,
{
    if i < n {
        assert(s[i] != a);
        lemma_pair_is(s, a, b, i + 1, n);
    }
}

proof fn lemma_no_pair(s: Seq<char>, a: char, b: char, i: int)
    requires
        0 <= i,
        forall|j: int| i <= j < s.len() ==> #[trigger] s[j] != a,
    ensures
        text::find_pair(s, a, b, i) == s.len(),
    decreases s.len() - i,
{
    if i < s.len() {
        assert(s[i] != a);
        lemma_no_pair(s, a, b, i + 1);
    }
}

proof fn lemma_pair_shifted(s: Seq<char>, a: char, b: char, i: int, k: int)
    requires
        0 <= i <= s.len(),
        0 <= k,
    ensures
        text::find_pair(s, a, b, i + k) == i + text::find_pair(s.skip(i), a, b, k),
    decreases s.len() - i - k,
{
    if i + k < s.len() {
        let t = s.skip(i);
        assert(t[k] == s[i + k]);
        if i + k + 1 < s.len() {
            assert(t[k + 1] == s[i + k + 1]);
        }
        lemma_pair_shifted(s, a, b, i, k + 1);
    }
}

/// Whether the faults that are found behind two places are the same, place for place.
proof fn lemma_fault_behind(s: Seq<char>, t: Seq<char>, i: int, j: int)
    requires
        0 < i <= s.len(),
        0 < j <= t.len(),
        s.skip(i) == t.skip(j),
    ensures
        rows::key_fault(s, i) == rows::key_fault(t, j),
    decreases s.len() - i,
{
    let rest = s.skip(i);
    assert(rest.len() == s.len() - i && rest.len() == t.len() - j);
    if i < s.len() {
        assert(rest[0] == s[i] && rest[0] == t[j]);
        if i + 1 < s.len() {
            assert(rest[1] == s[i + 1] && rest[1] == t[j + 1]);
        }
        if i + 1 < s.len() && s[i] == '{' && s[i + 1] == '{' {
            lemma_pair_shifted(s, '}', '}', i, 2);
            lemma_pair_shifted(t, '}', '}', j, 2);
            let close = text::find_pair(s, '}', '}', i + 2);
            text::lemma_find_pair(s, '}', '}', i + 2);
            if close < s.len() {
                let k = close - i + 2;
                assert(s.skip(i + k) =~= rest.skip(k));
                assert(t.skip(j + k) =~= rest.skip(k));
                lemma_fault_behind(s, t, i + k, j + k);
            }
        } else {
            assert(s.skip(i + 1) =~= rest.skip(1));
            assert(t.skip(j + 1) =~= rest.skip(1));
            lemma_fault_behind(s, t, i + 1, j + 1);
        }
    }
}

/// What stands in a template is not looked at: a name with another template in its place
/// is as good or as bad.
pub proof fn what_is_in_a_template_does_not_matter(
    before: Seq<char>,
    a: Seq<char>,
    b: Seq<char>,
    behind: Seq<char>,
)
    requires
        forall|i: int| 0 <= i < before.len() ==> suits_name(#[trigger] before[i]),
        forall|i: int| 0 <= i < a.len() ==> #[trigger] a[i] != '}',
        forall|i: int| 0 <= i < b.len() ==> #[trigger] b[i] != '}',
        behind.len() > 0 ==> !text::is_white(behind.last()),
    ensures
        rows::key_trouble(before + braced(a) + behind) == rows::key_trouble(
            before + braced(b) + behind,
        ),
        (before.len() == 0 || before[0] != '[') && behind.len() == 0 ==> rows::key_trouble(
            before + braced(a) + behind,
        ) is None,
{
    let s = before + braced(a) + behind;
    let t = before + braced(b) + behind;
    lemma_is_trimmed(before, a, behind);
    lemma_is_trimmed(before, b, behind);
    let n = before.len() as int;
    assert(s[0] == t[0]);
    if s[0] != '[' {
        assert forall|i: int| 0 <= i < n implies suits_name(#[trigger] s[i]) && suits_name(t[i]) by {
            assert(s[i] == before[i] && t[i] == before[i]);
        }
        assert forall|i: int| 0 <= i < n implies suits_name(#[trigger] t[i]) by {
            assert(t[i] == before[i]);
        }
        lemma_fault_at(s, 0, n);
        lemma_fault_at(t, 0, n);
        lemma_closes(before, a, behind);
        lemma_closes(before, b, behind);
        let x = n + 4 + a.len();
        let y = n + 4 + b.len();
        assert(s.skip(x) =~= behind);
        assert(t.skip(y) =~= behind);
        lemma_fault_behind(s, t, x, y);
    }
}

proof fn lemma_closes(before: Seq<char>, a: Seq<char>, behind: Seq<char>)
    requires
        forall|i: int| 0 <= i < a.len() ==> #[trigger] a[i] != '}',
    ensures
        ({
            let s = before + braced(a) + behind;
            rows::key_fault(s, before.len() as int) == rows::key_fault(
                s,
                (before.len() + 4 + a.len()) as int,
            )
        }),
{
    let s = before + braced(a) + behind;
    let n = before.len() as int;
    assert(s[n] == '{' && s[n + 1] == '{');
    let close = n + 2 + a.len();
    assert(s[close] == '}' && s[close + 1] == '}');
    assert forall|j: int| n + 2 <= j < close implies #[trigger] s[j] != '}' by {
        assert(s[j] == a[j - n - 2]);
    }
    lemma_pair_is(s, '}', '}', n + 2, close);
}

proof fn lemma_is_trimmed(before: Seq<char>, a: Seq<char>, behind: Seq<char>)
    requires
        forall|i: int| 0 <= i < before.len() ==> suits_name(#[trigger] before[i]),
        behind.len() > 0 ==> !text::is_white(behind.last()),
    ensures
        text::trimmed(before + braced(a) + behind) == before + braced(a) + behind,
{
    let s = before + braced(a) + behind;
    if before.len() > 0 {
        assert(suits_name(before[0]));
        assert(s[0] == before[0]);
    } else {
        assert(s[0] == '{');
    }
    if behind.len() > 0 {
        assert(s.last() == behind.last());
    } else {
        assert(s.last() == '}');
    }
    text_laws::lemma_is_trimmed(s);
}

// ---------------------------------------------------------------------------
// Placeholders
// ---------------------------------------------------------------------------
/// Whether a character is read as part of a variable's name.
pub open spec fn suits_variable(c: char) -> bool {
    rows::is_alphanumeric(c) || c == '_' || c == '-'
}

/// Whether a character ends a template where it should not end.
pub open spec fn cuts_template(c: char) -> bool {
    c == '\\' || c == '#' || c == '\n' || c == '\r' || c == '\t' || c == '\u{8}' || c == '\u{c}'
}

proof fn lemma_leading(s: Seq<char>, t: Seq<char>, m: nat)
    requires
        t.len() > 0 ==> t[0] != ' ',
        s == Seq::new(m, |i: int| ' ') + t,
    ensures
        text::without_leading(s, |c: char| c == ' ') == t,
    decreases m,
{
    if m > 0 {
        let less = (m - 1) as nat;
        assert(s[0] == ' ');
        assert(s.drop_first() =~= Seq::new(less, |i: int| ' ') + t);
        lemma_leading(s.drop_first(), t, less);
    } else {
        assert(s =~= t);
    }
}

proof fn lemma_trailing(s: Seq<char>, t: Seq<char>, m: nat)
    requires
        t.len() > 0 ==> t.last() != ' ',
        s == t + Seq::new(m, |i: int| ' '),
    ensures
        text::without_trailing(s, |c: char| c == ' ') == t,
    decreases m,
{
    if m > 0 {
        let less = (m - 1) as nat;
        assert(s.last() == ' ');
        assert(s.drop_last() =~= t + Seq::new(less, |i: int| ' '));
        lemma_trailing(s.drop_last(), t, less);
    } else {
        assert(s =~= t);
    }
}

/// A placeholder is read up to the first character that no variable's name has, with
/// any number of spaces around it. Where that is not the whole of it, what was written
/// and what is read of it are told. Where nothing is read, or a character stands
/// anywhere in it that ends a template, the file can't be read.
pub proof fn a_placeholder_is_read_up_to_its_first_other_character(
    left: nat,
    t: Seq<char>,
    right: nat,
    n: int,
)
    requires
        0 <= n <= t.len(),
        t.len() > 0,
        t[0] != ' ' && t.last() != ' ',
        forall|i: int| 0 <= i < n ==> suits_variable(#[trigger] t[i]),
        n < t.len() ==> !suits_variable(t[n]),
    ensures
        ({
            let inner = Seq::new(left, |i: int| ' ') + t + Seq::new(right, |i: int| ' ');
            let cut = exists|i: int| 0 <= i < t.len() && cuts_template(#[trigger] t[i]);
            rows::placeholder_trouble(inner) == if cut || n == 0 {
                Some(PlaceholderTrouble::Unparsable { written: braced(inner) })
            } else if n < t.len() {
                Some(PlaceholderTrouble::Truncated { written: braced(inner), read: t.take(n) })
            } else {
                None
            }
        }),
{
    let inner = Seq::new(left, |i: int| ' ') + t + Seq::new(right, |i: int| ' ');
    let tail = t + Seq::new(right, |i: int| ' ');
    assert(inner =~= Seq::new(left, |i: int| ' ') + tail);
    assert(tail[0] == t[0]);
    lemma_leading(inner, tail, left);
    lemma_trailing(tail, t, right);
    let p = |c: char| !rows::name_char(c);
    assert forall|i: int| 0 <= i < n implies !p(#[trigger] t[i]) by {
        assert(suits_variable(t[i]));
    }
    text::lemma_seek_is(t, p, n);
    let q = |c: char| rows::stops_template(c);
    text::lemma_seek(t, q);
    if text::seek(t, q) < t.len() {
        assert(q(t[text::seek(t, q)]));
        assert(cuts_template(t[text::seek(t, q)]));
    } else {
        assert forall|i: int| 0 <= i < t.len() implies !cuts_template(#[trigger] t[i]) by {
            assert(!q(t[i]));
        }
    }
    assert(braced(inner) =~= rows::placeholder(inner));
}

/// The placeholders of a text are looked at one by one, all of them.
pub proof fn every_placeholder_is_looked_at(before: Seq<char>, inner: Seq<char>, behind: Seq<char>)
    requires
        forall|i: int| 0 <= i < before.len() ==> #[trigger] before[i] != '{',
        forall|i: int| 0 <= i < inner.len() ==> #[trigger] inner[i] != '}',
    ensures
        rows::placeholder_troubles(before, 0).len() == 0,
        rows::placeholder_troubles(before + braced(inner) + behind, 0) == (
        match rows::placeholder_trouble(inner) {
            Some(p) => seq![p],
            None => seq![],
        }) + rows::placeholder_troubles(behind, 0),
{
    let s = before + braced(inner) + behind;
    let n = before.len() as int;
    let close = n + 2 + inner.len();
    lemma_no_pair(before, '{', '{', 0);
    assert(s[n] == '{' && s[n + 1] == '{' && s[close] == '}' && s[close + 1] == '}');
    assert forall|j: int| 0 <= j < n implies #[trigger] s[j] != '{' by {
        assert(s[j] == before[j]);
    }
    assert forall|j: int| n + 2 <= j < close implies #[trigger] s[j] != '}' by {
        assert(s[j] == inner[j - n - 2]);
    }
    lemma_pair_is(s, '{', '{', 0, n);
    lemma_pair_is(s, '}', '}', n + 2, close);
    assert(s.subrange(n + 2, close) =~= inner);
    lemma_troubles_shifted(s, close + 2, 0);
    assert(s.skip(close + 2) =~= behind);
    let rest = rows::placeholder_troubles(behind, 0);
    assert(Seq::<PlaceholderTrouble>::empty() + rest =~= rest);
}

proof fn lemma_troubles_shifted(s: Seq<char>, i: int, k: int)
    requires
        0 <= i <= s.len(),
        0 <= k <= s.len() - i,
    ensures
        rows::placeholder_troubles(s, i + k) == rows::placeholder_troubles(s.skip(i), k),
    decreases s.len() - i - k,
{
    let t = s.skip(i);
    lemma_pair_shifted(s, '{', '{', i, k);
    let open = text::find_pair(t, '{', '{', k);
    text::lemma_find_pair(t, '{', '{', k);
    if open < t.len() {
        lemma_pair_shifted(s, '}', '}', i, open + 2);
        let close = text::find_pair(t, '}', '}', open + 2);
        text::lemma_find_pair(t, '}', '}', open + 2);
        if close < t.len() {
            lemma_troubles_shifted(s, i, close + 2);
            assert(t.subrange(open + 2, close) =~= s.subrange(i + open + 2, i + close));
        }
    }
}

// ---------------------------------------------------------------------------
// Parameters
// ---------------------------------------------------------------------------
/// An enabled row declares a parameter where its option is `variable`, in letters of
/// either case, and what is before the first equals sign of its value can be a
/// variable's name. All that is behind that sign is its default.
pub proof fn a_variable_row_declares_its_name(key: Seq<char>, name: Seq<char>, value: Seq<char>)
    requires
        text::lowered(text::trimmed(key)) == text::lowered("variable"@),
        forall|i: int| 0 <= i < name.len() ==> #[trigger] name[i] != '=',
    ensures
        ({
            let got = params::declared_by(true, key, name + seq!['='] + value);
            let n = text::trimmed(name);
            let fits = n.len() > 0 && forall|i: int|
                0 <= i < n.len() ==> suits_variable(#[trigger] n[i]);
            &&& fits ==> got == Some((n, text::trimmed(value)))
            &&& !fits ==> got is None
        }),
        params::declared_by(true, key, name) is None,
        params::declared_by(false, key, name + seq!['='] + value) is None,
{
    let whole = name + seq!['='] + value;
    let at = name.len() as int;
    assert forall|j: int| 0 <= j < at implies whole[j] != '=' by {
        assert(whole[j] == name[j]);
    }
    assert(whole[at] == '=');
    text::lemma_find_is(whole, '=', 0, at);
    text::lemma_find_is(name, '=', 0, at);
    assert(whole.take(at) =~= name);
    assert(whole.skip(at + 1) =~= value);
    let n = text::trimmed(name);
    let p = |c: char| !rows::name_char(c);
    text::lemma_seek(n, p);
    if forall|i: int| 0 <= i < n.len() ==> suits_variable(#[trigger] n[i]) {
        assert forall|i: int| 0 <= i < n.len() implies !p(#[trigger] n[i]) by {
            assert(suits_variable(n[i]));
        }
        text::lemma_seek_is(n, p, n.len() as int);
    } else {
        let i = choose|i: int| 0 <= i < n.len() && !suits_variable(#[trigger] n[i]);
        assert(p(n[i]));
    }
}

/// Every row that declares a parameter adds it, behind those of the rows before it.
pub proof fn every_row_can_declare_a_parameter(
    options: Seq<RowView>,
    row: RowView,
)
    ensures
        params::declared_in(options.push(row)) == params::declared_in(options) + (
        match params::declared_by(row.enabled, row.key, row.value) {
            Some(p) => seq![p],
            None => seq![],
        }),
        params::declared_in(Seq::empty()).len() == 0,
{
    assert(options.push(row).drop_last() =~= options);
    assert(options.push(row).last() == row);
}

proof fn lemma_first_named(declared: Seq<(Seq<char>, Seq<char>)>, name: Seq<char>, i: int)
    requires
        0 <= i <= declared.len(),
        forall|j: int| 0 <= j < i ==> (#[trigger] declared[j]).0 != name,
        i < declared.len() ==> declared[i].0 == name,
    ensures
        params::first_named(declared, name) == i,
    decreases i,
{
    if i > 0 {
        let rest = declared.drop_first();
        assert(declared[0].0 != name);
        assert forall|j: int| 0 <= j < i - 1 implies (#[trigger] rest[j]).0 != name by {
            assert(rest[j] == declared[j + 1]);
        }
        if i < declared.len() {
            assert(rest[i - 1] == declared[i]);
        }
        lemma_first_named(rest, name, i - 1);
    }
}

/// A name is good for a value where it can be a variable's and is either not declared or
/// declared with that very value. Where it is declared with another, that one is told.
pub proof fn a_name_is_good_for_one_value(
    name: Seq<char>,
    value: Seq<char>,
    declared: Seq<(Seq<char>, Seq<char>)>,
    i: int,
)
    requires
        0 <= i <= declared.len(),
        forall|j: int| 0 <= j < i ==> (#[trigger] declared[j]).0 != text::trimmed(name),
        i < declared.len() ==> declared[i].0 == text::trimmed(name),
    ensures
        ({
            let got = params::name_trouble(name, value, declared);
            let n = text::trimmed(name);
            let fits = n.len() > 0 && forall|k: int|
                0 <= k < n.len() ==> suits_variable(#[trigger] n[k]);
            &&& !fits ==> got == Some(ParamNameTrouble::Invalid)
            &&& fits && (i == declared.len() || declared[i].1 == text::trimmed(value)) ==> got
                is None
            &&& fits && i < declared.len() && declared[i].1 != text::trimmed(value) ==> got
                == Some(ParamNameTrouble::Conflict(declared[i].1))
        }),
{
    let n = text::trimmed(name);
    lemma_first_named(declared, n, i);
    let p = |c: char| !rows::name_char(c);
    text::lemma_seek(n, p);
    if forall|k: int| 0 <= k < n.len() ==> suits_variable(#[trigger] n[k]) {
        assert forall|k: int| 0 <= k < n.len() implies !p(#[trigger] n[k]) by {
            assert(suits_variable(n[k]));
        }
        text::lemma_seek_is(n, p, n.len() as int);
    } else {
        let k = choose|k: int| 0 <= k < n.len() && !suits_variable(#[trigger] n[k]);
        assert(p(n[k]));
    }
}

/// Whether a character parts the segments of a path.
pub open spec fn parts_path(c: char) -> bool {
    c == '/' || c == '\\'
}

proof fn lemma_segment(s: Seq<char>, dir: Seq<char>, file: Seq<char>)
    requires
        s == dir + file,
        dir.len() > 0 && parts_path(dir.last()),
        forall|i: int| 0 <= i < file.len() ==> !parts_path(#[trigger] file[i]),
    ensures
        params::last_segment(s) == file,
    decreases file.len(),
{
    if file.len() == 0 {
        assert(s =~= dir);
    } else {
        let less = file.drop_last();
        assert forall|i: int| 0 <= i < less.len() implies !parts_path(#[trigger] less[i]) by {
            assert(less[i] == file[i]);
        }
        assert(s.drop_last() =~= dir + less);
        lemma_segment(s.drop_last(), dir, less);
        assert(!parts_path(file[file.len() - 1]));
        assert(s.last() == file.last());
        assert(less.push(file.last()) =~= file);
    }
}

/// A path suggests the name of its file, up to the first dot in it; a value that is no
/// path suggests the whole of itself.
pub proof fn a_path_suggests_the_name_of_its_file(
    dir: Seq<char>,
    file: Seq<char>,
    ending: Seq<char>,
)
    requires
        forall|i: int| 0 <= i < file.len() ==> !parts_path(#[trigger] file[i]) && file[i] != '.',
        forall|i: int| 0 <= i < ending.len() ==> !parts_path(#[trigger] ending[i]),
        ending.len() > 0 ==> ending[0] == '.',
    ensures
        dir.len() > 0 && parts_path(dir.last()) ==> params::name_core(dir + (file + ending)) == file,
        params::name_core(file + ending) == file + ending,
{
    let whole = file + ending;
    assert forall|i: int| 0 <= i < whole.len() implies !parts_path(#[trigger] whole[i]) by {
        if i < file.len() {
            assert(whole[i] == file[i]);
        } else {
            assert(whole[i] == ending[i - file.len()]);
        }
    }
    if whole.contains('/') {
        let i = choose|i: int| 0 <= i < whole.len() && whole[i] == '/';
        assert(!parts_path(whole[i]));
    }
    if whole.contains('\\') {
        let i = choose|i: int| 0 <= i < whole.len() && whole[i] == '\\';
        assert(!parts_path(whole[i]));
    }
    if dir.len() > 0 && parts_path(dir.last()) {
        let s = dir + whole;
        lemma_segment(s, dir, whole);
        assert(s[dir.len() - 1] == dir.last());
        let n = file.len() as int;
        assert forall|i: int| 0 <= i < n implies whole[i] != '.' by {
            assert(whole[i] == file[i]);
        }
        if n < whole.len() {
            assert(whole[n] == ending[0]);
        }
        text::lemma_find_is(whole, '.', 0, n);
        assert(whole.take(n) =~= file);
    }
}

/// Upper case is made of every letter and digit, in order, and of what stands between
/// them one bar.
pub proof fn a_name_is_shouted_piece_by_piece(before: Seq<char>, c: char)
    ensures
        params::shouted(Seq::empty()).len() == 0,
        rows::is_alphanumeric(c) ==> params::shouted(before.push(c)) == params::shouted(before)
            + params::uppercased(c),
        !rows::is_alphanumeric(c) ==> {
            let loud = params::shouted(before);
            params::shouted(before.push(c)) == if loud.len() > 0 && loud.last() == '_' {
                loud
            } else {
                loud + seq!['_']
            }
        },
{
    assert(before.push(c).drop_last() =~= before);
    assert(before.push(c).last() == c);
    assert(params::shouted(before).push('_') =~= params::shouted(before) + seq!['_']);
}

// ---------------------------------------------------------------------------
// Wordings
// ---------------------------------------------------------------------------
/// Each pair of braces in a wording is filled with the argument of its turn, and what
/// stands around them stays.
pub proof fn a_wording_is_filled_in_order(
    before: Seq<char>,
    behind: Seq<char>,
    arg: Seq<char>,
    args: Seq<Seq<char>>,
)
    requires
        forall|i: int| 0 <= i < before.len() ==> #[trigger] before[i] != '{',
    ensures
        i18n::filled(before + seq!['{', '}'] + behind, seq![arg] + args) == before + arg
            + i18n::filled(behind, args),
        i18n::filled(before, args) == before,
        i18n::filled(behind, Seq::empty()) == behind,
{
    let s = before + seq!['{', '}'] + behind;
    let n = before.len() as int;
    assert(s[n] == '{' && s[n + 1] == '}');
    assert forall|j: int| 0 <= j < n implies #[trigger] s[j] != '{' by {
        assert(s[j] == before[j]);
    }
    lemma_pair_is(s, '{', '}', 0, n);
    lemma_no_pair(before, '{', '}', 0);
    assert(s.take(n) =~= before);
    assert(s.skip(n + 2) =~= behind);
    assert((seq![arg] + args).skip(1) =~= args);
    assert((seq![arg] + args)[0] == arg);
}

proof fn lemma_replaced_from(s: Seq<char>, p: Seq<char>, with: Seq<char>, i: int, n: int)
    requires
        0 <= i <= n <= s.len(),
        p.len() > 0,
        forall|j: int| i <= j < n ==> #[trigger] s[j] != p[0],
    ensures
        text::replaced_from(s, p, with, i) == s.subrange(i, n) + text::replaced_from(
            s,
            p,
            with,
            n,
        ),
    decreases n - i,
{
    if i < n {
        lemma_replaced_from(s, p, with, i + 1, n);
        assert(s[i] != p[0]);
        let t = s.skip(i);
        if text::begins(t, p) {
            assert(t.take(p.len() as int)[0] == p[0]);
            assert(t[0] == s[i]);
        }
        assert(s.subrange(i, n) =~= seq![s[i]] + s.subrange(i + 1, n));
        let rest = text::replaced_from(s, p, with, n);
        assert(seq![s[i]] + (s.subrange(i + 1, n) + rest) =~= s.subrange(i, n) + rest);
    } else {
        let rest = text::replaced_from(s, p, with, n);
        assert(s.subrange(i, n) + rest =~= rest);
    }
}

proof fn lemma_replaced_behind(s: Seq<char>, p: Seq<char>, with: Seq<char>, i: int, k: int)
    requires
        0 <= i <= s.len(),
        0 <= k,
    ensures
        text::replaced_from(s, p, with, i + k) == text::replaced_from(s.skip(i), p, with, k),
    decreases s.len() - i - k,
{
    let t = s.skip(i);
    if i + k < s.len() {
        assert(t.skip(k) =~= s.skip(i + k));
        assert(t[k] == s[i + k]);
        if p.len() > 0 && i + k + p.len() <= s.len() {
            lemma_replaced_behind(s, p, with, i, k + p.len());
        }
        lemma_replaced_behind(s, p, with, i, k + 1);
    }
}

/// Every occurrence of a name in a wording is replaced, and what stands around it stays.
pub proof fn every_occurrence_is_replaced(
    before: Seq<char>,
    p: Seq<char>,
    behind: Seq<char>,
    with: Seq<char>,
)
    requires
        p.len() > 0,
        forall|i: int| 0 <= i < before.len() ==> #[trigger] before[i] != p[0],
    ensures
        text::replaced(before, p, with) == before,
        text::replaced(before + p + behind, p, with) == before + with + text::replaced(
            behind,
            p,
            with,
        ),
{
    let n = before.len() as int;
    lemma_replaced_from(before, p, with, 0, n);
    assert(before.subrange(0, n) + Seq::<char>::empty() =~= before);
    let s = before + p + behind;
    assert forall|j: int| 0 <= j < n implies #[trigger] s[j] != p[0] by {
        assert(s[j] == before[j]);
    }
    lemma_replaced_from(s, p, with, 0, n);
    assert(s.subrange(0, n) =~= before);
    assert(s.skip(n).take(p.len() as int) =~= p);
    assert(text::begins(s.skip(n), p));
    lemma_replaced_behind(s, p, with, n + p.len(), 0);
    assert(s.skip(n + p.len()) =~= behind);
    let rest = text::replaced(behind, p, with);
    assert(before + (with + rest) =~= before + with + rest);
}

} // verus!
