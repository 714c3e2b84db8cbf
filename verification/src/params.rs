//! The parameters a request declares, and the names they can have.
//!
//! A request declares a parameter with a `variable: NAME=value` row of its
//! `[Options]` section. The value is a default: used where nobody else binds
//! the name.
use vstd::prelude::*;

use crate::entry::{HurlEntry, KvRow, RowView};
use crate::rows;
use crate::text;
use crate::text_laws;

verus! {

// ---------------------------------------------------------------------------
// Declared parameters
// ---------------------------------------------------------------------------
/// The parameter that one `[Options]` row declares: its name and its default.
/// The option's name is read without regard to case. A row that is disabled,
/// has no `=`, or names nothing that could be a variable declares none.
pub open spec fn declared_by(enabled: bool, key: Seq<char>, value: Seq<char>) -> Option<
    (Seq<char>, Seq<char>),
> {
    let n = text::find(value, '=');
    let name = text::trimmed(value.take(n));
    if enabled && text::lowered(text::trimmed(key)) == text::lowered("variable"@) && n
        < value.len() && rows::names_variable(name) {
        Some((name, text::trimmed(value.skip(n + 1))))
    } else {
        None
    }
}

/// The parameters that rows declare, in the order written.
pub open spec fn declared_in(options: Seq<RowView>) -> Seq<(Seq<char>, Seq<char>)>
    decreases options.len(),
{
    if options.len() == 0 {
        Seq::empty()
    } else {
        let row = options.last();
        let before = declared_in(options.drop_last());
        match declared_by(row.enabled, row.key, row.value) {
            Some(p) => before.push(p),
            None => before,
        }
    }
}

/// Whether a name is among declared parameters.
pub open spec fn declares(declared: Seq<(Seq<char>, Seq<char>)>, name: Seq<char>) -> bool {
    exists|i: int| 0 <= i < declared.len() && (#[trigger] declared[i]).0 == name
}

impl HurlEntry {
    /// The parameter one `[Options]` row declares, if it declares one.
    pub fn variable_default(enabled: bool, key: &str, value: &str) -> (r: Option<(String, String)>)
        ensures
            r.deep_view() == declared_by(enabled, key@, value@),
    {
        let option = text::trim(key);
        if !enabled || !text::same_ignoring_case(option.as_str(), "variable") {
            return None;
        }
        let cs = text::chars_of(value);
        let n: usize = text::find_char(cs.as_slice(), '=', 0);
        if n == cs.len() {
            return None;
        }
        let name = text::string_of(text::trim_chars(&cs[0..n]));
        let default = text::string_of(text::trim_chars(&cs[n + 1..cs.len()]));
        proof {
            assert(cs@.subrange(0, n as int) == value@.take(n as int));
            assert(cs@.subrange(n + 1, cs@.len() as int) == value@.skip(n + 1));
        }
        if rows::is_variable_name(name.as_str()) {
            Some((name, default))
        } else {
            None
        }
    }

    /// The request's declared parameters, in the order written: each with its
    /// default.
    pub fn variable_defaults(&self) -> (r: Vec<(String, String)>)
        ensures
            r.deep_view() == declared_in(self.options.deep_view()),
    {
        let ghost all = self.options.deep_view();
        let mut out: Vec<(String, String)> = Vec::new();
        for i in 0..self.options.len()
            invariant
                all == self.options.deep_view(),
                out.deep_view() == declared_in(all.take(i as int)),
        {
            let ghost done = out.deep_view();
            let row: &KvRow = &self.options[i];
            assert(all.take(i + 1).drop_last() == all.take(i as int));
            assert(all.take(i + 1).last() == row.deep_view());
            if let Some(p) = Self::variable_default(
                row.enabled,
                row.key.as_str(),
                row.value.as_str(),
            ) {
                out.push(p);
                assert(out.deep_view() == done.push(p.deep_view()));
            }
        }
        assert(all.take(all.len() as int) == all);
        out
    }

    /// Whether this request declares a parameter named `name`. Case counts, as
    /// it does in `{{NAME}}`.
    pub fn declares_variable(&self, name: &str) -> (r: bool)
        ensures
            r == declares(declared_in(self.options.deep_view()), name@),
    {
        let all = self.variable_defaults();
        named(all.as_slice(), name) < all.len()
    }
}

// ---------------------------------------------------------------------------
// Choosing a name
// ---------------------------------------------------------------------------
/// Why a name can't be used to extract a value.
#[derive(Debug, Clone, PartialEq, Eq)]
pub enum ParamNameError {
    /// Not a usable `{{name}}` at all.
    Invalid,
    /// Already declared by this request, with this other default.
    Conflict(String),
}

/// What a [`ParamNameError`] holds.
pub enum ParamNameTrouble {
    Invalid,
    Conflict(Seq<char>),
}

impl DeepView for ParamNameError {
    type V = ParamNameTrouble;

    open spec fn deep_view(&self) -> ParamNameTrouble {
        match self {
            ParamNameError::Invalid => ParamNameTrouble::Invalid,
            ParamNameError::Conflict(s) => ParamNameTrouble::Conflict(s@),
        }
    }
}

/// Where the first parameter named `name` stands; the length where there is
/// none.
pub open spec fn first_named(declared: Seq<(Seq<char>, Seq<char>)>, name: Seq<char>) -> int
    decreases declared.len(),
{
    if declared.len() == 0 || declared.first().0 == name {
        0
    } else {
        1 + first_named(declared.drop_first(), name)
    }
}

/// Where the first parameter with the default `value` stands; the length where
/// there is none.
pub open spec fn first_valued(declared: Seq<(Seq<char>, Seq<char>)>, value: Seq<char>) -> int
    decreases declared.len(),
{
    if declared.len() == 0 || declared.first().1 == value {
        0
    } else {
        1 + first_valued(declared.drop_first(), value)
    }
}

/// Why `name` can't be used to extract `value`. To use a name that is declared
/// already, with this value, is no error: two fields that carry the same file
/// should read the same parameter.
pub open spec fn name_trouble(
    name: Seq<char>,
    value: Seq<char>,
    declared: Seq<(Seq<char>, Seq<char>)>,
) -> Option<ParamNameTrouble> {
    let n = text::trimmed(name);
    let i = first_named(declared, n);
    if !rows::names_variable(n) {
        Some(ParamNameTrouble::Invalid)
    } else if i < declared.len() && declared[i].1 != text::trimmed(value) {
        Some(ParamNameTrouble::Conflict(declared[i].1))
    } else {
        None
    }
}

/// Where the first pair named `name` stands.
fn named(declared: &[(String, String)], name: &str) -> (r: usize)
    ensures
        r == first_named(declared.deep_view(), name@),
        r <= declared.len(),
        (r < declared.len()) == declares(declared.deep_view(), name@),
{
    let ghost all = declared.deep_view();
    let mut i: usize = 0;
    assert(all.skip(0) == all);
    while i < declared.len() && !text::same(declared[i].0.as_str(), name)
        invariant
            all == declared.deep_view(),
            i <= declared.len(),
            first_named(all, name@) == i + first_named(all.skip(i as int), name@),
            forall|j: int| 0 <= j < i ==> (#[trigger] all[j]).0 != name@,
        decreases declared.len() - i,
    {
        assert(all[i as int].0 == declared@[i as int].0@);
        assert(all.skip(i as int).drop_first() == all.skip(i + 1));
        i += 1;
    }
    if i < declared.len() {
        assert(all[i as int].0 == name@);
    }
    i
}

/// Where the first pair with the default `value` stands.
fn valued(declared: &[(String, String)], value: &str) -> (r: usize)
    ensures
        r == first_valued(declared.deep_view(), value@),
        r <= declared.len(),
{
    let ghost all = declared.deep_view();
    let mut i: usize = 0;
    assert(all.skip(0) == all);
    while i < declared.len() && !text::same(declared[i].1.as_str(), value)
        invariant
            all == declared.deep_view(),
            i <= declared.len(),
            first_valued(all, value@) == i + first_valued(all.skip(i as int), value@),
        decreases declared.len() - i,
    {
        assert(all[i as int].1 == declared@[i as int].1@);
        assert(all.skip(i as int).drop_first() == all.skip(i + 1));
        i += 1;
    }
    if i < declared.len() {
        assert(all[i as int].1 == value@);
    }
    i
}

/// Whether `name` can be used to extract `value`, or why not.
pub fn check_parameter_name(
    name: &str,
    value: &str,
    declared: &[(String, String)],
) -> (r: Option<ParamNameError>)
    ensures
        r.deep_view() == name_trouble(name@, value@, declared.deep_view()),
{
    let name = text::trim(name);
    if !rows::is_variable_name(name.as_str()) {
        return Some(ParamNameError::Invalid);
    }
    let i: usize = named(declared, name.as_str());
    if i < declared.len() {
        let ghost all = declared.deep_view();
        assert(all[i as int].1 == declared@[i as int].1@);
        let value = text::trim(value);
        if !text::same(declared[i].1.as_str(), value.as_str()) {
            return Some(ParamNameError::Conflict(declared[i].1.clone()));
        }
    }
    None
}

// ---------------------------------------------------------------------------
// Suggesting a name
// ---------------------------------------------------------------------------
/// What `char::to_uppercase` makes of a character outside ASCII.
pub uninterp spec fn unicode_upper(c: char) -> Seq<char>;

/// `c` in upper case.
pub open spec fn uppercased(c: char) -> Seq<char> {
    if (c as int) >= 128 {
        unicode_upper(c)
    } else if 'a' <= c <= 'z' {
        seq![(c as int - 32) as char]
    } else {
        seq![c]
    }
}

/// `char::to_uppercase`. An ASCII letter in lower case becomes the one in upper
/// case, and any other ASCII character stays as it is.
#[verifier::external_body]
fn to_upper(c: char) -> (r: String)
    ensures
        (c as int) >= 128 ==> r@ == unicode_upper(c),
        (c as int) < 128 ==> r@ == uppercased(c),
{
    c.to_uppercase().to_string()
}

/// The last part of a path, between slashes of either kind; a text without
/// slashes as it is.
pub open spec fn last_segment(s: Seq<char>) -> Seq<char>
    decreases s.len(),
{
    if s.len() == 0 || s.last() == '/' || s.last() == '\\' {
        Seq::empty()
    } else {
        last_segment(s.drop_last()).push(s.last())
    }
}

/// What of a value a name is made from: of a path the file's name up to its
/// first dot, of anything else the whole.
pub open spec fn name_core(s: Seq<char>) -> Seq<char> {
    if s.contains('/') || s.contains('\\') {
        let last = last_segment(s);
        last.take(text::find(last, '.'))
    } else {
        s
    }
}

/// `s` in upper case, with every run of other characters than letters and
/// digits folded to one `_`.
pub open spec fn shouted(s: Seq<char>) -> Seq<char>
    decreases s.len(),
{
    if s.len() == 0 {
        Seq::empty()
    } else {
        let before = shouted(s.drop_last());
        if rows::is_alphanumeric(s.last()) {
            before + uppercased(s.last())
        } else if before.len() > 0 && before.last() == '_' {
            before
        } else {
            before.push('_')
        }
    }
}

/// At most the first `n` characters of `s`.
pub open spec fn at_most(s: Seq<char>, n: int) -> Seq<char> {
    if s.len() <= n {
        s
    } else {
        s.take(n)
    }
}

/// The name that a value suggests, before it is told apart from others.
pub open spec fn suggested_base(value: Seq<char>) -> Seq<char> {
    let is_bar = |c: char| c == '_';
    let base = text::without_trailing(
        text::without_leading(shouted(name_core(value)), is_bar),
        is_bar,
    );
    let usable = if base.len() == 0 || text::is_digit(base.first()) {
        "VALUE"@
    } else {
        base
    };
    text::without_trailing(at_most(usable, 24), is_bar)
}

/// A name told apart from others by a number.
pub open spec fn numbered(base: Seq<char>, n: nat) -> Seq<char> {
    base + seq!['_'] + text::decimal(n)
}

fn is_bar(c: char) -> (r: bool)
    ensures
        r == (c == '_'),
{
    c == '_'
}

fn name_core_of(cs: &[char]) -> (r: &[char])
    ensures
        r@ == name_core(cs@),
{
    let slash: usize = text::find_char(cs, '/', 0);
    let back: usize = text::find_char(cs, '\\', 0);
    if slash < cs.len() {
        assert(cs@[slash as int] == '/');
    }
    if back < cs.len() {
        assert(cs@[back as int] == '\\');
    }
    if slash == cs.len() && back == cs.len() {
        return cs;
    }
    let mut from: usize = cs.len();
    assert(cs@.take(from as int) == cs@);
    assert(cs@.skip(from as int) == Seq::<char>::empty());
    while from > 0 && cs[from - 1] != '/' && cs[from - 1] != '\\'
        invariant
            from <= cs.len(),
            last_segment(cs@) == last_segment(cs@.take(from as int)) + cs@.skip(from as int),
        decreases from,
    {
        assert(cs@.take(from as int).drop_last() == cs@.take(from - 1));
        assert(cs@.skip(from - 1) == seq![cs@[from - 1]] + cs@.skip(from as int));
        from -= 1;
    }
    assert(last_segment(cs@) == cs@.skip(from as int));
    let last: &[char] = &cs[from..cs.len()];
    let dot: usize = text::find_char(last, '.', 0);
    assert(last@ == last_segment(cs@));
    let r: &[char] = &last[0..dot];
    assert(r@ == last@.take(dot as int));
    r
}

fn shout(cs: &[char]) -> (r: Vec<char>)
    ensures
        r@ == shouted(cs@),
{
    let mut out: Vec<char> = Vec::new();
    for i in 0..cs.len()
        invariant
            out@ == shouted(cs@.take(i as int)),
    {
        assert(cs@.take(i + 1).drop_last() == cs@.take(i as int));
        let c: char = cs[i];
        if c.is_alphanumeric() {
            let mut upper = text::chars_of(to_upper(c).as_str());
            out.append(&mut upper);
        } else if !(out.len() > 0 && out[out.len() - 1] == '_') {
            out.push('_');
        }
    }
    assert(cs@.take(cs.len() as int) == cs@);
    out
}

/// The name that `value` suggests, before it is told apart from others.
fn base_name(value: &str) -> (r: String)
    ensures
        r@ == suggested_base(value@),
{
    let cs = text::chars_of(value);
    let loud = shout(name_core_of(cs.as_slice()));
    let from: &[char] = text::drop_leading(
        loud.as_slice(),
        is_bar,
        Ghost(|c: char| c == '_'),
    );
    let base: &[char] = text::drop_trailing(from, is_bar, Ghost(|c: char| c == '_'));
    let fallback = text::chars_of("VALUE");
    let usable: &[char] = if base.len() == 0 || ('0' <= base[0] && base[0] <= '9') {
        fallback.as_slice()
    } else {
        base
    };
    let short: &[char] = if usable.len() <= 24 {
        usable
    } else {
        &usable[0..24]
    };
    assert(short@ == at_most(usable@, 24));
    text::string_of(text::drop_trailing(short, is_bar, Ghost(|c: char| c == '_')))
}

/// Of the names `base_2`, `base_3`, … no more are taken than names are.
proof fn lemma_numbered_taken(
    declared: Seq<(Seq<char>, Seq<char>)>,
    base: Seq<char>,
    m: nat,
)
    requires
        forall|k: nat| k < m ==> declares(declared, #[trigger] numbered(base, k + 2)),
    ensures
        m <= declared.len(),
{
    let names = declared.map_values(|p: (Seq<char>, Seq<char>)| p.0);
    let tried = Seq::new(m, |k: int| numbered(base, (k + 2) as nat));
    assert forall|i: int, j: int| 0 <= i < m && 0 <= j < m && i != j implies tried[i]
        != tried[j] by {
        if tried[i] == tried[j] {
            let a = text::decimal((i + 2) as nat);
            let b = text::decimal((j + 2) as nat);
            assert(tried[i].skip(base.len() as int + 1) == a);
            assert(tried[j].skip(base.len() as int + 1) == b);
            text::lemma_decimal_injective((i + 2) as nat, (j + 2) as nat);
        }
    }
    assert(tried.no_duplicates());
    tried.unique_seq_to_set();
    names.lemma_cardinality_of_set();
    assert forall|x: Seq<char>| tried.to_set().contains(x) implies names.to_set().contains(x) by {
        let i = choose|i: int| 0 <= i < tried.len() && tried[i] == x;
        assert(declares(declared, numbered(base, (i as nat) + 2)));
        let j = choose|j: int| 0 <= j < declared.len() && (#[trigger] declared[j]).0 == x;
        assert(names[j] == x);
    }
    vstd::set_lib::lemma_len_subset(tried.to_set(), names.to_set());
}

/// A parameter name to offer for `value`, given what the request already
/// declares.
///
/// A declaration that holds this very value is the answer: extracting the same
/// path from a second field should join the existing parameter. Otherwise the
/// name comes from the value, upper-cased, and with the first number behind it
/// that tells it apart where it is taken.
pub fn suggest_parameter_name(value: &str, declared: &[(String, String)]) -> (r: String)
    ensures
        ({
            let v = text::trimmed(value@);
            let all = declared.deep_view();
            let i = first_valued(all, v);
            let base = suggested_base(v);
            if i < all.len() {
                r@ == all[i].0
            } else if !declares(all, base) {
                r@ == base
            } else {
                exists|n: nat|
                    n >= 2 && r@ == #[trigger] numbered(base, n) && !declares(all, numbered(base, n))
                        && forall|m: nat| 2 <= m < n ==> declares(all, #[trigger] numbered(base, m))
            }
        }),
{
    let whole = text::trim(value);
    let ghost all = declared.deep_view();
    let i: usize = valued(declared, whole.as_str());
    if i < declared.len() {
        assert(all[i as int].0 == declared@[i as int].0@);
        return declared[i].0.clone();
    }
    let base = base_name(whole.as_str());
    if named(declared, base.as_str()) == declared.len() {
        return base;
    }
    let mut k: usize = 0;
    loop
        invariant
            all == declared.deep_view(),
            k <= declared.len(),
            base@ == suggested_base(text::trimmed(value@)),
            first_valued(all, text::trimmed(value@)) >= all.len(),
            declares(all, base@),
            forall|m: nat| 2 <= m < k + 2 ==> declares(all, #[trigger] numbered(base@, m)),
        decreases declared.len() - k,
    {
        let n: u128 = k as u128 + 2;
        let mut candidate = base.clone();
        candidate.push('_');
        candidate.push_str(text::to_decimal(n).as_str());
        assert(candidate@ == numbered(base@, n as nat));
        if named(declared, candidate.as_str()) == declared.len() {
            return candidate;
        }
        proof {
            assert forall|j: nat| j < k + 1 implies declares(
                all,
                #[trigger] numbered(base@, j + 2),
            ) by {}
            lemma_numbered_taken(all, base@, (k + 1) as nat);
        }
        k += 1;
    }
}

// ---------------------------------------------------------------------------
// Laws
// ---------------------------------------------------------------------------
/// Whether every character of `s` can stand in a name.
spec fn all_name(s: Seq<char>) -> bool {
    forall|i: int| 0 <= i < s.len() ==> rows::name_char(#[trigger] s[i])
}

proof fn lemma_shouted(s: Seq<char>)
    requires
        forall|i: int| 0 <= i < s.len() ==> (#[trigger] s[i] as int) < 128,
    ensures
        all_name(shouted(s)),
    decreases s.len(),
{
    if s.len() > 0 {
        let front = s.drop_last();
        assert(forall|i: int| 0 <= i < front.len() ==> front[i] == s[i]);
        lemma_shouted(front);
        let c = s[s.len() - 1];
        assert((c as int) < 128);
        let all = shouted(s);
        let before = shouted(front);
        assert forall|i: int| 0 <= i < all.len() implies rows::name_char(#[trigger] all[i]) by {
            if i < before.len() {
                assert(all[i] == before[i]);
            }
        }
    }
}

proof fn lemma_without_leading(s: Seq<char>, p: spec_fn(char) -> bool)
    requires
        all_name(s),
    ensures
        all_name(text::without_leading(s, p)),
    decreases s.len(),
{
    if s.len() > 0 && p(s.first()) {
        let t = s.drop_first();
        assert(forall|i: int| 0 <= i < t.len() ==> t[i] == s[i + 1]);
        lemma_without_leading(t, p);
    }
}

proof fn lemma_without_trailing(s: Seq<char>, p: spec_fn(char) -> bool)
    requires
        all_name(s),
    ensures
        all_name(text::without_trailing(s, p)),
        s.len() > 0 && !p(s[0]) ==> text::without_trailing(s, p).len() > 0,
    decreases s.len(),
{
    if s.len() > 0 && p(s.last()) {
        let t = s.drop_last();
        assert(forall|i: int| 0 <= i < t.len() ==> t[i] == s[i]);
        lemma_without_trailing(t, p);
    }
}

proof fn lemma_leading_bars(s: Seq<char>, p: spec_fn(char) -> bool)
    ensures
        text::without_leading(s, p).len() > 0 ==> !p(text::without_leading(s, p)[0]),
    decreases s.len(),
{
    if s.len() > 0 && p(s.first()) {
        lemma_leading_bars(s.drop_first(), p);
    }
}

proof fn lemma_first_stays(s: Seq<char>, p: spec_fn(char) -> bool)
    ensures
        text::without_trailing(s, p).len() > 0 ==> text::without_trailing(s, p)[0] == s[0],
    decreases s.len(),
{
    if s.len() > 0 && p(s.last()) {
        lemma_first_stays(s.drop_last(), p);
    }
}

proof fn lemma_core(s: Seq<char>)
    ensures
        forall|i: int|
            0 <= i < name_core(s).len() ==> s.contains(#[trigger] name_core(s)[i]),
{
    let last = last_segment(s);
    lemma_last_segment(s);
    text::lemma_find_from(last, '.', 0);
    assert forall|i: int| 0 <= i < name_core(s).len() implies s.contains(
        #[trigger] name_core(s)[i],
    ) by {
        if s.contains('/') || s.contains('\\') {
            assert(name_core(s)[i] == last[i]);
        }
    }
}

proof fn lemma_last_segment(s: Seq<char>)
    ensures
        forall|i: int| 0 <= i < last_segment(s).len() ==> s.contains(#[trigger] last_segment(s)[i]),
    decreases s.len(),
{
    if s.len() > 0 && s.last() != '/' && s.last() != '\\' {
        let front = s.drop_last();
        lemma_last_segment(front);
        let all = last_segment(s);
        assert forall|i: int| 0 <= i < all.len() implies s.contains(#[trigger] all[i]) by {
            if i < all.len() - 1 {
                assert(front.contains(last_segment(front)[i]));
                let k = choose|k: int| 0 <= k < front.len() && front[k] == all[i];
                assert(s[k] == all[i]);
            } else {
                assert(s[s.len() - 1] == all[i]);
            }
        }
    }
}

proof fn lemma_base(value: Seq<char>)
    requires
        forall|i: int| 0 <= i < value.len() ==> (#[trigger] value[i] as int) < 128,
    ensures
        all_name(suggested_base(value)),
        suggested_base(value).len() > 0,
{
    let p = |c: char| c == '_';
    let core = name_core(value);
    lemma_core(value);
    assert forall|i: int| 0 <= i < core.len() implies (#[trigger] core[i] as int) < 128 by {
        assert(value.contains(core[i]));
    }
    lemma_shouted(core);
    let led = text::without_leading(shouted(core), p);
    lemma_without_leading(shouted(core), p);
    lemma_leading_bars(shouted(core), p);
    let base = text::without_trailing(led, p);
    lemma_without_trailing(led, p);
    lemma_first_stays(led, p);
    reveal_strlit("VALUE");
    let usable = if base.len() == 0 || text::is_digit(base.first()) {
        "VALUE"@
    } else {
        base
    };
    assert(all_name(usable));
    assert(usable.len() > 0 && !p(usable[0]));
    let cut = at_most(usable, 24);
    assert(all_name(cut)) by {
        assert(forall|i: int| 0 <= i < cut.len() ==> cut[i] == usable[i]);
    }
    lemma_without_trailing(cut, p);
}

/// A name that is suggested for an ASCII value can be used for it: it is the
/// name of a variable, and no other parameter has it.
pub proof fn a_suggested_name_can_be_used(
    value: Seq<char>,
    declared: Seq<(Seq<char>, Seq<char>)>,
    name: Seq<char>,
)
    requires
        forall|i: int| 0 <= i < value.len() ==> (#[trigger] value[i] as int) < 128,
        name == suggested_base(text::trimmed(value)) || exists|n: nat|
            name == #[trigger] numbered(suggested_base(text::trimmed(value)), n),
        !declares(declared, name),
    ensures
        name_trouble(name, value, declared) is None,
{
    let v = text::trimmed(value);
    text::lemma_trimmed_start(value);
    text::lemma_trimmed_end(text::trimmed_start(value));
    assert forall|i: int| 0 <= i < v.len() implies (#[trigger] v[i] as int) < 128 by {
        assert(v[i] == text::trimmed_start(value)[i]);
        assert(text::trimmed_start(value)[i] == value[value.len() - text::trimmed_start(
            value,
        ).len() + i]);
    }
    lemma_base(v);
    let base = suggested_base(v);
    assert(all_name(name)) by {
        if name != base {
            let n = choose|n: nat| name == #[trigger] numbered(base, n);
            text::lemma_decimal_value(n);
            assert forall|i: int| 0 <= i < name.len() implies rows::name_char(
                #[trigger] name[i],
            ) by {
                if i < base.len() {
                    assert(name[i] == base[i]);
                } else if i > base.len() {
                    assert(name[i] == text::decimal(n)[i - base.len() - 1]);
                }
            }
        }
    }
    assert(name.len() > 0);
    text_laws::lemma_is_trimmed(name);
    text::lemma_seek_is(name, |c: char| !rows::name_char(c), name.len() as int);
    lemma_not_named(declared, name);
}

proof fn lemma_not_named(declared: Seq<(Seq<char>, Seq<char>)>, name: Seq<char>)
    requires
        !declares(declared, name),
    ensures
        first_named(declared, name) == declared.len(),
    decreases declared.len(),
{
    if declared.len() > 0 {
        assert(declared[0].0 != name);
        let rest = declared.drop_first();
        if declares(rest, name) {
            let i = choose|i: int| 0 <= i < rest.len() && (#[trigger] rest[i]).0 == name;
            assert(declared[i + 1].0 == name);
        }
        lemma_not_named(rest, name);
    }
}

} // verus!
