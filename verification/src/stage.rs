//! Making the files that a form names ready for a run.
//!
//! Hurl reads a file only inside the directory a run is rooted in. The files of
//! a form that lie elsewhere are copied into a directory of their own first,
//! and the form then names the copies. A field that is sent as base64 is turned
//! into a plain text field. Reading and copying files is left to the caller.
use vstd::prelude::*;

use crate::base64_text;
use crate::base64_text::Alphabet;
use crate::entry::{EntryView, FieldView, FormField, FormFieldKind, HurlEntry};
use crate::text;

verus! {

// ---------------------------------------------------------------------------
// Counting fields
// ---------------------------------------------------------------------------
/// How many of some fields are of a sort.
pub open spec fn count(fields: Seq<FieldView>, p: spec_fn(FieldView) -> bool) -> nat
    decreases fields.len(),
{
    if fields.len() == 0 {
        0
    } else {
        count(fields.drop_last(), p) + if p(fields.last()) {
            1nat
        } else {
            0nat
        }
    }
}

/// How many fields of some requests are of a sort.
pub open spec fn count_all(entries: Seq<EntryView>, p: spec_fn(FieldView) -> bool) -> nat
    decreases entries.len(),
{
    if entries.len() == 0 {
        0
    } else {
        count_all(entries.drop_last(), p) + count(entries.last().form_fields, p)
    }
}

proof fn lemma_count_grows(fields: Seq<FieldView>, p: spec_fn(FieldView) -> bool, n: int)
    requires
        0 <= n <= fields.len(),
    ensures
        count(fields.take(n), p) <= count(fields, p),
    decreases fields.len() - n,
{
    if n < fields.len() {
        lemma_count_grows(fields, p, n + 1);
        assert(fields.take(n + 1).drop_last() == fields.take(n));
    } else {
        assert(fields.take(n) == fields);
    }
}

proof fn lemma_count_all_grows(entries: Seq<EntryView>, p: spec_fn(FieldView) -> bool, n: int)
    requires
        0 <= n <= entries.len(),
    ensures
        count_all(entries.take(n), p) <= count_all(entries, p),
    decreases entries.len() - n,
{
    if n < entries.len() {
        lemma_count_all_grows(entries, p, n + 1);
        assert(entries.take(n + 1).drop_last() == entries.take(n));
    } else {
        assert(entries.take(n) == entries);
    }
}

// ---------------------------------------------------------------------------
// Names of copies
// ---------------------------------------------------------------------------
/// Where the last dot of a name stands; below nought where there is none.
pub open spec fn last_dot(s: Seq<char>) -> int
    decreases s.len(),
{
    if s.len() == 0 {
        -1
    } else if s.last() == '.' {
        s.len() - 1
    } else {
        last_dot(s.drop_last())
    }
}

/// A name with a number before its extension, or at its end where it has none.
pub open spec fn spread(base: Seq<char>, n: nat) -> Seq<char> {
    let dot = last_dot(base);
    if dot < 0 {
        base + seq!['_'] + text::decimal(n)
    } else {
        base.take(dot) + seq!['_'] + text::decimal(n) + base.skip(dot)
    }
}

/// Whether `n` is the first number from one on that tells a name apart from
/// those in use.
pub open spec fn is_free_number(base: Seq<char>, used: Seq<Seq<char>>, n: nat) -> bool {
    n >= 1 && !used.contains(spread(base, n)) && forall|m: nat|
        1 <= m < n ==> used.contains(#[trigger] spread(base, m))
}

/// The name under which a file is copied: its own, or the first with a number
/// that is not in use.
pub open spec fn name_for(base: Seq<char>, used: Seq<Seq<char>>) -> Seq<char> {
    if used.contains(base) {
        spread(base, choose|n: nat| is_free_number(base, used, n))
    } else {
        base
    }
}

proof fn lemma_last_dot(s: Seq<char>)
    ensures
        -1 <= last_dot(s) < s.len(),
        last_dot(s) >= 0 ==> s[last_dot(s)] == '.',
        forall|i: int| last_dot(s) < i < s.len() ==> s[i] != '.',
    decreases s.len(),
{
    if s.len() > 0 && s.last() != '.' {
        lemma_last_dot(s.drop_last());
        assert forall|i: int| last_dot(s) < i < s.len() implies s[i] != '.' by {
            if i < s.len() - 1 {
                assert(s.drop_last()[i] == s[i]);
            }
        }
    }
}

proof fn lemma_spread_injective(base: Seq<char>, m: nat, n: nat)
    requires
        spread(base, m) == spread(base, n),
    ensures
        m == n,
{
    lemma_last_dot(base);
    let dot = last_dot(base);
    let a = text::decimal(m);
    let b = text::decimal(n);
    let x = spread(base, m);
    if dot < 0 {
        assert(x.skip(base.len() as int + 1) == a);
        assert(spread(base, n).skip(base.len() as int + 1) == b);
    } else {
        let tail = base.skip(dot);
        assert(x.len() == dot + 1 + a.len() + tail.len());
        assert(spread(base, n).len() == dot + 1 + b.len() + tail.len());
        assert(x.subrange(dot + 1, dot + 1 + a.len()) == a);
        assert(spread(base, n).subrange(dot + 1, dot + 1 + b.len()) == b);
    }
    text::lemma_decimal_injective(m, n);
}

/// No more numbered names are in use than names are.
proof fn lemma_spread_taken(base: Seq<char>, used: Seq<Seq<char>>, n: nat)
    requires
        forall|m: nat| 1 <= m < n + 1 ==> used.contains(#[trigger] spread(base, m)),
    ensures
        n <= used.len(),
{
    let tried = Seq::new(n, |k: int| spread(base, (k + 1) as nat));
    assert forall|i: int, j: int| 0 <= i < n && 0 <= j < n && i != j implies tried[i]
        != tried[j] by {
        if tried[i] == tried[j] {
            lemma_spread_injective(base, (i + 1) as nat, (j + 1) as nat);
        }
    }
    assert(tried.no_duplicates());
    tried.unique_seq_to_set();
    used.lemma_cardinality_of_set();
    assert forall|x: Seq<char>| tried.to_set().contains(x) implies used.to_set().contains(x) by {
        let i = choose|i: int| 0 <= i < tried.len() && tried[i] == x;
        assert(used.contains(spread(base, (i + 1) as nat)));
    }
    vstd::set_lib::lemma_len_subset(tried.to_set(), used.to_set());
}

/// There is one first free number and no other.
proof fn lemma_free_number(base: Seq<char>, used: Seq<Seq<char>>, n: nat)
    requires
        is_free_number(base, used, n),
    ensures
        (choose|n: nat| is_free_number(base, used, n)) == n,
{
    let k = choose|n: nat| is_free_number(base, used, n);
    assert(is_free_number(base, used, k));
    if k < n {
        assert(used.contains(spread(base, k)));
    } else if n < k {
        assert(used.contains(spread(base, n)));
    }
}

/// Some numbered name is not in use.
pub proof fn lemma_some_number_is_free(base: Seq<char>, used: Seq<Seq<char>>)
    ensures
        exists|n: nat| is_free_number(base, used, n),
{
    if forall|n: nat| !is_free_number(base, used, n) {
        lemma_none_free(base, used, used.len() + 1);
        lemma_spread_taken(base, used, used.len() + 1);
    }
}

proof fn lemma_none_free(base: Seq<char>, used: Seq<Seq<char>>, n: nat)
    requires
        forall|n: nat| !is_free_number(base, used, n),
    ensures
        forall|m: nat| 1 <= m < n + 1 ==> used.contains(#[trigger] spread(base, m)),
    decreases n,
{
    if n > 0 {
        lemma_none_free(base, used, (n - 1) as nat);
        assert(!is_free_number(base, used, n));
    }
}

/// The name under which a file is copied is never one in use.
pub proof fn a_copy_never_takes_a_name_in_use(base: Seq<char>, used: Seq<Seq<char>>)
    ensures
        !used.contains(name_for(base, used)),
{
    if used.contains(base) {
        lemma_some_number_is_free(base, used);
        let n = choose|n: nat| is_free_number(base, used, n);
        assert(is_free_number(base, used, n));
    }
}

// ---------------------------------------------------------------------------
// Which files are copied where
// ---------------------------------------------------------------------------
/// A file that a form names.
#[derive(Debug)]
pub struct FileUse {
    /// Where the file is.
    pub source: String,
    /// Its name, where it has one.
    pub base: Option<String>,
    /// Whether a run may read it where it is.
    pub allowed: bool,
}

/// What a [`FileUse`] holds.
#[verifier::ext_equal]
pub struct UseView {
    pub source: Seq<char>,
    pub base: Option<Seq<char>>,
    pub allowed: bool,
}

impl DeepView for FileUse {
    type V = UseView;

    open spec fn deep_view(&self) -> UseView {
        UseView { source: self.source@, base: self.base.deep_view(), allowed: self.allowed }
    }
}

/// Under which name a file is to be found, and whether it has to be copied there
/// or was for an earlier field.
#[derive(Debug)]
pub struct StagedFile {
    pub source: String,
    pub name: String,
    pub copy: bool,
}

/// What a [`StagedFile`] holds.
#[verifier::ext_equal]
pub struct StagedView {
    pub source: Seq<char>,
    pub name: Seq<char>,
    pub copy: bool,
}

impl DeepView for StagedFile {
    type V = StagedView;

    open spec fn deep_view(&self) -> StagedView {
        StagedView { source: self.source@, name: self.name@, copy: self.copy }
    }
}

/// The parts of a path that count: not the empty ones, which repeated slashes make,
/// and of those that stand for the directory itself only the first of all.
pub open spec fn kept_parts(parts: Seq<Seq<char>>) -> Seq<Seq<char>>
    decreases parts.len(),
{
    if parts.len() == 0 {
        Seq::empty()
    } else if counts(parts.last(), parts.len() == 1) {
        kept_parts(parts.drop_last()).push(parts.last())
    } else {
        kept_parts(parts.drop_last())
    }
}

/// Whether a part of a path counts.
pub open spec fn counts(part: Seq<char>, first: bool) -> bool {
    part.len() > 0 && (first || part != "."@)
}

/// Which file a path stands for: whether it begins at the root, and its parts. Two
/// spellings with the same parts are one path, as they are to `std::path::Path`.
pub open spec fn place(path: Seq<char>) -> (bool, Seq<Seq<char>>) {
    (path.len() > 0 && path[0] == '/', kept_parts(text::split_on(path, '/')))
}

/// The names in use.
pub open spec fn names(plan: Seq<StagedView>) -> Seq<Seq<char>> {
    plan.map_values(|s: StagedView| s.name)
}

/// The first place at which a file is staged; the end where it is not.
pub open spec fn staged_at(plan: Seq<StagedView>, source: Seq<char>, i: int) -> int
    decreases plan.len() - i,
{
    if i < 0 || i >= plan.len() || place(plan[i].source) == place(source) {
        i
    } else {
        staged_at(plan, source, i + 1)
    }
}

/// How the next file is staged.
pub open spec fn staged_next(plan: Seq<StagedView>, f: UseView) -> StagedView {
    let i = staged_at(plan, f.source, 0);
    if i < plan.len() {
        StagedView { source: f.source, name: plan[i].name, copy: false }
    } else {
        StagedView {
            source: f.source,
            name: name_for(
                match f.base {
                    Some(base) => base,
                    None => "file"@,
                },
                names(plan),
            ),
            copy: true,
        }
    }
}

/// How the files of a form are staged, one after the other.
pub open spec fn plan_for(files: Seq<UseView>) -> Seq<StagedView>
    decreases files.len(),
{
    if files.len() == 0 {
        Seq::empty()
    } else {
        let plan = plan_for(files.drop_last());
        plan.push(staged_next(plan, files.last()))
    }
}

/// Whether a run may read every file where it is.
pub open spec fn all_allowed(files: Seq<UseView>) -> bool {
    forall|i: int| 0 <= i < files.len() ==> (#[trigger] files[i]).allowed
}

proof fn lemma_staged_at(plan: Seq<StagedView>, source: Seq<char>, i: int)
    requires
        0 <= i <= plan.len(),
    ensures
        i <= staged_at(plan, source, i) <= plan.len(),
        staged_at(plan, source, i) < plan.len() ==> place(
            plan[staged_at(plan, source, i)].source,
        ) == place(source),
        forall|j: int|
            i <= j < staged_at(plan, source, i) ==> place((#[trigger] plan[j]).source) != place(
                source,
            ),
    decreases plan.len() - i,
{
    if i < plan.len() && place(plan[i].source) != place(source) {
        lemma_staged_at(plan, source, i + 1);
    }
}

/// Two uses of one file are staged under one name, however its path is spelled, and
/// two different files never under the same. Of the uses of one file, the first has
/// it copied and no other. Every use keeps its place.
pub proof fn each_file_is_staged_once_under_a_name_of_its_own(files: Seq<UseView>)
    ensures
        plan_for(files).len() == files.len(),
        forall|i: int|
            0 <= i < files.len() ==> (#[trigger] plan_for(files)[i]).source == files[i].source,
        forall|i: int, j: int|
            0 <= i < files.len() && 0 <= j < files.len() ==> ((#[trigger] plan_for(files)[i]).name
                == (#[trigger] plan_for(files)[j]).name <==> place(files[i].source) == place(
                files[j].source,
            )),
        forall|i: int|
            0 <= i < files.len() ==> ((#[trigger] plan_for(files)[i]).copy <==> forall|j: int|
                0 <= j < i ==> place((#[trigger] files[j]).source) != place(files[i].source)),
    decreases files.len(),
{
    if files.len() > 0 {
        let front = files.drop_last();
        let plan = plan_for(front);
        let all = plan_for(files);
        let n = files.len() - 1;
        let f = files[n];
        each_file_is_staged_once_under_a_name_of_its_own(front);
        lemma_staged_at(plan, f.source, 0);
        let k = staged_at(plan, f.source, 0);
        assert forall|i: int| 0 <= i < n implies front[i] == files[i] && plan[i]
            == #[trigger] all[i] by {}
        let base = match f.base {
            Some(base) => base,
            None => "file"@,
        };
        a_copy_never_takes_a_name_in_use(base, names(plan));
        assert forall|i: int, j: int| 0 <= i < files.len() && 0 <= j < files.len() implies ((
        #[trigger] all[i]).name == (#[trigger] all[j]).name <==> place(files[i].source) == place(
            files[j].source,
        )) by {
            if i < n && j < n {
                assert(all[i] == plan[i] && all[j] == plan[j]);
                assert(front[i] == files[i] && front[j] == files[j]);
            } else if i < n {
                lemma_last_use(files, plan, i, k);
            } else if j < n {
                lemma_last_use(files, plan, j, k);
            }
        }
        assert forall|i: int| 0 <= i < files.len() implies ((#[trigger] all[i]).copy <==> forall|
            j: int,
        |
            0 <= j < i ==> place((#[trigger] files[j]).source) != place(files[i].source)) by {
            if i < n {
                assert(all[i] == plan[i]);
                assert(forall|j: int| 0 <= j < n ==> front[j] == #[trigger] files[j]);
            } else {
                assert(forall|j: int|
                    0 <= j < n ==> plan[j].source == (#[trigger] files[j]).source);
            }
        }
    }
}

proof fn lemma_last_use(files: Seq<UseView>, plan: Seq<StagedView>, i: int, k: int)
    requires
        files.len() > 0,
        0 <= i < files.len() - 1,
        plan == plan_for(files.drop_last()),
        plan.len() == files.len() - 1,
        forall|i: int|
            0 <= i < files.len() - 1 ==> (#[trigger] plan[i]).source == files.drop_last()[i].source,
        forall|i: int, j: int|
            0 <= i < files.len() - 1 && 0 <= j < files.len() - 1 ==> ((#[trigger] plan[i]).name == (
            #[trigger] plan[j]).name <==> place(files.drop_last()[i].source) == place(
                files.drop_last()[j].source,
            )),
        k == staged_at(plan, files.last().source, 0),
        !names(plan).contains(
            name_for(
                match files.last().base {
                    Some(base) => base,
                    None => "file"@,
                },
                names(plan),
            ),
        ),
    ensures
        plan_for(files)[i].name == plan_for(files).last().name <==> place(files[i].source) == place(
            files.last().source,
        ),
{
    let all = plan_for(files);
    lemma_staged_at(plan, files.last().source, 0);
    assert(all[i] == plan[i]);
    assert(files.drop_last()[i] == files[i]);
    if k < plan.len() {
        assert(files.drop_last()[k] == files[k]);
        assert(place(plan[k].source) == place(files.last().source));
    } else {
        assert(place(plan[i].source) != place(files.last().source));
        assert(names(plan)[i] == plan[i].name);
    }
}

// ---------------------------------------------------------------------------
// Planning
// ---------------------------------------------------------------------------
fn find_last_dot(cs: &[char]) -> (r: Option<usize>)
    ensures
        match r {
            Some(i) => i == last_dot(cs@) && i < cs.len(),
            None => last_dot(cs@) < 0,
        },
{
    let mut i: usize = cs.len();
    assert(cs@.take(cs.len() as int) == cs@);
    while i > 0
        invariant
            i <= cs.len(),
            last_dot(cs@) == last_dot(cs@.take(i as int)),
        decreases i,
    {
        assert(cs@.take(i as int).drop_last() == cs@.take(i - 1));
        if cs[i - 1] == '.' {
            return Some(i - 1);
        }
        i -= 1;
    }
    None
}

/// A name with a number before its extension, or at its end where it has none.
fn spread_name(base: &str, n: u128) -> (r: String)
    ensures
        r@ == spread(base@, n as nat),
{
    let cs = text::chars_of(base);
    let dot: usize = match find_last_dot(cs.as_slice()) {
        Some(i) => i,
        None => cs.len(),
    };
    let mut out = text::string_of(&cs[0..dot]);
    out.push('_');
    out.push_str(text::to_decimal(n).as_str());
    text::push_chars(&mut out, &cs[dot..cs.len()]);
    proof {
        lemma_last_dot(base@);
        assert(cs@.subrange(0, dot as int) == base@.take(dot as int));
        assert(cs@.subrange(dot as int, cs@.len() as int) == base@.skip(dot as int));
        if last_dot(base@) < 0 {
            assert(base@.take(dot as int) == base@);
        }
        assert(out@ == spread(base@, n as nat));
    }
    out
}

/// Whether a name is in use.
fn is_used(plan: &[StagedFile], name: &str) -> (r: bool)
    ensures
        r == names(plan.deep_view()).contains(name@),
{
    let ghost used = names(plan.deep_view());
    for i in 0..plan.len()
        invariant
            used == names(plan.deep_view()),
            forall|j: int| 0 <= j < i ==> #[trigger] used[j] != name@,
    {
        assert(used[i as int] == plan@[i as int].name@);
        if text::same(plan[i].name.as_str(), name) {
            return true;
        }
    }
    false
}

/// The name under which a file is copied: its own the first time, and otherwise
/// the first with a number that is not in use. A numbered name may itself be
/// the name of another file, so every one is tried.
fn unique_name(base: &str, plan: &[StagedFile]) -> (r: String)
    ensures
        r@ == name_for(base@, names(plan.deep_view())),
{
    let ghost used = names(plan.deep_view());
    if !is_used(plan, base) {
        return base.to_owned();
    }
    let mut k: usize = 0;
    loop
        invariant
            used == names(plan.deep_view()),
            used.contains(base@),
            k <= plan.len(),
            forall|m: nat| 1 <= m < k + 1 ==> used.contains(#[trigger] spread(base@, m)),
        decreases plan.len() - k,
    {
        let candidate = spread_name(base, k as u128 + 1);
        if !is_used(plan, candidate.as_str()) {
            proof {
                assert(is_free_number(base@, used, (k + 1) as nat));
                lemma_free_number(base@, used, (k + 1) as nat);
            }
            return candidate;
        }
        proof {
            assert forall|m: nat| 1 <= m < k + 2 implies used.contains(
                #[trigger] spread(base@, m),
            ) by {}
            lemma_spread_taken(base@, used, (k + 1) as nat);
        }
        k += 1;
    }
}

/// The parts of a path that count.
fn parts_of(path: &str) -> (r: Vec<String>)
    ensures
        r.deep_view() == kept_parts(text::split_on(path@, '/')),
{
    let parts = text::split(path, '/');
    let ghost all = parts.deep_view();
    let mut out: Vec<String> = Vec::new();
    for i in 0..parts.len()
        invariant
            all == parts.deep_view(),
            out.deep_view() == kept_parts(all.take(i as int)),
    {
        let ghost done = out.deep_view();
        let part = parts[i].as_str();
        assert(all[i as int] == part@);
        assert(all.take(i + 1).drop_last() == all.take(i as int));
        assert(all.take(i + 1).last() == part@);
        proof {
            reveal_strlit("");
            assert(part@.len() == 0 ==> part@ == ""@);
        }
        if !text::same(part, "") && (i == 0 || !text::same(part, ".")) {
            out.push(part.to_owned());
            assert(out.deep_view() == done.push(part@));
        }
    }
    assert(all.take(all.len() as int) == all);
    out
}

/// Whether two paths stand for one file.
fn same_place(a: &str, b: &str) -> (r: bool)
    ensures
        r == (place(a@) == place(b@)),
{
    proof {
        reveal_strlit("/");
    }
    let (x, y) = (text::starts_with(a, "/"), text::starts_with(b, "/"));
    assert(x == place(a@).0) by {
        if a@.len() > 0 {
            assert(a@.take(1)[0] == a@[0]);
            assert(a@[0] == '/' ==> a@.take(1) == "/"@);
        }
    }
    assert(y == place(b@).0) by {
        if b@.len() > 0 {
            assert(b@.take(1)[0] == b@[0]);
            assert(b@[0] == '/' ==> b@.take(1) == "/"@);
        }
    }
    x == y && text::same_lists(parts_of(a).as_slice(), parts_of(b).as_slice())
}

/// The first place at which a file is staged; the end where it is not.
fn find_staged(plan: &[StagedFile], source: &str) -> (r: usize)
    ensures
        r == staged_at(plan.deep_view(), source@, 0),
        r <= plan.len(),
{
    let ghost all = plan.deep_view();
    let mut i: usize = 0;
    while i < plan.len() && !same_place(plan[i].source.as_str(), source)
        invariant
            all == plan.deep_view(),
            i <= plan.len(),
            staged_at(all, source@, 0) == staged_at(all, source@, i as int),
        decreases plan.len() - i,
    {
        assert(all[i as int] == plan@[i as int].deep_view());
        i += 1;
    }
    if i < plan.len() {
        assert(all[i as int] == plan@[i as int].deep_view());
    }
    i
}

/// Decides which of the files that a form names are copied, and under which
/// names; `None` where a run may read them all where they are. Otherwise every
/// file is staged, so that one directory holds them all.
pub fn plan_staging(files: &[FileUse]) -> (r: Option<Vec<StagedFile>>)
    ensures
        r is None == all_allowed(files.deep_view()),
        r matches Some(plan) ==> plan.deep_view() == plan_for(files.deep_view()),
{
    let ghost all = files.deep_view();
    let mut out_of_scope = false;
    for i in 0..files.len()
        invariant
            all == files.deep_view(),
            !out_of_scope == forall|j: int| 0 <= j < i ==> (#[trigger] all[j]).allowed,
    {
        assert(all[i as int] == files@[i as int].deep_view());
        if !files[i].allowed {
            out_of_scope = true;
        }
    }
    if !out_of_scope {
        return None;
    }
    let mut plan: Vec<StagedFile> = Vec::new();
    for i in 0..files.len()
        invariant
            all == files.deep_view(),
            plan.deep_view() == plan_for(all.take(i as int)),
    {
        let ghost done = plan.deep_view();
        assert(all.take(i + 1).drop_last() == all.take(i as int));
        assert(all.take(i + 1).last() == files@[i as int].deep_view());
        let f = &files[i];
        let at: usize = find_staged(plan.as_slice(), f.source.as_str());
        let next = if at < plan.len() {
            assert(done[at as int] == plan@[at as int].deep_view());
            StagedFile { source: f.source.clone(), name: plan[at].name.clone(), copy: false }
        } else {
            let name = match &f.base {
                Some(base) => unique_name(base.as_str(), plan.as_slice()),
                None => unique_name("file", plan.as_slice()),
            };
            StagedFile { source: f.source.clone(), name, copy: true }
        };
        assert(next.deep_view() == staged_next(done, f.deep_view()));
        plan.push(next);
        assert(plan.deep_view() == done.push(next.deep_view()));
    }
    assert(all.take(all.len() as int) == all);
    Some(plan)
}

// ---------------------------------------------------------------------------
// The fields of a form
// ---------------------------------------------------------------------------
/// Whether a field uploads a file.
pub open spec fn uploads(f: FieldView) -> bool {
    f.kind is File && !text::is_blank(f.value)
}

/// The files that some fields upload.
pub open spec fn paths_in_fields(fields: Seq<FieldView>, p: spec_fn(FieldView) -> bool) -> Seq<
    Seq<char>,
>
    decreases fields.len(),
{
    if fields.len() == 0 {
        Seq::empty()
    } else {
        let front = paths_in_fields(fields.drop_last(), p);
        if p(fields.last()) {
            front.push(text::trimmed(fields.last().value))
        } else {
            front
        }
    }
}

/// The files that fields of a sort name, over some requests.
pub open spec fn paths_in(entries: Seq<EntryView>, p: spec_fn(FieldView) -> bool) -> Seq<Seq<char>>
    decreases entries.len(),
{
    if entries.len() == 0 {
        Seq::empty()
    } else {
        paths_in(entries.drop_last(), p) + paths_in_fields(entries.last().form_fields, p)
    }
}

/// The fields of a request with those that upload a file naming its copy, given
/// how many such fields stand before.
pub open spec fn restaged_fields(
    fields: Seq<FieldView>,
    plan: Seq<StagedView>,
    from: nat,
) -> Seq<FieldView> {
    Seq::new(
        fields.len(),
        |j: int|
            {
                let k = (from + count(fields.take(j), |f: FieldView| uploads(f))) as int;
                if uploads(fields[j]) && k < plan.len() {
                    FieldView { value: plan[k].name, ..fields[j] }
                } else {
                    fields[j]
                }
            },
    )
}

/// Requests with the fields that upload a file naming its copy, as far as the
/// plan goes.
pub open spec fn restaged(entries: Seq<EntryView>, plan: Seq<StagedView>) -> Seq<EntryView> {
    Seq::new(
        entries.len(),
        |e: int|
            EntryView {
                form_fields: restaged_fields(
                    entries[e].form_fields,
                    plan,
                    count_all(entries.take(e), |f: FieldView| uploads(f)),
                ),
                ..entries[e]
            },
    )
}

fn is_upload(f: &FormField) -> (r: bool)
    ensures
        r == uploads(f.deep_view()),
{
    f.kind == FormFieldKind::File && !text::blank(f.value.as_str())
}

/// The files that the forms of some requests upload, in order.
pub fn form_file_paths(entries: &[HurlEntry]) -> (r: Vec<String>)
    ensures
        r.deep_view() == paths_in(entries.deep_view(), |f: FieldView| uploads(f)),
{
    let ghost all = entries.deep_view();
    let ghost p = |f: FieldView| uploads(f);
    let mut out: Vec<String> = Vec::new();
    for e in 0..entries.len()
        invariant
            all == entries.deep_view(),
            p == (|f: FieldView| uploads(f)),
            out.deep_view() == paths_in(all.take(e as int), p),
    {
        let fields: &[FormField] = entries[e].form_fields.as_slice();
        let ghost fs = fields.deep_view();
        let ghost head = out.deep_view();
        assert(all.take(e + 1).drop_last() == all.take(e as int));
        assert(all.take(e + 1).last().form_fields == fs);
        assert(head + paths_in_fields(fs.take(0), p) == head);
        for j in 0..fields.len()
            invariant
                fs == fields.deep_view(),
                p == (|f: FieldView| uploads(f)),
                out.deep_view() == head + paths_in_fields(fs.take(j as int), p),
        {
            let ghost done = out.deep_view();
            assert(fs.take(j + 1).drop_last() == fs.take(j as int));
            assert(fs.take(j + 1).last() == fields@[j as int].deep_view());
            if is_upload(&fields[j]) {
                let path = text::trim(fields[j].value.as_str());
                out.push(path);
                assert(out.deep_view() == done.push(path@));
            }
            assert(out.deep_view() == head + paths_in_fields(fs.take(j + 1), p));
        }
        assert(fs.take(fs.len() as int) == fs);
    }
    assert(all.take(all.len() as int) == all);
    out
}

/// Makes the uploads of one request name the copies, from the given place in the
/// plan on, and gives the place behind.
fn restage_entry(entry: &mut HurlEntry, plan: &[StagedFile], from: usize) -> (r: usize)
    requires
        from <= plan.len(),
    ensures
        final(entry).deep_view() == (EntryView {
            form_fields: restaged_fields(
                old(entry).deep_view().form_fields,
                plan.deep_view(),
                from as nat,
            ),
            ..old(entry).deep_view()
        }),
        ({
            let k = from + count(old(entry).deep_view().form_fields, |f: FieldView| uploads(f));
            r == if k < plan.len() {
                k
            } else {
                plan.len() as int
            }
        }),
{
    let ghost fs = entry.form_fields.deep_view();
    let ghost p = |f: FieldView| uploads(f);
    let ghost want = restaged_fields(fs, plan.deep_view(), from as nat);
    let mut out: Vec<FormField> = Vec::new();
    let mut at: usize = from;
    for j in 0..entry.form_fields.len()
        invariant
            fs == entry.form_fields.deep_view(),
            p == (|f: FieldView| uploads(f)),
            want == restaged_fields(fs, plan.deep_view(), from as nat),
            out.len() == j,
            forall|m: int| 0 <= m < j ==> (#[trigger] out@[m]).deep_view() == want[m],
            at <= plan.len(),
            at == (if from + count(fs.take(j as int), p) < plan.len() {
                from + count(fs.take(j as int), p)
            } else {
                plan.len() as int
            }),
    {
        let mut f = entry.form_fields[j].clone();
        assert(fs[j as int] == entry.form_fields@[j as int].deep_view());
        assert(fs.take(j + 1).drop_last() == fs.take(j as int));
        assert(fs.take(j + 1).last() == fs[j as int]);
        if is_upload(&entry.form_fields[j]) && at < plan.len() {
            assert(plan.deep_view()[at as int] == plan@[at as int].deep_view());
            f.value = plan[at].name.clone();
            at += 1;
        }
        assert(f.deep_view() == want[j as int]);
        out.push(f);
    }
    assert(fs.take(fs.len() as int) == fs);
    assert(out.deep_view() == want);
    entry.form_fields = out;
    at
}

/// Makes the fields that upload a file name its copy, in order, as far as the
/// plan goes: where copying failed part of the way, the fields behind keep
/// their files.
pub fn stage_out_of_scope_form_files(entries: &mut Vec<HurlEntry>, plan: &[StagedFile])
    ensures
        final(entries).deep_view() == restaged(old(entries).deep_view(), plan.deep_view()),
{
    let ghost all = entries.deep_view();
    let ghost p = |f: FieldView| uploads(f);
    let ghost want = restaged(all, plan.deep_view());
    let n: usize = entries.len();
    let mut at: usize = 0;
    for e in 0..n
        invariant
            n == all.len(),
            p == (|f: FieldView| uploads(f)),
            want == restaged(all, plan.deep_view()),
            entries.len() == all.len(),
            forall|m: int| 0 <= m < e ==> (#[trigger] entries@[m]).deep_view() == want[m],
            forall|m: int| e <= m < all.len() ==> (#[trigger] entries@[m]).deep_view() == all[m],
            at <= plan.len(),
            at == (if count_all(all.take(e as int), p) < plan.len() {
                count_all(all.take(e as int), p) as int
            } else {
                plan.len() as int
            }),
    {
        assert(all.take(e + 1).drop_last() == all.take(e as int));
        assert(all.take(e + 1).last() == all[e as int]);
        proof {
            lemma_restaged_behind(all[e as int].form_fields, plan.deep_view(), at as nat, count_all(
                all.take(e as int),
                p,
            ));
        }
        at = restage_entry(&mut entries[e], plan, at);
    }
    assert(entries.deep_view() == want);
}

/// Behind the plan's end, every place is as good as any other.
proof fn lemma_restaged_behind(fields: Seq<FieldView>, plan: Seq<StagedView>, a: nat, b: nat)
    requires
        a == b || (a >= plan.len() && b >= plan.len()),
    ensures
        restaged_fields(fields, plan, a) == restaged_fields(fields, plan, b),
{
    assert(restaged_fields(fields, plan, a) =~= restaged_fields(fields, plan, b));
}

// ---------------------------------------------------------------------------
// Fields sent as base64
// ---------------------------------------------------------------------------
/// Whether a field is sent as base64.
pub open spec fn is_base64(f: FieldView) -> bool {
    f.kind is Base64File
}

/// Whether a field is sent as base64 and names a file to read.
pub open spec fn reads_file(f: FieldView) -> bool {
    f.kind is Base64File && !text::is_blank(f.value)
}

/// A field that is sent as base64 as the plain text field it becomes: its
/// prefix, then its file in base64. Without a path it is its prefix alone.
pub open spec fn inlined(f: FieldView, content: Seq<u8>) -> FieldView {
    FieldView {
        value: (match f.base64_prefix {
            Some(prefix) => prefix,
            None => Seq::empty(),
        }) + (if text::is_blank(f.value) {
            Seq::empty()
        } else {
            base64_text::base64_of(content, Alphabet::Standard)
        }),
        kind: FormFieldKind::Text,
        base64_prefix: None,
        content_type: None,
        ..f
    }
}

/// The contents of files as sequences.
pub open spec fn contents(v: Seq<Vec<u8>>) -> Seq<Seq<u8>> {
    v.map_values(|b: Vec<u8>| b@)
}

/// The fields of a request with those sent as base64 inlined, as far as there is
/// a content for each that reads a file, given how many do so before.
pub open spec fn inlined_fields(
    fields: Seq<FieldView>,
    files: Seq<Seq<u8>>,
    from: nat,
) -> Seq<FieldView> {
    Seq::new(
        fields.len(),
        |j: int|
            {
                let p = |f: FieldView| reads_file(f);
                let k = from + count(fields.take(j), p);
                if is_base64(fields[j]) && from + count(fields.take(j + 1), p) <= files.len() {
                    inlined(fields[j], files[k as int])
                } else {
                    fields[j]
                }
            },
    )
}

/// Whether a field that is looked at names a file, sent as such or as base64.
pub open spec fn looked_at_file(fields: Seq<FieldView>, files: Seq<Seq<u8>>, from: nat) -> bool {
    exists|j: int|
        0 <= j < fields.len() && (#[trigger] fields[j]).kind.names_file() && from + count(
            fields.take(j),
            |f: FieldView| reads_file(f),
        ) <= files.len()
}

/// A request with the fields sent as base64 inlined. It is sent as multipart if
/// a field looked at named a file, and is left as it is where a file of an
/// earlier request is missing.
pub open spec fn inlined_entry(e: EntryView, files: Seq<Seq<u8>>, from: nat) -> EntryView {
    if from > files.len() {
        e
    } else {
        EntryView {
            is_multipart: looked_at_file(e.form_fields, files, from),
            form_fields: inlined_fields(e.form_fields, files, from),
            ..e
        }
    }
}

/// Requests with the fields sent as base64 inlined.
pub open spec fn inlined_all(entries: Seq<EntryView>, files: Seq<Seq<u8>>) -> Seq<EntryView> {
    Seq::new(
        entries.len(),
        |e: int|
            inlined_entry(
                entries[e],
                files,
                count_all(entries.take(e), |f: FieldView| reads_file(f)),
            ),
    )
}

fn is_read(f: &FormField) -> (r: bool)
    ensures
        r == reads_file(f.deep_view()),
{
    f.kind == FormFieldKind::Base64File && !text::blank(f.value.as_str())
}

/// The files that fields sent as base64 read, in order.
pub fn base64_file_paths(entries: &[HurlEntry]) -> (r: Vec<String>)
    ensures
        r.deep_view() == paths_in(entries.deep_view(), |f: FieldView| reads_file(f)),
{
    let ghost all = entries.deep_view();
    let ghost p = |f: FieldView| reads_file(f);
    let mut out: Vec<String> = Vec::new();
    for e in 0..entries.len()
        invariant
            all == entries.deep_view(),
            p == (|f: FieldView| reads_file(f)),
            out.deep_view() == paths_in(all.take(e as int), p),
    {
        let fields: &[FormField] = entries[e].form_fields.as_slice();
        let ghost fs = fields.deep_view();
        let ghost head = out.deep_view();
        assert(all.take(e + 1).drop_last() == all.take(e as int));
        assert(all.take(e + 1).last().form_fields == fs);
        assert(head + paths_in_fields(fs.take(0), p) == head);
        for j in 0..fields.len()
            invariant
                fs == fields.deep_view(),
                p == (|f: FieldView| reads_file(f)),
                out.deep_view() == head + paths_in_fields(fs.take(j as int), p),
        {
            let ghost done = out.deep_view();
            assert(fs.take(j + 1).drop_last() == fs.take(j as int));
            assert(fs.take(j + 1).last() == fields@[j as int].deep_view());
            if is_read(&fields[j]) {
                let path = text::trim(fields[j].value.as_str());
                out.push(path);
                assert(out.deep_view() == done.push(path@));
            }
            assert(out.deep_view() == head + paths_in_fields(fs.take(j + 1), p));
        }
        assert(fs.take(fs.len() as int) == fs);
    }
    assert(all.take(all.len() as int) == all);
    out
}

/// The plain text field that a field sent as base64 becomes.
fn inline_field(f: &FormField, content: &[u8]) -> (r: FormField)
    ensures
        r.deep_view() == inlined(f.deep_view(), content@),
{
    let mut value = match &f.base64_prefix {
        Some(prefix) => prefix.clone(),
        None => String::new(),
    };
    let ghost head = value@;
    if !text::blank(f.value.as_str()) {
        value.push_str(base64_text::standard_encode(content).as_str());
    }
    assert(head + Seq::<char>::empty() == head);
    FormField {
        key: f.key.clone(),
        value,
        kind: FormFieldKind::Text,
        content_type: None,
        base64_prefix: None,
        enabled: f.enabled,
        desc: f.desc.clone(),
    }
}

/// Inlines the fields of one request that are sent as base64, from the given
/// place in the files on. Gives how many files went in, or `None` where one is
/// missing.
fn inline_entry(entry: &mut HurlEntry, files: &[Vec<u8>], from: usize) -> (r: Option<usize>)
    requires
        from <= files.len(),
    ensures
        final(entry).deep_view() == inlined_entry(
            old(entry).deep_view(),
            contents(files@),
            from as nat,
        ),
        ({
            let k = from + count(old(entry).deep_view().form_fields, |f: FieldView| reads_file(f));
            match r {
                Some(n) => n == k && n <= files.len(),
                None => k > files.len(),
            }
        }),
{
    let ghost fs = entry.form_fields.deep_view();
    let ghost p = |f: FieldView| reads_file(f);
    let ghost all = contents(files@);
    let ghost want = inlined_fields(fs, all, from as nat);
    let mut out: Vec<FormField> = Vec::new();
    let mut multipart = false;
    let mut at: usize = from;
    let mut missing = false;
    for j in 0..entry.form_fields.len()
        invariant
            fs == entry.form_fields.deep_view(),
            p == (|f: FieldView| reads_file(f)),
            all == contents(files@),
            want == inlined_fields(fs, all, from as nat),
            out.len() == j,
            forall|m: int| 0 <= m < j ==> (#[trigger] out@[m]).deep_view() == want[m],
            at <= files.len(),
            !missing ==> at == from + count(fs.take(j as int), p),
            missing ==> from + count(fs.take(j as int), p) > files.len(),
            multipart == exists|m: int|
                0 <= m < j && (#[trigger] fs[m]).kind.names_file() && from + count(fs.take(m), p)
                    <= all.len(),
    {
        let f = &entry.form_fields[j];
        assert(fs[j as int] == f.deep_view());
        assert(fs.take(j + 1).drop_last() == fs.take(j as int));
        assert(fs.take(j + 1).last() == fs[j as int]);
        if !missing {
            if f.kind.is_multipart() {
                multipart = true;
            }
            if is_read(f) && at == files.len() {
                missing = true;
            }
        }
        let next = if missing || f.kind != FormFieldKind::Base64File {
            f.clone()
        } else if is_read(f) {
            let file: &[u8] = files[at].as_slice();
            assert(all[at as int] == file@);
            at += 1;
            inline_field(f, file)
        } else {
            let none: Vec<u8> = Vec::new();
            let plain = inline_field(f, none.as_slice());
            assert(plain.deep_view() == inlined(f.deep_view(), all[at as int]));
            plain
        };
        assert(next.deep_view() == want[j as int]);
        out.push(next);
    }
    assert(fs.take(fs.len() as int) == fs);
    assert(out.deep_view() == want);
    assert(multipart == looked_at_file(fs, all, from as nat));
    entry.form_fields = out;
    entry.is_multipart = multipart;
    if missing {
        None
    } else {
        Some(at)
    }
}

/// How many fields of a request are sent as base64.
fn count_base64(fields: &[FormField]) -> (r: usize)
    ensures
        r == count(fields.deep_view(), |f: FieldView| is_base64(f)),
{
    let ghost fs = fields.deep_view();
    let ghost p = |f: FieldView| is_base64(f);
    let mut n: usize = 0;
    for j in 0..fields.len()
        invariant
            fs == fields.deep_view(),
            p == (|f: FieldView| is_base64(f)),
            n == count(fs.take(j as int), p),
            n <= j,
    {
        assert(fs.take(j + 1).drop_last() == fs.take(j as int));
        assert(fs.take(j + 1).last() == fields@[j as int].deep_view());
        if fields[j].kind == FormFieldKind::Base64File {
            n += 1;
        }
    }
    assert(fs.take(fs.len() as int) == fs);
    n
}

/// Turns every field that is sent as base64 into a plain text field, given the
/// contents of the files they read, in order. Gives how many were turned, or
/// `None` where a file is missing; the fields before it are turned all the
/// same.
pub fn expand_base64_form_fields(entries: &mut Vec<HurlEntry>, files: &[Vec<u8>]) -> (r: Option<
    usize,
>)
    requires
        count_all(old(entries).deep_view(), |f: FieldView| is_base64(f)) <= usize::MAX,
    ensures
        final(entries).deep_view() == inlined_all(old(entries).deep_view(), contents(files@)),
        match r {
            Some(n) => n == count_all(old(entries).deep_view(), |f: FieldView| is_base64(f))
                && count_all(old(entries).deep_view(), |f: FieldView| reads_file(f))
                <= files.len(),
            None => count_all(old(entries).deep_view(), |f: FieldView| reads_file(f))
                > files.len(),
        },
{
    let ghost all = entries.deep_view();
    let ghost p = |f: FieldView| reads_file(f);
    let ghost q = |f: FieldView| is_base64(f);
    let ghost want = inlined_all(all, contents(files@));
    let n: usize = entries.len();
    let mut at: usize = 0;
    let mut turned: usize = 0;
    let mut missing = false;
    for e in 0..n
        invariant
            n == all.len(),
            p == (|f: FieldView| reads_file(f)),
            q == (|f: FieldView| is_base64(f)),
            count_all(all, q) <= usize::MAX,
            want == inlined_all(all, contents(files@)),
            entries.len() == all.len(),
            forall|m: int| 0 <= m < e ==> (#[trigger] entries@[m]).deep_view() == want[m],
            forall|m: int| e <= m < all.len() ==> (#[trigger] entries@[m]).deep_view() == all[m],
            at <= files.len(),
            !missing ==> at == count_all(all.take(e as int), p) && turned == count_all(
                all.take(e as int),
                q,
            ),
            missing ==> count_all(all.take(e as int), p) > files.len(),
    {
        assert(all.take(e + 1).drop_last() == all.take(e as int));
        assert(all.take(e + 1).last() == all[e as int]);
        proof {
            lemma_count_all_grows(all, q, e + 1);
        }
        if !missing {
            let more: usize = count_base64(entries[e].form_fields.as_slice());
            match inline_entry(&mut entries[e], files, at) {
                Some(k) => {
                    at = k;
                    turned = turned + more;
                },
                None => {
                    missing = true;
                },
            }
        }
    }
    assert(all.take(all.len() as int) == all);
    assert(entries.deep_view() == want);
    if missing {
        None
    } else {
        Some(turned)
    }
}

/// Once every file is there, no field is left that is sent as base64.
pub proof fn no_base64_field_is_left(entries: Seq<EntryView>, files: Seq<Seq<u8>>, e: int, j: int)
    requires
        count_all(entries, |f: FieldView| reads_file(f)) <= files.len(),
        0 <= e < entries.len(),
        0 <= j < entries[e].form_fields.len(),
    ensures
        !is_base64(inlined_all(entries, files)[e].form_fields[j]),
{
    let p = |f: FieldView| reads_file(f);
    let fields = entries[e].form_fields;
    lemma_count_all_grows(entries, p, e + 1);
    assert(entries.take(e + 1).drop_last() == entries.take(e));
    lemma_count_grows(fields, p, j + 1);
}

/// Fields of any other kind are left as they are, whatever files there are.
pub proof fn other_fields_are_left_alone(
    entries: Seq<EntryView>,
    files: Seq<Seq<u8>>,
    e: int,
    j: int,
)
    requires
        0 <= e < entries.len(),
        0 <= j < entries[e].form_fields.len(),
        !is_base64(entries[e].form_fields[j]),
    ensures
        inlined_all(entries, files)[e].form_fields[j] == entries[e].form_fields[j],
{
}

} // verus!
