//! What holds of the files that forms name.
//!
//! The laws here speak of a disk, or of a rule that names copies, as a function of
//! the path: whatever it is, a field comes to what it says of the path that the
//! field itself names.
use vstd::prelude::*;

use crate::base64_text;
use crate::base64_text::Alphabet;
use crate::entry::{EntryView, FieldView, FormFieldKind};
use crate::stage;
use crate::stage::{StagedView, UseView};
use crate::text;

verus! {

// ---------------------------------------------------------------------------
// Places of fields
// ---------------------------------------------------------------------------
/// The paths that the fields before the `j`-th of the `e`-th request name.
pub open spec fn paths_before(
    entries: Seq<EntryView>,
    p: spec_fn(FieldView) -> bool,
    e: int,
    j: int,
) -> Seq<Seq<char>> {
    stage::paths_in(entries.take(e), p) + stage::paths_in_fields(
        entries[e].form_fields.take(j),
        p,
    )
}

proof fn lemma_paths_counted(fields: Seq<FieldView>, p: spec_fn(FieldView) -> bool)
    ensures
        stage::paths_in_fields(fields, p).len() == stage::count(fields, p),
    decreases fields.len(),
{
    if fields.len() > 0 {
        lemma_paths_counted(fields.drop_last(), p);
    }
}

proof fn lemma_all_paths_counted(entries: Seq<EntryView>, p: spec_fn(FieldView) -> bool)
    ensures
        stage::paths_in(entries, p).len() == stage::count_all(entries, p),
    decreases entries.len(),
{
    if entries.len() > 0 {
        lemma_all_paths_counted(entries.drop_last(), p);
        lemma_paths_counted(entries.last().form_fields, p);
    }
}

/// A field's path stands in the list of paths behind those of the fields before.
proof fn lemma_path_of_field(fields: Seq<FieldView>, p: spec_fn(FieldView) -> bool, j: int)
    requires
        0 <= j < fields.len(),
        p(fields[j]),
    ensures
        stage::count(fields.take(j), p) < stage::paths_in_fields(fields, p).len(),
        stage::paths_in_fields(fields, p)[stage::count(fields.take(j), p) as int] == text::trimmed(
            fields[j].value,
        ),
    decreases fields.len(),
{
    let front = fields.drop_last();
    lemma_paths_counted(front, p);
    if j == fields.len() - 1 {
        assert(fields.take(j) == front);
    } else {
        assert(front.take(j) == fields.take(j));
        assert(front[j] == fields[j]);
        lemma_path_of_field(front, p, j);
    }
}

proof fn lemma_path_in(entries: Seq<EntryView>, p: spec_fn(FieldView) -> bool, e: int, j: int)
    requires
        0 <= e < entries.len(),
        0 <= j < entries[e].form_fields.len(),
        p(entries[e].form_fields[j]),
    ensures
        ({
            let k = stage::count_all(entries.take(e), p) + stage::count(
                entries[e].form_fields.take(j),
                p,
            );
            &&& k < stage::paths_in(entries, p).len()
            &&& stage::paths_in(entries, p)[k as int] == text::trimmed(
                entries[e].form_fields[j].value,
            )
        }),
    decreases entries.len(),
{
    let front = entries.drop_last();
    lemma_all_paths_counted(front, p);
    if e == entries.len() - 1 {
        assert(entries.take(e) == front);
        lemma_path_of_field(entries[e].form_fields, p, j);
    } else {
        assert(front.take(e) == entries.take(e));
        assert(front[e] == entries[e]);
        lemma_path_in(front, p, e, j);
    }
}

proof fn lemma_before_counted(
    entries: Seq<EntryView>,
    p: spec_fn(FieldView) -> bool,
    e: int,
    j: int,
)
    ensures
        paths_before(entries, p, e, j).len() == stage::count_all(entries.take(e), p) + stage::count(
            entries[e].form_fields.take(j),
            p,
        ),
{
    lemma_all_paths_counted(entries.take(e), p);
    lemma_paths_counted(entries[e].form_fields.take(j), p);
}

// ---------------------------------------------------------------------------
// Fields sent as base64
// ---------------------------------------------------------------------------
/// The prefix of a field that is sent as base64; nothing where it has none.
pub open spec fn prefix_of(f: FieldView) -> Seq<char> {
    match f.base64_prefix {
        Some(prefix) => prefix,
        None => Seq::empty(),
    }
}

/// Every field that is sent as base64 becomes a text: its prefix, and behind it the
/// base64 of the file that the field itself names, whatever other fields there are.
/// Without a path it is the prefix alone. The name of the field, its note and
/// whether it is enabled stay. The files are given in the order of their paths.
pub proof fn a_field_carries_the_file_that_it_names(
    entries: Seq<EntryView>,
    files: Seq<Seq<u8>>,
    disk: spec_fn(Seq<char>) -> Seq<u8>,
    e: int,
    j: int,
)
    requires
        ({
            let paths = stage::paths_in(entries, |f: FieldView| stage::reads_file(f));
            files == Seq::new(paths.len(), |k: int| disk(paths[k]))
        }),
        0 <= e < entries.len(),
        0 <= j < entries[e].form_fields.len(),
        entries[e].form_fields[j].kind == FormFieldKind::Base64File,
    ensures
        ({
            let f = entries[e].form_fields[j];
            let got = stage::inlined_all(entries, files)[e].form_fields[j];
            &&& (forall|i: int| 0 <= i < f.value.len() ==> text::is_white(#[trigger] f.value[i]))
                ==> got.value == prefix_of(f)
            &&& (exists|i: int|
                0 <= i < f.value.len() && !text::is_white(#[trigger] f.value[i])) ==> got.value
                == prefix_of(f) + base64_text::base64_of(
                disk(text::trimmed(f.value)),
                Alphabet::Standard,
            )
            &&& got.kind == FormFieldKind::Text
            &&& got.key == f.key && got.desc == f.desc && got.enabled == f.enabled
            &&& got.base64_prefix is None && got.content_type is None
        }),
{
    let p = |f: FieldView| stage::reads_file(f);
    let f = entries[e].form_fields[j];
    let fields = entries[e].form_fields;
    lemma_blank(f.value);
    lemma_all_paths_counted(entries, p);
    lemma_count_all_within(entries, p, e);
    lemma_count_within(fields, p, j + 1);
    assert(fields.take(j + 1).drop_last() == fields.take(j));
    assert(fields.take(j + 1).last() == f);
    if stage::reads_file(f) {
        lemma_path_in(entries, p, e, j);
    }
    let got = stage::inlined_all(entries, files)[e].form_fields[j];
    assert(prefix_of(f) + Seq::<char>::empty() == prefix_of(f));
}

proof fn lemma_blank(s: Seq<char>)
    ensures
        text::is_blank(s) <==> forall|i: int| 0 <= i < s.len() ==> text::is_white(#[trigger] s[i]),
{
    let t = text::trimmed_start(s);
    text::lemma_trimmed_start(s);
    text::lemma_trimmed_end(t);
    if t.len() == 0 {
        assert forall|i: int| 0 <= i < s.len() implies text::is_white(#[trigger] s[i]) by {}
    } else {
        let a = s.len() - t.len();
        assert(t[0] == s[a]);
        assert(!text::is_white(s[a]));
        if text::is_blank(s) {
            assert(text::is_white(t[0]));
        }
    }
}

proof fn lemma_count_within(fields: Seq<FieldView>, p: spec_fn(FieldView) -> bool, n: int)
    requires
        0 <= n <= fields.len(),
    ensures
        stage::count(fields.take(n), p) <= stage::count(fields, p),
    decreases fields.len() - n,
{
    if n < fields.len() {
        lemma_count_within(fields, p, n + 1);
        assert(fields.take(n + 1).drop_last() == fields.take(n));
    } else {
        assert(fields.take(n) == fields);
    }
}

proof fn lemma_count_all_within(entries: Seq<EntryView>, p: spec_fn(FieldView) -> bool, e: int)
    requires
        0 <= e < entries.len(),
    ensures
        stage::count_all(entries.take(e), p) + stage::count(entries[e].form_fields, p)
            <= stage::count_all(entries, p),
    decreases entries.len() - e,
{
    assert(entries.take(e + 1).drop_last() == entries.take(e));
    assert(entries.take(e + 1).last() == entries[e]);
    if e + 1 < entries.len() {
        lemma_count_all_within(entries, p, e + 1);
    } else {
        assert(entries.take(e + 1) == entries);
    }
}

/// Where files are missing, the fields before the first of them carry the files
/// that they name, and those from there on are left as they are.
pub proof fn fields_behind_a_missing_file_are_left_alone(
    entries: Seq<EntryView>,
    files: Seq<Seq<u8>>,
    disk: spec_fn(Seq<char>) -> Seq<u8>,
    e: int,
    j: int,
)
    requires
        ({
            let paths = stage::paths_in(entries, |f: FieldView| stage::reads_file(f));
            files.len() <= paths.len() && files == Seq::new(files.len(), |k: int| disk(paths[k]))
        }),
        0 <= e < entries.len(),
        0 <= j < entries[e].form_fields.len(),
        entries[e].form_fields[j].kind == FormFieldKind::Base64File,
        exists|i: int|
            0 <= i < entries[e].form_fields[j].value.len() && !text::is_white(
                #[trigger] entries[e].form_fields[j].value[i],
            ),
    ensures
        ({
            let p = |f: FieldView| stage::reads_file(f);
            let f = entries[e].form_fields[j];
            let got = stage::inlined_all(entries, files)[e].form_fields[j];
            if paths_before(entries, p, e, j).len() < files.len() {
                got.value == prefix_of(f) + base64_text::base64_of(
                    disk(text::trimmed(f.value)),
                    Alphabet::Standard,
                )
            } else {
                got == f
            }
        }),
{
    let p = |f: FieldView| stage::reads_file(f);
    let f = entries[e].form_fields[j];
    let fields = entries[e].form_fields;
    lemma_blank(f.value);
    lemma_before_counted(entries, p, e, j);
    lemma_path_in(entries, p, e, j);
    assert(fields.take(j + 1).drop_last() == fields.take(j));
    assert(fields.take(j + 1).last() == f);
}

/// A request whose fields are all there is sent as multipart if and only if one of
/// them named a file, and nothing else of it changes but its fields.
pub proof fn an_expanded_request_is_multipart_where_it_named_a_file(
    entries: Seq<EntryView>,
    files: Seq<Seq<u8>>,
    e: int,
)
    requires
        files.len() >= stage::paths_in(entries, |f: FieldView| stage::reads_file(f)).len(),
        0 <= e < entries.len(),
    ensures
        ({
            let got = stage::inlined_all(entries, files)[e];
            &&& got.form_fields.len() == entries[e].form_fields.len()
            &&& got.is_multipart == exists|j: int|
                0 <= j < entries[e].form_fields.len() && (
                #[trigger] entries[e].form_fields[j]).kind != FormFieldKind::Text
            &&& got == (EntryView {
                is_multipart: got.is_multipart,
                form_fields: got.form_fields,
                ..entries[e]
            })
        }),
{
    let p = |f: FieldView| stage::reads_file(f);
    let fields = entries[e].form_fields;
    lemma_all_paths_counted(entries, p);
    lemma_count_all_within(entries, p, e);
    let from = stage::count_all(entries.take(e), p);
    assert forall|j: int| 0 <= j < fields.len() implies from + stage::count(
        #[trigger] fields.take(j),
        p,
    ) <= files.len() by {
        lemma_count_within(fields, p, j);
    }
    let got = stage::inlined_all(entries, files)[e];
    if exists|j: int| 0 <= j < fields.len() && (#[trigger] fields[j]).kind != FormFieldKind::Text {
        let j = choose|j: int|
            0 <= j < fields.len() && (#[trigger] fields[j]).kind != FormFieldKind::Text;
        assert(from + stage::count(fields.take(j), p) <= files.len());
        assert(stage::looked_at_file(fields, files, from));
    }
}

// ---------------------------------------------------------------------------
// Copies
// ---------------------------------------------------------------------------
/// Once its file is copied, a field that uploads one names the copy of the file
/// that it named, and everything else of it stays. Fields without a path, fields of
/// another kind, and those whose file was not copied any more stay as they are.
pub proof fn an_upload_names_the_copy_of_its_own_file(
    entries: Seq<EntryView>,
    plan: Seq<StagedView>,
    copy: spec_fn(Seq<char>) -> Seq<char>,
    e: int,
    j: int,
)
    requires
        ({
            let paths = stage::paths_in(entries, |f: FieldView| stage::uploads(f));
            plan.len() <= paths.len() && forall|k: int|
                0 <= k < plan.len() ==> (#[trigger] plan[k]).name == copy(paths[k])
        }),
        0 <= e < entries.len(),
        0 <= j < entries[e].form_fields.len(),
    ensures
        ({
            let p = |f: FieldView| stage::uploads(f);
            let f = entries[e].form_fields[j];
            let got = stage::restaged(entries, plan)[e].form_fields[j];
            let named = f.kind == FormFieldKind::File && exists|i: int|
                0 <= i < f.value.len() && !text::is_white(#[trigger] f.value[i]);
            if named && paths_before(entries, p, e, j).len() < plan.len() {
                got == (FieldView { value: copy(text::trimmed(f.value)), ..f })
            } else {
                got == f
            }
        }),
        stage::restaged(entries, plan)[e] == (EntryView {
            form_fields: stage::restaged(entries, plan)[e].form_fields,
            ..entries[e]
        }),
        stage::restaged(entries, plan)[e].form_fields.len() == entries[e].form_fields.len(),
{
    let p = |f: FieldView| stage::uploads(f);
    let f = entries[e].form_fields[j];
    lemma_blank(f.value);
    lemma_before_counted(entries, p, e, j);
    if stage::uploads(f) {
        lemma_path_in(entries, p, e, j);
    }
}

/// The name of a copy is the file's own, unless that is taken. Otherwise a number
/// stands before the extension, or at the end where there is none: the least from
/// one on that gives a name not taken.
pub proof fn a_copy_keeps_its_name_or_gets_the_least_number(
    stem: Seq<char>,
    extension: Seq<char>,
    used: Seq<Seq<char>>,
)
    requires
        extension.len() == 0 && !stem.contains('.') || extension.len() > 0 && extension[0] == '.'
            && !extension.skip(1).contains('.'),
    ensures
        !used.contains(stem + extension) ==> stage::name_for(stem + extension, used) == stem
            + extension,
        used.contains(stem + extension) ==> exists|n: nat|
            {
                &&& n >= 1
                &&& #[trigger] numbered(stem, n, extension) == stage::name_for(
                    stem + extension,
                    used,
                )
                &&& !used.contains(numbered(stem, n, extension))
                &&& forall|m: nat| 1 <= m < n ==> used.contains(#[trigger] numbered(stem, m, extension))
            },
{
    let base = stem + extension;
    if used.contains(base) {
        stage::lemma_some_number_is_free(base, used);
        let n = choose|n: nat| stage::is_free_number(base, used, n);
        assert(stage::is_free_number(base, used, n));
        lemma_last_dot_is(stem, extension);
        assert forall|m: nat| stage::spread(base, m) == #[trigger] numbered(stem, m, extension) by {
            if extension.len() > 0 {
                assert(base.take(stem.len() as int) == stem);
                assert(base.skip(stem.len() as int) == extension);
            } else {
                assert(base == stem);
                assert(stem + seq!['_'] + text::decimal(m) + extension == stem + seq!['_']
                    + text::decimal(m));
            }
        }
        assert(numbered(stem, n, extension) == stage::name_for(base, used));
        assert forall|m: nat| 1 <= m < n implies used.contains(
            #[trigger] numbered(stem, m, extension),
        ) by {
            assert(used.contains(stage::spread(base, m)));
        }
    }
}

/// A name with a number between its stem and its extension.
pub open spec fn numbered(stem: Seq<char>, n: nat, extension: Seq<char>) -> Seq<char> {
    stem + seq!['_'] + text::decimal(n) + extension
}

proof fn lemma_last_dot_is(stem: Seq<char>, extension: Seq<char>)
    requires
        extension.len() == 0 && !stem.contains('.') || extension.len() > 0 && extension[0] == '.'
            && !extension.skip(1).contains('.'),
    ensures
        stage::last_dot(stem + extension) == (if extension.len() == 0 {
            -1int
        } else {
            stem.len() as int
        }),
    decreases stem.len() + extension.len(),
{
    let base = stem + extension;
    if base.len() > 0 {
        if extension.len() == 0 {
            assert(base == stem);
            assert(stem.contains(stem.last()));
            assert(!stem.drop_last().contains('.')) by {
                if stem.drop_last().contains('.') {
                    let i = choose|i: int|
                        0 <= i < stem.drop_last().len() && stem.drop_last()[i] == '.';
                    assert(stem[i] == '.');
                }
            }
            assert(base.drop_last() == stem.drop_last() + extension);
            lemma_last_dot_is(stem.drop_last(), extension);
        } else if extension.len() == 1 {
            assert(base.last() == '.');
        } else {
            let tail = extension.skip(1);
            assert(tail.contains(tail.last()));
            assert(base.last() == tail.last());
            let front = extension.drop_last();
            assert(!front.skip(1).contains('.')) by {
                if front.skip(1).contains('.') {
                    let i = choose|i: int| 0 <= i < front.skip(1).len() && front.skip(1)[i] == '.';
                    assert(tail[i] == '.');
                }
            }
            assert(base.drop_last() == stem + front);
            lemma_last_dot_is(stem, front);
        }
    }
}

/// Two uploads of requests name one copy if and only if they named one file, given
/// where each path leads.
pub proof fn two_uploads_share_a_copy_where_they_share_a_file(
    entries: Seq<EntryView>,
    files: Seq<UseView>,
    leads: spec_fn(Seq<char>) -> Seq<char>,
    e: int,
    j: int,
    d: int,
    i: int,
)
    requires
        ({
            let paths = stage::paths_in(entries, |f: FieldView| stage::uploads(f));
            files.len() == paths.len() && forall|k: int|
                0 <= k < files.len() ==> (#[trigger] files[k]).source == leads(paths[k])
        }),
        0 <= e < entries.len(),
        0 <= j < entries[e].form_fields.len(),
        stage::uploads(entries[e].form_fields[j]),
        0 <= d < entries.len(),
        0 <= i < entries[d].form_fields.len(),
        stage::uploads(entries[d].form_fields[i]),
    ensures
        ({
            let out = stage::restaged(entries, stage::plan_for(files));
            let here = stage::place(leads(text::trimmed(entries[e].form_fields[j].value)));
            let there = stage::place(leads(text::trimmed(entries[d].form_fields[i].value)));
            (out[e].form_fields[j].value == out[d].form_fields[i].value) == (here == there)
        }),
{
    let p = |f: FieldView| stage::uploads(f);
    stage::each_file_is_staged_once_under_a_name_of_its_own(files);
    lemma_path_in(entries, p, e, j);
    lemma_path_in(entries, p, d, i);
    let k = stage::count_all(entries.take(e), p) + stage::count(
        entries[e].form_fields.take(j),
        p,
    );
    let m = stage::count_all(entries.take(d), p) + stage::count(
        entries[d].form_fields.take(i),
        p,
    );
    let plan = stage::plan_for(files);
    let out = stage::restaged(entries, plan);
    assert(out[e].form_fields[j].value == plan[k as int].name);
    assert(out[d].form_fields[i].value == plan[m as int].name);
    assert(files[k as int].source == leads(text::trimmed(entries[e].form_fields[j].value)));
    assert(files[m as int].source == leads(text::trimmed(entries[d].form_fields[i].value)));
}

/// One file that a run may not read where it is has all of them staged; where there is
/// none, nothing is.
pub proof fn one_file_out_of_reach_has_all_staged(files: Seq<UseView>, i: int)
    ensures
        0 <= i < files.len() && !files[i].allowed ==> !stage::all_allowed(files),
        (forall|k: int| 0 <= k < files.len() ==> (#[trigger] files[k]).allowed)
            ==> stage::all_allowed(files),
{
}

} // verus!
