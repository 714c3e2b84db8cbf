//! Files of forms.
use paperboy::entry::{FormField, FormFieldKind, HurlEntry};
use paperboy::stage::{
    base64_file_paths, expand_base64_form_fields, form_file_paths, plan_staging,
    stage_out_of_scope_form_files, FileUse, StagedFile,
};

fn field(key: &str, value: &str, kind: FormFieldKind) -> FormField {
    FormField {
        key: key.to_string(),
        value: value.to_string(),
        kind,
        content_type: None,
        base64_prefix: None,
        enabled: true,
        desc: String::new(),
    }
}

fn file_field(key: &str, value: &str) -> FormField {
    field(key, value, FormFieldKind::File)
}

fn entry_with_form(fields: Vec<FormField>) -> HurlEntry {
    HurlEntry {
        form_fields: fields,
        ..Default::default()
    }
}

/// A file as it is found below `/c`, where a run is rooted.
fn used(path: &str) -> FileUse {
    let source = if path.starts_with('/') {
        path.to_string()
    } else {
        format!("/c/{path}")
    };
    FileUse {
        base: source.rsplit('/').next().map(str::to_string),
        allowed: source.starts_with("/c/"),
        source,
    }
}

fn stage(entries: &mut Vec<HurlEntry>) -> Option<Vec<StagedFile>> {
    let files: Vec<FileUse> = form_file_paths(entries).iter().map(|p| used(p)).collect();
    let plan = plan_staging(&files)?;
    stage_out_of_scope_form_files(entries, &plan);
    Some(plan)
}

fn values(entries: &[HurlEntry]) -> Vec<String> {
    entries
        .iter()
        .flat_map(|e| e.form_fields.iter().map(|f| f.value.clone()))
        .collect()
}

#[test]
fn does_nothing_when_every_file_is_already_in_scope() {
    let mut entries = vec![entry_with_form(vec![file_field("avatar", "avatar.png")])];
    assert!(stage(&mut entries).is_none());
    assert_eq!(values(&entries), ["avatar.png"]);
}

#[test]
fn copies_an_out_of_scope_file_into_a_staging_dir_and_rewrites_its_value() {
    let mut entries = vec![entry_with_form(vec![file_field("avatar", "/else/avatar.png")])];
    let plan = stage(&mut entries).expect("a file outside the root is staged");
    assert_eq!(values(&entries), ["avatar.png"]);
    assert_eq!(plan.len(), 1);
    assert_eq!(plan[0].source, "/else/avatar.png");
    assert_eq!(plan[0].name, "avatar.png");
    assert!(plan[0].copy);
}

#[test]
fn staging_also_brings_along_already_in_scope_files_so_one_root_covers_everything() {
    let mut entries = vec![entry_with_form(vec![
        file_field("a", "in_scope.txt"),
        file_field("b", "/else/out_of_scope.txt"),
    ])];
    let plan = stage(&mut entries).unwrap();
    assert!(plan.iter().all(|s| s.copy));
    assert_eq!(values(&entries), ["in_scope.txt", "out_of_scope.txt"]);
}

#[test]
fn two_different_source_files_sharing_a_name_are_disambiguated() {
    let mut entries = vec![entry_with_form(vec![
        file_field("a", "/a/photo.png"),
        file_field("b", "/b/photo.png"),
    ])];
    let plan = stage(&mut entries).unwrap();
    assert_eq!(values(&entries), ["photo.png", "photo_1.png"]);
    assert!(plan[0].copy && plan[1].copy);
}

#[test]
fn the_same_source_file_referenced_twice_is_only_copied_once() {
    let mut entries = vec![
        entry_with_form(vec![file_field("a", "/else/shared.bin")]),
        entry_with_form(vec![file_field("b", " /else/shared.bin ")]),
    ];
    let plan = stage(&mut entries).unwrap();
    assert_eq!(values(&entries), ["shared.bin", "shared.bin"]);
    assert!(plan[0].copy);
    assert!(!plan[1].copy);
}

#[test]
fn a_missing_source_file_returns_an_error_and_cleans_up_the_staging_dir() {
    // Copying stopped at the second file: the field before it was rewritten,
    // the fields from there on were not.
    let mut entries = vec![entry_with_form(vec![
        file_field("a", "/else/one.bin"),
        file_field("b", "/else/two.bin"),
        file_field("c", "/else/three.bin"),
    ])];
    let files: Vec<FileUse> = form_file_paths(&entries).iter().map(|p| used(p)).collect();
    let plan = plan_staging(&files).unwrap();
    stage_out_of_scope_form_files(&mut entries, &plan[..1]);
    assert_eq!(values(&entries), ["one.bin", "/else/two.bin", "/else/three.bin"]);
}

#[test]
fn text_only_form_fields_never_trigger_staging() {
    let mut entries = vec![entry_with_form(vec![field(
        "name",
        "/completely/unrelated/path",
        FormFieldKind::Text,
    )])];
    assert!(form_file_paths(&entries).is_empty());
    assert!(stage(&mut entries).is_none());
}

#[test]
fn a_blank_path_names_no_file() {
    let entries = vec![entry_with_form(vec![
        file_field("a", "  "),
        field("b", "", FormFieldKind::Base64File),
    ])];
    assert!(form_file_paths(&entries).is_empty());
    assert!(base64_file_paths(&entries).is_empty());
}

#[test]
fn a_generated_name_never_overwrites_a_file_that_is_really_called_that() {
    let mut entries = vec![entry_with_form(vec![
        file_field("a", "/0/report.csv"),
        file_field("b", "/1/report.csv"),
        file_field("c", "/2/report_1.csv"),
    ])];
    let plan = stage(&mut entries).unwrap();
    assert_eq!(values(&entries), ["report.csv", "report_1.csv", "report_1_1.csv"]);
    assert!(plan.iter().all(|s| s.copy));
}

#[test]
fn a_name_without_an_extension_is_numbered_at_its_end() {
    let mut entries = vec![entry_with_form(vec![
        file_field("a", "/0/data"),
        file_field("b", "/1/data"),
        file_field("c", "/2/data"),
    ])];
    stage(&mut entries).unwrap();
    assert_eq!(values(&entries), ["data", "data_1", "data_2"]);
}

#[test]
fn a_source_without_a_name_is_called_file() {
    let plan = plan_staging(&[FileUse {
        source: "/".to_string(),
        base: None,
        allowed: false,
    }])
    .unwrap();
    assert_eq!(plan[0].name, "file");
}

#[test]
fn expands_a_base64_file_field_into_prefixed_base64_text() {
    let mut avatar = field("avatar", "blob.bin", FormFieldKind::Base64File);
    avatar.base64_prefix = Some("data:x;base64,".to_string());
    let mut entries = vec![entry_with_form(vec![avatar])];
    assert_eq!(base64_file_paths(&entries), ["blob.bin"]);
    assert_eq!(expand_base64_form_fields(&mut entries, &[b"hi".to_vec()]), Some(1));

    let f = &entries[0].form_fields[0];
    assert_eq!(f.kind, FormFieldKind::Text, "it becomes a plain Text field");
    assert_eq!(f.value, "data:x;base64,aGk=", "prefix + unwrapped base64");
    assert_eq!(f.base64_prefix, None);
    assert!(entries[0].is_multipart);
}

#[test]
fn expanding_a_base64_file_with_no_path_yields_just_the_prefix() {
    let mut entries = vec![entry_with_form(vec![FormField {
        key: "empty".to_string(),
        value: String::new(),
        kind: FormFieldKind::Base64File,
        content_type: None,
        base64_prefix: Some("pfx-".to_string()),
        enabled: true,
        desc: String::new(),
    }])];
    expand_base64_form_fields(&mut entries, &[]).unwrap();
    let f = &entries[0].form_fields[0];
    assert_eq!(f.kind, FormFieldKind::Text);
    assert_eq!(
        f.value, "pfx-",
        "no file to read, so only the prefix remains"
    );
}

#[test]
fn expanding_a_base64_file_with_a_missing_path_is_an_error() {
    let mut entries = vec![entry_with_form(vec![FormField {
        key: "gone".to_string(),
        value: "/no/such/file/here.bin".to_string(),
        kind: FormFieldKind::Base64File,
        content_type: None,
        base64_prefix: None,
        enabled: true,
        desc: String::new(),
    }])];
    assert!(
        expand_base64_form_fields(&mut entries, &[]).is_none(),
        "an unreadable Base64File must surface as an error, not a silent send"
    );
    assert_eq!(entries[0].form_fields[0].kind, FormFieldKind::Base64File);
}

#[test]
fn a_missing_base64_file_leaves_the_fields_before_it_expanded() {
    let mut entries = vec![
        entry_with_form(vec![
            field("a", "a.bin", FormFieldKind::Base64File),
            field("b", "b.bin", FormFieldKind::Base64File),
        ]),
        entry_with_form(vec![file_field("c", "c.bin")]),
    ];
    assert_eq!(base64_file_paths(&entries), ["a.bin", "b.bin"]);
    assert_eq!(expand_base64_form_fields(&mut entries, &[b"hi".to_vec()]), None);
    assert_eq!(values(&entries), ["aGk=", "b.bin", "c.bin"]);
    assert!(entries[0].is_multipart);
    assert!(!entries[1].is_multipart, "the second request was not reached");
}

#[test]
fn a_form_without_files_is_no_longer_multipart() {
    let mut entries = vec![entry_with_form(vec![field("a", "1", FormFieldKind::Text)])];
    entries[0].is_multipart = true;
    assert_eq!(expand_base64_form_fields(&mut entries, &[]), Some(0));
    assert!(!entries[0].is_multipart);
}

#[test]
fn a_file_is_staged_once_however_its_path_is_spelled() {
    let mut entries = vec![entry_with_form(vec![
        file_field("a", "a.csv"),
        file_field("b", "./a.csv"),
        file_field("c", "/c//a.csv"),
        file_field("d", "/o/a.csv"),
        file_field("e", "/o/./a.csv/"),
        file_field("f", "/o/../o/a.csv"),
    ])];
    let plan = stage(&mut entries).unwrap();
    let copied: Vec<&str> = plan
        .iter()
        .filter(|f| f.copy)
        .map(|f| f.source.as_str())
        .collect();
    assert_eq!(copied, ["/c/a.csv", "/o/a.csv", "/o/../o/a.csv"]);
    assert_eq!(
        values(&entries),
        ["a.csv", "a.csv", "a.csv", "a_1.csv", "a_1.csv", "a_2.csv"]
    );
    let relative = |path: &str| FileUse {
        source: path.to_string(),
        base: Some("a".to_string()),
        allowed: false,
    };
    let names: Vec<String> = plan_staging(&[relative("a"), relative("./a"), relative("/a")])
        .unwrap()
        .into_iter()
        .map(|f| f.name)
        .collect();
    assert_eq!(names, ["a", "a_1", "a_2"]);
}
