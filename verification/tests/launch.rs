//! The command line.
use paperboy::launch::{CommandLine, Launch};

fn given() -> CommandLine {
    CommandLine {
        collection: None,
        env: vec![],
        report: None,
        outputs: vec![],
        gui: false,
        postman_import: false,
    }
}

#[test]
fn nothing_asked_for_is_the_terminal() {
    assert!(matches!(given().mode(), Launch::Terminal));
}

#[test]
fn an_output_needs_a_report_or_an_import() {
    let mut c = given();
    c.collection = Some("a.hurl".into());
    c.outputs = vec!["x".into()];
    match c.mode() {
        Launch::Refused(why) => {
            assert_eq!(why, "error: -o/--output requires -r/--report or --postman-import")
        }
        other => panic!("{other:?}"),
    }
}

#[test]
fn an_import_has_one_directory() {
    let mut c = given();
    c.postman_import = true;
    c.report = Some("r.trail".into());
    c.outputs = vec!["x".into()];
    assert!(matches!(c.mode(), Launch::Import { out: Some(d) } if d == "x"));
    c.outputs.push("y".into());
    match c.mode() {
        Launch::Refused(why) => assert_eq!(
            why,
            "error: --postman-import downloads into one directory, but -o was given 2 times"
        ),
        other => panic!("{other:?}"),
    }
    c.outputs.clear();
    assert!(matches!(c.mode(), Launch::Import { out: None }));
}

#[test]
fn a_report_goes_before_a_collection_and_a_collection_before_windows() {
    let mut c = given();
    c.gui = true;
    assert!(matches!(c.mode(), Launch::Gui));
    c.collection = Some("a.hurl".into());
    c.env = vec!["p.vars".into()];
    assert!(matches!(
        c.mode(),
        Launch::Run { collection, env: Some(e), warning: None } if collection == "a.hurl" && e == "p.vars"
    ));
    c.report = Some("r.trail".into());
    assert!(matches!(c.mode(), Launch::Report { report } if report == "r.trail"));
}

#[test]
fn more_than_one_environment_is_warned_of() {
    let mut c = given();
    c.collection = Some("a.hurl".into());
    c.env = vec!["p.vars".into(), "q.vars".into()];
    match c.mode() {
        Launch::Run { env, warning, .. } => {
            assert_eq!(env.as_deref(), Some("p.vars"));
            assert_eq!(
                warning.as_deref(),
                Some("warning: multiple -e environments are only used by reports (-r); running the collection with the first one")
            );
        }
        other => panic!("{other:?}"),
    }
}
