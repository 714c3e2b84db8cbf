//! Languages and notices.
use paperboy::i18n::{Language, Strings};
use paperboy::status::Status;
use paperboy::strings::{FILE_MENU, LANG_DANISH, NEW_REQUEST, RESPONSE_HEADING};

#[test]
fn status_text_follows_the_current_language() {
    let en = Strings::for_language(&Language::English);
    let fr = Strings::for_language(&Language::French);
    let da = Strings::for_language(&Language::Danish);

    // The same Status renders differently per language (re-translates).
    let st = Status::NotCollection;
    assert_ne!(st.text(&en), st.text(&fr));
    assert!(st.text(&en).starts_with("Not"));
    assert!(st.text(&fr).starts_with("Fichier"));
    assert!(st.text(&da).starts_with("Ikke"));

    // Success vs problem classification.
    assert!(Status::Loaded.is_ok());
    assert!(!Status::NotEnvironment.is_ok());

    // Dynamic parts are preserved and prefixed/translated.
    assert!(Status::Error("boom".into()).text(&en).contains("boom"));
    assert!(
        Status::WaitingSecrets(vec!["TOKEN".into()])
            .text(&en)
            .contains("TOKEN")
    );
}

#[test]
fn danish_strings_are_present_and_distinct() {
    let da = Strings::for_language(&Language::Danish);
    assert_eq!(da.pick(&LANG_DANISH), "Dansk");
    // A few representative strings are actually translated, not left English.
    assert_eq!(da.pick(&FILE_MENU), "Fil");
    assert_eq!(da.pick(&RESPONSE_HEADING), "Svar");
    assert_eq!(da.pick(&NEW_REQUEST), "\u{FF0B} Ny anmodning");
}
