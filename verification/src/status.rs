//! Notices.
//!
//! A [`Status`] says what happened, not in which words, so that it can be put
//! into the words of whichever language is current.
use vstd::prelude::*;

use crate::i18n;
use crate::i18n::{Language, Strings};
use crate::strings;
use crate::text;

verus! {

/// Why a value of a request's `# [Gen]` block could not be computed. Each names
/// the row it is about.
#[derive(Debug)]
pub enum GenError {
    Syntax { name: String, detail: String },
    UnknownFunction { name: String, function: String },
    Arity { name: String, function: String, expected: String, got: usize },
    BadArgument { name: String, function: String, detail: String },
    UndefinedReference { name: String, reference: String },
    Cycle { name: String },
}

/// What happened, in no language.
#[derive(Debug)]
pub enum Status {
    /// A file was saved.
    Saved,
    /// This many files were saved at once.
    SavedFiles(usize),
    /// A file was loaded.
    Loaded,
    /// All collections were closed.
    Cleared,
    /// There is no response to save.
    NoResponse,
    /// The file is no collection.
    NotCollection,
    /// The file is no environment.
    NotEnvironment,
    /// A collection was opened where an environment was asked for: the file decides, not
    /// the menu.
    OpenedAsCollection,
    /// An environment was opened where a collection was asked for.
    OpenedAsEnvironment,
    /// The active tab isn't a report, so a report-only action (Save Report, BIND) can't
    /// proceed.
    NotReport,
    /// A report was (re)bound to a loaded collection; holds the collection's display name.
    ReportBound(String),
    /// BIND was invoked with no collections open (nothing to bind to).
    ReportBindNoCollections,
    /// Text was copied to the clipboard (a selection or a whole-panel copy).
    Copied,
    /// The active collection has no remembered git origin, so "Save to Git" can't be
    /// opened.
    NoGitOrigin,
    /// A Postman import was converted and something was left behind; the details are in the
    /// notes beside it.
    PostmanNotes,
    /// A Postman import finished, but this many items could not be fetched.
    PostmanSkipped(usize),
    /// A collection (and optionally its environment) was successfully pushed to git.
    GitSaved,
    /// Secrets the request is waiting on (their variable names).
    WaitingSecrets(Vec<String>),
    /// The request was sent with variables that nothing defines (their names). `in_envs`
    /// names any loaded environment that defines one of them but is not in use.
    UndefinedVars { keys: Vec<String>, in_envs: Vec<String> },
    /// The run was refused because these requests carry both a raw body and form fields, of
    /// which Hurl would send the body alone.
    BodyFormConflict(Vec<String>),
    /// The run was refused because these placeholders don't mean on the wire what they say
    /// on the screen: Hurl reads a variable name only as far as the first character outside
    /// `A-Z a-z 0-9 _ -`. Each is `{{written}} → name`, or just the placeholder where no
    /// name can be read.
    TruncatedPlaceholders(Vec<String>),
    /// The request's `# [Gen]` block did not fully evaluate, so the names it was meant to
    /// compute are unbound. Reported, and no reason not to send.
    GeneratorErrors(Vec<GenError>),
    /// One variable of an environment that failed before is tried again; names it.
    EnvVarReloading(String),
    /// A Global Environment was activated; names it.
    EnvActivated(String),
    /// A Global Environment was deactivated; names it.
    EnvDeactivated(String),
    /// "Run All" (Alt+F5) finished running every request in the collection.
    CollectionRunSummary { passed: usize, failed: usize, total: usize },
    /// A streaming "Run All" started: warns that Hurl's automatic cookie jar isn't carried
    /// between requests in streaming mode (switch to batch mode in Preferences if the
    /// collection relies on that).
    RunAllStreamingCookies,
    /// A restored Workspace tab's folder no longer exists; names the tab.
    WorkspaceFolderMissing(String),
    /// A missing Workspace was downloaded again from git, at the commit it was last at.
    /// Comes with the hint to save it locally.
    WorkspaceReloaded,
    /// Downloading a Workspace again failed. Holds the error; comes with the hint to save
    /// locally.
    WorkspaceReloadFailed(String),
    /// "Save Workspace…" was invoked while the active tab isn't Workspace-bound (that
    /// action is only ever offered for such tabs).
    NotWorkspace,
    /// "Save Workspace…" finished copying the files to their new, permanent location.
    WorkspaceSaved,
    /// "Save Workspace…" couldn't complete — holds a raw (non-translatable) detail (a
    /// filesystem error, or the chosen destination already existing / overlapping the
    /// source).
    WorkspaceSaveFailed(String),
    /// A brand-new (in-memory, not yet written) collection was created inside a Workspace —
    /// names the relative file path so the user knows where the just-added request landed
    /// and that it still needs saving.
    WorkspaceCollectionCreated(String),
    /// A new report was created inside a workspace; names its path.
    WorkspaceReportCreated(String),
    /// A "New Report" destination was refused because, once links are resolved, it lies
    /// outside the workspace. Holds the path that was tried.
    WorkspaceReportEscaped(String),
    /// A new workspace file was created (graphical front-end).
    WsItemCreated(String),
    /// The destination for a new workspace file resolved outside the root.
    WsItemEscaped(String),
    /// A file of that name is already there.
    WsItemExists(String),
    /// The name typed doesn't say which of the three kinds it should be.
    WsItemUnknownKind(String),
    /// A workspace file or folder was dragged into another folder.
    WsItemMoved(String),
    /// The destination folder already holds something of that name.
    WsItemMoveExists(String),
    /// A folder was dropped on itself or one of its own descendants.
    WsItemMoveIntoItself,
    /// A workspace file or folder was renamed. Holds its new relative path.
    WsItemRenamed(String),
    /// A rename was refused because the new name is already taken.
    WsItemRenameExists(String),
    /// A workspace file or folder was deleted. Holds the relative path that was.
    WsItemDeleted(String),
    /// A delete was refused because the target resolved to the workspace root.
    WsItemDeleteRoot,
    /// The request form was submitted without a URL.
    NewRequestUrlRequired,
    /// The request form was submitted with a row whose name begins with `[`. Such a row
    /// would be written as a line that Hurl reads as a section. Holds the name.
    NewRequestBracketKey(String),
    /// The wizard was submitted with a row that has no name at all.
    NewRequestKeyEmpty,
    /// The request form was submitted with a row whose name holds a character that a row
    /// cannot carry. Holds the name and the character.
    NewRequestKeyChar(String, char),
    /// The request form was submitted with a row whose value holds a character that a row
    /// cannot carry. Holds the name of the row and the character.
    NewRequestValueChar(String, char),
    /// A request was deleted from a collection. Holds the HTTP method; comes with the hint
    /// how to restore it.
    RequestDeleted(String),
    /// A collection tab was closed. Comes with the hint how to reopen it.
    TabClosed,
    /// A Global Environment was deleted; names it, with the hint how to reopen it.
    EnvDeleted(String),
    /// A deleted Global Environment was reopened (`u`); names it.
    EnvReopened(String),
    /// A request was moved to another collection file in the workspace. Holds the HTTP
    /// method and the destination file's display name.
    RequestMoved(String, String),
    /// The selected request was moved a place up or down its collection, changing the order
    /// `Run All` follows.
    RequestMovedInList,
    /// `Alt+↑`/`Alt+↓` was pressed while the Requests list was filtered, where a move would
    /// step over requests that aren't on screen.
    ReorderNeedsUnfilteredList,
    /// A request was copied to another collection file in the workspace.
    RequestCopied(String, String),
    /// A request was duplicated in place. Holds the HTTP method and the title the copy was
    /// given, which is never the original's.
    RequestDuplicated(String, String),
    /// Saving a collection was refused because a file field has no path, and the line
    /// written for it could not be read back. Holds the request and the field.
    SaveUnreadableEmptyFile { req: String, field: String },
    /// A theme was saved (created or updated) from the Theme editor; names it.
    ThemeSaved(String),
    /// A custom theme was deleted from the Theme editor; names it.
    ThemeDeleted(String),
    /// Save was pressed in the Theme editor with an empty name.
    ThemeNameRequired,
    /// Save was pressed in the Theme editor with a name that clashes with a built-in preset
    /// (presets can't be overwritten).
    ThemeNameReserved,
    /// Delete was pressed in the Theme editor on Automatic or a built-in preset.
    ThemeCannotDelete,
    /// The "New theme" popup was confirmed with a name already in use.
    ThemeNameTaken,
    /// An edit was attempted on a read-only preset (or Automatic) in the editor.
    ThemePresetReadonly,
    /// A raw (non-translatable) error detail, shown after a translated prefix.
    Error(String),
    /// A report run finished (synchronously): how many rows it produced and how many run-
    /// level errors were collected (0 → success).
    ReportRunDone { rows: usize, errors: usize },
    /// A report couldn't be run or exported; holds an already-translated reason (built from
    /// [`Strings`] at the call site).
    ReportRunBlocked(String),
    /// Run was pressed on a report that asks for values: the run settings were opened
    /// instead, and Run again starts the run.
    ReportRunSettingsFirst,
    /// A structural node edit was reverted with Ctrl+Z (node-editor undo).
    ReportNodeUndone(String),
    /// Ctrl+Z was pressed in the node editor with an empty undo stack.
    ReportNodeNothingToUndo(String),
    /// A settings row was opened whose picker has nothing to offer.
    ReportSettingNoChoices,
    /// The report source was re-indented.
    ReportReformatted,
    /// Reformat was asked for on a report that is already correctly indented.
    ReportAlreadyTidy,
    /// Reformat declined; holds the reason (a parse error, or the safety check that
    /// compares the re-indented AST with the original's).
    ReportReformatFailed(String),
    /// A report's results were written to a CSV file; holds its path.
    ReportExported(String),
    /// A report's last run was saved as a `.baseline` snapshot; holds its path.
    ReportBaselineSaved(String),
    /// An exported report was handed to the desktop's opener; holds its path.
    ReportOpened(String),
    /// The column picker was opened without a prior run (columns unknown).
    ReportColumnsNeedRun,
    /// The column picker was applied with nothing selected.
    ReportColumnsNoneSelected,
    /// The column picker's selection was written to the flow's `columns:`.
    ReportColumnsApplied,
    /// A report run was started.
    ReportRunning,
    /// Live streaming progress of a background report run: how many of the projected rows
    /// have completed so far. Updated as each row streams in.
    ReportRunProgress { done: usize, total: usize },
    /// A running report was stopped by the user before it finished. Completed rows are
    /// retained in the results grid; unstarted rows remain as skeleton placeholders. The
    /// user can view, save, or export the partial output.
    ReportRunStopped,
    /// The selected request was reverted to its last-saved on-disk version, discarding its
    /// in-memory edits. Holds the HTTP method for the message.
    RequestReverted(String),
    /// A whole workspace collection file was reverted to its on-disk version, discarding
    /// every in-memory edit to it. Holds the file name.
    FileReverted(String),
    /// A Global Environment's unsaved edits were discarded, restoring the last-saved values
    /// (added vars dropped, modified ones restored). Names it.
    EnvReverted(String),
    /// A revert (`Ctrl+R`) had nothing to do: the item has no on-disk version to revert to
    /// (a scratch collection / never-saved env), or no unsaved changes.
    NothingToRevert,
    /// Leftover `# [Body]` notes were taken back as the request's body.
    NotesAdopted,
    /// Leftover `# [Body]` notes were deleted, leaving the body as it was.
    NotesDiscarded,
    /// A Raw Mode edit changed only the `# [Body]` notes, so the body was derived from them
    /// rather than the file's own copy winning.
    NotesAppliedFromRaw,
    /// A collection opened, but some of it could not be read as requests. The count is how
    /// many pieces of the file are being carried as text, and the reason is the parser's
    /// own explanation of the first failure — which is the only place the user is told
    /// *why* without opening Raw Mode.
    SomeRequestsUnreadable(usize, Option<String>),
    /// The user tried to edit, in fields, a request that was never parsed.
    CannotEditUnreadable,
    /// A Raw Mode edit changed the body *and* its notes. Two edits can't be merged into one
    /// body, so the body won and the notes were kept.
    NotesKeptBodyWon,
    /// The Workspace tree's extension filter was toggled (`Ctrl+F`). `true` shows only the
    /// workspace's own file types (`.hurl/.json/.vars/.trail`); `false` shows every file.
    WorkspaceTreeFilter(bool),
}

/// What `char::escape_debug` makes of a character outside ASCII, or of one of its
/// control characters that have no letter.
pub uninterp spec fn debug_escape(c: char) -> Seq<char>;

/// Whether a character is written as it is in a literal, or by a letter.
pub open spec fn is_spelled(c: char) -> bool {
    ' ' <= c <= '~' || c == '\n' || c == '\r' || c == '\t'
}

/// A character as it is written in a literal: line breaks and the tab by their
/// letters, quotes and the backslash behind a backslash.
pub open spec fn escaped(c: char) -> Seq<char> {
    if c == '\n' {
        seq!['\\', 'n']
    } else if c == '\r' {
        seq!['\\', 'r']
    } else if c == '\t' {
        seq!['\\', 't']
    } else if c == '\\' || c == '"' || c == '\'' {
        seq!['\\', c]
    } else if is_spelled(c) {
        seq![c]
    } else {
        debug_escape(c)
    }
}

/// `char::escape_debug`. Line breaks and the tab become their letters behind a
/// backslash, quotes and the backslash are put behind one, and any other
/// printable ASCII character stays as it is.
#[verifier::external_body]
fn escape_char(c: char) -> (r: String)
    ensures
        is_spelled(c) ==> r@ == escaped(c),
        !is_spelled(c) ==> r@ == debug_escape(c),
{
    c.escape_debug().to_string()
}

/// Two texts with a space between them.
pub open spec fn beside(a: Seq<char>, b: Seq<char>) -> Seq<char> {
    a + " "@ + b
}

fn put_beside(a: &str, b: &str) -> (r: String)
    ensures
        r@ == beside(a@, b@),
{
    let mut out = a.to_owned();
    out.push_str(" ");
    out.push_str(b);
    out
}

/// Why a value could not be computed, in words.
pub open spec fn gen_text(e: GenError, lang: Language) -> Seq<char> {
    match e {
        GenError::Syntax { name, detail } => text::replaced(
            text::replaced(i18n::said(strings::GEN_ERR_SYNTAX, lang), "{row}"@, name@),
            "{detail}"@,
            detail@,
        ),
        GenError::UnknownFunction { name, function } => text::replaced(
            text::replaced(i18n::said(strings::GEN_ERR_UNKNOWN, lang), "{row}"@, name@),
            "{function}"@,
            function@,
        ),
        GenError::Arity { name, function, expected, got } => text::replaced(
            text::replaced(
                text::replaced(
                    text::replaced(i18n::said(strings::GEN_ERR_ARITY, lang), "{row}"@, name@),
                    "{function}"@,
                    function@,
                ),
                "{expected}"@,
                expected@,
            ),
            "{got}"@,
            text::decimal(got as nat),
        ),
        GenError::BadArgument { name, function, detail } => text::replaced(
            text::replaced(
                text::replaced(i18n::said(strings::GEN_ERR_ARGUMENT, lang), "{row}"@, name@),
                "{function}"@,
                function@,
            ),
            "{detail}"@,
            detail@,
        ),
        GenError::UndefinedReference { name, reference } => text::replaced(
            text::replaced(i18n::said(strings::GEN_ERR_UNDEFINED, lang), "{row}"@, name@),
            "{reference}"@,
            reference@,
        ),
        GenError::Cycle { name } => text::replaced(
            i18n::said(strings::GEN_ERR_CYCLE, lang),
            "{row}"@,
            name@,
        ),
    }
}

/// Why a value could not be computed, in words.
fn describe_gen(e: &GenError, s: &Strings) -> (r: String)
    ensures
        r@ == gen_text(*e, s.lang),
{
    match e {
        GenError::Syntax { name, detail } => text::replace(
            text::replace(s.pick(&strings::GEN_ERR_SYNTAX), "{row}", name.as_str()).as_str(),
            "{detail}",
            detail.as_str(),
        ),
        GenError::UnknownFunction { name, function } => text::replace(
            text::replace(s.pick(&strings::GEN_ERR_UNKNOWN), "{row}", name.as_str()).as_str(),
            "{function}",
            function.as_str(),
        ),
        GenError::Arity { name, function, expected, got } => text::replace(
            text::replace(
                text::replace(
                    text::replace(s.pick(&strings::GEN_ERR_ARITY), "{row}", name.as_str()).as_str(),
                    "{function}",
                    function.as_str(),
                ).as_str(),
                "{expected}",
                expected.as_str(),
            ).as_str(),
            "{got}",
            text::to_decimal(*got as u128).as_str(),
        ),
        GenError::BadArgument { name, function, detail } => text::replace(
            text::replace(
                text::replace(s.pick(&strings::GEN_ERR_ARGUMENT), "{row}", name.as_str()).as_str(),
                "{function}",
                function.as_str(),
            ).as_str(),
            "{detail}",
            detail.as_str(),
        ),
        GenError::UndefinedReference { name, reference } => text::replace(
            text::replace(s.pick(&strings::GEN_ERR_UNDEFINED), "{row}", name.as_str()).as_str(),
            "{reference}",
            reference.as_str(),
        ),
        GenError::Cycle { name } => text::replace(
            s.pick(&strings::GEN_ERR_CYCLE),
            "{row}",
            name.as_str(),
        ),
    }
}

/// Why some values could not be computed, in words.
fn describe_all(errors: &[GenError], s: &Strings) -> (r: String)
    ensures
        r@ == text::joined(errors@.map_values(|e: GenError| gen_text(e, s.lang)), "; "@),
{
    let ghost want = errors@.map_values(|e: GenError| gen_text(e, s.lang));
    let mut out: Vec<String> = Vec::new();
    for i in 0..errors.len()
        invariant
            want == errors@.map_values(|e: GenError| gen_text(e, s.lang)),
            out.len() == i,
            forall|j: int| 0 <= j < i ==> (#[trigger] out@[j])@ == want[j],
    {
        out.push(describe_gen(&errors[i], s));
    }
    assert(out.deep_view() == want);
    text::join(out.as_slice(), "; ")
}

/// What a notice says in a language.
pub open spec fn status_text(st: Status, lang: Language) -> Seq<char> {
    match st {
        Status::Saved => i18n::said(strings::FILE_SAVED, lang),
        Status::SavedFiles(n) => text::replaced(
            i18n::said(strings::GUI_SAVED_N_FILES, lang),
            "{n}"@,
            text::decimal(n as nat),
        ),
        Status::Loaded => i18n::said(strings::FILE_LOADED, lang),
        Status::Cleared => i18n::said(strings::CLEAR_ALL_DONE, lang),
        Status::NoResponse => i18n::said(strings::FILE_NO_RESPONSE, lang),
        Status::NotCollection => i18n::said(strings::FILE_NOT_COLLECTION, lang),
        Status::NotEnvironment => i18n::said(strings::FILE_NOT_ENVIRONMENT, lang),
        Status::OpenedAsCollection => i18n::said(strings::FILE_OPENED_AS_COLLECTION, lang),
        Status::OpenedAsEnvironment => i18n::said(strings::FILE_OPENED_AS_ENVIRONMENT, lang),
        Status::NotReport => i18n::said(strings::STATUS_NOT_REPORT, lang),
        Status::ReportBound(what) => beside(i18n::said(strings::REPORT_BOUND_STATUS, lang), what@),
        Status::ReportBindNoCollections => i18n::said(strings::REPORT_BIND_NO_COLLECTIONS, lang),
        Status::Copied => i18n::said(strings::COPIED_TO_CLIPBOARD, lang),
        Status::NoGitOrigin => i18n::said(strings::GIT_NO_ORIGIN, lang),
        Status::PostmanNotes => i18n::said(strings::POSTMAN_NOTES_WRITTEN, lang),
        Status::PostmanSkipped(n) => beside(
            text::decimal(n as nat),
            i18n::said(strings::POSTMAN_SKIPPED, lang),
        ),
        Status::GitSaved => i18n::said(strings::GIT_SAVE_SUCCESS, lang),
        Status::WaitingSecrets(keys) => beside(
            i18n::said(strings::ENV_WAITING_SECRETS, lang),
            text::joined(keys.deep_view(), ", "@),
        ),
        Status::UndefinedVars { keys, in_envs } => {
            if in_envs.len() == 0 {
                beside(
                    i18n::said(strings::ENV_UNDEFINED_VARS, lang),
                    text::joined(keys.deep_view(), ", "@),
                )
            } else {
                beside(
                    beside(
                        i18n::said(strings::ENV_UNDEFINED_VARS, lang),
                        text::joined(keys.deep_view(), ", "@),
                    ),
                    text::replaced(
                        i18n::said(strings::ENV_UNDEFINED_IN_LOADED_ENV, lang),
                        "{envs}"@,
                        text::joined(in_envs.deep_view(), ", "@),
                    ),
                )
            }
        },
        Status::BodyFormConflict(names) => beside(
            i18n::said(strings::BODY_FORM_CONFLICT_STATUS, lang),
            text::joined(names.deep_view(), ", "@),
        ),
        Status::TruncatedPlaceholders(items) => {
            i18n::said(strings::TRUNCATED_PLACEHOLDER_STATUS, lang) + " "@
                + text::joined(items.deep_view(), ", "@) + " — "@
                + i18n::said(strings::TRUNCATED_PLACEHOLDER_HINT, lang)
        },
        Status::GeneratorErrors(errors) => beside(
            i18n::said(strings::GEN_STATUS, lang),
            text::joined(errors@.map_values(|e: GenError| gen_text(e, lang)), "; "@),
        ),
        Status::EnvVarReloading(key) => {
            i18n::said(strings::ENV_RELOADING_VAR, lang) + " "@ + key@ + "…"@
        },
        Status::EnvActivated(what) => beside(i18n::said(strings::ENV_ACTIVATED, lang), what@),
        Status::EnvDeactivated(what) => beside(i18n::said(strings::ENV_DEACTIVATED, lang), what@),
        Status::CollectionRunSummary { passed, failed, total } => {
            i18n::said(strings::RUN_SUMMARY_PASSED, lang) + ": "@ + text::decimal(passed as nat)
                + "  "@ + i18n::said(strings::RUN_SUMMARY_FAILED, lang) + ": "@
                + text::decimal(failed as nat) + "  "@
                + i18n::said(strings::RUN_SUMMARY_TOTAL, lang) + ": "@
                + text::decimal(total as nat)
        },
        Status::RunAllStreamingCookies => i18n::said(strings::RUN_ALL_STREAMING_COOKIES, lang),
        Status::WorkspaceFolderMissing(name) => text::replaced(
            i18n::said(strings::WORKSPACE_FOLDER_MISSING, lang),
            "{name}"@,
            name@,
        ),
        Status::WorkspaceReloaded => beside(
            i18n::said(strings::WORKSPACE_RELOAD_SUCCESS, lang),
            i18n::said(strings::WORKSPACE_RELOAD_SAVE_HINT, lang),
        ),
        Status::WorkspaceReloadFailed(why) => beside(
            text::replaced(i18n::said(strings::WORKSPACE_RELOAD_FAILED, lang), "{e}"@, why@),
            i18n::said(strings::WORKSPACE_RELOAD_SAVE_HINT, lang),
        ),
        Status::NotWorkspace => i18n::said(strings::FILE_NOT_WORKSPACE, lang),
        Status::WorkspaceSaved => i18n::said(strings::WORKSPACE_SAVE_SUCCESS, lang),
        Status::WorkspaceSaveFailed(why) => text::replaced(
            i18n::said(strings::WORKSPACE_SAVE_FAILED, lang),
            "{e}"@,
            why@,
        ),
        Status::WorkspaceCollectionCreated(name) => text::replaced(
            i18n::said(strings::WORKSPACE_COLLECTION_CREATED, lang),
            "{name}"@,
            name@,
        ),
        Status::WorkspaceReportCreated(name) => text::replaced(
            i18n::said(strings::WORKSPACE_REPORT_CREATED, lang),
            "{name}"@,
            name@,
        ),
        Status::WorkspaceReportEscaped(name) => text::replaced(
            i18n::said(strings::WORKSPACE_REPORT_ESCAPED, lang),
            "{name}"@,
            name@,
        ),
        Status::WsItemCreated(name) => text::replaced(
            i18n::said(strings::WS_ITEM_CREATED, lang),
            "{name}"@,
            name@,
        ),
        Status::WsItemEscaped(name) => text::replaced(
            i18n::said(strings::WS_ITEM_ESCAPED, lang),
            "{name}"@,
            name@,
        ),
        Status::WsItemExists(name) => text::replaced(
            i18n::said(strings::WS_ITEM_EXISTS, lang),
            "{name}"@,
            name@,
        ),
        Status::WsItemUnknownKind(name) => text::replaced(
            i18n::said(strings::WS_ITEM_UNKNOWN_KIND, lang),
            "{name}"@,
            name@,
        ),
        Status::WsItemMoved(name) => text::replaced(
            i18n::said(strings::WS_ITEM_MOVED, lang),
            "{name}"@,
            name@,
        ),
        Status::WsItemMoveExists(name) => text::replaced(
            i18n::said(strings::WS_ITEM_MOVE_EXISTS, lang),
            "{name}"@,
            name@,
        ),
        Status::WsItemMoveIntoItself => i18n::said(strings::WS_ITEM_MOVE_INTO_ITSELF, lang),
        Status::WsItemRenamed(name) => text::replaced(
            i18n::said(strings::WS_ITEM_RENAMED, lang),
            "{name}"@,
            name@,
        ),
        Status::WsItemRenameExists(name) => text::replaced(
            i18n::said(strings::WS_ITEM_RENAME_EXISTS, lang),
            "{name}"@,
            name@,
        ),
        Status::WsItemDeleted(name) => text::replaced(
            i18n::said(strings::WS_ITEM_DELETED, lang),
            "{name}"@,
            name@,
        ),
        Status::WsItemDeleteRoot => i18n::said(strings::WS_ITEM_DELETE_ROOT, lang),
        Status::NewRequestUrlRequired => i18n::said(strings::NEW_REQUEST_URL_REQUIRED, lang),
        Status::NewRequestBracketKey(name) => text::replaced(
            i18n::said(strings::NEW_REQUEST_BRACKET_KEY, lang),
            "{name}"@,
            name@,
        ),
        Status::NewRequestKeyEmpty => i18n::said(strings::NEW_REQUEST_KEY_EMPTY, lang),
        Status::NewRequestKeyChar(name, c) => text::replaced(
            text::replaced(
                i18n::said(strings::NEW_REQUEST_KEY_CHAR, lang),
                "{char}"@,
                escaped(c),
            ),
            "{name}"@,
            name@,
        ),
        Status::NewRequestValueChar(name, c) => text::replaced(
            text::replaced(
                i18n::said(strings::NEW_REQUEST_VALUE_CHAR, lang),
                "{char}"@,
                escaped(c),
            ),
            "{name}"@,
            name@,
        ),
        Status::RequestDeleted(method) => text::replaced(
            i18n::said(strings::REQUEST_DELETED, lang),
            "{m}"@,
            method@,
        ),
        Status::TabClosed => i18n::said(strings::TAB_CLOSED, lang),
        Status::EnvDeleted(name) => text::replaced(
            i18n::said(strings::ENV_DELETED, lang),
            "{n}"@,
            name@,
        ),
        Status::EnvReopened(name) => text::replaced(
            i18n::said(strings::ENV_REOPENED, lang),
            "{n}"@,
            name@,
        ),
        Status::RequestMoved(method, dest) => text::replaced(
            text::replaced(i18n::said(strings::REQUEST_MOVED, lang), "{m}"@, method@),
            "{dest}"@,
            dest@,
        ),
        Status::RequestMovedInList => i18n::said(strings::REQUEST_MOVED_IN_LIST, lang),
        Status::ReorderNeedsUnfilteredList => i18n::said(
            strings::REORDER_NEEDS_UNFILTERED_LIST,
            lang,
        ),
        Status::RequestCopied(method, dest) => text::replaced(
            text::replaced(i18n::said(strings::REQUEST_COPIED, lang), "{m}"@, method@),
            "{dest}"@,
            dest@,
        ),
        Status::RequestDuplicated(method, name) => text::replaced(
            text::replaced(i18n::said(strings::REQUEST_DUPLICATED, lang), "{m}"@, method@),
            "{name}"@,
            name@,
        ),
        Status::SaveUnreadableEmptyFile { req, field } => text::replaced(
            text::replaced(
                i18n::said(strings::SAVE_UNREADABLE_EMPTY_FILE, lang),
                "{field}"@,
                field@,
            ),
            "{req}"@,
            req@,
        ),
        Status::ThemeSaved(what) => beside(i18n::said(strings::THEME_SAVED, lang), what@),
        Status::ThemeDeleted(what) => beside(i18n::said(strings::THEME_DELETED, lang), what@),
        Status::ThemeNameRequired => i18n::said(strings::THEME_NAME_REQUIRED, lang),
        Status::ThemeNameReserved => i18n::said(strings::THEME_NAME_RESERVED, lang),
        Status::ThemeCannotDelete => i18n::said(strings::THEME_CANNOT_DELETE, lang),
        Status::ThemeNameTaken => i18n::said(strings::THEME_NAME_TAKEN, lang),
        Status::ThemePresetReadonly => i18n::said(strings::THEME_PRESET_READONLY, lang),
        Status::Error(what) => beside(i18n::said(strings::FILE_ERROR_PREFIX, lang), what@),
        Status::ReportRunDone { rows, errors } => {
            if errors == 0 {
                i18n::said(strings::REPORT_RUN_COMPLETE, lang) + " "@ + text::decimal(rows as nat)
                    + " "@ + i18n::said(strings::REPORT_STATUS_ROWS, lang)
            } else {
                i18n::said(strings::REPORT_RUN_COMPLETE, lang) + " "@ + text::decimal(rows as nat)
                    + " "@ + i18n::said(strings::REPORT_STATUS_ROWS, lang) + ", "@
                    + text::decimal(errors as nat) + " "@
                    + i18n::said(strings::REPORT_STATUS_ERRORS, lang)
            }
        },
        Status::ReportRunBlocked(what) => what@,
        Status::ReportRunSettingsFirst => i18n::said(strings::PARAM_RUN_SETTINGS_FIRST, lang),
        Status::ReportNodeUndone(what) => what@,
        Status::ReportNodeNothingToUndo(what) => what@,
        Status::ReportSettingNoChoices => i18n::said(strings::REPORT_SETTING_NO_CHOICES, lang),
        Status::ReportReformatted => i18n::said(strings::REPORT_REFORMATTED, lang),
        Status::ReportAlreadyTidy => i18n::said(strings::REPORT_ALREADY_TIDY, lang),
        Status::ReportReformatFailed(what) => beside(
            i18n::said(strings::REPORT_REFORMAT_FAILED_PREFIX, lang),
            what@,
        ),
        Status::ReportExported(what) => beside(
            i18n::said(strings::REPORT_EXPORTED_PREFIX, lang),
            what@,
        ),
        Status::ReportBaselineSaved(what) => beside(
            i18n::said(strings::REPORT_BASELINE_SAVED_PREFIX, lang),
            what@,
        ),
        Status::ReportOpened(what) => beside(
            i18n::said(strings::REPORT_OPENED_PREFIX, lang),
            what@,
        ),
        Status::ReportColumnsNeedRun => i18n::said(strings::REPORT_COLUMNS_NEED_RUN, lang),
        Status::ReportColumnsNoneSelected => i18n::said(
            strings::REPORT_COLUMNS_NONE_SELECTED,
            lang,
        ),
        Status::ReportColumnsApplied => i18n::said(strings::REPORT_COLUMNS_APPLIED, lang),
        Status::ReportRunning => i18n::said(strings::REPORT_RUNNING, lang),
        Status::ReportRunProgress { done, total } => text::replaced(
            text::replaced(
                i18n::said(strings::REPORT_RUNNING_PROGRESS, lang),
                "{done}"@,
                text::decimal(done as nat),
            ),
            "{total}"@,
            text::decimal(total as nat),
        ),
        Status::ReportRunStopped => i18n::said(strings::REPORT_RUN_STOPPED, lang),
        Status::RequestReverted(method) => beside(
            method@,
            i18n::said(strings::STATUS_REQUEST_REVERTED, lang),
        ),
        Status::FileReverted(what) => beside(
            i18n::said(strings::STATUS_FILE_REVERTED, lang),
            what@,
        ),
        Status::EnvReverted(what) => beside(i18n::said(strings::STATUS_ENV_REVERTED, lang), what@),
        Status::NothingToRevert => i18n::said(strings::STATUS_NOTHING_TO_REVERT, lang),
        Status::NotesAdopted => i18n::said(strings::NOTES_ADOPTED, lang),
        Status::NotesDiscarded => i18n::said(strings::NOTES_DISCARDED, lang),
        Status::NotesAppliedFromRaw => i18n::said(strings::NOTES_APPLIED_FROM_RAW, lang),
        Status::SomeRequestsUnreadable(n, why) => {
            match why {
                None => {
                    i18n::said(strings::SOME_REQUESTS_UNREADABLE, lang) + " ("@
                        + text::decimal(n as nat) + ")"@
                },
                Some(why) => {
                    i18n::said(strings::SOME_REQUESTS_UNREADABLE, lang) + " ("@
                        + text::decimal(n as nat) + "): "@ + why@
                },
            }
        },
        Status::CannotEditUnreadable => i18n::said(strings::CANNOT_EDIT_UNREADABLE, lang),
        Status::NotesKeptBodyWon => i18n::said(strings::NOTES_KEPT_BODY_WON, lang),
        Status::WorkspaceTreeFilter(on) => {
            if on {
                i18n::said(strings::WORKSPACE_TREE_FILTER_ON, lang)
            } else {
                i18n::said(strings::WORKSPACE_TREE_FILTER_OFF, lang)
            }
        },
    }
}

/// Whether a notice is of something that went well.
pub open spec fn is_good(st: Status) -> bool {
    match st {
        Status::CollectionRunSummary { failed, .. } => failed == 0,
        Status::ReportRunDone { errors, .. } => errors == 0,
        Status::Saved
        | Status::Loaded
        | Status::OpenedAsCollection
        | Status::OpenedAsEnvironment
        | Status::Cleared
        | Status::GitSaved
        | Status::Copied
        | Status::EnvActivated(_)
        | Status::EnvDeactivated(_)
        | Status::WorkspaceReloaded
        | Status::WorkspaceSaved
        | Status::RequestMoved(_, _)
        | Status::RequestMovedInList
        | Status::ReorderNeedsUnfilteredList
        | Status::RequestCopied(_, _)
        | Status::RequestDuplicated(_, _)
        | Status::ThemeSaved(_)
        | Status::ThemeDeleted(_)
        | Status::EnvReopened(_)
        | Status::ReportExported(_)
        | Status::ReportOpened(_)
        | Status::ReportBaselineSaved(_)
        | Status::ReportColumnsApplied
        | Status::ReportBound(_)
        | Status::ReportNodeUndone(_)
        | Status::RequestReverted(_)
        | Status::FileReverted(_)
        | Status::EnvReverted(_)
        | Status::WorkspaceTreeFilter(_)
        | Status::ReportRunSettingsFirst => true,
        _ => false,
    }
}

impl Status {
    /// Whether this is a notice of something that went well.
    pub fn is_ok(&self) -> (r: bool)
        ensures
            r == is_good(*self),
    {
        match self {
            Status::CollectionRunSummary { failed, .. } => *failed == 0,
            Status::ReportRunDone { errors, .. } => *errors == 0,
            Status::Saved
            | Status::Loaded
            | Status::OpenedAsCollection
            | Status::OpenedAsEnvironment
            | Status::Cleared
            | Status::GitSaved
            | Status::Copied
            | Status::EnvActivated(_)
            | Status::EnvDeactivated(_)
            | Status::WorkspaceReloaded
            | Status::WorkspaceSaved
            | Status::RequestMoved(_, _)
            | Status::RequestMovedInList
            | Status::ReorderNeedsUnfilteredList
            | Status::RequestCopied(_, _)
            | Status::RequestDuplicated(_, _)
            | Status::ThemeSaved(_)
            | Status::ThemeDeleted(_)
            | Status::EnvReopened(_)
            | Status::ReportExported(_)
            | Status::ReportOpened(_)
            | Status::ReportBaselineSaved(_)
            | Status::ReportColumnsApplied
            | Status::ReportBound(_)
            | Status::ReportNodeUndone(_)
            | Status::RequestReverted(_)
            | Status::FileReverted(_)
            | Status::EnvReverted(_)
            | Status::WorkspaceTreeFilter(_)
            | Status::ReportRunSettingsFirst => true,
            _ => false,
        }
    }

    /// Puts the notice into the words of a language.
    pub fn text(&self, s: &Strings) -> (r: String)
        ensures
            r@ == status_text(*self, s.lang),
    {
        match self {
            Status::Saved => s.pick(&strings::FILE_SAVED).to_owned(),
            Status::SavedFiles(n) => text::replace(
                s.pick(&strings::GUI_SAVED_N_FILES),
                "{n}",
                text::to_decimal(*n as u128).as_str(),
            ),
            Status::Loaded => s.pick(&strings::FILE_LOADED).to_owned(),
            Status::Cleared => s.pick(&strings::CLEAR_ALL_DONE).to_owned(),
            Status::NoResponse => s.pick(&strings::FILE_NO_RESPONSE).to_owned(),
            Status::NotCollection => s.pick(&strings::FILE_NOT_COLLECTION).to_owned(),
            Status::NotEnvironment => s.pick(&strings::FILE_NOT_ENVIRONMENT).to_owned(),
            Status::OpenedAsCollection => s.pick(&strings::FILE_OPENED_AS_COLLECTION).to_owned(),
            Status::OpenedAsEnvironment => s.pick(&strings::FILE_OPENED_AS_ENVIRONMENT).to_owned(),
            Status::NotReport => s.pick(&strings::STATUS_NOT_REPORT).to_owned(),
            Status::ReportBound(what) => put_beside(
                s.pick(&strings::REPORT_BOUND_STATUS),
                what.as_str(),
            ),
            Status::ReportBindNoCollections => {
                s.pick(&strings::REPORT_BIND_NO_COLLECTIONS).to_owned()
            },
            Status::Copied => s.pick(&strings::COPIED_TO_CLIPBOARD).to_owned(),
            Status::NoGitOrigin => s.pick(&strings::GIT_NO_ORIGIN).to_owned(),
            Status::PostmanNotes => s.pick(&strings::POSTMAN_NOTES_WRITTEN).to_owned(),
            Status::PostmanSkipped(n) => put_beside(
                text::to_decimal(*n as u128).as_str(),
                s.pick(&strings::POSTMAN_SKIPPED),
            ),
            Status::GitSaved => s.pick(&strings::GIT_SAVE_SUCCESS).to_owned(),
            Status::WaitingSecrets(keys) => put_beside(
                s.pick(&strings::ENV_WAITING_SECRETS),
                text::join(keys.as_slice(), ", ").as_str(),
            ),
            Status::UndefinedVars { keys, in_envs } => {
                if in_envs.len() == 0 {
                    put_beside(
                        s.pick(&strings::ENV_UNDEFINED_VARS),
                        text::join(keys.as_slice(), ", ").as_str(),
                    )
                } else {
                    put_beside(
                        put_beside(
                            s.pick(&strings::ENV_UNDEFINED_VARS),
                            text::join(keys.as_slice(), ", ").as_str(),
                        ).as_str(),
                        text::replace(
                            s.pick(&strings::ENV_UNDEFINED_IN_LOADED_ENV),
                            "{envs}",
                            text::join(in_envs.as_slice(), ", ").as_str(),
                        ).as_str(),
                    )
                }
            },
            Status::BodyFormConflict(names) => put_beside(
                s.pick(&strings::BODY_FORM_CONFLICT_STATUS),
                text::join(names.as_slice(), ", ").as_str(),
            ),
            Status::TruncatedPlaceholders(items) => {
                let mut out = String::new();
                out.push_str(s.pick(&strings::TRUNCATED_PLACEHOLDER_STATUS));
                out.push_str(" ");
                out.push_str(text::join(items.as_slice(), ", ").as_str());
                out.push_str(" — ");
                out.push_str(s.pick(&strings::TRUNCATED_PLACEHOLDER_HINT));
                assert(out@ == i18n::said(strings::TRUNCATED_PLACEHOLDER_STATUS, s.lang) + " "@
                    + text::joined(items.deep_view(), ", "@) + " — "@
                    + i18n::said(strings::TRUNCATED_PLACEHOLDER_HINT, s.lang));
                out
            },
            Status::GeneratorErrors(errors) => put_beside(
                s.pick(&strings::GEN_STATUS),
                describe_all(errors.as_slice(), s).as_str(),
            ),
            Status::EnvVarReloading(key) => {
                let mut out = String::new();
                out.push_str(s.pick(&strings::ENV_RELOADING_VAR));
                out.push_str(" ");
                out.push_str(key.as_str());
                out.push_str("…");
                assert(out@ == i18n::said(strings::ENV_RELOADING_VAR, s.lang) + " "@ + key@ + "…"@);
                out
            },
            Status::EnvActivated(what) => put_beside(
                s.pick(&strings::ENV_ACTIVATED),
                what.as_str(),
            ),
            Status::EnvDeactivated(what) => put_beside(
                s.pick(&strings::ENV_DEACTIVATED),
                what.as_str(),
            ),
            Status::CollectionRunSummary { passed, failed, total } => {
                let mut out = String::new();
                out.push_str(s.pick(&strings::RUN_SUMMARY_PASSED));
                out.push_str(": ");
                out.push_str(text::to_decimal(*passed as u128).as_str());
                out.push_str("  ");
                out.push_str(s.pick(&strings::RUN_SUMMARY_FAILED));
                out.push_str(": ");
                out.push_str(text::to_decimal(*failed as u128).as_str());
                out.push_str("  ");
                out.push_str(s.pick(&strings::RUN_SUMMARY_TOTAL));
                out.push_str(": ");
                out.push_str(text::to_decimal(*total as u128).as_str());
                assert(out@ == i18n::said(strings::RUN_SUMMARY_PASSED, s.lang) + ": "@
                    + text::decimal(passed as nat) + "  "@
                    + i18n::said(strings::RUN_SUMMARY_FAILED, s.lang) + ": "@
                    + text::decimal(failed as nat) + "  "@
                    + i18n::said(strings::RUN_SUMMARY_TOTAL, s.lang) + ": "@
                    + text::decimal(total as nat));
                out
            },
            Status::RunAllStreamingCookies => {
                s.pick(&strings::RUN_ALL_STREAMING_COOKIES).to_owned()
            },
            Status::WorkspaceFolderMissing(name) => text::replace(
                s.pick(&strings::WORKSPACE_FOLDER_MISSING),
                "{name}",
                name.as_str(),
            ),
            Status::WorkspaceReloaded => put_beside(
                s.pick(&strings::WORKSPACE_RELOAD_SUCCESS),
                s.pick(&strings::WORKSPACE_RELOAD_SAVE_HINT),
            ),
            Status::WorkspaceReloadFailed(why) => put_beside(
                text::replace(
                    s.pick(&strings::WORKSPACE_RELOAD_FAILED),
                    "{e}",
                    why.as_str(),
                ).as_str(),
                s.pick(&strings::WORKSPACE_RELOAD_SAVE_HINT),
            ),
            Status::NotWorkspace => s.pick(&strings::FILE_NOT_WORKSPACE).to_owned(),
            Status::WorkspaceSaved => s.pick(&strings::WORKSPACE_SAVE_SUCCESS).to_owned(),
            Status::WorkspaceSaveFailed(why) => text::replace(
                s.pick(&strings::WORKSPACE_SAVE_FAILED),
                "{e}",
                why.as_str(),
            ),
            Status::WorkspaceCollectionCreated(name) => text::replace(
                s.pick(&strings::WORKSPACE_COLLECTION_CREATED),
                "{name}",
                name.as_str(),
            ),
            Status::WorkspaceReportCreated(name) => text::replace(
                s.pick(&strings::WORKSPACE_REPORT_CREATED),
                "{name}",
                name.as_str(),
            ),
            Status::WorkspaceReportEscaped(name) => text::replace(
                s.pick(&strings::WORKSPACE_REPORT_ESCAPED),
                "{name}",
                name.as_str(),
            ),
            Status::WsItemCreated(name) => text::replace(
                s.pick(&strings::WS_ITEM_CREATED),
                "{name}",
                name.as_str(),
            ),
            Status::WsItemEscaped(name) => text::replace(
                s.pick(&strings::WS_ITEM_ESCAPED),
                "{name}",
                name.as_str(),
            ),
            Status::WsItemExists(name) => text::replace(
                s.pick(&strings::WS_ITEM_EXISTS),
                "{name}",
                name.as_str(),
            ),
            Status::WsItemUnknownKind(name) => text::replace(
                s.pick(&strings::WS_ITEM_UNKNOWN_KIND),
                "{name}",
                name.as_str(),
            ),
            Status::WsItemMoved(name) => text::replace(
                s.pick(&strings::WS_ITEM_MOVED),
                "{name}",
                name.as_str(),
            ),
            Status::WsItemMoveExists(name) => text::replace(
                s.pick(&strings::WS_ITEM_MOVE_EXISTS),
                "{name}",
                name.as_str(),
            ),
            Status::WsItemMoveIntoItself => s.pick(&strings::WS_ITEM_MOVE_INTO_ITSELF).to_owned(),
            Status::WsItemRenamed(name) => text::replace(
                s.pick(&strings::WS_ITEM_RENAMED),
                "{name}",
                name.as_str(),
            ),
            Status::WsItemRenameExists(name) => text::replace(
                s.pick(&strings::WS_ITEM_RENAME_EXISTS),
                "{name}",
                name.as_str(),
            ),
            Status::WsItemDeleted(name) => text::replace(
                s.pick(&strings::WS_ITEM_DELETED),
                "{name}",
                name.as_str(),
            ),
            Status::WsItemDeleteRoot => s.pick(&strings::WS_ITEM_DELETE_ROOT).to_owned(),
            Status::NewRequestUrlRequired => s.pick(&strings::NEW_REQUEST_URL_REQUIRED).to_owned(),
            Status::NewRequestBracketKey(name) => text::replace(
                s.pick(&strings::NEW_REQUEST_BRACKET_KEY),
                "{name}",
                name.as_str(),
            ),
            Status::NewRequestKeyEmpty => s.pick(&strings::NEW_REQUEST_KEY_EMPTY).to_owned(),
            Status::NewRequestKeyChar(name, c) => text::replace(
                text::replace(
                    s.pick(&strings::NEW_REQUEST_KEY_CHAR),
                    "{char}",
                    escape_char(*c).as_str(),
                ).as_str(),
                "{name}",
                name.as_str(),
            ),
            Status::NewRequestValueChar(name, c) => text::replace(
                text::replace(
                    s.pick(&strings::NEW_REQUEST_VALUE_CHAR),
                    "{char}",
                    escape_char(*c).as_str(),
                ).as_str(),
                "{name}",
                name.as_str(),
            ),
            Status::RequestDeleted(method) => text::replace(
                s.pick(&strings::REQUEST_DELETED),
                "{m}",
                method.as_str(),
            ),
            Status::TabClosed => s.pick(&strings::TAB_CLOSED).to_owned(),
            Status::EnvDeleted(name) => text::replace(
                s.pick(&strings::ENV_DELETED),
                "{n}",
                name.as_str(),
            ),
            Status::EnvReopened(name) => text::replace(
                s.pick(&strings::ENV_REOPENED),
                "{n}",
                name.as_str(),
            ),
            Status::RequestMoved(method, dest) => text::replace(
                text::replace(s.pick(&strings::REQUEST_MOVED), "{m}", method.as_str()).as_str(),
                "{dest}",
                dest.as_str(),
            ),
            Status::RequestMovedInList => s.pick(&strings::REQUEST_MOVED_IN_LIST).to_owned(),
            Status::ReorderNeedsUnfilteredList => {
                s.pick(&strings::REORDER_NEEDS_UNFILTERED_LIST).to_owned()
            },
            Status::RequestCopied(method, dest) => text::replace(
                text::replace(s.pick(&strings::REQUEST_COPIED), "{m}", method.as_str()).as_str(),
                "{dest}",
                dest.as_str(),
            ),
            Status::RequestDuplicated(method, name) => text::replace(
                text::replace(
                    s.pick(&strings::REQUEST_DUPLICATED),
                    "{m}",
                    method.as_str(),
                ).as_str(),
                "{name}",
                name.as_str(),
            ),
            Status::SaveUnreadableEmptyFile { req, field } => text::replace(
                text::replace(
                    s.pick(&strings::SAVE_UNREADABLE_EMPTY_FILE),
                    "{field}",
                    field.as_str(),
                ).as_str(),
                "{req}",
                req.as_str(),
            ),
            Status::ThemeSaved(what) => put_beside(s.pick(&strings::THEME_SAVED), what.as_str()),
            Status::ThemeDeleted(what) => put_beside(
                s.pick(&strings::THEME_DELETED),
                what.as_str(),
            ),
            Status::ThemeNameRequired => s.pick(&strings::THEME_NAME_REQUIRED).to_owned(),
            Status::ThemeNameReserved => s.pick(&strings::THEME_NAME_RESERVED).to_owned(),
            Status::ThemeCannotDelete => s.pick(&strings::THEME_CANNOT_DELETE).to_owned(),
            Status::ThemeNameTaken => s.pick(&strings::THEME_NAME_TAKEN).to_owned(),
            Status::ThemePresetReadonly => s.pick(&strings::THEME_PRESET_READONLY).to_owned(),
            Status::Error(what) => put_beside(s.pick(&strings::FILE_ERROR_PREFIX), what.as_str()),
            Status::ReportRunDone { rows, errors } => {
                if *errors == 0 {
                    {
                        let mut out = String::new();
                        out.push_str(s.pick(&strings::REPORT_RUN_COMPLETE));
                        out.push_str(" ");
                        out.push_str(text::to_decimal(*rows as u128).as_str());
                        out.push_str(" ");
                        out.push_str(s.pick(&strings::REPORT_STATUS_ROWS));
                        assert(out@ == i18n::said(strings::REPORT_RUN_COMPLETE, s.lang) + " "@
                            + text::decimal(rows as nat) + " "@
                            + i18n::said(strings::REPORT_STATUS_ROWS, s.lang));
                        out
                    }
                } else {
                    {
                        let mut out = String::new();
                        out.push_str(s.pick(&strings::REPORT_RUN_COMPLETE));
                        out.push_str(" ");
                        out.push_str(text::to_decimal(*rows as u128).as_str());
                        out.push_str(" ");
                        out.push_str(s.pick(&strings::REPORT_STATUS_ROWS));
                        out.push_str(", ");
                        out.push_str(text::to_decimal(*errors as u128).as_str());
                        out.push_str(" ");
                        out.push_str(s.pick(&strings::REPORT_STATUS_ERRORS));
                        assert(out@ == i18n::said(strings::REPORT_RUN_COMPLETE, s.lang) + " "@
                            + text::decimal(rows as nat) + " "@
                            + i18n::said(strings::REPORT_STATUS_ROWS, s.lang) + ", "@
                            + text::decimal(errors as nat) + " "@
                            + i18n::said(strings::REPORT_STATUS_ERRORS, s.lang));
                        out
                    }
                }
            },
            Status::ReportRunBlocked(what) => what.clone(),
            Status::ReportRunSettingsFirst => s.pick(&strings::PARAM_RUN_SETTINGS_FIRST).to_owned(),
            Status::ReportNodeUndone(what) => what.clone(),
            Status::ReportNodeNothingToUndo(what) => what.clone(),
            Status::ReportSettingNoChoices => {
                s.pick(&strings::REPORT_SETTING_NO_CHOICES).to_owned()
            },
            Status::ReportReformatted => s.pick(&strings::REPORT_REFORMATTED).to_owned(),
            Status::ReportAlreadyTidy => s.pick(&strings::REPORT_ALREADY_TIDY).to_owned(),
            Status::ReportReformatFailed(what) => put_beside(
                s.pick(&strings::REPORT_REFORMAT_FAILED_PREFIX),
                what.as_str(),
            ),
            Status::ReportExported(what) => put_beside(
                s.pick(&strings::REPORT_EXPORTED_PREFIX),
                what.as_str(),
            ),
            Status::ReportBaselineSaved(what) => put_beside(
                s.pick(&strings::REPORT_BASELINE_SAVED_PREFIX),
                what.as_str(),
            ),
            Status::ReportOpened(what) => put_beside(
                s.pick(&strings::REPORT_OPENED_PREFIX),
                what.as_str(),
            ),
            Status::ReportColumnsNeedRun => s.pick(&strings::REPORT_COLUMNS_NEED_RUN).to_owned(),
            Status::ReportColumnsNoneSelected => {
                s.pick(&strings::REPORT_COLUMNS_NONE_SELECTED).to_owned()
            },
            Status::ReportColumnsApplied => s.pick(&strings::REPORT_COLUMNS_APPLIED).to_owned(),
            Status::ReportRunning => s.pick(&strings::REPORT_RUNNING).to_owned(),
            Status::ReportRunProgress { done, total } => text::replace(
                text::replace(
                    s.pick(&strings::REPORT_RUNNING_PROGRESS),
                    "{done}",
                    text::to_decimal(*done as u128).as_str(),
                ).as_str(),
                "{total}",
                text::to_decimal(*total as u128).as_str(),
            ),
            Status::ReportRunStopped => s.pick(&strings::REPORT_RUN_STOPPED).to_owned(),
            Status::RequestReverted(method) => put_beside(
                method.as_str(),
                s.pick(&strings::STATUS_REQUEST_REVERTED),
            ),
            Status::FileReverted(what) => put_beside(
                s.pick(&strings::STATUS_FILE_REVERTED),
                what.as_str(),
            ),
            Status::EnvReverted(what) => put_beside(
                s.pick(&strings::STATUS_ENV_REVERTED),
                what.as_str(),
            ),
            Status::NothingToRevert => s.pick(&strings::STATUS_NOTHING_TO_REVERT).to_owned(),
            Status::NotesAdopted => s.pick(&strings::NOTES_ADOPTED).to_owned(),
            Status::NotesDiscarded => s.pick(&strings::NOTES_DISCARDED).to_owned(),
            Status::NotesAppliedFromRaw => s.pick(&strings::NOTES_APPLIED_FROM_RAW).to_owned(),
            Status::SomeRequestsUnreadable(n, why) => {
                match why {
                    None => {
                        let mut out = String::new();
                        out.push_str(s.pick(&strings::SOME_REQUESTS_UNREADABLE));
                        out.push_str(" (");
                        out.push_str(text::to_decimal(*n as u128).as_str());
                        out.push_str(")");
                        assert(out@ == i18n::said(strings::SOME_REQUESTS_UNREADABLE, s.lang)
                            + " ("@ + text::decimal(n as nat) + ")"@);
                        out
                    },
                    Some(why) => {
                        let mut out = String::new();
                        out.push_str(s.pick(&strings::SOME_REQUESTS_UNREADABLE));
                        out.push_str(" (");
                        out.push_str(text::to_decimal(*n as u128).as_str());
                        out.push_str("): ");
                        out.push_str(why.as_str());
                        assert(out@ == i18n::said(strings::SOME_REQUESTS_UNREADABLE, s.lang)
                            + " ("@ + text::decimal(n as nat) + "): "@ + why@);
                        out
                    },
                }
            },
            Status::CannotEditUnreadable => s.pick(&strings::CANNOT_EDIT_UNREADABLE).to_owned(),
            Status::NotesKeptBodyWon => s.pick(&strings::NOTES_KEPT_BODY_WON).to_owned(),
            Status::WorkspaceTreeFilter(on) => {
                if *on {
                    s.pick(&strings::WORKSPACE_TREE_FILTER_ON).to_owned()
                } else {
                    s.pick(&strings::WORKSPACE_TREE_FILTER_OFF).to_owned()
                }
            },
        }
    }
}

/// A run of a collection, or of a report, is told as good where nothing in it failed, and
/// only there; and its summary tells how many passed, how many failed and how many there
/// were, in this order.
pub proof fn a_run_is_good_where_nothing_failed(
    passed: usize,
    failed: usize,
    total: usize,
    rows: usize,
    errors: usize,
    lang: Language,
)
    ensures
        is_good(Status::CollectionRunSummary { passed, failed, total }) == (failed == 0),
        is_good(Status::ReportRunDone { rows, errors }) == (errors == 0),
        status_text(Status::CollectionRunSummary { passed, failed, total }, lang) == i18n::said(
            strings::RUN_SUMMARY_PASSED,
            lang,
        ) + ": "@ + text::decimal(passed as nat) + "  "@ + i18n::said(
            strings::RUN_SUMMARY_FAILED,
            lang,
        ) + ": "@ + text::decimal(failed as nat) + "  "@ + i18n::said(
            strings::RUN_SUMMARY_TOTAL,
            lang,
        ) + ": "@ + text::decimal(total as nat),
{
}

} // verus!
