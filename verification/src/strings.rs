//! Every visible text, in each language.
//!
//! One row per text, with its English, French and Danish wording side by side,
//! so that none can be added or changed in one language alone.
use vstd::prelude::*;

verus! {

pub const APP_HEADING: [&'static str; 3] = [
    "🦀 PaperBoy",
    "🦀 PaperBoy",
    "🦀 PaperBoy",
];

pub const BASE_URL: [&'static str; 3] = [
    "Default New Request URL:",
    "URL par défaut des nouvelles requêtes\u{a0}:",
    "Standard-URL for nye anmodninger:",
];

pub const SENDING: [&'static str; 3] = [
    "Sending…",
    "Envoi en cours…",
    "Sender…",
];

pub const RESPONSE_HEADING: [&'static str; 3] = [
    "Response",
    "Réponse",
    "Svar",
];

pub const STATUS_LABEL: [&'static str; 3] = [
    "Status:",
    "Statut :",
    "Status:",
];

pub const RESPONSE_TIME_LABEL: [&'static str; 3] = [
    "Time:",
    "Durée :",
    "Tid:",
];

pub const NO_RESPONSE_YET: [&'static str; 3] = [
    "Run a request to see the response.",
    "Exécutez une requête pour voir la réponse.",
    "Kør en anmodning for at se svaret.",
];

pub const RESP_EMPTY_BODY: [&'static str; 3] = [
    "(the server returned no body)",
    "(le serveur n'a renvoyé aucun corps)",
    "(serveren returnerede ingen brødtekst)",
];

pub const RESP_SECTION_BODY: [&'static str; 3] = [
    "Body",
    "Corps",
    "Body",
];

pub const RESP_SECTION_HEADERS: [&'static str; 3] = [
    "Headers",
    "En-têtes",
    "Headere",
];

pub const RESP_NO_HEADERS: [&'static str; 3] = [
    "(the server returned no headers)",
    "(le serveur n'a renvoyé aucun en-tête)",
    "(serveren returnerede ingen headere)",
];

pub const REQ_ERROR_PREFIX: [&'static str; 3] = [
    "Request error:",
    "Erreur de requête :",
    "Anmodningsfejl:",
];

pub const OPTIONS_MENU: [&'static str; 3] = [
    "Settings",
    "Paramètres",
    "Indstillinger",
];

pub const OPTIONS_MENU_LABEL: [&'static str; 3] = [
    "(S)ettings",
    "Paramètre(s)",
    "Ind(s)tillinger",
];

pub const SETTINGS_ITEM_LANGUAGE: [&'static str; 3] = [
    "(L)anguage",
    "(L)angue",
    "(S)prog",
];

pub const SETTINGS_ITEM_THEME: [&'static str; 3] = [
    "(T)heme",
    "(T)hème",
    "(T)ema",
];

pub const SETTINGS_ITEM_PREFERENCES: [&'static str; 3] = [
    "(P)references",
    "(P)références",
    "(P)ræferencer",
];

pub const SETTINGS_ITEM_CLEAR: [&'static str; 3] = [
    "(C)lose all collections",
    "(F)ermer toutes les collections",
    "(L)uk alle samlinger",
];

pub const PREF_ITEM_CONFIRM_EXIT: [&'static str; 3] = [
    "Confirm on e(x)it",
    "Confirmer à la (s)ortie",
    "Bekræft ved (a)fslutning",
];

pub const PREF_ITEM_CONFIRM_CLEAR: [&'static str; 3] = [
    "Confirm on (c)lear",
    "Confirmer avant de (f)ermer",
    "Bekræft ved (l)ukning",
];

pub const PREF_ITEM_CONFIRM_DELETE_ENV: [&'static str; 3] = [
    "Confirm before (d)eleting an environment",
    "Confirmer avant de supprimer un (e)nvironnement",
    "Bekræft før (s)letning af et miljø",
];

pub const PREF_ITEM_CONFIRM_DELETE_REQUEST: [&'static str; 3] = [
    "Confirm before deleting a (r)equest",
    "Confirmer avant de supprimer une (r)equête",
    "Bekræft før sletning af en anmod(n)ing",
];

pub const PREF_ITEM_ALWAYS_SAVE: [&'static str; 3] = [
    "(A)lways save unsaved changes when prompted",
    "(T)oujours enregistrer les modifications non enregistrées lorsque demandé",
    "(G)em altid ugemte ændringer, når du bliver spurgt",
];

pub const PREF_ITEM_DEFAULT_VIEW: [&'static str; 3] = [
    "Default Request (V)iew",
    "(V)ue de requête par défaut",
    "Standard anmodnings(v)isning",
];

pub const PREF_ITEM_DISCARD_ON_ESC: [&'static str; 3] = [
    "(E)sc discards request edits without asking",
    "(É)chap abandonne les modifications sans demander",
    "(E)sc kasserer ændringer uden at spørge",
];

pub const PREF_ITEM_RUN_ALL_BATCH: [&'static str; 3] = [
    "Run All in (b)atch mode (chains cookies & captures)",
    "Tout exécuter en mode (b)atch (chaîne cookies et captures)",
    "Kør alle i (b)atch-tilstand (kæder cookies og optagelser)",
];

pub const LANGUAGE_LABEL: [&'static str; 3] = [
    "Language",
    "Langue",
    "Sprog",
];

pub const LANG_ENGLISH: [&'static str; 3] = [
    "English",
    "English",
    "English",
];

pub const LANG_FRENCH: [&'static str; 3] = [
    "Français",
    "Français",
    "Français",
];

pub const LANG_DANISH: [&'static str; 3] = [
    "Dansk",
    "Dansk",
    "Dansk",
];

pub const THEME_EDITOR_TITLE: [&'static str; 3] = [
    "Theme",
    "Thème",
    "Tema",
];

pub const THEME_AUTO: [&'static str; 3] = [
    "Automatic (match language)",
    "Automatique (selon la langue)",
    "Automatisk (efter sprog)",
];

pub const THEME_NAME_LABEL: [&'static str; 3] = [
    "Name",
    "Nom",
    "Navn",
];

pub const THEME_EDITOR_HINT: [&'static str; 3] = [
    "^N new · ^D delete · Esc close",
    "^N nouveau · ^D supprimer · Échap fermer",
    "^N nyt · ^D slet · Esc luk",
];

pub const THEME_FIELDS_HINT: [&'static str; 3] = [
    "Enter edit colour · Tab list · Esc close",
    "Entrée modifier la couleur · Tab liste · Échap fermer",
    "Enter rediger farve · Tab liste · Esc luk",
];

pub const THEME_C_BG: [&'static str; 3] = [
    "Background",
    "Arrière-plan",
    "Baggrund",
];

pub const THEME_C_PANEL: [&'static str; 3] = [
    "Panel",
    "Panneau",
    "Panel",
];

pub const THEME_C_TEXT: [&'static str; 3] = [
    "Text",
    "Texte",
    "Tekst",
];

pub const THEME_C_DIM: [&'static str; 3] = [
    "Dim text",
    "Texte atténué",
    "Dæmpet tekst",
];

pub const THEME_C_ACCENT: [&'static str; 3] = [
    "Accent",
    "Accent",
    "Accent",
];

pub const THEME_C_OK: [&'static str; 3] = [
    "Success",
    "Succès",
    "Succes",
];

pub const THEME_C_ERR: [&'static str; 3] = [
    "Error",
    "Erreur",
    "Fejl",
];

pub const THEME_C_SUBST: [&'static str; 3] = [
    "Substitution",
    "Substitution",
    "Substitution",
];

pub const THEME_C_PENDING: [&'static str; 3] = [
    "Pending",
    "En attente",
    "Afventer",
];

pub const THEME_C_COMPUTED: [&'static str; 3] = [
    "Computed",
    "Calculé",
    "Beregnet",
];

pub const THEME_C_SELECT_BG: [&'static str; 3] = [
    "Selection bg",
    "Sélection fond",
    "Markering bg",
];

pub const THEME_C_SELECT_FG: [&'static str; 3] = [
    "Selection text",
    "Sélection texte",
    "Markering tekst",
];

pub const THEME_C_FIELD: [&'static str; 3] = [
    "Field background",
    "Fond des champs",
    "Feltbaggrund",
];

pub const THEME_C_RAISED: [&'static str; 3] = [
    "Raised surface",
    "Surface en relief",
    "Hævet overflade",
];

pub const THEME_C_SUNKEN: [&'static str; 3] = [
    "Recessed surface",
    "Surface en creux",
    "Sænket overflade",
];

pub const THEME_C_LINE: [&'static str; 3] = [
    "Borders and separators",
    "Bordures et séparateurs",
    "Kanter og adskillere",
];

pub const THEME_SAVED: [&'static str; 3] = [
    "Theme saved:",
    "Thème enregistré\u{a0}:",
    "Tema gemt:",
];

pub const THEME_DELETED: [&'static str; 3] = [
    "Theme deleted:",
    "Thème supprimé\u{a0}:",
    "Tema slettet:",
];

pub const THEME_NAME_REQUIRED: [&'static str; 3] = [
    "Give the theme a name before saving",
    "Donnez un nom au thème avant d'enregistrer",
    "Giv temaet et navn før du gemmer",
];

pub const THEME_NAME_RESERVED: [&'static str; 3] = [
    "That name belongs to a built-in preset; choose another",
    "Ce nom appartient à un préréglage intégré\u{a0}; choisissez-en un autre",
    "Det navn tilhører en indbygget forudindstilling; vælg et andet",
];

pub const THEME_CANNOT_DELETE: [&'static str; 3] = [
    "Built-in presets can't be deleted",
    "Les préréglages intégrés ne peuvent pas être supprimés",
    "Indbyggede forudindstillinger kan ikke slettes",
];

pub const THEME_NAME_TAKEN: [&'static str; 3] = [
    "A theme with that name already exists",
    "Un thème portant ce nom existe déjà",
    "Der findes allerede et tema med det navn",
];

pub const THEME_PRESET_READONLY: [&'static str; 3] = [
    "Presets can't be edited — press ^N to make a copy",
    "Les préréglages ne peuvent pas être modifiés — appuyez sur ^N pour en faire une copie",
    "Forudindstillinger kan ikke redigeres — tryk på ^N for at lave en kopi",
];

pub const THEME_NEW_TITLE: [&'static str; 3] = [
    "New theme",
    "Nouveau thème",
    "Nyt tema",
];

pub const THEME_NEW_BASE: [&'static str; 3] = [
    "Base on",
    "Basé sur",
    "Baseret på",
];

pub const THEME_NEW_POPUP_HINT: [&'static str; 3] = [
    "Enter create · Esc cancel",
    "Entrée créer · Échap annuler",
    "Enter opret · Esc annuller",
];

pub const THEME_CH_RED: [&'static str; 3] = [
    "R",
    "R",
    "R",
];

pub const THEME_CH_GREEN: [&'static str; 3] = [
    "G",
    "G",
    "G",
];

pub const THEME_CH_BLUE: [&'static str; 3] = [
    "B",
    "B",
    "B",
];

pub const THEME_COLOR_POPUP_HINT: [&'static str; 3] = [
    "←/→ ±1 · ^←/^→ or PgUp/Dn ±16 · type 0-255 · ↑/↓ channel · Enter apply · Esc cancel",
    "←/→ ±1 · ^←/^→ ou PgPréc/Suiv ±16 · saisir 0-255 · ↑/↓ canal · Entrée appliquer · Échap annuler",
    "←/→ ±1 · ^←/^→ eller PgUp/Ned ±16 · indtast 0-255 · ↑/↓ kanal · Enter anvend · Esc annuller",
];

pub const CLEAR_ALL_DONE: [&'static str; 3] = [
    "All collections closed",
    "Toutes les collections ont été fermées",
    "Alle samlinger er lukket",
];

pub const COPIED_TO_CLIPBOARD: [&'static str; 3] = [
    "Copied to clipboard",
    "Copié dans le presse-papiers",
    "Kopieret til udklipsholder",
];

pub const PREFERENCES_MENU: [&'static str; 3] = [
    "Preferences",
    "Préférences",
    "Præferencer",
];

pub const CONFIRM_EXIT_SECRETS: [&'static str; 3] = [
    "There are environment secrets with unsaved changes, exiting will cause these changes to be lost.",
    "Il y a des secrets d'environnement avec des modifications non enregistrées, quitter entraînera la perte de ces modifications.",
    "Der er miljøhemmeligheder med ikke-gemte ændringer. Hvis du afslutter, vil disse ændringer gå tabt.",
];

pub const CONFIRM_EXIT_EDITS: [&'static str; 3] = [
    "{n} request(s) have edits that have not been saved; exiting will cause these changes to be lost.",
    "{n} requête(s) ont des modifications non enregistrées\u{a0}; quitter entraînera la perte de ces modifications.",
    "{n} anmodning(er) har ændringer, der ikke er gemt; hvis du afslutter, vil disse ændringer gå tabt.",
];

pub const GUI_UNSAVED_QUIT_TITLE: [&'static str; 3] = [
    "Unsaved changes",
    "Modifications non enregistrées",
    "Ikke-gemte ændringer",
];

pub const GUI_UNSAVED_QUIT_Q: [&'static str; 3] = [
    "{n} request(s) in {t} have edits that have not been saved. Quitting now will lose them.",
    "{n} requête(s) dans {t} ont des modifications non enregistrées. Quitter maintenant les perdra.",
    "{n} anmodning(er) i {t} har ændringer, der ikke er gemt. Hvis du afslutter nu, går de tabt.",
];

pub const GUI_UNSAVED_CLOSE_TAB_Q: [&'static str; 3] = [
    "{n} request(s) in \"{t}\" have edits that have not been saved. Closing this tab will lose them.",
    "{n} requête(s) dans «\u{a0}{t}\u{a0}» ont des modifications non enregistrées. Fermer cet onglet les perdra.",
    "{n} anmodning(er) i \"{t}\" har ændringer, der ikke er gemt. Hvis du lukker denne fane, går de tabt.",
];

pub const GUI_QUIT_ANYWAY: [&'static str; 3] = [
    "Quit anyway",
    "Quitter quand même",
    "Afslut alligevel",
];

pub const GUI_SAVE_ALL_AND_QUIT: [&'static str; 3] = [
    "Save all changes",
    "Tout enregistrer",
    "Gem alle ændringer",
];

pub const GUI_SAVED_N_FILES: [&'static str; 3] = [
    "Saved {n} file(s)",
    "{n} fichier(s) enregistré(s)",
    "Gemte {n} fil(er)",
];

pub const GUI_CLOSE_ANYWAY: [&'static str; 3] = [
    "Close anyway",
    "Fermer quand même",
    "Luk alligevel",
];

pub const DEFAULT_REQUEST_VIEW_LABEL: [&'static str; 3] = [
    "Default Request View",
    "Vue de requête par défaut",
    "Standard anmodningsvisning",
];

pub const VIEW_JSON_LABEL: [&'static str; 3] = [
    "JSON",
    "JSON",
    "JSON",
];

pub const VIEW_HURL_LABEL: [&'static str; 3] = [
    "Hurl",
    "Hurl",
    "Hurl",
];

pub const CONFIRM_EXIT_Q: [&'static str; 3] = [
    "Quit PaperBoy?",
    "Quitter PaperBoy\u{a0}?",
    "Afslut PaperBoy?",
];

pub const CONFIRM_CLEAR_Q: [&'static str; 3] = [
    "Close all collections? This removes all tabs and requests.",
    "Fermer toutes les collections\u{a0}? Cela supprime tous les onglets et requêtes.",
    "Luk alle samlinger? Dette fjerner alle faner og anmodninger.",
];

pub const CONFIRM_OVERWRITE_Q: [&'static str; 3] = [
    "\"{f}\" already exists. Overwrite it?",
    "«\u{a0}{f}\u{a0}» existe déjà. L'écraser\u{a0}?",
    "«{f}» findes allerede. Overskriv den?",
];

pub const CONFIRM_REVERT_REQUEST_Q: [&'static str; 3] = [
    "Revert \"{r}\" to its last saved version? In-memory edits will be discarded.",
    "Rétablir «\u{a0}{r}\u{a0}» à sa dernière version enregistrée\u{a0}? Les modifications en mémoire seront perdues.",
    "Gendan «{r}» til sidst gemte version? Ændringer i hukommelsen går tabt.",
];

pub const CONFIRM_REVERT_FILE_Q: [&'static str; 3] = [
    "Revert \"{f}\" to its last saved version? Every unsaved edit to it will be discarded.",
    "Rétablir «\u{a0}{f}\u{a0}» à sa dernière version enregistrée\u{a0}? Toutes les modifications non enregistrées seront perdues.",
    "Gendan «{f}» til sidst gemte version? Alle ikke-gemte ændringer går tabt.",
];

pub const CONFIRM_REVERT_ENV_Q: [&'static str; 3] = [
    "Revert {n} change(s) in \"{e}\" to the last saved values?",
    "Rétablir {n} modification(s) dans «\u{a0}{e}\u{a0}» aux dernières valeurs enregistrées\u{a0}?",
    "Gendan {n} ændring(er) i «{e}» til de sidst gemte værdier?",
];

pub const CONFIRM_RERUN_REPORT_Q: [&'static str; 3] = [
    "This will replace the current results, which you haven't exported. Rerun anyway?",
    "Cela remplacera les résultats actuels, que vous n'avez pas exportés. Relancer quand même\u{a0}?",
    "Dette erstatter de nuværende resultater, som du ikke har eksporteret. Kør igen alligevel?",
];

pub const WIZARD_DISCARD_Q: [&'static str; 3] = [
    "This request has unsaved changes. Save them before closing?",
    "Cette requête comporte des modifications non enregistrées. Les enregistrer avant de fermer\u{a0}?",
    "Denne forespørgsel har ugemte ændringer. Vil du gemme dem, før du lukker?",
];

pub const WIZARD_DISCARD_SAVE: [&'static str; 3] = [
    "Save",
    "Enregistrer",
    "Gem",
];

pub const WIZARD_DISCARD_DISCARD: [&'static str; 3] = [
    "Discard",
    "Abandonner",
    "Kassér",
];

pub const WIZARD_DISCARD_CANCEL: [&'static str; 3] = [
    "Keep editing",
    "Continuer l'édition",
    "Bliv ved med at redigere",
];

pub const CONFIRM_YES: [&'static str; 3] = [
    "Yes",
    "Oui",
    "Ja",
];

pub const CONFIRM_NO: [&'static str; 3] = [
    "No",
    "Non",
    "Nej",
];

pub const FILE_MENU: [&'static str; 3] = [
    "File",
    "Fichier",
    "Fil",
];

pub const FILE_MENU_LABEL: [&'static str; 3] = [
    "(F)ile",
    "(F)ichier",
    "(F)il",
];

pub const FILE_MENU_ITEM_LOAD: [&'static str; 3] = [
    "(L)oad",
    "(C)harger",
    "(I)ndlæs",
];

pub const FILE_MENU_ITEM_SAVE: [&'static str; 3] = [
    "(S)ave",
    "(E)nregistrer",
    "(G)em",
];

pub const FILE_MENU_ITEM_IMPORT: [&'static str; 3] = [
    "(I)mport",
    "(I)mporter",
    "Im(p)ortér",
];

pub const FILE_LOAD_MENU: [&'static str; 3] = [
    "Load",
    "Charger",
    "Indlæs",
];

pub const FILE_SAVE_MENU: [&'static str; 3] = [
    "Save",
    "Enregistrer",
    "Gem",
];

pub const FILE_IMPORT_MENU: [&'static str; 3] = [
    "Import from Postman",
    "Importer depuis Postman",
    "Importér fra Postman",
];

pub const FILE_IMPORT_ITEM_FILE: [&'static str; 3] = [
    "(E)xported file…",
    "Fichier (e)xporté…",
    "(E)ksporteret fil…",
];

pub const FILE_IMPORT_ITEM_ACCOUNT: [&'static str; 3] = [
    "Postman (a)ccount…",
    "Compte Post(m)an…",
    "Postman-k(o)nto…",
];

pub const FILE_KIND_COLLECTION: [&'static str; 3] = [
    "Collection",
    "Collection",
    "Samling",
];

pub const FILE_KIND_ENVIRONMENT: [&'static str; 3] = [
    "Environment",
    "Environnement",
    "Miljø",
];

pub const FILE_KIND_WORKSPACE: [&'static str; 3] = [
    "Workspace",
    "Workspace",
    "Workspace",
];

pub const FILE_KIND_REPORT: [&'static str; 3] = [
    "Report",
    "Rapport",
    "Rapport",
];

pub const FILE_SOURCE_LOCAL: [&'static str; 3] = [
    "(L)ocal file…",
    "Fichier (l)ocal…",
    "(L)okal fil…",
];

pub const FILE_SOURCE_GIT: [&'static str; 3] = [
    "From (G)it…",
    "Depuis (G)it…",
    "Fra (G)it…",
];

pub const FILE_SOURCE_POSTMAN: [&'static str; 3] = [
    "From a (P)ostman account…",
    "Depuis un compte (P)ostman…",
    "Fra en (P)ostman-konto…",
];

pub const FILE_DEST_SAVE: [&'static str; 3] = [
    "(S)ave",
    "(E)nregistrer",
    "(G)em",
];

pub const FILE_DEST_SAVE_AS: [&'static str; 3] = [
    "Save (A)s…",
    "Enregistrer s(o)us…",
    "Gem s(o)m…",
];

pub const FILE_DEST_GIT: [&'static str; 3] = [
    "To (G)it…",
    "Vers (G)it…",
    "Til Gi(t)…",
];

pub const FILE_LOAD_ITEM_REQUEST: [&'static str; 3] = [
    "(R)equest…",
    "(R)equête…",
    "(A)nmodning…",
];

pub const FILE_LOAD_ITEM_COLLECTION: [&'static str; 3] = [
    "(C)ollection…",
    "(C)ollection…",
    "(S)amling…",
];

pub const FILE_LOAD_ITEM_ENVIRONMENT: [&'static str; 3] = [
    "(E)nvironment…",
    "(E)nvironnement…",
    "(M)iljø…",
];

pub const FILE_LOAD_ITEM_WORKSPACE: [&'static str; 3] = [
    "(W)orkspace…",
    "(W)orkspace…",
    "(W)orkspace…",
];

pub const FILE_LOAD_ITEM_REPORT: [&'static str; 3] = [
    "Repor(t)…",
    "Rappor(t)…",
    "Rappor(t)…",
];

pub const FILE_SAVE_ITEM_REQUEST: [&'static str; 3] = [
    "(R)equest…",
    "(R)equête…",
    "(A)nmodning…",
];

pub const FILE_SAVE_ITEM_COLLECTION: [&'static str; 3] = [
    "(C)ollection…",
    "(C)ollection…",
    "(S)amling…",
];

pub const FILE_SAVE_ITEM_ENVIRONMENT: [&'static str; 3] = [
    "(E)nvironment…",
    "(E)nvironnement…",
    "(M)iljø…",
];

pub const FILE_SAVE_ITEM_WORKSPACE: [&'static str; 3] = [
    "(W)orkspace…",
    "(W)orkspace…",
    "(W)orkspace…",
];

pub const FILE_SAVE_ITEM_REPORT: [&'static str; 3] = [
    "Repor(t)…",
    "Rappor(t)…",
    "Rappor(t)…",
];

pub const FILE_SAVE_ITEM_RESPONSE: [&'static str; 3] = [
    "Res(p)onse…",
    "Ré(p)onse…",
    "S(v)ar…",
];

pub const SAVE_REQUEST: [&'static str; 3] = [
    "Save Request…",
    "Enregistrer la requête…",
    "Gem anmodning…",
];

pub const LOAD_REQUEST: [&'static str; 3] = [
    "Load Request…",
    "Charger une requête…",
    "Indlæs anmodning…",
];

pub const OPEN_COLLECTION: [&'static str; 3] = [
    "Load Collection…",
    "Charger une collection…",
    "Indlæs samling…",
];

pub const OPEN_REPORT: [&'static str; 3] = [
    "Load Report…",
    "Charger un rapport…",
    "Indlæs rapport…",
];

pub const SAVE_REPORT_FOLDER: [&'static str; 3] = [
    "Save Report — Choose Destination Folder",
    "Enregistrer le rapport — Choisir le dossier de destination",
    "Gem rapport — Vælg destinationsmappe",
];

pub const NEW_REPORT_FOLDER: [&'static str; 3] = [
    "New Report — Choose Destination Folder",
    "Nouveau rapport — Choisir le dossier de destination",
    "Ny rapport — Vælg destinationsmappe",
];

pub const SAVE_ENVIRONMENT: [&'static str; 3] = [
    "Save Environment…",
    "Enregistrer l'environnement…",
    "Gem miljø…",
];

pub const SAVE_RESPONSE: [&'static str; 3] = [
    "Save Response…",
    "Enregistrer la réponse…",
    "Gem svar…",
];

pub const FILE_SAVED: [&'static str; 3] = [
    "Saved.",
    "Enregistré.",
    "Gemt.",
];

pub const FILE_LOADED: [&'static str; 3] = [
    "Loaded.",
    "Chargé.",
    "Indlæst.",
];

pub const FILE_NO_RESPONSE: [&'static str; 3] = [
    "No response to save.",
    "Aucune réponse à enregistrer.",
    "Intet svar at gemme.",
];

pub const FILE_ERROR_PREFIX: [&'static str; 3] = [
    "Error:",
    "Erreur :",
    "Fejl:",
];

pub const FILE_NOT_COLLECTION: [&'static str; 3] = [
    "Not a valid collection file (no requests found).",
    "Fichier de collection invalide (aucune requête trouvée).",
    "Ikke en gyldig samlingsfil (ingen anmodninger fundet).",
];

pub const FILE_NOT_COLLECTION_PREFIX: [&'static str; 3] = [
    "Not a valid collection file —",
    "Fichier de collection invalide —",
    "Ikke en gyldig samlingsfil —",
];

pub const SAVE_UNREADABLE_EMPTY_FILE: [&'static str; 3] = [
    "Won't save — the multipart file field '{field}' in '{req}' has no file path, which PaperBoy couldn't read back. Pick a file or remove the field.",
    "Enregistrement refusé — le champ fichier multipart « {field} » dans « {req} » n'a pas de chemin, que PaperBoy ne pourrait pas relire. Choisissez un fichier ou supprimez le champ.",
    "Gemmer ikke — multipart-filfeltet '{field}' i '{req}' har ingen filsti, som PaperBoy ikke kunne læse igen. Vælg en fil, eller fjern feltet.",
];

pub const FILE_NOT_ENVIRONMENT: [&'static str; 3] = [
    "Not a valid environment file (expected KEY=value lines).",
    "Fichier d'environnement invalide (lignes CLÉ=valeur attendues).",
    "Ikke en gyldig miljøfil (forventede NØGLE=værdi-linjer).",
];

pub const FILE_OPENED_AS_COLLECTION: [&'static str; 3] = [
    "That file is a Postman collection, so it opened as one.",
    "Ce fichier est une collection Postman, il a donc été ouvert comme telle.",
    "Filen er en Postman-samling, så den blev åbnet som en samling.",
];

pub const FILE_OPENED_AS_ENVIRONMENT: [&'static str; 3] = [
    "That file is a Postman environment, so it loaded as one.",
    "Ce fichier est un environnement Postman, il a donc été chargé comme tel.",
    "Filen er et Postman-miljø, så det blev indlæst som et miljø.",
];

pub const OPEN_WORKSPACE: [&'static str; 3] = [
    "Choose Workspace Folder…",
    "Choisir le dossier Workspace…",
    "Vælg Workspace-mappe…",
];

pub const BROWSER_HINT_WORKSPACE: [&'static str; 3] = [
    "Enter open folder · Space choose as Workspace · ← parent · type to filter · ^r reset · Esc cancel",
    "Entrée ouvrir dossier · Espace choisir comme Workspace · ← dossier parent · taper pour filtrer · ^r réinitialiser · Échap annuler",
    "Enter åbn mappe · Mellemrum vælg som Workspace · ← overordnet · skriv for at filtrere · ^r nulstil · Esc annuller",
];

pub const WORKSPACE_EMPTY_STATE: [&'static str; 3] = [
    "No collection — press w.",
    "Aucune collection — appuyez sur w.",
    "Ingen samling — tryk w.",
];

pub const FOOT_WORKSPACE: [&'static str; 3] = [
    "browse workspace",
    "parcourir workspace",
    "gennemse workspace",
];

pub const WORKSPACE_PICKER_TITLE: [&'static str; 3] = [
    "Workspace",
    "Workspace",
    "Workspace",
];

pub const WORKSPACE_PICKER_HINT: [&'static str; 3] = [
    "Enter open · n new collection · R new report · Tab filter · Esc cancel",
    "Entrée ouvrir · n nouvelle collection · R nouveau rapport · Tab filtre · Échap annuler",
    "Enter åbn · n ny samling · R ny rapport · Tab filter · Esc annuller",
];

pub const WORKSPACE_PICKER_HINT_ADD: [&'static str; 3] = [
    "Enter add request here · n new collection · Tab toggle filter · Esc cancel",
    "Entrée ajouter la requête ici · n nouvelle collection · Tab basculer filtre · Échap annuler",
    "Enter tilføj forespørgsel her · n ny samling · Tab skift filter · Esc annuller",
];

pub const WORKSPACE_PICKER_HINT_MOVE: [&'static str; 3] = [
    "Enter move request here · Tab toggle filter · Esc cancel",
    "Entrée déplacer la requête ici · Tab basculer filtre · Échap annuler",
    "Enter flyt forespørgsel her · Tab skift filter · Esc annuller",
];

pub const WORKSPACE_PICKER_HINT_COPY: [&'static str; 3] = [
    "Enter copy request here · Tab toggle filter · Esc cancel",
    "Entrée copier la requête ici · Tab basculer filtre · Échap annuler",
    "Enter kopiér forespørgsel her · Tab skift filter · Esc annuller",
];

pub const REQUEST_DELETED: [&'static str; 3] = [
    "{m} request deleted. Press (u) to restore request.",
    "Requête {m} supprimée. Appuyez sur (u) pour la restaurer.",
    "{m}-forespørgsel slettet. Tryk (u) for at gendanne.",
];

pub const TAB_CLOSED: [&'static str; 3] = [
    "Collection closed. Press (u) to reopen tab.",
    "Collection fermée. Appuyez sur (u) pour rouvrir l'onglet.",
    "Samling lukket. Tryk (u) for at genåbne fanen.",
];

pub const ENV_DELETED: [&'static str; 3] = [
    "Environment '{n}' deleted. Press (u) to reopen environment.",
    "Environnement «\u{a0}{n}\u{a0}» supprimé. Appuyez sur (u) pour le rouvrir.",
    "Miljøet '{n}' slettet. Tryk (u) for at genåbne miljøet.",
];

pub const ENV_REOPENED: [&'static str; 3] = [
    "Environment '{n}' reopened.",
    "Environnement «\u{a0}{n}\u{a0}» rouvert.",
    "Miljøet '{n}' genåbnet.",
];

pub const REQUEST_MOVED: [&'static str; 3] = [
    "{m} request moved to {dest}.",
    "Requête {m} déplacée vers {dest}.",
    "{m}-forespørgsel flyttet til {dest}.",
];

pub const REQUEST_COPIED: [&'static str; 3] = [
    "{m} request copied to {dest}.",
    "Requête {m} copiée vers {dest}.",
    "{m}-forespørgsel kopieret til {dest}.",
];

pub const REQUEST_MOVED_IN_LIST: [&'static str; 3] = [
    "Request moved — this is the order Run All follows.",
    "Requête déplacée — c'est l'ordre suivi par Tout exécuter.",
    "Forespørgsel flyttet — det er den rækkefølge Kør alle følger.",
];

pub const REORDER_NEEDS_UNFILTERED_LIST: [&'static str; 3] = [
    "Clear the filter (Esc) to reorder — a filtered list hides what the request would move past.",
    "Effacez le filtre (Échap) pour réordonner — une liste filtrée masque ce que la requête dépasserait.",
    "Ryd filteret (Esc) for at omarrangere — en filtreret liste skjuler det, forespørgslen ville flytte forbi.",
];

pub const REQUEST_DUPLICATED: [&'static str; 3] = [
    "{m} request duplicated as '{name}'.",
    "Requête {m} dupliquée sous « {name} ».",
    "{m}-forespørgsel duplikeret som '{name}'.",
];

pub const WORKSPACE_NEW_COLLECTION_TITLE: [&'static str; 3] = [
    "New collection (path relative to workspace)",
    "Nouvelle collection (chemin relatif au workspace)",
    "Ny samling (sti relativ til workspace)",
];

pub const WORKSPACE_COLLECTION_CREATED: [&'static str; 3] = [
    "New collection '{name}' created — Ctrl+S to save.",
    "Nouvelle collection « {name} » créée — Ctrl+S pour enregistrer.",
    "Ny samling '{name}' oprettet — Ctrl+S for at gemme.",
];

pub const WORKSPACE_REPORT_CREATED: [&'static str; 3] = [
    "New report '{name}' created.",
    "Nouveau rapport « {name} » créé.",
    "Ny rapport '{name}' oprettet.",
];

pub const WS_ITEM_MOVED: [&'static str; 3] = [
    "Moved '{name}'.",
    "« {name} » déplacé.",
    "'{name}' flyttet.",
];

pub const WS_ITEM_MOVE_EXISTS: [&'static str; 3] = [
    "There is already a '{name}' there — nothing moved.",
    "Il y a déjà un « {name } » à cet endroit — rien n'a été déplacé.",
    "Der er allerede en '{name}' der — intet flyttet.",
];

pub const WS_ITEM_MOVE_INTO_ITSELF: [&'static str; 3] = [
    "A folder can't be moved inside itself.",
    "Un dossier ne peut pas être déplacé dans lui-même.",
    "En mappe kan ikke flyttes ind i sig selv.",
];

pub const WORKSPACE_NEW_ITEM_TITLE: [&'static str; 3] = [
    "New file (.hurl, .trail or .vars)",
    "Nouveau fichier (.hurl, .trail ou .vars)",
    "Ny fil (.hurl, .trail eller .vars)",
];

pub const WS_ITEM_UNKNOWN_KIND: [&'static str; 3] = [
    "'{name}' isn't a collection, report or environment — use .hurl, .trail or .vars.",
    "« {name} » n'est ni une collection, ni un rapport, ni un environnement — utilisez .hurl, .trail ou .vars.",
    "'{name}' er hverken en samling, rapport eller et miljø — brug .hurl, .trail eller .vars.",
];

pub const WS_ITEM_CREATED: [&'static str; 3] = [
    "Created '{name}'.",
    "« {name} » créé.",
    "'{name}' oprettet.",
];

pub const WS_ITEM_ESCAPED: [&'static str; 3] = [
    "Destination '{name}' resolves outside the workspace — nothing created.",
    "La destination « {name} » pointe hors de l'espace de travail — rien n'a été créé.",
    "Destinationen '{name}' peger uden for arbejdsområdet — intet oprettet.",
];

pub const WS_ITEM_EXISTS: [&'static str; 3] = [
    "'{name}' already exists — nothing created.",
    "« {name} » existe déjà — rien n'a été créé.",
    "'{name}' findes allerede — intet oprettet.",
];

pub const WORKSPACE_REPORT_ESCAPED: [&'static str; 3] = [
    "Destination '{name}' resolves outside the workspace — report not created.",
    "La destination « {name} » pointe hors du workspace — rapport non créé.",
    "Destinationen '{name}' peger uden for workspacet — rapport ikke oprettet.",
];

pub const NEW_REQUEST_URL_REQUIRED: [&'static str; 3] = [
    "Can't save: the request needs a URL.",
    "Impossible d'enregistrer : la requête nécessite une URL.",
    "Kan ikke gemme: forespørgslen kræver en URL.",
];

pub const NEW_REQUEST_BRACKET_KEY: [&'static str; 3] = [
    "Can't save: a name can't start with '[' (Hurl would read it as a section) — rename '{name}'.",
    "Impossible d'enregistrer : un nom ne peut pas commencer par « [ » (Hurl y verrait une section) — renommez « {name} ».",
    "Kan ikke gemme: et navn må ikke starte med '[' (Hurl ville læse det som en sektion) — omdøb '{name}'.",
];

pub const NEW_REQUEST_KEY_EMPTY: [&'static str; 3] = [
    "Can't save: a row needs a name.",
    "Impossible d'enregistrer : une ligne doit avoir un nom.",
    "Kan ikke gemme: en række skal have et navn.",
];

pub const NEW_REQUEST_KEY_CHAR: [&'static str; 3] = [
    "Can't save: Hurl can't carry '{char}' in a name — rename '{name}'.",
    "Impossible d'enregistrer : Hurl ne peut pas contenir « {char} » dans un nom — renommez « {name} ».",
    "Kan ikke gemme: Hurl kan ikke bære '{char}' i et navn — omdøb '{name}'.",
];

pub const NEW_REQUEST_VALUE_CHAR: [&'static str; 3] = [
    "Can't save: the value of '{name}' contains '{char}', which Hurl can't carry on a row.",
    "Impossible d'enregistrer : la valeur de « {name} » contient « {char} », que Hurl ne peut pas porter sur une ligne.",
    "Kan ikke gemme: værdien af '{name}' indeholder '{char}', som Hurl ikke kan bære på en række.",
];

pub const WORKSPACE_FILTER_ON: [&'static str; 3] = [
    "Filter: .hurl/.json/.vars/.trail",
    "Filtre : .hurl/.json/.vars/.trail",
    "Filter: .hurl/.json/.vars/.trail",
];

pub const WORKSPACE_FILTER_OFF: [&'static str; 3] = [
    "Filter: All files",
    "Filtre : tous les fichiers",
    "Filter: Alle filer",
];

pub const WORKSPACE_TREE_FILTER_ON: [&'static str; 3] = [
    "Tree filter on: .hurl/.json/.vars/.trail only",
    "Filtre de l'arbre activé : .hurl/.json/.vars/.trail uniquement",
    "Træfilter til: kun .hurl/.json/.vars/.trail",
];

pub const WORKSPACE_TREE_FILTER_OFF: [&'static str; 3] = [
    "Tree filter off: showing all files",
    "Filtre de l'arbre désactivé : tous les fichiers affichés",
    "Træfilter fra: viser alle filer",
];

pub const WORKSPACE_NO_FILES: [&'static str; 3] = [
    "No matching files in this folder.",
    "Aucun fichier correspondant dans ce dossier.",
    "Ingen matchende filer i denne mappe.",
];

pub const TAB_REQUEST: [&'static str; 3] = [
    "Scratch Space",
    "Brouillon",
    "Kladde",
];

pub const RUN_ENTRY: [&'static str; 3] = [
    "▶ Run",
    "▶ Exécuter",
    "▶ Kør",
];

pub const ENTRY_REQUEST_JSON: [&'static str; 3] = [
    "Request JSON",
    "JSON de la requête",
    "Anmodnings-JSON",
];

pub const ENTRY_REQUEST_HURL: [&'static str; 3] = [
    "Request Hurl",
    "Requête (Hurl)",
    "Anmodning (Hurl)",
];

pub const ENTRY_RAW_HURL: [&'static str; 3] = [
    "Raw Mode (Hurl)",
    "Mode brut (Hurl)",
    "Rå tilstand (Hurl)",
];

pub const ENTRY_RAW_JSON: [&'static str; 3] = [
    "Raw Mode (JSON)",
    "Mode brut (JSON)",
    "Rå tilstand (JSON)",
];

pub const INVALID_HURL: [&'static str; 3] = [
    "Not valid Hurl (expected exactly one request); edit and try again.",
    "Hurl invalide (une seule requête attendue) ; modifiez et réessayez.",
    "Ikke gyldig Hurl (forventede præcis én anmodning); ret og prøv igen.",
];

pub const INVALID_HURL_PREFIX: [&'static str; 3] = [
    "Not valid Hurl —",
    "Hurl invalide —",
    "Ikke gyldig Hurl —",
];

pub const STATUS_COPY_KEY: [&'static str; 3] = [
    "^y",
    "^y",
    "^y",
];

pub const STATUS_COPY_HINT: [&'static str; 3] = [
    "copy",
    "copier",
    "kopiér",
];

pub const INVALID_REQUEST_JSON: [&'static str; 3] = [
    "Not valid Request JSON (expected an object with at least \"method\" and \"url\"); edit and try again.",
    "JSON de requête invalide (un objet avec au moins « method » et « url » est attendu) ; modifiez et réessayez.",
    "Ikke gyldig anmodnings-JSON (forventede et objekt med mindst \"method\" og \"url\"); ret og prøv igen.",
];

pub const NO_REQUESTS_HINT: [&'static str; 3] = [
    "No requests yet \u{2014} press n to create one.",
    "Aucune requête \u{2014} appuyez sur n pour en créer une.",
    "Ingen anmodninger endnu \u{2014} tryk på n for at oprette en.",
];

pub const LIST_UP_ROW: [&'static str; 3] = [
    "‹ .. (up a folder)",
    "‹ .. (dossier parent)",
    "‹ .. (mappe op)",
];

pub const NEW_REQUEST: [&'static str; 3] = [
    "\u{FF0B} New Request",
    "\u{FF0B} Nouvelle requête",
    "\u{FF0B} Ny anmodning",
];

pub const EDIT_REQUEST: [&'static str; 3] = [
    "\u{270E} Edit Request",
    "\u{270E} Modifier la requête",
    "\u{270E} Rediger anmodning",
];

pub const FIELD_NAME: [&'static str; 3] = [
    "Name",
    "Nom",
    "Navn",
];

pub const FIELD_TARGET: [&'static str; 3] = [
    "Add to",
    "Ajouter à",
    "Tilføj til",
];

pub const FIELD_METHOD: [&'static str; 3] = [
    "Method",
    "Méthode",
    "Metode",
];

pub const FIELD_URL: [&'static str; 3] = [
    "URL",
    "URL",
    "URL",
];

pub const FIELD_HEADERS: [&'static str; 3] = [
    "Headers",
    "En-têtes",
    "Headere",
];

pub const FIELD_COOKIES: [&'static str; 3] = [
    "Cookies",
    "Cookies",
    "Cookies",
];

pub const FIELD_QUERIES: [&'static str; 3] = [
    "Queries",
    "Requêtes",
    "Forespørgsler",
];

pub const FIELD_FORM: [&'static str; 3] = [
    "Form",
    "Formulaire",
    "Formular",
];

pub const FIELD_OPTIONS: [&'static str; 3] = [
    "Options",
    "Options",
    "Indstillinger",
];

pub const FIELD_BODY: [&'static str; 3] = [
    "Body",
    "Corps",
    "Brødtekst",
];

pub const FIELD_ASSERTS: [&'static str; 3] = [
    "Asserts",
    "Assertions",
    "Assertions",
];

pub const FIELD_CAPTURES: [&'static str; 3] = [
    "Captures",
    "Captures",
    "Captures",
];

pub const FIELD_REPORTS: [&'static str; 3] = [
    "Reports",
    "Rapports",
    "Rapporter",
];

pub const FIELD_COMPUTED: [&'static str; 3] = [
    "Computed",
    "Calculé",
    "Beregnet",
];

pub const TAB_ALL: [&'static str; 3] = [
    "All",
    "Tout",
    "Alle",
];

pub const HDR_KEY: [&'static str; 3] = [
    "Key",
    "Clé",
    "Nøgle",
];

pub const HDR_VALUE: [&'static str; 3] = [
    "Value",
    "Valeur",
    "Værdi",
];

pub const HDR_DESCRIPTION: [&'static str; 3] = [
    "Description",
    "Description",
    "Beskrivelse",
];

pub const HDR_NAME: [&'static str; 3] = [
    "Name",
    "Nom",
    "Navn",
];

pub const HDR_OPTION: [&'static str; 3] = [
    "Option",
    "Option",
    "Indstilling",
];

pub const HDR_QUERY: [&'static str; 3] = [
    "Query",
    "Requête",
    "Forespørgsel",
];

pub const HDR_TYPE: [&'static str; 3] = [
    "Type",
    "Type",
    "Type",
];

pub const FORM_TYPE_TEXT: [&'static str; 3] = [
    "Text",
    "Texte",
    "Tekst",
];

pub const FORM_TYPE_FILE: [&'static str; 3] = [
    "File",
    "Fichier",
    "Fil",
];

pub const FORM_TYPE_BASE64FILE: [&'static str; 3] = [
    "Base64 File",
    "Fichier Base64",
    "Base64-fil",
];

pub const HDR_BASE64_PREFIX: [&'static str; 3] = [
    "Base64 Prefix",
    "Préfixe Base64",
    "Base64-præfiks",
];

pub const CONTENT_TYPE_HINT: [&'static str; 3] = [
    "Content-Type",
    "Type de contenu",
    "Content-Type",
];

pub const CONTENT_TYPE_AUTO: [&'static str; 3] = [
    "Auto (detect from extension)",
    "Auto (détecter depuis l'extension)",
    "Auto (registrer fra filtype)",
];

pub const CONTENT_TYPE_AUTO_PLACEHOLDER: [&'static str; 3] = [
    "Auto",
    "Auto",
    "Auto",
];

pub const HINT_PICK_FILE: [&'static str; 3] = [
    "^F browse",
    "^F parcourir",
    "^F gennemse",
];

pub const HINT_DELETE_ROW: [&'static str; 3] = [
    "^D delete row",
    "^D supprimer la ligne",
    "^D slet række",
];

pub const EXTRACT_TITLE: [&'static str; 3] = [
    "Extract to parameter",
    "Extraire en paramètre",
    "Udtræk til parameter",
];

pub const EXTRACT_VALUE: [&'static str; 3] = [
    "Value: {}",
    "Valeur\u{a0}: {}",
    "Værdi: {}",
];

pub const EXTRACT_NAME_LABEL: [&'static str; 3] = [
    "Parameter name",
    "Nom du paramètre",
    "Parameternavn",
];

pub const EXTRACT_HINT: [&'static str; 3] = [
    "Enter to extract · Esc to cancel",
    "Entrée pour extraire · Échap pour annuler",
    "Enter for at udtrække · Esc for at annullere",
];

pub const EXTRACT_NAME_INVALID: [&'static str; 3] = [
    "A parameter name cannot be empty or contain spaces or braces",
    "Un nom de paramètre ne peut pas être vide ni contenir d'espaces ou d'accolades",
    "Et parameternavn må ikke være tomt eller indeholde mellemrum eller krøllede parenteser",
];

pub const EXTRACT_NAME_CONFLICT: [&'static str; 3] = [
    "This request already declares {} as '{}' — reusing it here would change what this field sends",
    "Cette requête déclare déjà {} comme «\u{a0}{}\u{a0}» — le réutiliser ici changerait ce que ce champ envoie",
    "Denne forespørgsel erklærer allerede {} som '{}' — at genbruge det her ville ændre, hvad dette felt sender",
];

pub const GUI_EXTRACT_PARAMETER: [&'static str; 3] = [
    "Extract to parameter…",
    "Extraire en paramètre…",
    "Udtræk til parameter…",
];

pub const HINT_EXTRACT_PARAMETER: [&'static str; 3] = [
    "^P extract to parameter",
    "^P extraire en paramètre",
    "^P udtræk til parameter",
];

pub const HINT_DECLARE_PARAMETER: [&'static str; 3] = [
    "variable: NAME=value declares a parameter a report can steer",
    "variable\u{a0}: NOM=valeur déclare un paramètre qu'un rapport peut piloter",
    "variable: NAVN=værdi erklærer en parameter, som en rapport kan styre",
];

pub const WIZARD_OPTIONS_PARAMETERS: [&'static str; 3] = [
    "Parameters: {}",
    "Paramètres\u{a0}: {}",
    "Parametre: {}",
];

pub const HINT_TOGGLE_ENABLED: [&'static str; 3] = [
    "^E toggle enabled",
    "^E activer/désactiver",
    "^E slå til/fra",
];

pub const ADD_HEADER: [&'static str; 3] = [
    "\u{FF0B} Add header",
    "\u{FF0B} Ajouter un en-tête",
    "\u{FF0B} Tilføj header",
];

pub const ADD_COOKIE: [&'static str; 3] = [
    "\u{FF0B} Add cookie",
    "\u{FF0B} Ajouter un cookie",
    "\u{FF0B} Tilføj cookie",
];

pub const ADD_QUERY: [&'static str; 3] = [
    "\u{FF0B} Add query",
    "\u{FF0B} Ajouter une requête",
    "\u{FF0B} Tilføj forespørgsel",
];

pub const ADD_OPTION: [&'static str; 3] = [
    "\u{FF0B} Add option",
    "\u{FF0B} Ajouter une option",
    "\u{FF0B} Tilføj indstilling",
];

pub const ADD_FORM_FIELD: [&'static str; 3] = [
    "\u{FF0B} Add field",
    "\u{FF0B} Ajouter un champ",
    "\u{FF0B} Tilføj felt",
];

pub const ADD_ASSERT: [&'static str; 3] = [
    "\u{FF0B} Add assert",
    "\u{FF0B} Ajouter une assertion",
    "\u{FF0B} Tilføj assertion",
];

pub const ADD_CAPTURE: [&'static str; 3] = [
    "\u{FF0B} Add capture",
    "\u{FF0B} Ajouter une capture",
    "\u{FF0B} Tilføj capture",
];

pub const ADD_REPORT: [&'static str; 3] = [
    "\u{FF0B} Add report field",
    "\u{FF0B} Ajouter un champ de rapport",
    "\u{FF0B} Tilføj rapportfelt",
];

pub const ADD_COMPUTED: [&'static str; 3] = [
    "\u{FF0B} Add computed value",
    "\u{FF0B} Ajouter une valeur calculée",
    "\u{FF0B} Tilføj beregnet værdi",
];

pub const CAP_NAME: [&'static str; 3] = [
    "Name",
    "Nom",
    "Navn",
];

pub const CAP_EXPR: [&'static str; 3] = [
    "Expression",
    "Expression",
    "Udtryk",
];

pub const REPORT_NAME: [&'static str; 3] = [
    "Name",
    "Nom",
    "Navn",
];

pub const REPORT_EXPR: [&'static str; 3] = [
    "Expression",
    "Expression",
    "Udtryk",
];

pub const COMPUTED_NAME: [&'static str; 3] = [
    "Name",
    "Nom",
    "Navn",
];

pub const COMPUTED_EXPR: [&'static str; 3] = [
    "Expression",
    "Expression",
    "Udtryk",
];

pub const LOAD_ENVIRONMENT: [&'static str; 3] = [
    "Load Environment…",
    "Charger l'environnement…",
    "Indlæs miljø…",
];

pub const ENV_HEADING: [&'static str; 3] = [
    "Global Environments",
    "Environnements globaux",
    "Globale miljøer",
];

pub const ENV_NO_ENV: [&'static str; 3] = [
    "(no environment loaded)",
    "(aucun environnement chargé)",
    "(intet miljø indlæst)",
];

pub const ENV_LOADING: [&'static str; 3] = [
    "Loading secret…",
    "Chargement du secret…",
    "Indlæser hemmelighed…",
];

pub const ENV_WAITING_SECRETS: [&'static str; 3] = [
    "Waiting for secrets:",
    "En attente des secrets\u{a0}:",
    "Venter på hemmeligheder:",
];

pub const ENV_RELOADING_VAR: [&'static str; 3] = [
    "Reloading",
    "Rechargement de",
    "Genindlæser",
];

pub const ENV_ACTIVATED: [&'static str; 3] = [
    "Activated",
    "Activé",
    "Aktiveret",
];

pub const ENV_DEACTIVATED: [&'static str; 3] = [
    "Deactivated",
    "Désactivé",
    "Deaktiveret",
];

pub const ENV_RENAME_TITLE: [&'static str; 3] = [
    "Rename Environment",
    "Renommer l'environnement",
    "Omdøb miljø",
];

pub const ENV_LINK_PICKER_TITLE: [&'static str; 3] = [
    "Link Environment",
    "Lier un environnement",
    "Tilknyt miljø",
];

pub const ENV_LINK_NONE: [&'static str; 3] = [
    "(none)",
    "(aucun)",
    "(ingen)",
];

pub const ENV_DELETE_CONFIRM: [&'static str; 3] = [
    "Delete this environment?",
    "Supprimer cet environnement\u{a0}?",
    "Slet dette miljø?",
];

pub const REQUEST_DELETE_CONFIRM: [&'static str; 3] = [
    "Delete this request?",
    "Supprimer cette requête\u{a0}?",
    "Slet denne anmodning?",
];

pub const ENV_NO_ENVS: [&'static str; 3] = [
    "(no environments — Load Environment… to add one)",
    "(aucun environnement — Charger l'environnement… pour en ajouter un)",
    "(ingen miljøer — Indlæs miljø… for at tilføje et)",
];

pub const ENV_ACTIVE_LABEL: [&'static str; 3] = [
    "Active: ",
    "Actif : ",
    "Aktiv: ",
];

pub const ENV_ACTIVE_NONE: [&'static str; 3] = [
    "(none active)",
    "(aucun actif)",
    "(intet aktivt)",
];

pub const ENV_FILTER_LABEL: [&'static str; 3] = [
    "Filter: ",
    "Filtre : ",
    "Filter: ",
];

pub const LIST_FILTER_LABEL: [&'static str; 3] = [
    "Find: ",
    "Chercher : ",
    "Find: ",
];

pub const ENV_FILTER_NO_MATCHES: [&'static str; 3] = [
    "No environment matches — Esc clears the filter.",
    "Aucun environnement ne correspond — Échap efface le filtre.",
    "Intet miljø matcher — Esc rydder filteret.",
];

pub const LIST_FILTER_NO_MATCHES: [&'static str; 3] = [
    "No request matches.",
    "Aucune requête ne correspond.",
    "Ingen forespørgsel matcher.",
];

pub const LIST_FILTER_NO_MATCHES_HINT: [&'static str; 3] = [
    "Esc clears the filter.",
    "Échap efface le filtre.",
    "Esc rydder filteret.",
];

pub const ENV_SOURCE_LABEL: [&'static str; 3] = [
    "Source: ",
    "Source : ",
    "Kilde: ",
];

pub const ENV_SOURCE_ALL: [&'static str; 3] = [
    "All",
    "Tous",
    "Alle",
];

pub const ENV_SOURCE_GLOBAL: [&'static str; 3] = [
    "Global",
    "Global",
    "Global",
];

pub const ENV_SOURCE_WORKSPACE: [&'static str; 3] = [
    "Workspace",
    "Workspace",
    "Workspace",
];

pub const ENV_SOURCE_NO_MATCHES: [&'static str; 3] = [
    "No environments from this source.",
    "Aucun environnement de cette source.",
    "Ingen miljøer fra denne kilde.",
];

pub const FOOT_ENV_FILTER: [&'static str; 3] = [
    "filter",
    "filtrer",
    "filtrér",
];

pub const ENV_COLLISION_TITLE: [&'static str; 3] = [
    "Environment name already exists",
    "Ce nom d'environnement existe déjà",
    "Miljønavnet findes allerede",
];

pub const ENV_COLLISION_REPLACE: [&'static str; 3] = [
    "Replace existing",
    "Remplacer l'existant",
    "Erstat eksisterende",
];

pub const ENV_COLLISION_KEEP_BOTH: [&'static str; 3] = [
    "Keep both (duplicate name)",
    "Conserver les deux (nom en double)",
    "Behold begge (dublet navn)",
];

pub const ENV_COLLISION_ABORT: [&'static str; 3] = [
    "Abort",
    "Annuler",
    "Afbryd",
];

pub const ENV_COLLISION_RENAME: [&'static str; 3] = [
    "Rename then add",
    "Renommer puis ajouter",
    "Omdøb og tilføj",
];

pub const RUN_SUMMARY_PASSED: [&'static str; 3] = [
    "Passed",
    "Réussi",
    "Bestået",
];

pub const RUN_SUMMARY_FAILED: [&'static str; 3] = [
    "Failed",
    "Échoué",
    "Fejlet",
];

pub const RUN_SUMMARY_TOTAL: [&'static str; 3] = [
    "Total",
    "Total",
    "Total",
];

pub const RUN_ALL_STREAMING_COOKIES: [&'static str; 3] = [
    "Run All: streaming — cookies aren't carried between requests (use batch mode in Preferences)",
    "Tout exécuter : diffusion — les cookies ne sont pas transmis entre les requêtes (utilisez le mode par lots dans les Préférences)",
    "Kør alle: streaming — cookies overføres ikke mellem forespørgsler (brug batch-tilstand i Indstillinger)",
];

pub const ENV_ADD_VAR_TITLE: [&'static str; 3] = [
    "New environment variable",
    "Nouvelle variable d'environnement",
    "Ny miljøvariabel",
];

pub const ENV_VAR_SWITCH: [&'static str; 3] = [
    "switch",
    "changer",
    "skift",
];

pub const ENV_STILL_SECRET: [&'static str; 3] = [
    "Still secret",
    "Toujours secret",
    "Stadig hemmelig",
];

pub const ENV_STILL_SECRET_HINT: [&'static str; 3] = [
    "Ctrl+T: toggle still-secret",
    "Ctrl+T\u{a0}: bascule toujours-secret",
    "Ctrl+T: skift stadig-hemmelig",
];

pub const GIT_COLLECTION_MENU: [&'static str; 3] = [
    "Load Collection from Git…",
    "Charger une collection depuis Git…",
    "Indlæs samling fra Git…",
];

pub const GIT_ENV_MENU: [&'static str; 3] = [
    "Load Environment from Git…",
    "Charger un environnement depuis Git…",
    "Indlæs miljø fra Git…",
];

pub const GIT_WORKSPACE_MENU: [&'static str; 3] = [
    "Load Workspace from Git…",
    "Charger un Workspace depuis Git…",
    "Indlæs Workspace fra Git…",
];

pub const GIT_REPORT_MENU: [&'static str; 3] = [
    "Load Report from Git…",
    "Charger un rapport depuis Git…",
    "Indlæs rapport fra Git…",
];

pub const GIT_URL_LABEL: [&'static str; 3] = [
    "Git URL",
    "URL Git",
    "Git-URL",
];

pub const GIT_URL_HINT: [&'static str; 3] = [
    "https://github.com/owner/repo",
    "https://github.com/owner/repo",
    "https://github.com/owner/repo",
];

pub const GIT_TOKEN_LABEL: [&'static str; 3] = [
    "Token",
    "Jeton",
    "Token",
];

pub const GIT_TOKEN_HINT: [&'static str; 3] = [
    "blank for a public repo",
    "vide pour un dépôt public",
    "tom for et offentligt repo",
];

pub const GIT_CONNECT_HINT: [&'static str; 3] = [
    "Enter connect · Esc cancel",
    "Entrée connecter · Échap annuler",
    "Enter forbind · Esc annuller",
];

pub const GUI_GIT_RECENT: [&'static str; 3] = [
    "Recent",
    "Récents",
    "Seneste",
];

pub const GIT_RECENT_HINT: [&'static str; 3] = [
    "↓ recent URLs",
    "↓ URL récentes",
    "↓ seneste URL'er",
];

pub const GIT_PICK_REF_TITLE: [&'static str; 3] = [
    "Select a branch or tag",
    "Sélectionnez une branche ou une étiquette",
    "Vælg en gren eller et tag",
];

pub const GIT_PICK_FILE_TITLE: [&'static str; 3] = [
    "Select a file",
    "Sélectionnez un fichier",
    "Vælg en fil",
];

pub const GIT_FILTER_HINT: [&'static str; 3] = [
    "Type to filter · Enter select · Esc cancel",
    "Filtrer en tapant · Entrée choisir · Échap annuler",
    "Skriv for at filtrere · Enter vælg · Esc annuller",
];

pub const GIT_LOADING_REFS: [&'static str; 3] = [
    "Fetching branches and tags…",
    "Récupération des branches et étiquettes…",
    "Henter grene og tags…",
];

pub const GIT_LOADING_FILES: [&'static str; 3] = [
    "Fetching file list…",
    "Récupération de la liste des fichiers…",
    "Henter filliste…",
];

pub const GIT_LOADING_FILE: [&'static str; 3] = [
    "Fetching file…",
    "Récupération du fichier…",
    "Henter fil…",
];

pub const GIT_LOADING_WORKSPACE_FILES: [&'static str; 3] = [
    "Downloading matching files…",
    "Téléchargement des fichiers correspondants…",
    "Henter matchende filer…",
];

pub const GIT_LOADING_HINT: [&'static str; 3] = [
    "(Esc to cancel)",
    "(Échap pour annuler)",
    "(Esc for at annullere)",
];

pub const GIT_ERROR_HINT: [&'static str; 3] = [
    "Esc close",
    "Échap fermer",
    "Esc luk",
];

pub const GIT_URL_REQUIRED: [&'static str; 3] = [
    "A Git URL is required.",
    "Une URL Git est requise.",
    "En Git-URL er påkrævet.",
];

pub const GIT_BRANCHES: [&'static str; 3] = [
    "Branches",
    "Branches",
    "Grene",
];

pub const GIT_TAGS: [&'static str; 3] = [
    "Tags",
    "Étiquettes",
    "Tags",
];

pub const GIT_FILTER_LABEL: [&'static str; 3] = [
    "filter: ",
    "filtre\u{a0}: ",
    "filter: ",
];

pub const GIT_PICK_WORKSPACE_FILTER_TITLE: [&'static str; 3] = [
    "Choose which files to download",
    "Choisissez les fichiers à télécharger",
    "Vælg hvilke filer der skal hentes",
];

pub const GIT_WORKSPACE_FILTER_HINT: [&'static str; 3] = [
    "Enter select · Esc cancel",
    "Entrée choisir · Échap annuler",
    "Enter vælg · Esc annuller",
];

pub const GIT_WS_FILTER_HURL_JSON: [&'static str; 3] = [
    "Files PaperBoy can open (recommended)",
    "Fichiers lisibles par PaperBoy (recommandé)",
    "Filer PaperBoy kan åbne (anbefalet)",
];

pub const GIT_WS_FILTER_HURL: [&'static str; 3] = [
    ".hurl files only",
    "Fichiers .hurl uniquement",
    "Kun .hurl-filer",
];

pub const GIT_WS_FILTER_JSON: [&'static str; 3] = [
    ".json files only",
    "Fichiers .json uniquement",
    "Kun .json-filer",
];

pub const GIT_WS_FILTER_ALL: [&'static str; 3] = [
    "All files",
    "Tous les fichiers",
    "Alle filer",
];

pub const GIT_WORKSPACE_NO_MATCHES: [&'static str; 3] = [
    "No files in this repo matched that filter.",
    "Aucun fichier de ce dépôt ne correspond à ce filtre.",
    "Ingen filer i dette repo matchede filteret.",
];

pub const CLOSE_GIT_WORKSPACE_Q: [&'static str; 3] = [
    "This Workspace's files were downloaded from git into:\n{p}\n\nKeep this folder so the tab can be reopened later, or delete it now?",
    "Les fichiers de cet Espace de travail ont été téléchargés depuis git dans :\n{p}\n\nConserver ce dossier pour pouvoir rouvrir l'onglet plus tard, ou le supprimer maintenant ?",
    "Denne Workspaces filer blev downloadet fra git til:\n{p}\n\nBehold denne mappe, så fanen kan genåbnes senere, eller slet den nu?",
];

pub const CLOSE_GIT_WORKSPACE_KEEP: [&'static str; 3] = [
    "Keep",
    "Conserver",
    "Behold",
];

pub const CLOSE_GIT_WORKSPACE_DELETE: [&'static str; 3] = [
    "Delete",
    "Supprimer",
    "Slet",
];

pub const CLOSE_GIT_WORKSPACE_CANCEL: [&'static str; 3] = [
    "Cancel",
    "Annuler",
    "Annuller",
];

pub const WORKSPACE_FOLDER_MISSING: [&'static str; 3] = [
    "The folder for Workspace '{name}' could not be found (it may have been cleared since your last session) and has been reset — pick a folder, or Load Workspace from Git again.",
    "Le dossier de l'Espace de travail « {name} » est introuvable (il a peut-être été supprimé depuis votre dernière session) et a été réinitialisé — choisissez un dossier, ou chargez à nouveau l'Espace de travail depuis Git.",
    "Mappen for Workspace '{name}' kunne ikke findes (den er muligvis blevet ryddet siden din sidste session) og er blevet nulstillet — vælg en mappe, eller indlæs Workspace fra Git igen.",
];

pub const WORKSPACE_RELOAD_CONFIRM_Q: [&'static str; 3] = [
    "Workspace '{name}''s downloaded files are missing (likely cleared from a temp folder). Try to redownload {ref} from:\n{url}?",
    "Les fichiers téléchargés de l'Espace de travail « {name} » sont introuvables (probablement supprimés d'un dossier temporaire). Essayer de retélécharger {ref} depuis :\n{url} ?",
    "De downloadede filer til Workspace '{name}' mangler (sandsynligvis ryddet fra en midlertidig mappe). Prøv at downloade {ref} igen fra:\n{url}?",
];

pub const WORKSPACE_RELOAD_LOADING: [&'static str; 3] = [
    "Redownloading workspace from git…",
    "Retéléchargement de l'espace de travail depuis git…",
    "Downloader workspace igen fra git…",
];

pub const WORKSPACE_RELOAD_SUCCESS: [&'static str; 3] = [
    "Workspace redownloaded from git.",
    "Espace de travail retéléchargé depuis git.",
    "Workspace downloadet igen fra git.",
];

pub const WORKSPACE_RELOAD_FAILED: [&'static str; 3] = [
    "Could not redownload the workspace — the remote no longer seems to have that commit or tag ({e}).",
    "Impossible de retélécharger l'espace de travail — le dépôt distant ne semble plus avoir ce commit ou ce tag ({e}).",
    "Kunne ikke downloade workspace igen — det fjerne repo synes ikke længere at have denne commit eller tag ({e}).",
];

pub const WORKSPACE_RELOAD_SAVE_HINT: [&'static str; 3] = [
    "Tip: save this Workspace to a permanent local folder if you want it to always be available without redownloading.",
    "Astuce : enregistrez cet Espace de travail dans un dossier local permanent si vous voulez qu'il soit toujours disponible sans nouveau téléchargement.",
    "Tip: gem denne Workspace i en permanent lokal mappe, hvis du vil have den altid tilgængelig uden at skulle downloade igen.",
];

pub const FILE_NOT_WORKSPACE: [&'static str; 3] = [
    "The active tab isn't a Workspace.",
    "L'onglet actif n'est pas un Workspace.",
    "Den aktive fane er ikke en Workspace.",
];

pub const MOVE_WORKSPACE_ITEM: [&'static str; 3] = [
    "Move — Choose Destination Folder",
    "Déplacer — Choisir le dossier de destination",
    "Flyt — Vælg destinationsmappe",
];

pub const BROWSER_HINT_HEADER_FOLDER: [&'static str; 3] = [
    "Enter open folder · Space choose as report root · ← parent · type to filter · ^r reset · Esc cancel",
    "Entrée ouvrir dossier · Espace choisir comme racine du rapport · ← dossier parent · taper pour filtrer · ^r réinitialiser · Échap annuler",
    "Enter åbn mappe · Mellemrum vælg som rapportrod · ← overordnet · skriv for at filtrere · ^r nulstil · Esc annuller",
];

pub const BROWSER_HINT_NODE_FOLDER: [&'static str; 3] = [
    "Enter open folder · Space choose this folder · ← parent · type to filter · ^r reset · Esc cancel",
    "Entrée ouvrir dossier · Espace choisir ce dossier · ← dossier parent · taper pour filtrer · ^r réinitialiser · Échap annuler",
    "Enter åbn mappe · Mellemrum vælg denne mappe · ← overordnet · skriv for at filtrere · ^r nulstil · Esc annuller",
];

pub const BROWSER_HINT_WORKSPACE_MOVE: [&'static str; 3] = [
    "Enter open folder · Space move here · ← parent · type to filter · ^r reset · Esc cancel",
    "Entrée ouvrir dossier · Espace déplacer ici · ← dossier parent · taper pour filtrer · ^r réinitialiser · Échap annuler",
    "Enter åbn mappe · Mellemrum flyt hertil · ← overordnet · skriv for at filtrere · ^r nulstil · Esc annuller",
];

pub const SAVE_WORKSPACE: [&'static str; 3] = [
    "Save Workspace — Choose Destination Folder",
    "Enregistrer le Workspace — Choisir le dossier de destination",
    "Gem Workspace — Vælg destinationsmappe",
];

pub const SAVE_COLLECTION_FOLDER: [&'static str; 3] = [
    "Save Collection — Choose Destination Folder",
    "Enregistrer la collection — Choisir le dossier de destination",
    "Gem samling — Vælg destinationsmappe",
];

pub const BROWSER_HINT_COLLECTION_SAVE: [&'static str; 3] = [
    "Enter open folder · Space save here · Tab rename · ← parent · type to filter · ^r reset · Esc cancel",
    "Entrée ouvrir dossier · Espace enregistrer ici · Tab renommer · ← dossier parent · taper pour filtrer · ^r réinitialiser · Échap annuler",
    "Enter åbn mappe · Mellemrum gem her · Tab omdøb · ← overordnet · skriv for at filtrere · ^r nulstil · Esc annuller",
];

pub const BROWSER_HINT_NEW_REPORT: [&'static str; 3] = [
    "Enter open folder · Space create here · Tab name (use sub/name for a new folder) · type to filter · ^n scratch tab · ← up · Esc cancel",
    "Entrée ouvrir dossier · Espace créer ici · Tab nom (sous-dossier/nom pour créer un dossier) · taper pour filtrer · ^n onglet brouillon · ← remonter · Échap annuler",
    "Enter åbn mappe · Mellemrum opret her · Tab navn (undermappe/navn opretter en mappe) · skriv for at filtrere · ^n kladdefane · ← op · Esc annuller",
];

pub const BROWSER_HINT_WORKSPACE_SAVE: [&'static str; 3] = [
    "Enter open folder · Space save here · Tab rename · ← parent · type to filter · ^r reset · Esc cancel",
    "Entrée ouvrir dossier · Espace enregistrer ici · Tab renommer · ← dossier parent · taper pour filtrer · ^r réinitialiser · Échap annuler",
    "Enter åbn mappe · Mellemrum gem her · Tab omdøb · ← overordnet · skriv for at filtrere · ^r nulstil · Esc annuller",
];

pub const BROWSER_FILENAME_LABEL: [&'static str; 3] = [
    "File name",
    "Nom du fichier",
    "Filnavn",
];

pub const BROWSER_FOLDERNAME_LABEL: [&'static str; 3] = [
    "Folder name",
    "Nom du dossier",
    "Mappenavn",
];

pub const BROWSER_NAME_HINT: [&'static str; 3] = [
    "Enter save · Esc back to list",
    "Entrée enregistrer · Échap retour à la liste",
    "Enter gem · Esc tilbage til listen",
];

pub const BROWSER_FILTER_LABEL: [&'static str; 3] = [
    "Filter: ",
    "Filtre : ",
    "Filter: ",
];

pub const BROWSER_NO_MATCHES: [&'static str; 3] = [
    "No matching files",
    "Aucun fichier correspondant",
    "Ingen matchende filer",
];

pub const WORKSPACE_SAVE_SUCCESS: [&'static str; 3] = [
    "Workspace saved.",
    "Workspace enregistré.",
    "Workspace gemt.",
];

pub const WORKSPACE_SAVE_FAILED: [&'static str; 3] = [
    "Could not save the workspace ({e}).",
    "Impossible d'enregistrer le Workspace ({e}).",
    "Kunne ikke gemme workspace ({e}).",
];

pub const GIT_WORKSPACE_STORAGE_Q: [&'static str; 3] = [
    "Workspace downloaded. Keep it in a temporary folder, or save it to a permanent location now?",
    "Workspace téléchargé. Le garder dans un dossier temporaire, ou l'enregistrer dans un emplacement permanent maintenant ?",
    "Workspace downloadet. Behold den i en midlertidig mappe, eller gem den på en permanent placering nu?",
];

pub const GIT_WORKSPACE_STORAGE_TEMP: [&'static str; 3] = [
    "Keep temporarily",
    "Garder temporairement",
    "Behold midlertidigt",
];

pub const GIT_WORKSPACE_STORAGE_CHOOSE: [&'static str; 3] = [
    "Choose a folder…",
    "Choisir un dossier…",
    "Vælg en mappe…",
];

pub const GIT_NO_ORIGIN: [&'static str; 3] = [
    "This collection wasn't loaded from Git.",
    "Cette collection n'a pas été chargée depuis Git.",
    "Denne samling blev ikke indlæst fra Git.",
];

pub const GIT_SAVE_TITLE: [&'static str; 3] = [
    "Save to Git",
    "Enregistrer sur Git",
    "Gem til Git",
];

pub const GIT_SAVE_WORKSPACE_EMPTY: [&'static str; 3] = [
    "The workspace has no files to save.",
    "Le workspace n'a aucun fichier à enregistrer.",
    "Dette workspace har ingen filer at gemme.",
];

pub const GIT_SAVE_SOURCE_GONE: [&'static str; 3] = [
    "That tab was closed — there is nothing left to save.",
    "Cet onglet a été fermé — il n'y a plus rien à enregistrer.",
    "Fanen blev lukket — der er ikke længere noget at gemme.",
];

pub const GUI_GIT_ERR_WS_NOT_FROM_GIT: [&'static str; 3] = [
    "This workspace was not downloaded from Git, so there is nowhere to push it back to.",
    "Ce workspace n'a pas été téléchargé depuis Git, il n'y a donc nulle part où le renvoyer.",
    "Dette workspace blev ikke hentet fra Git, så der er ingen steder at sende det tilbage til.",
];

pub const GIT_SAVE_WS_UNSAVED_Q: [&'static str; 3] = [
    "The current file has unsaved changes. A Git push commits the files as they are on disk, so those changes won't be included unless you save them first.\n\nWhat would you like to do?",
    "Le fichier actuel a des modifications non enregistrées. Un envoi vers Git valide les fichiers tels qu'ils sont sur le disque, donc ces modifications ne seront pas incluses si vous ne les enregistrez pas d'abord.\n\nQue souhaitez-vous faire ?",
    "Den aktuelle fil har ugemte ændringer. En Git-push committer filerne, som de er på disken, så disse ændringer medtages ikke, medmindre du gemmer dem først.\n\nHvad vil du gøre?",
];

pub const GIT_SAVE_WS_UNSAVED_SAVE: [&'static str; 3] = [
    "Save changes, then push",
    "Enregistrer les modifications, puis envoyer",
    "Gem ændringer, og push derefter",
];

pub const GIT_SAVE_WS_UNSAVED_IGNORE: [&'static str; 3] = [
    "Push the saved version (discard unsaved changes)",
    "Envoyer la version enregistrée (ignorer les modifications non enregistrées)",
    "Push den gemte version (kassér ugemte ændringer)",
];

pub const GIT_SAVE_WS_UNSAVED_CANCEL: [&'static str; 3] = [
    "Cancel",
    "Annuler",
    "Annuller",
];

pub const WS_SWITCH_UNSAVED_Q: [&'static str; 3] = [
    "The current collection has unsaved changes. Opening a different collection replaces them in memory, so they will be lost unless you save them first.\n\nWhat would you like to do?",
    "La collection actuelle a des modifications non enregistrées. Ouvrir une autre collection les remplace en mémoire, elles seront donc perdues si vous ne les enregistrez pas d'abord.\n\nQue souhaitez-vous faire ?",
    "Den aktuelle samling har ugemte ændringer. Hvis du åbner en anden samling, erstattes de i hukommelsen, så de går tabt, medmindre du gemmer dem først.\n\nHvad vil du gøre?",
];

pub const WS_SWITCH_UNSAVED_SAVE: [&'static str; 3] = [
    "Save changes, then switch",
    "Enregistrer les modifications, puis changer",
    "Gem ændringer, og skift derefter",
];

pub const WS_SWITCH_UNSAVED_DISCARD: [&'static str; 3] = [
    "Discard changes and switch",
    "Ignorer les modifications et changer",
    "Kassér ændringer og skift",
];

pub const WS_SWITCH_UNSAVED_CANCEL: [&'static str; 3] = [
    "Cancel",
    "Annuler",
    "Annuller",
];

pub const GIT_SAVE_INCLUDE_ENV_LABEL: [&'static str; 3] = [
    "Also save the environment",
    "Enregistrer aussi l'environnement",
    "Gem også miljøet",
];

pub const GIT_SAVE_COLLECTION_PATH_LABEL: [&'static str; 3] = [
    "Collection path in repo",
    "Chemin de la collection dans le dépôt",
    "Samlingens sti i repoet",
];

pub const GIT_SAVE_REPORT_PATH_LABEL: [&'static str; 3] = [
    "Report path in repo",
    "Chemin du rapport dans le dépôt",
    "Rapportens sti i repoet",
];

pub const GIT_SAVE_ENV_PATH_LABEL: [&'static str; 3] = [
    "Environment path in repo",
    "Chemin de l'environnement dans le dépôt",
    "Miljøets sti i repoet",
];

pub const GIT_SAVE_STEP_HINT: [&'static str; 3] = [
    "Enter continue · Esc cancel",
    "Entrée continuer · Échap annuler",
    "Enter fortsæt · Esc annuller",
];

pub const GIT_SAVE_BRANCH_LABEL: [&'static str; 3] = [
    "Branch",
    "Branche",
    "Gren",
];

pub const GIT_SAVE_TAG_LABEL: [&'static str; 3] = [
    "Tag",
    "Étiquette",
    "Tag",
];

pub const GIT_SAVE_TARGET_HINT: [&'static str; 3] = [
    "Tab Branch/Tag · Enter continue · Esc cancel",
    "Tab Branche/Étiquette · Entrée continuer · Échap annuler",
    "Tab Gren/Tag · Enter fortsæt · Esc annuller",
];

pub const GIT_SAVE_COMMIT_MSG_LABEL: [&'static str; 3] = [
    "Commit message",
    "Message de commit",
    "Commit-besked",
];

pub const GIT_SAVE_COMMIT_MSG_HINT: [&'static str; 3] = [
    "Enter push · Esc cancel",
    "Entrée pousser · Échap annuler",
    "Enter push · Esc annuller",
];

pub const GIT_SAVE_PUSHING: [&'static str; 3] = [
    "Pushing to Git…",
    "Envoi vers Git…",
    "Sender til Git…",
];

pub const GIT_SAVE_SUCCESS: [&'static str; 3] = [
    "Saved to Git",
    "Enregistré sur Git",
    "Gemt til Git",
];

pub const GIT_TAG_EXISTS: [&'static str; 3] = [
    "That tag already exists — tags are never overwritten. Choose a different name.",
    "Cette étiquette existe déjà — les étiquettes ne sont jamais écrasées. Choisissez un autre nom.",
    "Det tag findes allerede — tags bliver aldrig overskrevet. Vælg et andet navn.",
];

pub const GIT_REF_EXISTS_RACE: [&'static str; 3] = [
    "That name was just created by someone else — pick it from the list, or choose a different one.",
    "Ce nom vient d'être créé par quelqu'un d'autre — choisissez-le dans la liste, ou choisissez-en un autre.",
    "Det navn blev lige oprettet af en anden — vælg det fra listen, eller vælg et andet.",
];

pub const JSON_ENTER_TO_EDIT: [&'static str; 3] = [
    "to edit",
    "pour modifier",
    "for at redigere",
];

pub const SUBST_HINT_LOADED: [&'static str; 3] = [
    "loaded",
    "chargé",
    "indlæst",
];

pub const SUBST_HINT_LITERAL: [&'static str; 3] = [
    "literal",
    "littéral",
    "literal",
];

pub const SUBST_HINT_LOADING: [&'static str; 3] = [
    "loading",
    "en cours",
    "indlæser",
];

pub const SUBST_HINT_MISSING: [&'static str; 3] = [
    "missing",
    "manquant",
    "mangler",
];

pub const SUBST_HINT_UNDEFINED: [&'static str; 3] = [
    "undefined",
    "non défini",
    "udefineret",
];

pub const SUBST_HINT_COMPUTED: [&'static str; 3] = [
    "computed at send",
    "calculé à l'envoi",
    "beregnes ved afsendelse",
];

pub const ENV_UNDEFINED_VARS: [&'static str; 3] = [
    "⚠ Sent with undefined variables:",
    "⚠ Envoyé avec des variables non définies :",
    "⚠ Sendt med udefinerede variabler:",
];

pub const ENV_UNDEFINED_IN_LOADED_ENV: [&'static str; 3] = [
    "— defined in {envs}, which is loaded but neither active nor linked. Activate or link it in the Environments panel.",
    "— définies dans {envs}, qui est chargé mais ni actif ni lié. Activez-le ou liez-le dans le panneau Environnements.",
    "— defineret i {envs}, som er indlæst, men hverken aktivt eller tilknyttet. Aktivér eller tilknyt det i Miljøer-panelet.",
];

pub const GUI_UNDEFINED_BANNER_ONE: [&'static str; 3] = [
    "1 variable in this request is undefined",
    "1 variable de cette requête n'est pas définie",
    "1 variabel i denne anmodning er udefineret",
];

pub const GUI_UNDEFINED_BANNER_MANY: [&'static str; 3] = [
    "{n} variables in this request are undefined",
    "{n} variables de cette requête ne sont pas définies",
    "{n} variabler i denne anmodning er udefinerede",
];

pub const SUBST_HINT_SHADOWED: [&'static str; 3] = [
    "shadowed by linked env",
    "masqué par l'environnement lié",
    "skygget af tilknyttet miljø",
];

pub const JSON_INVALID: [&'static str; 3] = [
    "⚠ Invalid JSON — fix before running",
    "⚠ JSON invalide — corrigez avant d'exécuter",
    "⚠ Ugyldig JSON — ret før kørsel",
];

pub const FOOT_FOCUS: [&'static str; 3] = [
    "focus",
    "focus",
    "fokus",
];

pub const FOOT_RUN: [&'static str; 3] = [
    "run",
    "exécuter",
    "kør",
];

pub const FOOT_RUN_ALL: [&'static str; 3] = [
    "run all",
    "tout exécuter",
    "kør alle",
];

pub const FOOT_ENV_ACTIVATE: [&'static str; 3] = [
    "activate/deactivate",
    "activer/désactiver",
    "aktivér/deaktivér",
];

pub const FOOT_ENV_SOURCE: [&'static str; 3] = [
    "source",
    "source",
    "kilde",
];

// The Environments panel's "jump to the active environment" key. Short
// because it shares a one-line border with two other hints.
pub const FOOT_ENV_GOTO_ACTIVE: [&'static str; 3] = [
    "go to active",
    "aller à l'actif",
    "gå til aktivt",
];

pub const FOOT_ENV_LINK: [&'static str; 3] = [
    "link env",
    "lier env",
    "link miljø",
];

pub const FOOT_NEW: [&'static str; 3] = [
    "New Request",
    "Nouvelle requête",
    "Ny forespørgsel",
];

pub const FOOT_RENAME: [&'static str; 3] = [
    "rename",
    "renommer",
    "omdøb",
];

pub const FOOT_CLOSE: [&'static str; 3] = [
    "delete",
    "supprimer",
    "fjern",
];

pub const FOOT_COPY_SELECTION: [&'static str; 3] = [
    "copy",
    "copier",
    "kopiér",
];

pub const FOOT_COMPACT: [&'static str; 3] = [
    "compact",
    "compact",
    "kompakt",
];

pub const FOOT_RESPONSE_SECTION: [&'static str; 3] = [
    "section",
    "section",
    "sektion",
];

pub const FOOT_HELP: [&'static str; 3] = [
    "help",
    "aide",
    "hjælp",
];

pub const FOOT_QUIT: [&'static str; 3] = [
    "quit",
    "quitter",
    "afslut",
];

pub const HELP_TITLE: [&'static str; 3] = [
    "Help",
    "Aide",
    "Hjælp",
];

pub const HELP_HEADING: [&'static str; 3] = [
    "PaperBoy — Terminal UI",
    "PaperBoy — Interface Terminal",
    "PaperBoy — Terminalgrænseflade",
];

pub const HELP_TAB_SHORTCUTS: [&'static str; 3] = [
    "Shortcuts",
    "Raccourcis",
    "Genveje",
];

pub const HELP_TAB_GLOSSARY: [&'static str; 3] = [
    "Glossary",
    "Glossaire",
    "Ordliste",
];

pub const HELP_TAB_SWITCH_HINT: [&'static str; 3] = [
    "Tab / ←→ switch view · type to filter",
    "Tab / ←→ changer de vue · tapez pour filtrer",
    "Tab / ←→ skift visning · skriv for at filtrere",
];

pub const HELP_FILTER_LABEL: [&'static str; 3] = [
    "Filter: ",
    "Filtre : ",
    "Filter: ",
];

pub const HELP_FILTER_NO_MATCHES: [&'static str; 3] = [
    "No entries match — the filter applies per tab, so try another view (Tab / ←→).",
    "Aucune entrée ne correspond — le filtre s'applique par onglet, essayez une autre vue (Tab / ←→).",
    "Ingen poster matcher — filteret gælder pr. fane, så prøv en anden visning (Tab / ←→).",
];

pub const GLOSSARY_HEADING: [&'static str; 3] = [
    "Substitution colours & icons — Request JSON/Hurl view",
    "Couleurs et icônes de substitution — vue Requête JSON/Hurl",
    "Substitutionsfarver & ikoner — Request JSON/Hurl-visning",
];

pub const GLOSSARY_LABEL_LITERAL: [&'static str; 3] = [
    "literal",
    "littéral",
    "literal",
];

pub const GLOSSARY_DESC_LITERAL: [&'static str; 3] = [
    "A plain literal value from the active Environment, substituted directly.",
    "Une valeur littérale simple de l'environnement actif, substituée directement.",
    "En simpel literal værdi fra det aktive miljø, indsat direkte.",
];

pub const GLOSSARY_LABEL_LOADED: [&'static str; 3] = [
    "loaded",
    "chargé",
    "indlæst",
];

pub const GLOSSARY_DESC_LOADED: [&'static str; 3] = [
    "Resolved from an external source (environment variable, 1Password, SSM) or an initialised response capture.",
    "Résolu depuis une source externe (variable d'environnement, 1Password, SSM) ou une capture de réponse initialisée.",
    "Hentet fra en ekstern kilde (miljøvariabel, 1Password, SSM) eller et initialiseret svar-fangst.",
];

pub const GLOSSARY_LABEL_PENDING: [&'static str; 3] = [
    "loading",
    "en cours",
    "indlæser",
];

pub const GLOSSARY_DESC_PENDING: [&'static str; 3] = [
    "A secret reference still being fetched in the background; kept as \"{{ VAR }}\" until it resolves.",
    "Une référence à un secret encore en cours de récupération en arrière-plan\u{a0}; reste affichée sous forme \"{{ VAR }}\" jusqu'à sa résolution.",
    "En hemmelighedsreference, der stadig hentes i baggrunden; vises som \"{{ VAR }}\" indtil den er løst.",
];

pub const GLOSSARY_LABEL_FAILED: [&'static str; 3] = [
    "missing",
    "manquant",
    "mangler",
];

pub const GLOSSARY_DESC_FAILED: [&'static str; 3] = [
    "Failed to resolve, or a response capture not yet initialised — kept as \"{{ VAR }}\".",
    "Échec de la résolution, ou capture de réponse pas encore initialisée — reste affichée sous forme \"{{ VAR }}\".",
    "Kunne ikke løses, eller en svar-fangst der endnu ikke er initialiseret — vises som \"{{ VAR }}\".",
];

pub const GLOSSARY_LABEL_SHADOWED: [&'static str; 3] = [
    "shadowed",
    "masqué",
    "skygget",
];

pub const GLOSSARY_DESC_SHADOWED: [&'static str; 3] = [
    "This value comes from the active Global Environment, but is being overridden by the collection's linked Environment — the linked value is the one actually substituted.",
    "Cette valeur provient de l'environnement global actif, mais est masquée par l'environnement lié de la collection — c'est la valeur liée qui est réellement substituée.",
    "Denne værdi kommer fra det aktive globale miljø, men bliver overskygget af samlingens tilknyttede miljø — det er den tilknyttede værdi, der faktisk indsættes.",
];

pub const GLOSSARY_HEADING_ICONS: [&'static str; 3] = [
    "Other icons used throughout the app",
    "Autres icônes utilisées dans l'application",
    "Andre ikoner brugt i appen",
];

pub const GLOSSARY_LABEL_MODIFIED: [&'static str; 3] = [
    "modified",
    "modifié",
    "ændret",
];

pub const GLOSSARY_DESC_MODIFIED: [&'static str; 3] = [
    "A pencil marks a request, header, or variable that has been edited away from its originally loaded value.",
    "Un crayon marque une requête, un en-tête ou une variable modifiée par rapport à sa valeur chargée d'origine.",
    "En blyant markerer en request, header eller variabel, der er redigeret væk fra sin oprindeligt indlæste værdi.",
];

pub const GLOSSARY_LABEL_ADDED: [&'static str; 3] = [
    "added",
    "ajouté",
    "tilføjet",
];

pub const GLOSSARY_DESC_ADDED: [&'static str; 3] = [
    "A plus marks a request or variable added by hand, rather than loaded from a file.",
    "Un plus marque une requête ou une variable ajoutée manuellement, plutôt que chargée depuis un fichier.",
    "Et plus markerer en request eller variabel, der er tilføjet manuelt i stedet for indlæst fra en fil.",
];

pub const GLOSSARY_LABEL_PASSED: [&'static str; 3] = [
    "passed / active",
    "réussi / actif",
    "bestået / aktiv",
];

pub const GLOSSARY_DESC_PASSED: [&'static str; 3] = [
    "A request or assertion that passed in the last \"Run All\", or the currently active Global Environment in its list.",
    "Une requête ou assertion réussie lors du dernier \"Tout exécuter\", ou l'environnement global actuellement actif dans sa liste.",
    "En request eller assertion, der bestod ved sidste \"Kør alle\", eller det globale miljø, der aktuelt er aktivt i sin liste.",
];

pub const GLOSSARY_LABEL_RUN_FAILED: [&'static str; 3] = [
    "failed",
    "échoué",
    "fejlede",
];

pub const GLOSSARY_DESC_RUN_FAILED: [&'static str; 3] = [
    "A request or assertion that failed in the last \"Run All\".",
    "Une requête ou assertion en échec lors du dernier \"Tout exécuter\".",
    "En request eller assertion, der fejlede ved sidste \"Kør alle\".",
];

pub const GLOSSARY_LABEL_RUNNING: [&'static str; 3] = [
    "running",
    "en cours",
    "kører",
];

pub const GLOSSARY_DESC_RUNNING: [&'static str; 3] = [
    "A request that is still running as part of a batch \"Run All\".",
    "Une requête encore en cours d'exécution dans un lot \"Tout exécuter\".",
    "En request, der stadig kører som en del af en batch \"Kør alle\".",
];

pub const GLOSSARY_LABEL_GIT: [&'static str; 3] = [
    "git-linked",
    "lié à git",
    "git-tilknyttet",
];

pub const GLOSSARY_DESC_GIT: [&'static str; 3] = [
    "This Collection, Environment, or Workspace was loaded from, and is linked to, a git remote.",
    "Cette collection, cet environnement ou cet espace de travail a été chargé depuis, et reste lié à, une origine git distante.",
    "Denne samling, dette miljø eller denne Workspace blev indlæst fra, og er stadig tilknyttet, en git-fjernserver.",
];

pub const GLOSSARY_LABEL_LINKED: [&'static str; 3] = [
    "linked environment",
    "environnement lié",
    "tilknyttet miljø",
];

pub const GLOSSARY_DESC_LINKED: [&'static str; 3] = [
    "Joins a Collection's tab/title to the Global Environment linked to it.",
    "Relie l'onglet/titre d'une collection à l'environnement global qui lui est lié.",
    "Forbinder en samlings faneblad/titel til det globale miljø, den er tilknyttet.",
];

pub const GLOSSARY_LABEL_FOLDER: [&'static str; 3] = [
    "folder",
    "dossier",
    "mappe",
];

pub const GLOSSARY_DESC_FOLDER: [&'static str; 3] = [
    "A subfolder grouping requests in the list, or — next to a File-type form value — a hint that pressing Enter opens a file picker.",
    "Un sous-dossier regroupant des requêtes dans la liste, ou — à côté d'une valeur de formulaire de type Fichier — une indication que Entrée ouvre un sélecteur de fichier.",
    "En undermappe, der grupperer requests i listen, eller — ved siden af en formularværdi af typen Fil — et hint om, at Enter åbner en filvælger.",
];

pub const GLOSSARY_LABEL_SCROLL_HINT: [&'static str; 3] = [
    "more text",
    "plus de texte",
    "mere tekst",
];

pub const GLOSSARY_DESC_SCROLL_HINT: [&'static str; 3] = [
    "Shown at the edge of a truncated line when there is more hidden text to scroll to in that direction.",
    "Affiché au bord d'une ligne tronquée lorsqu'il reste du texte masqué à faire défiler dans cette direction.",
    "Vises i kanten af en afkortet linje, når der er mere skjult tekst at rulle til i den retning.",
];

pub const HELP_FOCUS: [&'static str; 3] = [
    "cycle focus between panes",
    "changer de panneau",
    "skift mellem paneler",
];

pub const HELP_MOVE: [&'static str; 3] = [
    "move within a pane",
    "se déplacer dans un panneau",
    "flyt inden for et panel",
];

pub const HELP_PAGE_RESPONSE: [&'static str; 3] = [
    "page up/down through the Response body",
    "page précédente/suivante dans le corps de la réponse",
    "side op/ned gennem svar-teksten",
];

pub const HELP_SWITCH_TABS: [&'static str; 3] = [
    "switch tabs (Tabs pane)",
    "changer d'onglet (panneau Onglets)",
    "skift faner (Faner-panel)",
];

pub const HELP_SELECT: [&'static str; 3] = [
    "select / edit focused item (wizard)",
    "sélectionner / modifier l'élément (assistant)",
    "vælg / rediger det fokuserede element (guiden)",
];

pub const HELP_RUN: [&'static str; 3] = [
    "send request / run entry",
    "envoyer la requête / exécuter l'entrée",
    "send anmodning / kør post",
];

pub const HELP_RUN_ALL: [&'static str; 3] = [
    "run every request in the collection, in order (like the CLI)",
    "exécuter toutes les requêtes de la collection, dans l'ordre (comme la CLI)",
    "kør alle anmodninger i samlingen, i rækkefølge (som CLI'en)",
];

pub const HELP_RAW_MODE: [&'static str; 3] = [
    "edit selected request in Raw Mode (Hurl text)",
    "modifier la requête sélectionnée en mode brut (texte Hurl)",
    "rediger den valgte anmodning i råtilstand (Hurl-tekst)",
];

pub const HELP_RAW_JSON: [&'static str; 3] = [
    "edit selected request in Raw Mode (JSON text)",
    "modifier la requête sélectionnée en mode brut (texte JSON)",
    "rediger den valgte anmodning i råtilstand (JSON-tekst)",
];

pub const HELP_NEW: [&'static str; 3] = [
    "new request (or add variable, in the environment popup)",
    "nouvelle requête (ou ajouter une variable, dans la popup d'environnement)",
    "ny anmodning (eller tilføj variabel, i miljø-popup'en)",
];

pub const HELP_BASE_URL: [&'static str; 3] = [
    "edit default new-request URL",
    "modifier l'URL par défaut des nouvelles requêtes",
    "rediger standard-URL for nye anmodninger",
];

pub const HELP_MENUS: [&'static str; 3] = [
    "File / Settings menu",
    "menu Fichier / Paramètres",
    "Fil- / Indstillinger-menu",
];

pub const HELP_SAVE_ACTIVE: [&'static str; 3] = [
    "save what's on screen (report, else collection)",
    "enregistrer ce qui est à l'écran (rapport, sinon collection)",
    "gem det viste (rapport, ellers samling)",
];

pub const HELP_WORKSPACE_BROWSE: [&'static str; 3] = [
    "Browse Workspace (choose a collection file)",
    "Parcourir le Workspace (choisir un fichier de collection)",
    "Gennemse Workspace (vælg en samlingsfil)",
];

pub const HELP_WORKSPACE_NEW_ITEM: [&'static str; 3] = [
    "new collection / report / environment in the workspace (name it .hurl, .trail or .vars)",
    "nouvelle collection / rapport / environnement dans l'espace de travail (nommez-le .hurl, .trail ou .vars)",
    "ny samling / rapport / miljø i arbejdsområdet (navngiv den .hurl, .trail eller .vars)",
];

pub const HELP_WORKSPACE_MOVE_ITEM: [&'static str; 3] = [
    "move the highlighted workspace file or folder to another folder",
    "déplacer le fichier ou dossier d'espace de travail en surbrillance vers un autre dossier",
    "flyt den fremhævede workspace-fil eller -mappe til en anden mappe",
];

pub const HELP_WORKSPACE_OPEN: [&'static str; 3] = [
    "open the highlighted workspace folder / collection (→ or Enter)",
    "ouvrir le dossier / la collection du workspace en surbrillance (→ ou Entrée)",
    "åbn den fremhævede workspace-mappe / -samling (→ eller Enter)",
];

pub const HELP_MENU_SUBMENU_NAV: [&'static str; 3] = [
    "enter / leave a File-menu submenu",
    "entrer / quitter un sous-menu du menu Fichier",
    "gå ind i / ud af en Fil-menu-undermenu",
];

pub const HELP_BROWSER_RESET: [&'static str; 3] = [
    "reset the file browser to the folder it opened in",
    "réinitialiser l'explorateur de fichiers au dossier d'ouverture",
    "nulstil filvælgeren til den mappe, den åbnede i",
];

pub const HELP_PREV_NEXT_TAB: [&'static str; 3] = [
    "previous / next tab",
    "onglet précédent / suivant",
    "forrige / næste fane",
];

pub const HELP_RENAME_CLOSE: [&'static str; 3] = [
    "rename tab (F2) · delete request / close collection tab",
    "renommer l'onglet (F2) · supprimer la requête / fermer l'onglet",
    "omdøb fane (F2) · slet anmodning / luk samlingsfane",
];

pub const HELP_RELOAD_VAR: [&'static str; 3] = [
    "reload a failed environment entry (env var / 1Password / SSM)",
    "recharger une entrée d'environnement en échec (var d'env / 1Password / SSM)",
    "genindlæs en mislykket miljøvariabel (miljøvariabel / 1Password / SSM)",
];

pub const HELP_ENV_ACTIVATE: [&'static str; 3] = [
    "activate / deactivate the selected Global Environment",
    "activer / désactiver l'environnement global sélectionné",
    "aktivér / deaktivér det valgte globale miljø",
];

pub const HELP_ENV_DELETE: [&'static str; 3] = [
    "delete the selected Global Environment (unlinks any collections using it)",
    "supprimer l'environnement global sélectionné (délie les collections qui l'utilisent)",
    "slet det valgte globale miljø (fjerner link fra samlinger, der bruger det)",
];

pub const HELP_ENV_REOPEN: [&'static str; 3] = [
    "reopen the most recently deleted Global Environment",
    "rouvrir l'environnement global supprimé le plus récemment",
    "genåbn det senest slettede globale miljø",
];

pub const HELP_ENV_LINK: [&'static str; 3] = [
    "link / unlink a Global Environment to the active collection",
    "lier / délier un environnement global à la collection active",
    "link / afkobl et globalt miljø til den aktive samling",
];

pub const HELP_ENV_VIEW_LINKED: [&'static str; 3] = [
    "view the active collection's linked Global Environment",
    "afficher l'environnement global lié à la collection active",
    "vis den aktive samlings tilknyttede globale miljø",
];

pub const HELP_ENV_RENAME: [&'static str; 3] = [
    "rename the selected Global Environment",
    "renommer l'environnement global sélectionné",
    "omdøb det valgte globale miljø",
];

pub const HELP_ENV_FILTER: [&'static str; 3] = [
    "filter the environments list by name (Esc clears it)",
    "filtrer la liste des environnements par nom (Échap l'efface)",
    "filtrér miljølisten efter navn (Esc rydder det)",
];

pub const HELP_ENV_SOURCE: [&'static str; 3] = [
    "cycle environment source",
    "changer la source des environnements",
    "skift miljøkilde",
];

pub const HELP_ENV_GOTO_ACTIVE: [&'static str; 3] = [
    "jump to the active environment (widens the filters if it is hidden)",
    "aller à l'environnement actif (élargit les filtres s'il est masqué)",
    "gå til det aktive miljø (udvider filtrene, hvis det er skjult)",
];

pub const HELP_ENV_ACTIVATE_WORKSPACE: [&'static str; 3] = [
    "activate the selected workspace environment file",
    "activer le fichier d'environnement sélectionné de l'espace de travail",
    "aktivér arbejdsområdets valgte miljøfil",
];

pub const HELP_REVERT_REQUEST: [&'static str; 3] = [
    "revert the selected request to its last saved version on disk",
    "rétablir la requête sélectionnée à sa dernière version enregistrée sur le disque",
    "gendan den valgte anmodning til dens sidst gemte version på disken",
];

pub const HELP_REVERT_ENV: [&'static str; 3] = [
    "revert the whole environment to its last saved values on disk",
    "rétablir tout l'environnement à ses dernières valeurs enregistrées sur le disque",
    "gendan hele miljøet til dets sidst gemte værdier på disken",
];

pub const HELP_RESIZE: [&'static str; 3] = [
    "shrink / grow response pane",
    "réduire / agrandir le panneau de réponse",
    "formindsk / forøg svarpanelet",
];

pub const HELP_RESIZE_WIDTH: [&'static str; 3] = [
    "grow / shrink left column",
    "agrandir / réduire la colonne de gauche",
    "forøg / formindsk venstre kolonne",
];

pub const HELP_TAB_MANAGE: [&'static str; 3] = [
    "close / reopen collection or workspace tab",
    "fermer / rouvrir un onglet de collection ou d'espace de travail",
    "luk / genåbn samlings- eller workspace-fane",
];

pub const HELP_TAB_REORDER: [&'static str; 3] = [
    "reorder tabs",
    "réorganiser les onglets",
    "omarranger faner",
];

pub const HELP_RESTORE_REQUEST: [&'static str; 3] = [
    "restore deleted request (List pane)",
    "restaurer la requête supprimée (volet Liste)",
    "gendan slettet anmodning (Liste-rude)",
];

pub const HELP_MOVE_REQUEST: [&'static str; 3] = [
    "move request to another collection (workspace, List pane)",
    "déplacer la requête vers une autre collection (espace de travail, volet Liste)",
    "flyt anmodning til en anden samling (arbejdsområde, Liste-rude)",
];

pub const HELP_COPY_REQUEST: [&'static str; 3] = [
    "copy request to another collection (workspace, List pane)",
    "copier la requête vers une autre collection (espace de travail, volet Liste)",
    "kopiér anmodning til en anden samling (arbejdsområde, Liste-rude)",
];

pub const HELP_REORDER_REQUEST: [&'static str; 3] = [
    "move the request up/down the collection — the order Run All follows (List pane)",
    "déplacer la requête vers le haut/bas — l'ordre suivi par Tout exécuter (volet Liste)",
    "flyt anmodningen op/ned i samlingen — den rækkefølge Kør alle følger (Liste-ruden)",
];

pub const HELP_DUPLICATE_REQUEST: [&'static str; 3] = [
    "duplicate the request in place (List pane)",
    "dupliquer la requête sur place (volet Liste)",
    "duplikér anmodningen på stedet (Liste-ruden)",
];

pub const FOOT_DUPLICATE: [&'static str; 3] = [
    "duplicate",
    "dupliquer",
    "duplikér",
];

pub const FOOT_COPY_REQUEST: [&'static str; 3] = [
    "copy request",
    "copier la requête",
    "kopiér anmodning",
];

pub const FOOT_REORDER: [&'static str; 3] = [
    "reorder",
    "réordonner",
    "omarrangér",
];

pub const FOOT_FIND_REQUEST: [&'static str; 3] = [
    "find request",
    "chercher requête",
    "find forespørgsel",
];

pub const HELP_FIND_REQUEST: [&'static str; 3] = [
    "find a request anywhere in the collection — or any row of a workspace tree (Esc clears it)",
    "chercher une requête dans toute la collection — ou n'importe quelle ligne d'un arbre d'espace de travail (Échap l'efface)",
    "find en forespørgsel hvor som helst i samlingen — eller en vilkårlig række i et arbejdsområdetræ (Esc rydder det)",
];

pub const HELP_ROW_TOGGLE_DELETE: [&'static str; 3] = [
    "in wizard tables: ^E toggle row enabled, ^D delete row",
    "dans les tableaux : ^E activer/désactiver la ligne, ^D supprimer la ligne",
    "i guidens tabeller: ^E slå række til/fra, ^D slet række",
];

pub const HELP_COPY_SELECTION: [&'static str; 3] = [
    "copy the selection, or the whole panel if nothing is selected (Request JSON / Request Hurl / Response panel)",
    "copier la sélection, ou tout le panneau si rien n'est sélectionné (panneau JSON de requête / Hurl de requête / réponse)",
    "kopiér markeringen, eller hele ruden hvis intet er markeret (Request JSON / Request Hurl / Response-rude)",
];

pub const HELP_CTRL_C: [&'static str; 3] = [
    "copy the selection; with nothing selected, ask whether to quit",
    "copier la sélection\u{a0}; si rien n'est sélectionné, demander s'il faut quitter",
    "kopiér markeringen; hvis intet er markeret, spørg om der skal afsluttes",
];

pub const HELP_COMPACT: [&'static str; 3] = [
    "toggle Response compact view (copy still yields the full body)",
    "basculer l'aperçu compact de la réponse (la copie donne le corps complet)",
    "slå Response-kompaktvisning til/fra (kopiering giver hele brødteksten)",
];

pub const HELP_RESPONSE_SECTION: [&'static str; 3] = [
    "step the Response section tabs (Body / Headers); Shift+I steps back",
    "parcourir les onglets de section de la réponse (corps / en-têtes)\u{a0}; Maj+I revient en arrière",
    "gennemgå Response-sektionsfanerne (Body / Headere); Skift+I går tilbage",
];

pub const HELP_MULTI_SELECT: [&'static str; 3] = [
    "Alt+Click+Drag adds another selection region (plain click clears all)",
    "Alt+Clic+Glisser ajoute une autre zone de sélection (un clic simple efface tout)",
    "Alt+Klik+Træk tilføjer endnu et markeringsområde (almindeligt klik rydder alt)",
];

pub const HELP_SAVE_EDITOR: [&'static str; 3] = [
    "save a multi-line editor",
    "enregistrer un éditeur multi-lignes",
    "gem en flerlinjet editor",
];

pub const HELP_CANCEL: [&'static str; 3] = [
    "close menu / cancel edit",
    "fermer le menu / annuler la modification",
    "luk menu / annuller redigering",
];

pub const HELP_QUIT: [&'static str; 3] = [
    "quit",
    "quitter",
    "afslut",
];

pub const HELP_GROUP_NAVIGATION: [&'static str; 3] = [
    "Navigation",
    "Navigation",
    "Navigation",
];

pub const HELP_GROUP_TABS: [&'static str; 3] = [
    "Tabs",
    "Onglets",
    "Faner",
];

pub const HELP_GROUP_REQUESTS: [&'static str; 3] = [
    "Requests & Running",
    "Requêtes et exécution",
    "Anmodninger og kørsel",
];

pub const HELP_GROUP_MENUS: [&'static str; 3] = [
    "Menus & Workspace",
    "Menus et Workspace",
    "Menuer og Workspace",
];

pub const HELP_GROUP_ENVIRONMENTS: [&'static str; 3] = [
    "Environments",
    "Environnements",
    "Miljøer",
];

pub const HELP_GROUP_EDITING: [&'static str; 3] = [
    "Editing & Selection",
    "Édition et sélection",
    "Redigering og markering",
];

pub const HELP_GROUP_PANELS: [&'static str; 3] = [
    "Panels & General",
    "Panneaux et général",
    "Paneler og generelt",
];

pub const HELP_GROUP_REPORTS: [&'static str; 3] = [
    "Reports",
    "Rapports",
    "Rapporter",
];

pub const HELP_REPORT_NEW: [&'static str; 3] = [
    "new report tab (from any view)",
    "nouvel onglet de rapport (depuis n'importe quelle vue)",
    "ny rapportfane (fra enhver visning)",
];

pub const HELP_REPORT_EDIT: [&'static str; 3] = [
    "edit the raw report source (type directly in the panel)",
    "modifier la source brute du rapport (saisir directement dans le panneau)",
    "rediger den rå rapportkilde (skriv direkte i panelet)",
];

pub const HELP_REPORT_LEAVE_EDIT: [&'static str; 3] = [
    "leave edit focus (single letters are shortcuts again)",
    "quitter le mode édition (les lettres redeviennent des raccourcis)",
    "forlad redigering (enkelte bogstaver er genveje igen)",
];

pub const HELP_REPORT_WORD_MOVE: [&'static str; 3] = [
    "move the cursor a word at a time (while editing)",
    "déplacer le curseur d'un mot à la fois (en édition)",
    "flyt markøren et ord ad gangen (under redigering)",
];

pub const HELP_REPORT_COMPLETE: [&'static str; 3] = [
    "fill in the suggested request name (while editing)",
    "compléter le nom de requête suggéré (en édition)",
    "udfyld det foreslåede anmodningsnavn (under redigering)",
];

pub const HELP_REPORT_RUN: [&'static str; 3] = [
    "run the report and show its results grid",
    "exécuter le rapport et afficher sa grille de résultats",
    "kør rapporten og vis resultatgitteret",
];

pub const HELP_REPORT_DRY_RUN: [&'static str; 3] = [
    "preview the projected rows without sending any requests",
    "prévisualiser les lignes prévues sans envoyer de requêtes",
    "forhåndsvis de forventede rækker uden at sende anmodninger",
];

pub const HELP_REPORT_VIEW: [&'static str; 3] = [
    "toggle between the source and the results grid",
    "basculer entre la source et la grille de résultats",
    "skift mellem kilden og resultatgitteret",
];

pub const HELP_REPORT_NODES: [&'static str; 3] = [
    "open the structured node editor (Esc returns to the source)",
    "ouvrir l'éditeur de nœuds structuré (Échap revient à la source)",
    "åbn den strukturerede node-editor (Esc vender tilbage til kilden)",
];

pub const HELP_REPORT_NODES_EDIT: [&'static str; 3] = [
    "in the node editor: a add · Enter configure · e edit line · f File menu · Del remove · Shift+↑/↓ move · Ctrl+Z undo",
    "dans l'éditeur de nœuds : a ajouter · Entrée configurer · e modifier la ligne · f menu Fichier · Suppr retirer · Maj+↑/↓ déplacer · Ctrl+Z annuler",
    "i node-editoren: a tilføj · Enter konfigurer · e rediger linje · f Fil-menu · Del fjern · Skift+↑/↓ flyt · Ctrl+Z fortryd",
];

pub const HELP_REPORT_NODES_FORMS: [&'static str; 3] = [
    "every block has a form: requests carry SHOW / HIDE / WITH (with STATISTICS), loops carry PARALLEL(n), and a compare loop carries the baseline's SHOW",
    "chaque bloc a un formulaire : les requêtes portent SHOW / HIDE / WITH (avec STATISTICS), les boucles portent PARALLEL(n), et une boucle de comparaison porte le SHOW de la référence",
    "hver blok har en formular: forespørgsler bærer SHOW / HIDE / WITH (med STATISTICS), løkker bærer PARALLEL(n), og en sammenligningsløkke bærer referencens SHOW",
];

pub const HELP_REPORT_FOCUS_CYCLE: [&'static str; 3] = [
    "cycle focus: editor → results → editor (tree included for workspace reports)",
    "faire défiler le focus : éditeur → résultats → éditeur (arbre inclus pour les rapports d'espace de travail)",
    "skift fokus: editor → resultater → editor (træ inkluderet for workspace-rapporter)",
];

pub const HELP_REPORT_WORKSPACE_TREE: [&'static str; 3] = [
    "in a workspace report: ↑↓ move the pinned tree · Enter open a report/collection · ←/→ up/into a folder",
    "dans un rapport d'espace de travail : ↑↓ déplacer l'arbre épinglé · Entrée ouvrir un rapport/une collection · ←/→ monter/entrer dans un dossier",
    "i en arbejdsområderapport: ↑↓ flyt det fastgjorte træ · Enter åbn en rapport/samling · ←/→ op/ind i en mappe",
];

pub const HELP_REPORT_EXPORT: [&'static str; 3] = [
    "export the last run (CSV / JSON / HTML / xlsx by extension)",
    "exporter la dernière exécution (CSV / JSON / HTML / xlsx selon l'extension)",
    "eksportér den seneste kørsel (CSV / JSON / HTML / xlsx efter filtype)",
];

pub const HELP_REPORT_BASELINE: [&'static str; 3] = [
    "save the last run as a .baseline snapshot — reference it later with BASELINE(FILE) or COMPARISON(FILE)",
    "enregistrer la dernière exécution comme instantané .baseline — à réutiliser via BASELINE(FILE) ou COMPARISON(FILE)",
    "gem den seneste kørsel som et .baseline-øjebliksbillede — genbrug det med BASELINE(FILE) eller COMPARISON(FILE)",
];

pub const HELP_REPORT_COLUMNS: [&'static str; 3] = [
    "pick, reorder and rename the report's output columns",
    "choisir, réordonner et renommer les colonnes de sortie du rapport",
    "vælg, omorden og omdøb rapportens outputkolonner",
];

pub const HELP_REPORT_PARAMS: [&'static str; 3] = [
    "show or hide the values this report asks for before it runs (its PARAMs)",
    "afficher ou masquer les valeurs que ce rapport demande avant son exécution (ses PARAM)",
    "vis eller skjul de værdier, denne rapport beder om, før den kører (dens PARAM)",
];

pub const HELP_REPORT_BIND: [&'static str; 3] = [
    "bind the report to one of the open collections",
    "lier le rapport à l'une des collections ouvertes",
    "bind rapporten til en af de åbne samlinger",
];

pub const HELP_TAB_REPORTS: [&'static str; 3] = [
    "Reports",
    "Rapports",
    "Rapporter",
];

pub const HELP_REPORTS_ABOUT_HEADING: [&'static str; 3] = [
    "What is a report?",
    "Qu'est-ce qu'un rapport ?",
    "Hvad er en rapport?",
];

pub const HELP_REPORTS_ABOUT_1: [&'static str; 3] = [
    "A report is a saved flow that drives a bound collection against ranges of files or environments and collects the results into a table.",
    "Un rapport est un flux enregistré qui exécute une collection liée sur des ensembles de fichiers ou d'environnements et rassemble les résultats dans un tableau.",
    "En rapport er et gemt flow, der kører en bundet samling mod intervaller af filer eller miljøer og samler resultaterne i en tabel.",
];

pub const HELP_REPORTS_ABOUT_2: [&'static str; 3] = [
    "A programmer writes the flow once; someone with little technical skill then runs it. A report is bound to a collection by name and can be re-pointed at another.",
    "Un programmeur écrit le flux une fois ; une personne peu technique l'exécute ensuite. Un rapport est lié à une collection par son nom et peut être redirigé vers une autre.",
    "En programmør skriver flowet én gang; en person med få tekniske færdigheder kører det derefter. En rapport er bundet til en samling ved navn og kan pege på en anden.",
];

pub const HELP_REPORTS_SHORTCUTS_HEADING: [&'static str; 3] = [
    "Report shortcuts",
    "Raccourcis de rapport",
    "Rapportgenveje",
];

pub const HELP_REPORTS_GRAMMAR_HEADING: [&'static str; 3] = [
    "Flow language",
    "Langage de flux",
    "Flow-sprog",
];

pub const HELP_REPORTS_LOOPS_HEADING: [&'static str; 3] = [
    "Loops & producers",
    "Boucles et sources",
    "Løkker og kilder",
];

pub const HELP_GRAMMAR_COLLECTION: [&'static str; 3] = [
    "bind the report to a collection (required)",
    "lier le rapport à une collection (obligatoire)",
    "bind rapporten til en samling (påkrævet)",
];

pub const HELP_GRAMMAR_NAME: [&'static str; 3] = [
    "report name; {time} stamps written files (YYYY-MM-DD-HHMMSS)",
    "nom du rapport ; {time} horodate les fichiers écrits (AAAA-MM-JJ-HHMMSS)",
    "rapportnavn; {time} tidsstempler skrevne filer (ÅÅÅÅ-MM-DD-TTMMSS)",
];

pub const HELP_GRAMMAR_ENVIRONMENT: [&'static str; 3] = [
    "run against one loaded environment (optional; no comparison)",
    "exécuter avec un environnement chargé (optionnel ; sans comparaison)",
    "kør mod ét indlæst miljø (valgfrit; ingen sammenligning)",
];

pub const HELP_GRAMMAR_ASSIGN: [&'static str; 3] = [
    "set a variable, used elsewhere as {{KEY}}",
    "définir une variable, utilisée ailleurs comme {{KEY}}",
    "sæt en variabel, brugt andre steder som {{KEY}}",
];

pub const HELP_GRAMMAR_REQUEST: [&'static str; 3] = [
    "send a request by name (no output row)",
    "envoyer une requête par son nom (sans ligne de sortie)",
    "send en anmodning ved navn (ingen outputrække)",
];

pub const HELP_GRAMMAR_REPORT: [&'static str; 3] = [
    "send a request and add its fields as columns",
    "envoyer une requête et ajouter ses champs comme colonnes",
    "send en anmodning og tilføj dens felter som kolonner",
];

pub const HELP_GRAMMAR_SHOW: [&'static str; 3] = [
    "keep only these response fields (drop a heavy Response)",
    "ne garder que ces champs de réponse (retirer une réponse volumineuse)",
    "behold kun disse svarfelter (drop et tungt Response)",
];

pub const HELP_GRAMMAR_HIDE: [&'static str; 3] = [
    "drop these response fields (applied last)",
    "retirer ces champs de réponse (appliqué en dernier)",
    "fjern disse svarfelter (anvendes sidst)",
];

pub const HELP_GRAMMAR_STATISTICS: [&'static str; 3] = [
    "summary footer for a column: MEAN/MEDIAN/… or DISTRIBUTION",
    "pied de résumé d'une colonne : MEAN/MEDIAN/… ou DISTRIBUTION",
    "opsummeringsfod for en kolonne: MEAN/MEDIAN/… eller DISTRIBUTION",
];

pub const HELP_GRAMMAR_IMAGE: [&'static str; 3] = [
    "draw the column's value (URL, path, base64) as a picture; HEIGHT/WIDTH/FIT size it",
    "dessine la valeur de la colonne (URL, chemin, base64) comme une image ; HEIGHT/WIDTH/FIT la dimensionnent",
    "tegn kolonnens værdi (URL, sti, base64) som et billede; HEIGHT/WIDTH/FIT angiver størrelsen",
];

pub const HELP_GRAMMAR_WITH: [&'static str; 3] = [
    "field may alias an intrinsic, add STATISTICS, or be quoted",
    "un champ peut aliaser un intrinsèque, STATISTICS, ou être cité",
    "et felt kan aliasere en intrinsic, STATISTICS eller citeres",
];

pub const HELP_GRAMMAR_PARALLEL: [&'static str; 3] = [
    "prefix a FOR to run its iterations concurrently",
    "préfixer un FOR pour exécuter ses itérations en parallèle",
    "sæt foran et FOR for at køre dets gentagelser samtidigt",
];

pub const HELP_GRAMMAR_FOR: [&'static str; 3] = [
    "loop over a source, binding VAR each pass; END closes it",
    "boucler sur une source, en liant VAR à chaque passage ; END la ferme",
    "gennemløb en kilde og bind VAR hver gang; END lukker den",
];

pub const HELP_GRAMMAR_FOR_TUPLE: [&'static str; 3] = [
    "destructure each tuple into several variables",
    "décomposer chaque tuple en plusieurs variables",
    "udpak hver tuple i flere variabler",
];

pub const HELP_GRAMMAR_PATTERN: [&'static str; 3] = [
    "'_' skips a position; '...' absorbs the rest",
    "« _ » ignore une position ; « ... » absorbe le reste",
    "« _ » springer en position over; « ... » opsamler resten",
];

pub const HELP_GRAMMAR_LIST: [&'static str; 3] = [
    "name a source so a loop can reuse it below",
    "nommer une source pour qu'une boucle la réutilise",
    "navngiv en kilde, så en løkke kan genbruge den nedenfor",
];

pub const HELP_GRAMMAR_LIST_LITERAL: [&'static str; 3] = [
    "an inline list of scalars or (\"a\", \"b\") tuples",
    "une liste littérale de scalaires ou de tuples (\"a\", \"b\")",
    "en inline-liste af skalarer eller (\"a\", \"b\")-tupler",
];

pub const HELP_GRAMMAR_FILES: [&'static str; 3] = [
    "file paths under a folder (glob *, ** — not regex)",
    "chemins de fichiers dans un dossier (glob *, ** — pas regex)",
    "filstier i en mappe (glob *, ** — ikke regex)",
];

pub const HELP_GRAMMAR_FOLDERS: [&'static str; 3] = [
    "subfolders (glob filters names, ** recurses); each role-glob binds one file per folder, r=\"g\"? optional",
    "sous-dossiers (le glob filtre les noms, ** descend) ; chaque glob de rôle lie un fichier par dossier, r=\"g\"? facultatif",
    "undermapper (glob filtrerer navne, ** går i dybden); hvert rolle-glob binder én fil per mappe, r=\"g\"? valgfri",
];

pub const HELP_GRAMMAR_TUPLES: [&'static str; 3] = [
    "rows from a .csv/.tsv/.json file (headers name fields)",
    "lignes d'un fichier .csv/.tsv/.json (les en-têtes nomment les champs)",
    "rækker fra en .csv/.tsv/.json-fil (overskrifter navngiver felter)",
];

pub const HELP_GRAMMAR_ZIP: [&'static str; 3] = [
    "pair sources positionally (must be equal length)",
    "apparier les sources par position (longueurs égales)",
    "par kilder positionelt (skal have samme længde)",
];

pub const HELP_GRAMMAR_CONCAT: [&'static str; 3] = [
    "append sources end-to-end (same arity)",
    "concaténer les sources bout à bout (même arité)",
    "sammenkæd kilder efter hinanden (samme aritet)",
];

pub const HELP_GRAMMAR_ENVS: [&'static str; 3] = [
    "loop over environments (BASELINE/COMPARISON to diff)",
    "boucler sur des environnements (BASELINE/COMPARISON pour comparer)",
    "gennemløb miljøer (BASELINE/COMPARISON for at sammenligne)",
];

pub const HELP_GRAMMAR_BASELINE_FILE: [&'static str; 3] = [
    "use a saved .baseline snapshot as a role instead of a live env",
    "utiliser un instantané .baseline enregistré comme rôle au lieu d'un environnement",
    "brug et gemt .baseline-øjebliksbillede som rolle i stedet for et live-miljø",
];

pub const HELP_GRAMMAR_RESULT: [&'static str; 3] = [
    "diff column: candidate vs baseline env, per reported field",
    "colonne de différence : candidat vs référence, par champ rapporté",
    "forskelskolonne: kandidat vs. reference, pr. rapporteret felt",
];

pub const NEW_REQUEST_HINT: [&'static str; 3] = [
    "Tab/arrows move · PgUp/PgDn tab · Alt+1-9 jump · ^Enter/F2 create · Esc cancel",
    "Tab/flèches se déplacer · PgUp/PgDn onglet · Alt+1-9 aller à · ^Entrée/F2 créer · Échap annuler",
    "Tab/pile flyt · PgUp/PgDn faneblad · Alt+1-9 hop til · ^Enter/F2 opret · Esc annuller",
];

pub const EDIT_REQUEST_HINT: [&'static str; 3] = [
    "Tab/arrows move · PgUp/PgDn tab · Alt+1-9 jump · ^Enter/F2 save · Esc cancel",
    "Tab/flèches se déplacer · PgUp/PgDn onglet · Alt+1-9 aller à · ^Entrée/F2 enregistrer · Échap annuler",
    "Tab/pile flyt · PgUp/PgDn faneblad · Alt+1-9 hop til · ^Enter/F2 gem · Esc annuller",
];

pub const RAW_MODE_HINT: [&'static str; 3] = [
    "Edit the raw Hurl text · F2/^Enter reparse & save · Esc cancel · Shift+Arrow select · ^Y copy",
    "Modifiez le texte Hurl brut · F2/^Entrée réanalyser et enregistrer · Échap annuler · Maj+Flèche sélection · ^Y copier",
    "Rediger den rå Hurl-tekst · F2/^Enter genfortolk & gem · Esc annuller · Shift+Pil markér · ^Y kopiér",
];

pub const RAW_JSON_HINT: [&'static str; 3] = [
    "Edit the raw JSON · F2/^Enter reparse & save · Esc cancel · Shift+Arrow select · ^Y copy",
    "Modifiez le JSON brut · F2/^Entrée réanalyser et enregistrer · Échap annuler · Maj+Flèche sélection · ^Y copier",
    "Rediger den rå JSON · F2/^Enter genfortolk & gem · Esc annuller · Shift+Pil markér · ^Y kopiér",
];

pub const CTRL_ENTER_KEY: [&'static str; 3] = [
    "^Enter",
    "^Entrée",
    "^Enter",
];

pub const PROMPT_RENAME_TITLE: [&'static str; 3] = [
    "Rename tab",
    "Renommer l'onglet",
    "Omdøb fane",
];

pub const PROMPT_ENTER_PATH: [&'static str; 3] = [
    "enter path",
    "saisir le chemin",
    "indtast sti",
];

pub const PROMPT_SAVE_HINT_ML: [&'static str; 3] = [
    "F2 save · Esc cancel",
    "F2 enregistrer · Échap annuler",
    "F2 gem · Esc annuller",
];

pub const PROMPT_SAVE_HINT_SL: [&'static str; 3] = [
    "Enter save · Esc cancel",
    "Entrée enregistrer · Échap annuler",
    "Enter gem · Esc annuller",
];

pub const PROMPT_RESET_HINT: [&'static str; 3] = [
    "^R reset",
    "^R réinitialiser",
    "^R nulstil",
];

pub const BROWSER_SELECT_FILE: [&'static str; 3] = [
    "Select file",
    "Sélectionner un fichier",
    "Vælg fil",
];

pub const BROWSER_HINT: [&'static str; 3] = [
    "Enter open · type to filter · ← parent · ^h hidden · ^r reset · Esc cancel",
    "Entrée ouvrir · taper pour filtrer · ← dossier parent · ^h fichiers cachés · ^r réinitialiser · Échap annuler",
    "Enter åbn · skriv for at filtrere · ← overordnet · ^h skjulte · ^r nulstil · Esc annuller",
];

pub const BROWSER_HINT_FILTER: [&'static str; 3] = [
    "Enter open · Tab all/matching · type to filter · ← parent · ^h hidden · ^r reset · Esc cancel",
    "Entrée ouvrir · Tab tous/correspondants · taper pour filtrer · ← dossier parent · ^h fichiers cachés · ^r réinitialiser · Échap annuler",
    "Enter åbn · Tab alle/matchende · skriv for at filtrere · ← overordnet · ^h skjulte · ^r nulstil · Esc annuller",
];

pub const TABS_HEADING: [&'static str; 3] = [
    "Collections",
    "Collections",
    "Samlinger",
];

pub const SUGGEST_HINT: [&'static str; 3] = [
    "Enter fill",
    "Entrée remplir",
    "Enter udfyld",
];

pub const REPORT_DEFAULT_NAME: [&'static str; 3] = [
    "Untitled Report",
    "Rapport sans titre",
    "Unavngiven rapport",
];

// The GUI numbers its scratch reports so several can be told apart in the
// list; `{n}` is the report's position.
pub const GUI_NEW_REPORT_NAME: [&'static str; 3] = [
    "Report {n}",
    "Rapport {n}",
    "Rapport {n}",
];

pub const STATUS_NOT_REPORT: [&'static str; 3] = [
    "The active tab is not a report.",
    "L'onglet actif n'est pas un rapport.",
    "Den aktive fane er ikke en rapport.",
];

pub const REPORT_BOUND_STATUS: [&'static str; 3] = [
    "Report bound to",
    "Rapport lié à",
    "Rapport bundet til",
];

pub const REPORT_SOURCE_HEADING: [&'static str; 3] = [
    "Report Source",
    "Source du rapport",
    "Rapportkilde",
];

pub const REPORT_VALIDATION_HEADING: [&'static str; 3] = [
    "Validation",
    "Validation",
    "Validering",
];

pub const REPORT_BINDING_HEADING: [&'static str; 3] = [
    "Binding",
    "Liaison",
    "Binding",
];

pub const REPORT_BOUND_PREFIX: [&'static str; 3] = [
    "Bound collection:",
    "Collection liée :",
    "Bundet samling:",
];

pub const REPORT_ENV_PREFIX: [&'static str; 3] = [
    "Environment:",
    "Environnement :",
    "Miljø:",
];

pub const REPORT_ENV_NOT_LOADED: [&'static str; 3] = [
    "(not loaded)",
    "(non chargé)",
    "(ikke indlæst)",
];

pub const REPORT_BASE_DIR_PREFIX: [&'static str; 3] = [
    "Files resolve under:",
    "Les fichiers se résolvent sous :",
    "Filer opløses under:",
];

pub const REPORT_BASE_DIR_UNSAVED: [&'static str; 3] = [
    "(save the report to anchor relative paths)",
    "(enregistrez le rapport pour ancrer les chemins relatifs)",
    "(gem rapporten for at forankre relative stier)",
];

pub const REPORT_UNBOUND: [&'static str; 3] = [
    "No collection bound — edit the report's '# collection:' header to bind one.",
    "Aucune collection liée — modifiez l'en-tête « # collection: » du rapport pour en lier une.",
    "Ingen samling bundet — rediger rapportens « # collection: »-header for at binde en.",
];

pub const REPORT_COLLECTION_MISSING: [&'static str; 3] = [
    "Bound collection is not loaded — open it as a tab so its requests can be validated.",
    "La collection liée n'est pas chargée — ouvrez-la dans un onglet pour valider ses requêtes.",
    "Den bundne samling er ikke indlæst — åbn den som en fane, så dens anmodninger kan valideres.",
];

pub const REPORT_NO_DIAGNOSTICS: [&'static str; 3] = [
    "No problems found.",
    "Aucun problème détecté.",
    "Ingen problemer fundet.",
];

pub const REPORT_EMPTY_SOURCE: [&'static str; 3] = [
    "Empty report — press e to edit its source.",
    "Rapport vide — appuyez sur e pour modifier sa source.",
    "Tom rapport — tryk e for at redigere kilden.",
];

pub const REPORT_HINT_EDIT: [&'static str; 3] = [
    "e source",
    "e source",
    "e kilde",
];

pub const REPORT_HINT_RUN: [&'static str; 3] = [
    "r run",
    "r exécuter",
    "r kør",
];

pub const REPORT_HINT_LEAVE: [&'static str; 3] = [
    "Esc done",
    "Échap terminé",
    "Esc færdig",
];

pub const REPORT_DIRTY_MARKER: [&'static str; 3] = [
    "●",
    "●",
    "●",
];

// A pencil rather than the report tab's dot: it is the glyph the request
// list already uses for "edited since it was loaded", so one mark means one
// thing wherever it appears.
pub const TAB_UNSAVED_MARKER: [&'static str; 3] = [
    "✎",
    "✎",
    "✎",
];

pub const REPORT_RESULTS_HEADING: [&'static str; 3] = [
    "Results",
    "Résultats",
    "Resultater",
];

pub const REPORT_HINT_RESULTS: [&'static str; 3] = [
    "Enter drill-down · / filter · v source · Ctrl+E export · Ctrl+O open · B baseline",
    "Entrée exploration · / filtre · v source · Ctrl+E export · Ctrl+O ouvrir · B référence",
    "Enter udforsk · / filter · v kilde · Ctrl+E export · Ctrl+O åbn · B basislinje",
];

pub const REPORT_RESULTS_EMPTY: [&'static str; 3] = [
    "No results yet — press r to run the report.",
    "Aucun résultat — appuyez sur r pour exécuter le rapport.",
    "Ingen resultater endnu — tryk r for at køre rapporten.",
];

pub const REPORT_RUN_PARSE_ERROR: [&'static str; 3] = [
    "Can't run — the source has a parse error:",
    "Exécution impossible — la source a une erreur d'analyse :",
    "Kan ikke køre — kilden har en parsefejl:",
];

pub const REPORT_RUN_UNBOUND: [&'static str; 3] = [
    "Bind a collection before running (edit the '# collection:' header).",
    "Liez une collection avant l'exécution (modifiez l'en-tête « # collection: »).",
    "Bind en samling før kørsel (rediger « # collection: »-headeren).",
];

pub const REPORT_RUN_HAS_ERRORS: [&'static str; 3] = [
    "Fix the validation errors before running.",
    "Corrigez les erreurs de validation avant l'exécution.",
    "Ret valideringsfejlene før kørsel.",
];

pub const REPORT_EXPORT_NO_RESULT: [&'static str; 3] = [
    "Run the report before exporting.",
    "Exécutez le rapport avant l'exportation.",
    "Kør rapporten før eksport.",
];

pub const REPORT_EXPORT_CSV_FOLDER: [&'static str; 3] = [
    "Export Report — Choose Destination Folder",
    "Exporter le rapport — Choisir le dossier de destination",
    "Eksportér rapport — Vælg destinationsmappe",
];

pub const REPORT_EXPORT_FORMAT_HINT: [&'static str; 3] = [
    "Format (↑↓)",
    "Format (↑↓)",
    "Format (↑↓)",
];

pub const REPORT_SAVE_BASELINE_FOLDER: [&'static str; 3] = [
    "Save Report Baseline — Choose Destination Folder",
    "Enregistrer la référence du rapport — Choisir le dossier de destination",
    "Gem rapport-basislinje — Vælg destinationsmappe",
];

pub const REPORT_RUN_COMPLETE: [&'static str; 3] = [
    "Report run complete:",
    "Exécution du rapport terminée :",
    "Rapportkørsel fuldført:",
];

pub const REPORT_STATUS_ROWS: [&'static str; 3] = [
    "rows",
    "lignes",
    "rækker",
];

pub const REPORT_STATUS_ERRORS: [&'static str; 3] = [
    "errors",
    "erreurs",
    "fejl",
];

pub const REPORT_EXPORTED_PREFIX: [&'static str; 3] = [
    "Report exported to",
    "Rapport exporté vers",
    "Rapport eksporteret til",
];

pub const REPORT_OPENED_PREFIX: [&'static str; 3] = [
    "Opened",
    "Ouvert",
    "Åbnede",
];

// Ctrl+O on a run that hasn't been written anywhere: there is no file for
// the desktop to open, and saying so is more use than doing nothing.
pub const REPORT_OPEN_NO_EXPORT: [&'static str; 3] = [
    "Export the run first (Ctrl+E), then Ctrl+O opens the file.",
    "Exportez d'abord l'exécution (Ctrl+E), puis Ctrl+O ouvre le fichier.",
    "Eksportér kørslen først (Ctrl+E); derefter åbner Ctrl+O filen.",
];

pub const HELP_REPORT_OPEN_EXPORT: [&'static str; 3] = [
    "open the exported file in the desktop's default application",
    "ouvrir le fichier exporté dans l'application par défaut du bureau",
    "åbn den eksporterede fil i skrivebordets standardprogram",
];

pub const REPORT_BASELINE_SAVED_PREFIX: [&'static str; 3] = [
    "Baseline saved to",
    "Référence enregistrée dans",
    "Basislinje gemt i",
];

// "Nothing to save" is true but unhelpful for an export: the reader knows
// there is a report, so the message has to say what is missing. A run in
// flight is a different problem from a run never started -- one is "wait",
// the other is "press Run" (`report_export_no_result`, above).
pub const REPORT_EXPORT_STILL_RUNNING: [&'static str; 3] = [
    "The report is still running. Wait for it to finish, then export.",
    "Le rapport est toujours en cours d'exécution. Attendez la fin, puis exportez.",
    "Rapporten kører stadig. Vent, til den er færdig, og eksportér så.",
];

pub const REPORT_BASELINE_NO_RESULT: [&'static str; 3] = [
    "Run the report before saving a baseline.",
    "Exécutez le rapport avant d'enregistrer une référence.",
    "Kør rapporten før du gemmer en basislinje.",
];

pub const REPORT_HINT_DRY: [&'static str; 3] = [
    "d dry-run",
    "d simulation",
    "d prøvekørsel",
];

pub const REPORT_HINT_BIND: [&'static str; 3] = [
    "b bind",
    "b lier",
    "b bind",
];

pub const REPORT_HINT_NODES: [&'static str; 3] = [
    "Enter nodes",
    "Entrée nœuds",
    "Enter noder",
];

pub const REPORT_HINT_FORMAT: [&'static str; 3] = [
    "F reindent",
    "F réindenter",
    "F genindryk",
];

pub const REPORT_HINT_VIEW: [&'static str; 3] = [
    "v output",
    "v sortie",
    "v output",
];

pub const GUI_REPORT_DRY_RUN: [&'static str; 3] = [
    "Dry run",
    "Simulation",
    "Prøvekørsel",
];

pub const GUI_REPORT_DRY_RUN_TOOLTIP: [&'static str; 3] = [
    "Preview the rows this report would produce — loops expanded and variables resolved, but no requests sent.",
    "Prévisualiser les lignes que ce rapport produirait — boucles développées et variables résolues, mais aucune requête envoyée.",
    "Forhåndsvis de rækker denne rapport ville producere — løkker udvidet og variabler løst, men ingen anmodninger sendt.",
];

pub const GUI_REPORT_DRY_RUN_CLOSE: [&'static str; 3] = [
    "Close preview",
    "Fermer l'aperçu",
    "Luk forhåndsvisning",
];

pub const GUI_REPORT_DRY_RUN_CLOSE_TOOLTIP: [&'static str; 3] = [
    "Go back to the results of the last real run.",
    "Revenir aux résultats de la dernière exécution réelle.",
    "Gå tilbage til resultaterne af den seneste rigtige kørsel.",
];

pub const REPORT_DRY_RUN_TITLE: [&'static str; 3] = [
    "Dry run — expansion preview",
    "Simulation — aperçu de l'expansion",
    "Prøvekørsel — udvidelsesforhåndsvisning",
];

pub const REPORT_DRY_RUN_ROWS: [&'static str; 3] = [
    "Projected rows:",
    "Lignes prévues :",
    "Forventede rækker:",
];

pub const REPORT_DRY_RUN_NO_ROWS: [&'static str; 3] = [
    "No rows would be produced.",
    "Aucune ligne ne serait produite.",
    "Ingen rækker ville blive produceret.",
];

pub const REPORT_DRY_RUN_PROBLEMS_HEADING: [&'static str; 3] = [
    "Problems",
    "Problèmes",
    "Problemer",
];

pub const REPORT_DRY_RUN_NO_PROBLEMS: [&'static str; 3] = [
    "No problems found.",
    "Aucun problème détecté.",
    "Ingen problemer fundet.",
];

pub const REPORT_DRY_RUN_HINT: [&'static str; 3] = [
    "←/→ columns · Esc close",
    "←/→ colonnes · Échap fermer",
    "←/→ kolonner · Esc luk",
];

pub const REPORT_DRY_RUN_PREVIEW_NOTICE: [&'static str; 3] = [
    "Dry run — loop bindings resolved; HTTP response fields blank",
    "Simulation — liaisons de boucle résolues ; champs de réponse HTTP vides",
    "Prøvekørsel — løkkebindinger løst; HTTP-svarfelter tomme",
];

pub const REPORT_DRY_RUN_WARNINGS_HEADING: [&'static str; 3] = [
    "Warnings",
    "Avertissements",
    "Advarsler",
];

pub const REPORT_CELL_POPUP_HINT: [&'static str; 3] = [
    "y copy · Esc close",
    "y copier · Échap fermer",
    "y kopier · Esc luk",
];

pub const REPORT_COLUMNS_TITLE: [&'static str; 3] = [
    "Columns",
    "Colonnes",
    "Kolonner",
];

pub const REPORT_COLUMNS_HINT: [&'static str; 3] = [
    "Space toggle · Shift+↑/↓ move · Enter apply · Esc cancel",
    "Espace bascule · Maj+↑/↓ déplacer · Entrée appliquer · Échap annuler",
    "Mellemrum skift · Skift+↑/↓ flyt · Enter anvend · Esc annuller",
];

pub const REPORT_COLUMNS_NEED_RUN: [&'static str; 3] = [
    "Run the report first so its columns are known",
    "Exécutez d'abord le rapport pour connaître ses colonnes",
    "Kør rapporten først, så dens kolonner kendes",
];

pub const REPORT_COLUMNS_NONE_SELECTED: [&'static str; 3] = [
    "Select at least one column",
    "Sélectionnez au moins une colonne",
    "Vælg mindst én kolonne",
];

pub const REPORT_COLUMNS_APPLIED: [&'static str; 3] = [
    "Columns updated",
    "Colonnes mises à jour",
    "Kolonner opdateret",
];

pub const REPORT_BIND_TITLE: [&'static str; 3] = [
    "Bind Collection",
    "Lier la collection",
    "Bind samling",
];

pub const REPORT_BIND_HINT: [&'static str; 3] = [
    "Enter bind · Esc cancel",
    "Entrée lier · Échap annuler",
    "Enter bind · Esc annuller",
];

pub const REPORT_BIND_UNSAVED: [&'static str; 3] = [
    "(unsaved)",
    "(non enregistré)",
    "(ikke gemt)",
];

pub const REPORT_BIND_NO_COLLECTIONS: [&'static str; 3] = [
    "Open a collection tab first, then bind the report to it",
    "Ouvrez d'abord un onglet de collection, puis liez-y le rapport",
    "Åbn først en samlingsfane, og bind derefter rapporten til den",
];

pub const REPORT_RUNNING: [&'static str; 3] = [
    "Running report… (r to cancel)",
    "Exécution du rapport… (r pour annuler)",
    "Kører rapport… (r for at annullere)",
];

pub const REPORT_RUNNING_PROGRESS: [&'static str; 3] = [
    "Running report… {done}/{total} (r to cancel)",
    "Exécution du rapport… {done}/{total} (r pour annuler)",
    "Kører rapport… {done}/{total} (r for at annullere)",
];

pub const REPORT_RUN_STOPPED: [&'static str; 3] = [
    "Run stopped — partial results kept",
    "Exécution interrompue — résultats partiels conservés",
    "Kørsel stoppet — delvise resultater beholdt",
];

pub const STATUS_REQUEST_REVERTED: [&'static str; 3] = [
    "request reverted to last saved",
    "requête rétablie à la dernière sauvegarde",
    "anmodning gendannet til sidst gemte",
];

pub const STATUS_FILE_REVERTED: [&'static str; 3] = [
    "file reverted to last saved:",
    "fichier rétabli à la dernière sauvegarde :",
    "fil gendannet til sidst gemte:",
];

pub const STATUS_ENV_REVERTED: [&'static str; 3] = [
    "reverted to last saved:",
    "rétabli à la dernière sauvegarde :",
    "gendannet til sidst gemte:",
];

pub const STATUS_NOTHING_TO_REVERT: [&'static str; 3] = [
    "Nothing to revert (no saved version or no changes)",
    "Rien à rétablir (aucune version sauvegardée ou aucune modification)",
    "Intet at gendanne (ingen gemt version eller ingen ændringer)",
];

pub const REPORT_RUNNING_INDICATOR: [&'static str; 3] = [
    "⏳ Running…",
    "⏳ En cours…",
    "⏳ Kører…",
];

pub const REPORT_NODES_HEADING: [&'static str; 3] = [
    "Structure",
    "Structure",
    "Struktur",
];

pub const REPORT_NODES_HINT: [&'static str; 3] = [
    "a add · Enter configure · e edit line · f File · Del remove · Shift+↑/↓ move · Ctrl+Z undo · Esc source",
    "a ajouter · Entrée configurer · e modifier la ligne · f Fichier · Suppr retirer · Maj+↑/↓ déplacer · Ctrl+Z annuler · Échap source",
    "a tilføj · Enter konfigurer · e rediger linje · f Fil · Del fjern · Skift+↑/↓ flyt · Ctrl+Z fortryd · Esc kilde",
];

pub const REPORT_NODES_PARSE_ERROR: [&'static str; 3] = [
    "Fix the source before editing as nodes",
    "Corrigez la source avant de modifier en nœuds",
    "Ret kilden før redigering som noder",
];

pub const REPORT_NODE_BEGIN: [&'static str; 3] = [
    "Begin",
    "Début",
    "Start",
];

pub const REPORT_NODE_END: [&'static str; 3] = [
    "End",
    "Fin",
    "Slut",
];

pub const NODE_MENU_TITLE: [&'static str; 3] = [
    "Add Node",
    "Ajouter un nœud",
    "Tilføj node",
];

pub const NODE_MENU_HINT: [&'static str; 3] = [
    "Enter add · Esc cancel",
    "Entrée ajouter · Échap annuler",
    "Enter tilføj · Esc annuller",
];

pub const NODE_PICK_REQUEST_TITLE: [&'static str; 3] = [
    "Choose Request",
    "Choisir une requête",
    "Vælg forespørgsel",
];

pub const NODE_PICK_REQUEST_HINT: [&'static str; 3] = [
    "Enter choose · Esc cancel",
    "Entrée choisir · Échap annuler",
    "Enter vælg · Esc annuller",
];

pub const NODE_PICK_REQUEST_NONE: [&'static str; 3] = [
    "No requests in the bound collection",
    "Aucune requête dans la collection liée",
    "Ingen forespørgsler i den bundne samling",
];

pub const NODE_KIND_REQUEST: [&'static str; 3] = [
    "REQUEST — send a request",
    "REQUEST — envoyer une requête",
    "REQUEST — send en forespørgsel",
];

pub const NODE_KIND_REPORT_REQUEST: [&'static str; 3] = [
    "REPORT REQUEST — send and report its fields",
    "REPORT REQUEST — envoyer et rapporter ses champs",
    "REPORT REQUEST — send og rapportér dens felter",
];

pub const NODE_KIND_REPORT_VAR: [&'static str; 3] = [
    "REPORT — report a variable",
    "REPORT — rapporter une variable",
    "REPORT — rapportér en variabel",
];

pub const NODE_KIND_REPORT_COMPUTED: [&'static str; 3] = [
    "REPORT \"…\" AS — a computed column",
    "REPORT \"…\" AS — une colonne calculée",
    "REPORT \"…\" AS — en beregnet kolonne",
];

pub const NODE_KIND_ASSIGN: [&'static str; 3] = [
    "VARIABLE — set VAR = VALUE",
    "VARIABLE — définir VAR = VALEUR",
    "VARIABLE — sæt VAR = VÆRDI",
];

pub const NODE_KIND_FOR_FILES: [&'static str; 3] = [
    "FOR … IN FILES — loop over files",
    "FOR … IN FILES — boucler sur des fichiers",
    "FOR … IN FILES — løkke over filer",
];

pub const NODE_KIND_FOR_FOLDERS: [&'static str; 3] = [
    "FOR … IN FOLDERS — loop over folders",
    "FOR … IN FOLDERS — boucler sur des dossiers",
    "FOR … IN FOLDERS — løkke over mapper",
];

pub const NODE_KIND_FOR_ENVS: [&'static str; 3] = [
    "FOR … IN ENVS — loop over environments",
    "FOR … IN ENVS — boucler sur des environnements",
    "FOR … IN ENVS — løkke over miljøer",
];

pub const NODE_KIND_LIST: [&'static str; 3] = [
    "LIST — declare a list",
    "LIST — déclarer une liste",
    "LIST — erklær en liste",
];

pub const NODE_MOD_REPORT: [&'static str; 3] = [
    "REPORT — report a request",
    "REPORT — rapporter une requête",
    "REPORT — rapportér en forespørgsel",
];

pub const NODE_MOD_PARALLEL: [&'static str; 3] = [
    "PARALLEL — run a loop concurrently",
    "PARALLEL — exécuter une boucle en parallèle",
    "PARALLEL — kør en løkke samtidigt",
];

pub const NODE_MOD_WITH: [&'static str; 3] = [
    "WITH — add a field to a report request",
    "WITH — ajouter un champ à une requête de rapport",
    "WITH — tilføj et felt til en rapportforespørgsel",
];

pub const NODE_MOD_AS: [&'static str; 3] = [
    "AS — name a report column",
    "AS — nommer une colonne du rapport",
    "AS — navngiv en rapportkolonne",
];

pub const NODE_MOD_RESPONSE: [&'static str; 3] = [
    "RESPONSE — capture the response body (RAW/PRETTY)",
    "RESPONSE — capturer le corps de la réponse (RAW/PRETTY)",
    "RESPONSE — indfang svarets krop (RAW/PRETTY)",
];

pub const NODE_MOD_SHOW: [&'static str; 3] = [
    "SHOW — pick which fields to show",
    "SHOW — choisir les champs à afficher",
    "SHOW — vælg hvilke felter der vises",
];

pub const NODE_MOD_STATISTICS: [&'static str; 3] = [
    "STATISTICS",
    "STATISTICS",
    "STATISTICS",
];

pub const NODE_MOD_HIDE: [&'static str; 3] = [
    "HIDE — pick which fields to hide",
    "HIDE — choisir les champs à masquer",
    "HIDE — vælg hvilke felter der skjules",
];

// Why a modifier chip refuses to attach to the block under the pointer.
// Shown as a tooltip during the drag, so the drop never fails in silence.
pub const MOD_REJECT_PRESENT: [&'static str; 3] = [
    "This block already has that.",
    "Ce bloc l'a déjà.",
    "Denne blok har allerede det.",
];

pub const MOD_REJECT_REPORT: [&'static str; 3] = [
    "REPORT can only be added to a request or a SET assignment.",
    "REPORT ne peut être ajouté qu'à une requête ou à une affectation SET.",
    "REPORT kan kun tilføjes til en forespørgsel eller en SET-tildeling.",
];

pub const MOD_REJECT_PARALLEL: [&'static str; 3] = [
    "PARALLEL can only be added to a FOR loop.",
    "PARALLEL ne peut être ajouté qu'à une boucle FOR.",
    "PARALLEL kan kun tilføjes til en FOR-løkke.",
];

pub const MOD_REJECT_WITH: [&'static str; 3] = [
    "WITH can only be added to a reported request (add REPORT first).",
    "WITH ne peut être ajouté qu'à une requête rapportée (ajoutez d'abord REPORT).",
    "WITH kan kun tilføjes til en rapporteret forespørgsel (tilføj REPORT først).",
];

pub const MOD_REJECT_AS: [&'static str; 3] = [
    "AS can only name a reported request or a single reported variable.",
    "AS ne peut nommer qu'une requête rapportée ou une seule variable rapportée.",
    "AS kan kun navngive en rapporteret forespørgsel eller én rapporteret variabel.",
];

pub const MOD_REJECT_WITH_FIELD: [&'static str; 3] = [
    "A WITH field only takes STATISTICS — its other clauses are set in the field editor.",
    "Un champ WITH n'accepte que STATISTICS — ses autres clauses se règlent dans l'éditeur de champ.",
    "Et WITH-felt tager kun STATISTICS — dets øvrige klausuler sættes i felteditoren.",
];

pub const MOD_REJECT_STATISTICS: [&'static str; 3] = [
    "STATISTICS summarises a named column — drop it on a REPORT … AS … or a computed column",
    "STATISTICS résume une colonne nommée — déposez-le sur un REPORT … AS … ou une colonne calculée",
    "STATISTICS opsummerer en navngivet kolonne — slip den på et REPORT … AS … eller en beregnet kolonne",
];

pub const MOD_REJECT_REQUEST_ONLY: [&'static str; 3] = [
    "This can only be added to a reported request (add REPORT first).",
    "Ceci ne peut être ajouté qu'à une requête rapportée (ajoutez d'abord REPORT).",
    "Dette kan kun tilføjes til en rapporteret forespørgsel (tilføj REPORT først).",
];

pub const MOD_REJECT_COMPARE_ONLY: [&'static str; 3] = [
    "This can only be added to a FOR … IN ENVS comparison loop.",
    "Ceci ne peut être ajouté qu'à une boucle de comparaison FOR … IN ENVS.",
    "Dette kan kun tilføjes til en FOR … IN ENVS-sammenligningsløkke.",
];

pub const REPORT_NODE_EDIT_TITLE: [&'static str; 3] = [
    "Edit Node Line",
    "Modifier la ligne du nœud",
    "Rediger nodelinje",
];

pub const REPORT_NODE_EDIT_HINT: [&'static str; 3] = [
    "Enter apply · Esc cancel",
    "Entrée appliquer · Échap annuler",
    "Enter anvend · Esc annuller",
];

pub const REPORT_NODE_LINE_INVALID: [&'static str; 3] = [
    "Not a valid statement",
    "Instruction non valide",
    "Ikke en gyldig sætning",
];

pub const REPORT_NODE_UNDONE: [&'static str; 3] = [
    "Undid last node change",
    "Dernière modification de nœud annulée",
    "Fortrød sidste nodeændring",
];

pub const REPORT_NODE_UNDO_EMPTY: [&'static str; 3] = [
    "Nothing to undo",
    "Rien à annuler",
    "Intet at fortryde",
];

pub const REPORT_NODE_FOLDER_PICK: [&'static str; 3] = [
    "Choose loop folder",
    "Choisir le dossier de la boucle",
    "Vælg løkkemappe",
];

pub const REPORT_HEADER_ROOT_PICK: [&'static str; 3] = [
    "Choose report root folder",
    "Choisir le dossier racine du rapport",
    "Vælg rapportens rodmappe",
];

pub const REPORT_HEADER_BASELINE_PICK: [&'static str; 3] = [
    "Choose baseline file",
    "Choisir le fichier de référence",
    "Vælg baseline-fil",
];

pub const GUI_REPORT_REINDENT: [&'static str; 3] = [
    "Reindent",
    "Réindenter",
    "Genindryk",
];

pub const GUI_REPORT_REINDENT_HELP: [&'static str; 3] = [
    "Re-indent every line to its block depth. Only whitespace changes — comments and blank lines are kept.",
    "Réindenter chaque ligne selon sa profondeur de bloc. Seuls les espaces changent : les commentaires et les lignes vides sont conservés.",
    "Genindryk hver linje til dens blokdybde. Kun mellemrum ændres — kommentarer og tomme linjer bevares.",
];

pub const REPORT_REFORMAT_UNSAFE: [&'static str; 3] = [
    "Reformatting would have changed what the report does, so nothing was changed",
    "Le reformatage aurait modifié le comportement du rapport ; rien n'a été changé",
    "Omformatering ville have ændret, hvad rapporten gør, så intet blev ændret",
];

pub const REPORT_REFORMATTED: [&'static str; 3] = [
    "Report reindented",
    "Rapport réindenté",
    "Rapport genindrykket",
];

pub const REPORT_ALREADY_TIDY: [&'static str; 3] = [
    "The report is already correctly indented",
    "Le rapport est déjà correctement indenté",
    "Rapporten er allerede korrekt indrykket",
];

pub const REPORT_REFORMAT_FAILED_PREFIX: [&'static str; 3] = [
    "Can't reindent:",
    "Réindentation impossible :",
    "Kan ikke genindrykke:",
];

pub const REPORT_WITH_ADD_ROW: [&'static str; 3] = [
    "add a field…",
    "ajouter un champ…",
    "tilføj et felt…",
];

pub const REPORT_SETTINGS_HEADING: [&'static str; 3] = [
    "Report Settings",
    "Réglages du rapport",
    "Rapportindstillinger",
];

pub const REPORT_SETTING_ADD_ROW: [&'static str; 3] = [
    "add a setting…",
    "ajouter un réglage…",
    "tilføj en indstilling…",
];

pub const REPORT_SETTING_NO_CHOICES: [&'static str; 3] = [
    "Nothing to choose from — load an environment first, or press e to type a name",
    "Rien à choisir — chargez d'abord un environnement, ou appuyez sur e pour saisir un nom",
    "Intet at vælge imellem — indlæs først et miljø, eller tryk e for at skrive et navn",
];

pub const REPORT_SETTING_MENU_HINT: [&'static str; 3] = [
    "type to filter · Enter choose · Esc cancel",
    "taper pour filtrer · Entrée choisir · Échap annuler",
    "skriv for at filtrere · Enter vælg · Esc annuller",
];

pub const REPORT_SETTING_MENU_NO_MATCH: [&'static str; 3] = [
    "nothing matches what you typed",
    "rien ne correspond à ce que vous avez tapé",
    "intet passer til det, du har skrevet",
];

pub const REPORT_NODE_CONFIG_TITLE: [&'static str; 3] = [
    "Configure node",
    "Configurer le nœud",
    "Konfigurer node",
];

pub const REPORT_NODE_REQUEST_HINT: [&'static str; 3] = [
    "Space/←→ toggle/cycle · type alias · Enter apply · Esc cancel",
    "Espace/←→ bascule/défile · saisir l'alias · Entrée appliquer · Échap annuler",
    "Mellemrum/←→ skift · skriv alias · Enter anvend · Esc annuller",
];

pub const REPORT_NODE_NAME_LABEL: [&'static str; 3] = [
    "Name",
    "Nom",
    "Navn",
];

pub const REPORT_NODE_NAME_NONE: [&'static str; 3] = [
    "pick a request",
    "choisir une requête",
    "vælg en forespørgsel",
];

pub const REPORT_NODE_REPORT_LABEL: [&'static str; 3] = [
    "Report (emit columns)",
    "Rapport (émettre des colonnes)",
    "Rapport (udsend kolonner)",
];

pub const REPORT_NODE_RESPONSE_LABEL: [&'static str; 3] = [
    "Response",
    "Réponse",
    "Svar",
];

pub const REPORT_NODE_RESPONSE_DEFAULT: [&'static str; 3] = [
    "default",
    "défaut",
    "standard",
];

pub const REPORT_NODE_ALIAS_LABEL: [&'static str; 3] = [
    "Alias",
    "Alias",
    "Alias",
];

pub const REPORT_NODE_ALIAS_NONE: [&'static str; 3] = [
    "(request name)",
    "(nom de la requête)",
    "(forespørgselsnavn)",
];

pub const REPORT_NODE_PARAM_UNDECLARED: [&'static str; 3] = [
    "not declared by this request",
    "non déclaré par cette requête",
    "ikke erklæret af denne forespørgsel",
];

pub const REPORT_NODE_OVERRIDE_TARGET_LABEL: [&'static str; 3] = [
    "override",
    "remplacement",
    "tilsidesæt",
];

pub const REPORT_NODE_OVERRIDE_TARGET_NONE: [&'static str; 3] = [
    "‹part of the request, e.g. multipart.document›",
    "‹partie de la requête, p. ex. multipart.document›",
    "‹del af forespørgslen, f.eks. multipart.document›",
];

pub const REPORT_NODE_OVERRIDE_VALUE_LABEL: [&'static str; 3] = [
    "=",
    "=",
    "=",
];

pub const REPORT_NODE_OVERRIDE_VALUE_NONE: [&'static str; 3] = [
    "‹value, e.g. {{FILE}}›",
    "‹valeur, p. ex. {{FILE}}›",
    "‹værdi, f.eks. {{FILE}}›",
];

pub const REPORT_NODE_OVERRIDE_ADD: [&'static str; 3] = [
    "+ add a per-call override (Space)",
    "+ ajouter un remplacement pour cet appel (Espace)",
    "+ tilføj en tilsidesættelse for dette kald (mellemrum)",
];

pub const REPORT_NODE_USING_NONE: [&'static str; 3] = [
    "this request declares no parameters — extract one in the request editor",
    "cette requête ne déclare aucun paramètre — extrayez-en un dans l'éditeur de requête",
    "denne forespørgsel erklærer ingen parametre — udtræk en i forespørgselseditoren",
];

pub const REPORT_NODE_ENVS_TITLE: [&'static str; 3] = [
    "Configure ENVS loop",
    "Configurer la boucle ENVS",
    "Konfigurer ENVS-løkke",
];

pub const REPORT_NODE_ENVS_HINT: [&'static str; 3] = [
    "←/→ pick · Space toggle · b baseline · f file · n add · x remove · Enter apply · Esc cancel",
    "←/→ choisir env · b référence · f fichier · n ajouter · x retirer · Entrée appliquer · Échap annuler",
    "←/→ vælg miljø · b basislinje · f fil · n tilføj · x fjern · Enter anvend · Esc annuller",
];

pub const REPORT_NODE_ENVS_VAR_LABEL: [&'static str; 3] = [
    "Loop variable",
    "Variable de boucle",
    "Løkkevariabel",
];

pub const REPORT_NODE_ENVS_MODE_LABEL: [&'static str; 3] = [
    "Mode",
    "Mode",
    "Tilstand",
];

pub const REPORT_NODE_ENVS_MODE_PLAIN: [&'static str; 3] = [
    "Iterate",
    "Itérer",
    "Iterér",
];

pub const REPORT_NODE_ENVS_MODE_ROLES: [&'static str; 3] = [
    "Compare",
    "Comparer",
    "Sammenlign",
];

pub const REPORT_NODE_ENVS_BASELINE: [&'static str; 3] = [
    "Baseline",
    "Référence",
    "Basislinje",
];

pub const REPORT_NODE_ENVS_COMPARISON: [&'static str; 3] = [
    "Comparison",
    "Comparaison",
    "Sammenligning",
];

pub const REPORT_NODE_ENVS_FILE: [&'static str; 3] = [
    "FILE",
    "FILE",
    "FILE",
];

pub const REPORT_NODE_ENVS_NONE: [&'static str; 3] = [
    "no environments loaded — load one to pick",
    "aucun environnement chargé — en charger un pour choisir",
    "ingen miljøer indlæst — indlæs et for at vælge",
];

pub const REPORT_NODE_VARS_TITLE: [&'static str; 3] = [
    "Report a variable",
    "Rapporter une variable",
    "Rapportér en variabel",
];

pub const REPORT_NODE_VARS_HINT: [&'static str; 3] = [
    "Space tick · type a name/alias · Enter apply · Esc cancel",
    "Espace cocher · saisir un nom/alias · Entrée appliquer · Échap annuler",
    "Mellemrum markér · skriv et navn/alias · Enter anvend · Esc annuller",
];

pub const REPORT_NODE_VARS_OTHER_LABEL: [&'static str; 3] = [
    "Other variable",
    "Autre variable",
    "Anden variabel",
];

pub const REPORT_NODE_VARS_NONE: [&'static str; 3] = [
    "no variables in scope here — type one below",
    "aucune variable disponible ici — saisissez-en une ci-dessous",
    "ingen variabler i omfang her — skriv en nedenfor",
];

pub const REPORT_NODE_COMPUTED_TITLE: [&'static str; 3] = [
    "Computed column",
    "Colonne calculée",
    "Beregnet kolonne",
];

pub const REPORT_NODE_COMPUTED_HINT: [&'static str; 3] = [
    "type template/name · Space toggle stat · Enter apply · Esc cancel",
    "saisir modèle/nom · Espace bascule stat · Entrée appliquer · Échap annuler",
    "skriv skabelon/navn · Mellemrum skift statistik · Enter anvend · Esc annuller",
];

pub const REPORT_NODE_COMPUTED_TEMPLATE_LABEL: [&'static str; 3] = [
    "Template",
    "Modèle",
    "Skabelon",
];

pub const REPORT_NODE_COMPUTED_TEMPLATE_HINT: [&'static str; 3] = [
    "text with {{ vars }}",
    "texte avec {{ vars }}",
    "tekst med {{ vars }}",
];

pub const REPORT_NODE_COMPUTED_NAME_LABEL: [&'static str; 3] = [
    "Column name",
    "Nom de la colonne",
    "Kolonnenavn",
];

pub const REPORT_NODE_ASSIGN_HINT: [&'static str; 3] = [
    "type name/value · Enter apply · Esc cancel",
    "saisir nom/valeur · Entrée appliquer · Échap annuler",
    "skriv navn/værdi · Enter anvend · Esc annuller",
];

pub const REPORT_NODE_LIST_HINT: [&'static str; 3] = [
    "type value · Space add · Del remove · Enter apply · Esc cancel",
    "saisir la valeur · Espace ajouter · Suppr retirer · Entrée appliquer · Échap annuler",
    "skriv værdi · Mellemrum tilføj · Del fjern · Enter anvend · Esc annuller",
];

pub const REPORT_NODE_LIST_ADD: [&'static str; 3] = [
    "+ Add a value",
    "+ Ajouter une valeur",
    "+ Tilføj en værdi",
];

pub const REPORT_NODE_WITH_ADD: [&'static str; 3] = [
    "+ Add a WITH field",
    "+ Ajouter un champ WITH",
    "+ Tilføj et WITH-felt",
];

pub const REPORT_NODE_WITH_TITLE: [&'static str; 3] = [
    "Configure WITH field",
    "Configurer le champ WITH",
    "Konfigurer WITH-felt",
];

pub const REPORT_NODE_WITH_HINT: [&'static str; 3] = [
    "type name/query · Space toggle · Enter apply · Esc cancel",
    "saisir nom/requête · Espace basculer · Entrée appliquer · Échap annuler",
    "skriv navn/forespørgsel · Mellemrum skift · Enter anvend · Esc annullér",
];

pub const REPORT_NODE_WITH_NAME_LABEL: [&'static str; 3] = [
    "Column name",
    "Nom de la colonne",
    "Kolonnenavn",
];

pub const REPORT_NODE_WITH_QUERY_LABEL: [&'static str; 3] = [
    "Query",
    "Requête",
    "Forespørgsel",
];

pub const REPORT_NODE_WITH_STATS_LABEL: [&'static str; 3] = [
    "STATISTICS",
    "STATISTICS",
    "STATISTICS",
];

pub const REPORT_NODE_WITH_STATS_TOGGLE: [&'static str; 3] = [
    "Summary statistics",
    "Statistiques de synthèse",
    "Opsummerende statistik",
];

pub const REPORT_NODE_WITH_QUERY_NONE: [&'static str; 3] = [
    "whole response",
    "réponse entière",
    "hele svaret",
];

pub const REPORT_NODE_CLAUSE_TRUTH_LABEL: [&'static str; 3] = [
    "Ground truth",
    "Vérité terrain",
    "Grundsandhed",
];

pub const REPORT_NODE_CLAUSE_TRUTH_NONE: [&'static str; 3] = [
    "not scored",
    "non évalué",
    "ikke vurderet",
];

pub const REPORT_NODE_CLAUSE_DETAIL_TOGGLE: [&'static str; 3] = [
    "Detail only (drill-down)",
    "Détail seulement (volet)",
    "Kun detalje (udfoldning)",
];

pub const REPORT_NODE_CLAUSE_IMAGE_TOGGLE: [&'static str; 3] = [
    "Show as a picture",
    "Afficher comme image",
    "Vis som billede",
];

pub const REPORT_NODE_CLAUSE_FIT: [&'static str; 3] = [
    "Fit to the cell",
    "Ajuster à la cellule",
    "Tilpas til cellen",
];

pub const REPORT_NODE_CLAUSE_HEIGHT: [&'static str; 3] = [
    "Height (px)",
    "Hauteur (px)",
    "Højde (px)",
];

pub const REPORT_NODE_CLAUSE_WIDTH: [&'static str; 3] = [
    "Width (px)",
    "Largeur (px)",
    "Bredde (px)",
];

pub const REPORT_NODE_CLAUSE_SIZE_AUTO: [&'static str; 3] = [
    "auto",
    "auto",
    "auto",
];

pub const REPORT_NODE_PARALLEL_DEGREE_LABEL: [&'static str; 3] = [
    "Max at once",
    "Maximum simultané",
    "Maks. samtidige",
];

pub const REPORT_NODE_PARALLEL_DEGREE_NONE: [&'static str; 3] = [
    "no limit",
    "sans limite",
    "ingen grænse",
];

pub const REPORT_NODE_BASELINE_SHOW_LABEL: [&'static str; 3] = [
    "SHOW from baseline",
    "SHOW depuis la référence",
    "SHOW fra reference",
];

pub const REPORT_NODE_PARALLEL_LABEL: [&'static str; 3] = [
    "Run PARALLEL",
    "Exécuter en PARALLÈLE",
    "Kør PARALLELT",
];

pub const CHECKBOX_CHECKED: [&'static str; 3] = [
    "[x]",
    "[x]",
    "[x]",
];

pub const CHECKBOX_UNCHECKED: [&'static str; 3] = [
    "[ ]",
    "[ ]",
    "[ ]",
];

pub const REPORT_NODE_FILES_TITLE: [&'static str; 3] = [
    "Configure FILES loop",
    "Configurer la boucle FILES",
    "Konfigurer FILES-løkke",
];

pub const REPORT_NODE_FOLDERS_TITLE: [&'static str; 3] = [
    "Configure FOLDERS loop",
    "Configurer la boucle FOLDERS",
    "Konfigurer FOLDERS-løkke",
];

pub const REPORT_NODE_FILES_HINT: [&'static str; 3] = [
    "Space folder/parallel · type var/match/limit · Enter apply · Esc cancel",
    "Espace dossier/parallèle · saisir var/match · Entrée appliquer · Échap annuler",
    "Mellemrum mappe/parallel · skriv var/match · Enter anvend · Esc annuller",
];

pub const REPORT_NODE_FILES_VAR_LABEL: [&'static str; 3] = [
    "Loop variable",
    "Variable de boucle",
    "Løkkevariabel",
];

pub const REPORT_NODE_FILES_FOLDER_LABEL: [&'static str; 3] = [
    "Folder",
    "Dossier",
    "Mappe",
];

pub const REPORT_NODE_FILES_MATCH_LABEL: [&'static str; 3] = [
    "Match (glob)",
    "Filtre (glob)",
    "Match (glob)",
];

pub const REPORT_NODE_FILES_NONE: [&'static str; 3] = [
    "no folder chosen — Space to pick",
    "aucun dossier choisi — Espace pour choisir",
    "ingen mappe valgt — Mellemrum for at vælge",
];

// ── GUI front-end strings ────────────────────────────────────────────────
// Clean (mnemonic-free) labels for the graphical client. The terminal UI's
// rows above embed `(X)` keyboard-mnemonic hints, so the GUI needs its own
// wording; kept here so all three languages stay in one table.
pub const GUI_UNTITLED: [&'static str; 3] = [
    "Untitled",
    "Sans titre",
    "Uden titel",
];

pub const GUI_NEW_COLLECTION: [&'static str; 3] = [
    "New collection",
    "Nouvelle collection",
    "Ny samling",
];

pub const GUI_ENV_LABEL: [&'static str; 3] = [
    "Env:",
    "Env\u{a0}:",
    "Miljø:",
];

pub const GUI_THEME_STATUS_LABEL: [&'static str; 3] = [
    "Theme:",
    "Thème\u{a0}:",
    "Tema:",
];

pub const GUI_NONE_DASH: [&'static str; 3] = [
    "—",
    "—",
    "—",
];

// Editor sections.
pub const GUI_SEC_PARAMS: [&'static str; 3] = [
    "Params",
    "Paramètres",
    "Parametre",
];

pub const GUI_SEC_HEADERS: [&'static str; 3] = [
    "Headers",
    "En-têtes",
    "Headere",
];

pub const GUI_SEC_BODY: [&'static str; 3] = [
    "Body",
    "Corps",
    "Body",
];

pub const GUI_SEC_AUTH: [&'static str; 3] = [
    "Auth",
    "Auth",
    "Auth",
];

pub const GUI_SEC_COOKIES: [&'static str; 3] = [
    "Cookies",
    "Cookies",
    "Cookies",
];

pub const GUI_SEC_OPTIONS: [&'static str; 3] = [
    "Options",
    "Options",
    "Indstillinger",
];

pub const GUI_SEC_ASSERTS: [&'static str; 3] = [
    "Asserts",
    "Assertions",
    "Assertioner",
];

pub const GUI_SEC_CAPTURES: [&'static str; 3] = [
    "Captures",
    "Captures",
    "Optagelser",
];

pub const GUI_SEC_CODE: [&'static str; 3] = [
    "Raw Request",
    "Requête brute",
    "Rå anmodning",
];

// The two representations the Raw Request view can show. Both are format
// names rather than words, so they read the same in every language.
pub const GUI_CODE_REPR_JSON: [&'static str; 3] = [
    "JSON",
    "JSON",
    "JSON",
];

pub const GUI_CODE_REPR_HURL: [&'static str; 3] = [
    "Hurl",
    "Hurl",
    "Hurl",
];

pub const GUI_CODE_PARSE_ERROR: [&'static str; 3] = [
    "Invalid request text — edits not applied.",
    "Texte de requête invalide — modifications non appliquées.",
    "Ugyldig anmodningstekst — ændringer ikke anvendt.",
];

pub const GUI_QUERY_PARAMETERS: [&'static str; 3] = [
    "Query parameters",
    "Paramètres de requête",
    "Forespørgselsparametre",
];

pub const BODY_FORM_CONFLICT_STATUS: [&'static str; 3] = [
    "✖ Not sent — a raw body and form fields can't both be sent:",
    "✖ Non envoyé — un corps brut et des champs de formulaire ne peuvent pas être envoyés ensemble :",
    "✖ Ikke sendt — en rå brødtekst og formularfelter kan ikke sendes sammen:",
];

pub const BODY_FORM_CONFLICT_HINT: [&'static str; 3] = [
    "✖ A raw body and form fields can't both be sent — remove one",
    "✖ Un corps brut et des champs de formulaire ne peuvent pas être envoyés ensemble — supprimez-en un",
    "✖ En rå brødtekst og formularfelter kan ikke sendes sammen — fjern det ene",
];

// Hurl reads a variable name as far as the first character outside
// `A-Z a-z 0-9 _ -` and silently ignores the rest, so `{{ api.key }}` is
// sent as the value of `api`. Named as "sent as" because the point the user
// has to grasp is that the text is not what goes on the wire.
pub const TRUNCATED_PLACEHOLDER_STATUS: [&'static str; 3] = [
    "✖ Not sent — Hurl reads only part of these variable names:",
    "✖ Non envoyé — Hurl ne lit qu'une partie de ces noms de variables :",
    "✖ Ikke sendt — Hurl læser kun en del af disse variabelnavne:",
];

pub const TRUNCATED_PLACEHOLDER_HINT: [&'static str; 3] = [
    "Hurl variable names allow only letters, digits, _ and -",
    "Les noms de variables Hurl n'acceptent que lettres, chiffres, _ et -",
    "Hurl-variabelnavne tillader kun bogstaver, cifre, _ og -",
];

// The `# [Gen]` block. Each message names the row it belongs to, because a
// request may declare several and "one of them is wrong" is not a report.
pub const GEN_STATUS: [&'static str; 3] = [
    "⚠ Computed values not set:",
    "⚠ Valeurs calculées non définies :",
    "⚠ Beregnede værdier ikke angivet:",
];

pub const GEN_ERR_SYNTAX: [&'static str; 3] = [
    "{row}: can't read the expression ({detail})",
    "{row} : expression illisible ({detail})",
    "{row}: kan ikke læse udtrykket ({detail})",
];

pub const GEN_ERR_UNKNOWN: [&'static str; 3] = [
    "{row}: there is no function called {function}",
    "{row} : la fonction {function} n'existe pas",
    "{row}: der findes ingen funktion ved navn {function}",
];

pub const GEN_ERR_ARITY: [&'static str; 3] = [
    "{row}: {function} takes {expected} arguments, not {got}",
    "{row} : {function} prend {expected} arguments, pas {got}",
    "{row}: {function} tager {expected} argumenter, ikke {got}",
];

pub const GEN_ERR_ARGUMENT: [&'static str; 3] = [
    "{row}: {function} can't use that argument ({detail})",
    "{row} : {function} ne peut pas utiliser cet argument ({detail})",
    "{row}: {function} kan ikke bruge det argument ({detail})",
];

pub const GEN_ERR_UNDEFINED: [&'static str; 3] = [
    "{row}: nothing defines {reference}",
    "{row} : rien ne définit {reference}",
    "{row}: intet definerer {reference}",
];

pub const GEN_ERR_CYCLE: [&'static str; 3] = [
    "{row}: refers to itself, or to a row below it",
    "{row} : se référence lui-même, ou une ligne en dessous",
    "{row}: refererer til sig selv eller til en række nedenunder",
];

pub const GUI_BODY_CONFLICT_HEADLINE: [&'static str; 3] = [
    "This request has both a raw body and form fields",
    "Cette requête a à la fois un corps brut et des champs de formulaire",
    "Denne anmodning har både en rå brødtekst og formularfelter",
];

pub const GUI_BODY_CONFLICT_DETAIL: [&'static str; 3] = [
    "Only the body would be sent, labelled as a form — every form field would be dropped. Remove one of them.",
    "Seul le corps serait envoyé, étiqueté comme un formulaire — tous les champs de formulaire seraient perdus. Supprimez l'un des deux.",
    "Kun brødteksten ville blive sendt, mærket som en formular — alle formularfelter ville gå tabt. Fjern det ene af dem.",
];

pub const GUI_BODY_CONFLICT_CLEAR: [&'static str; 3] = [
    "Remove the raw body",
    "Supprimer le corps brut",
    "Fjern den rå brødtekst",
];

pub const BODY_NOTES_STALE_HINT: [&'static str; 3] = [
    "✎ Notes here no longer match this body — Ctrl+B to keep or drop them",
    "✎ Les notes ici ne correspondent plus à ce corps — Ctrl+B pour les garder ou les supprimer",
    "✎ Noterne her passer ikke længere til denne brødtekst — Ctrl+B for at beholde eller fjerne dem",
];

pub const NOTES_STALE_TITLE: [&'static str; 3] = [
    "These notes no longer describe this body",
    "Ces notes ne décrivent plus ce corps",
    "Disse noter beskriver ikke længere denne brødtekst",
];

pub const NOTES_STALE_ADOPT: [&'static str; 3] = [
    "Use the notes as the body",
    "Utiliser les notes comme corps",
    "Brug noterne som brødtekst",
];

pub const NOTES_STALE_ADOPT_BLOCKED: [&'static str; 3] = [
    "Use the notes as the body (they no longer read as JSON)",
    "Utiliser les notes comme corps (elles ne sont plus du JSON)",
    "Brug noterne som brødtekst (de kan ikke længere læses som JSON)",
];

pub const NOTES_STALE_DISCARD: [&'static str; 3] = [
    "Delete the notes, keep the body",
    "Supprimer les notes, garder le corps",
    "Slet noterne, behold brødteksten",
];

pub const NOTES_STALE_CANCEL: [&'static str; 3] = [
    "Leave them alone",
    "Ne rien changer",
    "Lad dem være",
];

pub const NOTES_ADOPTED: [&'static str; 3] = [
    "The notes are the body again",
    "Les notes sont de nouveau le corps",
    "Noterne er brødteksten igen",
];

pub const NOTES_DISCARDED: [&'static str; 3] = [
    "Notes deleted",
    "Notes supprimées",
    "Noter slettet",
];

pub const SOME_REQUESTS_UNREADABLE: [&'static str; 3] = [
    "Opened, but part of the file could not be read as requests — they are kept as text, press Shift+H to repair one",
    "Ouvert, mais une partie du fichier n’a pas pu être lue comme des requêtes — elle est conservée telle quelle, appuyez sur Maj+H pour la réparer",
    "Åbnet, men en del af filen kunne ikke læses som anmodninger — den bevares som tekst, tryk Shift+H for at reparere den",
];

pub const CANNOT_EDIT_UNREADABLE: [&'static str; 3] = [
    "This request was never read from the file, so there are no fields to edit — press Shift+H to repair its Hurl text",
    "Cette requête n’a jamais été lue depuis le fichier, il n’y a donc aucun champ à modifier — appuyez sur Maj+H pour réparer son texte Hurl",
    "Denne anmodning blev aldrig læst fra filen, så der er ingen felter at redigere — tryk Shift+H for at reparere dens Hurl-tekst",
];

pub const ENTRY_UNREADABLE: [&'static str; 3] = [
    "unreadable",
    "illisible",
    "ulæselig",
];

pub const NOTES_APPLIED_FROM_RAW: [&'static str; 3] = [
    "Your edit to the notes became the body",
    "Votre modification des notes est devenue le corps",
    "Din ændring af noterne blev til brødteksten",
];

pub const NOTES_KEPT_BODY_WON: [&'static str; 3] = [
    "The body and its notes were both edited — the body was used, the notes kept",
    "Le corps et ses notes ont été modifiés tous les deux — le corps a été utilisé, les notes conservées",
    "Både brødteksten og dens noter blev ændret — brødteksten blev brugt, noterne beholdt",
];

pub const GUI_NOTES_STALE_HEADLINE: [&'static str; 3] = [
    "These notes no longer describe this body",
    "Ces notes ne décrivent plus ce corps",
    "Disse noter beskriver ikke længere denne brødtekst",
];

pub const GUI_NOTES_STALE_DETAIL: [&'static str; 3] = [
    "The body was edited without them, so they have been kept as plain comments rather than thrown away. Take them back as the body, or delete them.",
    "Le corps a été modifié sans elles\u{a0}; elles ont donc été conservées comme simples commentaires plutôt que supprimées. Reprenez-les comme corps, ou supprimez-les.",
    "Brødteksten blev redigeret uden dem, så de er bevaret som almindelige kommentarer i stedet for at blive smidt væk. Tag dem tilbage som brødtekst, eller slet dem.",
];

pub const GUI_BODY_MODE_RAW: [&'static str; 3] = [
    "Raw body",
    "Corps brut",
    "Rå brødtekst",
];

pub const GUI_BODY_MODE_FORM: [&'static str; 3] = [
    "Form fields",
    "Champs de formulaire",
    "Formularfelter",
];

pub const GUI_RAW_BODY_HINT: [&'static str; 3] = [
    "Raw request body (JSON, text, …)",
    "Corps brut de la requête (JSON, texte, …)",
    "Rå anmodningstekst (JSON, tekst, …)",
];

pub const GUI_BASIC_AUTH: [&'static str; 3] = [
    "Basic authentication",
    "Authentification basique",
    "Basisgodkendelse",
];

pub const GUI_USERNAME: [&'static str; 3] = [
    "Username",
    "Nom d'utilisateur",
    "Brugernavn",
];

pub const GUI_PASSWORD: [&'static str; 3] = [
    "Password",
    "Mot de passe",
    "Adgangskode",
];

pub const GUI_PER_REQUEST_OPTIONS: [&'static str; 3] = [
    "Per-request Hurl options (e.g. retry: 3, insecure: true)",
    "Options Hurl par requête (p. ex. retry: 3, insecure: true)",
    "Hurl-indstillinger pr. anmodning (f.eks. retry: 3, insecure: true)",
];

pub const GUI_OPTIONS_PARAMETERS: [&'static str; 3] = [
    "Parameters: {} — a report can steer these with USING(…); the value here is the default when nothing does.",
    "Paramètres\u{a0}: {} — un rapport peut les piloter avec USING(…)\u{a0}; la valeur ici est celle par défaut.",
    "Parametre: {} — en rapport kan styre disse med USING(…); værdien her er standardværdien, når intet gør det.",
];

pub const GUI_OPTIONS_DECLARE_PARAMETER: [&'static str; 3] = [
    "Add 'variable: NAME=value' to declare a parameter: the request keeps working on its own with that value, and a report can steer it by name.",
    "Ajoutez «\u{a0}variable\u{a0}: NOM=valeur\u{a0}» pour déclarer un paramètre\u{a0}: la requête continue de fonctionner seule avec cette valeur, et un rapport peut la piloter par son nom.",
    "Tilføj 'variable: NAVN=værdi' for at erklære en parameter: forespørgslen virker fortsat alene med den værdi, og en rapport kan styre den ved navn.",
];

pub const GUI_RESPONSE_ASSERTIONS: [&'static str; 3] = [
    "Response assertions (Hurl expressions)",
    "Assertions de réponse (expressions Hurl)",
    "Svar-assertioner (Hurl-udtryk)",
];

pub const GUI_EXPECTED_STATUS: [&'static str; 3] = [
    "Expected status",
    "Statut attendu",
    "Forventet status",
];

pub const GUI_CAPTURES_HELP: [&'static str; 3] = [
    "Capture values from the response for later requests",
    "Capturer des valeurs de la réponse pour des requêtes ultérieures",
    "Fang værdier fra svaret til senere anmodninger",
];

pub const GUI_ADD_ASSERT: [&'static str; 3] = [
    "+ Add assert",
    "+ Ajouter une assertion",
    "+ Tilføj assertion",
];

pub const GUI_ADD_FIELD: [&'static str; 3] = [
    "+ Add field",
    "+ Ajouter un champ",
    "+ Tilføj felt",
];

pub const GUI_BASE64_PREFIX: [&'static str; 3] = [
    "base64 prefix",
    "préfixe base64",
    "base64-præfiks",
];

pub const GUI_NO_REQUESTS_EDITOR: [&'static str; 3] = [
    "This collection has no requests.",
    "Cette collection ne contient aucune requête.",
    "Denne samling har ingen anmodninger.",
];

pub const GUI_NEW_REQUEST: [&'static str; 3] = [
    "New request",
    "Nouvelle requête",
    "Ny anmodning",
];

pub const GUI_NEW_REQUEST_BTN: [&'static str; 3] = [
    "New request",
    "Nouvelle requête",
    "Ny anmodning",
];

pub const GUI_SEND: [&'static str; 3] = [
    "Send",
    "Envoyer",
    "Send",
];

pub const GUI_KIND_TEXT: [&'static str; 3] = [
    "Text",
    "Texte",
    "Tekst",
];

pub const GUI_KIND_FILE: [&'static str; 3] = [
    "File",
    "Fichier",
    "Fil",
];

pub const GUI_KIND_BASE64: [&'static str; 3] = [
    "Base64",
    "Base64",
    "Base64",
];

// Field hints.
pub const GUI_HINT_KEY: [&'static str; 3] = [
    "key",
    "clé",
    "nøgle",
];

pub const GUI_HINT_VALUE: [&'static str; 3] = [
    "value",
    "valeur",
    "værdi",
];

pub const GUI_HINT_HEADER: [&'static str; 3] = [
    "Header",
    "En-tête",
    "Header",
];

pub const GUI_BAD_KEY_WARNING: [&'static str; 3] = [
    "Hurl can't carry this character in a name — the whole collection would fail to load. This row won't be sent until it's renamed.",
    "Hurl ne peut pas porter ce caractère dans un nom — toute la collection ne se chargerait plus. Cette ligne ne sera pas envoyée tant qu'elle n'est pas renommée.",
    "Hurl kan ikke bære dette tegn i et navn — hele samlingen ville ikke kunne indlæses. Denne række sendes ikke, før den omdøbes.",
];

pub const GUI_BAD_VALUE_WARNING: [&'static str; 3] = [
    "Hurl can't carry a newline, tab or backslash in a value. This row won't be sent until it's edited.",
    "Hurl ne peut pas porter de saut de ligne, de tabulation ni de barre oblique inverse dans une valeur. Cette ligne ne sera pas envoyée tant qu'elle n'est pas modifiée.",
    "Hurl kan ikke bære linjeskift, tabulator eller omvendt skråstreg i en værdi. Denne række sendes ikke, før den redigeres.",
];

pub const GUI_HINT_NAME: [&'static str; 3] = [
    "name",
    "nom",
    "navn",
];

pub const GUI_HINT_QUERY: [&'static str; 3] = [
    "query",
    "requête",
    "forespørgsel",
];

pub const GUI_HINT_DESCRIPTION: [&'static str; 3] = [
    "note",
    "note",
    "note",
];

pub const GUI_HINT_OPTION: [&'static str; 3] = [
    "option",
    "option",
    "indstilling",
];

pub const GUI_SUGGEST_NO_MATCHES: [&'static str; 3] = [
    "No matching names",
    "Aucun nom correspondant",
    "Ingen matchende navne",
];

pub const GUI_HINT_FIELD: [&'static str; 3] = [
    "field",
    "champ",
    "felt",
];

// Example-shaped hints. The URL and the Hurl assertion are literal syntax
// (a URL, a Hurl expression), so they stay identical across languages;
// only the file-path placeholder has words to translate.
pub const GUI_HINT_URL: [&'static str; 3] = [
    "https://api.example.com/path",
    "https://api.example.com/path",
    "https://api.example.com/path",
];

pub const GUI_HINT_ASSERT: [&'static str; 3] = [
    "jsonpath \"$.status\" == \"ok\"",
    "jsonpath \"$.status\" == \"ok\"",
    "jsonpath \"$.status\" == \"ok\"",
];

pub const GUI_HINT_FILE_PATH: [&'static str; 3] = [
    "/path/to/file",
    "/chemin/vers/fichier",
    "/sti/til/fil",
];

pub const GUI_HINT_KEY_UPPER: [&'static str; 3] = [
    "KEY",
    "CLÉ",
    "NØGLE",
];

// Response viewer.
pub const GUI_ERROR: [&'static str; 3] = [
    "Error",
    "Erreur",
    "Fejl",
];

pub const GUI_NO_RESPONSE_YET: [&'static str; 3] = [
    "No response yet",
    "Aucune réponse",
    "Intet svar endnu",
];

pub const GUI_COPY: [&'static str; 3] = [
    "Copy",
    "Copier",
    "Kopiér",
];

pub const GUI_COPY_BODY: [&'static str; 3] = [
    "Copy body",
    "Copier le corps",
    "Kopiér brødtekst",
];

pub const GUI_COMPACT: [&'static str; 3] = [
    "Compact",
    "Compact",
    "Kompakt",
];

pub const GUI_COMPACT_HINT: [&'static str; 3] = [
    "Shorten long string values to a \"head…tail\" overview (copying still yields the full body)",
    "Raccourcir les longues valeurs de chaîne en un aperçu « début…fin » (la copie renvoie toujours le corps complet)",
    "Forkort lange strengværdier til et \"start…slut\"-overblik (kopiering giver stadig hele brødteksten)",
];

pub const GUI_EMPTY_BODY: [&'static str; 3] = [
    "(empty body)",
    "(corps vide)",
    "(tom brødtekst)",
];

pub const GUI_NO_HEADERS: [&'static str; 3] = [
    "(no headers)",
    "(aucun en-tête)",
    "(ingen headere)",
];

pub const GUI_NO_ASSERTIONS: [&'static str; 3] = [
    "No assertions on this request.",
    "Aucune assertion pour cette requête.",
    "Ingen assertioner på denne anmodning.",
];

// Environments panel.
pub const GUI_ENVIRONMENTS: [&'static str; 3] = [
    "Environments",
    "Environnements",
    "Miljøer",
];

pub const GUI_LOAD_ELLIPSIS: [&'static str; 3] = [
    "Load…",
    "Charger…",
    "Indlæs…",
];

pub const GUI_LOAD_VARS_TOOLTIP: [&'static str; 3] = [
    "Load a .vars file",
    "Charger un fichier .vars",
    "Indlæs en .vars-fil",
];

pub const GUI_NEW_ENVIRONMENT: [&'static str; 3] = [
    "New environment",
    "Nouvel environnement",
    "Nyt miljø",
];

pub const GUI_NO_ENVIRONMENTS: [&'static str; 3] = [
    "No environments. Load a .vars file or add one.",
    "Aucun environnement. Chargez un fichier .vars ou ajoutez-en un.",
    "Ingen miljøer. Indlæs en .vars-fil eller tilføj et.",
];

pub const GUI_ENV_FILTER_HINT: [&'static str; 3] = [
    "Filter environments…",
    "Filtrer les environnements…",
    "Filtrér miljøer…",
];

pub const GUI_ENV_FILTER_NO_MATCHES: [&'static str; 3] = [
    "No environment matches the filter.",
    "Aucun environnement ne correspond au filtre.",
    "Intet miljø matcher filteret.",
];

pub const GUI_REQUEST_FILTER_HINT: [&'static str; 3] = [
    "Find a request…",
    "Chercher une requête…",
    "Find en forespørgsel…",
];

pub const GUI_REQUEST_FILTER_NO_MATCHES: [&'static str; 3] = [
    "No request matches the filter.",
    "Aucune requête ne correspond au filtre.",
    "Ingen forespørgsel matcher filteret.",
];

pub const GUI_SORT_FILE: [&'static str; 3] = [
    "Sorting: file order",
    "Tri : ordre du fichier",
    "Sortering: filens rækkefølge",
];

pub const GUI_SORT_ALPHA: [&'static str; 3] = [
    "Sorting: A-Z",
    "Tri : A-Z",
    "Sortering: A-Å",
];

pub const GUI_SORT_REVERSE: [&'static str; 3] = [
    "Sorting: Z-A",
    "Tri : Z-A",
    "Sortering: Å-A",
];

pub const HELP_SORT_BUTTON: [&'static str; 3] = [
    "Click to change how the list is ordered: file order, A-Z, Z-A. Display only — the file and Run All always follow the file's order. Requests can only be dragged to a new position in file order.",
    "Cliquez pour changer l'ordre de la liste : ordre du fichier, A-Z, Z-A. Affichage seulement — le fichier et Tout exécuter suivent toujours l'ordre du fichier. Les requêtes ne peuvent être déplacées que dans l'ordre du fichier.",
    "Klik for at ændre listens rækkefølge: filens rækkefølge, A-Å, Å-A. Kun visning — filen og Kør alle følger altid filens rækkefølge. Forespørgsler kan kun trækkes til en ny position i filens rækkefølge.",
];

pub const GUI_ENV_SOURCE_ALL: [&'static str; 3] = [
    "All",
    "Tous",
    "Alle",
];

pub const GUI_ENV_SOURCE_GLOBAL: [&'static str; 3] = [
    "Global",
    "Global",
    "Global",
];

pub const GUI_ENV_SOURCE_WORKSPACE: [&'static str; 3] = [
    "Workspace",
    "Workspace",
    "Workspace",
];

pub const GUI_ENV_SOURCE_NO_MATCHES: [&'static str; 3] = [
    "No environments from this source.",
    "Aucun environnement de cette source.",
    "Ingen miljøer fra denne kilde.",
];

pub const GUI_ENV_GOTO_ACTIVE_TOOLTIP: [&'static str; 3] = [
    "Go to the active environment (clears the filters if they hide it)",
    "Aller à l'environnement actif (efface les filtres s'ils le masquent)",
    "Gå til det aktive miljø (rydder filtrene, hvis de skjuler det)",
];

pub const GUI_ENV_OPEN_WORKSPACE_TOOLTIP: [&'static str; 3] = [
    "In this workspace — click to open and expand it",
    "Dans cet espace de travail — cliquez pour l'ouvrir et le développer",
    "I dette arbejdsområde — klik for at åbne og udvide det",
];

pub const GUI_WS_REVERT_REQUEST: [&'static str; 3] = [
    "Revert request to saved",
    "Rétablir la requête à la sauvegarde",
    "Gendan anmodning til gemt",
];

pub const GUI_WS_REVERT_FILE: [&'static str; 3] = [
    "Revert file to saved",
    "Rétablir le fichier à la sauvegarde",
    "Gendan fil til gemt",
];

pub const GUI_REVERT_TITLE: [&'static str; 3] = [
    "Revert to saved",
    "Rétablir à la sauvegarde",
    "Gendan til gemt",
];

pub const GUI_REVERT_GO: [&'static str; 3] = [
    "Revert",
    "Rétablir",
    "Gendan",
];

pub const GUI_WS_SET_ACTIVE_ENV: [&'static str; 3] = [
    "Set as active environment",
    "Définir comme environnement actif",
    "Angiv som aktivt miljø",
];

pub const GUI_ACTIVE: [&'static str; 3] = [
    "Active",
    "Actif",
    "Aktiv",
];

pub const GUI_ACTIVE_TOOLTIP: [&'static str; 3] = [
    "Use this environment for substitution",
    "Utiliser cet environnement pour la substitution",
    "Brug dette miljø til substitution",
];

pub const GUI_LINKED: [&'static str; 3] = [
    "Linked",
    "Lié",
    "Tilknyttet",
];

pub const GUI_LINKED_TOOLTIP: [&'static str; 3] = [
    "Pin to the active collection (overrides Active)",
    "Épingler à la collection active (remplace Actif)",
    "Fastgør til den aktive samling (tilsidesætter Aktiv)",
];

pub const GUI_DELETE: [&'static str; 3] = [
    "Delete",
    "Supprimer",
    "Slet",
];

pub const GUI_SAVE_ELLIPSIS: [&'static str; 3] = [
    "Save…",
    "Enregistrer…",
    "Gem…",
];

pub const GUI_ENV_MENU_ACTIVATE: [&'static str; 3] = [
    "Activate",
    "Activer",
    "Aktivér",
];

pub const GUI_ENV_MENU_DEACTIVATE: [&'static str; 3] = [
    "Deactivate",
    "Désactiver",
    "Deaktivér",
];

pub const GUI_ENV_MENU_LINK: [&'static str; 3] = [
    "Link to this collection",
    "Lier à cette collection",
    "Tilknyt denne samling",
];

pub const GUI_ENV_MENU_UNLINK: [&'static str; 3] = [
    "Unlink from this collection",
    "Délier de cette collection",
    "Fjern tilknytning til denne samling",
];

pub const GUI_ADD_VARIABLE: [&'static str; 3] = [
    "+ Add variable",
    "+ Ajouter une variable",
    "+ Tilføj variabel",
];

pub const GUI_RESOLVING: [&'static str; 3] = [
    "resolving…",
    "résolution…",
    "løser…",
];

pub const GUI_UNRESOLVED: [&'static str; 3] = [
    "unresolved",
    "non résolu",
    "uløst",
];

// Requests tree.
pub const GUI_ADD_REQUEST: [&'static str; 3] = [
    "Add request",
    "Ajouter une requête",
    "Tilføj anmodning",
];

pub const GUI_RUN_ALL: [&'static str; 3] = [
    "Run All",
    "Tout exécuter",
    "Kør alle",
];

pub const GUI_RUN_ALL_TOOLTIP: [&'static str; 3] = [
    "Run every request in order",
    "Exécuter toutes les requêtes dans l'ordre",
    "Kør alle anmodninger i rækkefølge",
];

pub const GUI_NO_REQUESTS_TREE: [&'static str; 3] = [
    "No requests yet — click Add to create one.",
    "Aucune requête — cliquez sur Ajouter pour en créer une.",
    "Ingen anmodninger endnu — klik på Tilføj for at oprette en.",
];

pub const GUI_UNTITLED_REQUEST: [&'static str; 3] = [
    "(untitled)",
    "(sans titre)",
    "(uden titel)",
];

pub const GUI_RUN: [&'static str; 3] = [
    "Run",
    "Exécuter",
    "Kør",
];

pub const GUI_RENAME_ELLIPSIS: [&'static str; 3] = [
    "Rename…",
    "Renommer…",
    "Omdøb…",
];

pub const GUI_DUPLICATE: [&'static str; 3] = [
    "Duplicate",
    "Dupliquer",
    "Dublér",
];

pub const GUI_EDITED_REQUEST: [&'static str; 3] = [
    "Edited — not saved yet",
    "Modifiée — pas encore enregistrée",
    "Ændret — endnu ikke gemt",
];

pub const GUI_EDITED_COLLECTION: [&'static str; 3] = [
    "Has unsaved edits",
    "Contient des modifications non enregistrées",
    "Har ugemte ændringer",
];

pub const GUI_UNDO_DELETE_REQUEST: [&'static str; 3] = [
    "Undo Delete Request",
    "Annuler la suppression de la requête",
    "Fortryd sletning af anmodning",
];

// Shared widgets.
pub const GUI_ADD: [&'static str; 3] = [
    "+ Add",
    "+ Ajouter",
    "+ Tilføj",
];

pub const GUI_REMOVE: [&'static str; 3] = [
    "Remove",
    "Supprimer",
    "Fjern",
];

// Menu bar.
pub const GUI_MENU_FILE: [&'static str; 3] = [
    "File",
    "Fichier",
    "Fil",
];

pub const GUI_MENU_EDIT: [&'static str; 3] = [
    "Edit",
    "Édition",
    "Rediger",
];

pub const GUI_MENU_VIEW: [&'static str; 3] = [
    "View",
    "Affichage",
    "Vis",
];

pub const GUI_MENU_SETTINGS: [&'static str; 3] = [
    "Settings",
    "Paramètres",
    "Indstillinger",
];

// The Alt-key mnemonic for each top-level menu: the letter that opens it
// after Alt (and the one underlined in its title while Alt is armed).
//
// Per language, and *not* derived from the first letter of the title,
// because the titles are translated and their initials collide: in French,
// "Fichier" and... nothing else, but in Danish "Fil" and "Vis" are fine
// while a fourth menu could easily clash. Keeping them in the table means a
// translator picks a letter that suits their own words (French uses P for
// "Paramètres", Danish I for "Indstillinger"), and the uniqueness test
// below catches a collision at build time rather than in the field.
pub const GUI_MENU_FILE_KEY: [&'static str; 3] = [
    "F",
    "F",
    "F",
];

pub const GUI_MENU_EDIT_KEY: [&'static str; 3] = [
    "E",
    "D",
    "R",
];

pub const GUI_MENU_VIEW_KEY: [&'static str; 3] = [
    "V",
    "A",
    "V",
];

pub const GUI_MENU_SETTINGS_KEY: [&'static str; 3] = [
    "S",
    "P",
    "I",
];

pub const GUI_NEW_COLLECTION_ELLIPSIS: [&'static str; 3] = [
    "New collection…",
    "Nouvelle collection…",
    "Ny samling…",
];

pub const GUI_MENU_OPEN: [&'static str; 3] = [
    "Open",
    "Ouvrir",
    "Åbn",
];

pub const GUI_MENU_KIND_RESPONSE: [&'static str; 3] = [
    "Response",
    "Réponse",
    "Svar",
];

pub const GUI_MENU_FROM_FILE: [&'static str; 3] = [
    "From a file…",
    "Depuis un fichier…",
    "Fra en fil…",
];

pub const GUI_MENU_FROM_FOLDER: [&'static str; 3] = [
    "From a folder…",
    "Depuis un dossier…",
    "Fra en mappe…",
];

pub const GUI_MENU_FROM_GIT: [&'static str; 3] = [
    "From Git…",
    "Depuis Git…",
    "Fra Git…",
];

pub const GUI_MENU_FROM_POSTMAN: [&'static str; 3] = [
    "From a Postman account…",
    "Depuis un compte Postman…",
    "Fra en Postman-konto…",
];

pub const GUI_MENU_IMPORT: [&'static str; 3] = [
    "Import from Postman",
    "Importer depuis Postman",
    "Importér fra Postman",
];

pub const GUI_MENU_IMPORT_FILE: [&'static str; 3] = [
    "From an exported file (.json)…",
    "Depuis un fichier exporté (.json)…",
    "Fra en eksporteret fil (.json)…",
];

pub const GUI_MENU_IMPORT_ACCOUNT: [&'static str; 3] = [
    "From my Postman account…",
    "Depuis mon compte Postman…",
    "Fra min Postman-konto…",
];

pub const HELP_MENU_IMPORT_FILE: [&'static str; 3] = [
    "A collection or environment you exported from Postman. Nothing but the file is needed.",
    "Une collection ou un environnement exporté depuis Postman. Rien d'autre que le fichier n'est nécessaire.",
    "En samling eller et miljø, du har eksporteret fra Postman. Der kræves intet andet end filen.",
];

pub const HELP_MENU_IMPORT_ACCOUNT: [&'static str; 3] = [
    "Connects to Postman with an API key and brings whole workspaces across.",
    "Se connecte à Postman avec une clé d’API et récupère des workspaces entiers.",
    "Forbinder til Postman med en API-nøgle og henter hele workspaces.",
];

pub const GUI_IMPORT_POSTMAN_BUTTON: [&'static str; 3] = [
    "Import from Postman…",
    "Importer depuis Postman…",
    "Importér fra Postman…",
];

pub const GUI_MENU_TO_FILE: [&'static str; 3] = [
    "To a file…",
    "Vers un fichier…",
    "Til en fil…",
];

pub const GUI_MENU_TO_GIT: [&'static str; 3] = [
    "To Git…",
    "Vers Git…",
    "Til Git…",
];

pub const GUI_MENU_SAVE: [&'static str; 3] = [
    "Save",
    "Enregistrer",
    "Gem",
];

pub const GUI_MENU_SAVE_AS: [&'static str; 3] = [
    "Save As…",
    "Enregistrer sous…",
    "Gem som…",
];

pub const GUI_SHORTCUT_SAVE: [&'static str; 3] = [
    "Ctrl+S",
    "Ctrl+S",
    "Ctrl+S",
];

pub const HELP_MENU_SAVE: [&'static str; 3] = [
    "Write this straight back to the file it came from",
    "Réécrire directement dans le fichier d'origine",
    "Skriv direkte tilbage til filen, den kom fra",
];

pub const HELP_MENU_SAVE_UNSAVED: [&'static str; 3] = [
    "This has never been saved, so you will be asked where to put it",
    "Ceci n'a jamais été enregistré\u{a0}; l'emplacement vous sera demandé",
    "Dette er aldrig blevet gemt, så du bliver spurgt om hvor",
];

pub const GUI_SET_BASE_URL: [&'static str; 3] = [
    "Set base URL…",
    "Définir l'URL de base…",
    "Angiv basis-URL…",
];

pub const GUI_CLOSE_TAB: [&'static str; 3] = [
    "Close tab",
    "Fermer l'onglet",
    "Luk fane",
];

pub const GUI_QUIT: [&'static str; 3] = [
    "Quit",
    "Quitter",
    "Afslut",
];

pub const GUI_LANGUAGE: [&'static str; 3] = [
    "Language",
    "Langue",
    "Sprog",
];

pub const GUI_THEME_MENU: [&'static str; 3] = [
    "Theme",
    "Thème",
    "Tema",
];

pub const GUI_FOLLOW_LANGUAGE: [&'static str; 3] = [
    "Follow language",
    "Suivre la langue",
    "Følg sproget",
];

pub const GUI_NEW_CUSTOM_THEME: [&'static str; 3] = [
    "New custom theme…",
    "Nouveau thème personnalisé…",
    "Nyt brugerdefineret tema…",
];

pub const GUI_EDIT_CURRENT_THEME: [&'static str; 3] = [
    "Edit current theme…",
    "Modifier le thème actuel…",
    "Rediger nuværende tema…",
];

pub const GUI_PREFERENCES: [&'static str; 3] = [
    "Preferences",
    "Préférences",
    "Præferencer",
];

pub const GUI_CONFIRM_ON_EXIT: [&'static str; 3] = [
    "Confirm on exit",
    "Confirmer à la sortie",
    "Bekræft ved afslutning",
];

pub const GUI_CONFIRM_ON_CLEAR: [&'static str; 3] = [
    "Confirm on clear",
    "Confirmer avant de fermer",
    "Bekræft ved lukning",
];

pub const GUI_CONFIRM_DELETE_ENV: [&'static str; 3] = [
    "Confirm deleting an environment",
    "Confirmer la suppression d'un environnement",
    "Bekræft sletning af et miljø",
];

pub const GUI_RUN_ALL_BATCH: [&'static str; 3] = [
    "Run All in batch mode",
    "Tout exécuter en mode batch",
    "Kør alle i batch-tilstand",
];

pub const GUI_DEFAULT_CODE_HURL: [&'static str; 3] = [
    "Default Code view: Hurl",
    "Vue Code par défaut\u{a0}: Hurl",
    "Standard Code-visning: Hurl",
];

pub const GUI_REQUEST_RESPONSE: [&'static str; 3] = [
    "Request / Response",
    "Requête / Réponse",
    "Anmodning / Svar",
];

pub const GUI_REPORTS: [&'static str; 3] = [
    "Reports",
    "Rapports",
    "Rapporter",
];

pub const GUI_SEND_TOOLTIP: [&'static str; 3] = [
    "Send the selected request (Ctrl+Enter / F5)",
    "Envoyer la requête sélectionnée (Ctrl+Entrée / F5)",
    "Send den valgte anmodning (Ctrl+Enter / F5)",
];

pub const GUI_CUSTOM: [&'static str; 3] = [
    "Custom",
    "Personnalisé",
    "Brugerdefineret",
];

pub const GUI_DEFAULT_ENV_NAME: [&'static str; 3] = [
    "Environment",
    "Environnement",
    "Miljø",
];

// Dialogs.
pub const GUI_OPEN_COLLECTION_TITLE: [&'static str; 3] = [
    "Open collection",
    "Ouvrir une collection",
    "Åbn samling",
];

pub const GUI_OPEN_ENVIRONMENT_TITLE: [&'static str; 3] = [
    "Open environment",
    "Ouvrir un environnement",
    "Åbn miljø",
];

pub const GUI_FILTER_COLLECTIONS: [&'static str; 3] = [
    "Collections (Hurl / Postman)",
    "Collections (Hurl / Postman)",
    "Samlinger (Hurl / Postman)",
];

pub const GUI_FILTER_POSTMAN_EXPORT: [&'static str; 3] = [
    "Postman export (.json)",
    "Export Postman (.json)",
    "Postman-eksport (.json)",
];

pub const GUI_FILTER_ENVIRONMENTS: [&'static str; 3] = [
    "Environments",
    "Environnements",
    "Miljøer",
];

pub const GUI_FILTER_ALL: [&'static str; 3] = [
    "All files",
    "Tous les fichiers",
    "Alle filer",
];

pub const GUI_BROWSE: [&'static str; 3] = [
    "Browse…",
    "Parcourir…",
    "Gennemse…",
];

pub const GUI_OPEN_WORKSPACE_TITLE: [&'static str; 3] = [
    "Open workspace folder",
    "Ouvrir un dossier d'espace de travail",
    "Åbn workspace-mappe",
];

pub const POSTMAN_EXPORT_OPEN_TITLE: [&'static str; 3] = [
    "Open a Postman export",
    "Ouvrir un export Postman",
    "Åbn en Postman-eksport",
];

pub const GUI_NOT_A_FOLDER: [&'static str; 3] = [
    "That path is not a folder.",
    "Ce chemin n'est pas un dossier.",
    "Den sti er ikke en mappe.",
];

pub const GUI_WORKSPACE_FILTER: [&'static str; 3] = [
    "Filter",
    "Filtre",
    "Filter",
];

pub const GUI_WS_NEW: [&'static str; 3] = [
    "New",
    "Nouveau",
    "Ny",
];

pub const GUI_WS_NEW_TOOLTIP: [&'static str; 3] = [
    "Add a collection, report or environment to this workspace",
    "Ajouter une collection, un rapport ou un environnement à cet espace de travail",
    "Tilføj en samling, rapport eller et miljø til dette arbejdsområde",
];

pub const GUI_WS_NEW_COLLECTION: [&'static str; 3] = [
    "New collection…",
    "Nouvelle collection…",
    "Ny samling…",
];

pub const GUI_WS_NEW_REPORT: [&'static str; 3] = [
    "New report…",
    "Nouveau rapport…",
    "Ny rapport…",
];

pub const GUI_WS_NEW_ENVIRONMENT: [&'static str; 3] = [
    "New environment…",
    "Nouvel environnement…",
    "Nyt miljø…",
];

pub const GUI_WS_NEW_FOLDER: [&'static str; 3] = [
    "New folder…",
    "Nouveau dossier…",
    "Ny mappe…",
];

pub const GUI_WS_NEW_IN_FOLDER: [&'static str; 3] = [
    "New in this folder",
    "Nouveau dans ce dossier",
    "Ny i denne mappe",
];

pub const GUI_WS_NEW_IN_ROOT: [&'static str; 3] = [
    "New in this workspace",
    "Nouveau dans cet espace de travail",
    "Ny i dette arbejdsområde",
];

pub const GUI_WS_NEW_COLLECTION_TITLE: [&'static str; 3] = [
    "Name the new collection",
    "Nommez la nouvelle collection",
    "Navngiv den nye samling",
];

pub const GUI_WS_NEW_FOLDER_TITLE: [&'static str; 3] = [
    "Name the new folder",
    "Nommez le nouveau dossier",
    "Navngiv den nye mappe",
];

pub const GUI_WS_NEW_REPORT_TITLE: [&'static str; 3] = [
    "Name the new report",
    "Nommez le nouveau rapport",
    "Navngiv den nye rapport",
];

pub const GUI_WS_NEW_ENVIRONMENT_TITLE: [&'static str; 3] = [
    "Name the new environment",
    "Nommez le nouvel environnement",
    "Navngiv det nye miljø",
];

pub const GUI_WORKSPACE_FILTER_TOOLTIP: [&'static str; 3] = [
    "Toggle showing only .hurl/.json/.vars/.trail files",
    "Basculer l'affichage des seuls fichiers .hurl/.json/.vars/.trail",
    "Skift visning af kun .hurl/.json/.vars/.trail-filer",
];

pub const GUI_CLOSE: [&'static str; 3] = [
    "Close",
    "Fermer",
    "Luk",
];

pub const GUI_CANCEL: [&'static str; 3] = [
    "Cancel",
    "Annuler",
    "Annuller",
];

pub const GUI_COULD_NOT_PARSE: [&'static str; 3] = [
    "Could not parse that file.",
    "Impossible d'analyser ce fichier.",
    "Kunne ikke fortolke den fil.",
];

pub const GUI_NOT_POSTMAN_EXPORT: [&'static str; 3] = [
    "That file is not a Postman collection or environment export.",
    "Ce fichier n'est pas un export de collection ou d'environnement Postman.",
    "Den fil er ikke en Postman-eksport af en samling eller et miljø.",
];

pub const GUI_COULD_NOT_READ: [&'static str; 3] = [
    "Could not read file:",
    "Impossible de lire le fichier\u{a0}:",
    "Kunne ikke læse filen:",
];

pub const GUI_COULD_NOT_WRITE: [&'static str; 3] = [
    "Could not write file:",
    "Impossible d'écrire le fichier\u{a0}:",
    "Kunne ikke skrive filen:",
];

pub const GUI_OPEN_REPORT_TITLE: [&'static str; 3] = [
    "Open report",
    "Ouvrir un rapport",
    "Åbn rapport",
];

pub const GUI_SAVE_REPORT_TITLE: [&'static str; 3] = [
    "Save report",
    "Enregistrer le rapport",
    "Gem rapport",
];

pub const GUI_FILTER_REPORTS: [&'static str; 3] = [
    "PaperTrail reports",
    "Rapports PaperTrail",
    "PaperTrail-rapporter",
];

pub const GUI_SAVE_COLLECTION_TITLE: [&'static str; 3] = [
    "Save collection",
    "Enregistrer la collection",
    "Gem samling",
];

pub const GUI_SAVE_ENVIRONMENT_TITLE: [&'static str; 3] = [
    "Save environment",
    "Enregistrer l'environnement",
    "Gem miljø",
];

pub const GUI_SAVE_RESPONSE_TITLE: [&'static str; 3] = [
    "Save response",
    "Enregistrer la réponse",
    "Gem svar",
];

pub const GUI_SAVE_RESULTS_TITLE: [&'static str; 3] = [
    "Export report results",
    "Exporter les résultats du rapport",
    "Eksportér rapportresultater",
];

pub const GUI_SAVE_BASELINE_TITLE: [&'static str; 3] = [
    "Save report baseline",
    "Enregistrer la référence du rapport",
    "Gem rapport-basislinje",
];

pub const GUI_UNSUPPORTED_FORMAT: [&'static str; 3] = [
    "Unsupported format:",
    "Format non pris en charge\u{a0}:",
    "Ikke-understøttet format:",
];

pub const GUI_SAVE: [&'static str; 3] = [
    "Save",
    "Enregistrer",
    "Gem",
];

pub const GUI_NOTHING_TO_SAVE: [&'static str; 3] = [
    "Nothing to save.",
    "Rien à enregistrer.",
    "Intet at gemme.",
];

pub const GUI_RENAME: [&'static str; 3] = [
    "Rename",
    "Renommer",
    "Omdøb",
];

pub const GUI_NAME: [&'static str; 3] = [
    "Name",
    "Nom",
    "Navn",
];

pub const GUI_BASE_URL_TITLE: [&'static str; 3] = [
    "Base URL",
    "URL de base",
    "Basis-URL",
];

pub const GUI_NEW_ENV_NAME_TITLE: [&'static str; 3] = [
    "New environment name",
    "Nom du nouvel environnement",
    "Navn på nyt miljø",
];

pub const GUI_NEW_COLLECTION_NAME_TITLE: [&'static str; 3] = [
    "New collection name",
    "Nom de la nouvelle collection",
    "Navn på ny samling",
];

pub const GUI_OK: [&'static str; 3] = [
    "OK",
    "OK",
    "OK",
];

pub const GUI_THEME_EDITOR_TITLE: [&'static str; 3] = [
    "Theme editor",
    "Éditeur de thème",
    "Tema-editor",
];

pub const GUI_APPLY: [&'static str; 3] = [
    "Apply",
    "Appliquer",
    "Anvend",
];

// Reports panel.
pub const GUI_CLOSE_REPORTS: [&'static str; 3] = [
    "Close reports",
    "Fermer les rapports",
    "Luk rapporter",
];

pub const GUI_NO_REPORTS: [&'static str; 3] = [
    "No reports in this session.",
    "Aucun rapport dans cette session.",
    "Ingen rapporter i denne session.",
];

pub const GUI_NEW_REPORT: [&'static str; 3] = [
    "New report",
    "Nouveau rapport",
    "Ny rapport",
];

pub const GUI_REPORT_PATH: [&'static str; 3] = [
    "Path:",
    "Chemin\u{a0}:",
    "Sti:",
];

// PaperTrail block editor (report_editor.rs).
pub const GUI_REPORT_RUN_SETTINGS: [&'static str; 3] = [
    "Run settings",
    "Réglages d'exécution",
    "Kørselsindstillinger",
];

pub const GUI_REPORT_RUN_SETTINGS_SHORTCUT: [&'static str; 3] = [
    "Click, or press p, to change them.",
    "Cliquez, ou appuyez sur p, pour les modifier.",
    "Klik, eller tryk p, for at ændre dem.",
];

pub const GUI_REPORT_VIEW_BLOCKS: [&'static str; 3] = [
    "Blocks",
    "Blocs",
    "Blokke",
];

pub const GUI_REPORT_VIEW_SOURCE: [&'static str; 3] = [
    "Source",
    "Source",
    "Kilde",
];

pub const GUI_REPORT_ADD_BLOCK: [&'static str; 3] = [
    "Add block",
    "Ajouter un bloc",
    "Tilføj blok",
];

pub const GUI_REPORT_PALETTE_BLOCKS: [&'static str; 3] = [
    "Blocks",
    "Blocs",
    "Blokke",
];

pub const GUI_REPORT_PALETTE_HINT: [&'static str; 3] = [
    "Drag a block into the report",
    "Glissez un bloc dans le rapport",
    "Træk en blok ind i rapporten",
];

pub const GUI_REPORT_PALETTE_MODS: [&'static str; 3] = [
    "Modifiers",
    "Modificateurs",
    "Modifikatorer",
];

pub const GUI_REPORT_PALETTE_MODS_HINT: [&'static str; 3] = [
    "Drop onto a block to attach",
    "Déposez sur un bloc pour l'attacher",
    "Slip på en blok for at tilføje",
];

pub const GUI_REPORT_MOVE_UP: [&'static str; 3] = [
    "Move up",
    "Monter",
    "Flyt op",
];

pub const GUI_REPORT_MOVE_DOWN: [&'static str; 3] = [
    "Move down",
    "Descendre",
    "Flyt ned",
];

pub const GUI_REPORT_DELETE_BLOCK: [&'static str; 3] = [
    "Delete",
    "Supprimer",
    "Slet",
];

pub const GUI_REPORT_TRASH: [&'static str; 3] = [
    "Trash (drop to delete)",
    "Corbeille (déposer pour supprimer)",
    "Papirkurv (slip for at slette)",
];

pub const NODE_REQUEST_TITLE: [&'static str; 3] = [
    "Configure request",
    "Configurer la requête",
    "Konfigurer forespørgsel",
];

pub const NODE_FORM_NAME: [&'static str; 3] = [
    "Name",
    "Nom",
    "Navn",
];

pub const NODE_FORM_REPORT: [&'static str; 3] = [
    "Report",
    "Rapporter",
    "Rapportér",
];

pub const NODE_FORM_REPORT_HINT: [&'static str; 3] = [
    "Include this request as report columns",
    "Inclure cette requête comme colonnes de rapport",
    "Medtag denne forespørgsel som rapportkolonner",
];

pub const NODE_FORM_RESPONSE: [&'static str; 3] = [
    "Response",
    "Réponse",
    "Svar",
];

pub const NODE_FORM_RESPONSE_DEFAULT: [&'static str; 3] = [
    "Default",
    "Défaut",
    "Standard",
];

pub const NODE_FORM_ALIAS: [&'static str; 3] = [
    "Column name (AS)",
    "Nom de colonne (AS)",
    "Kolonnenavn (AS)",
];

pub const NODE_FORM_SHOW: [&'static str; 3] = [
    "Show fields",
    "Afficher les champs",
    "Vis felter",
];

pub const NODE_FORM_USING: [&'static str; 3] = [
    "Parameters (USING)",
    "Paramètres (USING)",
    "Parametre (USING)",
];

pub const NODE_FORM_USING_HINT: [&'static str; 3] = [
    "Tick the parameters this step steers, so it fails loudly on a collection that doesn't declare them",
    "Cochez les paramètres pilotés par cette étape, afin qu'elle échoue franchement sur une collection qui ne les déclare pas",
    "Markér de parametre, dette trin styrer, så det fejler tydeligt på en samling, der ikke erklærer dem",
];

pub const NODE_FORM_USING_NONE: [&'static str; 3] = [
    "This request declares no parameters. Open it in the request editor and use Extract to parameter on the value this report should steer.",
    "Cette requête ne déclare aucun paramètre. Ouvrez-la dans l'éditeur de requête et utilisez « Extraire en paramètre » sur la valeur que ce rapport doit piloter.",
    "Denne forespørgsel erklærer ingen parametre. Åbn den i forespørgselseditoren, og brug \"Udtræk til parameter\" på den værdi, rapporten skal styre.",
];

pub const NODE_FORM_OVERRIDE_HINT: [&'static str; 3] = [
    "Or patch one field of the request for this call only:",
    "Ou remplacez un seul champ de la requête, pour cet appel uniquement :",
    "Eller ret ét felt i forespørgslen, kun for dette kald:",
];

pub const NODE_FORM_OVERRIDE_TARGET_HINT: [&'static str; 3] = [
    "multipart.document",
    "multipart.document",
    "multipart.document",
];

pub const NODE_FORM_OVERRIDE_VALUE_HINT: [&'static str; 3] = [
    "{{FILE}}",
    "{{FILE}}",
    "{{FILE}}",
];

pub const NODE_FORM_OVERRIDE_ADD: [&'static str; 3] = [
    "Add an override",
    "Ajouter un remplacement",
    "Tilføj en tilsidesættelse",
];

pub const NODE_FORM_OVERRIDE_BAD_TARGET: [&'static str; 3] = [
    "Not a part of a request. Use url, body, header.NAME, query.NAME, form.NAME, multipart.NAME, cookie.NAME, option.NAME, basic_auth.user or basic_auth.pass.",
    "Ce n'est pas une partie de requête. Utilisez url, body, header.NOM, query.NOM, form.NOM, multipart.NOM, cookie.NOM, option.NOM, basic_auth.user ou basic_auth.pass.",
    "Ikke en del af en forespørgsel. Brug url, body, header.NAVN, query.NAVN, form.NAVN, multipart.NAVN, cookie.NAVN, option.NAVN, basic_auth.user eller basic_auth.pass.",
];

pub const NODE_FORM_SHOW_HINT: [&'static str; 3] = [
    "Ticking every field is the same as showing them all",
    "Cocher tous les champs revient à tous les afficher",
    "At markere alle felter svarer til at vise dem alle",
];

pub const NODE_ENVS_ENVIRONMENTS: [&'static str; 3] = [
    "Environments",
    "Environnements",
    "Miljøer",
];

pub const NODE_ENVS_BASELINE_SHOW: [&'static str; 3] = [
    "SHOW — baseline fields to carry onto every comparison row",
    "SHOW — champs de référence à reporter sur chaque ligne de comparaison",
    "SHOW — referencefelter der føres over på hver sammenligningsrække",
];

pub const NODE_ENVS_BASELINE_SHOW_HINT: [&'static str; 3] = [
    "Ticked fields appear beside each comparison as baseline.<field>. Tick nothing for no SHOW clause.",
    "Les champs cochés apparaissent à côté de chaque comparaison sous la forme baseline.<champ>. Ne rien cocher = aucune clause SHOW.",
    "Afkrydsede felter vises ved siden af hver sammenligning som baseline.<felt>. Kryds intet af for ingen SHOW-klausul.",
];

pub const NODE_ENVS_BASELINE_SHOW_APPLIES: [&'static str; 3] = [
    "applies to this baseline only",
    "s'applique uniquement à cette référence",
    "gælder kun for denne reference",
];

pub const NODE_ENVS_ADD: [&'static str; 3] = [
    "Add environment",
    "Ajouter un environnement",
    "Tilføj miljø",
];

// VARIABLE / LIST / FOLDERS / raw-line node wizards (GUI).
pub const NODE_ASSIGN_TITLE: [&'static str; 3] = [
    "Set variable",
    "Définir une variable",
    "Sæt variabel",
];

pub const NODE_FORM_VAR: [&'static str; 3] = [
    "Variable",
    "Variable",
    "Variabel",
];

pub const NODE_FORM_VALUE: [&'static str; 3] = [
    "Value",
    "Valeur",
    "Værdi",
];

pub const NODE_LIST_TITLE: [&'static str; 3] = [
    "Configure list",
    "Configurer la liste",
    "Konfigurer liste",
];

pub const NODE_FORM_LIST_NAME: [&'static str; 3] = [
    "List name",
    "Nom de la liste",
    "Listenavn",
];

pub const NODE_FORM_LIST_VALUES: [&'static str; 3] = [
    "Values (one per line)",
    "Valeurs (une par ligne)",
    "Værdier (én pr. linje)",
];

pub const NODE_FOLDERS_TITLE: [&'static str; 3] = [
    "Configure FOLDERS loop",
    "Configurer la boucle FOLDERS",
    "Konfigurer FOLDERS-løkke",
];

pub const NODE_RAW_TITLE: [&'static str; 3] = [
    "Edit line",
    "Modifier la ligne",
    "Redigér linje",
];

pub const NODE_FORM_RAW: [&'static str; 3] = [
    "Statement text",
    "Texte de l'instruction",
    "Sætningstekst",
];

pub const CHIP_HELP_BEGIN: [&'static str; 3] = [
    "BEGIN — where the report starts. Blocks above it set things up; blocks below it run in order.",
    "BEGIN — début du rapport. Les blocs au-dessus préparent le terrain ; ceux en dessous s'exécutent dans l'ordre.",
    "BEGIN — hvor rapporten starter. Blokke over den gør klar; blokke under den køres i rækkefølge.",
];

pub const CHIP_HELP_HDR_COLLECTION: [&'static str; 3] = [
    "COLLECTION — the requests this report runs against (its `# collection:` line). Pick one of the open collections; nothing can run until it is set.",
    "COLLECTION — la collection de requêtes utilisée par ce rapport (ligne `# collection:`). Choisissez une collection ouverte ; rien ne peut s'exécuter sans elle.",
    "COLLECTION — de forespørgsler rapporten køres mod (linjen `# collection:`). Vælg en åben samling; intet kan køre, før den er sat.",
];

pub const CHIP_HELP_HDR_OUTPUT: [&'static str; 3] = [
    "OUTPUT — the format the results grid is written in when the report runs: csv, json, html or xlsx. The file itself is named after the report; only the command-line runner's -o flag takes a path.",
    "OUTPUT — le format dans lequel la grille de résultats est écrite à l'exécution : csv, json, html ou xlsx. Le fichier porte le nom du rapport ; seule l'option -o en ligne de commande accepte un chemin.",
    "OUTPUT — formatet resultatgitteret skrives i, når rapporten kører: csv, json, html eller xlsx. Selve filen opkaldes efter rapporten; kun kommandolinjens -o-flag tager en sti.",
];

pub const CHIP_HELP_HDR_ENVIRONMENT: [&'static str; 3] = [
    "ENVIRONMENT — one loaded Global Environment to run with, instead of whichever is active. For comparing several, use a FOR … IN ENVS loop instead.",
    "ENVIRONMENT — un environnement global chargé à utiliser, au lieu de celui qui est actif. Pour en comparer plusieurs, utilisez plutôt une boucle FOR … IN ENVS.",
    "ENVIRONMENT — ét indlæst globalt miljø at køre med i stedet for det aktive. Skal flere sammenlignes, så brug en FOR … IN ENVS-løkke.",
];

pub const CHIP_HELP_HDR_ROOT: [&'static str; 3] = [
    "ROOT — the folder that relative file paths in this report are resolved against. Defaults to the report's own folder.",
    "ROOT — le dossier auquel les chemins relatifs de ce rapport se rapportent. Par défaut, le dossier du rapport.",
    "ROOT — mappen som relative filstier i denne rapport slås op i forhold til. Som standard rapportens egen mappe.",
];

pub const CHIP_HELP_HDR_BASELINE: [&'static str; 3] = [
    "BASELINE — a saved run (`.baseline`) to diff this run against, filling the Result column. Ignored when the flow already compares environments.",
    "BASELINE — une exécution enregistrée (`.baseline`) à comparer à celle-ci, pour remplir la colonne Résultat. Ignoré si le flux compare déjà des environnements.",
    "BASELINE — en gemt kørsel (`.baseline`) at sammenligne denne med, som udfylder Resultat-kolonnen. Ignoreres, hvis flowet allerede sammenligner miljøer.",
];

pub const CHIP_HELP_HDR_LABELS: [&'static str; 3] = [
    "One class of the answers this report scores: a name and the spellings that mean it, as 'Pass = pass, ok, real'.",
    "Une classe des réponses évaluées par ce rapport : un nom et les orthographes qui le signifient, comme 'Réussi = pass, ok, real'.",
    "Én klasse af de svar, denne rapport vurderer: et navn og de stavemåder, der betyder det, som 'Bestået = pass, ok, real'.",
];

pub const REPORT_ADD_LABEL_CLASS: [&'static str; 3] = [
    "Add label class",
    "Ajouter une classe d'étiquettes",
    "Tilføj etiketklasse",
];

pub const CHIP_HELP_HDR_COLUMNS: [&'static str; 3] = [
    "COLUMNS — the column order of the results grid, as a comma-separated list of names. Unnamed columns follow in the order they are reported.",
    "COLUMNS — l'ordre des colonnes de la grille de résultats, sous forme de liste de noms séparés par des virgules. Les colonnes non citées suivent dans leur ordre d'apparition.",
    "COLUMNS — kolonnerækkefølgen i resultatgitteret, som en kommasepareret liste af navne. Unævnte kolonner følger i den rækkefølge, de rapporteres.",
];

pub const REPORT_SETTINGS_HELP: [&'static str; 3] = [
    "Report settings — these apply to the whole report rather than running as a step, so they sit above BEGIN and can't be reordered or dragged.",
    "Réglages du rapport — ils s'appliquent à l'ensemble du rapport au lieu de s'exécuter comme une étape ; ils se placent donc au-dessus de BEGIN et ne peuvent être ni réordonnés ni déplacés.",
    "Rapportindstillinger — de gælder hele rapporten i stedet for at køre som et trin, så de ligger over BEGIN og kan ikke omarrangeres eller trækkes.",
];

pub const GUI_REPORT_EMPTY_FLOW: [&'static str; 3] = [
    "No steps yet — drag a block here from the palette.",
    "Aucune étape pour l'instant — glissez un bloc ici depuis la palette.",
    "Ingen trin endnu — træk en blok herind fra paletten.",
];

pub const REPORT_ADD_SETTING: [&'static str; 3] = [
    "Add a report setting",
    "Ajouter un réglage de rapport",
    "Tilføj en rapportindstilling",
];

pub const REPORT_SETTING_UNSET: [&'static str; 3] = [
    "not set",
    "non défini",
    "ikke sat",
];

pub const GUI_REPORT_COLLECTION_FILTER_NO_MATCHES: [&'static str; 3] = [
    "No collection matches the filter.",
    "Aucune collection ne correspond au filtre.",
    "Ingen samling matcher filteret.",
];

pub const GUI_REPORT_PARAM_VALUE_HINT: [&'static str; 3] = [
    "default\u{2026}",
    "par défaut\u{2026}",
    "standard\u{2026}",
];

pub const GUI_REPORT_PARAM_NO_DEFAULT: [&'static str; 3] = [
    "No default (ask every run)",
    "Aucune valeur par défaut (demander à chaque exécution)",
    "Ingen standardværdi (spørg hver gang)",
];

pub const CHIP_HELP_PARAM_VALUE: [&'static str; 3] = [
    "The value this parameter takes when a run doesn't supply one. Leave it empty to be asked every time.",
    "La valeur prise par ce paramètre lorsqu'une exécution n'en fournit pas. Laissez vide pour être invité à chaque fois.",
    "Værdien denne parameter får, når en kørsel ikke angiver en. Lad feltet stå tomt for at blive spurgt hver gang.",
];

pub const GUI_REPORT_WS_COLLECTIONS: [&'static str; 3] = [
    "In this workspace",
    "Dans cet espace de travail",
    "I dette arbejdsområde",
];

pub const GUI_REPORT_OTHER_COLLECTIONS: [&'static str; 3] = [
    "Open elsewhere",
    "Ouvertes ailleurs",
    "Åbne andre steder",
];

pub const GUI_REPORT_SHOW_ALL_COLLECTIONS: [&'static str; 3] = [
    "Show collections outside this workspace",
    "Afficher les collections hors de cet espace de travail",
    "Vis samlinger uden for dette arbejdsområde",
];

pub const GUI_REPORT_COLLECTION_UNSAVED: [&'static str; 3] = [
    "unsaved",
    "non enregistrée",
    "ikke gemt",
];

pub const GUI_REPORT_NO_COLLECTIONS: [&'static str; 3] = [
    "No collections here yet — open one, or Browse\u{2026}",
    "Aucune collection ici pour l'instant — ouvrez-en une, ou Parcourir\u{2026}",
    "Ingen samlinger her endnu — åbn en, eller Gennemse\u{2026}",
];

pub const GUI_REPORT_BROWSE: [&'static str; 3] = [
    "Browse…",
    "Parcourir…",
    "Gennemse…",
];

pub const CHIP_HELP_FLOW_END: [&'static str; 3] = [
    "END — where the report finishes. Everything between BEGIN and here runs, top to bottom.",
    "END — fin du rapport. Tout ce qui se trouve entre BEGIN et ici s'exécute, de haut en bas.",
    "END — hvor rapporten slutter. Alt mellem BEGIN og her køres oppefra og ned.",
];

pub const CHIP_HELP_COMMENT: [&'static str; 3] = [
    "A comment — ignored when the report runs. Kept exactly as written.",
    "Un commentaire — ignoré à l'exécution du rapport. Conservé tel quel.",
    "En kommentar — ignoreres når rapporten kører. Bevares præcis som skrevet.",
];

pub const CHIP_HELP_END: [&'static str; 3] = [
    "END — closes the FOR loop above it. Drop blocks between the loop and its END to repeat them.",
    "END — ferme la boucle FOR au-dessus. Déposez des blocs entre la boucle et son END pour les répéter.",
    "END — afslutter FOR-løkken ovenfor. Slip blokke mellem løkken og dens END for at gentage dem.",
];

pub const CHIP_HELP_USING: [&'static str; 3] = [
    "USING(…) — the parameters this request must declare, and any per-call field overrides. Tick the parameters in the node form; overrides are edited in the source view.",
    "USING(…) — les paramètres que cette requête doit déclarer, et les remplacements de champs propres à cet appel. Cochez les paramètres dans le formulaire du nœud\u{a0}; les remplacements se modifient dans la vue source.",
    "USING(…) — de parametre, denne forespørgsel skal erklære, samt eventuelle felt-overskrivninger for dette kald. Markér parametrene i nodeformularen; overskrivninger redigeres i kildevisningen.",
];

pub const CHIP_HELP_REQUEST: [&'static str; 3] = [
    "REQUEST — runs this request from the bound collection. Pick which one from the dropdown.",
    "REQUEST — exécute cette requête de la collection liée. Choisissez laquelle dans la liste déroulante.",
    "REQUEST — kører denne forespørgsel fra den tilknyttede samling. Vælg hvilken i rullelisten.",
];

pub const CHIP_HELP_REPORT: [&'static str; 3] = [
    "REPORT — turns the line into report output. Detach it with × to run the request without reporting on it.",
    "REPORT — transforme la ligne en sortie de rapport. Détachez-le avec × pour exécuter la requête sans la rapporter.",
    "REPORT — gør linjen til rapportoutput. Fjern det med × for at køre forespørgslen uden at rapportere den.",
];

pub const CHIP_HELP_RESPONSE: [&'static str; 3] = [
    "RESPONSE — includes the response body as a column. RAW keeps it verbatim, PRETTY re-formats JSON. Click to change.",
    "RESPONSE — inclut le corps de la réponse comme colonne. RAW le garde tel quel, PRETTY reformate le JSON. Cliquez pour changer.",
    "RESPONSE — medtager svarets indhold som en kolonne. RAW bevarer det ordret, PRETTY omformaterer JSON. Klik for at ændre.",
];

pub const CHIP_HELP_SHOW: [&'static str; 3] = [
    "SHOW(…) — limits the report to just these fields. Without it every field is reported. Click to choose them.",
    "SHOW(…) — limite le rapport à ces seuls champs. Sans lui, tous les champs sont rapportés. Cliquez pour les choisir.",
    "SHOW(…) — begrænser rapporten til netop disse felter. Uden den rapporteres alle felter. Klik for at vælge dem.",
];

pub const CHIP_HELP_HIDE: [&'static str; 3] = [
    "HIDE(…) — removes these fields from the report, even ones SHOW selected. Click to choose them.",
    "HIDE(…) — retire ces champs du rapport, même ceux sélectionnés par SHOW. Cliquez pour les choisir.",
    "HIDE(…) — fjerner disse felter fra rapporten, også dem SHOW valgte. Klik for at vælge dem.",
];

pub const CHIP_HELP_WITH: [&'static str; 3] = [
    "WITH — the block below adds extra report columns from response queries. Use + to add one.",
    "WITH — le bloc ci-dessous ajoute des colonnes de rapport issues de requêtes sur la réponse. Utilisez + pour en ajouter une.",
    "WITH — blokken nedenfor tilføjer ekstra rapportkolonner fra svarforespørgsler. Brug + for at tilføje en.",
];

pub const CHIP_HELP_ALIAS: [&'static str; 3] = [
    "AS — the column heading this appears under in the report. Type a new name to rename it.",
    "AS — l'en-tête de colonne sous lequel ceci apparaît dans le rapport. Saisissez un nouveau nom pour le renommer.",
    "AS — kolonneoverskriften dette vises under i rapporten. Skriv et nyt navn for at omdøbe den.",
];

pub const CHIP_HELP_ALIAS_REQUIRED: [&'static str; 3] = [
    "AS — the column heading for this computed value. It is required, so it can't be detached.",
    "AS — l'en-tête de colonne de cette valeur calculée. Il est obligatoire et ne peut pas être détaché.",
    "AS — kolonneoverskriften for denne beregnede værdi. Den er påkrævet og kan ikke fjernes.",
];

pub const CHIP_HELP_VAR: [&'static str; 3] = [
    "The value reported into the column — a variable set earlier in the flow, or a loop's variable.",
    "La valeur rapportée dans la colonne — une variable définie plus haut dans le flux, ou la variable d'une boucle.",
    "Værdien der rapporteres i kolonnen — en variabel sat tidligere i flowet eller en løkkes variabel.",
];

pub const CHIP_HELP_COMPUTED: [&'static str; 3] = [
    "A computed column: the quoted template is expanded with {{variables}} and reported under its AS name.",
    "Une colonne calculée : le modèle entre guillemets est développé avec {{variables}} et rapporté sous son nom AS.",
    "En beregnet kolonne: den citerede skabelon udvides med {{variabler}} og rapporteres under sit AS-navn.",
];

pub const CHIP_HELP_ASSIGN: [&'static str; 3] = [
    "Sets a variable for the rest of the flow. Open it to edit the name and value.",
    "Définit une variable pour la suite du flux. Ouvrez-le pour modifier le nom et la valeur.",
    "Sætter en variabel for resten af flowet. Åbn den for at redigere navn og værdi.",
];

pub const CHIP_HELP_PARAM: [&'static str; 3] = [
    "Declares a value the report asks for before it runs, with a default. Read it as {{NAME}} like any other variable.",
    "Déclare une valeur que le rapport demande avant de s'exécuter, avec une valeur par défaut. Lisez-la comme {{NAME}}, comme toute autre variable.",
    "Erklærer en værdi, som rapporten beder om, før den kører, med en standardværdi. Læs den som {{NAME}} ligesom enhver anden variabel.",
];

pub const CHIP_HELP_LIST: [&'static str; 3] = [
    "Declares a named list of values that a FOR loop can iterate over. Open it to edit the entries.",
    "Déclare une liste nommée de valeurs qu'une boucle FOR peut parcourir. Ouvrez-la pour modifier les entrées.",
    "Erklærer en navngiven liste af værdier, som en FOR-løkke kan gennemløbe. Åbn den for at redigere posterne.",
];

pub const CHIP_HELP_FOR: [&'static str; 3] = [
    "FOR — repeats everything up to its END once per item. Open it to change the loop variable and its source.",
    "FOR — répète tout jusqu'à son END une fois par élément. Ouvrez-le pour changer la variable de boucle et sa source.",
    "FOR — gentager alt frem til sit END én gang pr. element. Åbn den for at ændre løkkevariablen og dens kilde.",
];

pub const CHIP_HELP_LOOP_VAR: [&'static str; 3] = [
    "The loop variable — the name each item is bound to inside the loop.",
    "La variable de boucle — le nom auquel chaque élément est lié dans la boucle.",
    "Løkkevariablen — navnet hvert element bindes til inde i løkken.",
];

pub const CHIP_HELP_LOOP_DIR: [&'static str; 3] = [
    "The folder this loop reads from.",
    "Le dossier dans lequel cette boucle lit.",
    "Mappen denne løkke læser fra.",
];

pub const CHIP_HELP_LOOP_GLOB: [&'static str; 3] = [
    "A filename pattern, like *.json or report-*.csv. The loop skips any file whose name doesn't match it. Leave it blank to use every file in the folder.",
    "Un motif de nom de fichier, comme *.json ou rapport-*.csv. La boucle ignore tout fichier dont le nom n'y correspond pas. Laissez vide pour utiliser tous les fichiers du dossier.",
    "Et filnavnsmønster, som *.json eller rapport-*.csv. Løkken springer alle filer over, hvis navn ikke matcher. Lad det stå tomt for at bruge alle filer i mappen.",
];

// Short placeholders shown *inside* the empty boxes. Kept to a word or a
// literal example: the box is a few characters wide, so the full sentence
// (the `chip_help_*` strings above, now shown on hover) only ever appeared
// as an unreadable stub like "Only files ...".
pub const GUI_REPORT_LOOP_VAR_HINT: [&'static str; 3] = [
    "name",
    "nom",
    "navn",
];

pub const GUI_REPORT_LOOP_DIR_HINT: [&'static str; 3] = [
    "folder",
    "dossier",
    "mappe",
];

pub const GUI_REPORT_LOOP_GLOB_HINT: [&'static str; 3] = [
    "*.json",
    "*.json",
    "*.json",
];

// The folder/file picker button beside a loop's path box.
pub const CHIP_HELP_LOOP_PICK_FOLDER: [&'static str; 3] = [
    "Browse for the folder to loop over",
    "Parcourir pour choisir le dossier à parcourir",
    "Gennemse efter mappen, der skal løbes igennem",
];

pub const CHIP_HELP_LOOP_PICK_FILE: [&'static str; 3] = [
    "Browse for the file to read the rows from",
    "Parcourir pour choisir le fichier dont les lignes seront lues",
    "Gennemse efter filen, som rækkerne skal læses fra",
];

pub const GUI_PICK_LOOP_FOLDER: [&'static str; 3] = [
    "Choose the folder to loop over",
    "Choisissez le dossier à parcourir",
    "Vælg mappen der skal løkkes over",
];

pub const GUI_PICK_LOOP_FILE: [&'static str; 3] = [
    "Choose the file to loop over",
    "Choisissez le fichier à parcourir",
    "Vælg filen der skal løkkes over",
];

pub const CHIP_HELP_PARALLEL: [&'static str; 3] = [
    "PARALLEL — runs the loop's iterations at the same time. Type a number to cap how many run at once; leave it blank to use the default.",
    "PARALLEL — exécute les itérations de la boucle en même temps. Saisissez un nombre pour limiter combien s'exécutent à la fois ; laissez vide pour la valeur par défaut.",
    "PARALLEL — kører løkkens gennemløb samtidigt. Skriv et tal for at begrænse hvor mange der kører ad gangen; lad det stå tomt for standarden.",
];

pub const CHIP_HELP_FOR_ENVS: [&'static str; 3] = [
    "FOR … IN ENVS — runs everything up to its END once per environment listed, with that environment's variables active. The name after FOR is what each run is labelled with in the report, not a value you set. Open it to choose the environments.",
    "FOR … IN ENVS — exécute tout jusqu'à son END une fois par environnement listé, avec les variables de cet environnement actives. Le nom après FOR sert d'étiquette à chaque exécution dans le rapport, ce n'est pas une valeur que vous définissez. Ouvrez-le pour choisir les environnements.",
    "FOR … IN ENVS — kører alt frem til sit END én gang pr. angivet miljø, med det miljøs variabler aktive. Navnet efter FOR er det, hver kørsel navngives med i rapporten, ikke en værdi du sætter. Åbn den for at vælge miljøerne.",
];

pub const CHIP_HELP_BASELINE_SHOW: [&'static str; 3] = [
    "SHOW — the BASELINE's fields carried onto every comparison row. Belongs to the BASELINE beside it; edit it in the ENVS form.",
    "SHOW — les champs de la BASELINE reportés sur chaque ligne de comparaison. Appartient à la BASELINE voisine ; modifiable dans le formulaire ENVS.",
    "SHOW — BASELINE-felterne der føres over på hver sammenligningsrække. Hører til den BASELINE ved siden af; redigér den i ENVS-formularen.",
];

pub const CHIP_HELP_BASELINE: [&'static str; 3] = [
    "BASELINE — the environment the others are compared against. Pick it from the dropdown.",
    "BASELINE — l'environnement auquel les autres sont comparés. Choisissez-le dans la liste déroulante.",
    "BASELINE — det miljø de andre sammenlignes med. Vælg det i rullelisten.",
];

pub const CHIP_HELP_COMPARISON: [&'static str; 3] = [
    "COMPARISON — an environment compared against the baseline. Pick it from the dropdown.",
    "COMPARISON — un environnement comparé à la référence. Choisissez-le dans la liste déroulante.",
    "COMPARISON — et miljø der sammenlignes med referencen. Vælg det i rullelisten.",
];

pub const CHIP_HELP_IMAGE: [&'static str; 3] = [
    "IMAGE — this column holds a picture, embedded in the report at this size rather than written as a file path. Open the block to change the size.",
    "IMAGE — cette colonne contient une image, intégrée au rapport à cette taille plutôt qu'écrite comme chemin de fichier. Ouvrez le bloc pour changer la taille.",
    "IMAGE — denne kolonne indeholder et billede, indlejret i rapporten i denne størrelse i stedet for skrevet som en filsti. Åbn blokken for at ændre størrelsen.",
];

pub const CHIP_HELP_TRUTH: [&'static str; 3] = [
    "TRUTH — the value this column is expected to hold, so the run can be scored right or wrong against it.",
    "TRUTH — la valeur attendue de cette colonne, afin que l'exécution puisse être jugée correcte ou non.",
    "TRUTH — den værdi, denne kolonne forventes at have, så kørslen kan bedømmes rigtig eller forkert.",
];

pub const CHIP_HELP_DETAIL: [&'static str; 3] = [
    "DETAIL — keep this column out of the grid and show it in a row's drill-down instead.",
    "DETAIL — garder cette colonne hors du tableau et l'afficher dans le détail d'une ligne.",
    "DETAIL — hold denne kolonne uden for tabellen og vis den i rækkens detaljevisning i stedet.",
];

pub const CHIP_HELP_STATISTICS: [&'static str; 3] = [
    "STATISTICS — summary rows (count, mean, …) for this column. Open the block to choose which.",
    "STATISTICS — lignes de synthèse (comptage, moyenne, …) pour cette colonne. Ouvrez le bloc pour les choisir.",
    "STATISTICS — opsummeringsrækker (antal, gennemsnit, …) for denne kolonne. Åbn blokken for at vælge hvilke.",
];

pub const CHIP_HELP_DRAG_GESTURE: [&'static str; 3] = [
    "Drag this chip out (or click ×) to remove just it · drop it on another line to move it there (Shift to copy) · Ctrl+drag to move the whole line",
    "Faites glisser cette puce (ou cliquez sur ×) pour ne retirer qu'elle · déposez-la sur une autre ligne pour l'y déplacer (Maj pour copier) · Ctrl+glisser pour déplacer toute la ligne",
    "Træk denne chip ud (eller klik på ×) for kun at fjerne den · slip den på en anden linje for at flytte den dertil (Shift for at kopiere) · Ctrl+træk for at flytte hele linjen",
];

pub const CHIP_HELP_ROLES_FIXED: [&'static str; 3] = [
    "Environments for the comparison. This form (several environments, or a saved FILE snapshot) is edited in the loop's form — open the block to change it.",
    "Environnements de la comparaison. Cette forme (plusieurs environnements, ou un instantané FILE enregistré) se modifie dans le formulaire de la boucle — ouvrez le bloc pour la changer.",
    "Miljøer til sammenligningen. Denne form (flere miljøer eller et gemt FILE-øjebliksbillede) redigeres i løkkens formular — åbn blokken for at ændre den.",
];

pub const NODE_FORM_HIDE: [&'static str; 3] = [
    "Hide fields",
    "Masquer des champs",
    "Skjul felter",
];

pub const NODE_FORM_HIDE_HINT: [&'static str; 3] = [
    "Ticked fields are removed from the report, even if shown above",
    "Les champs cochés sont retirés du rapport, même s'ils sont affichés ci-dessus",
    "Markerede felter fjernes fra rapporten, også selvom de vises ovenfor",
];

pub const NODE_FORM_STATISTICS: [&'static str; 3] = [
    "Statistics",
    "Statistiques",
    "Statistik",
];

pub const NODE_FORM_STATISTICS_HINT: [&'static str; 3] = [
    "Summary rows added under this column",
    "Lignes de synthèse ajoutées sous cette colonne",
    "Opsummeringsrækker tilføjet under denne kolonne",
];

pub const NODE_FORM_PARALLEL_DEGREE: [&'static str; 3] = [
    "max",
    "max",
    "maks",
];

pub const NODE_FORM_PARALLEL_DEGREE_LABEL: [&'static str; 3] = [
    "Max parallel steps (blank = use the default)",
    "Étapes parallèles max. (vide = valeur par défaut)",
    "Maks. parallelle trin (tomt = brug standarden)",
];

// WITH-field wizard + inline block-editor helpers (GUI).
pub const NODE_WITH_TITLE: [&'static str; 3] = [
    "Report field (WITH)",
    "Champ de rapport (WITH)",
    "Rapportfelt (WITH)",
];

pub const NODE_WITH_NAME: [&'static str; 3] = [
    "Column name",
    "Nom de colonne",
    "Kolonnenavn",
];

pub const NODE_WITH_QUERY: [&'static str; 3] = [
    "Query",
    "Requête",
    "Forespørgsel",
];

pub const NODE_WITH_QUERY_HINT: [&'static str; 3] = [
    "e.g. HttpStatus or jsonpath \"$.field\"",
    "ex. HttpStatus ou jsonpath \"$.field\"",
    "f.eks. HttpStatus eller jsonpath \"$.field\"",
];

pub const GUI_REPORT_WITH_ADD: [&'static str; 3] = [
    "Add field",
    "Ajouter un champ",
    "Tilføj felt",
];

pub const GUI_REPORT_FILTER_HINT: [&'static str; 3] = [
    "Filter…",
    "Filtrer…",
    "Filtrér…",
];

pub const GUI_REPORT_ALIAS_HINT: [&'static str; 3] = [
    "alias",
    "alias",
    "alias",
];

pub const GUI_REPORT_VIEW_RESULTS: [&'static str; 3] = [
    "Results",
    "Résultats",
    "Resultater",
];

pub const GUI_REPORT_RUN: [&'static str; 3] = [
    "Run",
    "Exécuter",
    "Kør",
];

pub const GUI_REPORT_STOP: [&'static str; 3] = [
    "Stop",
    "Arrêter",
    "Stop",
];

pub const GUI_REPORT_EXPORT: [&'static str; 3] = [
    "Export…",
    "Exporter…",
    "Eksportér…",
];

pub const GUI_REPORT_OPEN_EXPORT: [&'static str; 3] = [
    "Open",
    "Ouvrir",
    "Åbn",
];

pub const GUI_REPORT_EXPORT_GO: [&'static str; 3] = [
    "Export",
    "Exporter",
    "Eksportér",
];

pub const GUI_REPORT_EXPORT_FORMAT: [&'static str; 3] = [
    "Format:",
    "Format :",
    "Format:",
];

pub const GUI_REPORT_SAVE_BASELINE: [&'static str; 3] = [
    "Baseline…",
    "Référence…",
    "Basislinje…",
];

pub const GUI_REPORT_NO_RESULTS: [&'static str; 3] = [
    "No results yet — press Run to execute this report.",
    "Aucun résultat pour l'instant — appuyez sur Exécuter pour lancer ce rapport.",
    "Ingen resultater endnu — tryk på Kør for at køre denne rapport.",
];

pub const GUI_REPORT_RUNNING: [&'static str; 3] = [
    "Running…",
    "Exécution…",
    "Kører…",
];

// `{c}` is substituted with the expander caret *glyph* at draw time: the
// GUI draws its icons from the Phosphor icon font, which a bare Unicode
// triangle written here is not in -- it came out as a tofu box.
pub const GUI_REPORT_CELL_HINT: [&'static str; 3] = [
    "Click a row marked {c} to open its details, or any other cell to inspect its full value",
    "Cliquez sur une ligne marquée {c} pour ouvrir ses détails, ou sur toute autre cellule pour voir sa valeur complète",
    "Klik på en række markeret med {c} for at åbne dens detaljer, eller på en anden celle for at se dens fulde værdi",
];

pub const GUI_REPORT_CELL_COPY_FULL: [&'static str; 3] = [
    "Copy full value",
    "Copier la valeur complète",
    "Kopiér fuld værdi",
];

// The tooltip on a results column's drag handle. Both gestures are named
// because the reset — double-click to hand the column back to the automatic
// fitter — is not something a reader would guess from the handle alone.
pub const GUI_REPORT_COL_RESIZE_HINT: [&'static str; 3] = [
    "Drag to resize this column · double-click to auto-fit",
    "Glissez pour redimensionner cette colonne · double-cliquez pour l'ajuster automatiquement",
    "Træk for at ændre kolonnens bredde · dobbeltklik for automatisk tilpasning",
];

// The results view's filter bar and metric cards. `RowFilter::label` is
// deliberately English -- it names buttons in an exported document that has
// no language -- so the in-app bar labels its own buttons from here.
pub const REPORT_FILTER_ALL: [&'static str; 3] = [
    "All",
    "Tout",
    "Alle",
];

pub const REPORT_FILTER_DIFFERENCES: [&'static str; 3] = [
    "Differences",
    "Différences",
    "Forskelle",
];

pub const REPORT_FILTER_INCORRECT: [&'static str; 3] = [
    "Incorrect",
    "Incorrect",
    "Forkerte",
];

pub const REPORT_FILTER_REGRESSIONS: [&'static str; 3] = [
    "Regressions",
    "Régressions",
    "Regressioner",
];

pub const REPORT_FILTER_IMPROVEMENTS: [&'static str; 3] = [
    "Improvements",
    "Améliorations",
    "Forbedringer",
];

pub const REPORT_FIND_PLACEHOLDER: [&'static str; 3] = [
    "Find in rows…",
    "Rechercher dans les lignes…",
    "Søg i rækker…",
];

pub const REPORT_ROWS_SHOWN: [&'static str; 3] = [
    "{shown} of {total} rows",
    "{shown} lignes sur {total}",
    "{shown} af {total} rækker",
];

// The Source view's Ctrl+F bar. `{n}`/`{total}` count the match the caret is
// on out of all of them; the hint doubles as the "how do I move" prompt,
// because a find bar with no visible keys is a find bar people press Enter
// at and hope.
pub const SOURCE_FIND_PLACEHOLDER: [&'static str; 3] = [
    "Find in script…",
    "Rechercher dans le script…",
    "Søg i scriptet…",
];

pub const SOURCE_FIND_POSITION: [&'static str; 3] = [
    "{n} of {total}",
    "{n} sur {total}",
    "{n} af {total}",
];

pub const SOURCE_FIND_NONE: [&'static str; 3] = [
    "No matches",
    "Aucun résultat",
    "Ingen match",
];

pub const SOURCE_FIND_HINT: [&'static str; 3] = [
    "Enter / Shift+Enter to step, Esc to close",
    "Entrée / Maj+Entrée pour naviguer, Échap pour fermer",
    "Enter / Skift+Enter for at gå videre, Esc for at lukke",
];

// The terminal results view's pinned summary: one metric line per scored
// column, and the filter line `f` cycles. The GUI says the same things in
// cards and buttons; a terminal has one line to say them in.
// Sits in the results panel's title bar (not in the grid): it describes the
// pane, and the key that changes it is named in the title's hint and in the
// help overlay rather than repeated here on every screen.
pub const REPORT_FILTER_TITLE: [&'static str; 3] = [
    "Filter: {f}, {r}",
    "Filtre\u{a0}: {f}, {r}",
    "Filter: {f}, {r}",
];

pub const REPORT_METRIC_COMPARED: [&'static str; 3] = [
    "Compared",
    "Comparés",
    "Sammenlignet",
];

pub const REPORT_METRIC_INCORRECT: [&'static str; 3] = [
    "Incorrect",
    "Incorrects",
    "Forkerte",
];

pub const REPORT_METRIC_ACCURACY: [&'static str; 3] = [
    "Accuracy",
    "Exactitude",
    "Nøjagtighed",
];

// How a run moved against its baseline. Accuracy alone can't tell two 98%
// runs apart when one of them fixed three rows and broke three others.
pub const REPORT_METRIC_MOVEMENT: [&'static str; 3] = [
    "Movement",
    "Évolution",
    "Bevægelse",
];

pub const REPORT_METRIC_FIXED: [&'static str; 3] = [
    "Fixed",
    "Corrigés",
    "Rettede",
];

pub const REPORT_METRIC_REGRESSED: [&'static str; 3] = [
    "Regressed",
    "Régressions",
    "Forværrede",
];

pub const REPORT_METRIC_STILL_WRONG: [&'static str; 3] = [
    "Still wrong",
    "Toujours faux",
    "Stadig forkerte",
];

pub const REPORT_METRIC_NOTHING_MOVED: [&'static str; 3] = [
    "Nothing moved",
    "Rien n'a changé",
    "Intet flyttede sig",
];

pub const REPORT_DETAIL_TITLE: [&'static str; 3] = [
    "Row {n} details",
    "Détails de la ligne {n}",
    "Detaljer for række {n}",
];

pub const REPORT_DETAIL_CLOSE: [&'static str; 3] = [
    "Close this row's details",
    "Fermer les détails de cette ligne",
    "Luk denne rækkes detaljer",
];

pub const REPORT_DETAIL_CHANGED: [&'static str; 3] = [
    "{c} — changed fields",
    "{c} — champs modifiés",
    "{c} — ændrede felter",
];

pub const REPORT_MATRIX_CAPTION: [&'static str; 3] = [
    "Rows: ground truth. Columns: reported value. {n} scored row(s).",
    "Lignes\u{a0}: vérité terrain. Colonnes\u{a0}: valeur rapportée. {n} ligne(s) évaluée(s).",
    "Rækker: sandhed. Kolonner: rapporteret værdi. {n} bedømt(e) række(r).",
];

pub const REPORT_MATRIX_ALL_MATCHED: [&'static str; 3] = [
    "Every scored row matched its ground truth.",
    "Chaque ligne évaluée correspond à sa vérité terrain.",
    "Alle bedømte rækker matchede deres sandhed.",
];

pub const HELP_REPORT_MATRIX_CELL: [&'static str; 3] = [
    "Show the rows this count is made of",
    "Afficher les lignes qui composent ce total",
    "Vis de rækker, dette tal består af",
];

pub const HELP_REPORT_FILTER: [&'static str; 3] = [
    "Show only the rows this filter selects",
    "N'afficher que les lignes sélectionnées par ce filtre",
    "Vis kun de rækker, dette filter vælger",
];

// Git remote flow (used by remote.rs).
pub const GUI_GIT_REPO_URL: [&'static str; 3] = [
    "Repository URL",
    "URL du dépôt",
    "Lager-URL",
];

pub const GUI_GIT_TOKEN: [&'static str; 3] = [
    "Access token (optional)",
    "Jeton d'accès (facultatif)",
    "Adgangstoken (valgfrit)",
];

pub const GUI_GIT_CONNECT: [&'static str; 3] = [
    "Connect",
    "Se connecter",
    "Forbind",
];

pub const GUI_GIT_BRANCHES: [&'static str; 3] = [
    "Branches",
    "Branches",
    "Grene",
];

pub const GUI_GIT_TAGS: [&'static str; 3] = [
    "Tags",
    "Étiquettes",
    "Tags",
];

pub const GUI_GIT_BROWSE_FILES: [&'static str; 3] = [
    "Browse files",
    "Parcourir les fichiers",
    "Gennemse filer",
];

pub const GUI_GIT_BACK: [&'static str; 3] = [
    "Back",
    "Retour",
    "Tilbage",
];

pub const GUI_GIT_NEXT: [&'static str; 3] = [
    "Next",
    "Suivant",
    "Næste",
];

pub const GUI_GIT_TAG: [&'static str; 3] = [
    "Tag",
    "Étiquette",
    "Tag",
];

pub const GUI_GIT_EXISTING_BRANCH: [&'static str; 3] = [
    "Use an existing branch…",
    "Utiliser une branche existante…",
    "Brug en eksisterende gren…",
];

pub const GUI_GIT_SAVED: [&'static str; 3] = [
    "Saved to Git.",
    "Enregistré sur Git.",
    "Gemt til Git.",
];

// -- Postman bulk import ------------------------------------------------
pub const POSTMAN_BUSY_LISTING: [&'static str; 3] = [
    "Listing your Postman workspaces…",
    "Liste des espaces de travail Postman…",
    "Henter dine Postman-workspaces…",
];

pub const POSTMAN_BUSY_PLANNING: [&'static str; 3] = [
    "Checking what that workspace holds…",
    "Vérification du contenu de cet espace de travail…",
    "Undersøger hvad dette workspace indeholder…",
];

pub const POSTMAN_BUSY_DOWNLOADING: [&'static str; 3] = [
    "Downloading from Postman…",
    "Téléchargement depuis Postman…",
    "Henter fra Postman…",
];

pub const POSTMAN_ERR_KEY_REQUIRED: [&'static str; 3] = [
    "A Postman API key is needed.",
    "Une clé d'API Postman est nécessaire.",
    "Der kræves en Postman-API-nøgle.",
];

pub const POSTMAN_ERR_KEY_REF: [&'static str; 3] = [
    "Could not resolve that reference. Check it, and that op / aws is installed and signed in.",
    "Impossible de résoudre cette référence. Vérifiez-la, ainsi que l’installation et la connexion de op / aws.",
    "Kunne ikke slå referencen op. Tjek den, og at op / aws er installeret og logget ind.",
];

pub const POSTMAN_ERR_BAD_WORKSPACE: [&'static str; 3] = [
    "That is not a workspace id or a Postman workspace address.",
    "Ce n'est ni un identifiant d'espace de travail ni une adresse d'espace de travail Postman.",
    "Det er hverken et workspace-id eller en Postman-workspace-adresse.",
];

pub const POSTMAN_ERR_DEST_REQUIRED: [&'static str; 3] = [
    "Choose a folder to import into.",
    "Choisissez un dossier de destination.",
    "Vælg en mappe at importere til.",
];

pub const POSTMAN_ERR_NOTHING_SELECTED: [&'static str; 3] = [
    "Choose collections, environments, or both.",
    "Choisissez les collections, les environnements, ou les deux.",
    "Vælg samlinger, miljøer eller begge dele.",
];

pub const POSTMAN_ERR_NO_WORKSPACE: [&'static str; 3] = [
    "No workspace was chosen.",
    "Aucun espace de travail n'a été choisi.",
    "Der blev ikke valgt noget workspace.",
];

pub const POSTMAN_ERR_NO_WORKSPACES: [&'static str; 3] = [
    "This key can see no workspaces. A key carries its owner’s access, so check your Postman account is a member.",
    "Cette clé ne voit aucun espace de travail. Une clé porte les accès de son propriétaire : vérifiez que votre compte Postman en est membre.",
    "Denne nøgle kan ikke se nogen workspaces. En nøgle bærer ejerens adgang, så tjek at din Postman-konto er medlem.",
];

pub const POSTMAN_ERR_WORKER_ENDED: [&'static str; 3] = [
    "The import stopped unexpectedly.",
    "L'importation s'est arrêtée de façon inattendue.",
    "Importen stoppede uventet.",
];

pub const POSTMAN_WORD_COLLECTION: [&'static str; 3] = [
    "collection",
    "collection",
    "samling",
];

pub const POSTMAN_WORD_COLLECTIONS: [&'static str; 3] = [
    "collections",
    "collections",
    "samlinger",
];

pub const POSTMAN_WORD_ENVIRONMENT: [&'static str; 3] = [
    "environment",
    "environnement",
    "miljø",
];

pub const POSTMAN_WORD_ENVIRONMENTS: [&'static str; 3] = [
    "environments",
    "environnements",
    "miljøer",
];

pub const POSTMAN_WORD_WORKSPACE: [&'static str; 3] = [
    "workspace",
    "espace de travail",
    "workspace",
];

pub const POSTMAN_WORD_WORKSPACES: [&'static str; 3] = [
    "workspaces",
    "espaces de travail",
    "workspaces",
];

pub const POSTMAN_UNIT_SECONDS: [&'static str; 3] = [
    "seconds",
    "secondes",
    "sekunder",
];

pub const POSTMAN_UNIT_MINUTES: [&'static str; 3] = [
    "minutes",
    "minutes",
    "minutter",
];

pub const POSTMAN_TITLE: [&'static str; 3] = [
    "Import from Postman",
    "Importer depuis Postman",
    "Importér fra Postman",
];

pub const POSTMAN_CONNECT_HINT: [&'static str; 3] = [
    "Enter connect · Esc cancel",
    "Entrée connecter · Échap annuler",
    "Enter forbind · Esc annuller",
];

pub const POSTMAN_KEY_LABEL: [&'static str; 3] = [
    "API key",
    "Clé d’API",
    "API-nøgle",
];

pub const POSTMAN_KEY_SOURCE_LABEL: [&'static str; 3] = [
    "Key from",
    "Clé depuis",
    "Nøgle fra",
];

pub const POSTMAN_KEY_SOURCE_PASTE: [&'static str; 3] = [
    "Typed here",
    "Saisie directe",
    "Indtastet her",
];

pub const POSTMAN_KEY_SOURCE_OP: [&'static str; 3] = [
    "1Password",
    "1Password",
    "1Password",
];

pub const POSTMAN_KEY_SOURCE_SSM: [&'static str; 3] = [
    "AWS Parameter Store",
    "AWS Parameter Store",
    "AWS Parameter Store",
];

pub const POSTMAN_KEY_SOURCE_ENV: [&'static str; 3] = [
    "Environment variable",
    "Variable d'environnement",
    "Miljøvariabel",
];

pub const POSTMAN_KEY_LABEL_OP: [&'static str; 3] = [
    "1Password item",
    "Élément 1Password",
    "1Password-element",
];

pub const POSTMAN_KEY_LABEL_SSM: [&'static str; 3] = [
    "Parameter",
    "Paramètre",
    "Parameter",
];

pub const POSTMAN_KEY_LABEL_ENV: [&'static str; 3] = [
    "Variable",
    "Variable",
    "Variabel",
];

pub const POSTMAN_KEY_HINT_OP: [&'static str; 3] = [
    "vault/item/field",
    "coffre/élément/champ",
    "boks/element/felt",
];

pub const POSTMAN_KEY_HINT_SSM: [&'static str; 3] = [
    "e.g. /team/postman/api-key",
    "ex. /team/postman/api-key",
    "f.eks. /team/postman/api-key",
];

pub const POSTMAN_KEY_HINT_ENV: [&'static str; 3] = [
    "e.g. POSTMAN_API_KEY",
    "ex. POSTMAN_API_KEY",
    "f.eks. POSTMAN_API_KEY",
];

pub const POSTMAN_KEY_HINT: [&'static str; 3] = [
    "PMAK-…",
    "PMAK-…",
    "PMAK-…",
];

pub const POSTMAN_KEY_HELP_OP: [&'static str; 3] = [
    "PaperBoy reads the key from 1Password each time it runs, so no key is kept here. Needs the 1Password CLI (op) installed.",
    "PaperBoy lit la clé dans 1Password à chaque exécution ; aucune clé n'est conservée ici. Nécessite la CLI 1Password (op).",
    "PaperBoy læser nøglen fra 1Password ved hver kørsel, så ingen nøgle gemmes her. Kræver 1Password-CLI'en (op) installeret.",
];

pub const POSTMAN_KEY_HELP_SSM: [&'static str; 3] = [
    "PaperBoy reads the key from AWS Parameter Store each time it runs, so no key is kept here. Needs the AWS CLI installed.",
    "PaperBoy lit la clé dans AWS Parameter Store à chaque exécution ; aucune clé n'est conservée ici. Nécessite la CLI AWS.",
    "PaperBoy læser nøglen fra AWS Parameter Store ved hver kørsel, så ingen nøgle gemmes her. Kræver AWS-CLI'en installeret.",
];

pub const POSTMAN_KEY_HELP_ENV: [&'static str; 3] = [
    "PaperBoy reads the key from this environment variable each time it runs, so no key is kept here.",
    "PaperBoy lit la clé dans cette variable d'environnement à chaque exécution ; aucune clé n'est conservée ici.",
    "PaperBoy læser nøglen fra denne miljøvariabel ved hver kørsel, så ingen nøgle gemmes her.",
];

pub const POSTMAN_KEY_HELP_PASTE: [&'static str; 3] = [
    "Used as typed, for this import only. Postman makes these under Settings → API keys.",
    "Utilisée telle quelle, pour cet import uniquement. Postman les crée dans Paramètres → Clés d'API.",
    "Bruges som indtastet, kun til denne import. Postman opretter dem under Indstillinger → API-nøgler.",
];

pub const POSTMAN_WORKSPACE_LABEL: [&'static str; 3] = [
    "Workspace",
    "Espace de travail",
    "Workspace",
];

pub const POSTMAN_WORKSPACE_HINT: [&'static str; 3] = [
    "leave blank to choose from a list",
    "laisser vide pour choisir dans une liste",
    "lad stå tom for at vælge fra en liste",
];

pub const POSTMAN_BASE_URL_LABEL: [&'static str; 3] = [
    "API host",
    "Hôte de l’API",
    "API-vært",
];

pub const POSTMAN_BASE_URL_HINT: [&'static str; 3] = [
    "api.getpostman.com · EU: api.eu.postman.com",
    "api.getpostman.com · UE : api.eu.postman.com",
    "api.getpostman.com · EU: api.eu.postman.com",
];

pub const POSTMAN_PICK_WORKSPACE: [&'static str; 3] = [
    "Choose a workspace",
    "Choisissez un espace de travail",
    "Vælg et workspace",
];

pub const POSTMAN_PICK_WORKSPACE_HINT: [&'static str; 3] = [
    "Type to filter · Enter select · Ctrl+A import all · Esc cancel",
    "Filtrer en tapant · Entrée choisir · Ctrl+A tout importer · Échap annuler",
    "Skriv for at filtrere · Enter vælg · Ctrl+A importér alle · Esc annuller",
];

pub const POSTMAN_ALL_WORKSPACES: [&'static str; 3] = [
    "All workspaces",
    "Tous les espaces de travail",
    "Alle workspaces",
];

pub const POSTMAN_IMPORT_ALL: [&'static str; 3] = [
    "Import all",
    "Tout importer",
    "Importér alle",
];

pub const POSTMAN_IMPORT_ALL_NOTE: [&'static str; 3] = [
    "Every workspace shown is imported, each into its own folder inside the destination. Listing them all costs two API calls per workspace.",
    "Chaque espace de travail affiché est importé, chacun dans son propre dossier au sein de la destination. Les lister tous coûte deux appels d'API par espace de travail.",
    "Hvert viste workspace importeres, hver i sin egen mappe inde i destinationen. At liste dem alle koster to API-kald pr. workspace.",
];

pub const POSTMAN_WS_SKIPPED: [&'static str; 3] = [
    "could not be listed and were skipped",
    "n'ont pas pu être listés et ont été ignorés",
    "kunne ikke listes og blev sprunget over",
];

pub const POSTMAN_INCLUDE_COLLECTIONS: [&'static str; 3] = [
    "Collections",
    "Collections",
    "Samlinger",
];

pub const POSTMAN_INCLUDE_ENVIRONMENTS: [&'static str; 3] = [
    "Environments",
    "Environnements",
    "Miljøer",
];

pub const POSTMAN_DEST_LABEL: [&'static str; 3] = [
    "Import into",
    "Importer dans",
    "Importér til",
];

pub const POSTMAN_DEST_UNSET: [&'static str; 3] = [
    "(no folder chosen)",
    "(aucun dossier choisi)",
    "(ingen mappe valgt)",
];

pub const POSTMAN_BROWSE: [&'static str; 3] = [
    "[Enter to choose…]",
    "[Entrée pour choisir…]",
    "[Enter for at vælge…]",
];

pub const POSTMAN_DEST_FOLDER: [&'static str; 3] = [
    "Import into",
    "Importer dans",
    "Importér til",
];

pub const POSTMAN_OPTIONS_HINT_DEST: [&'static str; 3] = [
    "Enter choose folder · Esc back",
    "Entrée choisir le dossier · Échap retour",
    "Enter vælg mappe · Esc tilbage",
];

pub const POSTMAN_OPTIONS_HINT_TOGGLE: [&'static str; 3] = [
    "Space toggle · Esc back",
    "Espace basculer · Échap retour",
    "Mellemrum slå til/fra · Esc tilbage",
];

pub const POSTMAN_OPTIONS_HINT_IMPORT: [&'static str; 3] = [
    "Enter import · Esc back",
    "Entrée importer · Échap retour",
    "Enter importér · Esc tilbage",
];

pub const POSTMAN_FORMAT_LABEL: [&'static str; 3] = [
    "Format",
    "Format",
    "Format",
];

pub const POSTMAN_FORMAT_RAW: [&'static str; 3] = [
    "Postman JSON (keeps everything)",
    "JSON Postman (conserve tout)",
    "Postman-JSON (bevarer alt)",
];

pub const POSTMAN_FORMAT_HURL: [&'static str; 3] = [
    "Convert to Hurl (.hurl and .vars)",
    "Convertir en Hurl (.hurl et .vars)",
    "Konvertér til Hurl (.hurl og .vars)",
];

pub const POSTMAN_FORMAT_HURL_NOTE: [&'static str; 3] = [
    "Anything that could not be converted is listed in a notes file saved with the import.",
    "Tout ce qui n'a pas pu être converti est listé dans un fichier de notes enregistré avec l'import.",
    "Alt, der ikke kunne konverteres, listes i en notefil, der gemmes sammen med importen.",
];

pub const POSTMAN_OVERWRITE: [&'static str; 3] = [
    "Replace the folder if it already exists",
    "Remplacer le dossier s'il existe déjà",
    "Erstat mappen hvis den allerede findes",
];

pub const POSTMAN_CONFIRM_TITLE: [&'static str; 3] = [
    "Ready to import",
    "Prêt à importer",
    "Klar til at importere",
];

pub const POSTMAN_ERROR_HINT: [&'static str; 3] = [
    "Esc back",
    "Échap retour",
    "Esc tilbage",
];

pub const POSTMAN_CONFIRM_HINT: [&'static str; 3] = [
    "Enter import · Esc back",
    "Entrée importer · Échap retour",
    "Enter importér · Esc tilbage",
];

pub const POSTMAN_PREVIEW_ACTION: [&'static str; 3] = [
    "Preview",
    "Aperçu",
    "Forhåndsvis",
];

pub const POSTMAN_PREVIEW_CACHED: [&'static str; 3] = [
    "Preview (already read)",
    "Aperçu (déjà lu)",
    "Forhåndsvis (allerede læst)",
];

pub const POSTMAN_PREVIEW_TITLE: [&'static str; 3] = [
    "What this collection holds",
    "Contenu de cette collection",
    "Hvad denne samling indeholder",
];

pub const POSTMAN_PREVIEW_BUSY: [&'static str; 3] = [
    "Reading the collection…",
    "Lecture de la collection…",
    "Læser samlingen…",
];

pub const POSTMAN_PREVIEW_COST: [&'static str; 3] = [
    "Reading one costs a single API call; each is remembered once read.",
    "En lire une coûte un seul appel d'API ; chacune est mémorisée une fois lue.",
    "At læse én koster ét enkelt API-kald; hver huskes, når den er læst.",
];

pub const POSTMAN_PREVIEW_EMPTY: [&'static str; 3] = [
    "This collection has no requests.",
    "Cette collection ne contient aucune requête.",
    "Denne samling har ingen forespørgsler.",
];

pub const POSTMAN_PREVIEW_REQUESTS: [&'static str; 3] = [
    "requests",
    "requêtes",
    "forespørgsler",
];

pub const POSTMAN_PREVIEW_NOTES: [&'static str; 3] = [
    "Would not convert exactly:",
    "Ne se convertirait pas exactement :",
    "Ville ikke blive konverteret nøjagtigt:",
];

pub const POSTMAN_PREVIEW_HINT: [&'static str; 3] = [
    "↑↓ choose · p preview · Enter import · Esc back",
    "↑↓ choisir · p aperçu · Entrée importer · Échap retour",
    "↑↓ vælg · p forhåndsvis · Enter importér · Esc tilbage",
];

pub const POSTMAN_PREVIEW_CLOSE_HINT: [&'static str; 3] = [
    "↑↓ scroll · Esc close",
    "↑↓ défiler · Échap fermer",
    "↑↓ rul · Esc luk",
];

pub const POSTMAN_PREVIEW_UNTITLED: [&'static str; 3] = [
    "(untitled)",
    "(sans titre)",
    "(uden titel)",
];

pub const POSTMAN_WS_PEEK_COST: [&'static str; 3] = [
    "Expanding a workspace lists its collections: a single API call, remembered once read.",
    "Déplier un espace de travail liste ses collections\u{a0}: un seul appel d'API, mémorisé une fois lu.",
    "At folde et workspace ud viser dets samlinger: ét enkelt API-kald, som huskes, når det er læst.",
];

pub const POSTMAN_WS_PEEK_BUSY: [&'static str; 3] = [
    "Reading the workspace…",
    "Lecture de l'espace de travail…",
    "Læser workspacet…",
];

pub const POSTMAN_WS_PEEK_EMPTY: [&'static str; 3] = [
    "This workspace has no collections.",
    "Cet espace de travail ne contient aucune collection.",
    "Dette workspace har ingen samlinger.",
];

pub const POSTMAN_RATE_LIMIT_NOTE: [&'static str; 3] = [
    "Paced to stay inside Postman’s rate limit.",
    "Rythme adapté à la limite de débit de Postman.",
    "Tempo tilpasset Postmans hastighedsgrænse.",
];

pub const POSTMAN_BACKGROUND: [&'static str; 3] = [
    "Importing from Postman",
    "Import depuis Postman",
    "Importerer fra Postman",
];

pub const POSTMAN_BACKGROUND_BUTTON: [&'static str; 3] = [
    "Continue in the background",
    "Continuer en arrière-plan",
    "Fortsæt i baggrunden",
];

pub const POSTMAN_BACKGROUND_HINT: [&'static str; 3] = [
    "Put this away and keep working; the import carries on and reappears when it needs you.",
    "Masquer et continuer à travailler ; l'import se poursuit et réapparaît s'il a besoin de vous.",
    "Læg denne væk og arbejd videre; importen fortsætter og dukker op igen, når den har brug for dig.",
];

pub const POSTMAN_BACKGROUND_REVEAL: [&'static str; 3] = [
    "Click to show the import",
    "Cliquez pour afficher l'import",
    "Klik for at vise importen",
];

pub const POSTMAN_ESTIMATE: [&'static str; 3] = [
    "About",
    "Environ",
    "Cirka",
];

pub const POSTMAN_BUDGET_WARNING: [&'static str; 3] = [
    "This would use a large share of this account's remaining monthly API budget.",
    "Cela consommerait une grande partie du budget d'API mensuel restant de ce compte.",
    "Dette ville bruge en stor del af kontoens resterende månedlige API-budget.",
];

pub const POSTMAN_WAITING_PACED: [&'static str; 3] = [
    "Pausing to stay within Postman's rate limit",
    "Pause pour respecter la limite de débit de Postman",
    "Pauser for at holde sig inden for Postmans hastighedsgrænse",
];

pub const POSTMAN_WAITING_LIMITED: [&'static str; 3] = [
    "Postman asked us to wait",
    "Postman nous a demandé d'attendre",
    "Postman bad os vente",
];

pub const POSTMAN_REMAINING: [&'static str; 3] = [
    "left",
    "restant",
    "tilbage",
];

pub const POSTMAN_RECENT_HINT: [&'static str; 3] = [
    "↓ saved references",
    "↓ références enregistrées",
    "↓ gemte referencer",
];

pub const POSTMAN_RECENT_PICK_HINT: [&'static str; 3] = [
    "Enter fill · Esc close",
    "Entrée remplir · Échap fermer",
    "Enter udfyld · Esc luk",
];

pub const POSTMAN_BUDGET_LABEL: [&'static str; 3] = [
    "Postman allowance",
    "Quota Postman",
    "Postman-kvote",
];

pub const POSTMAN_BUDGET_WINDOW: [&'static str; 3] = [
    "calls left before reset",
    "appels restants avant réinitialisation",
    "kald tilbage før nulstilling",
];

pub const POSTMAN_BUDGET_MONTH: [&'static str; 3] = [
    "left this month",
    "restants ce mois-ci",
    "tilbage denne måned",
];

pub const POSTMAN_BUDGET_PACE: [&'static str; 3] = [
    "one call every",
    "un appel toutes les",
    "ét kald hver",
];

pub const POSTMAN_DONE_TITLE: [&'static str; 3] = [
    "Import complete",
    "Importation terminée",
    "Import fuldført",
];

pub const POSTMAN_DONE_OPENED: [&'static str; 3] = [
    "It is open in a new workspace tab — choose a collection on the left to see its requests.",
    "Il est ouvert dans un nouvel onglet d'espace de travail — choisissez une collection à gauche pour voir ses requêtes.",
    "Den er åben i en ny arbejdsområdefane — vælg en samling til venstre for at se dens forespørgsler.",
];

pub const POSTMAN_DONE_SAVED_TO: [&'static str; 3] = [
    "Saved to",
    "Enregistré dans",
    "Gemt i",
];

pub const POSTMAN_SKIPPED: [&'static str; 3] = [
    "could not be fetched and were skipped",
    "n'ont pas pu être récupérés et ont été ignorés",
    "kunne ikke hentes og blev sprunget over",
];

pub const POSTMAN_NOTES_WRITTEN: [&'static str; 3] = [
    "Some things could not be converted to Hurl — see CONVERSION-NOTES.md in the imported folder.",
    "Certains éléments n'ont pas pu être convertis en Hurl — voir CONVERSION-NOTES.md dans le dossier importé.",
    "Nogle ting kunne ikke konverteres til Hurl — se CONVERSION-NOTES.md i den importerede mappe.",
];

pub const POSTMAN_START: [&'static str; 3] = [
    "Import",
    "Importer",
    "Importér",
];

pub const GUI_GIT_FILTER: [&'static str; 3] = [
    "Filter",
    "Filtrer",
    "Filter",
];

pub const GUI_GIT_LOAD: [&'static str; 3] = [
    "Load",
    "Charger",
    "Indlæs",
];

pub const GUI_GIT_SAVE: [&'static str; 3] = [
    "Save",
    "Enregistrer",
    "Gem",
];

pub const GUI_GIT_BRANCH: [&'static str; 3] = [
    "Branch",
    "Branche",
    "Gren",
];

pub const GUI_GIT_PATH: [&'static str; 3] = [
    "Path in repo",
    "Chemin dans le dépôt",
    "Sti i lageret",
];

pub const GUI_GIT_COMMIT_MESSAGE: [&'static str; 3] = [
    "Commit message",
    "Message de commit",
    "Commit-besked",
];

pub const GUI_GIT_SHOW_ALL_FILES: [&'static str; 3] = [
    "Show all files",
    "Afficher tous les fichiers",
    "Vis alle filer",
];

pub const GUI_GIT_PICK_REF: [&'static str; 3] = [
    "Pick a branch or tag",
    "Choisir une branche ou une étiquette",
    "Vælg en gren eller et tag",
];

pub const GUI_GIT_LOAD_TITLE: [&'static str; 3] = [
    "Load from Git",
    "Charger depuis Git",
    "Indlæs fra Git",
];

pub const GUI_GIT_SAVE_COLLECTION_TITLE: [&'static str; 3] = [
    "Save collection to Git",
    "Enregistrer la collection sur Git",
    "Gem samling til Git",
];

pub const GUI_GIT_SAVE_WORKSPACE_TITLE: [&'static str; 3] = [
    "Save workspace to Git",
    "Enregistrer l'espace de travail sur Git",
    "Gem workspace til Git",
];

pub const GUI_GIT_SAVE_REPORT_TITLE: [&'static str; 3] = [
    "Save report to Git",
    "Enregistrer le rapport sur Git",
    "Gem rapport til Git",
];

pub const GUI_GIT_FETCHED_AT: [&'static str; 3] = [
    "Fetched at",
    "Récupéré à",
    "Hentet ved",
];

pub const GUI_GIT_NO_FILES: [&'static str; 3] = [
    "No .hurl or .vars files match. Enable “Show all files” to browse everything.",
    "Aucun fichier .hurl ou .vars ne correspond. Activez « Afficher tous les fichiers » pour tout parcourir.",
    "Ingen .hurl- eller .vars-filer matcher. Slå “Vis alle filer” til for at gennemse alt.",
];

pub const GUI_GIT_CHECKOUT_GONE: [&'static str; 3] = [
    "The temporary checkout was cleaned up. Go Back and Browse files again to retry.",
    "L'extraction temporaire a été nettoyée. Revenez en arrière et parcourez à nouveau les fichiers pour réessayer.",
    "Den midlertidige udtjekning blev ryddet op. Gå tilbage og gennemse filer igen for at prøve igen.",
];

pub const GUI_GIT_ERR_NO_FILE: [&'static str; 3] = [
    "No file was selected.",
    "Aucun fichier n'a été sélectionné.",
    "Ingen fil blev valgt.",
];

pub const GUI_GIT_ERR_NO_REF: [&'static str; 3] = [
    "No branch or tag was selected.",
    "Aucune branche ou étiquette n'a été sélectionnée.",
    "Ingen gren eller tag blev valgt.",
];

pub const GUI_GIT_ERR_NOT_ENV: [&'static str; 3] = [
    "The selected file is not a valid .vars environment.",
    "Le fichier sélectionné n'est pas un environnement .vars valide.",
    "Den valgte fil er ikke et gyldigt .vars-miljø.",
];

pub const GUI_GIT_ERR_NOT_COLLECTION: [&'static str; 3] = [
    "The selected file is not a valid collection.",
    "Le fichier sélectionné n'est pas une collection valide.",
    "Den valgte fil er ikke en gyldig samling.",
];

pub const GUI_GIT_ERR_COLLECTION_MISSING: [&'static str; 3] = [
    "Collection not found.",
    "Collection introuvable.",
    "Samling ikke fundet.",
];

pub const GUI_GIT_ERR_COLLECTION_CLOSED: [&'static str; 3] = [
    "Collection was closed before the save finished.",
    "La collection a été fermée avant la fin de l'enregistrement.",
    "Samlingen blev lukket, før lagringen var færdig.",
];

pub const GUI_GIT_ERR_URL_REQUIRED: [&'static str; 3] = [
    "Repository URL is required.",
    "L'URL du dépôt est requise.",
    "Lager-URL er påkrævet.",
];

pub const GUI_GIT_ERR_PICK_REF_FIRST: [&'static str; 3] = [
    "Choose a branch or tag first.",
    "Choisissez d'abord une branche ou une étiquette.",
    "Vælg først en gren eller et tag.",
];

pub const GUI_GIT_ERR_BROWSE_AGAIN: [&'static str; 3] = [
    "Browse files again before loading.",
    "Parcourez à nouveau les fichiers avant de charger.",
    "Gennemse filer igen før indlæsning.",
];

pub const GUI_GIT_ERR_PICK_FILE: [&'static str; 3] = [
    "Choose a file to load.",
    "Choisissez un fichier à charger.",
    "Vælg en fil at indlæse.",
];

pub const GUI_GIT_ERR_PATH_REQUIRED: [&'static str; 3] = [
    "Path in repository is required.",
    "Le chemin dans le dépôt est requis.",
    "Sti i lageret er påkrævet.",
];

pub const GUI_GIT_ERR_PATH_RELATIVE: [&'static str; 3] = [
    "Path must be relative and must not contain “..”.",
    "Le chemin doit être relatif et ne doit pas contenir « .. ».",
    "Stien skal være relativ og må ikke indeholde “..”.",
];

pub const GUI_GIT_LOAD_REPORT_TITLE: [&'static str; 3] = [
    "Load report from Git",
    "Charger un rapport depuis Git",
    "Indlæs rapport fra Git",
];

pub const GUI_GIT_LOAD_WORKSPACE_TITLE: [&'static str; 3] = [
    "Load workspace from Git",
    "Charger un espace de travail depuis Git",
    "Indlæs workspace fra Git",
];

pub const GUI_GIT_WS_PICK_FILTER: [&'static str; 3] = [
    "Choose which files to download. Nothing else in the repository is ever fetched.",
    "Choisissez les fichiers à télécharger. Rien d'autre dans le dépôt n'est jamais récupéré.",
    "Vælg hvilke filer der skal hentes. Intet andet i lageret bliver nogensinde hentet.",
];

pub const GUI_GIT_WS_MATCH_COUNT: [&'static str; 3] = [
    "{n} of {total} files match",
    "{n} fichiers sur {total} correspondent",
    "{n} af {total} filer matcher",
];

pub const GUI_GIT_WS_DOWNLOAD: [&'static str; 3] = [
    "Download",
    "Télécharger",
    "Hent",
];

pub const GUI_GIT_WS_STORAGE_TITLE: [&'static str; 3] = [
    "Keep this workspace?",
    "Conserver cet espace de travail ?",
    "Behold dette workspace?",
];

pub const GUI_GIT_WS_FOLDER_NAME: [&'static str; 3] = [
    "Folder name",
    "Nom du dossier",
    "Mappenavn",
];

pub const GUI_GIT_ERR_WS_NO_MATCHES: [&'static str; 3] = [
    "No files in this repository matched that filter.",
    "Aucun fichier de ce dépôt ne correspond à ce filtre.",
    "Ingen filer i dette lager matchede det filter.",
];

pub const GUI_GIT_ERR_WS_NAME_REQUIRED: [&'static str; 3] = [
    "A folder name is required.",
    "Un nom de dossier est requis.",
    "Et mappenavn er påkrævet.",
];

pub const GUI_GIT_ERR_WS_EXISTS: [&'static str; 3] = [
    "That folder already exists — choose another name.",
    "Ce dossier existe déjà — choisissez un autre nom.",
    "Den mappe findes allerede — vælg et andet navn.",
];

pub const GUI_CLOSE_GIT_WORKSPACE_TITLE: [&'static str; 3] = [
    "Close downloaded workspace",
    "Fermer l'espace de travail téléchargé",
    "Luk downloadet workspace",
];

pub const GUI_WORKSPACE_RELOAD_TITLE: [&'static str; 3] = [
    "Workspace files are missing",
    "Les fichiers de l'espace de travail sont introuvables",
    "Workspace-filer mangler",
];

pub const GUI_WORKSPACE_RELOAD_YES: [&'static str; 3] = [
    "Redownload",
    "Retélécharger",
    "Hent igen",
];

pub const GUI_WORKSPACE_RELOAD_NO: [&'static str; 3] = [
    "Leave it empty",
    "Le laisser vide",
    "Lad den være tom",
];

// ── Report validation ────────────────────────────────────────────────
// These read in the terms of whatever front-end is showing them (a
// "collection setting", not a `# collection:` header), because the block
// editor never shows the source syntax the directive is written in.
// `{}` placeholders are filled in order by `fill`.
pub const DIAG_COLLECTION_UNSET: [&'static str; 3] = [
    "No collection chosen — a report has nothing to run against until one is set.",
    "Aucune collection choisie — un rapport n'a rien à exécuter tant qu'aucune n'est définie.",
    "Ingen samling valgt — en rapport har intet at køre mod, før en er sat.",
];

pub const DIAG_OUTPUT_UNSUPPORTED: [&'static str; 3] = [
    "Unsupported output format '{}' — supported formats are {}.",
    "Format de sortie '{}' non pris en charge — les formats acceptés sont {}.",
    "Outputformatet '{}' understøttes ikke — de understøttede formater er {}.",
];

pub const DIAG_DUPLICATE_COLUMN: [&'static str; 3] = [
    "Two columns are both headed '{}' — give each one a distinct name with AS.",
    "Deux colonnes portent le même titre '{}' — donnez à chacune un nom distinct avec AS.",
    "To kolonner har begge overskriften '{}' — giv hver af dem et særskilt navn med AS.",
];

pub const DIAG_LABELS_MALFORMED: [&'static str; 3] = [
    "The label setting '{}' declares nothing — write it as 'Name = synonym, synonym'.",
    "Le réglage d'étiquettes '{}' ne déclare rien — écrivez-le sous la forme 'Nom = synonyme, synonyme'.",
    "Etiketindstillingen '{}' erklærer ingenting — skriv den som 'Navn = synonym, synonym'.",
];

pub const DIAG_LABELS_CONFLICT: [&'static str; 3] = [
    "'{}' is claimed by both '{}' and '{}' — it counts as '{}'.",
    "'{}' est revendiqué à la fois par '{}' et '{}' — il compte comme '{}'.",
    "'{}' hævdes af både '{}' og '{}' — den tælles som '{}'.",
];

pub const DIAG_TRUTH_EMPTY: [&'static str; 3] = [
    "Column '{}' has an empty ground truth, so it will never be scored.",
    "La colonne '{}' a une vérité terrain vide, elle ne sera donc jamais évaluée.",
    "Kolonnen '{}' har en tom grundsandhed, så den bliver aldrig vurderet.",
];

pub const DIAG_TRUTH_ON_IMAGE: [&'static str; 3] = [
    "Column '{}' is shown as a picture, so its ground truth compares the address of the picture rather than what it shows.",
    "La colonne '{}' est affichée comme une image, sa vérité terrain compare donc l'adresse de l'image plutôt que son contenu.",
    "Kolonnen '{}' vises som et billede, så dens grundsandhed sammenligner billedets adresse frem for det, det viser.",
];

pub const DIAG_ENVIRONMENT_UNSET: [&'static str; 3] = [
    "The environment setting is empty — either name an environment or remove the setting.",
    "Le réglage d'environnement est vide — nommez un environnement ou supprimez le réglage.",
    "Miljøindstillingen er tom — navngiv et miljø, eller fjern indstillingen.",
];

pub const DIAG_ENVIRONMENT_NOT_LOADED: [&'static str; 3] = [
    "Environment '{}' is not loaded.",
    "L'environnement '{}' n'est pas chargé.",
    "Miljøet '{}' er ikke indlæst.",
];

pub const DIAG_BASELINE_IGNORED: [&'static str; 3] = [
    "The baseline setting is ignored, because this report already compares a BASELINE environment with COMPARISON environments.",
    "Le réglage baseline est ignoré, car ce rapport compare déjà un environnement BASELINE à des environnements COMPARISON.",
    "Baseline-indstillingen ignoreres, fordi denne rapport allerede sammenligner et BASELINE-miljø med COMPARISON-miljøer.",
];

pub const DIAG_BASELINE_MISSING: [&'static str; 3] = [
    "The baseline snapshot '{}' was not found at {}.",
    "L'instantané baseline '{}' est introuvable à {}.",
    "Baseline-øjebliksbilledet '{}' blev ikke fundet på {}.",
];

pub const DIAG_NO_COLUMNS: [&'static str; 3] = [
    "This report emits no columns, so it will produce an empty table — attach REPORT to a request to make it one.",
    "Ce rapport ne produit aucune colonne, il donnera donc un tableau vide — attachez REPORT à une requête pour en créer une.",
    "Denne rapport udsender ingen kolonner, så den giver en tom tabel — sæt REPORT på en forespørgsel for at lave en.",
];

pub const DIAG_COLLECTION_NOT_LOADED: [&'static str; 3] = [
    "The collection isn't loaded, so request names can't be checked yet.",
    "La collection n'est pas chargée, les noms de requêtes ne peuvent donc pas encore être vérifiés.",
    "Samlingen er ikke indlæst, så forespørgselsnavne kan ikke tjekkes endnu.",
];

pub const DIAG_LIST_SHADOWED: [&'static str; 3] = [
    "LIST '{}' hides an earlier list of the same name.",
    "LIST '{}' masque une liste antérieure du même nom.",
    "LIST '{}' skjuler en tidligere liste med samme navn.",
];

pub const DIAG_ENV_REF_NOT_A_PARAM: [&'static str; 3] = [
    "ENVS names an environment through '{}', but no PARAM declares it — write '{}' as a parameter, or name the environment outright.",
    "ENVS désigne un environnement via « {} », mais aucun PARAM ne le déclare — déclarez « {} » comme paramètre, ou nommez l'environnement directement.",
    "ENVS navngiver et miljø via '{}', men ingen PARAM erklærer det — erklær '{}' som en parameter, eller navngiv miljøet direkte.",
];

pub const DIAG_ENV_REF_DEFAULT_NOT_LOADED: [&'static str; 3] = [
    "ENVS names '{}', which currently means '{}' — an environment that isn't loaded.",
    "ENVS désigne « {} », qui signifie actuellement « {} » — un environnement qui n'est pas chargé.",
    "ENVS navngiver '{}', som i øjeblikket betyder '{}' — et miljø, der ikke er indlæst.",
];

pub const PARAM_PICK_PATH: [&'static str; 3] = [
    "Pick a value for this parameter…",
    "Choisissez une valeur pour ce paramètre…",
    "Vælg en værdi til denne parameter…",
];

pub const PARAM_ROW_REQUIRED: [&'static str; 3] = [
    "needs a value",
    "doit être renseigné",
    "kræver en værdi",
];

pub const PARAM_BLOCKED_HINT: [&'static str; 3] = [
    "Fill in the values marked above before running.",
    "Renseignez les valeurs signalées ci-dessus avant de lancer.",
    "Udfyld de markerede værdier ovenfor, før du kører.",
];

pub const PARAM_RUN_SETTINGS_FIRST: [&'static str; 3] = [
    "This report asks for some values — check them, then run again to start.",
    "Ce rapport demande des valeurs : vérifiez-les, puis relancez pour démarrer.",
    "Denne rapport beder om nogle værdier — tjek dem, og kør igen for at starte.",
];

pub const PARAM_NONE_DECLARED: [&'static str; 3] = [
    "This report doesn't ask for anything before it runs.",
    "Ce rapport ne demande rien avant de s'exécuter.",
    "Denne rapport beder ikke om noget, før den kører.",
];

pub const PARAM_VIEW_TITLE: [&'static str; 3] = [
    "Run settings",
    "Paramètres d'exécution",
    "Kørselsindstillinger",
];

pub const PARAM_VIEW_LEAD: [&'static str; 3] = [
    "Set the values this run will use.",
    "Définissez les valeurs utilisées par cette exécution.",
    "Angiv de værdier, denne kørsel skal bruge.",
];

pub const PARAM_VIEW_HINT: [&'static str; 3] = [
    "Enter set  r run  d preview  Esc cancel",
    "Entrée définir  r exécuter  d aperçu  Échap annuler",
    "Enter angiv  r kør  d forhåndsvis  Esc annullér",
];

pub const PARAM_SUMMARY_PREFIX: [&'static str; 3] = [
    "Run settings",
    "Paramètres d'exécution",
    "Kørselsindstillinger",
];

pub const PARAM_SUMMARY_HINT: [&'static str; 3] = [
    "p to change",
    "p pour modifier",
    "p for at ændre",
];

pub const PARAM_CHANGED_SINCE_RUN: [&'static str; 3] = [
    "changed since this run",
    "modifié depuis cette exécution",
    "ændret siden denne kørsel",
];

pub const PARAM_PREVIEWED_WITH: [&'static str; 3] = [
    "Previewed with",
    "Aperçu avec",
    "Forhåndsvist med",
];

pub const PARAM_RESULT_RAN_WITH: [&'static str; 3] = [
    "The table below was run with {}.",
    "Le tableau ci-dessous a été exécuté avec {}.",
    "Tabellen nedenfor blev kørt med {}.",
];

pub const PARAM_VALUE_UNSET: [&'static str; 3] = [
    "(not set)",
    "(non renseigné)",
    "(ikke angivet)",
];

pub const PARAM_OPEN_HINT: [&'static str; 3] = [
    "p run settings",
    "p paramètres d'exécution",
    "p kørselsindstillinger",
];

pub const PARAM_REQUIRED: [&'static str; 3] = [
    "'{}' has no value and no default — set it before running (--param {}=…).",
    "« {} » n'a ni valeur ni valeur par défaut — renseignez-le avant d'exécuter (--param {}=…).",
    "'{}' har hverken en værdi eller en standardværdi — angiv den før kørslen (--param {}=…).",
];

pub const PARAM_NOT_A_CHOICE: [&'static str; 3] = [
    "'{}' was given '{}', which isn't one of its choices ({}).",
    "« {} » a reçu « {} », qui ne fait pas partie de ses choix ({}).",
    "'{}' fik '{}', som ikke er et af dens valg ({}).",
];

pub const PARAM_NOT_A_NUMBER: [&'static str; 3] = [
    "'{}' was given '{}', which isn't a number.",
    "« {} » a reçu « {} », qui n'est pas un nombre.",
    "'{}' fik '{}', som ikke er et tal.",
];

pub const DIAG_PARAM_NOT_IN_PRELUDE: [&'static str; 3] = [
    "PARAM '{}' comes too late to be offered before the run — move it above the first step.",
    "Le PARAM '{}' arrive trop tard pour être proposé avant l'exécution — placez-le au-dessus de la première étape.",
    "PARAM '{}' kommer for sent til at kunne tilbydes før kørslen — flyt den op over det første trin.",
];

pub const DIAG_PARAM_DUPLICATE: [&'static str; 3] = [
    "PARAM '{}' is declared more than once.",
    "Le PARAM '{}' est déclaré plusieurs fois.",
    "PARAM '{}' er erklæret mere end én gang.",
];

pub const DIAG_PARAM_PROMPT_CLASH: [&'static str; 3] = [
    "Two parameters both ask for '{}' — give one of them a LABEL of its own.",
    "Deux paramètres demandent tous deux « {} » — donnez à l'un d'eux un LABEL qui lui soit propre.",
    "To parametre beder begge om '{}' — giv den ene sit eget LABEL.",
];

pub const DIAG_PARAM_NO_CHOICES: [&'static str; 3] = [
    "PARAM '{}' is a CHOICE with nothing to choose from.",
    "Le PARAM '{}' est un CHOICE sans aucun choix.",
    "PARAM '{}' er et CHOICE uden noget at vælge imellem.",
];

pub const DIAG_PARAM_BAD_CHOICE: [&'static str; 3] = [
    "PARAM '{}' has default '{}', which isn't one of its choices ({}).",
    "Le PARAM '{}' a la valeur par défaut '{}', qui ne fait pas partie de ses choix ({}).",
    "PARAM '{}' har standardværdien '{}', som ikke er et af dens valg ({}).",
];

pub const DIAG_PARAM_NOT_A_NUMBER: [&'static str; 3] = [
    "PARAM '{}' has default '{}', which isn't a number.",
    "Le PARAM '{}' a la valeur par défaut '{}', qui n'est pas un nombre.",
    "PARAM '{}' har standardværdien '{}', som ikke er et tal.",
];

pub const DIAG_PARAM_ENV_NOT_LOADED: [&'static str; 3] = [
    "PARAM '{}' defaults to environment '{}', which isn't loaded — pick another before running.",
    "Le PARAM '{}' utilise par défaut l'environnement '{}', qui n'est pas chargé — choisissez-en un autre avant d'exécuter.",
    "PARAM '{}' bruger som standard miljøet '{}', som ikke er indlæst — vælg et andet før kørslen.",
];

pub const DIAG_SHOW_UNKNOWN: [&'static str; 3] = [
    "SHOW field '{}' on request '{}' isn't a field that request produces, so it will be ignored.",
    "Le champ SHOW '{}' de la requête '{}' n'est pas un champ produit par cette requête, il sera donc ignoré.",
    "SHOW-feltet '{}' på forespørgslen '{}' er ikke et felt, den forespørgsel producerer, så det ignoreres.",
];

pub const DIAG_SHOW_HIDE_CONFLICT: [&'static str; 3] = [
    "Field '{}' is in both SHOW and HIDE — these conflict.",
    "Le champ '{}' figure à la fois dans SHOW et HIDE — ces clauses sont contradictoires.",
    "Feltet '{}' er både i SHOW og HIDE — de er i konflikt.",
];

pub const DIAG_HIDE_UNKNOWN: [&'static str; 3] = [
    "HIDE field '{}' on request '{}' isn't a field that request produces.",
    "Le champ HIDE '{}' de la requête '{}' n'est pas un champ produit par cette requête.",
    "HIDE-feltet '{}' på forespørgslen '{}' er ikke et felt, den forespørgsel producerer.",
];

pub const DIAG_REQUEST_AMBIGUOUS_TITLE: [&'static str; 3] = [
    "Request '{}' is ambiguous — {} requests share that title.",
    "La requête '{}' est ambiguë — {} requêtes portent ce titre.",
    "Forespørgslen '{}' er tvetydig — {} forespørgsler deler den titel.",
];

pub const REPORT_ADD_HELPER_COLLECTION: [&'static str; 3] = [
    "HELPER COLLECTION…",
    "COLLECTION D'APPOINT…",
    "HJÆLPESAMLING…",
];

pub const REPORT_ALIAS_UNSET: [&'static str; 3] = [
    "alias",
    "alias",
    "alias",
];

// The two halves of a `# labels:` class. The hints are examples rather than
// descriptions: the whole point of splitting the directive into two fields
// is to show what goes where, and "Low Risk" teaches that faster than
// "canonical label" does.
pub const REPORT_LABEL_CLASS_UNSET: [&'static str; 3] = [
    "Low Risk",
    "Risque faible",
    "Lav risiko",
];

pub const REPORT_LABEL_SYNONYMS_UNSET: [&'static str; 3] = [
    "real, genuine, pass",
    "réel, authentique, succès",
    "ægte, autentisk, bestået",
];

pub const REPORT_LABEL_SYNONYMS_HELP: [&'static str; 3] = [
    "Other spellings that mean this label. A truth of \"real\" and a response of \"Low Risk\" score as a match when both are listed here.",
    "Autres formulations qui désignent cette étiquette. Une vérité « real » et une réponse « Low Risk » comptent comme identiques si les deux figurent ici.",
    "Andre stavemåder, der betyder denne etiket. En sandhed \"real\" og et svar \"Low Risk\" tæller som ens, når begge står her.",
];

pub const REPORT_HELPER_COLLECTION_HELP: [&'static str; 3] = [
    "Another collection whose requests this report can call, written 'path AS alias'. Its requests are then used as 'alias/request'. Handy for a request that supports the report but isn't part of the API being tested — it stays out of Run All.",
    "Une autre collection dont ce rapport peut appeler les requêtes, écrite 'chemin AS alias'. Ses requêtes s'utilisent alors comme 'alias/requête'. Pratique pour une requête qui sert au rapport sans faire partie de l'API testée : elle reste hors de « Tout exécuter ».",
    "En anden samling, hvis forespørgsler denne rapport kan kalde, skrevet 'sti AS alias'. Dens forespørgsler bruges så som 'alias/forespørgsel'. Nyttigt til en forespørgsel, der understøtter rapporten uden at være en del af den API, der testes — den holdes uden for Kør alle.",
];

pub const DIAG_COLLECTION_PRIMARY_ALIAS: [&'static str; 3] = [
    "The first '# collection:' is the report's own collection, so it takes no 'AS' alias. Aliases name the extra helper collections below it.",
    "La première '# collection:' est la collection du rapport : elle ne prend pas d'alias 'AS'. Les alias nomment les collections d'appoint qui la suivent.",
    "Den første '# collection:' er rapportens egen samling og tager derfor ikke et 'AS'-alias. Aliasser navngiver de ekstra hjælpesamlinger under den.",
];

pub const DIAG_COLLECTION_ALIAS_MISSING: [&'static str; 3] = [
    "Helper collection '{}' needs an alias: write '# collection: {} AS name'. Its requests are then used as 'name/request'.",
    "La collection d'appoint '{}' a besoin d'un alias : écrivez '# collection: {} AS nom'. Ses requêtes s'utilisent alors comme 'nom/requête'.",
    "Hjælpesamlingen '{}' mangler et alias: skriv '# collection: {} AS navn'. Dens forespørgsler bruges så som 'navn/forespørgsel'.",
];

pub const DIAG_COLLECTION_ALIAS_INVALID: [&'static str; 3] = [
    "'{}' is not a usable collection alias. Use letters, digits and underscores, starting with a letter or underscore.",
    "'{}' n'est pas un alias de collection utilisable. Utilisez des lettres, des chiffres et des tirets bas, en commençant par une lettre ou un tiret bas.",
    "'{}' kan ikke bruges som samlingsalias. Brug bogstaver, tal og understregninger, og begynd med et bogstav eller en understregning.",
];

pub const DIAG_COLLECTION_ALIAS_DUPLICATE: [&'static str; 3] = [
    "Two helper collections are both called '{}'. Give each one its own alias so 'alias/request' names exactly one request.",
    "Deux collections d'appoint s'appellent '{}'. Donnez à chacune son propre alias pour que 'alias/requête' désigne une seule requête.",
    "To hjælpesamlinger hedder begge '{}'. Giv hver sit eget alias, så 'alias/forespørgsel' peger på præcis én forespørgsel.",
];

pub const DIAG_COLLECTION_ALIAS_SHADOWS_FOLDER: [&'static str; 3] = [
    "The alias '{}' is also a folder in the bound collection, so '{}/…' could mean either. Rename the alias.",
    "L'alias '{}' est aussi un dossier de la collection liée : '{}/…' devient ambigu. Renommez l'alias.",
    "Aliasset '{}' er også en mappe i den bundne samling, så '{}/…' kan betyde begge dele. Omdøb aliasset.",
];

pub const DIAG_COLLECTION_HELPER_NOT_OPEN: [&'static str; 3] = [
    "it lives on a git remote, so open it as a collection first",
    "elle se trouve sur un dépôt git distant : ouvrez-la d'abord comme collection",
    "den ligger på en git-fjernserver, så åbn den som samling først",
];

pub const DIAG_COLLECTION_HELPER_UNREADABLE: [&'static str; 3] = [
    "Helper collection '{}' could not be read: {}",
    "Impossible de lire la collection d'appoint '{}' : {}",
    "Hjælpesamlingen '{}' kunne ikke læses: {}",
];

pub const DIAG_REQUEST_NOT_FOUND: [&'static str; 3] = [
    "Request '{}' was not found in the bound collection.",
    "La requête '{}' est introuvable dans la collection liée.",
    "Forespørgslen '{}' blev ikke fundet i den bundne samling.",
];

pub const DIAG_REQUEST_AMBIGUOUS_LEAF: [&'static str; 3] = [
    "Request '{}' is ambiguous — {} requests end with that name; qualify it with its folder path.",
    "La requête '{}' est ambiguë — {} requêtes se terminent par ce nom\u{a0}; qualifiez-la avec son chemin de dossier.",
    "Forespørgslen '{}' er tvetydig — {} forespørgsler slutter med det navn; kvalificér den med dens mappesti.",
];

pub const DIAG_USING_UNDECLARED: [&'static str; 3] = [
    "Request '{}' does not declare a parameter '{}' (declares: {}). Add 'variable: {}=…' to its [Options] section.",
    "La requête '{}' ne déclare pas de paramètre '{}' (déclare\u{a0}: {}). Ajoutez 'variable: {}=…' à sa section [Options].",
    "Forespørgslen '{}' erklærer ikke en parameter '{}' (erklærer: {}). Tilføj 'variable: {}=…' til dens [Options]-sektion.",
];

pub const DIAG_USING_NO_SUCH_FIELD: [&'static str; 3] = [
    "Request '{}' has no {} field '{}' ({}).",
    "La requête '{}' n'a pas de champ {} nommé '{}' ({}).",
    "Forespørgslen '{}' har intet {}-felt '{}' ({}).",
];

pub const DIAG_USING_BODY_FORM_CONFLICT: [&'static str; 3] = [
    "Overriding the body of '{}' would give it both a body and Form/Multipart fields, which cannot be sent together.",
    "Remplacer le corps de '{}' lui donnerait à la fois un corps et des champs Form/Multipart, qui ne peuvent pas être envoyés ensemble.",
    "At overskrive brødteksten i '{}' ville give den både en brødtekst og Form-/Multipart-felter, som ikke kan sendes sammen.",
];

pub const DIAG_USING_PARAMETER_NOT_REQUIRED: [&'static str; 3] = [
    "Request '{}' declares parameter(s) {} — name them in USING(…) so this statement fails loudly on a collection that doesn't.",
    "La requête '{}' déclare le(s) paramètre(s) {} — nommez-les dans USING(…) pour que cette instruction échoue franchement sur une collection qui ne les déclare pas.",
    "Forespørgslen '{}' erklærer parameteren/parametrene {} — navngiv dem i USING(…), så denne sætning fejler tydeligt på en samling, der ikke gør.",
];

pub const DIAG_USING_NONE: [&'static str; 3] = [
    "none",
    "aucun",
    "ingen",
];

pub const DIAG_USING_NO_FIELDS: [&'static str; 3] = [
    "it has no form fields",
    "elle n'a aucun champ de formulaire",
    "den har ingen formularfelter",
];

pub const DIAG_USING_HAS_FIELDS: [&'static str; 3] = [
    "it has: {}",
    "elle a\u{a0}: {}",
    "den har: {}",
];

pub const DIAG_ENVS_EMPTY: [&'static str; 3] = [
    "This ENVS loop has no environments to run over.",
    "Cette boucle ENVS n'a aucun environnement à parcourir.",
    "Denne ENVS-løkke har ingen miljøer at køre over.",
];

pub const DIAG_BASELINE_MULTIPLE: [&'static str; 3] = [
    "At most one BASELINE environment is allowed.",
    "Un seul environnement BASELINE est autorisé.",
    "Højst ét BASELINE-miljø er tilladt.",
];

pub const DIAG_COMPARISON_MISSING: [&'static str; 3] = [
    "A BASELINE needs at least one COMPARISON environment to be compared against.",
    "Une BASELINE a besoin d'au moins un environnement COMPARISON auquel se comparer.",
    "En BASELINE har brug for mindst ét COMPARISON-miljø at blive sammenlignet med.",
];

pub const DIAG_PATTERN_BEFORE_REST: [&'static str; 3] = [
    "The pattern binds {} names before '...' but the producer yields only {}.",
    "Le motif lie {} noms avant '...' alors que le producteur n'en fournit que {}.",
    "Mønstret binder {} navne før '...', men produceren giver kun {}.",
];

pub const DIAG_PATTERN_ARITY: [&'static str; 3] = [
    "The pattern binds {} name(s) but the producer yields {} per item — use '_' to discard one or '...' to absorb the extras.",
    "Le motif lie {} nom(s) alors que le producteur en fournit {} par élément — utilisez '_' pour en ignorer un ou '...' pour absorber le reste.",
    "Mønstret binder {} navn(e), men produceren giver {} pr. element — brug '_' til at kassere et eller '...' til at opsamle resten.",
];

pub const DIAG_UNKNOWN_LIST: [&'static str; 3] = [
    "Unknown list '{}' — declare it with LIST {} = … before using it.",
    "Liste '{}' inconnue — déclarez-la avec LIST {} = … avant de l'utiliser.",
    "Ukendt liste '{}' — erklær den med LIST {} = … før du bruger den.",
];

pub const DIAG_LIST_ARITY: [&'static str; 3] = [
    "The list elements have inconsistent arity — a mix of scalars and tuples of different sizes.",
    "Les éléments de la liste ont une arité incohérente — un mélange de scalaires et de tuples de tailles différentes.",
    "Listens elementer har inkonsistent aritet — en blanding af skalarer og tupler af forskellig størrelse.",
];

pub const DIAG_CONCAT_ARITY: [&'static str; 3] = [
    "The CONCAT inputs have inconsistent arity — every input must yield the same number of values per item.",
    "Les entrées de CONCAT ont une arité incohérente — chaque entrée doit fournir le même nombre de valeurs par élément.",
    "CONCAT-inputtene har inkonsistent aritet — hvert input skal give det samme antal værdier pr. element.",
];

pub const DIAG_VAR_MAYBE_UNDEFINED: [&'static str; 3] = [
    "Request '{}' uses {} which may not be set at this point in the flow — add it to the environment, or assign it before this request.",
    "La requête '{}' utilise {} qui pourrait ne pas être défini à ce stade du flux — ajoutez-le à l'environnement ou affectez-le avant cette requête.",
    "Forespørgslen '{}' bruger {}, som måske ikke er sat på dette punkt i forløbet — føj den til miljøet, eller tildel den før denne forespørgsel.",
];

pub const GUI_SHORTCUT_SAVE_AS: [&'static str; 3] = [
    "Ctrl+Shift+S",
    "Ctrl+Shift+S",
    "Ctrl+Shift+S",
];

pub const GUI_SHORTCUT_CLOSE_TAB_KEY: [&'static str; 3] = [
    "Ctrl+W",
    "Ctrl+W",
    "Ctrl+W",
];

pub const GUI_SHORTCUT_UNDO_DELETE: [&'static str; 3] = [
    "Ctrl+Z",
    "Ctrl+Z",
    "Ctrl+Z",
];

pub const GUI_CONFIRM_DELETE_REQUEST: [&'static str; 3] = [
    "Confirm deleting a request",
    "Confirmer la suppression d'une requête",
    "Bekræft sletning af en anmodning",
];

pub const GUI_DELETE_REQUEST_TITLE: [&'static str; 3] = [
    "Delete request",
    "Supprimer la requête",
    "Slet anmodning",
];

pub const CONFIRM_DELETE_REQUEST_Q: [&'static str; 3] = [
    "Delete \"{r}\"? You can bring it back with Undo Delete Request (Ctrl+Z).",
    "Supprimer «\u{a0}{r}\u{a0}»\u{a0}? Vous pouvez la récupérer avec «\u{a0}Annuler la suppression de la requête\u{a0}» (Ctrl+Z).",
    "Slet «{r}»? Du kan hente den tilbage med Fortryd sletning af anmodning (Ctrl+Z).",
];

pub const GUI_RUN_ALL_CONFIRM_TITLE: [&'static str; 3] = [
    "Run All",
    "Tout exécuter",
    "Kør alle",
];

pub const CONFIRM_RUN_ALL_Q: [&'static str; 3] = [
    "Run all {n} requests? {m} of them are not GET and may change data on the server.",
    "Exécuter les {n} requêtes\u{a0}? {m} d'entre elles ne sont pas des GET et pourraient modifier des données sur le serveur.",
    "Kør alle {n} anmodninger? {m} af dem er ikke GET og kan ændre data på serveren.",
];

pub const GUI_SHORTCUTS_TITLE: [&'static str; 3] = [
    "Keyboard Shortcuts",
    "Raccourcis clavier",
    "Tastaturgenveje",
];

pub const GUI_SHORTCUTS_GROUP_PANELS: [&'static str; 3] = [
    "Panels",
    "Panneaux",
    "Paneler",
];

pub const GUI_SHORTCUTS_GROUP_LIST: [&'static str; 3] = [
    "Request list",
    "Liste des requêtes",
    "Anmodningsliste",
];

pub const GUI_SHORTCUTS_GROUP_RUN: [&'static str; 3] = [
    "Requests & files",
    "Requêtes et fichiers",
    "Anmodninger og filer",
];

pub const GUI_SHORTCUTS_GROUP_REPORT: [&'static str; 3] = [
    "Report editor",
    "Éditeur de rapport",
    "Rapporteditor",
];

pub const GUI_SHORTCUTS_GROUP_HELP: [&'static str; 3] = [
    "Help",
    "Aide",
    "Hjælp",
];

pub const GUI_SHORTCUT_CYCLE_PANELS: [&'static str; 3] = [
    "Tab / Shift+Tab",
    "Tab / Maj+Tab",
    "Tab / Skift+Tab",
];

pub const GUI_SHORTCUT_RUN: [&'static str; 3] = [
    "Ctrl+Enter / F5",
    "Ctrl+Entrée / F5",
    "Ctrl+Enter / F5",
];

// Spelled out rather than "↑ / ↓": egui ships Ubuntu-Light plus two emoji
// fonts, none of which covers U+2191/U+2193, so the arrows rendered as
// tofu boxes. Words also match the rest of this table, which names its keys
// ("Tab", "Home / End") rather than drawing them.
pub const GUI_SHORTCUT_LIST_MOVE: [&'static str; 3] = [
    "Up / Down",
    "Haut / Bas",
    "Op / Ned",
];

pub const GUI_SHORTCUT_LIST_ENDS: [&'static str; 3] = [
    "Home / End",
    "Début / Fin",
    "Home / End",
];

pub const GUI_SHORTCUT_LIST_RUN: [&'static str; 3] = [
    "Enter",
    "Entrée",
    "Enter",
];

pub const GUI_SHORTCUT_LIST_RENAME: [&'static str; 3] = [
    "F2",
    "F2",
    "F2",
];

pub const GUI_SHORTCUT_LIST_DELETE: [&'static str; 3] = [
    "Delete",
    "Suppr",
    "Delete",
];

pub const GUI_SHORTCUT_FIND: [&'static str; 3] = [
    "Ctrl+F",
    "Ctrl+F",
    "Ctrl+F",
];

pub const GUI_SHORTCUT_HELP: [&'static str; 3] = [
    "F1",
    "F1",
    "F1",
];

pub const GUI_SHORTCUT_ESCAPE: [&'static str; 3] = [
    "Esc",
    "Échap",
    "Esc",
];

pub const GUI_SHORTCUT_CYCLE_PANELS_DESC: [&'static str; 3] = [
    "Move focus between panels",
    "Déplacer le focus entre les panneaux",
    "Flyt fokus mellem paneler",
];

pub const GUI_SHORTCUT_RUN_DESC: [&'static str; 3] = [
    "Run the current request",
    "Exécuter la requête courante",
    "Kør den aktuelle anmodning",
];

pub const GUI_SHORTCUT_SAVE_DESC: [&'static str; 3] = [
    "Save the current document",
    "Enregistrer le document courant",
    "Gem det aktuelle dokument",
];

pub const GUI_SHORTCUT_SAVE_AS_DESC: [&'static str; 3] = [
    "Save to a new file",
    "Enregistrer dans un nouveau fichier",
    "Gem i en ny fil",
];

pub const GUI_SHORTCUT_CLOSE_TAB_DESC: [&'static str; 3] = [
    "Close the active tab",
    "Fermer l'onglet actif",
    "Luk den aktive fane",
];

pub const GUI_SHORTCUT_UNDO_DELETE_DESC: [&'static str; 3] = [
    "Restore the last deleted request",
    "Restaurer la dernière requête supprimée",
    "Gendan den senest slettede anmodning",
];

pub const GUI_SHORTCUT_LIST_MOVE_DESC: [&'static str; 3] = [
    "Move the selection up or down",
    "Déplacer la sélection vers le haut ou le bas",
    "Flyt markeringen op eller ned",
];

pub const GUI_SHORTCUT_LIST_ENDS_DESC: [&'static str; 3] = [
    "Jump to the first or last request",
    "Aller à la première ou à la dernière requête",
    "Hop til den første eller sidste anmodning",
];

pub const GUI_SHORTCUT_LIST_RUN_DESC: [&'static str; 3] = [
    "Run the selected request",
    "Exécuter la requête sélectionnée",
    "Kør den valgte anmodning",
];

pub const GUI_SHORTCUT_LIST_RENAME_DESC: [&'static str; 3] = [
    "Rename the selected request",
    "Renommer la requête sélectionnée",
    "Omdøb den valgte anmodning",
];

pub const GUI_SHORTCUT_LIST_DELETE_DESC: [&'static str; 3] = [
    "Delete the selected request",
    "Supprimer la requête sélectionnée",
    "Slet den valgte anmodning",
];

pub const GUI_SHORTCUT_FIND_DESC: [&'static str; 3] = [
    "Find in the report source",
    "Rechercher dans la source du rapport",
    "Søg i rapportens kilde",
];

pub const GUI_SHORTCUT_HELP_DESC: [&'static str; 3] = [
    "Show this shortcuts overlay",
    "Afficher cet aperçu des raccourcis",
    "Vis denne genvejsoversigt",
];

pub const GUI_SHORTCUT_ESCAPE_DESC: [&'static str; 3] = [
    "Close a dialog or overlay",
    "Fermer une boîte de dialogue ou un aperçu",
    "Luk en dialog eller oversigt",
];

pub const GUI_MENU_HELP: [&'static str; 3] = [
    "Help",
    "Aide",
    "Hjælp",
];

pub const GUI_MENU_HELP_KEY: [&'static str; 3] = [
    "H",
    "I",
    "H",
];

// Workspace-tree Rename / Delete of a file or folder (graphical UI). Kept
// apart from the request Rename/Delete labels because these act on a file on
// disk, not on a request inside one, and both raise a dialog first (a rename
// box, a delete confirmation), hence the ellipsis on each.
pub const GUI_WS_RENAME: [&'static str; 3] = [
    "Rename…",
    "Renommer…",
    "Omdøb…",
];

pub const GUI_WS_DELETE: [&'static str; 3] = [
    "Delete…",
    "Supprimer…",
    "Slet…",
];

pub const GUI_WS_DELETE_TITLE: [&'static str; 3] = [
    "Delete from disk",
    "Supprimer du disque",
    "Slet fra disken",
];

pub const CONFIRM_DELETE_WS_FILE_Q: [&'static str; 3] = [
    "Delete '{name}' from disk? Deleting a file from disk can't be undone.",
    "Supprimer «\u{a0}{name}\u{a0}» du disque\u{a0}? La suppression d'un fichier du disque est irréversible.",
    "Slet '{name}' fra disken? Sletning af en fil fra disken kan ikke fortrydes.",
];

pub const CONFIRM_DELETE_WS_FOLDER_Q: [&'static str; 3] = [
    "Delete the folder '{name}' and the {n} files inside it from disk? Deleting a folder from disk can't be undone.",
    "Supprimer le dossier «\u{a0}{name}\u{a0}» et les {n} fichiers qu'il contient du disque\u{a0}? La suppression d'un dossier du disque est irréversible.",
    "Slet mappen '{name}' og de {n} filer i den fra disken? Sletning af en mappe fra disken kan ikke fortrydes.",
];

pub const CONFIRM_DELETE_WS_UNSAVED: [&'static str; 3] = [
    "There are unsaved edits here that will be lost.",
    "Des modifications non enregistrées ici seront perdues.",
    "Der er ugemte ændringer her, som vil gå tabt.",
];

pub const WS_ITEM_RENAMED: [&'static str; 3] = [
    "Renamed to '{name}'.",
    "Renommé en «\u{a0}{name}\u{a0}».",
    "Omdøbt til '{name}'.",
];

pub const WS_ITEM_RENAME_EXISTS: [&'static str; 3] = [
    "There is already a '{name}' — nothing renamed.",
    "Il y a déjà un «\u{a0}{name}\u{a0}» — rien n'a été renommé.",
    "Der er allerede en '{name}' — intet omdøbt.",
];

pub const WS_ITEM_DELETED: [&'static str; 3] = [
    "Deleted '{name}'.",
    "«\u{a0}{name}\u{a0}» supprimé.",
    "'{name}' slettet.",
];

pub const WS_ITEM_DELETE_ROOT: [&'static str; 3] = [
    "The workspace folder itself can't be deleted.",
    "Le dossier de l'espace de travail lui-même ne peut pas être supprimé.",
    "Selve arbejdsområdemappen kan ikke slettes.",
];

} // verus!
