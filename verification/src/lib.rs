//! The core of an API client that keeps its requests as Hurl text: the request
//! model, reading and writing it, and what comes of running it.

pub mod adopt;
pub mod base64_text;
pub mod block_laws;
pub mod body_notes;
pub mod comment_laws;
pub mod comment_scan;
pub mod cursor_laws;
pub mod decode;
pub mod entry;
pub mod file_laws;
pub mod form_laws;
pub mod hurl_ast;
pub mod i18n;
pub mod indent_laws;
pub mod json;
pub mod json_comments;
pub mod json_format;
pub mod json_kept;
pub mod json_layout;
pub mod json_settle;
pub mod launch;
pub mod layout_laws;
pub mod line_laws;
pub mod mark_laws;
pub mod name_laws;
pub mod order;
pub mod outcome_laws;
pub mod params;
pub mod parser;
pub mod path_laws;
pub mod read_laws;
pub mod request;
pub mod request_laws;
pub mod result;
pub mod rows;
pub mod run;
pub mod run_laws;
pub mod run_output;
pub mod scan_laws;
pub mod shape;
pub mod sheet_laws;
pub mod source;
pub mod stage;
pub mod stage_laws;
pub mod status;
pub mod strings;
pub mod text;
pub mod text_laws;
pub mod unfinished;
pub mod walk;
pub mod walk_laws;
pub mod wire_laws;
pub mod write_laws;
pub mod writer;
