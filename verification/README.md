# PaperBoy

The core of an API client that keeps its requests as [Hurl](https://hurl.dev)
text: the request model, reading and writing Hurl files, commented JSON bodies,
what comes of a run, and the notices shown to the user. It is written in Verus,
and every function of the library carries a contract that Verus proves.

## Layout

`src/` is the library.

| Modules | What they hold |
| --- | --- |
| `entry`, `rows`, `params`, `request` | the request model, and what a row, a name or a request can carry |
| `writer`, `base64_text` | requests as Hurl text |
| `hurl_ast`, `shape`, `walk`, `unfinished` | what Hurl's own parser makes of a text, in plain values |
| `source`, `order`, `comment_scan`, `parser` | requests read from a parsed file and its lines |
| `body_notes`, `adopt` | bodies that were authored with comments |
| `json`, `json_comments`, `json_format` | JSON bodies: their comments and their layout |
| `result`, `decode`, `run`, `run_output` | what the runner reports, and what is made of it |
| `stage` | the files that form fields name |
| `i18n`, `strings`, `status`, `launch` | languages, notices, and the command line |
| `text` | texts and their lines |

What holds of the library as a whole is proved in the modules whose names end in
`_laws`, and in `json_layout`, `json_settle` and `json_kept`. `file_laws` has the
central one: a collection that is written to a file is read back as it was.

A call into another crate stands behind a small function whose contract Verus
takes on trust; its doc comment names the function it calls and says what is
claimed of it. They are in `hurl_ast` (`hurl_core`), `decode` (`hurl`), `json`
(`serde_json`) and `base64_text` (`base64`); a few functions of the standard library
are treated the same way where they are used.

`libxml` is not called: `hurl` and `hurl_core` depend on it, and it is held at a
version whose bindings come with it, so that building them needs no `libclang`.

`app/` is the program around the library: the command line, files, and Hurl's
runner. `tests/` runs the library on concrete values.
