# component_cli

The logic of `component`, a command line for WebAssembly components,
written in Verus. The functions in `src/` carry contracts that Verus
proves, except the small trusted wrappers around other crates and a few
standard-library functions, whose contracts are assumed (see below).

## Layout

- `src/` — the verified library.
  - `run_input`, `run_plan`, `run_resolve`: how `component run` reads its
    command line, where the bytes of a component come from, which
    permissions the flags grant and how a component is launched.
  - `wasm`, `internal_run`: what the sections of a Wasm binary say — whether
    it is a component and which interfaces its outermost component exports.
  - `local`: the table `component local list` prints.
  - `inspect`: the summary and details tables of a binary's metadata, from
    the bytes `wasm-metadata` parses.
  - `install`, `progress`: what an install records in the manifest and
    lockfile, and the bookkeeping behind its progress display.
  - `search`, `registry_report`, `publish`: the registry subcommands —
    search and its narrowing by text, tag listings and messages, and the
    prefilled registry-entry issue.
  - `http_client`: the decisions of the client behind guest HTTP requests.
  - `errors`: the messages, codes and help texts of the CLI's errors.
  - `frontend`: server-rendered pieces of the package site (escaping,
    listings, package rows, highlight columns, form controls, switchable tab panels, the
    header's theme menu and search palette) and a pretty-printer for the
    markup they produce.
  - `text`: verified string primitives the rest builds on.
- `tests/` — tests of the library on concrete values.
- `app/` — the program around the library: argument parsing, files, the
  browser and the terminal.

Calls into other crates (`wasmparser`, `comfy-table`, `bytesize`,
`console`) and a few standard-library functions go through small trusted
wrappers whose contracts state what those crates document; each says in its
doc comment what is assumed.
