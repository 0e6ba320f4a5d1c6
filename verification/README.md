# baler

A bundler and installer for R `{box}` modules, with its decisions written in
Verus and proved against their contracts.

- `src/` is the verified library: the command line (`cli`), the manifest
  (`baler_toml`), the archive layout (`formats::tar`), install requests and
  GitHub sources (`ops::install`, `ops::github`), transitive module
  resolution (`ops::module_graph`), bundling (`ops::bundle`) and native
  builds (`ops::compile`, `ops::native`). Calls into `clap`, `walkdir` and
  `std::path` sit behind small trusted wrappers whose contracts say what the
  library relies on.
- `app/` is the `baler` binary: it reads and writes files, downloads, parses
  TOML, and runs what the library planned.
- `tests/` exercises the library from outside.
