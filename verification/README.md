# llama_rgui

The logic of a desktop launcher for `llama-server` (llama.cpp), written in
Verus: every function under `src/` carries a contract, and Verus proves each
one except the few `#[verifier::external_body]` wrappers around outside
calls (`String::from_utf8_lossy`, `str::to_lowercase`, `uuid`'s `new_v4`,
and `serde_json` field lookups) and the specification given to
`String::push`. Their contracts are trusted, stated from those functions'
documentation and source, and everything else is proved on top of them.

- `src/gguf/` reads the header of a GGUF model file. `format.rs` states the
  file format as spec functions over the file's bytes; `reader.rs` is a
  resumable reader that asks its caller for one read or seek at a time;
  `laws.rs` proves that answering it from a file gives the header the format
  defines for that file.
- `src/meta.rs`, `src/quant.rs` turn a header into model metadata.
- `src/vram.rs` estimates the memory a model needs under a launch preset.
- `src/schema.rs` holds the configuration and its defaults; `src/spawn.rs`
  builds the server's command line from a preset.
- `src/models.rs` decides what a library scan lists, merges duplicates and
  orders the results.
- `src/version.rs` reads the server's version output and compares it with the
  latest release.
- `src/status.rs`, `src/supervise.rs`, `src/logs.rs` cover the server's life:
  pre-launch checks, readiness wait, exit detection, stopping, and the
  bounded log buffer.
- `src/error.rs` holds the error type and its messages.

`app/` is the desktop shell around the library (Tauri commands, files,
processes, network); it performs the reads, probes and signals the library
asks for. `tests/` runs the library on concrete values.
