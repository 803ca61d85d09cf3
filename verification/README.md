# pexliformation

A desktop tool that turns a Rust smart contract (a single `.rs` file, a
`Cargo.toml`, or a Cargo project folder) into an SBF program (`.so`) with
`cargo build-sbf`, and reports the program's location, size and SHA-256.

Layout:

- `src/` — the verified library (Verus):
  - `path.rs`: paths as component lists with the text written around each
    component, made from a path's text and its components; join, parent,
    file name, stem, extension and the text shown, with their laws.
  - `text.rs`: hexadecimal and decimal rendering, Unicode trimming, first
    line, character replacement.
  - `digest.rs`: SHA-256 (through `sha2`) in lower-case hexadecimal.
  - `preview.rs`: which file previews a selection, and the preview cut.
  - `toolchain.rs`: finding `cargo-build-sbf`, the toolchain report, the
    one-click set-up as a step machine, the search for the bundled host
    `cargo` and the check of the folder tree it is given.
  - `converter.rs`: the conversion as a step machine (toolchain, input
    classification, throw-away project, build, output selection, copy and
    report), with its invariant and laws.
- `tests/` — tests of the library on concrete values.
- `app/` — the Tauri application: commands, file system, processes and log,
  driving the library's step machines.
