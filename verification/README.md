# inf_wasi

Verified core of the inf-wasi tooling, which generates a WebAssembly
configuration component for a model and a prompt and composes it with
prebuilt engine and inference components.

- `src/` — the library, verified with Verus: the generator's file templates,
  build plan and paths (`templates`, `plan`, `paths`, `gen_config`,
  `build_type`), the workspace manifest edit through `toml_edit`
  (`manifest`), and the `wasi-nn` requests and answers of the engines (`nn`, `options`,
  `engine`, `openvino_engine`, `inf`, `inference`, `config`), plus the
  argument and request types of the command line and web front (`cli`,
  `api`, `binaryen_tool`).
- `app/` — the `wasm-generator` program: argument parsing, the file-system,
  `cargo`, `wit-component` encoding and composition steps, and the web server (`wasm-generator serve`).
- `tests/` — tests of the library on concrete values.
