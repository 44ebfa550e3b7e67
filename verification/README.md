# camlet

The verified core of Camlet, a floating camera overlay, written in Verus.

- `src/` is the library. Every function in it but the trusted items named below carries a
  contract that Verus proves:
  settings documents and their recovery (`settings`, `json`), appearance and themes
  (`appearance`), window geometry (`geometry`, `window_sync`), product state (`state`),
  camera sources and the capture worker's decisions (`camera`, `backend`, `worker`),
  automation scenarios (`automation`), the command line (`cli`), screenshot checks
  (`screenshot`), the diagnostics summary (`diagnostics`), settings write-back
  (`persistence`), the cascade of context-menu windows (`menu_windows`) and what the
  overlay shows and how input reaches it (`presentation`, `menu`, `language`, `renderer`,
  `gpu_overlay`).
- Laws that relate several operations stand as public proof functions beside the
  functions they speak of, named `lemma_*`.
- The trusted items are the calls into `serde_json` (in `src/json.rs`) and into
  `str::to_lowercase` (in `src/backend.rs`), each with a doc comment that says what is
  assumed of it.
- `tests/` runs the library on concrete values.
- `app/` is the program around the library: command-line entry, files and profile
  directories, the camera thread and the floating-point reference renderer.
