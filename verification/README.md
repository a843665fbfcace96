# opencode_draft

Verified core of the OpenCode provider editor of a terminal configuration tool:
the provider draft (models keyed by id, current-model fallback, rename, save
validation), its conversion to and from the provider's settings document, the
helpers that read and update `opencode.json`, how a stored provider fills the
add/edit form, and the key handling and view decisions of the model list and
model detail pages.

- `src/` is the library, checked by Verus. JSON documents are modelled by
  `json::JsonValue` (ordered objects); `indexmap` holds the draft's models behind
  trusted wrappers in `provider.rs`. Laws that span several operations are the
  public proof functions in `draft_laws.rs`, `settings_laws.rs`,
  `reload_laws.rs` and `config_laws.rs`.
- `app/` locates, reads and writes `opencode.json` with `serde_json` and hands the
  library plain values; `app/model_pages.rs` runs the model pages' key steps.
- `tests/` runs the library on concrete inputs.
