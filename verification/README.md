# bexo_services

The decision logic of the Bexo Studio desktop services, written in Verus and
proved against its contracts: preferences (validation, repair, patching,
migration, the update with its rollback), hotkey bindings and prompt quick
paste, autostart registry commands, Codex auth and history (credentials,
quota outcomes, session listing, paging messages from the end of a file),
restore planning and snapshots, OSS objects and resumable transfers, prompt
file import and export checks, and the lifecycle of the native preview and
interaction windows.

Layout:

- `src/` — the verified library. Each module states its model with spec
  functions, and the public functions carry `requires`/`ensures` over it.
  Properties that span several functions are public proof functions whose
  names start with `law_`. Calls into other crates (`chrono`, `uuid`,
  `sha2`, `reqwest`) and the few std calls without a vstd specification go
  through small `#[verifier::external_body]` wrappers whose contracts say
  what is assumed of them.
- `tests/` — tests on concrete values, run against the compiled library.
- `app/` — the unverified shell: file reading and writing, JSON parsing into
  the library's `JsonValue`, the HTTP quota query, the serialisable forms of
  the records handed to the user interface, and the floating-point drawing
  of shape annotations (whole-pixel rectangles go through the library).

Interaction with the outside world follows one pattern: the library says
what to do next and the caller does it and reports back. `MessagePageScan`
names the chunk to read, takes its bytes, and hands out the lines to parse;
`next_upload_action` and `next_download_action` name the next request of a
resumable transfer; `PreferencesUpdate` names the next side effect of a
preference update and how to roll it back. The shell in `app/` drives
history paging, prompt files and the quota query this way; transfers,
registry writes and hotkey registration need the desktop runtime and are not
part of it.
