# Verba

Verba translates and proofreads text selected in any macOS application. This crate holds
its domain logic, written in Verus. Verus checks every function in `src/` against its
`requires` and `ensures`; a few state nothing of their result, such as the cancellation
token's, whose flag other threads change. Properties that span several functions are
stated and proved as public proof functions whose names begin with `law_`.

## Layout

- `src/` — the verified library.
  - `coordinator.rs`: the shortcut workflow as a state machine (duplicate shortcuts,
    replacement of an active request, stale results, cancellation, the proofreading
    disclosure). `coordinator_runs.rs` states what holds across whole runs of it: a
    replaced request is never shown again, and each request's milestones come in order.
  - `capture_order.rs`: one selection capture at a time; a waiting request starts only
    while it is still the one in progress.
  - `selection_capture.rs`, `pasteboard.rs`, `accessibility.rs`: capturing a selection
    through a synthetic copy, snapshotting and restoring the clipboard, and the
    accessibility checks that refuse secure fields. The capture and the clipboard
    replacement are state machines driven by the platform's answers. A capture returns
    the selection alone; the language context of the focused element is read separately.
  - `translation.rs`, `proofreading.rs`, `validation.rs`, `processing.rs`: the text
    actions, the language identifiers and the layout policy a correction must keep.
  - `openai.rs`, `endpoint.rs`: what the proofreading client decides on requests and
    replies (limits, statuses, error mapping, the endpoint URL).
  - `shortcut.rs`, `shortcut_text.rs`, `shortcut_settings.rs`, `keycodes.rs`,
    `hot_keys.rs`: shortcuts, their stored text form, their display, and the hot-key
    registry.
  - `settings.rs`, `secrets.rs`, `preferences.rs`, `api_key_settings.rs`: preferences and
    the API key store.
  - `presentation.rs`, `failure_presentation.rs`, `view_model.rs`, `runtime.rs`: what the
    popup shows.
- `tests/` — tests of the library on concrete values.
- Most platform services are traits whose methods say which answers they may give
  (`gives_*`, `loads`, `saves` and the like, with "any answer" as the default). These
  are the clipboard, the accessibility reader and status, the keychain and secret store,
  the preferences and settings stores, the consent store and gate, the API key provider,
  the shortcut and hot-key registries, the translator and the proofreader. Functions that
  call them state their results in terms of the answers they got. The capture,
  presentation and metrics traits carry no such predicates; the functions that call them
  state what holds whatever the service answers.
- `app/` — the platform layer that Verus does not see: the FFI bindings, the HTTP
  transport, the threaded workflow runtime and the AppKit, Carbon and Keychain adapters.
