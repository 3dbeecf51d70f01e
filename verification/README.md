# dsh_desktop

The desktop shell around `dsh web`: a Tauri window with three WebViews, a
loopback control plane on `127.0.0.1:45331`, and the packaged backend's
update flow.

The decisions are a Verus-verified library (`src/`):

- `semver` / `ordering` — version parsing, the release order and the
  `>=` requirement check (fails closed on anything unparseable).
- `backend` — which backend runs (`DSH_BIN`, a custom dsh dir from the
  settings, the packaged launcher, a sibling shim, `PATH`, else first-run
  setup) and how it is started and asked for its version, its pre-flight,
  the startup line, compatibility labels for every source, git output
  handling, the updater's status toast.
- `update` — the update check as a state machine (the shell runs each git
  step and hands back the outcome), upgrade refusals, updater command line.
- `control` — request head parsing, routing, panel identity, rect gating,
  window actions, download-folder settings, the reveal guard (paths resolved
  lexically first), response heads.
- `filename` — the filename sanitizer and download naming.
- `platform` — where shell state lives (portable or per-user) and the
  generated script names.
- `pages` — the injected toasts, menu and title-bar page.
- `text`, `json` — string operations with specs, and `serde_json` reads.

`app/` is the executable: sockets, processes, files, WebViews and the
floating-point window geometry. `tests/` runs the library on concrete
values.
