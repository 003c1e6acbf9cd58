# preflight

The terminal client of a todo planner whose central idea is that "doing
today" is a row in a per-day plan, not a flag on a todo. The client talks to
the planner's GraphQL backend; its state, key handling, views and the jobs
that talk to the backend are a library verified with Verus.

## Layout

- `src/` — the verified library.
  - `app.rs` — the client state (`App`), its views, modes and toasts, and
    the actions it queues for the backend.
  - `input.rs`, `nav.rs`, `sidebar.rs`, `form.rs`, `keys.rs`, `edit.rs` —
    key handling: global keys, each view's navigation, the one-line inputs,
    the side panel's edit and create forms, and UTF-8 caret editing.
  - `msg.rs` — how the state takes in what backend work reports.
  - `jobs.rs` — an action as a job: the backend calls it makes, in order,
    and the messages each reply turns into.
  - `views.rs`, `lists.rs`, `screen.rs`, `overlay.rs`, `bars.rs`,
    `theme.rs` — what each view, panel, overlay and bar shows, as styled
    runs of text.
  - `gql.rs` — the backend's data types; `commands.rs`, `pick.rs` — the
    command palette and the link pickers; `dates.rs`, `text.rs` — dates
    and text helpers over chrono and std.
  - `startup.rs` — the configuration path, the endpoint, and the initial
    state from the backend's clock and first fetch.
  - `config.rs`, `remote.rs`, `provider.rs` — the backend's configuration
    rules, paging through a remote provider, and the sync cursor decisions.
- `tests/` — tests run against the compiled library.
- `app/` — the program: endpoint resolution, the HTTP client, decoding
  replies, drawing with ratatui and the event loop.
