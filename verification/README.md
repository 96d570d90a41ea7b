# zsm

The state machine of a zellij session-manager plugin, verified with Verus.

The plugin lists the running zellij sessions, the sessions that can be
resurrected and the directories that zoxide knows, lets the user search the
list, switch to a session, delete one, or start a new session in a
directory under a free numbered name.

* `src/` is the library. Every function has a contract over the model in
  `src/model.rs`; key presses are handled by `PluginState::handle_key`, which
  returns the commands for the host instead of calling it; the answers of
  the file picker and of the zoxide query go through
  `handle_pipe_message` and `handle_command_result`.
  - `text.rs`: character-level helpers (prefixes, subsequences, UTF-8 length,
    `u32` parsing, decimal formatting).
  - `key.rs`, `config.rs`, `command.rs`: key presses, configuration, host
    commands.
  - `session.rs`: list entries, running sessions, numbered session names.
  - `zoxide.rs`: zoxide directories, their parsing, and the search.
  - `new_session_info.rs`: the new-session form.
  - `model.rs`, `state.rs`: the plugin's state, its model and its events.
  - `laws.rs`: properties that span several events or functions.
  - `external.rs`: the items of `zellij-tile` and `uuid` that the library uses.
* `app/main.rs` registers the plugin with zellij, converts events into the
  library's types, carries out the returned commands and draws the list.
* `tests/` runs the library on concrete scenarios.
