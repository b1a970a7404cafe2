# mini_term

The decision logic of the mini-term desktop app's companion-terminal and
hook-server features, verified with Verus.

- `src/hook_server.rs` — per-PTY hook state (last report time and state,
  server port), mapping of hook events to PTY states, how a hook request is
  answered, the ports the server tries and the port file it writes.
- `src/external_terminal.rs` — which open terminal window is the companion,
  how a project's tab is brought up (focus an open tab or open a new one),
  the terminal command arguments, and the dock state.
- `src/titles.rs` — the project-to-title map and the rule that picks a new
  tab title (`name`, else the first free `name(k)`).
- `src/dock.rs` — geometry of snapping the app window beside the terminal
  and of keeping the two side by side when either moves.
- `src/text.rs` — character-level string helpers and decimal rendering.

`app/` holds what Verus does not see: the Tauri commands, the HTTP server
thread, the Windows UI Automation and Win32 calls, the `wt` process calls and
the dock monitor thread. It performs the I/O and asks the library what to do.
