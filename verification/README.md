# Recentry

Recentry is a small launcher for recent VS Code projects: a background host
owns the configuration, the hotkey and the UI process, and the launcher lists
the projects VS Code recently opened, filters them as the user types and opens
the chosen one (focusing its window when it is already open).

The library in `src/` is verified with Verus. It holds the logic:

- `recent`, `json`, `urls`: reading VS Code's recent-project list.
- `ranking`, `sort`, `launcher`: identity keys, deduplication, search and the
  launcher's list state.
- `layout`, `paths`, `install`, `provider`: where VS Code lives and stores its
  data, which installation an executable belongs to, and the provider's report.
- `opener`: the command line that opens or focuses a project.
- `protocol`, `ipc`, `format`: configuration, messages, endpoint names, the
  length-prefixed frame and owner-only checks of the local transport.
- `host`, `coordinator`, `startup`, `ui`: the host runtime, UI supervision,
  invocation and tray decisions, and the launcher window's decisions.

`app/` is the Unix host program around it: sockets, files, SQLite, child
processes and JSON encoding.
