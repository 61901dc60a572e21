# focus_tasks

The verified core of a tray task tracker (a Tauri desktop app): tasks live in
four lists (urgent, daily, weekly, backlog) stored in SQLite; completed urgent
tasks are purged after a retention period, daily and weekly tasks are reset at
the start of each day or week.

- `src/` — the library, verified with Verus:
  - `text` — whitespace trimming and string comparison (`str::trim` semantics);
  - `title` — validation of task titles;
  - `task_list` — the lists and their stored names;
  - `settings` — defaults, validation and partial updates of the settings;
  - `calendar` — calendar dates over `chrono`, the retention cutoff, the
    Monday that starts a week, and the order of `YYYY-MM-DD` texts;
  - `ordering` — where a moved task goes, rebalancing of positions, and the
    bounded retry of a move;
  - `schema` — the upgrade plan of the `tasks` table;
  - `panel_layout` — placement of the panel at the right edge of a monitor;
  - `tray` — tray menu entries.
- `app/` — the Tauri application around the library: windows, tray, global
  shortcut, autostart, SQLite queries, the clock and `settings.json`.
- `tests/` — tests of the library.
