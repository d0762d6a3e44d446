# slate

A personal task tracker for the terminal: a three-column kanban board
(Todo, In Progress, Done) with vim-style keys, stored in SQLite.

- `src/` is the board logic, with its contracts and proofs: statuses and priorities
  (`model`), the columns and the selection (`app`), what each key does and
  which write to storage it asks for (`event`), what cards, columns and the
  status bar show (`ui`, `theme`), and character-level text helpers (`text`).
- `app/` is the terminal program around it: it opens the database, draws
  with ratatui, reads keys, performs the writes that the board asks for and
  hands the columns it reads back to the board.
- `tests/` exercises the library on concrete boards.
