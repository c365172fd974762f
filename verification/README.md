# rusttodo-tui

A terminal todo list. The library in `src/` holds the application's state and
rules, verified with Verus; `app/` is the terminal program around it.

- `src/todo.rs`: todo items and priorities.
- `src/app.rs`: the application state, the tab filters, adding, deleting and
  toggling todos, moving the selection, and taking over a stored list.
- `src/input.rs`: what each key does in each input mode.
- `src/laws.rs`: properties that span several operations.
- `app/`: terminal set-up, drawing with ratatui, reading keys with crossterm,
  and storing the list as JSON in `~/.todo-tui.json`.
