# earthworm

A terminal UI for managing tmux sessions organised around git projects and worktrees.

The crate is a verified library with a thin program around it.

- `src/` holds the logic, with contracts proved by Verus: the projects and sessions
  (`state`, with laws in `state_laws`), the home screen (`home`, `home_list`, laws in
  `home_laws`), the popups and their forms (`popups`, `form`), key bindings and the main
  loop's decisions (`keybindings`, `control`), error messages (`notification`), reading
  the output of `git worktree list --porcelain` and `tmux list-sessions` and building the
  arguments of every git and tmux command (`git`, `tmux`), and text helpers (`text`,
  `order`).
- `app/` is the program: the terminal (crossterm, ratatui), the event loop, the git and
  tmux processes, and the state file (serde, serde_json).
- `tests/` runs the library on concrete values.

Key bindings are those of the table below; `earthworm --version` prints the data
directory, where `state.json` keeps the projects and sessions across restarts.

| Key       | Action                     |
| --------- | -------------------------- |
| `j` / `k` | Move down / up             |
| `gg` / `G`| Jump to top / bottom       |
| `/`       | Start search               |
| `n` / `N` | Next / previous match      |
| `Space p` | New project                |
| `Space s` | New session                |
| `Space a` | Attach to selected session |
| `Space e` | Edit selected item         |
| `Space d` | Delete selected item       |
| `?`       | Show help                  |
| `q`, `Ctrl-c` | Quit                   |
| `Ctrl-z`  | Suspend                    |
