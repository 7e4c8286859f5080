# DashTUI

A developer dashboard in the terminal: tasks, a Pomodoro timer, a project
scaffold, code snippets, Git statistics with a conventional-commit changelog,
and a browser for the skills.sh leaderboard.

## Layout

- `src/` — the library, verified with Verus. It makes every decision of the
  dashboard and states it in contracts:
  - `tui/app.rs` — the dashboard's state and what each operation does to it
    (tabs, text input, the Pomodoro timer, selections, search status);
  - `tui/ui.rs` — the texts that the screen shows;
  - `commands/dashboard.rs` — what each key does, and which outside work
    (store, clipboard, repository, network, installer) it asks for;
  - `commands/init.rs`, `commands/templates.rs` — the project scaffold: which
    directories and files each template has, and what they hold;
  - `commands/git_utils.rs` — conventional commits, the changelog, the
    contributor tally, the branches that may be cleaned;
  - `commands/skills.rs` — reading the leaderboard and install commands out of
    skills.sh pages (with `scraper`), filtering, and the installer's arguments;
  - `text.rs` — the string operations the rest is built on.
- `app/` — the program: terminal and drawing (crossterm, ratatui), the SQLite
  store (rusqlite), the clipboard (arboard), repository reads (git2), HTTP
  (ureq), the installer process, and the command line (clap). It performs the
  work the library asks for and hands the results back.
- `tests/` — tests of the library.
