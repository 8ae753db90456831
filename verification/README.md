# herdr_jira_worktree

A Jira pane for [herdr](https://herdr.dev): browse issues through JQL filters,
change their status, hand an issue to an AI agent running in herdr, or check
it out into a git worktree. The logic is a Verus library whose behaviour is
stated in `requires` / `ensures` contracts and proved.

## Layout

- `src/` — the verified library.
  - `text.rs`, `branch.rs`, `naming.rs`, `issue.rs` — string handling,
    branch-name sanitizing (proved to yield a valid git ref), placeholder
    templates and the delegation prompt.
  - `config.rs` — configuration types, their defaults and token resolution.
  - `json.rs`, `herdr.rs` — herdr CLI answers (JSON through `serde_json`) and
    what is read out of them.
  - `flows.rs` — herdr command sequences (create a tab, open or create a
    worktree, start an agent, wait until it is ready, deliver a prompt) as
    state machines: each step names the command to run or the pause to take,
    and each answer decides the next step.
  - `keyed.rs` — small keyed maps and sets with first-match lookup.
  - `pane.rs`, `pane/` — the interactive browser: its state, what each key
    and each answer does to it, and the work it queues for the caller.
- `app/` — the program around the library: terminal I/O (crossterm,
  ratatui), reading the config file (serde, toml), running `herdr` and
  timing the state machines.
- `tests/` — tests of the library on concrete values.
