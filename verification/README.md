# rdg

A terminal interface for deploying selected files and folders of a Git
repository with `rsync`: it shows the repository tree coloured by Git state,
previews Git diffs, runs a checksum dry run against the destination before
every deploy, and deploys only what that dry run showed.

## Layout

- `src/` is the library, verified with Verus:
  - `app.rs`: the whole state of the interface and every action on it
    (cursor and scrolling, selection, the command line, reloads, dry runs and
    deploys). Work that needs Git, rsync or the disk is recorded as a pending
    request; its outcome comes back through the `apply_*` methods.
  - `input.rs`: what key presses, clicks, wheel turns and file-watcher events
    do to the state.
  - `command.rs`, `keymap.rs`: the `:` command line and the key bindings.
  - `git.rs`, `tree.rs`, `path_order.rs`: `git status` parsing, the repository
    tree, folder states and the tree order of paths.
  - `rsync.rs`: planning rsync runs, reading their itemized output, and the
    reports and content diffs the panes show.
  - `theme.rs`, `view.rs`, `layout.rs`: colours and styles, what each pane
    shows, and where the panes lie.
  - `watcher.rs`: which file-system events call for a reload.
  - `text.rs`: character-sequence helpers.
- `app/` is the program around it: command-line arguments, running Git,
  rsync and `diff`, walking the repository, the file watcher, and drawing
  with ratatui.
- `tests/` holds the tests.
