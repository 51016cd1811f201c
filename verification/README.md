# gitbolt

The core of a Git client, written in Verus: the state machine that turns UI
events and finished background work into new state and commands, the parsers
for Git's porcelain output, patch building for partial staging, caches, the
background task queue, and the small text rules around them. Every function
in `src/` is verified against its contract, except five small wrappers around
outside functions whose contracts are trusted:

- `text::push_char` (`String::push`) and `text::to_lowercase`
  (`str::to_lowercase`, its result named `lowercase_of`);
- `cache::share` (`Arc::clone`);
- `app::recent::decode_paths` and `encode_paths` (`serde_json::from_slice`
  and `serde_json::to_vec_pretty`, their results named `recent_json_decode`
  and `recent_json_encode`).

The `GitService` trait is the boundary to the repository on disk: each
operation states its outcomes through a relation its implementation
describes, and the default relation admits every outcome.

Layout:

- `src/app/` — state, events, commands and messages; the reducer (`reduce`,
  `apply`) with its spec model in `transition.rs` and the laws over it in
  `laws.rs`; the executor that runs commands on a `GitService`; feature
  logic (palette, quick open, diff parsing, blame and issue links, pulse).
- `src/git/` — the `GitService` boundary and the parsers and checks for
  branches, blame, history, stash, status, worktrees, patches and remotes.
- `src/cache/`, `src/task/`, `src/perf/`, `src/platform/`, `src/path.rs`,
  `src/text.rs` — caches, the priority queue, sizing and memory readings,
  path components, and text helpers.
- `app/` — the program around the library: the gitoxide- and CLI-backed
  service, the worker threads, the session loop and the files it keeps.
- `tests/` — tests of the library on concrete values.
