# lazywt

A git worktree manager for bare repositories, as a verified library and a
thin program around it.

- `src/` is the library, verified with Verus. It holds the parsers (git's
  porcelain formats, `for-each-ref` and `numstat` output, the command line,
  the legacy `key = value` configuration), the rules (layouts, names,
  configuration priority, update checks, matching worktree names) and the
  commands themselves.
- A command does not touch git, the file system or the terminal. It is a
  program of effects (`commands::effects`): given the outcomes of the
  effects it asked for so far, it names the next one, until it finishes.
  Each command's contract is that program, written as a spec function.
- `app/` is the `lazywt` executable: it parses the command line, loads the
  configuration files, and carries out the effects that the commands ask
  for (running `git` and `gh`, reading and changing files, printing in
  colour, prompting, looking up releases).
- `tests/` runs the library: the parsers and rules on concrete values, and
  the commands' programs against scripted outcomes.
