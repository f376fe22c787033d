# AutoLaunch core

The verified logic of AutoLaunch, a desktop tool that analyses a GitHub
repository, prepares an isolated environment for it and launches it.

- `src/` is the library, verified with Verus: parsing of repository
  references, detection of dangerous commands and trusted repositories,
  Docker configuration, the registry of launched processes and port
  detection, settings, snapshots, project analysis and the project history.
- `tests/` exercise the library with the real outside crates.
- `app/` is the program around it: the command layer, the SQLite history,
  git cloning, Docker and process handling, and the files on disk.
