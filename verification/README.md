# xcrelease

Release automation for Xcode projects with Sparkle updates: archive, export,
build a disk image, notarize and staple it, generate the appcast and mirror the
release folder to an update server.

- `src/` is the verified library (Verus). It reads `.deployment` settings
  (`KEY=VALUE` lines with `${NAME}` references), validates them, reads and
  bumps `x.y.z` versions, computes the names, paths, scripts and command
  lines of the release and disk-image steps, and holds the step order as
  state machines (`ReleaseStage`, `DmgStage`) whose failures stop the run. It
  also fixes what a dry run shows instead of running a command and the output
  it takes such a command to have printed.
- `app/main.rs` is the command line around it: argument parsing (clap),
  shell completions (clap_complete), files, processes, progress messages,
  and driving the state machines.
- `tests/` exercises the library on concrete inputs.
