# ark_server_manager

The logic of a manager for ARK: Survival Evolved dedicated servers, verified
with Verus: server profiles, discovery and validation of installations,
the server's command line, status detection and the console buffer, RCON
player lists, SteamCMD scripts and output, build ids, backups and their
retention, crash reports, restart tracking, INI settings and notification
texts.

- `src/` is the verified library. Each module states its functions'
  behaviour in `requires`/`ensures` over spec functions, and proof
  functions named `law_*` state properties that span several functions.
  Calls into `std::path`, `chrono`, `encoding_rs`, `dirs`, `configparser`
  and `regex` go through small trusted wrappers. Where a call's result
  depends on its arguments alone, it is named by an uninterpreted spec
  function; where it depends on the disk, the environment or the order of a
  hash map, the wrapper states only what holds of every outcome (for the
  disk probes and data directories, nothing), and a verified function takes
  the outcome as an argument.
- `app/` is the unverified shell around it: files, processes, network,
  clocks, JSON, system metrics and the floating-point figures (the
  difficulty, download percentage and speed, memory and CPU percentages,
  retry back-off delays).
- `tests/` runs the library on concrete values.
