# bmregression

A regression-testing driver for projects whose builds produce files. Each
regression lives in a directory of a data repository with a `config.yaml`
(`regbase`, `sourcedata`, `targetdata`, `regcommand`, optional `tags`); the
driver runs the command in the example directory and compares, resets or
diffs the produced file against the stored one.

- `src/` is the verified library: tag specifications and entry selection
  (`text`, `selection`, `tags`), the YAML mirror and configuration reading
  (`yaml`, `config`), the state machine of one regression (`session`), the
  report lines (`report`), the overall result of a command over several
  regressions (`batch`), and a model of files and deterministic commands in
  which laws across commands are proved (`world`).
- `app/` is the command-line program: argument parsing, cloning, directory
  walking, and the file and process work that sessions ask for.
- `tests/` exercises the library on concrete values.
