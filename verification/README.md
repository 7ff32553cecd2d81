# taskoto

A command line tracker of tasks and projects, with its decisions verified by
Verus.

- `src/` is the verified library.
  - `calendar`: days as numbers (chrono's `num_days_from_ce`), and the
    chrono and std calls that read the clock, name weekdays and years, add
    days, read and write dates and lower-case text.
  - `config`: the configuration and its eleven date formats.
  - `project`, `task`: projects and tasks; dates, status, urgency (an exact
    fraction), state words, filters, table cells, sorting by urgency, and
    the laws these keep.
  - `table`: task and project tables, drawn by tabled.
  - `parser`: the commands, each from what was read from the database to
    what is to be written and the message to print.
  - `taskoto`: the step a command line asks for, and the styles of the
    printed rows, painted by ansi_term.
- `app/` is the program: command line parsing (clap), the SQLite database
  (rusqlite, serde_rusqlite), the configuration file (toml, home) and
  printing.
- `tests/` runs the library on concrete values.
