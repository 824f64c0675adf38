# a2a

`a2a` asks several Cursor models the same question in parallel through
`cursor-agent`, keeps their answers per consultation, and manages the API
keys (profiles) and model aliases it runs with.

## Layout

- `src/` — the library, verified with Verus: the fallback state machine
  and error classification, prompt front matter, the command-line model,
  profile naming and key checks, model aliases and the catalog parser,
  the `cursor-agent` argument and PowerShell quoting, the reading and
  aggregation of its `stream-json` output (JSON parsing by serde_json),
  consultation history rules, workspace mirror rules, template
  materialisation, and the reports and messages the commands print.
  Fixed help text (the welcome guide, install hints) stays with the
  program.
- `tests/` — tests of the library.
- `app/` — the executable around it: argument parsing (clap), the SQLite
  credential store, processes, files, the async runtime and the terminal.

`a2a init` reads the template bodies from a `templates/` directory next to
the `a2a` executable, laid out as `prompt-template.md`,
`rules/40-a2a-protocol.mdc` and `skill/<name>/SKILL.md`.
