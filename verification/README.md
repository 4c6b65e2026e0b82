# xcm

Decode and inspect XCM messages (versions 3, 4 and 5).

A hex-encoded message is decoded into a version-agnostic summary: its version,
its instruction count, its encoded length, and every instruction as a name plus
a table of labelled lines (assets, locations, weights, nested programs, ...).

Layout:

- `src/` — the verified library (Verus). `text` renders numbers and amounts,
  `util` renders bytes (hex previews, summaries, UTF-8 text), `params` is the
  sorted table of labelled lines, `types` the summary types, `v3`/`v4`/`v5` the
  program models and their formatters, `scale` the SCALE decoding with
  `staging_xcm` and the conversion of its values into the model (trusted, not
  verified), `decode` the hex step, the choice between a versioned and a bare v5
  program, and the summary, `report` the layout of the printed reports,
  `commands` the CLI commands.
- `tests/` — tests on concrete values.
- `app/` — the command-line program: argument parsing, the demo message built
  with `staging_xcm`, and printing.
