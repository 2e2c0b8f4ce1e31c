# better_than_you

A terminal face-battle tool: two portraits are scored across ten aesthetic
axes, a winner is declared, and the result is written as HTML and JSON
reports that can be served on the local network or shared publicly.

## Layout

- `src/` is the verified library. Every function in it carries a `requires` /
  `ensures` contract that Verus proves. It holds the decisions and text
  processing of the tool: report naming and pruning plans, version
  comparison, slugs, HTML escaping, the assembly of the HTML report and the
  public share page (the battle's texts escaped, with a proof that the report
  holds no `<script` unless the portraits' data URLs bring one),
  source-path and data-URL handling, share links and captions, terminal
  layout, the menu and key-handling state machines, publish configuration and
  the upload order, and the translation tables. Calls into `urlencoding`,
  `sha2` and `qrcode` stand behind small trusted wrappers whose contracts are
  documented where they are declared.
- `app/` is the program around the library: argument parsing, the TUI event
  loop, image decoding and the floating-point heuristic scorer, HTTP calls to
  the vision-model providers and upload hosts, the local report server, and
  file I/O. It hands plain values to the library and acts on what comes back.
- `tests/` runs the library on concrete inputs, including concrete cases of the laws
  proved in `src/`.
