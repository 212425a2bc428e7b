# operator_console

The operator console for Sabi trading workflows: a terminal interface over
exchange snapshots, the OddsMatcher feed, alert settings and browser-driven
trades.

- `src/` is the library, verified with Verus: market and selection name
  matching, the loading state of refreshed resources, alert fields and the
  reading of typed values, colour themes, keyboard navigation, the requests
  sent to OddsMatcher and to the recorder worker, file locations, and the
  step-by-step flow of a trade placed on Smarkets.
- `tests/` exercises the library on concrete values.
- `app/` is the program around it: the terminal loop, logging, the alert
  settings file, the HTTP call to OddsMatcher, the `agent-browser` tool,
  and everything that handles floating-point stakes and prices.
