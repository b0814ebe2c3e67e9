# rafter_widgets

State and decision logic of terminal UI widgets (lists, tables, trees,
selects, autocompletes, date pickers, text inputs, checkboxes, radio groups,
collapsibles, buttons, scroll state and scrollbars), written in Verus with
machine-checked contracts.

## Layout

- `src/` — the verified library. Each module holds a widget's state, the
  functions that update it on user events, and the laws that relate them
  (`law_*` proof functions). Calls into outside crates (`chrono` for the
  calendar, `nucleo-matcher` for fuzzy matching) go through small trusted
  wrappers whose contracts state what those crates document.
- `tests/` — tests on concrete values, run against the compiled library.
- `app/` — code around the library that the verifier does not see: clocks
  and id counters, floating-point values (number inputs, scrollbar ratios)
  and drawing scrollbars into a `ratatui` buffer.

## Checking

Verus verifies every function in `src/` but the trusted wrappers, whose
contracts it takes as given; the tests run with the outside crates linked.
