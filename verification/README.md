# intercept-bounce

An Interception Tools filter that removes keyboard chatter (switch bounce):
it reads Linux `input_event` records on stdin, drops key presses and releases
that repeat the last passed event of the same key and state within the
debounce window, writes the rest to stdout, and reports statistics on stderr.

## Layout

- `src/` — the library, verified with Verus:
  - `filter.rs`: the bounce decision and its state; `filter/stats.rs`: the
    statistics and histograms; `filter/report.rs`: the figures of a report;
    `filter/keynames.rs`: key, event type and value names, key lookup.
  - `config.rs`, `cli.rs`, `duration.rs`: configuration and time spans.
  - `event.rs`: the event record, timestamps, device capabilities and ioctl
    request numbers.
  - `logger.rs`, `pipeline.rs`: the logger's bookkeeping and the event loop's
    hand-over decisions.
  - `laws.rs`: properties that relate several operations.
  - `text.rs`, `sums.rs`: helpers for parsing text and summing sequences.
- `app/` — the program around the library: argument parsing, raw I/O, device
  listing, threads and signals, logging and rendering of reports.
- `tests/` — tests of the library on concrete values.
