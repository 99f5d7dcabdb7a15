# aralez logging

The logging part of the Aralez reverse proxy, as a Verus-verified library
(`src/`) and a thin program around it (`app/`).

- `src/interface.rs`: the logger-module and access-log traits, the log
  handle, the access-log record.
- `src/logger.rs`, `src/custom_logger.rs`: the two logger modules; each
  describes the logger it installs (target, layout, level, rotation).
- `src/access_log.rs`, `src/custom_access_log.rs`, `src/ip.rs`: the
  access-log lines, including the text of client addresses.
- `src/logging.rs`: the access-log level (set once) and the assembly of a
  record for a finished request.
- `src/metrics.rs`: metric labels, cache gauges, resident memory read from
  `/proc/self/status`.
- `src/text.rs`: numerals, ASCII case, integer literals.
- `src/outside.rs`: the outside types the library carries and the header
  lookup it relies on.

`app/` installs the described logger with log4rs, runs the access-log
channel and thread, and updates the Prometheus metrics.
