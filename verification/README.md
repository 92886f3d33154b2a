# binance_cli

A command-line client library for the Binance spot and USDS-M futures
exchange, verified with Verus.

- `src/` is the verified library: pair normalization, command routing, the
  request that each command sends and the title of its output, order and
  amount validation, kline interval parsing, HMAC-SHA256 request signing for
  futures, credential resolution (command line, then environment, then config
  file), config defaults and file locations, error categories, display text,
  JSON error envelopes, classification of the spot connector's failures, and
  the bounds that end a WebSocket stream.
- `app/` is the front end: clap argument parsing, HTTP (spot connector over
  hyper, futures over reqwest) and WebSocket I/O, config file reading and
  writing, output rendering, and the interactive shell.
- `tests/` runs the library on concrete values.
