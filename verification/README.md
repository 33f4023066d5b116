# event_manager

A Telegram bot for reserving seats at events, with a small HTTP interface.

- `src/` is the verified library: reading commands and button requests, the
  rules of signing up, cancelling and the black list, the pages and keyboards
  the bot shows, the queue of messages and its rounds, the configuration, the
  checks of events and bearer tokens. Each function states its result in its
  contract; the laws of the library are proof functions beside the code they
  are about (`lemma_*`).
- `app/` is the program around it: configuration file and command line, the
  SQLite database, the Telegram dispatcher, the HTTP server and the mailing
  loop.
- `tests/` runs the library on concrete values.
