# smartcard

APDU logic of a PC/SC smart-card client, verified with Verus.

- `src/status.rs`: status words (SW1, SW2) of responses.
- `src/commands.rs`: the GET DATA, SELECT, GET RESPONSE and READ BINARY commands.
- `src/get_data.rs`, `src/get_file.rs`: the decisions of the GET DATA and
  file-reading exchanges, as state machines that say which command to send
  next or what the result is (`src/exchange.rs`).
- `src/application.rs`, `src/mycard.rs`: the card, its identifiers and the
  requests that are not implemented yet.
- `app/`: the program that talks to the reader through the `pcsc` crate and
  drives the exchanges.
