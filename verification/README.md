# usage_limit

Spending limits for API keys behind a local proxy. A limit counts money or
tokens; requests are refused once it is reached, and a request that is under way
holds a reservation in a ledger, so that requests beside it cannot spend the same
room.

The library in `src/` is verified with Verus.

- `text`, `decimal`, `json`: texts, exact decimal amounts and JSON documents, with
  what is believed of `rust_decimal`, `serde_json` and the standard library.
- `limit`, `rate`, `limit_row`: kinds, currencies and amounts of limits, the
  exchange rate, and limits as they are stored.
- `credential`: the fingerprint and the masked form of a key.
- `ledger`, `ledger_laws`, `schema`: logged usage and reservations, what holds of
  them as a whole, and the tables that store them.
- `forward`, `reserve`, `status`, `save`: the decisions. Each takes the replies of
  the storage that are in and gives the next question or the answer.
- `rejection`, `proxy_error`, `app_error`: refusals and errors.

`app/` runs the decisions against SQLite, the clock and HTTP. `tests/` runs the
library with the real crates.
