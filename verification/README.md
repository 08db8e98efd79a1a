# txrp

Wallet records for the XRP Ledger, verified with Verus.

- `src/` — the verified library:
  - `encoding`: base64, UTF-8 and random bytes;
  - `crypto`: Argon2 key derivation, AES-256-GCM encryption of secrets, the stored encryption parameters;
  - `keys`: BIP-39 mnemonics, XRPL family seeds and classic addresses;
  - `wallet`: wallet records, their creation, encryption and decryption, with the round-trip laws;
  - `storage`: the SQLite schema, the rows that store a record and the reading of a record back;
  - `ledger`: JSON-RPC request bodies and the fields read from ledger replies;
  - `payment`: address and seed checks and the signed XRP payment transaction;
  - `text`: trimming, lower-casing and number parsing of typed answers;
  - `menu`: the terminal menu as a state machine, with laws over whole runs of it.
- `app/` — the program: data directory, database file, HTTP calls, floating-point amounts,
  JSON serialization of records and the terminal loop that runs the menu.
- `tests/` — tests of the library on concrete values.
