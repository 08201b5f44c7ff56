# tenzro_cli

The Tenzro Network command-line client, with its decision logic verified in
Verus.

- `src/` is the verified library. Each command group has a module
  (`node`, `escrow`, `zk`, `inference`, `ceremony`) holding the command types,
  the RPC requests they send, and how the node's answers are read and shown.
  Shared pieces: `json` (a model of JSON values with lookups), `report`
  (labelled output fields, RPC requests), `text` (decimal notation, substring
  search, trimming), `hex` (hexadecimal encoding and decoding), `quantity`
  (`0x`-prefixed quantities), `curve` (BN254 point checks done by arkworks).
- `app/` is the program around it: argument parsing with clap, the HTTP
  JSON-RPC transport, terminal output, files, prompts and the ceremony
  cryptography of the `tenzro-zk` crate.
- `tests/` exercises the library on concrete values.
