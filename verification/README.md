# agronet_backend

Settlement and liquidity logic of the AgroNet backend, verified with Verus.

- `src/` is the verified library:
  - `ledger_flex/`: the Ledger hardware wallet protocol: APDU commands and
    responses, BIP32 derivation paths, USB HID packet framing and reading,
    and the chunked signing exchange as a state machine.
  - `blockchain/`: supported networks, chain configuration, contract
    addresses, on-chain settlement decisions, the steps of a real token
    transfer (`transfer.rs`), gas and retry rules.
  - `settlement.rs`: validation of settlement requests and the ATF-AI audit hash.
  - `liquidity_pull.rs`: reading balances from a liquidity file's text
    (SWIFT/GPI through `serde_json`, ERC-8040 fields), the amount a pull may
    take, and the settlement that records it.
  - `ledger.rs`: on-chain requests checked against ledger rules.
  - `decimal.rs`, `digest.rs`: decimal arithmetic (`rust_decimal`), SHA-256
    (`sha2`) and hex text (`hex`) behind trusted wrappers.
- `app/` is the server around it: HTTP routes, PostgreSQL, the USB device,
  Ethereum RPC.
- `tests/` runs the library on concrete inputs.
