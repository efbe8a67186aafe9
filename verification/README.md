# zkp_exchange_network

Offline exchange of zero-knowledge proofs, written in Verus.

- `src/` is the verified library: registries of circuits (`circuits`), key material
  (`keys`) and per-circuit key data (`loaded_keys`); the prover (`prover`) and verifier
  (`proof_verifier`) front ends; framing of proofs for QR codes, BLE, ultrasonic audio and
  packets (`exchange`); hashing, hex, base64, nonces and time (`utils`); JSON objects
  written and read through `serde_json` (`json`); errors (`errors`) and message text
  (`text`). Each public function states its result in `ensures`; the `law_*` proof
  functions state properties that relate several operations.
- `tests/` exercises the library.
- `app/` is the command line program: argument handling, file reading, printing, and the
  serde forms of proofs and results.
