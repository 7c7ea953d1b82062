# swap_plaintext

Swaps of a shielded exchange, verified with Verus.

- `swap`: the swap plaintext, its 200-byte form and decoding (with the
  round-trip laws), its asset identifier, and its encryption to the claim
  address (decryption gives the plaintext back).
- `transaction`: the swap action and its proof, its balance commitment, and the view that a
  holder of payload keys has of it.
- `proto`: conversions to and from the protocol messages.
- `asset`, `keys`, `note`, `balance`, `symmetric`: the values, addresses,
  notes, commitments and payload encryption that swaps are made of.
- `field`, `group`, `hash`, `bytes`: field elements, group elements and hashes
  (calls into `decaf377`, `decaf377-ka`, `poseidon377`, `blake2b_simd` and
  `chacha20poly1305`, each behind a function whose contract states what the
  crate provides), and byte-string helpers.

The tests under `tests/` exercise the library together with those crates.
