# locatorr

End-to-end encrypted location sharing between paired devices, with the protocol logic
verified by Verus.

- `src/` is the verified library. Devices pair through a rendezvous room (an ephemeral X25519
  agreement, a transit key, encrypted identity bundles and a safety fingerprint) or through a
  pairing payload with a fingerprint over both devices' public keys. Location updates are
  encrypted to the contact with a hybrid X25519 + ML-KEM-768 envelope under AES-256-GCM,
  signed with ML-DSA-65, and accepted at most once per sequence number by a replay guard.
  The primitives themselves (`sha2`, `hkdf`, `aes-gcm`, `x25519-dalek`, `ml-kem`, `ml-dsa`,
  `base64`, `rand`) are called through the small trusted wrappers in `src/primitives.rs`,
  whose contracts say what each call is assumed to do.
- `tests/` exercises the library with the real primitives linked.
- `app/` is the unverified shell: JSON forms of the library's types, the SQLite stores,
  the HTTP clients of the rendezvous server and the relay, and the command functions a user
  interface calls.
