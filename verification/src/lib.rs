//! Locatorr: the verified core of an end-to-end encrypted location-sharing client.
//!
//! - `primitives`: the cryptographic and encoding building blocks, each a thin call into
//!   the crate that implements it, with the contract this library relies on.
//! - `bytes`: byte-sequence order, concatenation, big-endian and hexadecimal encoding.
//! - `keys`: plain-value key types (seeds and public-key bytes).
//! - `identity`, `pairing`, `envelope`: device identity, pairing fingerprint, and the
//!   hybrid X25519 + ML-KEM-768 envelope for one location share.
//! - `crypt`: rendezvous pairing, the persisted device identity, encrypted identity
//!   bundles, and signed, replay-protected location updates.
//! - `replay`: sequence counters and the per-sender replay guard.
//! - `relay`: the pairing payload and inbox-share handling of the relay client.
//! - `server`: the rendezvous server's messages, and which posted key or bundle is the peer's.
//! - `records`: the relay client's settings and contact records.
use vstd::prelude::*;

pub mod primitives;
pub mod bytes;
pub mod keys;
pub mod identity;
pub mod pairing;
pub mod envelope;
pub mod replay;
pub mod crypt;
pub mod relay;
pub mod server;
pub mod records;

verus! {

} // verus!
