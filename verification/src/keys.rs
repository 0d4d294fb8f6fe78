//! Key material as plain values: secrets and seeds as fixed-size byte arrays, public keys
//! as their encodings. Every cryptographic operation on them goes through `primitives`.
use vstd::prelude::*;

use crate::bytes::copy_bytes;
use crate::primitives::{
    mlkem768_check_encapsulation_key, mlkem768_encapsulate, spec_mlkem768_encapsulate,
    spec_mlkem768_key_valid, ML_DSA_65_PUBLIC_KEY_LEN, ML_KEM_768_CIPHERTEXT_LEN,
};

verus! {

/// An ML-DSA-65 signing key, held as the 32-byte seed it is derived from.
#[derive(Clone, Copy, Debug)]
pub struct SigningKey {
    pub seed: [u8; 32],
}

/// An ML-KEM-768 decapsulation key, held as its 64-byte seed (`d || z`).
#[derive(Clone, Copy, Debug)]
pub struct DecapsulationKey {
    pub seed: [u8; 64],
}

/// An X25519 secret that may be used for many agreements.
#[derive(Clone, Copy, Debug)]
pub struct StaticSecret {
    pub bytes: [u8; 32],
}

/// An X25519 secret meant for a single agreement.
#[derive(Clone, Copy, Debug)]
pub struct EphemeralSecret {
    pub bytes: [u8; 32],
}

/// An encoded ML-KEM-768 encapsulation key that passed the FIPS 203 key check.
#[derive(Debug)]
pub struct EncapsulationKey {
    bytes: Vec<u8>,
}

impl View for EncapsulationKey {
    type V = Seq<u8>;

    closed spec fn view(&self) -> Seq<u8> {
        self.bytes@
    }
}

impl EncapsulationKey {
    #[verifier::type_invariant]
    spec fn key_checked(self) -> bool {
        spec_mlkem768_key_valid(self.bytes@)
    }

    /// The key encoded by `bytes`, if they pass the encapsulation-key check.
    pub fn from_bytes(bytes: &[u8]) -> (key: Option<EncapsulationKey>)
        ensures
            key is Some <==> spec_mlkem768_key_valid(bytes@),
            key matches Some(k) ==> k@ == bytes@,
    {
        if mlkem768_check_encapsulation_key(bytes) {
            Some(EncapsulationKey { bytes: copy_bytes(bytes) })
        } else {
            None
        }
    }

    /// The encoded key.
    pub fn as_bytes(&self) -> (bytes: &[u8])
        ensures
            bytes@ == self@,
    {
        self.bytes.as_slice()
    }

    /// Encapsulation against this key with the 32 random bytes `m`: (ciphertext, shared key).
    pub fn encapsulate(&self, m: &[u8; 32]) -> (res: (Vec<u8>, [u8; 32]))
        ensures
            (res.0@, res.1@) == spec_mlkem768_encapsulate(self@, m@),
            res.0@.len() == ML_KEM_768_CIPHERTEXT_LEN,
    {
        proof {
            use_type_invariant(self);
        }
        mlkem768_encapsulate(self.bytes.as_slice(), m)
    }
}

/// An encoded ML-DSA-65 verifying key (1952 bytes).
#[derive(Debug)]
pub struct VerifyingKey {
    bytes: Vec<u8>,
}

impl View for VerifyingKey {
    type V = Seq<u8>;

    closed spec fn view(&self) -> Seq<u8> {
        self.bytes@
    }
}

impl VerifyingKey {
    #[verifier::type_invariant]
    spec fn key_length(self) -> bool {
        self.bytes@.len() == ML_DSA_65_PUBLIC_KEY_LEN
    }

    /// The key encoded by `bytes`, if they have the length of an encoded key.
    pub fn from_bytes(bytes: &[u8]) -> (key: Option<VerifyingKey>)
        ensures
            key is Some <==> bytes@.len() == ML_DSA_65_PUBLIC_KEY_LEN,
            key matches Some(k) ==> k@ == bytes@,
    {
        if bytes.len() == ML_DSA_65_PUBLIC_KEY_LEN {
            Some(VerifyingKey { bytes: copy_bytes(bytes) })
        } else {
            None
        }
    }

    /// The encoded key.
    pub fn as_bytes(&self) -> (bytes: &[u8])
        ensures
            bytes@ == self@,
            bytes@.len() == ML_DSA_65_PUBLIC_KEY_LEN,
    {
        proof {
            use_type_invariant(self);
        }
        self.bytes.as_slice()
    }
}

} // verus!
