//! Per-device identity: one ML-DSA-65 signing key (server auth) and one hybrid
//! X25519 + ML-KEM-768 key pair (location-sharing key agreement), each held as the secret
//! bytes it is derived from.
use vstd::prelude::*;

use crate::primitives::{
    mldsa65_sign, mldsa65_verify, mldsa65_verifying_key, mlkem768_decapsulate,
    mlkem768_encapsulation_key, opt_vec_view, random_bytes, spec_mldsa65_sign,
    spec_mldsa65_signature_decodes, spec_mldsa65_verify, spec_mldsa65_verifying_key, spec_mlkem768_decapsulate,
    spec_mlkem768_encapsulation_key, spec_x25519_public, x25519_public,
    ML_DSA_65_PUBLIC_KEY_LEN, ML_KEM_768_CIPHERTEXT_LEN,
};

verus! {

/// Everything needed to act as this device: sign auth challenges and agree on shared
/// secrets with contacts.
#[derive(Clone, Copy, Debug)]
pub struct Identity {
    signing_seed: [u8; 32],
    kem_seed: [u8; 64],
    x25519_secret: [u8; 32],
}

/// The public values that get registered with the server and embedded in a pairing QR/link.
#[derive(Clone, Debug)]
pub struct PublicBundle {
    pub ml_dsa_pub: Vec<u8>,
    pub kem_pub: Vec<u8>,
    pub x25519_pub: [u8; 32],
}

impl Identity {
    /// Seed of the ML-DSA-65 signing key.
    pub closed spec fn signing_seed_bytes(&self) -> Seq<u8> {
        self.signing_seed@
    }

    /// Seed of the ML-KEM-768 decapsulation key.
    pub closed spec fn kem_seed_bytes(&self) -> Seq<u8> {
        self.kem_seed@
    }

    /// The X25519 secret.
    pub closed spec fn x25519_secret_bytes(&self) -> Seq<u8> {
        self.x25519_secret@
    }

    pub proof fn lemma_lengths(&self)
        ensures
            self.signing_seed_bytes().len() == 32,
            self.kem_seed_bytes().len() == 64,
            self.x25519_secret_bytes().len() == 32,
    {
    }

    /// A fresh identity from random secrets.
    pub fn generate() -> (id: Identity)
        ensures
            id.signing_seed_bytes().len() == 32,
            id.kem_seed_bytes().len() == 64,
            id.x25519_secret_bytes().len() == 32,
    {
        let signing_seed = random_bytes::<32>();
        let kem_seed = random_bytes::<64>();
        let x25519_secret = random_bytes::<32>();
        Identity::from_secrets(signing_seed, kem_seed, x25519_secret)
    }

    /// The identity with the given secrets.
    pub fn from_secrets(signing_seed: [u8; 32], kem_seed: [u8; 64], x25519_secret: [u8; 32]) -> (id: Identity)
        ensures
            id.signing_seed_bytes() == signing_seed@,
            id.kem_seed_bytes() == kem_seed@,
            id.x25519_secret_bytes() == x25519_secret@,
    {
        Identity { signing_seed, kem_seed, x25519_secret }
    }

    /// The secrets of this identity, as they are persisted: the ML-DSA-65 signing seed, the
    /// ML-KEM-768 seed and the X25519 secret.
    pub fn to_secrets(&self) -> (s: ([u8; 32], [u8; 64], [u8; 32]))
        ensures
            s.0@ == self.signing_seed_bytes(),
            s.1@ == self.kem_seed_bytes(),
            s.2@ == self.x25519_secret_bytes(),
    {
        (self.signing_seed, self.kem_seed, self.x25519_secret)
    }

    /// The public keys of this identity.
    pub fn public_bundle(&self) -> (bundle: PublicBundle)
        ensures
            bundle.ml_dsa_pub@ == spec_mldsa65_verifying_key(self.signing_seed_bytes()),
            bundle.kem_pub@ == spec_mlkem768_encapsulation_key(self.kem_seed_bytes()),
            bundle.x25519_pub@ == spec_x25519_public(self.x25519_secret_bytes()),
    {
        PublicBundle {
            ml_dsa_pub: mldsa65_verifying_key(&self.signing_seed),
            kem_pub: mlkem768_encapsulation_key(&self.kem_seed),
            x25519_pub: x25519_public(&self.x25519_secret),
        }
    }

    /// Signs a server-issued auth nonce, on a nonce the signing key can sign.
    pub fn sign_challenge(&self, nonce: &[u8]) -> (sig: Vec<u8>)
        requires
            spec_mldsa65_sign(self.signing_seed_bytes(), nonce@) is Some,
        ensures
            spec_mldsa65_sign(self.signing_seed_bytes(), nonce@) == Some(sig@),
    {
        let sig = mldsa65_sign(&self.signing_seed, nonce);
        sig.unwrap()
    }

    /// Signs a server-issued auth nonce; `None` exactly when ML-DSA signing gives up.
    pub fn try_sign_challenge(&self, nonce: &[u8]) -> (sig: Option<Vec<u8>>)
        ensures
            opt_vec_view(sig) == spec_mldsa65_sign(self.signing_seed_bytes(), nonce@),
    {
        match mldsa65_sign(&self.signing_seed, nonce) {
            Some(_) => Some(self.sign_challenge(nonce)),
            None => None,
        }
    }

    /// This device's half of the ML-KEM agreement: decapsulates a ciphertext a peer produced
    /// against this identity's encapsulation key. A ciphertext of the wrong length is an error.
    pub fn kem_decapsulate(&self, ciphertext_bytes: &[u8]) -> (ss: Option<[u8; 32]>)
        ensures
            ss is Some <==> ciphertext_bytes@.len() == ML_KEM_768_CIPHERTEXT_LEN,
            ss matches Some(k) ==> k@ == spec_mlkem768_decapsulate(
                self.kem_seed_bytes(),
                ciphertext_bytes@,
            ),
    {
        mlkem768_decapsulate(&self.kem_seed, ciphertext_bytes)
    }

    /// The X25519 secret.
    pub fn x25519_secret(&self) -> (s: &[u8; 32])
        ensures
            s@ == self.x25519_secret_bytes(),
    {
        &self.x25519_secret
    }
}

/// Checks a signature over `message` against raw ML-DSA-65 public key bytes: false when
/// the key is not a 1952-byte encoding, when the signature does not decode, or when it
/// does not verify. A signature made with a key's seed verifies under that key.
pub fn verify_signature(ml_dsa_pub_bytes: &[u8], message: &[u8], signature_bytes: &[u8]) -> (ok: bool)
    ensures
        ok == spec_mldsa65_verify(ml_dsa_pub_bytes@, message@, signature_bytes@),
        ok ==> ml_dsa_pub_bytes@.len() == ML_DSA_65_PUBLIC_KEY_LEN && spec_mldsa65_signature_decodes(signature_bytes@),
        forall|seed: Seq<u8>|
            seed.len() == 32 && #[trigger] spec_mldsa65_verifying_key(seed) == ml_dsa_pub_bytes@
                && spec_mldsa65_sign(seed, message@) == Some(signature_bytes@) ==> ok,
{
    mldsa65_verify(ml_dsa_pub_bytes, message, signature_bytes)
}

} // verus!
