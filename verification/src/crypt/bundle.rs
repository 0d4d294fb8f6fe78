//! This device's static identity (generated once, rebuilt from its persisted private
//! material), the identity bundle exchanged at pairing, and the AES-256-GCM encryption of
//! a serialized bundle under the rendezvous transit key.
use vstd::prelude::*;

use vstd::string::*;

use crate::bytes::{
    append_bytes, hex_groups, hex_text, lemma_hex_groups_without_spaces, not_space, skip_bytes,
    take_bytes, to_array, to_hex,
};
use crate::crypt::rendezvous::CompletedRendezvousWithContact;
use crate::keys::{DecapsulationKey, EncapsulationKey, SigningKey, StaticSecret, VerifyingKey};
use crate::primitives::{
    aes256gcm_decrypt, aes256gcm_encrypt, mldsa65_verifying_key, mlkem768_encapsulation_key,
    random_bytes, spec_aes256gcm_decrypt, spec_aes256gcm_encrypt, spec_mldsa65_verifying_key,
    spec_mlkem768_encapsulation_key, spec_mlkem768_key_valid, spec_x25519_public, x25519_public,
    AES_GCM_P_MAX, ML_DSA_65_PUBLIC_KEY_LEN, ML_KEM_768_PUBLIC_KEY_LEN,
};

verus! {

/// The public keys a device hands to a contact at pairing.
#[derive(Clone, Debug)]
pub struct IdentityBundle {
    pub device_id: String,
    pub device_name: String,
    pub x25519_pub: [u8; 32],
    pub ml_kem_pub: Vec<u8>,
    pub ml_dsa_pub: Vec<u8>,
}

/// This device's static identity: generated once and reused for every pairing and every
/// location update. Only the private material is persisted; the public bundle is derived
/// from it.
#[derive(Clone, Debug)]
pub struct LocalIdentity {
    pub bundle: IdentityBundle,
    pub x25519_private: [u8; 32],
    pub ml_kem_seed: [u8; 64],
    pub ml_dsa_seed: [u8; 32],
}

/// A contact after pairing.
#[derive(Clone, Debug)]
pub struct PairedContact {
    pub device_id: String,
    pub device_name: String,
    pub fingerprint: String,
    pub bundle: IdentityBundle,
    pub paired_at: u64,
}

/// Why a key, a bundle or an encrypted bundle was refused.
#[derive(Clone, Copy, Debug, PartialEq, Eq, Structural)]
pub enum CryptError {
    /// The ML-KEM public key does not have the ML-KEM-768 length.
    KemPublicKeyLength,
    /// The ML-KEM public key fails the encapsulation-key check.
    KemPublicKeyInvalid,
    /// The ML-DSA public key does not have the ML-DSA-65 length.
    DsaPublicKeyLength,
    /// The peer bundle carries no (or truncated) post-quantum keys.
    MissingPostQuantumKeys,
    /// The encrypted bundle is shorter than a nonce and one byte.
    EncryptedBundleTooShort,
    /// The serialized bundle is too long to encrypt.
    EncryptionFailed,
    /// The encrypted bundle did not decrypt: wrong transit key or tampered data.
    DecryptionFailed,
}

impl CryptError {
    /// The human-readable description, as text.
    pub open spec fn description(self) -> Seq<char> {
        match self {
            CryptError::KemPublicKeyLength => "invalid ML-KEM public key length"@,
            CryptError::KemPublicKeyInvalid => "invalid ML-KEM public key"@,
            CryptError::DsaPublicKeyLength => "invalid ML-DSA public key length"@,
            CryptError::MissingPostQuantumKeys => "peer identity bundle has no post-quantum keys; re-pair this device with the current build"@,
            CryptError::EncryptedBundleTooShort => "Encrypted bundle payload too short"@,
            CryptError::EncryptionFailed => "Encryption failed: aead::Error"@,
            CryptError::DecryptionFailed => "Decryption failed: aead::Error"@,
        }
    }

    /// Human-readable description.
    pub fn message(&self) -> (m: &'static str)
        ensures
            m@ == self.description(),
    {
        match self {
            CryptError::KemPublicKeyLength => "invalid ML-KEM public key length",
            CryptError::KemPublicKeyInvalid => "invalid ML-KEM public key",
            CryptError::DsaPublicKeyLength => "invalid ML-DSA public key length",
            CryptError::MissingPostQuantumKeys => "peer identity bundle has no post-quantum keys; re-pair this device with the current build",
            CryptError::EncryptedBundleTooShort => "Encrypted bundle payload too short",
            CryptError::EncryptionFailed => "Encryption failed: aead::Error",
            CryptError::DecryptionFailed => "Decryption failed: aead::Error",
        }
    }
}

/// The device id of an X25519 public key: its first 8 bytes as hex, without separators.
pub open spec fn device_id_of(x25519_pub: Seq<u8>) -> Seq<char> {
    hex_groups(x25519_pub.take(8)).filter(|c: char| not_space(c))
}

/// First 8 bytes of the X25519 public key, hex-encoded without separators. Stable for the
/// lifetime of the device because the private key is persisted.
pub fn derive_device_id(x25519_pub: &[u8; 32]) -> (id: String)
    ensures
        id@ == device_id_of(x25519_pub@),
        id@ == hex_text(x25519_pub@.take(8)),
        id@.len() == 16,
{
    proof {
        lemma_hex_groups_without_spaces(x25519_pub@.take(8));
    }
    let head = take_bytes(x25519_pub.as_slice(), 8);
    to_hex(head.as_slice())
}

impl LocalIdentity {
    /// The bundle's public keys are those of the private material.
    pub open spec fn keys_consistent(&self) -> bool {
        &&& self.bundle.x25519_pub@ == spec_x25519_public(self.x25519_private@)
        &&& self.bundle.ml_kem_pub@ == spec_mlkem768_encapsulation_key(self.ml_kem_seed@)
        &&& self.bundle.ml_dsa_pub@ == spec_mldsa65_verifying_key(self.ml_dsa_seed@)
    }

    /// A fresh identity named `device_name`, from random private material; its device id is
    /// derived from its X25519 public key.
    pub fn generate(device_name: &str) -> (id: LocalIdentity)
        ensures
            id.keys_consistent(),
            id.bundle.device_name@ == device_name@,
            id.bundle.device_id@ == device_id_of(id.bundle.x25519_pub@),
            id.bundle.ml_kem_pub@.len() == ML_KEM_768_PUBLIC_KEY_LEN,
            id.bundle.ml_dsa_pub@.len() == ML_DSA_65_PUBLIC_KEY_LEN,
            spec_mlkem768_key_valid(id.bundle.ml_kem_pub@),
            id.bundle.device_id@.len() == 16,
    {
        let x25519_private = random_bytes::<32>();
        let ml_kem_seed = random_bytes::<64>();
        let ml_dsa_seed = random_bytes::<32>();
        let x25519_pub = x25519_public(&x25519_private);
        let bundle = IdentityBundle {
            device_id: derive_device_id(&x25519_pub),
            device_name: String::from_str(device_name),
            x25519_pub,
            ml_kem_pub: mlkem768_encapsulation_key(&ml_kem_seed),
            ml_dsa_pub: mldsa65_verifying_key(&ml_dsa_seed),
        };
        LocalIdentity { bundle, x25519_private, ml_kem_seed, ml_dsa_seed }
    }

    /// Rebuilds the identity (including all public keys) from persisted private material.
    /// The `device_id` is stored rather than re-derived so that it stays stable. Seeds of
    /// fixed size always rebuild, so this never fails.
    pub fn from_persisted(
        device_name: &str,
        device_id: &str,
        x25519_private: [u8; 32],
        ml_kem_seed: [u8; 64],
        ml_dsa_seed: [u8; 32],
    ) -> (r: Result<LocalIdentity, CryptError>)
        ensures
            r matches Ok(id) && {
                &&& id.keys_consistent()
                &&& id.bundle.device_name@ == device_name@
                &&& id.bundle.device_id@ == device_id@
                &&& id.x25519_private == x25519_private
                &&& id.ml_kem_seed == ml_kem_seed
                &&& id.ml_dsa_seed == ml_dsa_seed
            },
    {
        let bundle = IdentityBundle {
            device_id: String::from_str(device_id),
            device_name: String::from_str(device_name),
            x25519_pub: x25519_public(&x25519_private),
            ml_kem_pub: mlkem768_encapsulation_key(&ml_kem_seed),
            ml_dsa_pub: mldsa65_verifying_key(&ml_dsa_seed),
        };
        Ok(LocalIdentity { bundle, x25519_private, ml_kem_seed, ml_dsa_seed })
    }

    /// The ML-DSA-65 signing key.
    pub fn signing_key(&self) -> (k: SigningKey)
        ensures
            k.seed == self.ml_dsa_seed,
    {
        SigningKey { seed: self.ml_dsa_seed }
    }

    /// The ML-KEM-768 decapsulation key (a 64-byte seed always rebuilds it).
    pub fn kem_decapsulation_key(&self) -> (r: Result<DecapsulationKey, CryptError>)
        ensures
            r matches Ok(k) && k.seed == self.ml_kem_seed,
    {
        Ok(DecapsulationKey { seed: self.ml_kem_seed })
    }

    /// The X25519 secret.
    pub fn x25519_secret(&self) -> (s: StaticSecret)
        ensures
            s.bytes == self.x25519_private,
    {
        StaticSecret { bytes: self.x25519_private }
    }
}

/// The peer's ML-KEM-768 public key: refused when it has the wrong length or fails the
/// encapsulation-key check.
pub fn encapsulation_key_from_bundle(bundle: &IdentityBundle) -> (r: Result<EncapsulationKey, CryptError>)
    ensures
        bundle.ml_kem_pub@.len() != ML_KEM_768_PUBLIC_KEY_LEN ==> r == Err::<EncapsulationKey, CryptError>(CryptError::KemPublicKeyLength),
        bundle.ml_kem_pub@.len() == ML_KEM_768_PUBLIC_KEY_LEN && !spec_mlkem768_key_valid(bundle.ml_kem_pub@)
            ==> r == Err::<EncapsulationKey, CryptError>(CryptError::KemPublicKeyInvalid),
        r is Ok <==> bundle.ml_kem_pub@.len() == ML_KEM_768_PUBLIC_KEY_LEN && spec_mlkem768_key_valid(bundle.ml_kem_pub@),
        r matches Ok(k) ==> k@ == bundle.ml_kem_pub@,
{
    if bundle.ml_kem_pub.len() != ML_KEM_768_PUBLIC_KEY_LEN {
        return Err(CryptError::KemPublicKeyLength);
    }
    match EncapsulationKey::from_bytes(bundle.ml_kem_pub.as_slice()) {
        Some(k) => Ok(k),
        None => Err(CryptError::KemPublicKeyInvalid),
    }
}

/// The peer's ML-DSA-65 public key: refused when it has the wrong length.
pub fn verifying_key_from_bundle(bundle: &IdentityBundle) -> (r: Result<VerifyingKey, CryptError>)
    ensures
        r is Err <==> bundle.ml_dsa_pub@.len() != ML_DSA_65_PUBLIC_KEY_LEN,
        r matches Err(e) ==> e == CryptError::DsaPublicKeyLength,
        r matches Ok(k) ==> k@ == bundle.ml_dsa_pub@,
{
    match VerifyingKey::from_bytes(bundle.ml_dsa_pub.as_slice()) {
        Some(k) => Ok(k),
        None => Err(CryptError::DsaPublicKeyLength),
    }
}

/// A peer bundle is usable only if it carries both post-quantum public keys at their full
/// lengths.
pub fn validate_peer_bundle(bundle: &IdentityBundle) -> (r: Result<(), CryptError>)
    ensures
        r is Ok <==> bundle.ml_kem_pub@.len() == ML_KEM_768_PUBLIC_KEY_LEN
            && bundle.ml_dsa_pub@.len() == ML_DSA_65_PUBLIC_KEY_LEN,
        r matches Err(e) ==> e == CryptError::MissingPostQuantumKeys,
{
    if bundle.ml_kem_pub.len() != ML_KEM_768_PUBLIC_KEY_LEN
        || bundle.ml_dsa_pub.len() != ML_DSA_65_PUBLIC_KEY_LEN
    {
        return Err(CryptError::MissingPostQuantumKeys);
    }
    Ok(())
}

/// `data` is the wire form of `bundle_json` encrypted under the transit key with `nonce`:
/// the nonce, then the AES-256-GCM ciphertext (the serialization plus a 16-byte tag).
pub open spec fn sealed_bundle(data: Seq<u8>, transit_key: Seq<u8>, nonce: Seq<u8>, bundle_json: Seq<u8>) -> bool {
    &&& data == nonce + spec_aes256gcm_encrypt(transit_key, nonce, bundle_json)
    &&& data.len() == nonce.len() + bundle_json.len() + 16
}

/// What decrypting a wire-form bundle gives.
pub open spec fn opened_bundle(transit_key: Seq<u8>, data: Seq<u8>) -> Result<Seq<u8>, CryptError> {
    if data.len() < 13 {
        Err(CryptError::EncryptedBundleTooShort)
    } else {
        match spec_aes256gcm_decrypt(transit_key, data.take(12), data.skip(12)) {
            Some(p) => Ok(p),
            None => Err(CryptError::DecryptionFailed),
        }
    }
}

/// Encrypts a serialized identity bundle under the transit key with the given nonce;
/// fails exactly when the serialized bundle is too long for AES-GCM.
pub fn encrypt_identity_bundle_with(transit_key: &[u8; 32], bundle_json: &[u8], nonce: &[u8; 12]) -> (r: Result<Vec<u8>, CryptError>)
    ensures
        r is Err <==> bundle_json@.len() > AES_GCM_P_MAX,
        r matches Err(e) ==> e == CryptError::EncryptionFailed,
        r matches Ok(v) ==> sealed_bundle(v@, transit_key@, nonce@, bundle_json@),
{
    let ciphertext = match aes256gcm_encrypt(transit_key, nonce, bundle_json) {
        Some(c) => c,
        None => return Err(CryptError::EncryptionFailed),
    };
    let mut result: Vec<u8> = Vec::new();
    append_bytes(&mut result, nonce.as_slice());
    append_bytes(&mut result, ciphertext.as_slice());
    Ok(result)
}

/// Encrypts a serialized identity bundle under the transit key with a fresh random nonce.
pub fn encrypt_identity_bundle(transit_key: &[u8; 32], bundle_json: &[u8]) -> (r: Result<Vec<u8>, CryptError>)
    ensures
        r is Err <==> bundle_json@.len() > AES_GCM_P_MAX,
        r matches Err(e) ==> e == CryptError::EncryptionFailed,
        r matches Ok(v) ==> exists|nonce: Seq<u8>|
            nonce.len() == 12 && #[trigger] sealed_bundle(v@, transit_key@, nonce, bundle_json@),
{
    let nonce = random_bytes::<12>();
    encrypt_identity_bundle_with(transit_key, bundle_json, &nonce)
}

/// Decrypts a wire-form bundle back to its serialization. Anything a transit key sealed
/// opens to what was sealed.
pub fn decrypt_identity_bundle(transit_key: &[u8; 32], encrypted_data: &[u8]) -> (r: Result<Vec<u8>, CryptError>)
    ensures
        match r {
            Ok(p) => opened_bundle(transit_key@, encrypted_data@) == Ok::<Seq<u8>, CryptError>(p@),
            Err(e) => opened_bundle(transit_key@, encrypted_data@) == Err::<Seq<u8>, CryptError>(e),
        },
        forall|nonce: Seq<u8>, json: Seq<u8>|
            nonce.len() == 12 && json.len() <= AES_GCM_P_MAX
                && #[trigger] sealed_bundle(encrypted_data@, transit_key@, nonce, json) ==> (r matches Ok(p) && p@ == json),
{
    if encrypted_data.len() < 13 {
        return Err(CryptError::EncryptedBundleTooShort);
    }
    let nonce_bytes = take_bytes(encrypted_data, 12);
    let nonce: [u8; 12] = to_array(nonce_bytes.as_slice());
    let ciphertext = skip_bytes(encrypted_data, 12);
    match aes256gcm_decrypt(transit_key, &nonce, ciphertext.as_slice()) {
        Some(p) => {
            proof {
                assert forall|n: Seq<u8>, json: Seq<u8>|
                    n.len() == 12 && json.len() <= AES_GCM_P_MAX
                        && #[trigger] sealed_bundle(encrypted_data@, transit_key@, n, json) implies p@ == json by {
                    assert(encrypted_data@.take(12) =~= n);
                    assert(encrypted_data@.skip(12) =~= spec_aes256gcm_encrypt(transit_key@, n, json));
                }
            }
            Ok(p)
        },
        None => {
            proof {
                assert forall|n: Seq<u8>, json: Seq<u8>|
                    n.len() == 12 && json.len() <= AES_GCM_P_MAX
                        && #[trigger] sealed_bundle(encrypted_data@, transit_key@, n, json) implies false by {
                    assert(encrypted_data@.take(12) =~= n);
                    assert(encrypted_data@.skip(12) =~= spec_aes256gcm_encrypt(transit_key@, n, json));
                }
            }
            Err(CryptError::DecryptionFailed)
        },
    }
}

/// The contact a finished pairing stores, and what the pairing screen shows of it.
pub fn complete_pairing(peer_bundle: IdentityBundle, fingerprint: String, paired_at: u64) -> (res: (PairedContact, CompletedRendezvousWithContact))
    ensures
        res.0.device_id@ == peer_bundle.device_id@,
        res.0.device_name@ == peer_bundle.device_name@,
        res.0.fingerprint@ == fingerprint@,
        res.0.bundle == peer_bundle,
        res.0.paired_at == paired_at,
        res.1.fingerprint@ == fingerprint@,
        res.1.peer_device_id@ == peer_bundle.device_id@,
        res.1.peer_device_name@ == peer_bundle.device_name@,
{
    let summary = CompletedRendezvousWithContact {
        fingerprint: fingerprint.clone(),
        peer_device_id: peer_bundle.device_id.clone(),
        peer_device_name: peer_bundle.device_name.clone(),
    };
    let contact = PairedContact {
        device_id: peer_bundle.device_id.clone(),
        device_name: peer_bundle.device_name.clone(),
        fingerprint,
        bundle: peer_bundle,
        paired_at,
    };
    (contact, summary)
}

} // verus!
