//! Cryptographic and encoding building blocks. Each function here makes exactly one call
//! into the crate that implements the primitive (sha2, hkdf, aes-gcm, x25519-dalek,
//! ml-kem, ml-dsa, base64, rand) and converts plain byte values in and out. Their
//! contracts are believed, not proved: the doc comment of each says what is claimed.
//! Results that depend only on the arguments are named by an uninterpreted spec function.
use vstd::prelude::*;

use aes_gcm::aead::{Aead, KeyInit};
use base64::Engine;
use ml_dsa::{KeyExport as DsaKeyExport, Keypair, Signer, Verifier};
use ml_kem::{Decapsulate, KeyExport as KemKeyExport, TryKeyInit};
use sha2::Digest;

verus! {

/// Largest plaintext (in bytes) that AES-GCM accepts (`aes_gcm::P_MAX`, 2^36 - 32).
pub const AES_GCM_P_MAX: u64 = 68719476704;

/// Length of the AES-GCM authentication tag appended to every ciphertext.
pub const AES_GCM_TAG_LEN: usize = 16;

/// Length of an encoded ML-KEM-768 encapsulation (public) key.
pub const ML_KEM_768_PUBLIC_KEY_LEN: usize = 1184;

/// Length of an ML-KEM-768 ciphertext.
pub const ML_KEM_768_CIPHERTEXT_LEN: usize = 1088;

/// Length of a decapsulation-key seed (ML-KEM `d || z`).
pub const ML_KEM_768_SEED_LEN: usize = 64;

/// Length of an encoded ML-DSA-65 verifying (public) key.
pub const ML_DSA_65_PUBLIC_KEY_LEN: usize = 1952;

/// Length of an ML-DSA-65 signing-key seed.
pub const ML_DSA_65_SEED_LEN: usize = 32;

/// Length of an encoded ML-DSA-65 signature.
pub const ML_DSA_65_SIGNATURE_LEN: usize = 3309;

pub open spec fn opt_slice_view(o: Option<&[u8]>) -> Option<Seq<u8>> {
    match o {
        Some(s) => Some(s@),
        None => None,
    }
}

pub open spec fn opt_vec_view(o: Option<Vec<u8>>) -> Option<Seq<u8>> {
    match o {
        Some(v) => Some(v@),
        None => None,
    }
}

// ---------------------------------------------------------------------------------------
// Names of outside results that depend on their arguments alone.
// ---------------------------------------------------------------------------------------

/// SHA-256 digest of a byte string.
pub uninterp spec fn spec_sha256(data: Seq<u8>) -> Seq<u8>;

/// HKDF-SHA256 (extract with the optional salt, then expand with `info`) to 32 bytes.
pub uninterp spec fn spec_hkdf_sha256_32(salt: Option<Seq<u8>>, ikm: Seq<u8>, info: Seq<u8>) -> Seq<u8>;

/// X25519 public key of a 32-byte secret.
pub uninterp spec fn spec_x25519_public(secret: Seq<u8>) -> Seq<u8>;

/// X25519 shared secret of a 32-byte secret and a 32-byte public key.
pub uninterp spec fn spec_x25519_dh(secret: Seq<u8>, public: Seq<u8>) -> Seq<u8>;

/// AES-256-GCM encryption (ciphertext followed by the tag), empty associated data.
pub uninterp spec fn spec_aes256gcm_encrypt(key: Seq<u8>, nonce: Seq<u8>, plaintext: Seq<u8>) -> Seq<u8>;

/// AES-256-GCM decryption with tag check, empty associated data.
pub uninterp spec fn spec_aes256gcm_decrypt(key: Seq<u8>, nonce: Seq<u8>, ciphertext: Seq<u8>) -> Option<Seq<u8>>;

/// Encoded ML-KEM-768 encapsulation key of the decapsulation key with the given 64-byte seed.
pub uninterp spec fn spec_mlkem768_encapsulation_key(seed: Seq<u8>) -> Seq<u8>;

/// Whether bytes pass the FIPS 203 encapsulation-key check (type and modulus check).
pub uninterp spec fn spec_mlkem768_key_valid(ek: Seq<u8>) -> bool;

/// ML-KEM-768 encapsulation against `ek` with the 32 random bytes `m`: (ciphertext, shared key).
pub uninterp spec fn spec_mlkem768_encapsulate(ek: Seq<u8>, m: Seq<u8>) -> (Seq<u8>, Seq<u8>);

/// ML-KEM-768 decapsulation of `ct` by the decapsulation key with the given seed.
pub uninterp spec fn spec_mlkem768_decapsulate(seed: Seq<u8>, ct: Seq<u8>) -> Seq<u8>;

/// Encoded ML-DSA-65 verifying key of the signing key with the given 32-byte seed.
pub uninterp spec fn spec_mldsa65_verifying_key(seed: Seq<u8>) -> Seq<u8>;

/// Deterministic ML-DSA-65 signature (empty context); `None` when rejection sampling gives up.
pub uninterp spec fn spec_mldsa65_sign(seed: Seq<u8>, msg: Seq<u8>) -> Option<Seq<u8>>;

/// Whether bytes decode as an ML-DSA-65 signature.
pub uninterp spec fn spec_mldsa65_signature_decodes(sig: Seq<u8>) -> bool;

/// ML-DSA-65 verification (empty context) of `sig` over `msg` against the encoded key `vk`.
pub uninterp spec fn spec_mldsa65_verify(vk: Seq<u8>, msg: Seq<u8>, sig: Seq<u8>) -> bool;

/// Standard (padded) base64 encoding.
pub uninterp spec fn spec_base64_encode(data: Seq<u8>) -> Seq<char>;

/// Standard (padded) base64 decoding; `None` on malformed input.
pub uninterp spec fn spec_base64_decode(text: Seq<char>) -> Option<Seq<u8>>;

/// The message of the error standard base64 decoding reports for malformed input.
pub uninterp spec fn spec_base64_decode_error(text: Seq<char>) -> Seq<char>;

/// Characters of the standard base64 alphabet, padding included.
pub open spec fn is_base64_char(c: char) -> bool {
    ('A' <= c && c <= 'Z') || ('a' <= c && c <= 'z') || ('0' <= c && c <= '9') || c == '+'
        || c == '/' || c == '='
}

// ---------------------------------------------------------------------------------------
// Calls.
// ---------------------------------------------------------------------------------------

/// `sha2::Sha256::digest`: the result is the SHA-256 digest of `data` (named `spec_sha256`).
#[verifier::external_body]
pub(crate) fn sha256(data: &[u8]) -> (digest: [u8; 32])
    ensures
        digest@ == spec_sha256(data@),
{
    sha2::Sha256::digest(data).into()
}

/// `hkdf::Hkdf::<Sha256>::new(salt, ikm).expand(info, ..)` into 32 bytes: the result is the
/// named HKDF output. Expansion to 32 bytes is within the 255 * 32 limit, so it never fails.
#[verifier::external_body]
pub(crate) fn hkdf_sha256_32(salt: Option<&[u8]>, ikm: &[u8], info: &[u8]) -> (okm: [u8; 32])
    ensures
        okm@ == spec_hkdf_sha256_32(opt_slice_view(salt), ikm@, info@),
{
    let mut okm = [0u8; 32];
    match hkdf::Hkdf::<sha2::Sha256>::new(salt, ikm).expand(info, &mut okm) {
        Ok(()) => okm,
        Err(_) => okm,
    }
}

/// `x25519_dalek::PublicKey::from(&StaticSecret::from(secret))`: the named public key.
#[verifier::external_body]
pub(crate) fn x25519_public(secret: &[u8; 32]) -> (public: [u8; 32])
    ensures
        public@ == spec_x25519_public(secret@),
{
    x25519_dalek::PublicKey::from(&x25519_dalek::StaticSecret::from(*secret)).to_bytes()
}

/// `StaticSecret::from(secret).diffie_hellman(&PublicKey::from(their_public))`: the named
/// shared secret. As the crate documents (`x25519` example: `alice_shared == bob_shared`),
/// when `their_public` is the public key of some secret `other`, the result is what `other`
/// computes against this secret's public key.
#[verifier::external_body]
pub(crate) fn x25519_diffie_hellman(secret: &[u8; 32], their_public: &[u8; 32]) -> (shared: [u8; 32])
    ensures
        shared@ == spec_x25519_dh(secret@, their_public@),
        forall|other: Seq<u8>|
            other.len() == 32 && #[trigger] spec_x25519_public(other) == their_public@
                ==> shared@ == spec_x25519_dh(other, spec_x25519_public(secret@)),
{
    let me = x25519_dalek::StaticSecret::from(*secret);
    me.diffie_hellman(&x25519_dalek::PublicKey::from(*their_public)).to_bytes()
}

/// `Aes256Gcm::new(key).encrypt(nonce, plaintext)`: fails exactly when the plaintext is
/// longer than `P_MAX`; otherwise the named ciphertext, 16 bytes (the tag) longer than the
/// plaintext.
#[verifier::external_body]
pub(crate) fn aes256gcm_encrypt(key: &[u8; 32], nonce: &[u8; 12], plaintext: &[u8]) -> (ct: Option<Vec<u8>>)
    ensures
        ct is Some <==> plaintext@.len() <= AES_GCM_P_MAX,
        ct matches Some(c) ==> c@ == spec_aes256gcm_encrypt(key@, nonce@, plaintext@)
            && c@.len() == plaintext@.len() + AES_GCM_TAG_LEN,
{
    let cipher = aes_gcm::Aes256Gcm::new(&(*key).into());
    cipher.encrypt(&(*nonce).into(), plaintext).ok()
}

/// `Aes256Gcm::new(key).decrypt(nonce, ciphertext)`: the named result. AEAD correctness
/// (documented): a ciphertext produced by encryption under the same key and nonce decrypts
/// to its plaintext.
#[verifier::external_body]
pub(crate) fn aes256gcm_decrypt(key: &[u8; 32], nonce: &[u8; 12], ciphertext: &[u8]) -> (pt: Option<Vec<u8>>)
    ensures
        opt_vec_view(pt) == spec_aes256gcm_decrypt(key@, nonce@, ciphertext@),
        forall|p: Seq<u8>|
            p.len() <= AES_GCM_P_MAX && #[trigger] spec_aes256gcm_encrypt(key@, nonce@, p)
                == ciphertext@ ==> opt_vec_view(pt) == Some(p),
{
    let cipher = aes_gcm::Aes256Gcm::new(&(*key).into());
    cipher.decrypt(&(*nonce).into(), ciphertext).ok()
}

/// `DecapsulationKey::<MlKem768>::from_seed(seed).encapsulation_key().to_bytes()`: the named
/// encoded key, 1184 bytes, which passes the encapsulation-key check (it is the encoding of
/// reduced coefficients).
#[verifier::external_body]
pub(crate) fn mlkem768_encapsulation_key(seed: &[u8; 64]) -> (ek: Vec<u8>)
    ensures
        ek@ == spec_mlkem768_encapsulation_key(seed@),
        ek@.len() == ML_KEM_768_PUBLIC_KEY_LEN,
        spec_mlkem768_key_valid(ek@),
{
    let dk = ml_kem::DecapsulationKey::<ml_kem::MlKem768>::from_seed((*seed).into());
    dk.encapsulation_key().to_bytes().to_vec()
}

/// `EncapsulationKey::<MlKem768>::new_from_slice(ek).is_ok()`: the named check, which fails
/// at least on every length other than 1184.
#[verifier::external_body]
pub(crate) fn mlkem768_check_encapsulation_key(ek: &[u8]) -> (ok: bool)
    ensures
        ok == spec_mlkem768_key_valid(ek@),
        ok ==> ek@.len() == ML_KEM_768_PUBLIC_KEY_LEN,
{
    ml_kem::EncapsulationKey::<ml_kem::MlKem768>::new_from_slice(ek).is_ok()
}

/// `EncapsulationKey::<MlKem768>::encapsulate_deterministic(m)` on a key that passes the
/// check: the named (ciphertext, shared key), the ciphertext being 1088 bytes.
#[verifier::external_body]
pub(crate) fn mlkem768_encapsulate(ek: &[u8], m: &[u8; 32]) -> (res: (Vec<u8>, [u8; 32]))
    requires
        spec_mlkem768_key_valid(ek@),
    ensures
        (res.0@, res.1@) == spec_mlkem768_encapsulate(ek@, m@),
        res.0@.len() == ML_KEM_768_CIPHERTEXT_LEN,
{
    let key = ml_kem::EncapsulationKey::<ml_kem::MlKem768>::new_from_slice(ek).expect("checked key");
    let (ct, ss) = key.encapsulate_deterministic(&(*m).into());
    (ct.to_vec(), ss.into())
}

/// `DecapsulationKey::<MlKem768>::from_seed(seed).decapsulate_slice(ct)`: fails exactly on a
/// ciphertext whose length is not 1088; otherwise the named shared key.
#[verifier::external_body]
pub(crate) fn mlkem768_decapsulate(seed: &[u8; 64], ct: &[u8]) -> (ss: Option<[u8; 32]>)
    ensures
        ss is Some <==> ct@.len() == ML_KEM_768_CIPHERTEXT_LEN,
        ss matches Some(k) ==> k@ == spec_mlkem768_decapsulate(seed@, ct@),
{
    let dk = ml_kem::DecapsulationKey::<ml_kem::MlKem768>::from_seed((*seed).into());
    match dk.decapsulate_slice(ct) {
        Ok(k) => Some(k.into()),
        Err(_) => None,
    }
}

/// `SigningKey::<MlDsa65>::from_seed(seed).verifying_key().to_bytes()`: the named encoded
/// key, 1952 bytes.
#[verifier::external_body]
pub(crate) fn mldsa65_verifying_key(seed: &[u8; 32]) -> (vk: Vec<u8>)
    ensures
        vk@ == spec_mldsa65_verifying_key(seed@),
        vk@.len() == ML_DSA_65_PUBLIC_KEY_LEN,
{
    let sk = ml_dsa::SigningKey::<ml_dsa::MlDsa65>::from_seed(&(*seed).into());
    sk.verifying_key().to_bytes().to_vec()
}

/// `SigningKey::<MlDsa65>::from_seed(seed).try_sign(msg)` (the deterministic variant, empty
/// context), encoded: the named result. A produced signature is 3309 bytes and decodes.
#[verifier::external_body]
pub(crate) fn mldsa65_sign(seed: &[u8; 32], msg: &[u8]) -> (sig: Option<Vec<u8>>)
    ensures
        opt_vec_view(sig) == spec_mldsa65_sign(seed@, msg@),
        sig matches Some(s) ==> s@.len() == ML_DSA_65_SIGNATURE_LEN
            && spec_mldsa65_signature_decodes(s@),
{
    let sk = ml_dsa::SigningKey::<ml_dsa::MlDsa65>::from_seed(&(*seed).into());
    match sk.try_sign(msg) {
        Ok(s) => Some(s.encode().to_vec()),
        Err(_) => None,
    }
}

/// `ml_dsa::Signature::<MlDsa65>::try_from(sig).is_ok()`: the named check, which only bytes
/// of the encoded length (3309) pass.
#[verifier::external_body]
pub(crate) fn mldsa65_signature_decodes(sig: &[u8]) -> (ok: bool)
    ensures
        ok == spec_mldsa65_signature_decodes(sig@),
        ok ==> sig@.len() == ML_DSA_65_SIGNATURE_LEN,
{
    ml_dsa::Signature::<ml_dsa::MlDsa65>::try_from(sig).is_ok()
}

/// `VerifyingKey::<MlDsa65>::new_from_slice(vk)`, `Signature::try_from(sig)`, then
/// `verify(msg, ..)`: the named result, false whenever the key is not 1952 bytes or the
/// signature does not decode. Correctness (the crate's sign/verify round trip): a signature
/// made with a seed verifies under that seed's verifying key.
#[verifier::external_body]
pub(crate) fn mldsa65_verify(vk: &[u8], msg: &[u8], sig: &[u8]) -> (ok: bool)
    ensures
        ok == spec_mldsa65_verify(vk@, msg@, sig@),
        ok ==> vk@.len() == ML_DSA_65_PUBLIC_KEY_LEN && spec_mldsa65_signature_decodes(sig@),
        forall|seed: Seq<u8>|
            seed.len() == 32 && #[trigger] spec_mldsa65_verifying_key(seed) == vk@
                && spec_mldsa65_sign(seed, msg@) == Some(sig@) ==> ok,
{
    let Ok(key) = ml_dsa::VerifyingKey::<ml_dsa::MlDsa65>::new_from_slice(vk) else {
        return false;
    };
    let Ok(s) = ml_dsa::Signature::<ml_dsa::MlDsa65>::try_from(sig) else {
        return false;
    };
    key.verify(msg, &s).is_ok()
}

/// `base64::engine::general_purpose::STANDARD.encode(data)`: the named text, made of
/// base64-alphabet characters, which decodes back to `data`.
#[verifier::external_body]
pub(crate) fn base64_encode(data: &[u8]) -> (text: String)
    ensures
        text@ == spec_base64_encode(data@),
        spec_base64_decode(text@) == Some(data@),
        forall|i: int| 0 <= i < text@.len() ==> is_base64_char(#[trigger] text@[i]),
{
    base64::engine::general_purpose::STANDARD.encode(data)
}

/// `base64::engine::general_purpose::STANDARD.decode(text)`: the named result, and on a
/// failure the `Display` text of the decoder's error (which says where the input went
/// wrong), also named. Text holding a character outside the alphabet and the padding
/// character never decodes.
#[verifier::external_body]
pub(crate) fn base64_decode(text: &str) -> (r: Result<Vec<u8>, String>)
    ensures
        r is Ok <==> spec_base64_decode(text@) is Some,
        (exists|i: int| 0 <= i < text@.len() && !is_base64_char(#[trigger] text@[i])) ==> r is Err,
        r matches Ok(v) ==> spec_base64_decode(text@) == Some(v@),
        r matches Err(e) ==> e@ == spec_base64_decode_error(text@),
{
    match base64::engine::general_purpose::STANDARD.decode(text) {
        Ok(v) => Ok(v),
        Err(e) => Err(e.to_string()),
    }
}

/// `rand::random::<[u8; N]>()`: bytes from the thread-local CSPRNG. Nothing is claimed of
/// them.
#[verifier::external_body]
pub(crate) fn random_bytes<const N: usize>() -> (bytes: [u8; N]) {
    rand::random()
}

/// `String::push`: appends one character.
pub assume_specification[ String::push ](s: &mut String, ch: char)
    ensures
        final(s)@ == old(s)@.push(ch),
;

} // verus!
