//! One location share for one recipient: a hybrid X25519 + ML-KEM-768 agreement,
//! combined through HKDF-SHA256 into a wrap key, wraps a random per-message content key,
//! which AES-256-GCM-encrypts the payload.
use vstd::prelude::*;

use crate::bytes::{append_bytes, copy_bytes, to_array};
use crate::identity::Identity;
use crate::keys::EncapsulationKey;
use crate::primitives::{
    aes256gcm_decrypt, aes256gcm_encrypt, hkdf_sha256_32, random_bytes,
    spec_aes256gcm_decrypt, spec_aes256gcm_encrypt, spec_hkdf_sha256_32,
    spec_mlkem768_decapsulate, spec_mlkem768_encapsulate, spec_mlkem768_encapsulation_key,
    spec_mlkem768_key_valid, spec_x25519_dh, spec_x25519_public, x25519_diffie_hellman,
    AES_GCM_P_MAX, AES_GCM_TAG_LEN, ML_KEM_768_CIPHERTEXT_LEN,
};

verus! {

/// Everything a recipient needs to open one share.
#[derive(Clone, Debug)]
pub struct Share {
    pub ciphertext: Vec<u8>,
    pub nonce: [u8; 12],
    pub wrapped_key: Vec<u8>,
    pub wrap_nonce: [u8; 12],
    pub kem_ciphertext: Vec<u8>,
}

/// Why sharing or receiving failed.
#[derive(Clone, Copy, Debug, PartialEq, Eq, Structural)]
pub enum EnvelopeError {
    /// The recipient's ML-KEM public key is not a valid ML-KEM-768 encapsulation key.
    InvalidKemPublicKey,
    /// The KEM ciphertext does not have the ML-KEM-768 ciphertext length.
    KemCiphertextLength,
    /// The content key did not unwrap: bad key or tampered data.
    UnwrapFailed,
    /// The unwrapped content key is not 32 bytes.
    ContentKeyLength,
    /// The payload did not decrypt: bad key or tampered data.
    PayloadDecryptFailed,
}

impl EnvelopeError {
    /// The human-readable description, as text.
    pub open spec fn description(self) -> Seq<char> {
        match self {
            EnvelopeError::InvalidKemPublicKey => "kem_pub: not a valid ML-KEM-768 encapsulation key"@,
            EnvelopeError::KemCiphertextLength => "kem ciphertext: wrong length for MlKem768"@,
            EnvelopeError::UnwrapFailed => "failed to unwrap content key: bad key or tampered data"@,
            EnvelopeError::ContentKeyLength => "unwrapped content key must be 32 bytes"@,
            EnvelopeError::PayloadDecryptFailed => "failed to decrypt payload: bad key or tampered data"@,
        }
    }

    /// Human-readable description.
    pub fn message(&self) -> (m: &'static str)
        ensures
            m@ == self.description(),
    {
        match self {
            EnvelopeError::InvalidKemPublicKey => "kem_pub: not a valid ML-KEM-768 encapsulation key",
            EnvelopeError::KemCiphertextLength => "kem ciphertext: wrong length for MlKem768",
            EnvelopeError::UnwrapFailed => "failed to unwrap content key: bad key or tampered data",
            EnvelopeError::ContentKeyLength => "unwrapped content key must be 32 bytes",
            EnvelopeError::PayloadDecryptFailed => "failed to decrypt payload: bad key or tampered data",
        }
    }
}

/// The HKDF `info` label of the wrap key, `b"locshare-wrap-v1"`.
pub open spec fn wrap_info() -> Seq<u8> {
    seq![108u8, 111, 99, 115, 104, 97, 114, 101, 45, 119, 114, 97, 112, 45, 118, 49]
}

/// The wrap key combined from both halves of the hybrid agreement.
pub open spec fn combine_spec(x25519_shared: Seq<u8>, kem_shared: Seq<u8>) -> Seq<u8> {
    spec_hkdf_sha256_32(None, x25519_shared + kem_shared, wrap_info())
}

/// `share` is what the sender with X25519 secret `sx` produces for the recipient keys
/// `(rx_pub, kem_pub)`, payload `payload`, content key `ck`, KEM randomness `m`, and the
/// share's own nonces.
pub open spec fn sent_share(
    share: Share,
    sx: Seq<u8>,
    rx_pub: Seq<u8>,
    kem_pub: Seq<u8>,
    payload: Seq<u8>,
    ck: Seq<u8>,
    m: Seq<u8>,
) -> bool {
    let enc = spec_mlkem768_encapsulate(kem_pub, m);
    let wrap = combine_spec(spec_x25519_dh(sx, rx_pub), enc.1);
    &&& share.ciphertext@ == spec_aes256gcm_encrypt(ck, share.nonce@, payload)
    &&& share.wrapped_key@ == spec_aes256gcm_encrypt(wrap, share.wrap_nonce@, ck)
    &&& share.kem_ciphertext@ == enc.0
    &&& share.kem_ciphertext@.len() == ML_KEM_768_CIPHERTEXT_LEN
    &&& share.ciphertext@.len() == payload.len() + AES_GCM_TAG_LEN
    &&& share.wrapped_key@.len() == 32 + AES_GCM_TAG_LEN
}

/// `share` is what the sender with X25519 secret `sx` produces for the recipient keys
/// `(rx_pub, kem_pub)` and payload `payload`, for some content key and KEM randomness.
pub open spec fn share_made_for(share: Share, sx: Seq<u8>, rx_pub: Seq<u8>, kem_pub: Seq<u8>, payload: Seq<u8>) -> bool {
    exists|ck: Seq<u8>, m: Seq<u8>|
        ck.len() == 32 && m.len() == 32 && #[trigger] sent_share(share, sx, rx_pub, kem_pub, payload, ck, m)
}

/// What the recipient with KEM seed `kem_seed` and X25519 secret `x_secret` gets from
/// `share` when the sender's X25519 public key is `sender_pub`.
pub open spec fn received(
    kem_seed: Seq<u8>,
    x_secret: Seq<u8>,
    sender_pub: Seq<u8>,
    share: Share,
) -> Result<Seq<u8>, EnvelopeError> {
    if share.kem_ciphertext@.len() != ML_KEM_768_CIPHERTEXT_LEN {
        Err(EnvelopeError::KemCiphertextLength)
    } else {
        let wrap = combine_spec(
            spec_x25519_dh(x_secret, sender_pub),
            spec_mlkem768_decapsulate(kem_seed, share.kem_ciphertext@),
        );
        match spec_aes256gcm_decrypt(wrap, share.wrap_nonce@, share.wrapped_key@) {
            None => Err(EnvelopeError::UnwrapFailed),
            Some(ck) => if ck.len() != 32 {
                Err(EnvelopeError::ContentKeyLength)
            } else {
                match spec_aes256gcm_decrypt(ck, share.nonce@, share.ciphertext@) {
                    None => Err(EnvelopeError::PayloadDecryptFailed),
                    Some(p) => Ok(p),
                }
            },
        }
    }
}

/// ML-KEM decapsulation gives back the encapsulated key for this seed and randomness (it
/// does except with negligible probability, so it is a hypothesis, not a claim).
pub open spec fn kem_round_trip(kem_seed: Seq<u8>, m: Seq<u8>) -> bool {
    let enc = spec_mlkem768_encapsulate(spec_mlkem768_encapsulation_key(kem_seed), m);
    spec_mlkem768_decapsulate(kem_seed, enc.0) == enc.1
}

/// The `info` label bytes.
fn wrap_info_bytes() -> (info: Vec<u8>)
    ensures
        info@ == wrap_info(),
{
    let info: Vec<u8> = vec![108u8, 111, 99, 115, 104, 97, 114, 101, 45, 119, 114, 97, 112, 45, 118, 49];
    assert(info@ =~= wrap_info());
    info
}

/// HKDF-SHA256 over the concatenation of both halves of the hybrid agreement: security
/// holds as long as either half holds.
pub fn combine(x25519_shared: &[u8; 32], kem_shared: &[u8]) -> (key: [u8; 32])
    ensures
        key@ == combine_spec(x25519_shared@, kem_shared@),
        key@ == spec_hkdf_sha256_32(None, x25519_shared@ + kem_shared@, seq![108u8, 111, 99, 115, 104, 97, 114, 101, 45, 119, 114, 97, 112, 45, 118, 49]),
{
    let mut ikm: Vec<u8> = Vec::new();
    append_bytes(&mut ikm, x25519_shared.as_slice());
    append_bytes(&mut ikm, kem_shared);
    let info = wrap_info_bytes();
    assert(info@ =~= seq![108u8, 111, 99, 115, 104, 97, 114, 101, 45, 119, 114, 97, 112, 45, 118, 49]);
    hkdf_sha256_32(None, ikm.as_slice(), info.as_slice())
}

/// The wrap key of a share is HKDF-SHA256, without salt and with info
/// `b"locshare-wrap-v1"`, over the X25519 shared secret followed by the ML-KEM shared
/// secret: both halves of the hybrid agreement go into it, so two KEM secrets of the same
/// length that differ give different key-derivation inputs.
pub proof fn lemma_wrap_key_uses_both_halves(x25519_shared: Seq<u8>, kem_shared: Seq<u8>, other_kem: Seq<u8>)
    requires
        kem_shared.len() == other_kem.len(),
    ensures
        combine_spec(x25519_shared, kem_shared) == spec_hkdf_sha256_32(
            None,
            x25519_shared + kem_shared,
            seq![108u8, 111, 99, 115, 104, 97, 114, 101, 45, 119, 114, 97, 112, 45, 118, 49],
        ),
        kem_shared != other_kem ==> x25519_shared + kem_shared != x25519_shared + other_kem,
{
    assert(wrap_info() =~= seq![108u8, 111, 99, 115, 104, 97, 114, 101, 45, 119, 114, 97, 112, 45, 118, 49]);
    if kem_shared != other_kem && x25519_shared + kem_shared == x25519_shared + other_kem {
        assert(kem_shared =~= (x25519_shared + kem_shared).skip(x25519_shared.len() as int));
        assert(other_kem =~= (x25519_shared + other_kem).skip(x25519_shared.len() as int));
    }
}

/// AES-256-GCM encryption of a plaintext that is not too long.
pub fn aes_gcm_encrypt(key_bytes: &[u8; 32], nonce: &[u8; 12], plaintext: &[u8]) -> (ct: Vec<u8>)
    requires
        plaintext@.len() <= AES_GCM_P_MAX,
    ensures
        ct@ == spec_aes256gcm_encrypt(key_bytes@, nonce@, plaintext@),
        ct@.len() == plaintext@.len() + AES_GCM_TAG_LEN,
{
    let r = aes256gcm_encrypt(key_bytes, nonce, plaintext);
    r.unwrap()
}

/// The wrap key and KEM ciphertext the sender derives for a recipient.
pub struct DerivedWrapKey {
    pub shared_key: [u8; 32],
    pub kem_ciphertext: Vec<u8>,
}

/// Sender side of the hybrid agreement, with KEM randomness `m`; fails if the recipient's
/// KEM key does not pass the encapsulation-key check.
pub fn derive_wrap_key_for_sender(
    sender: &Identity,
    recipient_x25519_pub: &[u8; 32],
    recipient_kem_pub_bytes: &[u8],
    m: &[u8; 32],
) -> (r: Result<DerivedWrapKey, EnvelopeError>)
    ensures
        r is Err <==> !spec_mlkem768_key_valid(recipient_kem_pub_bytes@),
        r matches Err(e) ==> e == EnvelopeError::InvalidKemPublicKey,
        r matches Ok(w) ==> {
            let enc = spec_mlkem768_encapsulate(recipient_kem_pub_bytes@, m@);
            &&& w.shared_key@ == combine_spec(
                spec_x25519_dh(sender.x25519_secret_bytes(), recipient_x25519_pub@),
                enc.1,
            )
            &&& w.kem_ciphertext@ == enc.0
            &&& w.kem_ciphertext@.len() == ML_KEM_768_CIPHERTEXT_LEN
        },
{
    let x25519_shared = x25519_diffie_hellman(sender.x25519_secret(), recipient_x25519_pub);
    let recipient_ek = match EncapsulationKey::from_bytes(recipient_kem_pub_bytes) {
        Some(k) => k,
        None => return Err(EnvelopeError::InvalidKemPublicKey),
    };
    let (kem_ciphertext, kem_shared) = recipient_ek.encapsulate(m);
    Ok(DerivedWrapKey { shared_key: combine(&x25519_shared, kem_shared.as_slice()), kem_ciphertext })
}

/// Encrypts a location payload for one recipient with the given content key, nonces and
/// KEM randomness; fails exactly when the recipient's KEM key is invalid.
pub fn share_location_with(
    sender: &Identity,
    recipient_x25519_pub: &[u8; 32],
    recipient_kem_pub_bytes: &[u8],
    payload: &[u8],
    ck: &[u8; 32],
    nonce: &[u8; 12],
    wrap_nonce: &[u8; 12],
    m: &[u8; 32],
) -> (r: Result<Share, EnvelopeError>)
    requires
        payload@.len() <= AES_GCM_P_MAX,
    ensures
        r is Err <==> !spec_mlkem768_key_valid(recipient_kem_pub_bytes@),
        r matches Err(e) ==> e == EnvelopeError::InvalidKemPublicKey,
        r matches Ok(s) ==> {
            &&& s.nonce@ == nonce@
            &&& s.wrap_nonce@ == wrap_nonce@
            &&& sent_share(
                s,
                sender.x25519_secret_bytes(),
                recipient_x25519_pub@,
                recipient_kem_pub_bytes@,
                payload@,
                ck@,
                m@,
            )
        },
{
    let wrap_key = match derive_wrap_key_for_sender(sender, recipient_x25519_pub, recipient_kem_pub_bytes, m) {
        Ok(w) => w,
        Err(e) => return Err(e),
    };
    let ciphertext = aes_gcm_encrypt(ck, nonce, payload);
    let wrapped_key = aes_gcm_encrypt(&wrap_key.shared_key, wrap_nonce, ck.as_slice());
    Ok(Share {
        ciphertext,
        nonce: *nonce,
        wrapped_key,
        wrap_nonce: *wrap_nonce,
        kem_ciphertext: wrap_key.kem_ciphertext,
    })
}

/// Encrypts a location payload for one recipient, with a fresh random content key, fresh
/// random nonces and fresh KEM randomness. Call once per recipient for a group share.
/// Fails exactly when the recipient's KEM key is not a valid ML-KEM-768 encapsulation key.
pub fn share_location(
    sender: &Identity,
    recipient_x25519_pub: &[u8; 32],
    recipient_kem_pub_bytes: &[u8],
    payload: &[u8],
) -> (r: Result<Share, EnvelopeError>)
    requires
        payload@.len() <= AES_GCM_P_MAX,
    ensures
        r is Err <==> !spec_mlkem768_key_valid(recipient_kem_pub_bytes@),
        r matches Err(e) ==> e == EnvelopeError::InvalidKemPublicKey,
        r matches Ok(s) ==> share_made_for(
            s,
            sender.x25519_secret_bytes(),
            recipient_x25519_pub@,
            recipient_kem_pub_bytes@,
            payload@,
        ),
{
    let ck = random_bytes::<32>();
    let nonce = random_bytes::<12>();
    let wrap_nonce = random_bytes::<12>();
    let m = random_bytes::<32>();
    let r = share_location_with(sender, recipient_x25519_pub, recipient_kem_pub_bytes, payload, &ck, &nonce, &wrap_nonce, &m);
    proof {
        if r is Ok {
            let s = r->Ok_0;
            assert(sent_share(s, sender.x25519_secret_bytes(), recipient_x25519_pub@, recipient_kem_pub_bytes@, payload@, ck@, m@));
        }
    }
    r
}

/// Recipient side of the hybrid agreement: the wrap key from the X25519 agreement with the
/// sender and the decapsulated KEM ciphertext; fails on a KEM ciphertext of the wrong length.
fn derive_wrap_key_for_recipient(
    recipient: &Identity,
    sender_x25519_pub: &[u8; 32],
    kem_ciphertext_bytes: &[u8],
) -> (r: Result<[u8; 32], EnvelopeError>)
    ensures
        r is Err <==> kem_ciphertext_bytes@.len() != ML_KEM_768_CIPHERTEXT_LEN,
        r matches Err(e) ==> e == EnvelopeError::KemCiphertextLength,
        r matches Ok(k) ==> k@ == combine_spec(
            spec_x25519_dh(recipient.x25519_secret_bytes(), sender_x25519_pub@),
            spec_mlkem768_decapsulate(recipient.kem_seed_bytes(), kem_ciphertext_bytes@),
        ),
        r matches Ok(k) ==> forall|sx: Seq<u8>|
            sx.len() == 32 && #[trigger] spec_x25519_public(sx) == sender_x25519_pub@ ==> k@ == combine_spec(
                spec_x25519_dh(sx, spec_x25519_public(recipient.x25519_secret_bytes())),
                spec_mlkem768_decapsulate(recipient.kem_seed_bytes(), kem_ciphertext_bytes@),
            ),
{
    proof {
        recipient.lemma_lengths();
    }
    let x25519_shared = x25519_diffie_hellman(recipient.x25519_secret(), sender_x25519_pub);
    let kem_shared = match recipient.kem_decapsulate(kem_ciphertext_bytes) {
        Some(k) => k,
        None => return Err(EnvelopeError::KemCiphertextLength),
    };
    Ok(combine(&x25519_shared, kem_shared.as_slice()))
}

/// Decrypts a received share. Errors on a KEM ciphertext of the wrong length, on a content
/// key that does not unwrap or is not 32 bytes, and on a payload that does not decrypt.
///
/// A share made by `share_location_with` for this recipient's public keys opens to its
/// payload, given the sender's X25519 public key and a successful ML-KEM decapsulation.
pub fn receive_location(recipient: &Identity, sender_x25519_pub: &[u8; 32], share: &Share) -> (r: Result<
    Vec<u8>,
    EnvelopeError,
>)
    ensures
        match r {
            Ok(p) => received(
                recipient.kem_seed_bytes(),
                recipient.x25519_secret_bytes(),
                sender_x25519_pub@,
                *share,
            ) == Ok::<Seq<u8>, EnvelopeError>(p@),
            Err(e) => received(
                recipient.kem_seed_bytes(),
                recipient.x25519_secret_bytes(),
                sender_x25519_pub@,
                *share,
            ) == Err::<Seq<u8>, EnvelopeError>(e),
        },
        forall|sx: Seq<u8>, payload: Seq<u8>, ck: Seq<u8>, m: Seq<u8>|
            sx.len() == 32 && ck.len() == 32 && payload.len() <= AES_GCM_P_MAX
                && sender_x25519_pub@ == spec_x25519_public(sx) && kem_round_trip(
                recipient.kem_seed_bytes(),
                m,
            ) && #[trigger] sent_share(
                *share,
                sx,
                spec_x25519_public(recipient.x25519_secret_bytes()),
                spec_mlkem768_encapsulation_key(recipient.kem_seed_bytes()),
                payload,
                ck,
                m,
            ) ==> (r matches Ok(p) && p@ == payload),
{
    let wrap_key = match derive_wrap_key_for_recipient(recipient, sender_x25519_pub, share.kem_ciphertext.as_slice()) {
        Ok(k) => k,
        Err(e) => return Err(e),
    };
    let ck = match aes256gcm_decrypt(&wrap_key, &share.wrap_nonce, share.wrapped_key.as_slice()) {
        Some(ck) => ck,
        None => return Err(EnvelopeError::UnwrapFailed),
    };
    if ck.len() != 32 {
        return Err(EnvelopeError::ContentKeyLength);
    }
    let ck_arr: [u8; 32] = to_array(ck.as_slice());
    match aes256gcm_decrypt(&ck_arr, &share.nonce, share.ciphertext.as_slice()) {
        Some(p) => Ok(p),
        None => Err(EnvelopeError::PayloadDecryptFailed),
    }
}

} // verus!
