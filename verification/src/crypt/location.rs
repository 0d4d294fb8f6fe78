//! A location update from a sender to one recipient: an ephemeral-static hybrid
//! encapsulation (X25519 with an ephemeral key, ML-KEM-768 against the recipient's key)
//! gives a wrap key; the payload is encrypted under a fresh content key, which is wrapped
//! under the wrap key; the sender signs its id, the sequence number and the handshake
//! material with ML-DSA-65. The recipient verifies the signature before anything else,
//! then applies the replay guard, then decrypts.
use vstd::prelude::*;

use vstd::utf8::encode_utf8;

use crate::bytes::{
    append_bytes, be_u32, be_u64, lemma_be_u32_injective, lemma_be_u64_injective, push_be_u32,
    push_be_u64, to_array,
};
use crate::crypt::bundle::{
    encapsulation_key_from_bundle, validate_peer_bundle, verifying_key_from_bundle, CryptError, IdentityBundle,
    LocalIdentity, PairedContact,
};
use crate::keys::{DecapsulationKey, EncapsulationKey, EphemeralSecret, SigningKey, StaticSecret, VerifyingKey};
use crate::primitives::{
    aes256gcm_decrypt, aes256gcm_encrypt, hkdf_sha256_32, mldsa65_sign,
    mldsa65_signature_decodes, mldsa65_verify, mlkem768_decapsulate, random_bytes,
    spec_aes256gcm_decrypt, spec_aes256gcm_encrypt, spec_hkdf_sha256_32, spec_mldsa65_sign,
    spec_mldsa65_signature_decodes, spec_mldsa65_verify, spec_mldsa65_verifying_key,
    spec_mlkem768_decapsulate, spec_mlkem768_encapsulate, spec_mlkem768_encapsulation_key,
    spec_x25519_dh, spec_x25519_public, x25519_diffie_hellman, x25519_public, AES_GCM_P_MAX, AES_GCM_TAG_LEN,
    ML_DSA_65_SIGNATURE_LEN,
    ML_DSA_65_PUBLIC_KEY_LEN, ML_KEM_768_CIPHERTEXT_LEN, ML_KEM_768_PUBLIC_KEY_LEN, spec_mlkem768_key_valid,
};
use crate::replay::{replay_accepts, spec_replay_accepts, ReplayGuard};

verus! {

/// One location update as it travels through the server inbox.
#[derive(Clone, Debug)]
pub struct LocationUpdatePackage {
    pub sender_id: String,
    /// Per-sender monotonic counter. This, not `timestamp`, is what stops replay.
    pub sequence: u64,
    pub ciphertext: Vec<u8>,
    pub wrapped_key: Vec<u8>,
    pub ct_pq: Vec<u8>,
    pub x_eph: [u8; 32],
    pub sig: Vec<u8>,
    pub n1: [u8; 12],
    pub n2: [u8; 12],
    pub timestamp: u64,
}

/// What the sender is told after an update was posted to a contact's inbox.
#[derive(Clone, Debug)]
pub struct SentLocationUpdate {
    pub contact_device_id: String,
    pub contact_device_name: String,
    pub sequence: u64,
    pub timestamp: u64,
}

/// Why a received update was refused.
#[derive(Clone, Copy, Debug, PartialEq, Eq, Structural)]
pub enum ReceiveError {
    /// The signature bytes do not decode as an ML-DSA-65 signature.
    SignatureEncoding,
    /// The signature does not verify against the sender's pinned key.
    SignatureInvalid,
    /// The replay guard refused the sequence number.
    Replayed,
    /// The KEM ciphertext does not have the ML-KEM-768 ciphertext length.
    KemCiphertextLength,
    /// The content key did not unwrap.
    UnwrapFailed,
    /// The unwrapped content key is not an AES-256 key.
    ContentKeyInvalid,
    /// The payload did not decrypt.
    PayloadDecryptFailed,
    /// The sender's pinned bundle has no usable ML-DSA key.
    SenderKey(CryptError),
}

impl ReceiveError {
    /// The human-readable description, as text.
    pub open spec fn description(self) -> Seq<char> {
        match self {
            ReceiveError::SignatureEncoding => "failed to parse signature"@,
            ReceiveError::SignatureInvalid => "ML-DSA-65 signature verification failed"@,
            ReceiveError::Replayed => "replayed or out-of-order sequence number"@,
            ReceiveError::KemCiphertextLength => "invalid KEM ciphertext length"@,
            ReceiveError::UnwrapFailed => "failed to unwrap content key"@,
            ReceiveError::ContentKeyInvalid => "invalid content key"@,
            ReceiveError::PayloadDecryptFailed => "failed to decrypt location payload"@,
            ReceiveError::SenderKey(e) => e.description(),
        }
    }

    /// Human-readable description.
    pub fn message(&self) -> (m: &'static str)
        ensures
            m@ == self.description(),
    {
        match self {
            ReceiveError::SignatureEncoding => "failed to parse signature",
            ReceiveError::SignatureInvalid => "ML-DSA-65 signature verification failed",
            ReceiveError::Replayed => "replayed or out-of-order sequence number",
            ReceiveError::KemCiphertextLength => "invalid KEM ciphertext length",
            ReceiveError::UnwrapFailed => "failed to unwrap content key",
            ReceiveError::ContentKeyInvalid => "invalid content key",
            ReceiveError::PayloadDecryptFailed => "failed to decrypt location payload",
            ReceiveError::SenderKey(e) => e.message(),
        }
    }
}

pub open spec fn result_view<E>(r: Result<Vec<u8>, E>) -> Result<Seq<u8>, E> {
    match r {
        Ok(v) => Ok(v@),
        Err(e) => Err(e),
    }
}

// ---------------------------------------------------------------------------------------
// The signed message
// ---------------------------------------------------------------------------------------

/// The byte string that is signed: the sender id and the KEM ciphertext and wrapped key
/// each behind its 32-bit big-endian length, the sequence number and timestamp as 64-bit
/// big-endian integers, and the ephemeral X25519 public key.
pub open spec fn signed_message(
    sender: Seq<u8>,
    sequence: u64,
    x_eph: Seq<u8>,
    ct_pq: Seq<u8>,
    wrapped_key: Seq<u8>,
    timestamp: u64,
) -> Seq<u8> {
    be_u32(sender.len() as u32) + (sender + (be_u64(sequence) + (x_eph + (be_u32(ct_pq.len() as u32)
        + (ct_pq + (be_u32(wrapped_key.len() as u32) + (wrapped_key + be_u64(timestamp))))))))
}

/// The signed message of a package.
pub open spec fn package_message(p: LocationUpdatePackage) -> Seq<u8> {
    signed_message(encode_utf8(p.sender_id@), p.sequence, p.x_eph@, p.ct_pq@, p.wrapped_key@, p.timestamp)
}

/// Byte string that gets signed and verified. `sender_id` and `sequence` are bound in
/// here so the signature can't be replayed under a different identity, and
/// variable-length fields are length-prefixed so there is no ambiguity about where one
/// field ends and the next begins (see `lemma_signed_message_injective`).
pub fn build_signed_message(
    sender_id: &str,
    sequence: u64,
    x_eph: &[u8; 32],
    ct_pq: &[u8],
    wrapped_key: &[u8],
    timestamp: u64,
) -> (msg: Vec<u8>)
    ensures
        msg@ == signed_message(encode_utf8(sender_id@), sequence, x_eph@, ct_pq@, wrapped_key@, timestamp),
{
    let id = sender_id.as_bytes();
    let mut msg: Vec<u8> = Vec::new();
    push_be_u32(&mut msg, #[verifier::truncate] (id.len() as u32));
    append_bytes(&mut msg, id);
    push_be_u64(&mut msg, sequence);
    append_bytes(&mut msg, x_eph.as_slice());
    push_be_u32(&mut msg, #[verifier::truncate] (ct_pq.len() as u32));
    append_bytes(&mut msg, ct_pq);
    push_be_u32(&mut msg, #[verifier::truncate] (wrapped_key.len() as u32));
    append_bytes(&mut msg, wrapped_key);
    push_be_u64(&mut msg, timestamp);
    assert(msg@ =~= signed_message(encode_utf8(sender_id@), sequence, x_eph@, ct_pq@, wrapped_key@, timestamp));
    msg
}

proof fn lemma_split_eq(a1: Seq<u8>, b1: Seq<u8>, a2: Seq<u8>, b2: Seq<u8>)
    requires
        a1.len() == a2.len(),
        a1 + b1 == a2 + b2,
    ensures
        a1 == a2,
        b1 == b2,
{
    assert(a1 =~= (a1 + b1).take(a1.len() as int));
    assert(a2 =~= (a2 + b2).take(a2.len() as int));
    assert(b1 =~= (a1 + b1).skip(a1.len() as int));
    assert(b2 =~= (a2 + b2).skip(a2.len() as int));
}

/// The signed message determines every field it is built from (for fields whose lengths
/// fit the 32-bit length prefix): two updates sign the same bytes only if they agree on
/// sender, sequence number, ephemeral key, KEM ciphertext, wrapped key and timestamp.
#[verifier::spinoff_prover]
#[verifier::rlimit(60)]
pub proof fn lemma_signed_message_injective(
    s1: Seq<u8>, q1: u64, x1: Seq<u8>, c1: Seq<u8>, w1: Seq<u8>, t1: u64,
    s2: Seq<u8>, q2: u64, x2: Seq<u8>, c2: Seq<u8>, w2: Seq<u8>, t2: u64,
)
    requires
        x1.len() == 32,
        x2.len() == 32,
        s1.len() < 0x100000000,
        s2.len() < 0x100000000,
        c1.len() < 0x100000000,
        c2.len() < 0x100000000,
        w1.len() < 0x100000000,
        w2.len() < 0x100000000,
        signed_message(s1, q1, x1, c1, w1, t1) == signed_message(s2, q2, x2, c2, w2, t2),
    ensures
        s1 == s2,
        q1 == q2,
        x1 == x2,
        c1 == c2,
        w1 == w2,
        t1 == t2,
{
    let r1 = s1 + (be_u64(q1) + (x1 + (be_u32(c1.len() as u32) + (c1 + (be_u32(w1.len() as u32) + (w1 + be_u64(t1)))))));
    let r2 = s2 + (be_u64(q2) + (x2 + (be_u32(c2.len() as u32) + (c2 + (be_u32(w2.len() as u32) + (w2 + be_u64(t2)))))));
    lemma_split_eq(be_u32(s1.len() as u32), r1, be_u32(s2.len() as u32), r2);
    lemma_be_u32_injective(s1.len() as u32, s2.len() as u32);
    let r1 = be_u64(q1) + (x1 + (be_u32(c1.len() as u32) + (c1 + (be_u32(w1.len() as u32) + (w1 + be_u64(t1))))));
    let r2 = be_u64(q2) + (x2 + (be_u32(c2.len() as u32) + (c2 + (be_u32(w2.len() as u32) + (w2 + be_u64(t2))))));
    lemma_split_eq(s1, r1, s2, r2);
    let r1 = x1 + (be_u32(c1.len() as u32) + (c1 + (be_u32(w1.len() as u32) + (w1 + be_u64(t1)))));
    let r2 = x2 + (be_u32(c2.len() as u32) + (c2 + (be_u32(w2.len() as u32) + (w2 + be_u64(t2)))));
    lemma_split_eq(be_u64(q1), r1, be_u64(q2), r2);
    lemma_be_u64_injective(q1, q2);
    let r1 = be_u32(c1.len() as u32) + (c1 + (be_u32(w1.len() as u32) + (w1 + be_u64(t1))));
    let r2 = be_u32(c2.len() as u32) + (c2 + (be_u32(w2.len() as u32) + (w2 + be_u64(t2))));
    lemma_split_eq(x1, r1, x2, r2);
    let r1 = c1 + (be_u32(w1.len() as u32) + (w1 + be_u64(t1)));
    let r2 = c2 + (be_u32(w2.len() as u32) + (w2 + be_u64(t2)));
    lemma_split_eq(be_u32(c1.len() as u32), r1, be_u32(c2.len() as u32), r2);
    lemma_be_u32_injective(c1.len() as u32, c2.len() as u32);
    let r1 = be_u32(w1.len() as u32) + (w1 + be_u64(t1));
    let r2 = be_u32(w2.len() as u32) + (w2 + be_u64(t2));
    lemma_split_eq(c1, r1, c2, r2);
    let r1 = w1 + be_u64(t1);
    let r2 = w2 + be_u64(t2);
    lemma_split_eq(be_u32(w1.len() as u32), r1, be_u32(w2.len() as u32), r2);
    lemma_be_u32_injective(w1.len() as u32, w2.len() as u32);
    lemma_split_eq(w1, be_u64(t1), w2, be_u64(t2));
    lemma_be_u64_injective(t1, t2);
}

// ---------------------------------------------------------------------------------------
// Sending
// ---------------------------------------------------------------------------------------

/// The HKDF `info` label of the wrap key, `b"location_wrap"`.
pub open spec fn location_wrap_info() -> Seq<u8> {
    seq![108u8, 111, 99, 97, 116, 105, 111, 110, 95, 119, 114, 97, 112]
}

/// The wrap key: HKDF-SHA256 over both shared secrets, the ephemeral public key and the
/// KEM ciphertext.
pub open spec fn location_wrap_key(ss_classic: Seq<u8>, ss_pq: Seq<u8>, x_eph_pub: Seq<u8>, ct_pq: Seq<u8>) -> Seq<u8> {
    spec_hkdf_sha256_32(None, ss_classic + ss_pq + x_eph_pub + ct_pq, location_wrap_info())
}

/// `pkg` is what the sender with ML-DSA seed `alice_seed` produces for the recipient keys
/// `(bob_kem_pub, bob_x_pub)`, payload `payload`, content key `ck`, ephemeral X25519
/// secret `eph` and KEM randomness `m`, with the package's own nonces, id, sequence number
/// and timestamp.
pub open spec fn sent_update(
    pkg: LocationUpdatePackage,
    bob_kem_pub: Seq<u8>,
    bob_x_pub: Seq<u8>,
    alice_seed: Seq<u8>,
    payload: Seq<u8>,
    ck: Seq<u8>,
    eph: Seq<u8>,
    m: Seq<u8>,
) -> bool {
    let x_eph_pub = spec_x25519_public(eph);
    let enc = spec_mlkem768_encapsulate(bob_kem_pub, m);
    let wrap = location_wrap_key(spec_x25519_dh(eph, bob_x_pub), enc.1, x_eph_pub, enc.0);
    &&& pkg.x_eph@ == x_eph_pub
    &&& pkg.ct_pq@ == enc.0
    &&& pkg.ct_pq@.len() == ML_KEM_768_CIPHERTEXT_LEN
    &&& pkg.ciphertext@ == spec_aes256gcm_encrypt(ck, pkg.n1@, payload)
    &&& pkg.wrapped_key@ == spec_aes256gcm_encrypt(wrap, pkg.n2@, ck)
    &&& spec_mldsa65_sign(alice_seed, package_message(pkg)) == Some(pkg.sig@)
    &&& spec_mldsa65_signature_decodes(pkg.sig@)
    &&& pkg.ciphertext@.len() == payload.len() + AES_GCM_TAG_LEN
    &&& pkg.wrapped_key@.len() == 32 + AES_GCM_TAG_LEN
    &&& pkg.sig@.len() == ML_DSA_65_SIGNATURE_LEN
}

/// The message the sender signs for an update to the recipient keys
/// `(bob_kem_pub, bob_x_pub)` with content key `ck`, ephemeral X25519 secret `eph`, KEM
/// randomness `m` and wrap nonce `n2`.
pub open spec fn update_message(
    bob_kem_pub: Seq<u8>,
    bob_x_pub: Seq<u8>,
    sender_id: Seq<char>,
    sequence: u64,
    timestamp: u64,
    ck: Seq<u8>,
    eph: Seq<u8>,
    m: Seq<u8>,
    n2: Seq<u8>,
) -> Seq<u8> {
    let x_eph_pub = spec_x25519_public(eph);
    let enc = spec_mlkem768_encapsulate(bob_kem_pub, m);
    let wrap = location_wrap_key(spec_x25519_dh(eph, bob_x_pub), enc.1, x_eph_pub, enc.0);
    signed_message(encode_utf8(sender_id), sequence, x_eph_pub, enc.0, spec_aes256gcm_encrypt(wrap, n2, ck), timestamp)
}

/// The wrap key of an update is HKDF-SHA256, without salt and with info
/// `b"location_wrap"`, over the classical shared secret, the ML-KEM shared secret, the
/// ephemeral public key and the KEM ciphertext, in that order: two ML-KEM secrets that
/// differ (with the other parts the same) give different key-derivation inputs.
pub proof fn lemma_location_wrap_key_uses_kem_secret(
    ss_classic: Seq<u8>,
    ss_pq: Seq<u8>,
    other_pq: Seq<u8>,
    x_eph_pub: Seq<u8>,
    ct_pq: Seq<u8>,
)
    requires
        ss_pq.len() == other_pq.len(),
    ensures
        location_wrap_key(ss_classic, ss_pq, x_eph_pub, ct_pq) == spec_hkdf_sha256_32(
            None,
            ss_classic + ss_pq + x_eph_pub + ct_pq,
            seq![108u8, 111, 99, 97, 116, 105, 111, 110, 95, 119, 114, 97, 112],
        ),
        ss_pq != other_pq ==> ss_classic + ss_pq + x_eph_pub + ct_pq != ss_classic + other_pq + x_eph_pub + ct_pq,
{
    assert(location_wrap_info() =~= seq![108u8, 111, 99, 97, 116, 105, 111, 110, 95, 119, 114, 97, 112]);
    let a = ss_classic + ss_pq + x_eph_pub + ct_pq;
    let b = ss_classic + other_pq + x_eph_pub + ct_pq;
    if ss_pq != other_pq && a == b {
        assert(ss_pq =~= a.subrange(ss_classic.len() as int, (ss_classic.len() + ss_pq.len()) as int));
        assert(other_pq =~= b.subrange(ss_classic.len() as int, (ss_classic.len() + ss_pq.len()) as int));
    }
}

fn location_wrap_info_bytes() -> (info: Vec<u8>)
    ensures
        info@ == location_wrap_info(),
{
    let info: Vec<u8> = vec![108u8, 111, 99, 97, 116, 105, 111, 110, 95, 119, 114, 97, 112];
    assert(info@ =~= location_wrap_info());
    info
}

fn derive_location_wrap_key(ss_classic: &[u8; 32], ss_pq: &[u8; 32], x_eph_pub: &[u8; 32], ct_pq: &[u8]) -> (key: [u8; 32])
    ensures
        key@ == location_wrap_key(ss_classic@, ss_pq@, x_eph_pub@, ct_pq@),
        key@ == spec_hkdf_sha256_32(None, ss_classic@ + ss_pq@ + x_eph_pub@ + ct_pq@, seq![108u8, 111, 99, 97, 116, 105, 111, 110, 95, 119, 114, 97, 112]),
{
    let mut ikm: Vec<u8> = Vec::new();
    append_bytes(&mut ikm, ss_classic.as_slice());
    append_bytes(&mut ikm, ss_pq.as_slice());
    append_bytes(&mut ikm, x_eph_pub.as_slice());
    append_bytes(&mut ikm, ct_pq);
    let info = location_wrap_info_bytes();
    hkdf_sha256_32(None, ikm.as_slice(), info.as_slice())
}

/// The update for a recipient with the given content key, ephemeral secret, KEM
/// randomness and nonces; `None` exactly when ML-DSA signing gives up.
pub fn send_location_update_with(
    bob_kem_pub: &EncapsulationKey,
    bob_x25519_pub_bytes: &[u8; 32],
    alice_mldsa_priv: &SigningKey,
    sender_id: String,
    sequence: u64,
    payload: &[u8],
    timestamp: u64,
    ck: &[u8; 32],
    x_eph_sec: &EphemeralSecret,
    m: &[u8; 32],
    n1: &[u8; 12],
    n2: &[u8; 12],
) -> (r: Option<LocationUpdatePackage>)
    requires
        payload@.len() <= AES_GCM_P_MAX,
    ensures
        r is None <==> spec_mldsa65_sign(
            alice_mldsa_priv.seed@,
            update_message(
                bob_kem_pub@,
                bob_x25519_pub_bytes@,
                sender_id@,
                sequence,
                timestamp,
                ck@,
                x_eph_sec.bytes@,
                m@,
                n2@,
            ),
        ) is None,
        r matches Some(p) ==> {
            &&& p.sender_id@ == sender_id@
            &&& p.sequence == sequence
            &&& p.timestamp == timestamp
            &&& p.n1 == *n1
            &&& p.n2 == *n2
            &&& sent_update(
                p,
                bob_kem_pub@,
                bob_x25519_pub_bytes@,
                alice_mldsa_priv.seed@,
                payload@,
                ck@,
                x_eph_sec.bytes@,
                m@,
            )
        },
{
    // Hybrid encapsulation: classical DH with the ephemeral key, PQ KEM.
    let x_eph_pub = x25519_public(&x_eph_sec.bytes);
    let ss_classic = x25519_diffie_hellman(&x_eph_sec.bytes, bob_x25519_pub_bytes);
    let (ct_pq, ss_pq) = bob_kem_pub.encapsulate(m);
    // The wrap key.
    let wrap_key = derive_location_wrap_key(&ss_classic, &ss_pq, &x_eph_pub, ct_pq.as_slice());
    // Payload under the content key, content key under the wrap key.
    let ciphertext = aes256gcm_encrypt(ck, n1, payload).unwrap();
    let wrapped_key = aes256gcm_encrypt(&wrap_key, n2, ck.as_slice()).unwrap();
    // Signature over sender id, sequence number and handshake material.
    let msg = build_signed_message(sender_id.as_str(), sequence, &x_eph_pub, ct_pq.as_slice(), wrapped_key.as_slice(), timestamp);
    let sig = match mldsa65_sign(&alice_mldsa_priv.seed, msg.as_slice()) {
        Some(s) => s,
        None => return None,
    };
    Some(LocationUpdatePackage {
        sender_id,
        sequence,
        ciphertext,
        wrapped_key,
        ct_pq,
        x_eph: x_eph_pub,
        sig,
        n1: *n1,
        n2: *n2,
        timestamp,
    })
}

/// The update for a recipient, with a fresh random content key, ephemeral X25519 key, KEM
/// randomness and nonces; `None` only when ML-DSA signing gives up on the message built
/// from the drawn randomness.
pub fn send_location_update(
    bob_kem_pub: &EncapsulationKey,
    bob_x25519_pub_bytes: &[u8; 32],
    alice_mldsa_priv: &SigningKey,
    sender_id: String,
    sequence: u64,
    payload: &[u8],
    timestamp: u64,
) -> (r: Option<LocationUpdatePackage>)
    requires
        payload@.len() <= AES_GCM_P_MAX,
    ensures
        r is None ==> exists|ck: Seq<u8>, eph: Seq<u8>, m: Seq<u8>, n2: Seq<u8>|
            ck.len() == 32 && eph.len() == 32 && m.len() == 32 && n2.len() == 12 && spec_mldsa65_sign(
                alice_mldsa_priv.seed@,
                #[trigger] update_message(
                    bob_kem_pub@,
                    bob_x25519_pub_bytes@,
                    sender_id@,
                    sequence,
                    timestamp,
                    ck,
                    eph,
                    m,
                    n2,
                ),
            ) is None,
        r matches Some(p) ==> {
            &&& p.sender_id@ == sender_id@
            &&& p.sequence == sequence
            &&& p.timestamp == timestamp
            &&& exists|ck: Seq<u8>, eph: Seq<u8>, m: Seq<u8>|
                ck.len() == 32 && eph.len() == 32 && m.len() == 32 && #[trigger] sent_update(
                    p,
                    bob_kem_pub@,
                    bob_x25519_pub_bytes@,
                    alice_mldsa_priv.seed@,
                    payload@,
                    ck,
                    eph,
                    m,
                )
        },
{
    let ck = random_bytes::<32>();
    let x_eph_sec = EphemeralSecret { bytes: random_bytes::<32>() };
    let m = random_bytes::<32>();
    let n1 = random_bytes::<12>();
    let n2 = random_bytes::<12>();
    send_location_update_with(
        bob_kem_pub,
        bob_x25519_pub_bytes,
        alice_mldsa_priv,
        sender_id,
        sequence,
        payload,
        timestamp,
        &ck,
        &x_eph_sec,
        &m,
        &n1,
        &n2,
    )
}

/// Why an update could not be made for a contact.
#[derive(Clone, Copy, Debug, PartialEq, Eq, Structural)]
pub enum SendError {
    /// The contact's pinned bundle cannot be encrypted to.
    Contact(CryptError),
    /// ML-DSA signing gave up.
    SigningFailed,
}

impl SendError {
    /// The human-readable description, as text.
    pub open spec fn description(self) -> Seq<char> {
        match self {
            SendError::Contact(e) => e.description(),
            SendError::SigningFailed => "failed to sign location update"@,
        }
    }

    /// Human-readable description.
    pub fn message(&self) -> (m: &'static str)
        ensures
            m@ == self.description(),
    {
        match self {
            SendError::Contact(e) => e.message(),
            SendError::SigningFailed => "failed to sign location update",
        }
    }
}

/// The update this device sends a paired contact under `sequence` and `timestamp`, and
/// what it reports once the update was posted. The contact's pinned bundle must carry both
/// post-quantum keys at their full lengths, and its ML-KEM key must pass the
/// encapsulation-key check; past those, only ML-DSA signing can fail.
pub fn prepare_update_for_contact(
    contact: &PairedContact,
    identity: &LocalIdentity,
    sequence: u64,
    payload: &[u8],
    timestamp: u64,
) -> (r: Result<(LocationUpdatePackage, SentLocationUpdate), SendError>)
    requires
        payload@.len() <= AES_GCM_P_MAX,
    ensures
        !(contact.bundle.ml_kem_pub@.len() == ML_KEM_768_PUBLIC_KEY_LEN
            && contact.bundle.ml_dsa_pub@.len() == ML_DSA_65_PUBLIC_KEY_LEN) ==> r
            == Err::<(LocationUpdatePackage, SentLocationUpdate), SendError>(
            SendError::Contact(CryptError::MissingPostQuantumKeys),
        ),
        contact.bundle.ml_kem_pub@.len() == ML_KEM_768_PUBLIC_KEY_LEN
            && contact.bundle.ml_dsa_pub@.len() == ML_DSA_65_PUBLIC_KEY_LEN
            && !spec_mlkem768_key_valid(contact.bundle.ml_kem_pub@) ==> r
            == Err::<(LocationUpdatePackage, SentLocationUpdate), SendError>(
            SendError::Contact(CryptError::KemPublicKeyInvalid),
        ),
        contact.bundle.ml_kem_pub@.len() == ML_KEM_768_PUBLIC_KEY_LEN
            && contact.bundle.ml_dsa_pub@.len() == ML_DSA_65_PUBLIC_KEY_LEN
            && spec_mlkem768_key_valid(contact.bundle.ml_kem_pub@) ==> (r is Ok || r
            == Err::<(LocationUpdatePackage, SentLocationUpdate), SendError>(SendError::SigningFailed)),
        r == Err::<(LocationUpdatePackage, SentLocationUpdate), SendError>(SendError::SigningFailed) ==> exists|
            ck: Seq<u8>,
            eph: Seq<u8>,
            m: Seq<u8>,
            n2: Seq<u8>,
        |
            ck.len() == 32 && eph.len() == 32 && m.len() == 32 && n2.len() == 12 && spec_mldsa65_sign(
                identity.ml_dsa_seed@,
                #[trigger] update_message(
                    contact.bundle.ml_kem_pub@,
                    contact.bundle.x25519_pub@,
                    identity.bundle.device_id@,
                    sequence,
                    timestamp,
                    ck,
                    eph,
                    m,
                    n2,
                ),
            ) is None,
        r matches Ok((p, sent)) ==> {
            &&& p.sender_id@ == identity.bundle.device_id@
            &&& p.sequence == sequence
            &&& p.timestamp == timestamp
            &&& exists|ck: Seq<u8>, eph: Seq<u8>, m: Seq<u8>|
                ck.len() == 32 && eph.len() == 32 && m.len() == 32 && #[trigger] sent_update(
                    p,
                    contact.bundle.ml_kem_pub@,
                    contact.bundle.x25519_pub@,
                    identity.ml_dsa_seed@,
                    payload@,
                    ck,
                    eph,
                    m,
                )
            &&& sent.contact_device_id@ == contact.device_id@
            &&& sent.contact_device_name@ == contact.device_name@
            &&& sent.sequence == sequence
            &&& sent.timestamp == timestamp
        },
{
    match validate_peer_bundle(&contact.bundle) {
        Ok(()) => {},
        Err(e) => return Err(SendError::Contact(e)),
    }
    let bob_kem_pub = match encapsulation_key_from_bundle(&contact.bundle) {
        Ok(k) => k,
        Err(e) => return Err(SendError::Contact(e)),
    };
    let package = match send_location_update(
        &bob_kem_pub,
        &contact.bundle.x25519_pub,
        &identity.signing_key(),
        identity.bundle.device_id.clone(),
        sequence,
        payload,
        timestamp,
    ) {
        Some(p) => p,
        None => return Err(SendError::SigningFailed),
    };
    let sent = SentLocationUpdate {
        contact_device_id: contact.device_id.clone(),
        contact_device_name: contact.device_name.clone(),
        sequence,
        timestamp,
    };
    Ok((package, sent))
}

// ---------------------------------------------------------------------------------------
// Receiving
// ---------------------------------------------------------------------------------------

/// The signature check of a package against the sender's pinned key.
pub open spec fn signature_check(pkg: LocationUpdatePackage, vk: Seq<u8>) -> Result<(), ReceiveError> {
    if !spec_mldsa65_signature_decodes(pkg.sig@) {
        Err(ReceiveError::SignatureEncoding)
    } else if !spec_mldsa65_verify(vk, package_message(pkg), pkg.sig@) {
        Err(ReceiveError::SignatureInvalid)
    } else {
        Ok(())
    }
}

/// What decapsulating and decrypting a package gives the recipient with KEM seed
/// `kem_seed` and X25519 secret `x_secret`.
pub open spec fn opened_update(pkg: LocationUpdatePackage, kem_seed: Seq<u8>, x_secret: Seq<u8>) -> Result<Seq<u8>, ReceiveError> {
    if pkg.ct_pq@.len() != ML_KEM_768_CIPHERTEXT_LEN {
        Err(ReceiveError::KemCiphertextLength)
    } else {
        let wrap = location_wrap_key(
            spec_x25519_dh(x_secret, pkg.x_eph@),
            spec_mlkem768_decapsulate(kem_seed, pkg.ct_pq@),
            pkg.x_eph@,
            pkg.ct_pq@,
        );
        match spec_aes256gcm_decrypt(wrap, pkg.n2@, pkg.wrapped_key@) {
            None => Err(ReceiveError::UnwrapFailed),
            Some(ck) => if ck.len() != 32 {
                Err(ReceiveError::ContentKeyInvalid)
            } else {
                match spec_aes256gcm_decrypt(ck, pkg.n1@, pkg.ciphertext@) {
                    None => Err(ReceiveError::PayloadDecryptFailed),
                    Some(p) => Ok(p),
                }
            },
        }
    }
}

/// ML-KEM decapsulation gives back the encapsulated key for this seed and randomness (it
/// does except with negligible probability, so it is a hypothesis, not a claim).
pub open spec fn kem_round_trip(kem_seed: Seq<u8>, m: Seq<u8>) -> bool {
    let enc = spec_mlkem768_encapsulate(spec_mlkem768_encapsulation_key(kem_seed), m);
    spec_mlkem768_decapsulate(kem_seed, enc.0) == enc.1
}

/// Verifies the package's signature over sender id, sequence number and handshake
/// material against the sender's pinned key. A package signed with the seed of that key
/// passes.
pub fn check_location_update(package: &LocationUpdatePackage, alice_mldsa_pub: &VerifyingKey) -> (r: Result<(), ReceiveError>)
    ensures
        r == signature_check(*package, alice_mldsa_pub@),
        forall|seed: Seq<u8>|
            seed.len() == 32 && #[trigger] spec_mldsa65_verifying_key(seed) == alice_mldsa_pub@
                && spec_mldsa65_sign(seed, package_message(*package)) == Some(package.sig@)
                && spec_mldsa65_signature_decodes(package.sig@) ==> r is Ok,
{
    let msg = build_signed_message(
        package.sender_id.as_str(),
        package.sequence,
        &package.x_eph,
        package.ct_pq.as_slice(),
        package.wrapped_key.as_slice(),
        package.timestamp,
    );
    if !mldsa65_signature_decodes(package.sig.as_slice()) {
        return Err(ReceiveError::SignatureEncoding);
    }
    if !mldsa65_verify(alice_mldsa_pub.as_bytes(), msg.as_slice(), package.sig.as_slice()) {
        return Err(ReceiveError::SignatureInvalid);
    }
    Ok(())
}

/// Decapsulates (classical DH and PQ KEM), rebuilds the wrap key, unwraps the content key
/// and decrypts the payload. A package made for this recipient's keys opens to its payload
/// (given a successful ML-KEM decapsulation).
pub fn open_location_update(
    package: &LocationUpdatePackage,
    bob_kem_priv: &DecapsulationKey,
    bob_x25519_priv: &StaticSecret,
) -> (r: Result<Vec<u8>, ReceiveError>)
    ensures
        result_view(r) == opened_update(*package, bob_kem_priv.seed@, bob_x25519_priv.bytes@),
        forall|alice_seed: Seq<u8>, payload: Seq<u8>, ck: Seq<u8>, eph: Seq<u8>, m: Seq<u8>|
            payload.len() <= AES_GCM_P_MAX && ck.len() == 32 && eph.len() == 32 && kem_round_trip(
                bob_kem_priv.seed@,
                m,
            ) && #[trigger] sent_update(
                *package,
                spec_mlkem768_encapsulation_key(bob_kem_priv.seed@),
                spec_x25519_public(bob_x25519_priv.bytes@),
                alice_seed,
                payload,
                ck,
                eph,
                m,
            ) ==> (r matches Ok(p) && p@ == payload),
{
    let ss_classic = x25519_diffie_hellman(&bob_x25519_priv.bytes, &package.x_eph);
    let ss_pq = match mlkem768_decapsulate(&bob_kem_priv.seed, package.ct_pq.as_slice()) {
        Some(k) => k,
        None => return Err(ReceiveError::KemCiphertextLength),
    };
    let wrap_key = derive_location_wrap_key(&ss_classic, &ss_pq, &package.x_eph, package.ct_pq.as_slice());
    let ck = match aes256gcm_decrypt(&wrap_key, &package.n2, package.wrapped_key.as_slice()) {
        Some(ck) => ck,
        None => return Err(ReceiveError::UnwrapFailed),
    };
    if ck.len() != 32 {
        return Err(ReceiveError::ContentKeyInvalid);
    }
    let ck_arr: [u8; 32] = to_array(ck.as_slice());
    match aes256gcm_decrypt(&ck_arr, &package.n1, package.ciphertext.as_slice()) {
        Some(p) => Ok(p),
        None => Err(ReceiveError::PayloadDecryptFailed),
    }
}

/// Receives a package against the stored replay state of its sender: `last` is the last
/// sequence number accepted from `package.sender_id` (`None` if none). Gives the outcome
/// and the number to store back for that sender, which is `Some(package.sequence)` exactly
/// when the signature verifies and the number is fresh, and `last` otherwise. A store that
/// keeps that number across restarts therefore keeps refusing every number up to it (see
/// `lemma_accepted_is_not_replayable`).
pub fn receive_with_last(
    package: &LocationUpdatePackage,
    bob_kem_priv: &DecapsulationKey,
    bob_x25519_priv: &StaticSecret,
    alice_mldsa_pub: &VerifyingKey,
    last: Option<u64>,
) -> (res: (Result<Vec<u8>, ReceiveError>, Option<u64>))
    ensures
        ({
            let sig = signature_check(*package, alice_mldsa_pub@);
            let fresh = spec_replay_accepts(last, package.sequence);
            &&& sig is Err ==> result_view(res.0) == Err::<Seq<u8>, ReceiveError>(sig->Err_0) && res.1 == last
            &&& sig is Ok && !fresh ==> res.0 == Err::<Vec<u8>, ReceiveError>(ReceiveError::Replayed) && res.1 == last
            &&& sig is Ok && fresh ==> result_view(res.0) == opened_update(
                *package,
                bob_kem_priv.seed@,
                bob_x25519_priv.bytes@,
            ) && res.1 == Some(package.sequence)
        }),
        forall|alice_seed: Seq<u8>, payload: Seq<u8>, ck: Seq<u8>, eph: Seq<u8>, m: Seq<u8>|
            alice_seed.len() == 32 && payload.len() <= AES_GCM_P_MAX && ck.len() == 32 && eph.len() == 32
                && alice_mldsa_pub@ == spec_mldsa65_verifying_key(alice_seed)
                && kem_round_trip(bob_kem_priv.seed@, m)
                && spec_replay_accepts(last, package.sequence)
                && #[trigger] sent_update(
                *package,
                spec_mlkem768_encapsulation_key(bob_kem_priv.seed@),
                spec_x25519_public(bob_x25519_priv.bytes@),
                alice_seed,
                payload,
                ck,
                eph,
                m,
            ) ==> (res.0 matches Ok(p) && p@ == payload),
{
    match check_location_update(package, alice_mldsa_pub) {
        Ok(()) => {},
        Err(e) => return (Err(e), last),
    }
    if !replay_accepts(last, package.sequence) {
        return (Err(ReceiveError::Replayed), last);
    }
    (open_location_update(package, bob_kem_priv, bob_x25519_priv), Some(package.sequence))
}

/// Receives a package: signature first, then the replay guard (only a package with a
/// valid signature can advance it), then decryption. The guard is advanced exactly when
/// the signature verifies and the sequence number is fresh, even if decryption then fails.
///
/// A package that the sender of the pinned key made for this recipient, with a sequence
/// number the guard has not seen, opens to its payload (given a successful ML-KEM
/// decapsulation); delivered again, it is refused as a replay.
pub fn receive_location_update(
    package: &LocationUpdatePackage,
    bob_kem_priv: &DecapsulationKey,
    bob_x25519_priv: &StaticSecret,
    alice_mldsa_pub: &VerifyingKey,
    replay_guard: &mut ReplayGuard,
) -> (r: Result<Vec<u8>, ReceiveError>)
    ensures
        ({
            let sig = signature_check(*package, alice_mldsa_pub@);
            let fresh = spec_replay_accepts(old(replay_guard).last_of(package.sender_id@), package.sequence);
            &&& sig is Err ==> result_view(r) == Err::<Seq<u8>, ReceiveError>(sig->Err_0)
                && final(replay_guard).last_map() == old(replay_guard).last_map()
            &&& sig is Ok && !fresh ==> r == Err::<Vec<u8>, ReceiveError>(ReceiveError::Replayed)
                && final(replay_guard).last_map() == old(replay_guard).last_map()
            &&& sig is Ok && fresh ==> result_view(r) == opened_update(*package, bob_kem_priv.seed@, bob_x25519_priv.bytes@)
                && final(replay_guard).last_map() == old(replay_guard).last_map().insert(package.sender_id@, package.sequence)
        }),
        forall|alice_seed: Seq<u8>, payload: Seq<u8>, ck: Seq<u8>, eph: Seq<u8>, m: Seq<u8>|
            alice_seed.len() == 32 && payload.len() <= AES_GCM_P_MAX && ck.len() == 32 && eph.len() == 32
                && alice_mldsa_pub@ == spec_mldsa65_verifying_key(alice_seed)
                && kem_round_trip(bob_kem_priv.seed@, m)
                && spec_replay_accepts(old(replay_guard).last_of(package.sender_id@), package.sequence)
                && #[trigger] sent_update(
                *package,
                spec_mlkem768_encapsulation_key(bob_kem_priv.seed@),
                spec_x25519_public(bob_x25519_priv.bytes@),
                alice_seed,
                payload,
                ck,
                eph,
                m,
            ) ==> (r matches Ok(p) && p@ == payload),
{
    match check_location_update(package, alice_mldsa_pub) {
        Ok(()) => {},
        Err(e) => return Err(e),
    }
    match replay_guard.check_and_advance(package.sender_id.as_str(), package.sequence) {
        Ok(()) => {},
        Err(_) => return Err(ReceiveError::Replayed),
    }
    open_location_update(package, bob_kem_priv, bob_x25519_priv)
}

/// Receives a package that just came off the wire against our own identity and the
/// sender's pinned bundle, giving the serialized payload. A pinned bundle without a usable
/// ML-DSA key is refused before anything else.
pub fn decrypt_from_identity(
    package: &LocationUpdatePackage,
    our_identity: &LocalIdentity,
    sender_bundle: &IdentityBundle,
    replay_guard: &mut ReplayGuard,
) -> (r: Result<Vec<u8>, ReceiveError>)
    ensures
        sender_bundle.ml_dsa_pub@.len() != crate::primitives::ML_DSA_65_PUBLIC_KEY_LEN ==> r
            == Err::<Vec<u8>, ReceiveError>(ReceiveError::SenderKey(CryptError::DsaPublicKeyLength))
            && final(replay_guard).last_map() == old(replay_guard).last_map(),
        sender_bundle.ml_dsa_pub@.len() == crate::primitives::ML_DSA_65_PUBLIC_KEY_LEN ==> ({
            let sig = signature_check(*package, sender_bundle.ml_dsa_pub@);
            let fresh = spec_replay_accepts(old(replay_guard).last_of(package.sender_id@), package.sequence);
            &&& sig is Err ==> result_view(r) == Err::<Seq<u8>, ReceiveError>(sig->Err_0)
                && final(replay_guard).last_map() == old(replay_guard).last_map()
            &&& sig is Ok && !fresh ==> r == Err::<Vec<u8>, ReceiveError>(ReceiveError::Replayed)
                && final(replay_guard).last_map() == old(replay_guard).last_map()
            &&& sig is Ok && fresh ==> result_view(r) == opened_update(*package, our_identity.ml_kem_seed@, our_identity.x25519_private@)
                && final(replay_guard).last_map() == old(replay_guard).last_map().insert(package.sender_id@, package.sequence)
        }),
        forall|alice_seed: Seq<u8>, payload: Seq<u8>, ck: Seq<u8>, eph: Seq<u8>, m: Seq<u8>|
            alice_seed.len() == 32 && payload.len() <= AES_GCM_P_MAX && ck.len() == 32 && eph.len() == 32
                && sender_bundle.ml_dsa_pub@ == spec_mldsa65_verifying_key(alice_seed)
                && sender_bundle.ml_dsa_pub@.len() == crate::primitives::ML_DSA_65_PUBLIC_KEY_LEN
                && kem_round_trip(our_identity.ml_kem_seed@, m)
                && spec_replay_accepts(old(replay_guard).last_of(package.sender_id@), package.sequence)
                && #[trigger] sent_update(
                *package,
                spec_mlkem768_encapsulation_key(our_identity.ml_kem_seed@),
                spec_x25519_public(our_identity.x25519_private@),
                alice_seed,
                payload,
                ck,
                eph,
                m,
            ) ==> (r matches Ok(p) && p@ == payload),
{
    let kem = match our_identity.kem_decapsulation_key() {
        Ok(k) => k,
        Err(e) => return Err(ReceiveError::SenderKey(e)),
    };
    let x = our_identity.x25519_secret();
    let vk = match verifying_key_from_bundle(sender_bundle) {
        Ok(k) => k,
        Err(e) => return Err(ReceiveError::SenderKey(e)),
    };
    receive_location_update(package, &kem, &x, &vk, replay_guard)
}

} // verus!
