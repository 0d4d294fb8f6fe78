//! The relay client's own logic around the envelope: the fields of a pairing payload, the
//! random contact id, preparing one share per contact, encoding a share for upload, and
//! decoding and opening the shares found in the inbox. The JSON framing and the HTTP and
//! SQLite work stay with the caller.
use vstd::prelude::*;

use vstd::string::*;

use crate::bytes::{copy_bytes, to_array};
use crate::envelope::{receive_location, received, share_location, share_made_for, EnvelopeError, Share};
use crate::identity::{Identity, PublicBundle};
use crate::pairing::{fingerprint, spec_fingerprint};
use crate::primitives::{
    base64_decode, base64_encode, is_base64_char, random_bytes,
    spec_base64_decode, spec_base64_decode_error, spec_base64_encode, spec_mlkem768_key_valid, AES_GCM_P_MAX,
};

verus! {

/// Why a pairing payload was refused.
#[derive(Clone, Copy, Debug, PartialEq, Eq, Structural)]
pub enum PairingError {
    PayloadNotBase64,
    MlDsaPubNotBase64,
    KemPubNotBase64,
    X25519PubNotBase64,
    X25519PubLength,
}

impl PairingError {
    /// The human-readable description, as text.
    pub open spec fn description(self) -> Seq<char> {
        match self {
            PairingError::PayloadNotBase64 => "pairing payload is not valid base64"@,
            PairingError::MlDsaPubNotBase64 => "ml_dsa_pub is not valid base64"@,
            PairingError::KemPubNotBase64 => "kem_pub is not valid base64"@,
            PairingError::X25519PubNotBase64 => "x25519_pub is not valid base64"@,
            PairingError::X25519PubLength => "x25519_pub is not 32 bytes"@,
        }
    }

    /// Human-readable description.
    pub fn message(&self) -> (m: &'static str)
        ensures
            m@ == self.description(),
    {
        match self {
            PairingError::PayloadNotBase64 => "pairing payload is not valid base64",
            PairingError::MlDsaPubNotBase64 => "ml_dsa_pub is not valid base64",
            PairingError::KemPubNotBase64 => "kem_pub is not valid base64",
            PairingError::X25519PubNotBase64 => "x25519_pub is not valid base64",
            PairingError::X25519PubLength => "x25519_pub is not 32 bytes",
        }
    }
}

/// The base64 text fields of a pairing payload.
#[derive(Clone, Debug)]
pub struct PairingFields {
    pub ml_dsa_pub: String,
    pub kem_pub: String,
    pub x25519_pub: String,
}

/// The pairing fields of a bundle: each key base64-encoded.
pub fn encode_pairing_fields(bundle: &PublicBundle) -> (f: PairingFields)
    ensures
        f.ml_dsa_pub@ == spec_base64_encode(bundle.ml_dsa_pub@),
        f.kem_pub@ == spec_base64_encode(bundle.kem_pub@),
        f.x25519_pub@ == spec_base64_encode(bundle.x25519_pub@),
        spec_base64_decode(f.ml_dsa_pub@) == Some(bundle.ml_dsa_pub@),
        spec_base64_decode(f.kem_pub@) == Some(bundle.kem_pub@),
        spec_base64_decode(f.x25519_pub@) == Some(bundle.x25519_pub@),
{
    PairingFields {
        ml_dsa_pub: base64_encode(bundle.ml_dsa_pub.as_slice()),
        kem_pub: base64_encode(bundle.kem_pub.as_slice()),
        x25519_pub: base64_encode(bundle.x25519_pub.as_slice()),
    }
}

/// What decoding pairing fields gives.
pub open spec fn decoded_fields(f: PairingFields) -> Result<(Seq<u8>, Seq<u8>, Seq<u8>), PairingError> {
    match spec_base64_decode(f.ml_dsa_pub@) {
        None => Err(PairingError::MlDsaPubNotBase64),
        Some(d) => match spec_base64_decode(f.kem_pub@) {
            None => Err(PairingError::KemPubNotBase64),
            Some(k) => match spec_base64_decode(f.x25519_pub@) {
                None => Err(PairingError::X25519PubNotBase64),
                Some(x) => if x.len() != 32 {
                    Err(PairingError::X25519PubLength)
                } else {
                    Ok((d, k, x))
                },
            },
        },
    }
}

/// The bundle in pairing fields: each key base64-decoded, the X25519 key 32 bytes.
/// Fields encoded from a bundle decode to that bundle.
pub fn decode_pairing_fields(f: &PairingFields) -> (r: Result<PublicBundle, PairingError>)
    ensures
        match r {
            Ok(b) => decoded_fields(*f) == Ok::<(Seq<u8>, Seq<u8>, Seq<u8>), PairingError>(
                (b.ml_dsa_pub@, b.kem_pub@, b.x25519_pub@),
            ),
            Err(e) => decoded_fields(*f) == Err::<(Seq<u8>, Seq<u8>, Seq<u8>), PairingError>(e),
        },
{
    let ml_dsa_pub = match base64_decode(f.ml_dsa_pub.as_str()) {
        Ok(v) => v,
        Err(_) => return Err(PairingError::MlDsaPubNotBase64),
    };
    let kem_pub = match base64_decode(f.kem_pub.as_str()) {
        Ok(v) => v,
        Err(_) => return Err(PairingError::KemPubNotBase64),
    };
    let x = match base64_decode(f.x25519_pub.as_str()) {
        Ok(v) => v,
        Err(_) => return Err(PairingError::X25519PubNotBase64),
    };
    if x.len() != 32 {
        return Err(PairingError::X25519PubLength);
    }
    let x25519_pub: [u8; 32] = to_array(x.as_slice());
    Ok(PublicBundle { ml_dsa_pub, kem_pub, x25519_pub })
}

/// Pairing fields encoded from a bundle decode to the same key material.
pub proof fn lemma_pairing_fields_round_trip(f: PairingFields, b: PublicBundle)
    requires
        spec_base64_decode(f.ml_dsa_pub@) == Some(b.ml_dsa_pub@),
        spec_base64_decode(f.kem_pub@) == Some(b.kem_pub@),
        spec_base64_decode(f.x25519_pub@) == Some(b.x25519_pub@),
    ensures
        decoded_fields(f) == Ok::<(Seq<u8>, Seq<u8>, Seq<u8>), PairingError>(
            (b.ml_dsa_pub@, b.kem_pub@, b.x25519_pub@),
        ),
{
}

/// The pairing payload text of a serialized payload: its base64 encoding.
pub fn encode_pairing_payload(json: &[u8]) -> (text: String)
    ensures
        text@ == spec_base64_encode(json@),
        spec_base64_decode(text@) == Some(json@),
{
    base64_encode(json)
}

/// The serialized payload of a pairing payload text (already trimmed).
pub fn decode_pairing_payload(text: &str) -> (r: Result<Vec<u8>, PairingError>)
    ensures
        r is Err <==> spec_base64_decode(text@) is None,
        (exists|i: int| 0 <= i < text@.len() && !is_base64_char(#[trigger] text@[i])) ==> r
            == Err::<Vec<u8>, PairingError>(PairingError::PayloadNotBase64),
        r matches Err(e) ==> e == PairingError::PayloadNotBase64,
        r matches Ok(v) ==> spec_base64_decode(text@) == Some(v@),
{
    match base64_decode(text) {
        Ok(v) => Ok(v),
        Err(_) => Err(PairingError::PayloadNotBase64),
    }
}

/// ASCII letters and digits (the alphanumeric characters of the base64 alphabet).
pub open spec fn is_ascii_alnum(c: char) -> bool {
    ('A' <= c && c <= 'Z') || ('a' <= c && c <= 'z') || ('0' <= c && c <= '9')
}

fn char_is_ascii_alnum(c: char) -> (r: bool)
    ensures
        r == is_ascii_alnum(c),
{
    ('A' <= c && c <= 'Z') || ('a' <= c && c <= 'z') || ('0' <= c && c <= '9')
}

/// The ASCII letters and digits of a text, in order.
pub open spec fn alnum_of(text: Seq<char>) -> Seq<char> {
    text.filter(|c: char| is_ascii_alnum(c))
}

/// The contact id made from random bytes: their base64 text with the non-alphanumeric
/// characters (`+`, `/`, `=`) removed.
pub fn random_id_from(bytes: &[u8; 16]) -> (id: String)
    ensures
        id@ == alnum_of(spec_base64_encode(bytes@)),
{
    let text = base64_encode(bytes.as_slice());
    let s = text.as_str();
    let n = s.unicode_len();
    let mut id = String::new();
    let mut i: usize = 0;
    while i < n
        invariant
            n == s@.len(),
            s@ == spec_base64_encode(bytes@),
            i <= n,
            id@ == s@.take(i as int).filter(|c: char| is_ascii_alnum(c)),
        decreases n - i,
    {
        let c = s.get_char(i);
        proof {
            assert(s@.take(i + 1).drop_last() =~= s@.take(i as int));
            reveal_with_fuel(Seq::filter, 1);
        }
        if char_is_ascii_alnum(c) {
            id.push(c);
        }
        i = i + 1;
    }
    assert(s@.take(n as int) =~= s@);
    id
}

/// A fresh random contact id: the alphanumeric characters of the base64 text of 16 random
/// bytes.
pub fn random_id() -> (id: String)
    ensures
        exists|bytes: Seq<u8>| bytes.len() == 16 && id@ == alnum_of(#[trigger] spec_base64_encode(bytes)),
        forall|i: int| 0 <= i < id@.len() ==> is_ascii_alnum(#[trigger] id@[i]),
{
    let bytes = random_bytes::<16>();
    let id = random_id_from(&bytes);
    proof {
        let f = |c: char| is_ascii_alnum(c);
        assert forall|i: int| 0 <= i < id@.len() implies is_ascii_alnum(#[trigger] id@[i]) by {
            spec_base64_encode(bytes@).lemma_filter_pred(f, i);
        }
    }
    id
}

/// Why a share for a contact could not be made.
#[derive(Clone, Copy, Debug, PartialEq, Eq, Structural)]
pub enum ShareError {
    /// The contact's stored X25519 key is not 32 bytes.
    StoredX25519Length,
    /// The envelope refused the contact's keys.
    Envelope(EnvelopeError),
}

impl ShareError {
    /// The human-readable description, as text.
    pub open spec fn description(self) -> Seq<char> {
        match self {
            ShareError::StoredX25519Length => "stored x25519_pub is not 32 bytes"@,
            ShareError::Envelope(e) => e.description(),
        }
    }

    /// Human-readable description.
    pub fn message(&self) -> (m: &'static str)
        ensures
            m@ == self.description(),
    {
        match self {
            ShareError::StoredX25519Length => "stored x25519_pub is not 32 bytes",
            ShareError::Envelope(e) => e.message(),
        }
    }
}

/// The share of one location payload for one contact, or `None` for a contact that is
/// not registered with the relay (empty user id), who is skipped.
pub fn share_for_contact(
    identity: &Identity,
    contact_user_id: &str,
    x25519_pub: &[u8],
    kem_pub: &[u8],
    payload: &[u8],
) -> (r: Result<Option<Share>, ShareError>)
    requires
        payload@.len() <= AES_GCM_P_MAX,
    ensures
        contact_user_id@.len() == 0 ==> r matches Ok(None),
        contact_user_id@.len() != 0 && x25519_pub@.len() != 32 ==> r == Err::<Option<Share>, ShareError>(ShareError::StoredX25519Length),
        contact_user_id@.len() != 0 && x25519_pub@.len() == 32 && !spec_mlkem768_key_valid(kem_pub@)
            ==> r == Err::<Option<Share>, ShareError>(ShareError::Envelope(EnvelopeError::InvalidKemPublicKey)),
        r matches Ok(Some(_)) ==> contact_user_id@.len() != 0,
        r matches Ok(Some(s)) ==> share_made_for(s, identity.x25519_secret_bytes(), x25519_pub@, kem_pub@, payload@),
        contact_user_id@.len() != 0 && x25519_pub@.len() == 32 && spec_mlkem768_key_valid(kem_pub@) ==> r matches Ok(Some(_)),
{
    if contact_user_id.is_empty() {
        return Ok(None);
    }
    if x25519_pub.len() != 32 {
        return Err(ShareError::StoredX25519Length);
    }
    let x: [u8; 32] = to_array(x25519_pub);
    match share_location(identity, &x, kem_pub, payload) {
        Ok(s) => {
            assert(x@ == x25519_pub@);
            Ok(Some(s))
        },
        Err(e) => Err(ShareError::Envelope(e)),
    }
}

/// A share as the relay carries it: every byte field in base64.
#[derive(Clone, Debug)]
pub struct EncodedShare {
    pub ciphertext: String,
    pub wrapped_key: String,
    pub kem_ciphertext: String,
    pub nonce: String,
    pub wrap_nonce: String,
}

/// The base64 fields of a share for upload.
pub fn encode_share(share: &Share) -> (e: EncodedShare)
    ensures
        e.ciphertext@ == spec_base64_encode(share.ciphertext@),
        e.wrapped_key@ == spec_base64_encode(share.wrapped_key@),
        e.kem_ciphertext@ == spec_base64_encode(share.kem_ciphertext@),
        e.nonce@ == spec_base64_encode(share.nonce@),
        e.wrap_nonce@ == spec_base64_encode(share.wrap_nonce@),
{
    EncodedShare {
        ciphertext: base64_encode(share.ciphertext.as_slice()),
        wrapped_key: base64_encode(share.wrapped_key.as_slice()),
        kem_ciphertext: base64_encode(share.kem_ciphertext.as_slice()),
        nonce: base64_encode(share.nonce.as_slice()),
        wrap_nonce: base64_encode(share.wrap_nonce.as_slice()),
    }
}

/// Raw share as received from the server inbox.
#[derive(Clone, Debug)]
pub struct RawShare {
    pub from: String,
    pub ciphertext: Vec<u8>,
    pub wrapped_key: Vec<u8>,
    pub kem_ciphertext: Vec<u8>,
    pub nonce: Vec<u8>,
    pub wrap_nonce: Vec<u8>,
    pub updated_at: i64,
}

/// An inbox field.
#[derive(Clone, Copy, Debug, PartialEq, Eq, Structural)]
pub enum InboxField {
    Ciphertext,
    WrappedKey,
    KemCiphertext,
    Nonce,
    WrapNonce,
}

impl InboxField {
    /// The field's name, as text.
    pub open spec fn label(self) -> Seq<char> {
        match self {
            InboxField::Ciphertext => "ciphertext"@,
            InboxField::WrappedKey => "wrapped_key"@,
            InboxField::KemCiphertext => "kem_ciphertext"@,
            InboxField::Nonce => "nonce"@,
            InboxField::WrapNonce => "wrap_nonce"@,
        }
    }

    /// The field's name.
    pub fn name(&self) -> (n: &'static str)
        ensures
            n@ == self.label(),
    {
        match self {
            InboxField::Ciphertext => "ciphertext",
            InboxField::WrappedKey => "wrapped_key",
            InboxField::KemCiphertext => "kem_ciphertext",
            InboxField::Nonce => "nonce",
            InboxField::WrapNonce => "wrap_nonce",
        }
    }
}

/// The inbox field that is not valid base64, with the base64 decoder's message.
#[derive(Clone, Debug, PartialEq, Eq)]
pub struct InboxError {
    pub field: InboxField,
    pub detail: String,
}

/// Appends the characters of `t` to `s`.
fn push_text(s: &mut String, t: &str)
    ensures
        final(s)@ == old(s)@ + t@,
{
    let n = t.unicode_len();
    let mut i: usize = 0;
    while i < n
        invariant
            n == t@.len(),
            i <= n,
            s@ == old(s)@ + t@.take(i as int),
        decreases n - i,
    {
        s.push(t.get_char(i));
        assert(t@.take(i + 1) =~= t@.take(i as int).push(t@[i as int]));
        i = i + 1;
    }
    assert(t@.take(n as int) =~= t@);
}

impl InboxError {
    /// The human-readable description, as text: the field's name, a colon, and the
    /// decoder's message.
    pub open spec fn description(self) -> Seq<char> {
        self.field.label() + ": "@ + self.detail@
    }

    /// Human-readable description.
    pub fn message(&self) -> (m: String)
        ensures
            m@ == self.description(),
    {
        let mut m = String::new();
        push_text(&mut m, self.field.name());
        push_text(&mut m, ": ");
        push_text(&mut m, self.detail.as_str());
        m
    }
}

/// The error for a field, when its text does not decode.
pub open spec fn field_error(field: InboxField, text: Seq<char>, r: Result<RawShare, InboxError>) -> bool {
    &&& r is Err
    &&& r->Err_0.field == field
    &&& r->Err_0.detail@ == spec_base64_decode_error(text)
}

/// Decodes the base64 fields of one inbox item, the first field that does not decode
/// being the error.
pub fn decode_inbox_item(
    from: String,
    ciphertext: &str,
    wrapped_key: &str,
    kem_ciphertext: &str,
    nonce: &str,
    wrap_nonce: &str,
    updated_at: i64,
) -> (r: Result<RawShare, InboxError>)
    ensures
        r is Ok <==> spec_base64_decode(ciphertext@) is Some && spec_base64_decode(wrapped_key@) is Some
            && spec_base64_decode(kem_ciphertext@) is Some && spec_base64_decode(nonce@) is Some
            && spec_base64_decode(wrap_nonce@) is Some,
        spec_base64_decode(ciphertext@) is None ==> field_error(InboxField::Ciphertext, ciphertext@, r),
        spec_base64_decode(ciphertext@) is Some && spec_base64_decode(wrapped_key@) is None
            ==> field_error(InboxField::WrappedKey, wrapped_key@, r),
        spec_base64_decode(ciphertext@) is Some && spec_base64_decode(wrapped_key@) is Some
            && spec_base64_decode(kem_ciphertext@) is None ==> field_error(InboxField::KemCiphertext, kem_ciphertext@, r),
        spec_base64_decode(ciphertext@) is Some && spec_base64_decode(wrapped_key@) is Some
            && spec_base64_decode(kem_ciphertext@) is Some && spec_base64_decode(nonce@) is None
            ==> field_error(InboxField::Nonce, nonce@, r),
        spec_base64_decode(ciphertext@) is Some && spec_base64_decode(wrapped_key@) is Some
            && spec_base64_decode(kem_ciphertext@) is Some && spec_base64_decode(nonce@) is Some
            && spec_base64_decode(wrap_nonce@) is None ==> field_error(InboxField::WrapNonce, wrap_nonce@, r),
        r matches Ok(s) ==> {
            &&& s.from@ == from@
            &&& spec_base64_decode(ciphertext@) == Some(s.ciphertext@)
            &&& spec_base64_decode(wrapped_key@) == Some(s.wrapped_key@)
            &&& spec_base64_decode(kem_ciphertext@) == Some(s.kem_ciphertext@)
            &&& spec_base64_decode(nonce@) == Some(s.nonce@)
            &&& spec_base64_decode(wrap_nonce@) == Some(s.wrap_nonce@)
            &&& s.updated_at == updated_at
        },
{
    let ciphertext = match base64_decode(ciphertext) {
        Ok(v) => v,
        Err(detail) => return Err(InboxError { field: InboxField::Ciphertext, detail }),
    };
    let wrapped_key = match base64_decode(wrapped_key) {
        Ok(v) => v,
        Err(detail) => return Err(InboxError { field: InboxField::WrappedKey, detail }),
    };
    let kem_ciphertext = match base64_decode(kem_ciphertext) {
        Ok(v) => v,
        Err(detail) => return Err(InboxError { field: InboxField::KemCiphertext, detail }),
    };
    let nonce = match base64_decode(nonce) {
        Ok(v) => v,
        Err(detail) => return Err(InboxError { field: InboxField::Nonce, detail }),
    };
    let wrap_nonce = match base64_decode(wrap_nonce) {
        Ok(v) => v,
        Err(detail) => return Err(InboxError { field: InboxField::WrapNonce, detail }),
    };
    Ok(RawShare { from, ciphertext, wrapped_key, kem_ciphertext, nonce, wrap_nonce, updated_at })
}

/// Why an inbox share could not be opened.
#[derive(Clone, Copy, Debug, PartialEq, Eq, Structural)]
pub enum OpenError {
    /// The contact's stored X25519 key is not 32 bytes.
    StoredX25519Length,
    /// The share's nonce is not 12 bytes.
    NonceLength,
    /// The share's wrap nonce is not 12 bytes.
    WrapNonceLength,
    /// The envelope did not open.
    Envelope(EnvelopeError),
}

impl OpenError {
    /// The human-readable description, as text.
    pub open spec fn description(self) -> Seq<char> {
        match self {
            OpenError::StoredX25519Length => "stored x25519_pub is not 32 bytes"@,
            OpenError::NonceLength => "nonce is not 12 bytes"@,
            OpenError::WrapNonceLength => "wrap_nonce is not 12 bytes"@,
            OpenError::Envelope(e) => e.description(),
        }
    }

    /// Human-readable description.
    pub fn message(&self) -> (m: &'static str)
        ensures
            m@ == self.description(),
    {
        match self {
            OpenError::StoredX25519Length => "stored x25519_pub is not 32 bytes",
            OpenError::NonceLength => "nonce is not 12 bytes",
            OpenError::WrapNonceLength => "wrap_nonce is not 12 bytes",
            OpenError::Envelope(e) => e.message(),
        }
    }
}

/// The share a raw inbox item carries, once its nonces have the right length.
pub open spec fn share_of(raw: RawShare, share: Share) -> bool {
    &&& share.ciphertext@ == raw.ciphertext@
    &&& share.nonce@ == raw.nonce@
    &&& share.wrapped_key@ == raw.wrapped_key@
    &&& share.wrap_nonce@ == raw.wrap_nonce@
    &&& share.kem_ciphertext@ == raw.kem_ciphertext@
}

/// Opens one inbox share from a known contact, whose stored X25519 key is given.
pub fn open_raw_share(identity: &Identity, contact_x25519_pub: &[u8], raw: &RawShare) -> (r: Result<Vec<u8>, OpenError>)
    ensures
        contact_x25519_pub@.len() != 32 ==> r == Err::<Vec<u8>, OpenError>(OpenError::StoredX25519Length),
        contact_x25519_pub@.len() == 32 && raw.nonce@.len() != 12 ==> r == Err::<Vec<u8>, OpenError>(OpenError::NonceLength),
        contact_x25519_pub@.len() == 32 && raw.nonce@.len() == 12 && raw.wrap_nonce@.len() != 12
            ==> r == Err::<Vec<u8>, OpenError>(OpenError::WrapNonceLength),
        contact_x25519_pub@.len() == 32 && raw.nonce@.len() == 12 && raw.wrap_nonce@.len() == 12 ==> exists|s: Share|
            #[trigger] share_of(*raw, s) && match r {
                Ok(p) => received(identity.kem_seed_bytes(), identity.x25519_secret_bytes(), contact_x25519_pub@, s)
                    == Ok::<Seq<u8>, EnvelopeError>(p@),
                Err(OpenError::Envelope(e)) => received(identity.kem_seed_bytes(), identity.x25519_secret_bytes(), contact_x25519_pub@, s)
                    == Err::<Seq<u8>, EnvelopeError>(e),
                Err(_) => false,
            },
{
    if contact_x25519_pub.len() != 32 {
        return Err(OpenError::StoredX25519Length);
    }
    let x: [u8; 32] = to_array(contact_x25519_pub);
    if raw.nonce.len() != 12 {
        return Err(OpenError::NonceLength);
    }
    let nonce: [u8; 12] = to_array(raw.nonce.as_slice());
    if raw.wrap_nonce.len() != 12 {
        return Err(OpenError::WrapNonceLength);
    }
    let wrap_nonce: [u8; 12] = to_array(raw.wrap_nonce.as_slice());
    let share = Share {
        ciphertext: copy_bytes(raw.ciphertext.as_slice()),
        nonce,
        wrapped_key: copy_bytes(raw.wrapped_key.as_slice()),
        wrap_nonce,
        kem_ciphertext: copy_bytes(raw.kem_ciphertext.as_slice()),
    };
    assert(share_of(*raw, share));
    match receive_location(identity, &x, &share) {
        Ok(p) => Ok(p),
        Err(e) => Err(OpenError::Envelope(e)),
    }
}

/// Why a stored contact's keys could not be used.
#[derive(Clone, Copy, Debug, PartialEq, Eq, Structural)]
pub enum StoredKeyError {
    /// The stored X25519 key is not 32 bytes.
    X25519Length,
}

impl StoredKeyError {
    /// The human-readable description, as text.
    pub open spec fn description(self) -> Seq<char> {
        "stored x25519_pub is not 32 bytes"@
    }

    /// Human-readable description.
    pub fn message(&self) -> (m: &'static str)
        ensures
            m@ == self.description(),
    {
        "stored x25519_pub is not 32 bytes"
    }
}

/// Recomputes the pairing fingerprint from a contact's stored keys and our own bundle and
/// compares it with the fingerprint stored at pairing: `false` means the contact's key
/// material changed since it was verified.
pub fn fingerprint_still_matches(
    my_bundle: &PublicBundle,
    ml_dsa_pub: Vec<u8>,
    kem_pub: Vec<u8>,
    x25519_pub: &[u8],
    stored_fingerprint: &str,
) -> (r: Result<bool, StoredKeyError>)
    ensures
        r is Err <==> x25519_pub@.len() != 32,
        r matches Ok(same) ==> exists|b: PublicBundle|
            b.ml_dsa_pub@ == ml_dsa_pub@ && b.kem_pub@ == kem_pub@ && b.x25519_pub@ == x25519_pub@
                && same == (#[trigger] spec_fingerprint(*my_bundle, b) == stored_fingerprint@),
{
    if x25519_pub.len() != 32 {
        return Err(StoredKeyError::X25519Length);
    }
    let contact = PublicBundle { ml_dsa_pub, kem_pub, x25519_pub: to_array(x25519_pub) };
    let recomputed = fingerprint(my_bundle, &contact);
    let stored = String::from_str(stored_fingerprint);
    Ok(recomputed == stored)
}

} // verus!
