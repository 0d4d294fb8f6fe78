//! Rendezvous pairing: the initiator's small invitation (rendezvous id, ephemeral X25519
//! public key, 32-byte token), the transit key both sides derive from an ephemeral
//! Diffie-Hellman salted with the token, and the safety fingerprint both sides display.
use vstd::prelude::*;

use crate::bytes::{append_bytes, bytes_lt, hex_groups, lemma_lex_trichotomy, lex_lt, to_array, to_hex_groups, take_bytes};
use crate::keys::EphemeralSecret;
use crate::primitives::{
    hkdf_sha256_32, random_bytes, sha256, spec_hkdf_sha256_32, spec_sha256, spec_x25519_dh,
    spec_x25519_public, x25519_diffie_hellman, x25519_public,
};

verus! {

/// What the initiator hands to the responder out of band (QR code or link).
#[derive(Clone, Debug)]
pub struct RendezvousInvitation {
    pub rendezvous_id: String,
    pub x_temp_pub: [u8; 32],
    pub token: [u8; 32],
}

/// What the initiator keeps until the responder's public key arrives.
#[derive(Clone, Copy, Debug)]
pub struct RendezvousState {
    pub x_temp_sec: EphemeralSecret,
    pub token: [u8; 32],
}

/// What the responder shows after accepting an invitation.
#[derive(Clone, Debug)]
pub struct AcceptedRendezvous {
    pub my_pub: [u8; 32],
    pub fingerprint: String,
}

/// What the initiator shows once the responder's key arrived.
#[derive(Clone, Debug)]
pub struct CompletedRendezvous {
    pub fingerprint: String,
}

/// A finished pairing, as the pairing screen shows it.
#[derive(Clone, Debug)]
pub struct CompletedRendezvousWithContact {
    pub fingerprint: String,
    pub peer_device_id: String,
    pub peer_device_name: String,
}

/// The HKDF `info` label of the transit key, `b"rendezvous_channel"`.
pub open spec fn transit_info() -> Seq<u8> {
    seq![114u8, 101, 110, 100, 101, 122, 118, 111, 117, 115, 95, 99, 104, 97, 110, 110, 101, 108]
}

/// The transit key of one side: HKDF-SHA256 salted with the token over the X25519 secret.
pub open spec fn transit_key(my_secret: Seq<u8>, their_pub: Seq<u8>, token: Seq<u8>) -> Seq<u8> {
    spec_hkdf_sha256_32(Some(token), spec_x25519_dh(my_secret, their_pub), transit_info())
}

/// SHA-256 over the two byte strings, the one that sorts strictly first first (or `b`
/// first when they are not in strict order), cut to 12 bytes.
pub open spec fn safety_fingerprint(a: Seq<u8>, b: Seq<u8>) -> Seq<u8> {
    if lex_lt(a, b) {
        spec_sha256(a + b).take(12)
    } else {
        spec_sha256(b + a).take(12)
    }
}

/// The safety fingerprint as displayed: hex, two bytes per group.
pub open spec fn displayed_fingerprint(a: Seq<u8>, b: Seq<u8>) -> Seq<char> {
    hex_groups(safety_fingerprint(a, b))
}

/// Makes an invitation with a fresh ephemeral X25519 key and a fresh random token.
pub fn generate_rendezvous_invitation(rendezvous_id: String) -> (res: (RendezvousState, RendezvousInvitation))
    ensures
        res.1.rendezvous_id@ == rendezvous_id@,
        res.1.token == res.0.token,
        res.1.x_temp_pub@ == spec_x25519_public(res.0.x_temp_sec.bytes@),
{
    let token = random_bytes::<32>();
    let x_temp_sec = EphemeralSecret { bytes: random_bytes::<32>() };
    let x_temp_pub = x25519_public(&x_temp_sec.bytes);
    let invitation = RendezvousInvitation { rendezvous_id, x_temp_pub, token };
    let state = RendezvousState { x_temp_sec, token };
    (state, invitation)
}

fn transit_info_bytes() -> (info: Vec<u8>)
    ensures
        info@ == transit_info(),
{
    let info: Vec<u8> = vec![114u8, 101, 110, 100, 101, 122, 118, 111, 117, 115, 95, 99, 104, 97, 110, 110, 101, 108];
    assert(info@ =~= transit_info());
    info
}

/// The transit key is HKDF-SHA256 salted with the invitation token, over the X25519 shared
/// secret of the two ephemeral keys, with info `b"rendezvous_channel"`: for one token, two
/// different shared secrets give different key-derivation inputs.
pub proof fn lemma_transit_key_is_salted_dh(my_secret: Seq<u8>, their_pub: Seq<u8>, token: Seq<u8>)
    ensures
        transit_key(my_secret, their_pub, token) == spec_hkdf_sha256_32(
            Some(token),
            spec_x25519_dh(my_secret, their_pub),
            seq![114u8, 101, 110, 100, 101, 122, 118, 111, 117, 115, 95, 99, 104, 97, 110, 110, 101, 108],
        ),
{
    assert(transit_info() =~= seq![114u8, 101, 110, 100, 101, 122, 118, 111, 117, 115, 95, 99, 104, 97, 110, 110, 101, 108]);
}

/// The transit key of the side holding `my_secret`, with the other side's public key.
/// Both sides arrive at the same key: when `their_pub_bytes` is the public key of a secret
/// `other`, the key is the one `other` derives with this side's public key.
pub fn derive_rendezvous_transit_key(my_secret: EphemeralSecret, their_pub_bytes: &[u8; 32], token: &[u8; 32]) -> (key: [u8; 32])
    ensures
        key@ == transit_key(my_secret.bytes@, their_pub_bytes@, token@),
        key@ == spec_hkdf_sha256_32(Some(token@), spec_x25519_dh(my_secret.bytes@, their_pub_bytes@), seq![114u8, 101, 110, 100, 101, 122, 118, 111, 117, 115, 95, 99, 104, 97, 110, 110, 101, 108]),
        forall|other: Seq<u8>|
            other.len() == 32 && #[trigger] spec_x25519_public(other) == their_pub_bytes@
                ==> key@ == transit_key(other, spec_x25519_public(my_secret.bytes@), token@),
{
    let dh_secret = x25519_diffie_hellman(&my_secret.bytes, their_pub_bytes);
    let info = transit_info_bytes();
    hkdf_sha256_32(Some(token.as_slice()), dh_secret.as_slice(), info.as_slice())
}

/// SHA-256 over the two inputs in sorted order, first 12 bytes. The result does not
/// depend on the order of the arguments (see `lemma_safety_fingerprint_symmetric`).
pub fn compute_safety_fingerprint(bundle_a: &[u8], bundle_b: &[u8]) -> (fp: [u8; 12])
    ensures
        fp@ == safety_fingerprint(bundle_a@, bundle_b@),
{
    let mut data: Vec<u8> = Vec::new();
    if bytes_lt(bundle_a, bundle_b) {
        append_bytes(&mut data, bundle_a);
        append_bytes(&mut data, bundle_b);
    } else {
        append_bytes(&mut data, bundle_b);
        append_bytes(&mut data, bundle_a);
    }
    let hash = sha256(data.as_slice());
    let head = take_bytes(hash.as_slice(), 12);
    to_array(head.as_slice())
}

/// The safety fingerprint is order-independent.
pub proof fn lemma_safety_fingerprint_symmetric(a: Seq<u8>, b: Seq<u8>)
    ensures
        safety_fingerprint(a, b) == safety_fingerprint(b, a),
{
    lemma_lex_trichotomy(a, b);
}

/// The displayed safety fingerprint of two byte strings (pairing flow, protocol step 6:
/// computed over both encrypted identity bundles, so both devices show the same text).
pub fn pairing_fingerprint(mine: &[u8], theirs: &[u8]) -> (text: String)
    ensures
        text@ == displayed_fingerprint(mine@, theirs@),
        text@ == displayed_fingerprint(theirs@, mine@),
{
    proof {
        lemma_safety_fingerprint_symmetric(mine@, theirs@);
    }
    let fp = compute_safety_fingerprint(mine, theirs);
    to_hex_groups(fp.as_slice())
}

/// Responder side of an invitation, with its ephemeral secret: its public key, the
/// fingerprint to show, and the transit key.
pub fn accept_rendezvous_with(invitation: &RendezvousInvitation, my_secret: EphemeralSecret) -> (res: (AcceptedRendezvous, [u8; 32]))
    ensures
        res.0.my_pub@ == spec_x25519_public(my_secret.bytes@),
        res.0.fingerprint@ == displayed_fingerprint(res.0.my_pub@, invitation.x_temp_pub@),
        res.1@ == transit_key(my_secret.bytes@, invitation.x_temp_pub@, invitation.token@),
{
    let my_pub = x25519_public(&my_secret.bytes);
    let transit_key = derive_rendezvous_transit_key(my_secret, &invitation.x_temp_pub, &invitation.token);
    let fingerprint = pairing_fingerprint(my_pub.as_slice(), invitation.x_temp_pub.as_slice());
    (AcceptedRendezvous { my_pub, fingerprint }, transit_key)
}

/// Responder side of an invitation, with a fresh ephemeral secret.
pub fn accept_rendezvous(invitation: &RendezvousInvitation) -> (res: (AcceptedRendezvous, [u8; 32]))
    ensures
        exists|s: Seq<u8>|
            s.len() == 32 && #[trigger] spec_x25519_public(s) == res.0.my_pub@
                && res.1@ == transit_key(s, invitation.x_temp_pub@, invitation.token@),
        res.0.fingerprint@ == displayed_fingerprint(res.0.my_pub@, invitation.x_temp_pub@),
{
    let my_secret = EphemeralSecret { bytes: random_bytes::<32>() };
    accept_rendezvous_with(invitation, my_secret)
}

/// Initiator side, once the responder's public key arrived: the fingerprint to show and
/// the transit key. When the responder derived its side from this invitation, both
/// devices show the same fingerprint and hold the same transit key.
pub fn complete_rendezvous(state: RendezvousState, their_pub: &[u8; 32]) -> (res: (CompletedRendezvous, [u8; 32]))
    ensures
        res.0.fingerprint@ == displayed_fingerprint(spec_x25519_public(state.x_temp_sec.bytes@), their_pub@),
        res.1@ == transit_key(state.x_temp_sec.bytes@, their_pub@, state.token@),
        forall|responder: Seq<u8>|
            responder.len() == 32 && #[trigger] spec_x25519_public(responder) == their_pub@ ==> {
                &&& res.1@ == transit_key(
                    responder,
                    spec_x25519_public(state.x_temp_sec.bytes@),
                    state.token@,
                )
                &&& res.0.fingerprint@ == displayed_fingerprint(
                    spec_x25519_public(responder),
                    spec_x25519_public(state.x_temp_sec.bytes@),
                )
            },
{
    let my_pub = x25519_public(&state.x_temp_sec.bytes);
    let transit_key = derive_rendezvous_transit_key(state.x_temp_sec, their_pub, &state.token);
    let fingerprint = pairing_fingerprint(my_pub.as_slice(), their_pub.as_slice());
    (CompletedRendezvous { fingerprint }, transit_key)
}

} // verus!
