//! The pairing fingerprint: after exchanging public keys, both devices compute the same
//! short text from the combined key material and the two users compare it out of band.
use vstd::prelude::*;

use crate::bytes::{
    append_bytes, bytes_le, hex_digits, hex_groups, lemma_hex_groups_shape, lemma_lex_trichotomy, lex_le, to_hex_groups,
};
use crate::identity::PublicBundle;
use crate::primitives::{sha256, spec_sha256};

verus! {

/// The key material of a bundle, in the order ML-DSA key, KEM key, X25519 key.
pub open spec fn bundle_bytes(b: PublicBundle) -> Seq<u8> {
    b.ml_dsa_pub@ + b.kem_pub@ + b.x25519_pub@
}

/// The two byte strings, the one that sorts first (or equal) first.
pub open spec fn sorted_pair(a: Seq<u8>, b: Seq<u8>) -> (Seq<u8>, Seq<u8>) {
    if lex_le(a, b) {
        (a, b)
    } else {
        (b, a)
    }
}

/// SHA-256 over the sorted concatenation of the two bundles' key material.
pub open spec fn fingerprint_digest(a: PublicBundle, b: PublicBundle) -> Seq<u8> {
    let (first, second) = sorted_pair(bundle_bytes(a), bundle_bytes(b));
    spec_sha256(first + second)
}

/// The text shown: the first 12 digest bytes as 24 hex digits in groups of 4.
pub open spec fn fingerprint_text(digest: Seq<u8>) -> Seq<char> {
    hex_groups(digest.take(12))
}

/// The pairing fingerprint of two bundles.
pub open spec fn spec_fingerprint(a: PublicBundle, b: PublicBundle) -> Seq<char> {
    fingerprint_text(fingerprint_digest(a, b))
}

/// The key material of a bundle, concatenated.
pub fn concat_bundle(bundle: &PublicBundle) -> (out: Vec<u8>)
    ensures
        out@ == bundle_bytes(*bundle),
{
    let mut out: Vec<u8> = Vec::new();
    append_bytes(&mut out, bundle.ml_dsa_pub.as_slice());
    append_bytes(&mut out, bundle.kem_pub.as_slice());
    append_bytes(&mut out, bundle.x25519_pub.as_slice());
    assert(out@ =~= bundle_bytes(*bundle));
    out
}

/// The fingerprint text of a digest: its first 12 bytes as hex, grouped in fours.
pub fn fingerprint_from_digest(digest: &[u8; 32]) -> (text: String)
    ensures
        text@ == fingerprint_text(digest@),
        text@.len() == 29,
        forall|i: int| 0 <= i < 29 ==> (#[trigger] text@[i] == ' ') == (i % 5 == 4),
        forall|i: int| 0 <= i < 29 && i % 5 != 4 ==> hex_digits().contains(#[trigger] text@[i]),
{
    proof {
        lemma_hex_groups_shape(digest@.take(12));
    }
    let mut head: Vec<u8> = Vec::new();
    let mut i: usize = 0;
    while i < 12
        invariant
            digest@.len() == 32,
            i <= 12,
            head@ == digest@.take(i as int),
        decreases 12 - i,
    {
        head.push(digest[i]);
        i = i + 1;
        assert(head@ =~= digest@.take(i as int));
    }
    to_hex_groups(head.as_slice())
}

/// Pairing fingerprint of two bundles: 24 lower-case hex digits in six groups of four,
/// separated by single spaces (29 characters). Order-independent: `fingerprint(a, b)` equals
/// `fingerprint(b, a)` (see `lemma_fingerprint_symmetric`).
pub fn fingerprint(a: &PublicBundle, b: &PublicBundle) -> (text: String)
    ensures
        text@ == spec_fingerprint(*a, *b),
        ({
            let ka = a.ml_dsa_pub@ + a.kem_pub@ + a.x25519_pub@;
            let kb = b.ml_dsa_pub@ + b.kem_pub@ + b.x25519_pub@;
            text@ == hex_groups(
                (if lex_le(ka, kb) {
                    spec_sha256(ka + kb)
                } else {
                    spec_sha256(kb + ka)
                }).take(12),
            )
        }),
        text@.len() == 29,
        forall|i: int| 0 <= i < 29 ==> (#[trigger] text@[i] == ' ') == (i % 5 == 4),
        forall|i: int| 0 <= i < 29 && i % 5 != 4 ==> hex_digits().contains(#[trigger] text@[i]),
{
    let a_bytes = concat_bundle(a);
    let b_bytes = concat_bundle(b);
    let mut data: Vec<u8> = Vec::new();
    if bytes_le(a_bytes.as_slice(), b_bytes.as_slice()) {
        append_bytes(&mut data, a_bytes.as_slice());
        append_bytes(&mut data, b_bytes.as_slice());
    } else {
        append_bytes(&mut data, b_bytes.as_slice());
        append_bytes(&mut data, a_bytes.as_slice());
    }
    let digest = sha256(data.as_slice());
    fingerprint_from_digest(&digest)
}

/// The pairing fingerprint is the first 12 bytes of SHA-256 over both bundles' full key
/// material (ML-DSA key, ML-KEM key, X25519 key, each bundle's concatenated in that order),
/// the concatenation that sorts first first, as grouped hex. Every key of both bundles
/// goes into the hash.
pub proof fn lemma_fingerprint_covers_all_keys(a: PublicBundle, b: PublicBundle)
    ensures
        ({
            let ka = a.ml_dsa_pub@ + a.kem_pub@ + a.x25519_pub@;
            let kb = b.ml_dsa_pub@ + b.kem_pub@ + b.x25519_pub@;
            spec_fingerprint(a, b) == hex_groups(
                (if lex_le(ka, kb) {
                    spec_sha256(ka + kb)
                } else {
                    spec_sha256(kb + ka)
                }).take(12),
            )
        }),
{
}

/// Sorting two byte strings does not depend on the order they are given in.
pub proof fn lemma_sorted_pair_symmetric(a: Seq<u8>, b: Seq<u8>)
    ensures
        sorted_pair(a, b) == sorted_pair(b, a),
{
    lemma_lex_trichotomy(a, b);
}

/// The pairing fingerprint is order-independent: whichever side initiated the pairing,
/// both devices display the same text.
pub proof fn lemma_fingerprint_symmetric(a: PublicBundle, b: PublicBundle)
    ensures
        spec_fingerprint(a, b) == spec_fingerprint(b, a),
{
    lemma_sorted_pair_symmetric(bundle_bytes(a), bundle_bytes(b));
}

} // verus!
