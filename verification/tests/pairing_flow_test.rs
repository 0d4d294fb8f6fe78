use locatorr::crypt::bundle::{
    complete_pairing, decrypt_identity_bundle, encrypt_identity_bundle, encrypt_identity_bundle_with,
    CryptError, LocalIdentity,
};
use locatorr::crypt::rendezvous::{
    accept_rendezvous, accept_rendezvous_with, complete_rendezvous, compute_safety_fingerprint,
    derive_rendezvous_transit_key, generate_rendezvous_invitation, pairing_fingerprint,
};
use locatorr::keys::EphemeralSecret;

/// The X25519 public key of a secret.
fn x25519_public(secret: &[u8; 32]) -> [u8; 32] {
    x25519_dalek::PublicKey::from(&x25519_dalek::StaticSecret::from(*secret)).to_bytes()
}

#[test]
fn both_sides_derive_the_same_transit_key_and_fingerprint() {
    let (state, invitation) = generate_rendezvous_invitation("room-1".to_string());
    assert_eq!(invitation.rendezvous_id, "room-1");
    assert_eq!(invitation.token, state.token);
    assert_eq!(invitation.x_temp_pub, x25519_public(&state.x_temp_sec.bytes));

    let (accepted, responder_key) = accept_rendezvous(&invitation);
    let (completed, initiator_key) = complete_rendezvous(state, &accepted.my_pub);
    assert_eq!(responder_key, initiator_key);
    assert_eq!(accepted.fingerprint, completed.fingerprint);
    assert_eq!(accepted.fingerprint.len(), 29);
}

#[test]
fn transit_key_depends_on_token() {
    let a = EphemeralSecret { bytes: [1u8; 32] };
    let b = EphemeralSecret { bytes: [2u8; 32] };
    let a_pub = x25519_public(&a.bytes);
    let b_pub = x25519_public(&b.bytes);
    let k1 = derive_rendezvous_transit_key(a, &b_pub, &[0u8; 32]);
    let k2 = derive_rendezvous_transit_key(b, &a_pub, &[0u8; 32]);
    let k3 = derive_rendezvous_transit_key(a, &b_pub, &[1u8; 32]);
    assert_eq!(k1, k2);
    assert_ne!(k1, k3);
    assert_ne!(k1, [0u8; 32]);
}

#[test]
fn safety_fingerprint_is_sha256_prefix_in_sorted_order() {
    // SHA-256("abc") = ba7816bf 8f01cfea 414140de 5dae2223 ...
    let expected = [0xba, 0x78, 0x16, 0xbf, 0x8f, 0x01, 0xcf, 0xea, 0x41, 0x41, 0x40, 0xde];
    assert_eq!(compute_safety_fingerprint(b"ab", b"c"), expected);
    assert_eq!(compute_safety_fingerprint(b"c", b"ab"), expected);
    assert_eq!(pairing_fingerprint(b"ab", b"c"), "ba78 16bf 8f01 cfea 4141 40de");
}

#[test]
fn accept_with_fixed_secret() {
    let (_state, invitation) = generate_rendezvous_invitation("r".to_string());
    let me = EphemeralSecret { bytes: [6u8; 32] };
    let (accepted, key) = accept_rendezvous_with(&invitation, me);
    assert_eq!(accepted.my_pub, x25519_public(&[6u8; 32]));
    assert_eq!(key, derive_rendezvous_transit_key(me, &invitation.x_temp_pub, &invitation.token));
}

#[test]
fn identity_bundle_round_trips_through_transit_encryption() {
    let key = [3u8; 32];
    let json = br#"{"deviceId":"abc"}"#;
    let sealed = encrypt_identity_bundle(&key, json).unwrap();
    assert_eq!(sealed.len(), 12 + json.len() + 16);
    assert_eq!(decrypt_identity_bundle(&key, &sealed).unwrap(), json);

    let fixed = encrypt_identity_bundle_with(&key, json, &[9u8; 12]).unwrap();
    assert_eq!(&fixed[..12], &[9u8; 12]);
    assert_eq!(decrypt_identity_bundle(&key, &fixed).unwrap(), json);

    assert_eq!(decrypt_identity_bundle(&[4u8; 32], &sealed).unwrap_err(), CryptError::DecryptionFailed);
    assert_eq!(decrypt_identity_bundle(&key, &sealed[..12]).unwrap_err(), CryptError::EncryptedBundleTooShort);
    assert_eq!(CryptError::EncryptionFailed.message(), "Encryption failed: aead::Error");
    assert_eq!(CryptError::DecryptionFailed.message(), "Decryption failed: aead::Error");
}

#[test]
fn completing_a_pairing_keeps_the_peer() {
    let peer = LocalIdentity::generate("bob-phone").bundle;
    let (contact, summary) = complete_pairing(peer.clone(), "1234 5678".to_string(), 42);
    assert_eq!(contact.device_id, peer.device_id);
    assert_eq!(contact.device_name, "bob-phone");
    assert_eq!(contact.fingerprint, "1234 5678");
    assert_eq!(contact.paired_at, 42);
    assert_eq!(summary.peer_device_id, peer.device_id);
    assert_eq!(summary.peer_device_name, "bob-phone");
    assert_eq!(summary.fingerprint, "1234 5678");
}
