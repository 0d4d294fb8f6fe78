use base64::Engine;
use locatorr::crypt::bundle::{
    encapsulation_key_from_bundle, validate_peer_bundle, verifying_key_from_bundle, CryptError,
    IdentityBundle, LocalIdentity, PairedContact,
};
use locatorr::crypt::location::{
    build_signed_message, decrypt_from_identity, open_location_update, receive_location_update, send_location_update,
    send_location_update_with, prepare_update_for_contact, receive_with_last, ReceiveError, SendError,
};
use locatorr::keys::{DecapsulationKey, EncapsulationKey, EphemeralSecret, SigningKey, StaticSecret, VerifyingKey};
use locatorr::primitives::{
    ML_DSA_65_PUBLIC_KEY_LEN, ML_DSA_65_SEED_LEN, ML_KEM_768_PUBLIC_KEY_LEN, ML_KEM_768_SEED_LEN,
};
use locatorr::replay::{ReplayGuard, SequenceStore};

/// The JSON the pairing exchange carries for a bundle, and back.
fn bundle_through_json(b: &IdentityBundle) -> IdentityBundle {
    let mut map = serde_json::Map::new();
    map.insert("deviceId".to_string(), serde_json::Value::from(b.device_id.clone()));
    map.insert("deviceName".to_string(), serde_json::Value::from(b.device_name.clone()));
    map.insert("x25519Pub".to_string(), serde_json::Value::from(b.x25519_pub.to_vec()));
    map.insert("mlKemPub".to_string(), serde_json::Value::from(b.ml_kem_pub.clone()));
    map.insert("mlDsaPub".to_string(), serde_json::Value::from(b.ml_dsa_pub.clone()));
    let json = serde_json::to_vec(&serde_json::Value::Object(map)).unwrap();
    let v: serde_json::Value = serde_json::from_slice(&json).unwrap();
    let bytes = |k: &str| -> Vec<u8> {
        v[k].as_array().unwrap().iter().map(|x| x.as_u64().unwrap() as u8).collect()
    };
    IdentityBundle {
        device_id: v["deviceId"].as_str().unwrap().to_string(),
        device_name: v["deviceName"].as_str().unwrap().to_string(),
        x25519_pub: bytes("x25519Pub").try_into().unwrap(),
        ml_kem_pub: bytes("mlKemPub"),
        ml_dsa_pub: bytes("mlDsaPub"),
    }
}

/// The serialized location payload (`LocationPayload` in camelCase JSON).
fn payload_json(latitude: f64, longitude: f64, accuracy_m: Option<f64>, timestamp: u64) -> Vec<u8> {
    let mut map = serde_json::Map::new();
    map.insert("latitude".to_string(), serde_json::Value::from(latitude));
    map.insert("longitude".to_string(), serde_json::Value::from(longitude));
    map.insert(
        "accuracyM".to_string(),
        match accuracy_m {
            Some(a) => serde_json::Value::from(a),
            None => serde_json::Value::Null,
        },
    );
    map.insert("timestamp".to_string(), serde_json::Value::from(timestamp));
    serde_json::to_vec(&serde_json::Value::Object(map)).unwrap()
}

/// The X25519 public key of a secret.
fn x25519_public(secret: &[u8; 32]) -> [u8; 32] {
    x25519_dalek::PublicKey::from(&x25519_dalek::StaticSecret::from(*secret)).to_bytes()
}

/// The public keys belonging to the given private material.
fn public_keys(x25519_private: [u8; 32], kem_seed: [u8; 64], dsa_seed: [u8; 32]) -> IdentityBundle {
    LocalIdentity::from_persisted("keys", "keys", x25519_private, kem_seed, dsa_seed).unwrap().bundle
}

#[test]
fn round_trip_and_replay_is_rejected() {
    // Set up Bob's static keys (normally done once, at Phase 1 pairing).
    let bob_kem_dk = DecapsulationKey { seed: rand::random::<[u8; 64]>() };
    let bob_x25519_priv = StaticSecret { bytes: rand::random::<[u8; 32]>() };
    // Set up Alice's static signing key.
    let alice_sk = SigningKey { seed: rand::random::<[u8; 32]>() };
    let bob_keys = public_keys(bob_x25519_priv.bytes, bob_kem_dk.seed, [0u8; 32]);
    let alice_keys = public_keys([0u8; 32], [0u8; 64], alice_sk.seed);
    let bob_kem_ek = EncapsulationKey::from_bytes(&bob_keys.ml_kem_pub).unwrap();
    let bob_x25519_pub = bob_keys.x25519_pub;
    assert_eq!(bob_x25519_pub, x25519_public(&bob_x25519_priv.bytes));
    let alice_vk = VerifyingKey::from_bytes(&alice_keys.ml_dsa_pub).unwrap();

    let mut seq_store = SequenceStore::new();
    let mut guard = ReplayGuard::new();

    let payload = b"lat=45.90,lon=6.13";
    let package = send_location_update(
        &bob_kem_ek,
        &bob_x25519_pub,
        &alice_sk,
        "alice".to_string(),
        seq_store.reserve_next("alice-phone").unwrap(),
        payload,
        1_752_000_000,
    )
    .unwrap();

    let decrypted = receive_location_update(&package, &bob_kem_dk, &bob_x25519_priv, &alice_vk, &mut guard)
        .expect("first delivery should succeed");
    assert_eq!(decrypted, payload);

    // Bob (or the server) replays the exact same package again.
    let replay_result = receive_location_update(&package, &bob_kem_dk, &bob_x25519_priv, &alice_vk, &mut guard);
    assert!(replay_result.is_err(), "replayed package must be rejected");

    // A genuinely new update with the next sequence number still works.
    let package2 = send_location_update(
        &bob_kem_ek,
        &bob_x25519_pub,
        &alice_sk,
        "alice".to_string(),
        seq_store.reserve_next("alice-phone").unwrap(),
        b"lat=45.91,lon=6.14",
        1_752_000_030,
    )
    .unwrap();
    assert!(receive_location_update(&package2, &bob_kem_dk, &bob_x25519_priv, &alice_vk, &mut guard).is_ok());
}

#[test]
fn pq_identity_bundle_carries_real_keys() {
    let identity = LocalIdentity::generate("alice-phone");

    assert_eq!(identity.bundle.ml_kem_pub.len(), ML_KEM_768_PUBLIC_KEY_LEN);
    assert_eq!(identity.bundle.ml_dsa_pub.len(), ML_DSA_65_PUBLIC_KEY_LEN);
    assert_eq!(identity.bundle.device_id.len(), 16);
    assert_eq!(identity.ml_kem_seed.len(), ML_KEM_768_SEED_LEN);
    assert_eq!(identity.ml_dsa_seed.len(), ML_DSA_65_SEED_LEN);

    // The bundle has to survive the pairing exchange, which is JSON.
    let round_tripped = bundle_through_json(&identity.bundle);
    assert_eq!(round_tripped.device_id, identity.bundle.device_id);
    assert_eq!(round_tripped.x25519_pub, identity.bundle.x25519_pub);
    assert_eq!(round_tripped.ml_kem_pub, identity.bundle.ml_kem_pub);
    assert_eq!(round_tripped.ml_dsa_pub, identity.bundle.ml_dsa_pub);

    // The public keys the peer sees must actually be usable.
    assert!(encapsulation_key_from_bundle(&round_tripped).is_ok());
    assert!(verifying_key_from_bundle(&round_tripped).is_ok());
}

#[test]
fn end_to_end_send_between_paired_identities() {
    let alice = LocalIdentity::generate("alice");
    let bob = LocalIdentity::generate("bob");

    // What pairing actually transports: JSON-serialized bundles.
    let bob_as_alice_sees = bundle_through_json(&bob.bundle);
    let alice_as_bob_sees = bundle_through_json(&alice.bundle);

    let mut seq_store = SequenceStore::new();
    let mut guard = ReplayGuard::new();

    let payload_bytes = payload_json(45.90, 6.13, Some(8.0), 1_752_000_000);

    let package = send_location_update(
        &encapsulation_key_from_bundle(&bob_as_alice_sees).unwrap(),
        &bob_as_alice_sees.x25519_pub,
        &alice.signing_key(),
        alice.bundle.device_id.clone(),
        seq_store.reserve_next(&alice.bundle.device_id).unwrap(),
        &payload_bytes,
        1_752_000_000,
    )
    .unwrap();

    let decrypted = receive_location_update(
        &package,
        &bob.kem_decapsulation_key().unwrap(),
        &bob.x25519_secret(),
        &verifying_key_from_bundle(&alice_as_bob_sees).unwrap(),
        &mut guard,
    )
    .expect("bob should decrypt alice's update");
    assert_eq!(decrypted, payload_bytes);

    // Replaying the exact same package must be rejected.
    let replay = receive_location_update(
        &package,
        &bob.kem_decapsulation_key().unwrap(),
        &bob.x25519_secret(),
        &verifying_key_from_bundle(&alice_as_bob_sees).unwrap(),
        &mut guard,
    );
    assert!(replay.is_err(), "replayed package must be rejected");
}

#[test]
fn validate_peer_bundle_rejects_missing_pq_keys() {
    let mut legacy_bundle = LocalIdentity::generate("legacy").bundle;
    legacy_bundle.ml_kem_pub.clear();
    legacy_bundle.ml_dsa_pub.clear();

    let err = validate_peer_bundle(&legacy_bundle).unwrap_err();
    assert!(
        err.message().contains("re-pair"),
        "error should tell the user how to recover, got: {}",
        err.message()
    );

    let modern = LocalIdentity::generate("modern");
    assert!(validate_peer_bundle(&modern.bundle).is_ok());
}

#[test]
fn polled_package_decrypts_against_persisted_identity() {
    let alice = LocalIdentity::generate("alice");
    let bob = LocalIdentity::generate("bob");
    let mut guard = ReplayGuard::new();

    let payload_bytes = payload_json(51.5, -0.12, Some(5.0), 1_752_000_123);

    let package = send_location_update(
        &encapsulation_key_from_bundle(&bob.bundle).unwrap(),
        &bob.bundle.x25519_pub,
        &alice.signing_key(),
        alice.bundle.device_id.clone(),
        7,
        &payload_bytes,
        1_752_000_123,
    )
    .unwrap();
    assert_eq!(package.sequence, 7);

    let received = decrypt_from_identity(&package, &bob, &alice.bundle, &mut guard)
        .expect("bob should decrypt alice's polled update");
    assert_eq!(received, payload_bytes);
}

#[test]
fn decrypt_from_identity_rejects_replay_and_wrong_sender() {
    let alice = LocalIdentity::generate("alice");
    let bob = LocalIdentity::generate("bob");
    let mallory = LocalIdentity::generate("mallory");
    let mut guard = ReplayGuard::new();

    let payload_bytes = payload_json(1.0, 2.0, None, 1_752_000_000);

    let package = send_location_update(
        &encapsulation_key_from_bundle(&bob.bundle).unwrap(),
        &bob.bundle.x25519_pub,
        &alice.signing_key(),
        alice.bundle.device_id.clone(),
        0,
        &payload_bytes,
        1_752_000_000,
    )
    .unwrap();

    // First delivery succeeds and advances the replay guard.
    assert!(decrypt_from_identity(&package, &bob, &alice.bundle, &mut guard).is_ok());

    // The same package again is a replay.
    assert!(
        decrypt_from_identity(&package, &bob, &alice.bundle, &mut guard).is_err(),
        "replayed package must be rejected"
    );

    // Alice's signature cannot verify against Mallory's pinned key; a fresh
    // guard keeps this from tripping the replay check instead.
    let mut fresh_guard = ReplayGuard::new();
    assert!(
        decrypt_from_identity(&package, &bob, &mallory.bundle, &mut fresh_guard).is_err(),
        "package must not verify against the wrong sender"
    );
}

#[test]
fn identity_rebuilds_from_persisted_material() {
    // RFC 7748 X25519 test vector for the private key.
    let x_priv: [u8; 32] = [
        0x77, 0x07, 0x6d, 0x0a, 0x73, 0x18, 0xa5, 0x7d, 0x3c, 0x16, 0xc1, 0x72, 0x51, 0xb2, 0x66, 0x45,
        0xdf, 0x4c, 0x2f, 0x87, 0xeb, 0xc0, 0x99, 0x2a, 0xb1, 0x77, 0xfb, 0xa5, 0x1d, 0xb9, 0x2c, 0x2a,
    ];
    let id = LocalIdentity::from_persisted("alice-phone", "stored-id", x_priv, [4u8; 64], [5u8; 32]).unwrap();
    assert_eq!(
        id.bundle.x25519_pub,
        [
            0x85, 0x20, 0xf0, 0x09, 0x89, 0x30, 0xa7, 0x54, 0x74, 0x8b, 0x7d, 0xdc, 0xb4, 0x3e, 0xf7, 0x5a,
            0x0d, 0xbf, 0x3a, 0x0d, 0x26, 0x38, 0x1a, 0xf4, 0xeb, 0xa4, 0xa9, 0x8e, 0xaa, 0x9b, 0x4e, 0x6a,
        ]
    );
    assert_eq!(id.bundle.device_id, "stored-id");
    assert_eq!(id.bundle.device_name, "alice-phone");
    assert_eq!(locatorr::crypt::bundle::derive_device_id(&id.bundle.x25519_pub), "8520f0098930a754");

    // Renaming the device must not rotate the identity.
    let renamed = LocalIdentity::from_persisted("alice-laptop", "stored-id", x_priv, [4u8; 64], [5u8; 32]).unwrap();
    assert_eq!(renamed.bundle.device_id, id.bundle.device_id);
    assert_eq!(renamed.bundle.device_name, "alice-laptop");
    assert_eq!(renamed.bundle.x25519_pub, id.bundle.x25519_pub);
    assert_eq!(renamed.bundle.ml_kem_pub, id.bundle.ml_kem_pub);
    assert_eq!(renamed.bundle.ml_dsa_pub, id.bundle.ml_dsa_pub);
    assert_eq!(renamed.signing_key().seed, [5u8; 32]);
    assert_eq!(renamed.kem_decapsulation_key().unwrap().seed, [4u8; 64]);
    assert_eq!(renamed.x25519_secret().bytes, x_priv);
}

#[test]
fn bundle_key_errors() {
    let mut b = LocalIdentity::generate("x").bundle;
    b.ml_dsa_pub.pop();
    assert_eq!(verifying_key_from_bundle(&b).unwrap_err(), CryptError::DsaPublicKeyLength);
    b.ml_kem_pub.pop();
    assert_eq!(encapsulation_key_from_bundle(&b).unwrap_err(), CryptError::KemPublicKeyLength);
    // 1184 bytes of 0xff fail the modulus check
    b.ml_kem_pub = vec![0xffu8; 1184];
    assert_eq!(encapsulation_key_from_bundle(&b).unwrap_err(), CryptError::KemPublicKeyInvalid);
    assert_eq!(validate_peer_bundle(&b).unwrap_err(), CryptError::MissingPostQuantumKeys);
}

#[test]
fn signed_message_layout() {
    let msg = build_signed_message("ab", 1, &[9u8; 32], &[7, 7, 7], &[5], 0x0102030405060708);
    let mut expected = vec![0, 0, 0, 2, b'a', b'b', 0, 0, 0, 0, 0, 0, 0, 1];
    expected.extend_from_slice(&[9u8; 32]);
    expected.extend_from_slice(&[0, 0, 0, 3, 7, 7, 7, 0, 0, 0, 1, 5]);
    expected.extend_from_slice(&[1, 2, 3, 4, 5, 6, 7, 8]);
    assert_eq!(msg, expected);
    // moving a byte from one field to the next changes the message
    assert_ne!(
        build_signed_message("ab", 1, &[9u8; 32], &[7, 7], &[7, 5], 0),
        build_signed_message("ab", 1, &[9u8; 32], &[7, 7, 7], &[5], 0)
    );
}

#[test]
fn receive_location_update_reports_each_error() {
    let alice = LocalIdentity::generate("alice");
    let bob = LocalIdentity::generate("bob");
    let bob_ek = encapsulation_key_from_bundle(&bob.bundle).unwrap();
    let alice_vk = verifying_key_from_bundle(&alice.bundle).unwrap();
    let eph = EphemeralSecret { bytes: [8u8; 32] };
    let package = send_location_update_with(
        &bob_ek, &bob.bundle.x25519_pub, &alice.signing_key(), "alice".to_string(), 3, b"here", 10,
        &[1u8; 32], &eph, &[2u8; 32], &[3u8; 12], &[4u8; 12],
    )
    .unwrap();
    assert_eq!(package.x_eph, x25519_public(&eph.bytes));
    assert_eq!(package.ciphertext.len(), 4 + 16);

    let mut g = ReplayGuard::new();
    let mut bad_sig = package.clone();
    bad_sig.sig.pop();
    assert_eq!(
        receive_location_update(&bad_sig, &bob.kem_decapsulation_key().unwrap(), &bob.x25519_secret(), &alice_vk, &mut g).unwrap_err(),
        ReceiveError::SignatureEncoding
    );
    let mut forged = package.clone();
    forged.timestamp = 11;
    assert_eq!(
        receive_location_update(&forged, &bob.kem_decapsulation_key().unwrap(), &bob.x25519_secret(), &alice_vk, &mut g).unwrap_err(),
        ReceiveError::SignatureInvalid
    );
    // nothing was accepted yet: the guard is still empty
    assert_eq!(g.last_sequence("alice"), None);

    // carol's keys cannot unwrap a package made for bob
    let carol = LocalIdentity::generate("carol");
    assert_eq!(
        receive_location_update(&package, &carol.kem_decapsulation_key().unwrap(), &carol.x25519_secret(), &alice_vk, &mut g).unwrap_err(),
        ReceiveError::UnwrapFailed
    );
    // the guard advanced even though decryption failed
    assert_eq!(g.last_sequence("alice"), Some(3));
    assert_eq!(
        receive_location_update(&package, &bob.kem_decapsulation_key().unwrap(), &bob.x25519_secret(), &alice_vk, &mut g).unwrap_err(),
        ReceiveError::Replayed
    );

    let mut wrong_sender_bundle = alice.bundle.clone();
    wrong_sender_bundle.ml_dsa_pub.truncate(10);
    assert_eq!(
        decrypt_from_identity(&package, &bob, &wrong_sender_bundle, &mut ReplayGuard::new()).unwrap_err(),
        ReceiveError::SenderKey(CryptError::DsaPublicKeyLength)
    );
}

#[test]
fn open_reports_decryption_errors() {
    let alice = LocalIdentity::generate("alice");
    let bob = LocalIdentity::generate("bob");
    let bob_ek = encapsulation_key_from_bundle(&bob.bundle).unwrap();
    let package = send_location_update(
        &bob_ek, &bob.bundle.x25519_pub, &alice.signing_key(), "alice".to_string(), 0, b"p", 0,
    )
    .unwrap();
    let dk = bob.kem_decapsulation_key().unwrap();
    let x = bob.x25519_secret();
    assert_eq!(open_location_update(&package, &dk, &x).unwrap(), b"p");

    let mut short = package.clone();
    short.ct_pq.pop();
    assert_eq!(open_location_update(&short, &dk, &x).unwrap_err(), ReceiveError::KemCiphertextLength);

    let mut tampered = package.clone();
    tampered.ciphertext[0] ^= 0x80;
    assert_eq!(open_location_update(&tampered, &dk, &x).unwrap_err(), ReceiveError::PayloadDecryptFailed);

    let mut bad_wrap = package.clone();
    bad_wrap.wrapped_key[0] ^= 0x80;
    assert_eq!(open_location_update(&bad_wrap, &dk, &x).unwrap_err(), ReceiveError::UnwrapFailed);
    assert_eq!(ReceiveError::ContentKeyInvalid.message(), "invalid content key");
}

#[test]
fn update_for_a_paired_contact() {
    let alice = LocalIdentity::generate("alice");
    let bob = LocalIdentity::generate("bob");
    let contact = PairedContact {
        device_id: bob.bundle.device_id.clone(),
        device_name: "Bob's phone".to_string(),
        fingerprint: "ab cd".to_string(),
        bundle: bundle_through_json(&bob.bundle),
        paired_at: 1_700_000_000,
    };
    let payload = payload_json(1.5, -2.25, None, 1_752_000_123);

    let (package, sent) = prepare_update_for_contact(&contact, &alice, 7, &payload, 1_752_000_123).unwrap();
    assert_eq!(package.sender_id, alice.bundle.device_id);
    assert_eq!(package.sequence, 7);
    assert_eq!(package.timestamp, 1_752_000_123);
    assert_eq!(sent.contact_device_id, bob.bundle.device_id);
    assert_eq!(sent.contact_device_name, "Bob's phone");
    assert_eq!(sent.sequence, 7);
    assert_eq!(sent.timestamp, 1_752_000_123);

    let mut guard = ReplayGuard::new();
    let opened = decrypt_from_identity(&package, &bob, &bundle_through_json(&alice.bundle), &mut guard).unwrap();
    assert_eq!(opened, payload);

    // a contact paired before post-quantum keys existed
    let mut old = contact.clone();
    old.bundle.ml_dsa_pub.clear();
    let err = prepare_update_for_contact(&old, &alice, 8, &payload, 1).unwrap_err();
    assert_eq!(err, SendError::Contact(CryptError::MissingPostQuantumKeys));
    assert_eq!(err.message(), CryptError::MissingPostQuantumKeys.message());

    // a full-length ML-KEM key that fails the encapsulation-key check
    let mut bad = contact.clone();
    bad.bundle.ml_kem_pub = vec![0xff; ML_KEM_768_PUBLIC_KEY_LEN];
    let err = prepare_update_for_contact(&bad, &alice, 9, &payload, 1).unwrap_err();
    assert_eq!(err, SendError::Contact(CryptError::KemPublicKeyInvalid));
    assert_eq!(SendError::SigningFailed.message(), "failed to sign location update");
}

/// The package as it travels through the server inbox: camelCase JSON with the byte fields
/// in base64, and back.
fn package_through_json(p: &locatorr::crypt::location::LocationUpdatePackage) -> locatorr::crypt::location::LocationUpdatePackage {
    let b64 = base64::engine::general_purpose::STANDARD;
    let mut map = serde_json::Map::new();
    map.insert("senderId".to_string(), serde_json::Value::from(p.sender_id.clone()));
    map.insert("sequence".to_string(), serde_json::Value::from(p.sequence));
    map.insert("ciphertext".to_string(), serde_json::Value::from(b64.encode(&p.ciphertext)));
    map.insert("wrappedKey".to_string(), serde_json::Value::from(b64.encode(&p.wrapped_key)));
    map.insert("ctPq".to_string(), serde_json::Value::from(b64.encode(&p.ct_pq)));
    map.insert("xEph".to_string(), serde_json::Value::from(b64.encode(p.x_eph)));
    map.insert("sig".to_string(), serde_json::Value::from(b64.encode(&p.sig)));
    map.insert("n1".to_string(), serde_json::Value::from(b64.encode(p.n1)));
    map.insert("n2".to_string(), serde_json::Value::from(b64.encode(p.n2)));
    map.insert("timestamp".to_string(), serde_json::Value::from(p.timestamp));
    let wire = serde_json::to_vec(&serde_json::Value::Object(map)).unwrap();
    let v: serde_json::Value = serde_json::from_slice(&wire).unwrap();
    let bytes = |k: &str| -> Vec<u8> { b64.decode(v[k].as_str().unwrap()).unwrap() };
    locatorr::crypt::location::LocationUpdatePackage {
        sender_id: v["senderId"].as_str().unwrap().to_string(),
        sequence: v["sequence"].as_u64().unwrap(),
        ciphertext: bytes("ciphertext"),
        wrapped_key: bytes("wrappedKey"),
        ct_pq: bytes("ctPq"),
        x_eph: bytes("xEph").try_into().unwrap(),
        sig: bytes("sig"),
        n1: bytes("n1").try_into().unwrap(),
        n2: bytes("n2").try_into().unwrap(),
        timestamp: v["timestamp"].as_u64().unwrap(),
    }
}

#[test]
fn location_package_survives_json_transport() {
    let alice = LocalIdentity::generate("alice");
    let bob = LocalIdentity::generate("bob");
    let mut guard = ReplayGuard::new();

    let payload_bytes = payload_json(-12.34, 56.78, None, 1_752_000_000);

    let package = send_location_update(
        &encapsulation_key_from_bundle(&bob.bundle).unwrap(),
        &bob.bundle.x25519_pub,
        &alice.signing_key(),
        alice.bundle.device_id.clone(),
        0,
        &payload_bytes,
        1_752_000_000,
    )
    .unwrap();

    let decoded = package_through_json(&package);
    assert_eq!(decoded.sender_id, package.sender_id);
    assert_eq!(decoded.x_eph, package.x_eph);
    assert_eq!(decoded.n1, package.n1);
    assert_eq!(decoded.n2, package.n2);
    assert_eq!(decoded.wrapped_key, package.wrapped_key);

    let decrypted = receive_location_update(
        &decoded,
        &bob.kem_decapsulation_key().unwrap(),
        &bob.x25519_secret(),
        &verifying_key_from_bundle(&alice.bundle).unwrap(),
        &mut guard,
    )
    .expect("deserialized package should still decrypt");
    assert_eq!(decrypted, payload_bytes);
}

/// What the identity store keeps is the device id, the name and the private material; the
/// identity rebuilt from them on the next start is the same identity.
#[test]
fn identity_is_stable_across_reopen() {
    let created = LocalIdentity::generate("alice-phone");
    let stored = (
        created.bundle.device_id.clone(),
        created.x25519_private,
        created.ml_kem_seed,
        created.ml_dsa_seed,
    );

    let loaded = LocalIdentity::from_persisted("alice-phone", &stored.0, stored.1, stored.2, stored.3).unwrap();
    assert_eq!(loaded.bundle.device_id, created.bundle.device_id);
    assert_eq!(loaded.bundle.ml_kem_pub, created.bundle.ml_kem_pub);
    assert_eq!(loaded.bundle.ml_dsa_pub, created.bundle.ml_dsa_pub);

    // Renaming the device must not rotate the identity.
    let renamed = LocalIdentity::from_persisted("alice-laptop", &stored.0, stored.1, stored.2, stored.3).unwrap();
    assert_eq!(renamed.bundle.device_id, created.bundle.device_id);
    assert_eq!(renamed.bundle.device_name, "alice-laptop");
    assert_eq!(renamed.bundle.x25519_pub, loaded.bundle.x25519_pub);
}

#[test]
fn receive_against_stored_replay_state() {
    let alice = LocalIdentity::generate("alice");
    let bob = LocalIdentity::generate("bob");
    let mallory = LocalIdentity::generate("mallory");
    let payload = payload_json(10.0, 20.0, Some(3.0), 1_752_000_000);
    let package = send_location_update(
        &encapsulation_key_from_bundle(&bob.bundle).unwrap(),
        &bob.bundle.x25519_pub,
        &alice.signing_key(),
        alice.bundle.device_id.clone(),
        5,
        &payload,
        1_752_000_000,
    )
    .unwrap();
    let kem = bob.kem_decapsulation_key().unwrap();
    let x = bob.x25519_secret();
    let vk = verifying_key_from_bundle(&alice.bundle).unwrap();

    let (r, stored) = receive_with_last(&package, &kem, &x, &vk, None);
    assert_eq!(r.unwrap(), payload);
    assert_eq!(stored, Some(5));

    // after a restart only the stored number is left; it still refuses the same package
    let (r, stored) = receive_with_last(&package, &kem, &x, &vk, Some(5));
    assert_eq!(r.unwrap_err(), ReceiveError::Replayed);
    assert_eq!(stored, Some(5));
    let (r, stored) = receive_with_last(&package, &kem, &x, &vk, Some(9));
    assert_eq!(r.unwrap_err(), ReceiveError::Replayed);
    assert_eq!(stored, Some(9));
    let (r, stored) = receive_with_last(&package, &kem, &x, &vk, Some(4));
    assert_eq!(r.unwrap(), payload);
    assert_eq!(stored, Some(5));

    // a package that does not verify leaves the stored number alone
    let wrong = verifying_key_from_bundle(&mallory.bundle).unwrap();
    let (r, stored) = receive_with_last(&package, &kem, &x, &wrong, Some(1));
    assert_eq!(r.unwrap_err(), ReceiveError::SignatureInvalid);
    assert_eq!(stored, Some(1));
}

#[test]
fn sent_update_lengths() {
    let bob = LocalIdentity::generate("bob");
    let alice_sk = SigningKey { seed: [1u8; 32] };
    let package = send_location_update(
        &encapsulation_key_from_bundle(&bob.bundle).unwrap(),
        &bob.bundle.x25519_pub,
        &alice_sk,
        "alice".to_string(),
        7,
        b"lat=1",
        1_752_000_123,
    )
    .unwrap();
    assert_eq!(package.sender_id, "alice");
    assert_eq!(package.sequence, 7);
    assert_eq!(package.timestamp, 1_752_000_123);
    assert_eq!(package.ciphertext.len(), 5 + 16);
    assert_eq!(package.wrapped_key.len(), 48);
    assert_eq!(package.ct_pq.len(), 1088);
    assert_eq!(package.sig.len(), 3309);
    let generated = LocalIdentity::generate("alice-phone");
    assert_eq!(generated.bundle.device_id.len(), 16);
    assert!(encapsulation_key_from_bundle(&generated.bundle).is_ok());
}
