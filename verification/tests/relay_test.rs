use base64::Engine;
use locatorr::envelope::EnvelopeError;
use locatorr::identity::Identity;
use locatorr::relay::{
    decode_inbox_item, decode_pairing_fields, decode_pairing_payload, encode_pairing_fields,
    encode_pairing_payload, encode_share, fingerprint_still_matches, open_raw_share, random_id,
    random_id_from, share_for_contact, InboxField, OpenError, PairingError, PairingFields,
    RawShare, ShareError, StoredKeyError,
};
use locatorr::pairing::fingerprint;

#[test]
fn pairing_fields_round_trip() {
    let b = Identity::generate().public_bundle();
    let f = encode_pairing_fields(&b);
    let back = decode_pairing_fields(&f).unwrap();
    assert_eq!(back.ml_dsa_pub, b.ml_dsa_pub);
    assert_eq!(back.kem_pub, b.kem_pub);
    assert_eq!(back.x25519_pub, b.x25519_pub);
}

#[test]
fn pairing_errors() {
    let good = encode_pairing_fields(&Identity::generate().public_bundle());
    let bad = PairingFields { ml_dsa_pub: "***".to_string(), ..good.clone() };
    assert_eq!(decode_pairing_fields(&bad).unwrap_err(), PairingError::MlDsaPubNotBase64);
    let bad = PairingFields { kem_pub: "***".to_string(), ..good.clone() };
    assert_eq!(decode_pairing_fields(&bad).unwrap_err(), PairingError::KemPubNotBase64);
    let bad = PairingFields { x25519_pub: "***".to_string(), ..good.clone() };
    assert_eq!(decode_pairing_fields(&bad).unwrap_err(), PairingError::X25519PubNotBase64);
    let bad = PairingFields { x25519_pub: "AAAA".to_string(), ..good.clone() };
    assert_eq!(decode_pairing_fields(&bad).unwrap_err(), PairingError::X25519PubLength);
    assert_eq!(decode_pairing_payload("not base64!").unwrap_err(), PairingError::PayloadNotBase64);
    assert_eq!(PairingError::X25519PubLength.message(), "x25519_pub is not 32 bytes");
}

#[test]
fn pairing_payload_is_base64() {
    assert_eq!(encode_pairing_payload(b"hello"), "aGVsbG8=");
    assert_eq!(decode_pairing_payload("aGVsbG8=").unwrap(), b"hello");
}

#[test]
fn random_ids_are_alphanumeric() {
    // base64 of [0xfb, 0xff, ...] contains '+' and '/', which are removed
    let id = random_id_from(&[0xfbu8; 16]);
    assert_eq!(id, "v7v7v7v7v7w");
    let id = random_id();
    assert!(!id.is_empty());
    assert!(id.chars().all(|c| c.is_ascii_alphanumeric()));
}

#[test]
fn shares_for_contacts() {
    let me = Identity::generate();
    let bob = Identity::generate();
    let bp = bob.public_bundle();
    assert!(share_for_contact(&me, "", &bp.x25519_pub, &bp.kem_pub, b"p").unwrap().is_none());
    assert_eq!(share_for_contact(&me, "u1", &bp.x25519_pub[..31], &bp.kem_pub, b"p").unwrap_err(), ShareError::StoredX25519Length);
    assert_eq!(
        share_for_contact(&me, "u1", &bp.x25519_pub, &bp.kem_pub[..3], b"p").unwrap_err(),
        ShareError::Envelope(EnvelopeError::InvalidKemPublicKey)
    );
    let share = share_for_contact(&me, "u1", &bp.x25519_pub, &bp.kem_pub, b"p").unwrap().unwrap();
    let enc = encode_share(&share);

    // what the inbox hands back
    let raw = decode_inbox_item(
        "me".to_string(), &enc.ciphertext, &enc.wrapped_key, &enc.kem_ciphertext, &enc.nonce, &enc.wrap_nonce, 77,
    )
    .unwrap();
    assert_eq!(raw.updated_at, 77);
    assert_eq!(raw.nonce, share.nonce.to_vec());
    let mp = me.public_bundle();
    assert_eq!(open_raw_share(&bob, &mp.x25519_pub, &raw).unwrap(), b"p");
    assert_eq!(open_raw_share(&bob, &mp.x25519_pub[..2], &raw).unwrap_err(), OpenError::StoredX25519Length);
    let r2 = RawShare { nonce: vec![0; 11], ..raw.clone() };
    assert_eq!(open_raw_share(&bob, &mp.x25519_pub, &r2).unwrap_err(), OpenError::NonceLength);
    let r3 = RawShare { wrap_nonce: vec![0; 13], ..raw.clone() };
    assert_eq!(open_raw_share(&bob, &mp.x25519_pub, &r3).unwrap_err(), OpenError::WrapNonceLength);
    let r4 = RawShare { kem_ciphertext: vec![0; 5], ..raw.clone() };
    assert_eq!(open_raw_share(&bob, &mp.x25519_pub, &r4).unwrap_err(), OpenError::Envelope(EnvelopeError::KemCiphertextLength));
}

#[test]
fn inbox_decode_errors_name_the_field() {
    let ok = "AAAA";
    let bad = "*";
    let detail = base64::engine::general_purpose::STANDARD.decode(bad).unwrap_err().to_string();
    let cases = [
        (decode_inbox_item("f".to_string(), bad, ok, ok, ok, ok, 0), InboxField::Ciphertext, "ciphertext"),
        (decode_inbox_item("f".to_string(), ok, bad, ok, ok, ok, 0), InboxField::WrappedKey, "wrapped_key"),
        (decode_inbox_item("f".to_string(), ok, ok, bad, ok, ok, 0), InboxField::KemCiphertext, "kem_ciphertext"),
        (decode_inbox_item("f".to_string(), ok, ok, ok, bad, ok, 0), InboxField::Nonce, "nonce"),
        (decode_inbox_item("f".to_string(), ok, ok, ok, ok, bad, 0), InboxField::WrapNonce, "wrap_nonce"),
    ];
    for (r, field, name) in cases {
        let e = r.unwrap_err();
        assert_eq!(e.field, field);
        assert_eq!(e.detail, detail);
        assert_eq!(e.message(), format!("{}: {}", name, detail));
        assert_eq!(field.name(), name);
    }
    // the first field that does not decode is the one reported
    let e = decode_inbox_item("f".to_string(), ok, bad, ok, bad, ok, 0).unwrap_err();
    assert_eq!(e.field, InboxField::WrappedKey);
    // every field valid: the item decodes
    let item = decode_inbox_item("from-1".to_string(), "AQID", "BA==", "", "AAAAAAAAAAAAAAAA", "AAAA", 42).unwrap();
    assert_eq!(item.from, "from-1");
    assert_eq!(item.ciphertext, vec![1, 2, 3]);
    assert_eq!(item.wrapped_key, vec![4]);
    assert_eq!(item.kem_ciphertext, Vec::<u8>::new());
    assert_eq!(item.nonce, vec![0u8; 12]);
    assert_eq!(item.wrap_nonce, vec![0u8; 3]);
    assert_eq!(item.updated_at, 42);
}

#[test]
fn stored_fingerprint_check() {
    let me = Identity::generate().public_bundle();
    let them = Identity::generate().public_bundle();
    let stored = fingerprint(&me, &them);
    assert_eq!(
        fingerprint_still_matches(&me, them.ml_dsa_pub.clone(), them.kem_pub.clone(), &them.x25519_pub, &stored),
        Ok(true)
    );
    let other = Identity::generate().public_bundle();
    assert_eq!(
        fingerprint_still_matches(&me, other.ml_dsa_pub.clone(), other.kem_pub.clone(), &other.x25519_pub, &stored),
        Ok(false)
    );
    assert_eq!(
        fingerprint_still_matches(&me, them.ml_dsa_pub.clone(), them.kem_pub.clone(), &them.x25519_pub[..1], &stored),
        Err(StoredKeyError::X25519Length)
    );
}
