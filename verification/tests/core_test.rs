use locatorr::envelope::{combine, receive_location, share_location, share_location_with, EnvelopeError, Share};
use aes_gcm::aead::{Aead, KeyInit};
use ml_kem::TryKeyInit;
use locatorr::identity::{verify_signature, Identity};
use locatorr::pairing::{concat_bundle, fingerprint, fingerprint_from_digest};

#[test]
fn round_trip_share_and_decrypt() {
    let alice = Identity::generate();
    let bob = Identity::generate();

    let alice_pub = alice.public_bundle();
    let bob_pub = bob.public_bundle();

    // Pairing: both sides should compute the same fingerprint regardless of order.
    assert_eq!(
        fingerprint(&alice_pub, &bob_pub),
        fingerprint(&bob_pub, &alice_pub)
    );

    // Sharing: Alice encrypts a location for Bob.
    let payload = br#"{"lat":48.8566,"lon":2.3522,"accuracy":5,"ts":1781000000}"#;
    let share = share_location(&alice, &bob_pub.x25519_pub, &bob_pub.kem_pub, payload).unwrap();

    // Bob decrypts it using Alice's x25519 public key (from his local contacts table).
    let decrypted = receive_location(&bob, &alice_pub.x25519_pub, &share).unwrap();
    assert_eq!(decrypted, payload);

    // Auth: Alice signs a server nonce, anyone can verify it against her public key.
    let nonce = b"server-issued-nonce";
    let sig = alice.sign_challenge(nonce);
    assert!(verify_signature(&alice_pub.ml_dsa_pub, nonce, &sig));
    assert!(!verify_signature(&bob_pub.ml_dsa_pub, nonce, &sig));
}

#[test]
fn public_bundle_has_post_quantum_key_sizes() {
    let id = Identity::generate();
    let b = id.public_bundle();
    assert_eq!(b.ml_dsa_pub.len(), 1952);
    assert_eq!(b.kem_pub.len(), 1184);
    assert_eq!(concat_bundle(&b).len(), 1952 + 1184 + 32);
}

#[test]
fn identity_from_secrets_is_deterministic() {
    let a = Identity::from_secrets([1u8; 32], [2u8; 64], [3u8; 32]);
    let b = Identity::from_secrets([1u8; 32], [2u8; 64], [3u8; 32]);
    let (pa, pb) = (a.public_bundle(), b.public_bundle());
    assert_eq!(pa.ml_dsa_pub, pb.ml_dsa_pub);
    assert_eq!(pa.kem_pub, pb.kem_pub);
    assert_eq!(pa.x25519_pub, pb.x25519_pub);
    // the public key is not the secret handed in
    assert_ne!(pa.x25519_pub, [3u8; 32]);
    // deterministic signatures
    assert_eq!(a.sign_challenge(b"n"), b.sign_challenge(b"n"));
    assert_eq!(a.try_sign_challenge(b"n"), Some(a.sign_challenge(b"n")));
}

#[test]
fn identity_secrets_round_trip() {
    let a = Identity::from_secrets([1u8; 32], [2u8; 64], [3u8; 32]);
    assert_eq!(a.to_secrets(), ([1u8; 32], [2u8; 64], [3u8; 32]));
    let g = Identity::generate();
    let (s, k, x) = g.to_secrets();
    let back = Identity::from_secrets(s, k, x);
    assert_eq!(back.public_bundle().kem_pub, g.public_bundle().kem_pub);
    assert_eq!(back.x25519_secret(), g.x25519_secret());
}

#[test]
fn fingerprint_text_is_grouped_hex_of_twelve_bytes() {
    let mut digest = [0u8; 32];
    for (i, b) in digest.iter_mut().enumerate() {
        *b = (i as u8) * 17;
    }
    assert_eq!(fingerprint_from_digest(&digest), "0011 2233 4455 6677 8899 aabb");
    let a = Identity::generate().public_bundle();
    let f = fingerprint(&a, &a);
    assert_eq!(f.len(), 29);
}

#[test]
fn share_rejects_invalid_kem_key() {
    let alice = Identity::generate();
    let bob = Identity::generate().public_bundle();
    let r = share_location(&alice, &bob.x25519_pub, &bob.kem_pub[..100], b"x");
    assert_eq!(r.unwrap_err(), EnvelopeError::InvalidKemPublicKey);
}

#[test]
fn share_with_fixed_randomness_is_deterministic_and_opens() {
    let alice = Identity::generate();
    let bob = Identity::generate();
    let (ap, bp) = (alice.public_bundle(), bob.public_bundle());
    let s1 = share_location_with(&alice, &bp.x25519_pub, &bp.kem_pub, b"loc", &[7u8; 32], &[1u8; 12], &[2u8; 12], &[9u8; 32]).unwrap();
    let s2 = share_location_with(&alice, &bp.x25519_pub, &bp.kem_pub, b"loc", &[7u8; 32], &[1u8; 12], &[2u8; 12], &[9u8; 32]).unwrap();
    assert_eq!(s1.ciphertext, s2.ciphertext);
    assert_eq!(s1.wrapped_key, s2.wrapped_key);
    assert_eq!(s1.kem_ciphertext, s2.kem_ciphertext);
    assert_eq!(s1.ciphertext.len(), 3 + 16);
    assert_eq!(s1.kem_ciphertext.len(), 1088);
    assert_eq!(receive_location(&bob, &ap.x25519_pub, &s1).unwrap(), b"loc");
}

#[test]
fn receive_reports_each_error() {
    let alice = Identity::generate();
    let bob = Identity::generate();
    let (ap, bp) = (alice.public_bundle(), bob.public_bundle());
    let share = share_location(&alice, &bp.x25519_pub, &bp.kem_pub, b"payload").unwrap();

    let mut short = share.clone();
    short.kem_ciphertext.pop();
    assert_eq!(receive_location(&bob, &ap.x25519_pub, &short).unwrap_err(), EnvelopeError::KemCiphertextLength);

    // the wrong sender key gives a different wrap key
    let carol = Identity::generate().public_bundle();
    assert_eq!(receive_location(&bob, &carol.x25519_pub, &share).unwrap_err(), EnvelopeError::UnwrapFailed);

    let mut tampered = share.clone();
    tampered.ciphertext[0] ^= 1;
    assert_eq!(receive_location(&bob, &ap.x25519_pub, &tampered).unwrap_err(), EnvelopeError::PayloadDecryptFailed);

    // a wrapped key that unwraps to something other than a 32-byte content key
    let m = [3u8; 32];
    let ek = ml_kem::EncapsulationKey::<ml_kem::MlKem768>::new_from_slice(&bp.kem_pub).unwrap();
    let (kem_ct, kem_ss) = ek.encapsulate_deterministic(&m.into());
    let kem_ss: [u8; 32] = kem_ss.into();
    let dh = x25519_dalek::StaticSecret::from(*alice.x25519_secret())
        .diffie_hellman(&x25519_dalek::PublicKey::from(bp.x25519_pub))
        .to_bytes();
    let wrap = combine(&dh, &kem_ss);
    let wrapped = aes_gcm::Aes256Gcm::new(&wrap.into()).encrypt(&[2u8; 12].into(), &[0u8; 16][..]).unwrap();
    let kem_ct = kem_ct.to_vec();
    let odd = Share {
        ciphertext: share.ciphertext.clone(),
        nonce: share.nonce,
        wrapped_key: wrapped,
        wrap_nonce: [2u8; 12],
        kem_ciphertext: kem_ct,
    };
    assert_eq!(receive_location(&bob, &ap.x25519_pub, &odd).unwrap_err(), EnvelopeError::ContentKeyLength);
}

#[test]
fn fingerprint_and_share_shapes() {
    let a = Identity::generate().public_bundle();
    let b = Identity::generate().public_bundle();
    let fp = fingerprint(&a, &b);
    assert_eq!(fp.len(), 29);
    for (i, c) in fp.chars().enumerate() {
        if i % 5 == 4 {
            assert_eq!(c, ' ');
        } else {
            assert!(c.is_ascii_hexdigit() && !c.is_ascii_uppercase());
        }
    }

    let alice = Identity::generate();
    let bob = Identity::generate();
    let bp = bob.public_bundle();
    let share = share_location(&alice, &bp.x25519_pub, &bp.kem_pub, b"payload!").unwrap();
    assert_eq!(share.ciphertext.len(), 8 + 16);
    assert_eq!(share.wrapped_key.len(), 48);
    assert_eq!(share.kem_ciphertext.len(), 1088);

    assert!(!verify_signature(&[], b"m", &[]));
    assert!(!verify_signature(&alice.public_bundle().ml_dsa_pub, b"m", &[0u8; 10]));
}
