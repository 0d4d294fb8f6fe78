use locatorr::server::{
    after_poll, clean_base_url, find_peer_bundle, find_peer_pubkey, BundlePayload, PollAction, PubkeyPayload, POLL_ATTEMPTS,
    POLL_INTERVAL_MS,
};

fn pubkey(role: &str, key: Vec<u8>) -> PubkeyPayload {
    PubkeyPayload { role: role.to_string(), pubkey: key }
}

fn bundle(role: &str, data: Vec<u8>) -> BundlePayload {
    BundlePayload { role: role.to_string(), bundle: data }
}

#[test]
fn base_url_loses_its_trailing_slashes() {
    assert_eq!(clean_base_url("https://relay.example/"), "https://relay.example");
    assert_eq!(clean_base_url("https://relay.example///"), "https://relay.example");
    assert_eq!(clean_base_url("https://relay.example"), "https://relay.example");
    assert_eq!(clean_base_url("https://relay.example/api/v1"), "https://relay.example/api/v1");
    assert_eq!(clean_base_url("///"), "");
    assert_eq!(clean_base_url(""), "");
}

#[test]
fn peer_pubkey_is_the_first_posted_under_its_role() {
    let items = vec![pubkey("initiator", vec![1u8; 32]), pubkey("responder", vec![2u8; 32]), pubkey("responder", vec![3u8; 32])];
    assert_eq!(find_peer_pubkey(&items, "responder"), Some([2u8; 32]));
    assert_eq!(find_peer_pubkey(&items, "initiator"), Some([1u8; 32]));
    assert_eq!(find_peer_pubkey(&items, "observer"), None);
    assert_eq!(find_peer_pubkey(&[], "responder"), None);
}

#[test]
fn peer_pubkey_of_the_wrong_length_is_not_taken() {
    // the first responder key is short: nothing is taken, even though a later one would fit
    let items = vec![pubkey("responder", vec![2u8; 31]), pubkey("responder", vec![3u8; 32])];
    assert_eq!(find_peer_pubkey(&items, "responder"), None);
    let long = vec![pubkey("responder", vec![2u8; 33])];
    assert_eq!(find_peer_pubkey(&long, "responder"), None);
}

#[test]
fn peer_bundle_is_the_first_posted_under_its_role() {
    let items = vec![bundle("initiator", vec![1, 2, 3]), bundle("responder", vec![4, 5]), bundle("responder", vec![6])];
    assert_eq!(find_peer_bundle(&items, "responder"), Some(vec![4, 5]));
    assert_eq!(find_peer_bundle(&items, "initiator"), Some(vec![1, 2, 3]));
    assert_eq!(find_peer_bundle(&items, "Responder"), None);
    assert_eq!(find_peer_bundle(&[], "initiator"), None);
}

#[test]
fn polling_stops_when_found_or_after_the_last_attempt() {
    assert_eq!(after_poll(1, Some(7u8)), PollAction::Done(7));
    assert_eq!(after_poll(60, Some(7u8)), PollAction::Done(7));
    assert_eq!(after_poll::<u8>(1, None), PollAction::Retry);
    assert_eq!(after_poll::<u8>(59, None), PollAction::Retry);
    assert_eq!(after_poll::<u8>(60, None), PollAction::GiveUp);
    assert_eq!(after_poll::<u8>(61, None), PollAction::GiveUp);
    assert_eq!(POLL_ATTEMPTS, 60);
    assert_eq!(POLL_INTERVAL_MS, 1000);
}
