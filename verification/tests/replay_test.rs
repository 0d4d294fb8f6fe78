use locatorr::replay::{replay_accepts, reserve_decision, ReplayError, ReplayGuard, SequenceError, SequenceStore};

#[test]
fn sequence_numbers_count_up_per_device() {
    let mut s = SequenceStore::new();
    assert_eq!(s.reserve_next("alice-phone").unwrap(), 0);
    assert_eq!(s.reserve_next("alice-phone").unwrap(), 1);
    assert_eq!(s.reserve_next("bob-phone").unwrap(), 0);
    assert_eq!(s.reserve_next("alice-phone").unwrap(), 2);
}

#[test]
fn reserve_decision_values() {
    assert_eq!(reserve_decision(None), Some((0, 1)));
    assert_eq!(reserve_decision(Some(5)), Some((5, 6)));
    assert_eq!(reserve_decision(Some(u64::MAX)), None);
    assert_eq!(SequenceError::Exhausted, SequenceError::Exhausted);
}

#[test]
fn replay_guard_accepts_only_increasing_numbers() {
    let mut g = ReplayGuard::new();
    assert!(g.check_and_advance("alice", 1).is_ok());
    assert_eq!(g.check_and_advance("alice", 1), Err(ReplayError::ReplayedOrOutOfOrder));
    assert!(g.check_and_advance("alice", 0).is_err());
    assert!(g.check_and_advance("alice", 2).is_ok());
    assert!(g.check_and_advance("bob", 0).is_ok());
    assert_eq!(g.last_sequence("alice"), Some(2));
    assert_eq!(g.last_sequence("bob"), Some(0));
    assert_eq!(g.last_sequence("carol"), None);
    assert_eq!(ReplayError::ReplayedOrOutOfOrder.message(), "replayed or out-of-order sequence number");
}

#[test]
fn replay_accepts_values() {
    assert!(replay_accepts(None, 0));
    assert!(replay_accepts(Some(3), 4));
    assert!(!replay_accepts(Some(3), 3));
    assert!(!replay_accepts(Some(3), 2));
}

/// What the persisted stores keep across a restart is the next number of each device and
/// the last accepted number of each sender; the decisions taken from those stored values
/// continue where the previous run stopped.
#[test]
fn sequence_and_replay_state_survive_a_restart() {
    // "Run 1": reserve two sequence numbers, accept the second one.
    let (first, stored) = reserve_decision(None).unwrap();
    assert_eq!(first, 0);
    let (second, stored) = reserve_decision(Some(stored)).unwrap();
    assert_eq!(second, 1);
    assert!(replay_accepts(None, 1));
    let stored_last = 1u64;

    // "Run 2": only the stored values are left.
    let (third, _) = reserve_decision(Some(stored)).unwrap();
    assert_eq!(third, 2, "counter picks up where it left off instead of resetting to 0");
    assert!(!replay_accepts(Some(stored_last), 1), "replay guard must not forget state across a restart");
    assert!(replay_accepts(Some(stored_last), 2));
}

#[test]
fn kth_reservation_hands_out_k() {
    let mut stored = None;
    for k in 0..50u64 {
        let (n, next) = reserve_decision(stored).unwrap();
        assert_eq!(n, k);
        stored = Some(next);
    }
    assert_eq!(reserve_decision(Some(u64::MAX)), None);
}
