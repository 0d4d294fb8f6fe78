//! Per-device sequence counters (sender side) and the per-sender replay guard (receiver
//! side). The decisions are the functions `reserve_decision` and `replay_accepts`; the
//! in-memory `SequenceStore` and `ReplayGuard` keep one number per device or sender and
//! apply them. A durable store keeps the same numbers and applies the same decisions.
use vstd::prelude::*;

use vstd::string::*;

verus! {

/// The map that a table of `(key, value)` entries stands for; a later entry for a key
/// overrides an earlier one.
pub open spec fn table_map(s: Seq<(String, u64)>) -> Map<Seq<char>, u64>
    decreases s.len(),
{
    if s.len() == 0 {
        Map::empty()
    } else {
        table_map(s.drop_last()).insert(s.last().0@, s.last().1)
    }
}

/// No key occurs twice.
pub open spec fn keys_distinct(s: Seq<(String, u64)>) -> bool {
    forall|i: int, j: int| 0 <= i < j < s.len() ==> s[i].0@ != s[j].0@
}

proof fn lemma_table_map_dom(s: Seq<(String, u64)>, k: Seq<char>)
    ensures
        table_map(s).dom().contains(k) <==> exists|i: int| 0 <= i < s.len() && s[i].0@ == k,
    decreases s.len(),
{
    if s.len() > 0 {
        lemma_table_map_dom(s.drop_last(), k);
        if table_map(s).dom().contains(k) && s.last().0@ != k {
            let i = choose|i: int| 0 <= i < s.drop_last().len() && s.drop_last()[i].0@ == k;
            assert(s[i].0@ == k);
        }
        if exists|i: int| 0 <= i < s.len() && s[i].0@ == k {
            let i = choose|i: int| 0 <= i < s.len() && s[i].0@ == k;
            if i < s.len() - 1 {
                assert(s.drop_last()[i].0@ == k);
            }
        }
    }
}

proof fn lemma_table_map_index(s: Seq<(String, u64)>, i: int)
    requires
        keys_distinct(s),
        0 <= i < s.len(),
    ensures
        table_map(s).dom().contains(s[i].0@),
        table_map(s)[s[i].0@] == s[i].1,
    decreases s.len(),
{
    if i < s.len() - 1 {
        lemma_table_map_index(s.drop_last(), i);
        assert(s.drop_last()[i] == s[i]);
    }
}

proof fn lemma_table_map_update(s: Seq<(String, u64)>, i: int, e: (String, u64))
    requires
        keys_distinct(s),
        0 <= i < s.len(),
        e.0@ == s[i].0@,
    ensures
        table_map(s.update(i, e)) == table_map(s).insert(e.0@, e.1),
        keys_distinct(s.update(i, e)),
    decreases s.len(),
{
    let t = s.update(i, e);
    if i == s.len() - 1 {
        assert(t.drop_last() =~= s.drop_last());
        assert(table_map(t) =~= table_map(s).insert(e.0@, e.1));
    } else {
        lemma_table_map_update(s.drop_last(), i, e);
        assert(t.drop_last() =~= s.drop_last().update(i, e));
        assert(s.last().0@ != s[i].0@);
        assert(table_map(t) =~= table_map(s).insert(e.0@, e.1));
    }
}

/// A table from device or sender ids to counters.
pub struct CounterTable {
    entries: Vec<(String, u64)>,
}

impl View for CounterTable {
    type V = Map<Seq<char>, u64>;

    closed spec fn view(&self) -> Map<Seq<char>, u64> {
        table_map(self.entries@)
    }
}

impl CounterTable {
    #[verifier::type_invariant]
    spec fn distinct(self) -> bool {
        keys_distinct(self.entries@)
    }

    /// An empty table.
    pub fn new() -> (t: CounterTable)
        ensures
            t@ == Map::<Seq<char>, u64>::empty(),
    {
        CounterTable { entries: Vec::new() }
    }

    fn position(&self, key: &String) -> (pos: Option<usize>)
        ensures
            pos matches Some(i) ==> i < self.entries@.len() && self.entries@[i as int].0@ == key@,
            pos is None ==> forall|j: int| 0 <= j < self.entries@.len() ==> self.entries@[j].0@ != key@,
    {
        let mut i: usize = 0;
        while i < self.entries.len()
            invariant
                i <= self.entries@.len(),
                forall|j: int| 0 <= j < i ==> self.entries@[j].0@ != key@,
            decreases self.entries@.len() - i,
        {
            if self.entries[i].0 == *key {
                return Some(i);
            }
            i = i + 1;
        }
        None
    }

    /// The counter stored for `key`, if any.
    pub fn get(&self, key: &str) -> (v: Option<u64>)
        ensures
            v is Some <==> self@.dom().contains(key@),
            v matches Some(x) ==> x == self@[key@],
    {
        proof {
            use_type_invariant(self);
        }
        let k = String::from_str(key);
        proof {
            lemma_table_map_dom(self.entries@, key@);
        }
        match self.position(&k) {
            Some(i) => {
                proof {
                    lemma_table_map_index(self.entries@, i as int);
                }
                Some(self.entries[i].1)
            },
            None => None,
        }
    }

    /// Stores `value` for `key`.
    pub fn set(&mut self, key: &str, value: u64)
        ensures
            final(self)@ == old(self)@.insert(key@, value),
    {
        proof {
            use_type_invariant(&*self);
        }
        let k = String::from_str(key);
        match self.position(&k) {
            Some(i) => {
                let ghost old_entries = self.entries@;
                let mut entries: Vec<(String, u64)> = Vec::new();
                std::mem::swap(&mut entries, &mut self.entries);
                let ghost e = (k, value);
                proof {
                    lemma_table_map_update(old_entries, i as int, e);
                }
                entries.set(i, (k, value));
                assert(entries@ =~= old_entries.update(i as int, e));
                self.entries = entries;
            },
            None => {
                let ghost old_entries = self.entries@;
                let mut entries: Vec<(String, u64)> = Vec::new();
                std::mem::swap(&mut entries, &mut self.entries);
                entries.push((k, value));
                assert(entries@.drop_last() =~= old_entries);
                self.entries = entries;
            },
        }
    }
}

// ---------------------------------------------------------------------------------------
// Decisions
// ---------------------------------------------------------------------------------------

/// Whether a message with `sequence` from a sender whose last accepted number is `last`
/// (`None` for a sender never seen) is fresh: new senders are accepted with any number,
/// known senders only with a strictly greater one.
pub open spec fn spec_replay_accepts(last: Option<u64>, sequence: u64) -> bool {
    match last {
        None => true,
        Some(l) => sequence > l,
    }
}

/// Whether a message with `sequence` is fresh given the sender's last accepted number.
pub fn replay_accepts(last: Option<u64>, sequence: u64) -> (ok: bool)
    ensures
        ok == spec_replay_accepts(last, sequence),
        last is None ==> ok,
        forall|l: u64| last == Some(l) ==> (ok <==> sequence > l),
{
    match last {
        None => true,
        Some(l) => sequence > l,
    }
}

/// Reserving a sequence number when the stored next number is `stored_next` (`None` for a
/// device never seen, which starts at 0): the reserved number and the next one to store,
/// or `None` when the counter is exhausted.
pub open spec fn spec_reserve(stored_next: Option<u64>) -> Option<(u64, u64)> {
    let n: u64 = match stored_next {
        None => 0,
        Some(x) => x,
    };
    if n == u64::MAX {
        None
    } else {
        Some((n, (n + 1) as u64))
    }
}

/// The reserved number and the next one to store, given the stored next number.
pub fn reserve_decision(stored_next: Option<u64>) -> (r: Option<(u64, u64)>)
    ensures
        r == spec_reserve(stored_next),
{
    let n: u64 = match stored_next {
        None => 0,
        Some(x) => x,
    };
    if n == u64::MAX {
        None
    } else {
        Some((n, n + 1))
    }
}

/// Why a sequence number could not be reserved.
#[derive(Clone, Copy, Debug, PartialEq, Eq, Structural)]
pub enum SequenceError {
    /// The device's counter reached its largest value.
    Exhausted,
}

/// Why a message was refused by the replay guard.
#[derive(Clone, Copy, Debug, PartialEq, Eq, Structural)]
pub enum ReplayError {
    /// The sequence number is not greater than the last one accepted from this sender.
    ReplayedOrOutOfOrder,
}

impl ReplayError {
    /// The human-readable description, as text.
    pub open spec fn description(self) -> Seq<char> {
        "replayed or out-of-order sequence number"@
    }

    /// Human-readable description.
    pub fn message(&self) -> (m: &'static str)
        ensures
            m@ == self.description(),
    {
        "replayed or out-of-order sequence number"
    }
}

// ---------------------------------------------------------------------------------------
// In-memory stores
// ---------------------------------------------------------------------------------------

/// Per-device sequence counters of a sender.
pub struct SequenceStore {
    next: CounterTable,
}

impl SequenceStore {
    /// The next number to hand out, per device id.
    pub closed spec fn next_map(&self) -> Map<Seq<char>, u64> {
        self.next@
    }

    /// A store where every device starts at 0.
    pub fn new() -> (s: SequenceStore)
        ensures
            s.next_map() == Map::<Seq<char>, u64>::empty(),
    {
        SequenceStore { next: CounterTable::new() }
    }

    /// Reserves the next sequence number for `device_id` and returns it: 0 for a device
    /// never seen, then 1, 2, ...
    pub fn reserve_next(&mut self, device_id: &str) -> (r: Result<u64, SequenceError>)
        ensures
            ({
                let stored = if old(self).next_map().dom().contains(device_id@) {
                    Some(old(self).next_map()[device_id@])
                } else {
                    None
                };
                match spec_reserve(stored) {
                    None => r == Err::<u64, SequenceError>(SequenceError::Exhausted)
                        && final(self).next_map() == old(self).next_map(),
                    Some((n, next)) => r == Ok::<u64, SequenceError>(n)
                        && final(self).next_map() == old(self).next_map().insert(device_id@, next),
                }
            }),
    {
        let stored = self.next.get(device_id);
        match reserve_decision(stored) {
            None => Err(SequenceError::Exhausted),
            Some((n, next)) => {
                self.next.set(device_id, next);
                Ok(n)
            },
        }
    }
}

/// The receiver's per-sender replay guard.
pub struct ReplayGuard {
    last: CounterTable,
}

impl ReplayGuard {
    /// The last accepted sequence number, per sender id.
    pub closed spec fn last_map(&self) -> Map<Seq<char>, u64> {
        self.last@
    }

    /// The last accepted number of `sender`, `None` if none was accepted.
    pub open spec fn last_of(&self, sender: Seq<char>) -> Option<u64> {
        if self.last_map().dom().contains(sender) {
            Some(self.last_map()[sender])
        } else {
            None
        }
    }

    /// A guard that has accepted nothing.
    pub fn new() -> (g: ReplayGuard)
        ensures
            g.last_map() == Map::<Seq<char>, u64>::empty(),
    {
        ReplayGuard { last: CounterTable::new() }
    }

    /// The last number accepted from `sender_id`.
    pub fn last_sequence(&self, sender_id: &str) -> (r: Option<u64>)
        ensures
            r == self.last_of(sender_id@),
    {
        self.last.get(sender_id)
    }

    /// Accepts `sequence` from `sender_id` if it is fresh, recording it; otherwise refuses
    /// it and changes nothing.
    pub fn check_and_advance(&mut self, sender_id: &str, sequence: u64) -> (r: Result<(), ReplayError>)
        ensures
            r is Ok <==> spec_replay_accepts(old(self).last_of(sender_id@), sequence),
            r is Ok ==> final(self).last_map() == old(self).last_map().insert(sender_id@, sequence),
            r is Err ==> final(self).last_map() == old(self).last_map()
                && r == Err::<(), ReplayError>(ReplayError::ReplayedOrOutOfOrder),
    {
        let last = self.last.get(sender_id);
        if replay_accepts(last, sequence) {
            self.last.set(sender_id, sequence);
            Ok(())
        } else {
            Err(ReplayError::ReplayedOrOutOfOrder)
        }
    }
}

/// The replay decision is exactly "strictly greater": a sender never seen is accepted with
/// any number, and a known sender with every number above its last accepted one (gaps
/// are normal: one sending device numbers its updates to all its contacts from one
/// counter, and a lost update leaves a gap) and with no other.
pub proof fn lemma_replay_accepts_greater(last: Option<u64>, sequence: u64)
    ensures
        last is None ==> spec_replay_accepts(last, sequence),
        forall|l: u64| last == Some(l) ==> (spec_replay_accepts(last, sequence) <==> sequence > l),
{
}

/// Once a sequence number has been accepted from a sender, that number and every smaller
/// one are refused from that sender.
pub proof fn lemma_accepted_is_not_replayable(
    before: Map<Seq<char>, u64>,
    sender: Seq<char>,
    accepted: u64,
    replayed: u64,
)
    requires
        replayed <= accepted,
    ensures
        !spec_replay_accepts(Some(before.insert(sender, accepted)[sender]), replayed),
{
}

/// The stored next number of one device after `k` reservations on a store that has not
/// seen it (each `reserve_next` on that device applies `spec_reserve` to its entry and
/// leaves the other devices' entries alone).
pub open spec fn stored_after_reservations(k: nat) -> Option<u64>
    decreases k,
{
    if k == 0 {
        None
    } else {
        let prev = stored_after_reservations((k - 1) as nat);
        match spec_reserve(prev) {
            Some((_, next)) => Some(next),
            None => prev,
        }
    }
}

/// Reservations for one device hand out 0, 1, 2, ...: after `k` earlier reservations the
/// next one hands out `k`, so no number is handed out twice while the counter lasts.
pub proof fn lemma_kth_reservation(k: nat)
    requires
        k < u64::MAX,
    ensures
        stored_after_reservations(k) == (if k == 0 {
            None::<u64>
        } else {
            Some(k as u64)
        }),
        spec_reserve(stored_after_reservations(k)) == Some((k as u64, (k + 1) as u64)),
    decreases k,
{
    if k > 0 {
        lemma_kth_reservation((k - 1) as nat);
    }
}

/// Successive reservations for one device hand out consecutive, strictly increasing numbers.
pub proof fn lemma_reservations_increase(stored_next: Option<u64>)
    requires
        spec_reserve(stored_next) is Some,
        spec_reserve(Some(spec_reserve(stored_next).unwrap().1)) is Some,
    ensures
        spec_reserve(Some(spec_reserve(stored_next).unwrap().1)).unwrap().0
            == spec_reserve(stored_next).unwrap().0 + 1,
{
}

} // verus!
