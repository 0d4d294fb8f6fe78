//! The rendezvous server's message shapes, and the client's own decisions on them: the
//! server's base URL, and which posted key or bundle belongs to the peer. The HTTP calls and
//! the polling loop stay with the caller.
use vstd::prelude::*;

use vstd::string::*;

use crate::bytes::copy_bytes;

verus! {

/// Answer to creating a rendezvous room.
#[derive(Clone, Debug)]
pub struct CreateRoomResponse {
    pub rendezvous_id: String,
    pub expires_at: String,
}

/// An ephemeral X25519 public key posted to a room under a role.
#[derive(Clone, Debug)]
pub struct PubkeyPayload {
    pub role: String,
    pub pubkey: Vec<u8>,
}

/// An encrypted identity bundle posted to a room under a role.
#[derive(Clone, Debug)]
pub struct BundlePayload {
    pub role: String,
    pub bundle: Vec<u8>,
}

/// Body of a message posted to a device's inbox.
#[derive(Clone, Debug)]
pub struct InboxPostPayload {
    pub payload: Vec<u8>,
}

/// A message found in this device's inbox.
#[derive(Clone, Debug)]
pub struct InboxMessageItem {
    pub id: i64,
    pub payload: Vec<u8>,
    pub created_at: String,
}

/// `s` without its trailing `/` characters.
pub open spec fn trim_trailing_slashes(s: Seq<char>) -> Seq<char>
    decreases s.len(),
{
    if s.len() > 0 && s.last() == '/' {
        trim_trailing_slashes(s.drop_last())
    } else {
        s
    }
}

/// The server's base URL as requests are built on it: without trailing slashes.
pub fn clean_base_url(base_url: &str) -> (url: String)
    ensures
        url@ == trim_trailing_slashes(base_url@),
{
    let mut n: usize = base_url.unicode_len();
    assert(base_url@.take(n as int) =~= base_url@);
    while n > 0 && base_url.get_char(n - 1) == '/'
        invariant
            n <= base_url@.len(),
            trim_trailing_slashes(base_url@.take(n as int)) == trim_trailing_slashes(base_url@),
        decreases n,
    {
        assert(base_url@.take(n as int).drop_last() =~= base_url@.take(n - 1));
        n = n - 1;
    }
    let head = base_url.substring_char(0, n);
    assert(head@ =~= base_url@.take(n as int));
    head.to_owned()
}

/// `i` is the first position whose role is `role`.
pub open spec fn first_with_role(roles: Seq<Seq<char>>, role: Seq<char>, i: int) -> bool {
    &&& 0 <= i < roles.len()
    &&& roles[i] == role
    &&& forall|j: int| 0 <= j < i ==> roles[j] != role
}

/// The roles of posted keys, in order.
pub open spec fn pubkey_roles(items: Seq<PubkeyPayload>) -> Seq<Seq<char>> {
    items.map_values(|p: PubkeyPayload| p.role@)
}

/// The roles of posted bundles, in order.
pub open spec fn bundle_roles(items: Seq<BundlePayload>) -> Seq<Seq<char>> {
    items.map_values(|b: BundlePayload| b.role@)
}

/// The peer's ephemeral key among the keys posted to a room: the first key posted under
/// `role`, if it is 32 bytes long. `None` while no key was posted under `role`, or when the
/// first one has another length.
pub fn find_peer_pubkey(items: &[PubkeyPayload], role: &str) -> (r: Option<[u8; 32]>)
    ensures
        r is Some <==> exists|i: int|
            first_with_role(pubkey_roles(items@), role@, i) && #[trigger] items@[i].pubkey@.len() == 32,
        r matches Some(k) ==> forall|i: int|
            first_with_role(pubkey_roles(items@), role@, i) ==> #[trigger] items@[i].pubkey@ == k@,
{
    let wanted = String::from_str(role);
    let mut i: usize = 0;
    while i < items.len()
        invariant
            i <= items@.len(),
            wanted@ == role@,
            forall|j: int| 0 <= j < i ==> #[trigger] pubkey_roles(items@)[j] != role@,
        decreases items.len() - i,
    {
        if items[i].role == wanted {
            assert(first_with_role(pubkey_roles(items@), role@, i as int));
            if items[i].pubkey.len() == 32 {
                let mut k: [u8; 32] = [0u8; 32];
                let mut j: usize = 0;
                while j < 32
                    invariant
                        j <= 32,
                        i < items@.len(),
                        items@[i as int].pubkey@.len() == 32,
                        forall|t: int| 0 <= t < j ==> k@[t] == items@[i as int].pubkey@[t],
                    decreases 32 - j,
                {
                    k[j] = items[i].pubkey[j];
                    j = j + 1;
                }
                assert(k@ =~= items@[i as int].pubkey@);
                proof {
                    assert forall|t: int| first_with_role(pubkey_roles(items@), role@, t) implies #[trigger] items@[t].pubkey@ == k@ by {
                        assert(t == i as int);
                    }
                }
                return Some(k);
            }
            proof {
                assert forall|t: int| first_with_role(pubkey_roles(items@), role@, t) implies #[trigger] items@[t].pubkey@.len() != 32 by {
                    assert(t == i as int);
                }
            }
            return None;
        }
        assert(pubkey_roles(items@)[i as int] != role@);
        i = i + 1;
    }
    None
}

/// The peer's encrypted bundle among the bundles posted to a room: the first one posted
/// under `role`, `None` while there is none.
pub fn find_peer_bundle(items: &[BundlePayload], role: &str) -> (r: Option<Vec<u8>>)
    ensures
        r is Some <==> exists|i: int| first_with_role(bundle_roles(items@), role@, i),
        r matches Some(b) ==> forall|i: int|
            #[trigger] first_with_role(bundle_roles(items@), role@, i) ==> items@[i].bundle@ == b@,
{
    let wanted = String::from_str(role);
    let mut i: usize = 0;
    while i < items.len()
        invariant
            i <= items@.len(),
            wanted@ == role@,
            forall|j: int| 0 <= j < i ==> #[trigger] bundle_roles(items@)[j] != role@,
        decreases items.len() - i,
    {
        if items[i].role == wanted {
            assert(first_with_role(bundle_roles(items@), role@, i as int));
            let b = copy_bytes(items[i].bundle.as_slice());
            proof {
                assert forall|t: int| #[trigger] first_with_role(bundle_roles(items@), role@, t) implies items@[t].bundle@ == b@ by {
                    assert(t == i as int);
                }
            }
            return Some(b);
        }
        assert(bundle_roles(items@)[i as int] != role@);
        i = i + 1;
    }
    None
}

/// How many times a pairing step fetches the room before it gives up on the peer.
pub const POLL_ATTEMPTS: u32 = 60;

/// Milliseconds between two fetches of the room.
pub const POLL_INTERVAL_MS: u64 = 1000;

/// What a pairing step does after fetching the room.
#[derive(Clone, Debug, PartialEq, Eq)]
pub enum PollAction<T> {
    /// The peer's item was found.
    Done(T),
    /// Wait `POLL_INTERVAL_MS` and fetch again.
    Retry,
    /// The peer did not show up in time.
    GiveUp,
}

/// The next action after the `attempts_made`-th fetch of the room, which found `found`
/// (`None` also when the fetch failed): done when something was found, otherwise another
/// fetch until `POLL_ATTEMPTS` fetches were made.
pub fn after_poll<T>(attempts_made: u32, found: Option<T>) -> (a: PollAction<T>)
    ensures
        found matches Some(x) ==> a == PollAction::Done(x),
        found is None && attempts_made < POLL_ATTEMPTS ==> a == PollAction::<T>::Retry,
        found is None && attempts_made >= POLL_ATTEMPTS ==> a == PollAction::<T>::GiveUp,
{
    match found {
        Some(x) => PollAction::Done(x),
        None => if attempts_made < POLL_ATTEMPTS {
            PollAction::Retry
        } else {
            PollAction::GiveUp
        },
    }
}

} // verus!
