//! The client's protocol: rendezvous pairing (`rendezvous`), the persisted device identity
//! and the encrypted identity-bundle exchange (`bundle`), and signed, replay-protected
//! location updates (`location`).
use vstd::prelude::*;

pub mod rendezvous;
pub mod bundle;
pub mod location;

verus! {

} // verus!
