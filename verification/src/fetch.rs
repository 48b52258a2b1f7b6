//! The fetch task's decisions: which payload to produce and the single send
//! that delivers it. The task's latency — a sleep standing in for a network
//! round trip — is the caller's business; this module holds everything the
//! task decides.

use vstd::prelude::*;
use crate::channel::FetchSender;
use crate::profile::{Profile, ProfileView};

verus! {

/// The payload the stub fetch produces for every identity.
pub open spec fn fetched_profile() -> ProfileView {
    ProfileView { name: "username"@, bio: "dummy bio"@, followers: 100, following: 200 }
}

/// Build the stand-in payload: a canned profile, until a real data source
/// replaces this stub.
pub fn fetch_payload() -> (p: Profile)
    ensures
        p@ == fetched_profile(),
{
    let p = Profile::new("username".to_string(), "dummy bio".to_string(), 100, 200);
    proof {
        assert(p@ =~= fetched_profile());
    }
    p
}

/// The whole fetch task, once its latency has elapsed: build the payload and
/// send it. The sender is consumed, so the task sends exactly this one
/// message and can never send another; whether a receiver was still attached
/// to take it is reported back.
pub fn run_fetch(tx: FetchSender) -> (delivered: bool) {
    tx.send(Some(fetch_payload()))
}

} // verus!
