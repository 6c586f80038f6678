//! A heads-up Texas Hold'em game engine: a deterministic state machine over
//! discrete player actions, with a commit-reveal shuffle for fairness, exact
//! pot accounting, commit-and-attest hand resolution, and a liveness policy
//! that resolves an unresponsive counterparty in bounded time. Every
//! transition is a pure function of the current game and one action, stated
//! in full by the spec functions next to each handler; the host environment
//! around it — storage, authentication, payments, notifications — stays
//! outside this crate.

pub mod betting;
pub mod config;
pub mod crypto;
pub mod error;
pub mod game;
pub mod laws;
pub mod lobby;
pub mod payment;
pub mod proof_service;
pub mod rng;
pub mod settle;
pub mod showdown;
pub mod shuffle;
pub mod timeout;

use vstd::prelude::*;

verus! {

/// Fixed-size byte strings stand in for participant identities, seed
/// commitments, revealed seeds and digests.
pub type Bytes32 = [u8; 32];

/// The largest single amount (blind, buy-in, bet or raise) the library
/// accepts: a machine limit that keeps every pot computation inside `i128`.
pub const AMOUNT_LIMIT: i128 = 21267647932558653966460912964485513215;

/// The largest pot a transition accepts, for the same reason.
pub const POT_LIMIT: i128 = 42535295865117307932921825928971026431;

/// The largest timestamp the library accepts, so that adding a timeout to a
/// timestamp stays inside `u64`.
pub const TIME_LIMIT: u64 = 9223372036854775807;

/// Compares two 32-byte strings for equality.
pub fn bytes32_eq(a: &Bytes32, b: &Bytes32) -> (r: bool)
    ensures
        r <==> a@ == b@,
{
    let mut i: usize = 0;
    while i < 32
        invariant
            i <= 32,
            forall|k: int| 0 <= k < i ==> a@[k] == b@[k],
        decreases 32 - i,
    {
        if a[i] != b[i] {
            return false;
        }
        i += 1;
    }
    proof {
        assert(a@ =~= b@);
    }
    true
}

} // verus!
