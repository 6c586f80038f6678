use vstd::prelude::*;
use crate::{Bytes32, AMOUNT_LIMIT, TIME_LIMIT};

verus! {

/// Blinds, buy-in bounds and seat count of one table. Tables are immutable
/// once created; several may exist independently.
#[derive(Clone, Copy, Debug)]
pub struct Table {
    pub small_blind: i128,
    pub big_blind: i128,
    pub min_buy_in: i128,
    pub max_buy_in: i128,
    pub max_seats: u32,
}

impl Table {
    /// Every table's amounts are ordered and bounded: blinds are
    /// non-negative and at most the big blind, and the buy-in window is
    /// non-empty with a positive lower end.
    pub open spec fn wf(self) -> bool {
        &&& 0 <= self.small_blind <= self.big_blind <= AMOUNT_LIMIT
        &&& 0 < self.min_buy_in <= self.max_buy_in <= AMOUNT_LIMIT
    }
}

/// Process-wide configuration: buy-in bounds, blinds, the rake in basis
/// points, the liveness timeouts, and handles of the collaborating services.
#[derive(Clone, Debug)]
pub struct GameConfig {
    pub min_buy_in: i128,
    pub max_buy_in: i128,
    pub small_blind: i128,
    pub big_blind: i128,
    pub rake_percentage: u32,
    pub reveal_timeout: u64,
    pub bet_timeout: u64,
    /// Seconds after which anyone may close a waiting seat; 0 means never.
    pub waiting_timeout: u64,
    pub treasury: Bytes32,
    pub game_hub: Bytes32,
    /// When set, buy-ins are locked in escrow and the winner is paid out.
    pub payment_controller: Option<Bytes32>,
    /// When set, a showdown reveal must carry an accepted rank attestation.
    pub proof_verifier: Option<Bytes32>,
}

impl GameConfig {
    /// The configuration invariant: a non-empty buy-in window with a
    /// positive lower end, ordered bounded blinds, a rake of at most the
    /// whole pot, and timeouts small enough to add to any timestamp.
    pub open spec fn wf(self) -> bool {
        &&& 0 < self.min_buy_in <= self.max_buy_in <= AMOUNT_LIMIT
        &&& 0 <= self.small_blind <= self.big_blind <= AMOUNT_LIMIT
        &&& self.rake_percentage <= 10000
        &&& self.reveal_timeout <= TIME_LIMIT
        &&& self.bet_timeout <= TIME_LIMIT
        &&& self.waiting_timeout <= TIME_LIMIT
    }

    /// Sets or clears the escrow service handle; everything else is kept.
    pub fn set_payment_controller(&mut self, payment_controller: Option<Bytes32>)
        ensures
            *final(self) == (GameConfig { payment_controller, ..*old(self) }),
            final(self).wf() == old(self).wf(),
    {
        self.payment_controller = payment_controller;
    }
}

} // verus!
