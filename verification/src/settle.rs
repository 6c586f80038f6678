use vstd::prelude::*;
use crate::error::Error;
use crate::game::{Game, GameState, GameView};
use crate::TIME_LIMIT;

verus! {

/// The house's cut of a pot, in basis points, rounded down.
pub open spec fn rake_of(pot: int, rake_bps: int) -> int {
    pot * rake_bps / 10000
}

/// Splits a finished pot into the winner's payout and the house rake:
/// `rake = floor(pot * rake_bps / 10000)` and `payout = pot - rake`, so the
/// two always add back up to the pot.
pub fn payout_amounts(pot: i128, rake_percentage: u32) -> (r: (i128, i128))
    requires
        0 <= pot,
        rake_percentage <= 10000,
    ensures
        r.0 + r.1 == pot,
        r.1 == rake_of(pot as int, rake_percentage as int),
        0 <= r.1 <= pot,
        r.0 == pot - rake_of(pot as int, rake_percentage as int),
{
    let b = rake_percentage as i128;
    let q = pot / 10000;
    let rem = pot % 10000;
    proof {
        assert(q * b <= q * 10000) by (nonlinear_arith)
            requires 0 <= q, b <= 10000,
        ;
        assert(q * 10000 <= pot && 0 <= q * b && 0 <= rem * b < 100000000) by (nonlinear_arith)
            requires 0 <= pot, q == pot / 10000, rem == pot % 10000, 0 <= b <= 10000, 0 <= q * b,
        ;
    }
    let part = (rem * b) / 10000;
    proof {
        let p = pot as int;
        let bi = b as int;
        let rb = rem * bi;
        vstd::arithmetic::div_mod::lemma_fundamental_div_mod(p, 10000);
        assert(rb / 10000 <= rem) by (nonlinear_arith)
            requires 0 <= rem < 10000, 0 <= bi <= 10000, rb == rem * bi,
        ;
        assert(q * bi + part <= p);
        assert(p * bi == 10000 * (q * bi + rb / 10000) + (rb % 10000)) by (nonlinear_arith)
            requires p == 10000 * q + rem, 0 <= rem < 10000, rb == rem * bi,
        ;
        vstd::arithmetic::div_mod::lemma_fundamental_div_mod_converse(
            p * bi,
            10000,
            q * bi + rb / 10000,
            rb % 10000,
        );
    }
    let rake = q * b + part;
    proof {
        assert(rake == rake_of(pot as int, b as int));
    }
    let payout = pot - rake;
    (payout, rake)
}

/// What resetting a finished two-party game into the next hand does: the
/// dealer button flips, every hand-scoped field is cleared, identities and
/// buy-in are kept, and the new hand starts at shuffle-commit with an empty
/// pot. A finished game without a second participant is left as it is.
pub open spec fn reset_for_next_hand_next(g: GameView, now: u64) -> Result<GameView, Error> {
    if g.state != GameState::Finished {
        Err(Error::InvalidState)
    } else if g.player2 is None {
        Ok(g)
    } else {
        Ok(GameView {
            dealer_position: 1 - g.dealer_position,
            state: GameState::ShuffleCommit,
            pot: 0,
            board: Seq::empty(),
            board_revealed: 0,
            current_bet_p1: 0,
            current_bet_p2: 0,
            total_bet_p1: 0,
            total_bet_p2: 0,
            min_raise: g.big_blind,
            last_raise_amount: g.big_blind,
            actor: 0,
            folded: None,
            seed_commitment1: None,
            seed_commitment2: None,
            seed_reveal1: None,
            seed_reveal2: None,
            final_seed: None,
            hand_commitment1: None,
            hand_commitment2: None,
            hand_rank1: None,
            hand_rank2: None,
            winner: None,
            last_action_at: now as int,
            ..g
        })
    }
}

impl Game {
    /// Resets a finished two-party game in place for the next hand: dealer
    /// alternated, all hand-scoped fields cleared, identities retained.
    pub fn reset_for_next_hand(&mut self, now: u64) -> (r: Result<(), Error>)
        requires
            old(self)@.wf(),
            now <= TIME_LIMIT,
        ensures
            final(self)@.wf(),
            (match reset_for_next_hand_next(old(self)@, now) {
                Ok(g2) => r is Ok && final(self)@ == g2,
                Err(e) => r == Err::<(), Error>(e) && final(self)@ == old(self)@,
            }),
    {
        if self.state != GameState::Finished {
            return Err(Error::InvalidState);
        }
        if self.player2.is_none() {
            return Ok(());
        }
        self.dealer_position = 1 - self.dealer_position;
        self.state = GameState::ShuffleCommit;
        self.pot = 0;
        self.board = Vec::new();
        self.board_revealed = 0;
        self.current_bet_p1 = 0;
        self.current_bet_p2 = 0;
        self.total_bet_p1 = 0;
        self.total_bet_p2 = 0;
        self.min_raise = self.big_blind;
        self.last_raise_amount = self.big_blind;
        self.actor = 0;
        self.folded = None;
        self.seed_commitment1 = None;
        self.seed_commitment2 = None;
        self.seed_reveal1 = None;
        self.seed_reveal2 = None;
        self.final_seed = None;
        self.hand_commitment1 = None;
        self.hand_commitment2 = None;
        self.hand_rank1 = None;
        self.hand_rank2 = None;
        self.winner = None;
        self.last_action_at = now;
        proof {
            assert(self@.board =~= Seq::<u32>::empty());
        }
        Ok(())
    }
}

} // verus!
