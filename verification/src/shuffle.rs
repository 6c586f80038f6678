use vstd::prelude::*;
use crate::{bytes32_eq, Bytes32, TIME_LIMIT};
use crate::crypto::{final_seed_of, sha256, sha256_of, xor_bytes32};
use crate::error::Error;
use crate::game::{Game, GameState, GameView};
use crate::rng::{board_of_seed, derive_board_cards};
use vstd::array::array_as_slice;

verus! {

/// What revealing a seed does. A seed whose SHA-256 digest differs from the
/// stored commitment is rejected as invalid and changes nothing; once both
/// seeds are in, their digests are XORed into the final seed, the board is
/// derived from it, and the game moves to the dealing phase.
pub open spec fn reveal_seed_next(
    g: GameView,
    player: Seq<u8>,
    seed: Seq<u8>,
    now: u64,
) -> Result<GameView, Error> {
    if g.state != GameState::ShuffleReveal {
        Err(Error::InvalidState)
    } else if !g.is_participant(player) {
        Err(Error::NotPlayer)
    } else if player == g.player1 {
        if g.seed_reveal1 is Some {
            Err(Error::AlreadyRevealed)
        } else if sha256_of(seed) != g.seed_commitment1->0 {
            Err(Error::InvalidSeed)
        } else {
            Ok(reveal_advance(GameView { seed_reveal1: Some(seed), ..g }, now))
        }
    } else {
        if g.seed_reveal2 is Some {
            Err(Error::AlreadyRevealed)
        } else if sha256_of(seed) != g.seed_commitment2->0 {
            Err(Error::InvalidSeed)
        } else {
            Ok(reveal_advance(GameView { seed_reveal2: Some(seed), ..g }, now))
        }
    }
}

/// After a reveal lands: once both seeds are present, derive the final seed
/// and the board and move to dealing.
pub open spec fn reveal_advance(g: GameView, now: u64) -> GameView {
    if g.seed_reveal1 is Some && g.seed_reveal2 is Some {
        let fs = final_seed_of(g.seed_reveal1->0, g.seed_reveal2->0);
        GameView {
            final_seed: Some(fs),
            board: board_of_seed(fs),
            state: GameState::DealCards,
            last_action_at: now as int,
            ..g
        }
    } else {
        GameView { last_action_at: now as int, ..g }
    }
}

impl Game {
    /// Records `player`'s revealed seed after checking it against their
    /// commitment; when both seeds are in, derives the final seed and the
    /// five-card board.
    pub fn reveal_seed(
        &mut self,
        env: &soroban_sdk::Env,
        player: &Bytes32,
        seed: Bytes32,
        now: u64,
    ) -> (r: Result<(), Error>)
        requires
            old(self)@.wf(),
            now <= TIME_LIMIT,
        ensures
            final(self)@.wf(),
            (match reveal_seed_next(old(self)@, player@, seed@, now) {
                Ok(g2) => r is Ok && final(self)@ == g2,
                Err(e) => r == Err::<(), Error>(e) && final(self)@ == old(self)@,
            }),
    {
        if self.state != GameState::ShuffleReveal {
            return Err(Error::InvalidState);
        }
        if !self.is_player(player) {
            return Err(Error::NotPlayer);
        }
        let computed = sha256(env, array_as_slice(&seed));
        if bytes32_eq(player, &self.player1) {
            if self.seed_reveal1.is_some() {
                return Err(Error::AlreadyRevealed);
            }
            let commitment = self.seed_commitment1.unwrap();
            if !bytes32_eq(&computed, &commitment) {
                return Err(Error::InvalidSeed);
            }
            self.seed_reveal1 = Some(seed);
        } else {
            if self.seed_reveal2.is_some() {
                return Err(Error::AlreadyRevealed);
            }
            let commitment = self.seed_commitment2.unwrap();
            if !bytes32_eq(&computed, &commitment) {
                return Err(Error::InvalidSeed);
            }
            self.seed_reveal2 = Some(seed);
        }
        if self.seed_reveal1.is_some() && self.seed_reveal2.is_some() {
            let s1 = self.seed_reveal1.unwrap();
            let s2 = self.seed_reveal2.unwrap();
            let h1 = sha256(env, array_as_slice(&s1));
            let h2 = sha256(env, array_as_slice(&s2));
            let final_seed = xor_bytes32(&h1, &h2);
            self.final_seed = Some(final_seed);
            self.board = derive_board_cards(&final_seed);
            self.state = GameState::DealCards;
        }
        self.last_action_at = now;
        Ok(())
    }
}

} // verus!
