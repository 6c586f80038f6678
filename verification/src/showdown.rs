use vstd::prelude::*;
use crate::{bytes32_eq, Bytes32, TIME_LIMIT};
use crate::crypto::{sha256, sha256_of};
use crate::error::Error;
use crate::game::{Game, GameState, GameView};

verus! {

/// The 32-byte buffer whose digest a hole-card commitment must match: the
/// two cards' low bytes followed by thirty zero bytes.
pub open spec fn hole_cards_bytes(c0: u32, c1: u32) -> Seq<u8> {
    Seq::new(
        32,
        |i: int|
            if i == 0 {
                (c0 % 256) as u8
            } else if i == 1 {
                (c1 % 256) as u8
            } else {
                0u8
            },
    )
}

/// One board card as four little-endian bytes.
pub open spec fn card_le_bytes(c: u32) -> Seq<u8> {
    seq![
        (c % 256) as u8,
        ((c / 256) % 256) as u8,
        ((c / 65536) % 256) as u8,
        ((c / 16777216) % 256) as u8,
    ]
}

/// The 20-byte encoding of the five board cards that is hashed for the
/// proof service.
pub open spec fn board_bytes(board: Seq<u32>) -> Seq<u8>
    recommends
        board.len() == 5,
{
    card_le_bytes(board[0]) + card_le_bytes(board[1]) + card_le_bytes(board[2]) + card_le_bytes(
        board[3],
    ) + card_le_bytes(board[4])
}

/// Appends one card's four little-endian bytes to the buffer.
fn push_card_le(buf: &mut Vec<u8>, c: u32)
    ensures
        final(buf)@ == old(buf)@ + card_le_bytes(c),
{
    buf.push((c % 256) as u8);
    buf.push(((c / 256) % 256) as u8);
    buf.push(((c / 65536) % 256) as u8);
    buf.push(((c / 16777216) % 256) as u8);
    proof {
        assert(buf@ =~= old(buf)@ + card_le_bytes(c));
    }
}

/// The guards a showdown reveal must pass before anything is recorded:
/// right phase, a participant, exactly two hole cards, a rank between 1 and
/// 10, and hole cards whose digest equals the stored commitment.
pub open spec fn check_hand_reveal_spec(
    g: GameView,
    player: Seq<u8>,
    hole_cards: Seq<u32>,
    claimed_rank: u32,
) -> Result<(), Error> {
    if g.state != GameState::Showdown {
        Err(Error::InvalidState)
    } else if !g.is_participant(player) {
        Err(Error::NotPlayer)
    } else if hole_cards.len() != 2 {
        Err(Error::InvalidCards)
    } else if claimed_rank < 1 || claimed_rank > 10 {
        Err(Error::InvalidRank)
    } else {
        let commitment = if player == g.player1 {
            g.hand_commitment1
        } else {
            g.hand_commitment2
        };
        match commitment {
            None => Err(Error::InvalidCommitment),
            Some(c) => if sha256_of(hole_cards_bytes(hole_cards[0], hole_cards[1])) != c {
                Err(Error::InvalidCommitment)
            } else {
                Ok(())
            },
        }
    }
}

/// What recording an accepted showdown reveal does: a rejected attestation
/// or a repeated reveal fails and changes nothing; otherwise the rank is
/// stored, and once both ranks are in, the higher rank wins and the hand is
/// finished.
pub open spec fn apply_hand_reveal_next(
    g: GameView,
    player: Seq<u8>,
    claimed_rank: u32,
    accepted: bool,
    now: u64,
) -> Result<GameView, Error> {
    if g.state != GameState::Showdown {
        Err(Error::InvalidState)
    } else if !g.is_participant(player) {
        Err(Error::NotPlayer)
    } else if claimed_rank < 1 || claimed_rank > 10 {
        Err(Error::InvalidRank)
    } else if !accepted {
        Err(Error::InvalidProof)
    } else if player == g.player1 {
        if g.hand_rank1 is Some {
            Err(Error::AlreadyRevealed)
        } else {
            Ok(rank_advance(GameView { hand_rank1: Some(claimed_rank), ..g }, now))
        }
    } else {
        if g.hand_rank2 is Some {
            Err(Error::AlreadyRevealed)
        } else {
            Ok(rank_advance(GameView { hand_rank2: Some(claimed_rank), ..g }, now))
        }
    }
}

/// Once both ranks are recorded the higher one wins and the hand is
/// finished; equal ranks go to the first participant — a fixed, documented
/// tie-break, since a rank category alone cannot fully order poker hands.
pub open spec fn rank_advance(g: GameView, now: u64) -> GameView {
    if g.hand_rank1 is Some && g.hand_rank2 is Some {
        let r1 = g.hand_rank1->0;
        let r2 = g.hand_rank2->0;
        GameView {
            winner: Some(
                if r1 > r2 {
                    g.player1
                } else if r2 > r1 {
                    g.player2->0
                } else {
                    g.player1
                },
            ),
            state: GameState::Finished,
            ..g
        }
    } else {
        GameView { last_action_at: now as int, ..g }
    }
}

impl Game {
    /// Computes the digest of the board encoding, for the proof service.
    pub fn board_hash(&self, env: &soroban_sdk::Env) -> (r: Bytes32)
        requires
            self@.board.len() == 5,
        ensures
            r@ == sha256_of(board_bytes(self@.board)),
    {
        let mut buf: Vec<u8> = Vec::new();
        push_card_le(&mut buf, self.board[0]);
        push_card_le(&mut buf, self.board[1]);
        push_card_le(&mut buf, self.board[2]);
        push_card_le(&mut buf, self.board[3]);
        push_card_le(&mut buf, self.board[4]);
        proof {
            assert(buf@ =~= board_bytes(self@.board));
        }
        sha256(env, buf.as_slice())
    }

    /// Validates a showdown reveal without recording anything, and returns
    /// the board digest that the rank attestation must be checked against.
    pub fn check_hand_reveal(
        &self,
        env: &soroban_sdk::Env,
        player: &Bytes32,
        hole_cards: &Vec<u32>,
        claimed_rank: u32,
    ) -> (r: Result<Bytes32, Error>)
        requires
            self@.wf(),
        ensures
            (match check_hand_reveal_spec(self@, player@, hole_cards@, claimed_rank) {
                Ok(u) => r is Ok && r->Ok_0@ == sha256_of(board_bytes(self@.board)),
                Err(e) => r == Err::<Bytes32, Error>(e),
            }),
    {
        if self.state != GameState::Showdown {
            return Err(Error::InvalidState);
        }
        if !self.is_player(player) {
            return Err(Error::NotPlayer);
        }
        if hole_cards.len() != 2 {
            return Err(Error::InvalidCards);
        }
        if claimed_rank < 1 || claimed_rank > 10 {
            return Err(Error::InvalidRank);
        }
        let mut cards_arr: Bytes32 = [0u8; 32];
        cards_arr[0] = (hole_cards[0] % 256) as u8;
        cards_arr[1] = (hole_cards[1] % 256) as u8;
        proof {
            assert(cards_arr@ =~= hole_cards_bytes(hole_cards@[0], hole_cards@[1]));
        }
        let computed = sha256(env, vstd::array::array_as_slice(&cards_arr));
        let commitment = if bytes32_eq(player, &self.player1) {
            self.hand_commitment1
        } else {
            self.hand_commitment2
        };
        let commitment = match commitment {
            Some(c) => c,
            None => {
                return Err(Error::InvalidCommitment);
            },
        };
        if !bytes32_eq(&computed, &commitment) {
            return Err(Error::InvalidCommitment);
        }
        Ok(self.board_hash(env))
    }

    /// Records `player`'s showdown rank once its attestation was accepted;
    /// when both ranks are in, decides the winner and finishes the hand.
    pub fn apply_hand_reveal(
        &mut self,
        player: &Bytes32,
        claimed_rank: u32,
        accepted: bool,
        now: u64,
    ) -> (r: Result<(), Error>)
        requires
            old(self)@.wf(),
            now <= TIME_LIMIT,
        ensures
            final(self)@.wf(),
            (match apply_hand_reveal_next(old(self)@, player@, claimed_rank, accepted, now) {
                Ok(g2) => r is Ok && final(self)@ == g2,
                Err(e) => r == Err::<(), Error>(e) && final(self)@ == old(self)@,
            }),
    {
        if self.state != GameState::Showdown {
            return Err(Error::InvalidState);
        }
        if !self.is_player(player) {
            return Err(Error::NotPlayer);
        }
        if claimed_rank < 1 || claimed_rank > 10 {
            return Err(Error::InvalidRank);
        }
        if !accepted {
            return Err(Error::InvalidProof);
        }
        if bytes32_eq(player, &self.player1) {
            if self.hand_rank1.is_some() {
                return Err(Error::AlreadyRevealed);
            }
            self.hand_rank1 = Some(claimed_rank);
        } else {
            if self.hand_rank2.is_some() {
                return Err(Error::AlreadyRevealed);
            }
            self.hand_rank2 = Some(claimed_rank);
        }
        if self.hand_rank1.is_some() && self.hand_rank2.is_some() {
            let r1 = self.hand_rank1.unwrap();
            let r2 = self.hand_rank2.unwrap();
            let winner = if r1 > r2 {
                self.player1
            } else if r2 > r1 {
                self.player2.unwrap()
            } else {
                self.player1
            };
            self.winner = Some(winner);
            self.state = GameState::Finished;
        } else {
            self.last_action_at = now;
        }
        Ok(())
    }
}

} // verus!
