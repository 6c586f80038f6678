use vstd::prelude::*;
use crate::{bytes32_eq, Bytes32, AMOUNT_LIMIT, POT_LIMIT, TIME_LIMIT};
use crate::config::GameConfig;
use crate::error::Error;
use crate::game::{opt_bytes_view, Action, Game, GameState, GameView};

verus! {

/// What posting the blinds does: both blinds enter the pot and become the
/// players' round bets according to the dealer button, the minimum raise is
/// the big blind, and the first betting round starts with the non-dealer to
/// act.
pub open spec fn post_blinds_next(g: GameView, cfg: GameConfig, now: u64) -> Result<
    GameView,
    Error,
> {
    if g.state != GameState::DealCards {
        Err(Error::InvalidState)
    } else {
        let sb = cfg.small_blind as int;
        let bb = cfg.big_blind as int;
        if g.dealer_position == 0 {
            Ok(GameView {
                pot: g.pot + sb + bb,
                current_bet_p1: sb,
                current_bet_p2: bb,
                total_bet_p1: sb,
                total_bet_p2: bb,
                actor: 1,
                min_raise: bb,
                last_raise_amount: bb,
                state: GameState::PreFlop,
                last_action_at: now as int,
                ..g
            })
        } else {
            Ok(GameView {
                pot: g.pot + sb + bb,
                current_bet_p1: bb,
                current_bet_p2: sb,
                total_bet_p1: bb,
                total_bet_p2: sb,
                actor: 0,
                min_raise: bb,
                last_raise_amount: bb,
                state: GameState::PreFlop,
                last_action_at: now as int,
                ..g
            })
        }
    }
}

/// What ending a betting round reveals and who then acts first: three board
/// cards after the pre-flop, then a fourth, then a fifth; the dealer acts
/// first in each later round, and the showdown begins after the river.
pub open spec fn advance_round(g: GameView) -> GameView {
    match g.state {
        GameState::PreFlop => GameView {
            board_revealed: 3,
            actor: g.dealer_position,
            state: GameState::FlopBetting,
            ..g
        },
        GameState::FlopBetting => GameView {
            board_revealed: 4,
            actor: g.dealer_position,
            state: GameState::TurnBetting,
            ..g
        },
        GameState::TurnBetting => GameView {
            board_revealed: 5,
            actor: g.dealer_position,
            state: GameState::RiverBetting,
            ..g
        },
        GameState::RiverBetting => GameView { actor: 0, state: GameState::Showdown, ..g },
        _ => g,
    }
}

/// After any non-fold action: the turn flips, and the round ends exactly
/// when both round bets have become equal — then both reset to zero, the
/// minimum raise resets to the big blind, and the next phase begins.
pub open spec fn after_action(g: GameView, now: u64) -> GameView {
    let g1 = GameView { actor: 1 - g.actor, last_action_at: now as int, ..g };
    if g1.current_bet_p1 == g1.current_bet_p2 {
        advance_round(
            GameView {
                current_bet_p1: 0,
                current_bet_p2: 0,
                min_raise: g1.big_blind,
                last_raise_amount: g1.big_blind,
                ..g1
            },
        )
    } else {
        g1
    }
}

/// A hole-card commitment handed along with a call or raise is stored the
/// first time it is supplied for a participant; later ones change nothing.
pub open spec fn with_hand_commitment(
    g: GameView,
    is_p1: bool,
    commitment: Option<Seq<u8>>,
) -> GameView {
    match commitment {
        None => g,
        Some(c) => if is_p1 {
            if g.hand_commitment1 is Some {
                g
            } else {
                GameView { hand_commitment1: Some(c), ..g }
            }
        } else {
            if g.hand_commitment2 is Some {
                g
            } else {
                GameView { hand_commitment2: Some(c), ..g }
            }
        },
    }
}

/// What one betting action does, for every input. Actions outside a betting
/// round, after a fold, or out of turn fail and change nothing; a check owes
/// nothing, a call pays exactly what is owed, a raise must reach the
/// opponent's bet plus the minimum raise, and a fold ends the hand in the
/// opponent's favour.
pub open spec fn act_next(
    g: GameView,
    player: Seq<u8>,
    action: Action,
    raise_amount: int,
    commitment: Option<Seq<u8>>,
    now: u64,
) -> Result<GameView, Error> {
    if !g.in_betting_state() {
        Err(Error::InvalidState)
    } else if g.folded is Some {
        Err(Error::GameAlreadyDecided)
    } else if player != g.current_actor_id() {
        Err(Error::NotYourTurn)
    } else {
        let is_p1 = player == g.player1;
        let cur_self = if is_p1 {
            g.current_bet_p1
        } else {
            g.current_bet_p2
        };
        let cur_other = if is_p1 {
            g.current_bet_p2
        } else {
            g.current_bet_p1
        };
        let to_call = cur_other - cur_self;
        match action {
            Action::Fold => Ok(GameView {
                folded: Some(player),
                winner: Some(g.opponent_of(player)),
                state: GameState::Finished,
                ..g
            }),
            Action::Check => if to_call != 0 {
                Err(Error::MustCallOrRaise)
            } else {
                Ok(after_action(g, now))
            },
            Action::Call => if to_call <= 0 {
                Err(Error::InvalidAmount)
            } else {
                let g1 = with_hand_commitment(g, is_p1, commitment);
                let g2 = if is_p1 {
                    GameView {
                        pot: g1.pot + to_call,
                        current_bet_p1: g1.current_bet_p1 + to_call,
                        total_bet_p1: g1.total_bet_p1 + to_call,
                        ..g1
                    }
                } else {
                    GameView {
                        pot: g1.pot + to_call,
                        current_bet_p2: g1.current_bet_p2 + to_call,
                        total_bet_p2: g1.total_bet_p2 + to_call,
                        ..g1
                    }
                };
                Ok(after_action(g2, now))
            },
            Action::Raise => if raise_amount < cur_other + g.min_raise {
                Err(Error::RaiseTooSmall)
            } else if raise_amount - cur_self <= 0 {
                Err(Error::InvalidAmount)
            } else if commitment is None {
                Err(Error::InvalidCommitment)
            } else {
                let add = raise_amount - cur_self;
                let g1 = with_hand_commitment(g, is_p1, commitment);
                let g2 = if is_p1 {
                    GameView {
                        pot: g1.pot + add,
                        current_bet_p1: raise_amount,
                        total_bet_p1: g1.total_bet_p1 + add,
                        min_raise: raise_amount - cur_other,
                        last_raise_amount: raise_amount - cur_other,
                        ..g1
                    }
                } else {
                    GameView {
                        pot: g1.pot + add,
                        current_bet_p2: raise_amount,
                        total_bet_p2: g1.total_bet_p2 + add,
                        min_raise: raise_amount - cur_other,
                        last_raise_amount: raise_amount - cur_other,
                        ..g1
                    }
                };
                Ok(after_action(g2, now))
            },
        }
    }
}

impl Game {
    /// Ends the current betting round: reveals the next board cards and
    /// hands the first turn of the new round to the dealer.
    pub(crate) fn advance_betting_round(&mut self)
        ensures
            final(self)@ == advance_round(old(self)@),
    {
        match self.state {
            GameState::PreFlop => {
                self.board_revealed = 3;
                self.actor = self.dealer_position;
                self.state = GameState::FlopBetting;
            },
            GameState::FlopBetting => {
                self.board_revealed = 4;
                self.actor = self.dealer_position;
                self.state = GameState::TurnBetting;
            },
            GameState::TurnBetting => {
                self.board_revealed = 5;
                self.actor = self.dealer_position;
                self.state = GameState::RiverBetting;
            },
            GameState::RiverBetting => {
                self.actor = 0;
                self.state = GameState::Showdown;
            },
            _ => {},
        }
    }

    /// Posts the blinds from the configuration: the dealer owes the small
    /// blind, the other participant the big blind, and the non-dealer acts
    /// first in the pre-flop round.
    pub fn post_blinds(&mut self, cfg: &GameConfig, now: u64) -> (r: Result<(), Error>)
        requires
            old(self)@.wf(),
            cfg.wf(),
            old(self)@.pot <= POT_LIMIT,
            now <= TIME_LIMIT,
        ensures
            final(self)@.wf(),
            (match post_blinds_next(old(self)@, *cfg, now) {
                Ok(g2) => r is Ok && final(self)@ == g2,
                Err(e) => r == Err::<(), Error>(e) && final(self)@ == old(self)@,
            }),
    {
        if self.state != GameState::DealCards {
            return Err(Error::InvalidState);
        }
        self.pot = self.pot + cfg.small_blind + cfg.big_blind;
        if self.dealer_position == 0 {
            self.current_bet_p1 = cfg.small_blind;
            self.current_bet_p2 = cfg.big_blind;
            self.total_bet_p1 = cfg.small_blind;
            self.total_bet_p2 = cfg.big_blind;
            self.actor = 1;
        } else {
            self.current_bet_p1 = cfg.big_blind;
            self.current_bet_p2 = cfg.small_blind;
            self.total_bet_p1 = cfg.big_blind;
            self.total_bet_p2 = cfg.small_blind;
            self.actor = 0;
        }
        self.min_raise = cfg.big_blind;
        self.last_raise_amount = cfg.big_blind;
        self.state = GameState::PreFlop;
        self.last_action_at = now;
        Ok(())
    }

    /// Applies one betting action by `player`: fold, check, call or raise,
    /// with an optional hole-card commitment on call and a required one on
    /// raise. All-or-nothing: every failure leaves the game unchanged.
    pub fn act(
        &mut self,
        player: &Bytes32,
        action: Action,
        raise_amount: i128,
        commitment: Option<Bytes32>,
        now: u64,
    ) -> (r: Result<(), Error>)
        requires
            old(self)@.wf(),
            old(self)@.pot <= POT_LIMIT,
            raise_amount <= AMOUNT_LIMIT,
            now <= TIME_LIMIT,
        ensures
            final(self)@.wf(),
            (match act_next(
                old(self)@,
                player@,
                action,
                raise_amount as int,
                opt_bytes_view(commitment),
                now,
            ) {
                Ok(g2) => r is Ok && final(self)@ == g2,
                Err(e) => r == Err::<(), Error>(e) && final(self)@ == old(self)@,
            }),
    {
        if !(self.state == GameState::PreFlop || self.state == GameState::FlopBetting
            || self.state == GameState::TurnBetting || self.state == GameState::RiverBetting) {
            return Err(Error::InvalidState);
        }
        if self.folded.is_some() {
            return Err(Error::GameAlreadyDecided);
        }
        if !self.is_current_actor(player) {
            return Err(Error::NotYourTurn);
        }
        let is_p1 = bytes32_eq(player, &self.player1);
        let cur_self = if is_p1 {
            self.current_bet_p1
        } else {
            self.current_bet_p2
        };
        let cur_other = if is_p1 {
            self.current_bet_p2
        } else {
            self.current_bet_p1
        };
        let to_call = cur_other - cur_self;
        match action {
            Action::Fold => {
                self.folded = Some(*player);
                let winner = if is_p1 {
                    self.player2.unwrap()
                } else {
                    self.player1
                };
                self.winner = Some(winner);
                self.state = GameState::Finished;
                return Ok(());
            },
            Action::Check => {
                if to_call != 0 {
                    return Err(Error::MustCallOrRaise);
                }
            },
            Action::Call => {
                if to_call <= 0 {
                    return Err(Error::InvalidAmount);
                }
                if let Some(c) = commitment {
                    if is_p1 {
                        if self.hand_commitment1.is_none() {
                            self.hand_commitment1 = Some(c);
                        }
                    } else {
                        if self.hand_commitment2.is_none() {
                            self.hand_commitment2 = Some(c);
                        }
                    }
                }
                self.pot = self.pot + to_call;
                if is_p1 {
                    self.current_bet_p1 = self.current_bet_p1 + to_call;
                    self.total_bet_p1 = self.total_bet_p1 + to_call;
                } else {
                    self.current_bet_p2 = self.current_bet_p2 + to_call;
                    self.total_bet_p2 = self.total_bet_p2 + to_call;
                }
            },
            Action::Raise => {
                if raise_amount < cur_other + self.min_raise {
                    return Err(Error::RaiseTooSmall);
                }
                let add = raise_amount - cur_self;
                if add <= 0 {
                    return Err(Error::InvalidAmount);
                }
                let c = match commitment {
                    Some(c) => c,
                    None => {
                        return Err(Error::InvalidCommitment);
                    },
                };
                if is_p1 {
                    if self.hand_commitment1.is_none() {
                        self.hand_commitment1 = Some(c);
                    }
                } else {
                    if self.hand_commitment2.is_none() {
                        self.hand_commitment2 = Some(c);
                    }
                }
                self.pot = self.pot + add;
                if is_p1 {
                    self.current_bet_p1 = raise_amount;
                    self.total_bet_p1 = self.total_bet_p1 + add;
                } else {
                    self.current_bet_p2 = raise_amount;
                    self.total_bet_p2 = self.total_bet_p2 + add;
                }
                self.last_raise_amount = raise_amount - cur_other;
                self.min_raise = self.last_raise_amount;
            },
        }
        self.actor = 1 - self.actor;
        self.last_action_at = now;
        if self.current_bet_p1 == self.current_bet_p2 {
            self.current_bet_p1 = 0;
            self.current_bet_p2 = 0;
            self.min_raise = self.big_blind;
            self.last_raise_amount = self.big_blind;
            self.advance_betting_round();
        }
        Ok(())
    }
}

} // verus!
