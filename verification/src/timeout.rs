use vstd::prelude::*;
use crate::{bytes32_eq, Bytes32, TIME_LIMIT};
use crate::betting::after_action;
use crate::config::GameConfig;
use crate::error::Error;
use crate::game::{Game, GameState, GameView};

verus! {

/// The participant a stalled game is waiting on: whoever has not yet
/// committed, revealed, acted, or shown a rank, depending on the phase.
pub open spec fn non_acting_player(g: GameView) -> Result<Seq<u8>, Error>
    recommends
        g.player2 is Some,
{
    match g.state {
        GameState::ShuffleCommit => if g.seed_commitment1 is None {
            Ok(g.player1)
        } else {
            Ok(g.player2->0)
        },
        GameState::ShuffleReveal => if g.seed_reveal1 is None {
            Ok(g.player1)
        } else {
            Ok(g.player2->0)
        },
        GameState::PreFlop => Ok(g.current_actor_id()),
        GameState::FlopBetting => Ok(g.current_actor_id()),
        GameState::TurnBetting => Ok(g.current_actor_id()),
        GameState::RiverBetting => Ok(g.current_actor_id()),
        GameState::Showdown => if g.hand_rank1 is None {
            Ok(g.player1)
        } else {
            Ok(g.player2->0)
        },
        _ => Err(Error::InvalidState),
    }
}

/// The states in which a stall can be forced forward, and which configured
/// timeout applies there.
pub open spec fn timeout_for_state(s: GameState, cfg: GameConfig) -> Option<u64> {
    match s {
        GameState::ShuffleCommit => Some(cfg.reveal_timeout),
        GameState::ShuffleReveal => Some(cfg.reveal_timeout),
        GameState::PreFlop => Some(cfg.bet_timeout),
        GameState::FlopBetting => Some(cfg.bet_timeout),
        GameState::TurnBetting => Some(cfg.bet_timeout),
        GameState::RiverBetting => Some(cfg.bet_timeout),
        GameState::Showdown => Some(cfg.bet_timeout),
        _ => None,
    }
}

/// What forcing a stalled game forward does. Before the applicable timeout
/// has elapsed it fails and changes nothing. A commit or reveal stall
/// cancels the hand in the waiting party's favour; a showdown stall finishes
/// it the same way. In a betting round, a participant owing nothing is
/// checked for automatically and the turn passes; one owing a positive
/// amount is folded automatically and the opponent wins.
pub open spec fn advance_timeout_next(g: GameView, cfg: GameConfig, now: u64) -> Result<
    GameView,
    Error,
> {
    if g.state == GameState::Finished {
        Err(Error::GameAlreadyFinished)
    } else if g.state == GameState::Cancelled {
        Err(Error::GameCancelled)
    } else {
        match timeout_for_state(g.state, cfg) {
            None => Err(Error::NoTimeoutApplicable),
            Some(timeout) => if now <= g.last_action_at + timeout {
                Err(Error::TimeoutNotReached)
            } else {
                match non_acting_player(g) {
                    Err(e) => Err(e),
                    Ok(idle) => if g.state == GameState::ShuffleCommit || g.state
                        == GameState::ShuffleReveal || g.state == GameState::Showdown {
                        Ok(GameView {
                            winner: Some(g.opponent_of(idle)),
                            state: if g.state == GameState::Showdown {
                                GameState::Finished
                            } else {
                                GameState::Cancelled
                            },
                            last_action_at: now as int,
                            ..g
                        })
                    } else {
                        let cur_self = if idle == g.player1 {
                            g.current_bet_p1
                        } else {
                            g.current_bet_p2
                        };
                        let cur_other = if idle == g.player1 {
                            g.current_bet_p2
                        } else {
                            g.current_bet_p1
                        };
                        if cur_other - cur_self == 0 {
                            Ok(after_action(g, now))
                        } else {
                            Ok(GameView {
                                folded: Some(idle),
                                winner: Some(g.opponent_of(idle)),
                                state: GameState::Finished,
                                last_action_at: now as int,
                                ..g
                            })
                        }
                    },
                }
            },
        }
    }
}

impl Game {
    /// Forces a stalled game forward once the applicable timeout has
    /// elapsed. Anyone may call this; it fails with timeout-not-reached
    /// before `last_action_at + timeout`, and a successful call moves the
    /// game so that an immediate second call no longer finds a stall.
    pub fn advance_timeout(&mut self, cfg: &GameConfig, now: u64) -> (r: Result<(), Error>)
        requires
            old(self)@.wf(),
            cfg.wf(),
            now <= TIME_LIMIT,
        ensures
            final(self)@.wf(),
            (match advance_timeout_next(old(self)@, *cfg, now) {
                Ok(g2) => r is Ok && final(self)@ == g2,
                Err(e) => r == Err::<(), Error>(e) && final(self)@ == old(self)@,
            }),
    {
        if self.state == GameState::Finished {
            return Err(Error::GameAlreadyFinished);
        }
        if self.state == GameState::Cancelled {
            return Err(Error::GameCancelled);
        }
        let timeout = match self.state {
            GameState::ShuffleCommit | GameState::ShuffleReveal => cfg.reveal_timeout,
            GameState::PreFlop | GameState::FlopBetting | GameState::TurnBetting
                | GameState::RiverBetting | GameState::Showdown => cfg.bet_timeout,
            _ => {
                return Err(Error::NoTimeoutApplicable);
            },
        };
        if now <= self.last_action_at + timeout {
            return Err(Error::TimeoutNotReached);
        }
        let idle: Bytes32 = match self.state {
            GameState::ShuffleCommit => if self.seed_commitment1.is_none() {
                self.player1
            } else {
                self.player2.unwrap()
            },
            GameState::ShuffleReveal => if self.seed_reveal1.is_none() {
                self.player1
            } else {
                self.player2.unwrap()
            },
            GameState::Showdown => if self.hand_rank1.is_none() {
                self.player1
            } else {
                self.player2.unwrap()
            },
            _ => if self.actor == 0 {
                self.player1
            } else {
                self.player2.unwrap()
            },
        };
        match self.state {
            GameState::ShuffleCommit | GameState::ShuffleReveal | GameState::Showdown => {
                let winner = if bytes32_eq(&idle, &self.player1) {
                    self.player2.unwrap()
                } else {
                    self.player1
                };
                self.winner = Some(winner);
                self.state = if self.state == GameState::Showdown {
                    GameState::Finished
                } else {
                    GameState::Cancelled
                };
                self.last_action_at = now;
            },
            _ => {
                let cur_self = if bytes32_eq(&idle, &self.player1) {
                    self.current_bet_p1
                } else {
                    self.current_bet_p2
                };
                let cur_other = if bytes32_eq(&idle, &self.player1) {
                    self.current_bet_p2
                } else {
                    self.current_bet_p1
                };
                let to_call = cur_other - cur_self;
                if to_call == 0 {
                    self.actor = 1 - self.actor;
                    self.last_action_at = now;
                    if self.current_bet_p1 == self.current_bet_p2 {
                        self.current_bet_p1 = 0;
                        self.current_bet_p2 = 0;
                        self.min_raise = self.big_blind;
                        self.last_raise_amount = self.big_blind;
                        self.advance_betting_round();
                    }
                } else {
                    self.folded = Some(idle);
                    let winner = if bytes32_eq(&idle, &self.player1) {
                        self.player2.unwrap()
                    } else {
                        self.player1
                    };
                    self.winner = Some(winner);
                    self.state = GameState::Finished;
                    self.last_action_at = now;
                }
            },
        }
        Ok(())
    }
}

} // verus!
