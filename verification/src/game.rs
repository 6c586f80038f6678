use vstd::prelude::*;
use crate::{bytes32_eq, Bytes32, AMOUNT_LIMIT, POT_LIMIT, TIME_LIMIT};
use crate::error::Error;

verus! {

/// The phases of one hand, in the order they are reached. `Finished` and
/// `Cancelled` are terminal.
#[derive(Clone, Copy, Debug, PartialEq, Eq, Structural)]
pub enum GameState {
    WaitingForPlayers,
    ShuffleCommit,
    ShuffleReveal,
    DealCards,
    PreFlop,
    FlopBetting,
    TurnBetting,
    RiverBetting,
    Showdown,
    Finished,
    Cancelled,
}

/// What a player can do on their turn during a betting round.
#[derive(Clone, Copy, Debug, PartialEq, Eq, Structural)]
pub enum Action {
    Fold,
    Check,
    Call,
    Raise,
}

/// The central mutable record of one heads-up game.
#[derive(Clone, Debug)]
pub struct Game {
    pub id: u64,
    pub state: GameState,
    pub player1: Bytes32,
    pub player2: Option<Bytes32>,
    pub buy_in: i128,
    pub pot: i128,
    pub small_blind: i128,
    pub big_blind: i128,
    pub dealer_position: u32,
    pub board: Vec<u32>,
    pub board_revealed: u32,
    pub current_bet_p1: i128,
    pub current_bet_p2: i128,
    pub total_bet_p1: i128,
    pub total_bet_p2: i128,
    pub min_raise: i128,
    pub last_raise_amount: i128,
    pub actor: u32,
    pub folded: Option<Bytes32>,
    pub seed_commitment1: Option<Bytes32>,
    pub seed_commitment2: Option<Bytes32>,
    pub seed_reveal1: Option<Bytes32>,
    pub seed_reveal2: Option<Bytes32>,
    pub final_seed: Option<Bytes32>,
    pub hand_commitment1: Option<Bytes32>,
    pub hand_commitment2: Option<Bytes32>,
    pub hand_rank1: Option<u32>,
    pub hand_rank2: Option<u32>,
    pub winner: Option<Bytes32>,
    pub created_at: u64,
    pub last_action_at: u64,
    pub table_id: u64,
}

/// The mathematical image of an optional 32-byte string.
pub open spec fn opt_bytes_view(o: Option<Bytes32>) -> Option<Seq<u8>> {
    match o {
        Some(b) => Some(b@),
        None => None,
    }
}

/// The mathematical image of a `Game`: byte strings become sequences and
/// machine integers become unbounded integers, so that contracts can speak
/// of them without overflow concerns.
#[verifier::ext_equal]
pub struct GameView {
    pub id: u64,
    pub state: GameState,
    pub player1: Seq<u8>,
    pub player2: Option<Seq<u8>>,
    pub buy_in: int,
    pub pot: int,
    pub small_blind: int,
    pub big_blind: int,
    pub dealer_position: int,
    pub board: Seq<u32>,
    pub board_revealed: int,
    pub current_bet_p1: int,
    pub current_bet_p2: int,
    pub total_bet_p1: int,
    pub total_bet_p2: int,
    pub min_raise: int,
    pub last_raise_amount: int,
    pub actor: int,
    pub folded: Option<Seq<u8>>,
    pub seed_commitment1: Option<Seq<u8>>,
    pub seed_commitment2: Option<Seq<u8>>,
    pub seed_reveal1: Option<Seq<u8>>,
    pub seed_reveal2: Option<Seq<u8>>,
    pub final_seed: Option<Seq<u8>>,
    pub hand_commitment1: Option<Seq<u8>>,
    pub hand_commitment2: Option<Seq<u8>>,
    pub hand_rank1: Option<u32>,
    pub hand_rank2: Option<u32>,
    pub winner: Option<Seq<u8>>,
    pub created_at: int,
    pub last_action_at: int,
    pub table_id: u64,
}

impl View for Game {
    type V = GameView;

    open spec fn view(&self) -> GameView {
        GameView {
            id: self.id,
            state: self.state,
            player1: self.player1@,
            player2: opt_bytes_view(self.player2),
            buy_in: self.buy_in as int,
            pot: self.pot as int,
            small_blind: self.small_blind as int,
            big_blind: self.big_blind as int,
            dealer_position: self.dealer_position as int,
            board: self.board@,
            board_revealed: self.board_revealed as int,
            current_bet_p1: self.current_bet_p1 as int,
            current_bet_p2: self.current_bet_p2 as int,
            total_bet_p1: self.total_bet_p1 as int,
            total_bet_p2: self.total_bet_p2 as int,
            min_raise: self.min_raise as int,
            last_raise_amount: self.last_raise_amount as int,
            actor: self.actor as int,
            folded: opt_bytes_view(self.folded),
            seed_commitment1: opt_bytes_view(self.seed_commitment1),
            seed_commitment2: opt_bytes_view(self.seed_commitment2),
            seed_reveal1: opt_bytes_view(self.seed_reveal1),
            seed_reveal2: opt_bytes_view(self.seed_reveal2),
            final_seed: opt_bytes_view(self.final_seed),
            hand_commitment1: opt_bytes_view(self.hand_commitment1),
            hand_commitment2: opt_bytes_view(self.hand_commitment2),
            hand_rank1: self.hand_rank1,
            hand_rank2: self.hand_rank2,
            winner: opt_bytes_view(self.winner),
            created_at: self.created_at as int,
            last_action_at: self.last_action_at as int,
            table_id: self.table_id,
        }
    }
}

impl GameView {
    /// The betting rounds, where turn order applies.
    pub open spec fn in_betting_state(self) -> bool {
        ||| self.state == GameState::PreFlop
        ||| self.state == GameState::FlopBetting
        ||| self.state == GameState::TurnBetting
        ||| self.state == GameState::RiverBetting
    }

    /// The states reached before any card is dealt.
    pub open spec fn pre_deal_state(self) -> bool {
        ||| self.state == GameState::WaitingForPlayers
        ||| self.state == GameState::ShuffleCommit
        ||| self.state == GameState::ShuffleReveal
        ||| self.state == GameState::DealCards
    }

    /// The states in which a full five-card board has been derived.
    pub open spec fn board_dealt_state(self) -> bool {
        ||| self.state == GameState::DealCards
        ||| self.in_betting_state()
        ||| self.state == GameState::Showdown
    }

    /// Whether `player` is one of the game's participants.
    pub open spec fn is_participant(self, player: Seq<u8>) -> bool {
        ||| player == self.player1
        ||| (self.player2 matches Some(p) && player == p)
    }

    /// The identity of whoever the turn flag points at.
    pub open spec fn current_actor_id(self) -> Seq<u8>
        recommends
            self.actor == 1 ==> self.player2 is Some,
    {
        if self.actor == 0 {
            self.player1
        } else {
            self.player2->0
        }
    }

    /// The opponent of `player`, who must be a participant of a seated game.
    pub open spec fn opponent_of(self, player: Seq<u8>) -> Seq<u8>
        recommends
            self.player2 is Some,
    {
        if player == self.player1 {
            self.player2->0
        } else {
            self.player1
        }
    }

    /// How many board cards each state exposes.
    pub open spec fn board_reveal_count_matches(self) -> bool {
        match self.state {
            GameState::WaitingForPlayers => self.board_revealed == 0,
            GameState::ShuffleCommit => self.board_revealed == 0,
            GameState::ShuffleReveal => self.board_revealed == 0,
            GameState::DealCards => self.board_revealed == 0,
            GameState::PreFlop => self.board_revealed == 0,
            GameState::FlopBetting => self.board_revealed == 3,
            GameState::TurnBetting => self.board_revealed == 4,
            GameState::RiverBetting => self.board_revealed == 5,
            GameState::Showdown => self.board_revealed == 5,
            GameState::Finished => 0 <= self.board_revealed <= 5,
            GameState::Cancelled => 0 <= self.board_revealed <= 5,
        }
    }

    /// Well-formedness: what holds of every game the library ever builds or
    /// returns. Constructors establish it and every transition preserves it.
    pub open spec fn wf(self) -> bool {
        &&& self.player1.len() == 32
        &&& (self.player2 matches Some(p) ==> p.len() == 32 && p != self.player1)
        &&& (self.player2 is Some <==> self.state != GameState::WaitingForPlayers)
        &&& 0 <= self.small_blind <= self.big_blind <= AMOUNT_LIMIT
        &&& 0 <= self.buy_in <= AMOUNT_LIMIT
        &&& 0 <= self.current_bet_p1 <= self.total_bet_p1
        &&& 0 <= self.current_bet_p2 <= self.total_bet_p2
        &&& self.total_bet_p1 + self.total_bet_p2 <= self.pot
        &&& 0 <= self.min_raise <= AMOUNT_LIMIT
        &&& 0 <= self.last_raise_amount <= AMOUNT_LIMIT
        &&& (self.dealer_position == 0 || self.dealer_position == 1)
        &&& (self.actor == 0 || self.actor == 1)
        &&& (self.pre_deal_state() ==> self.current_bet_p1 == 0 && self.current_bet_p2 == 0
            && self.total_bet_p1 == 0 && self.total_bet_p2 == 0)
        &&& (self.state == GameState::ShuffleReveal ==> self.seed_commitment1 is Some
            && self.seed_commitment2 is Some)
        &&& (self.board_dealt_state() ==> self.board.len() == 5)
        &&& self.board_reveal_count_matches()
        &&& (self.state == GameState::Finished ==> self.winner is Some)
        &&& 0 <= self.last_action_at <= TIME_LIMIT
    }
}

/// What joining an open game does: the second seat is taken, the joiner's
/// buy-in enters the pot, and the shuffle-commit phase begins.
pub open spec fn join_game_next(g: GameView, player: Seq<u8>, now: u64) -> Result<GameView, Error> {
    if g.state != GameState::WaitingForPlayers {
        Err(Error::InvalidState)
    } else if player == g.player1 {
        Err(Error::CannotPlaySelf)
    } else if g.player2 is Some {
        Err(Error::GameFull)
    } else {
        Ok(GameView {
            player2: Some(player),
            pot: g.pot + g.buy_in,
            state: GameState::ShuffleCommit,
            last_action_at: now as int,
            ..g
        })
    }
}

/// What submitting a shuffle commitment does: stored once per participant,
/// and the reveal phase begins the moment both are in.
pub open spec fn commit_seed_next(
    g: GameView,
    player: Seq<u8>,
    commitment: Seq<u8>,
    now: u64,
) -> Result<GameView, Error> {
    if g.state != GameState::ShuffleCommit {
        Err(Error::InvalidState)
    } else if !g.is_participant(player) {
        Err(Error::NotPlayer)
    } else if player == g.player1 {
        if g.seed_commitment1 is Some {
            Err(Error::AlreadyCommitted)
        } else {
            Ok(commit_advance(GameView { seed_commitment1: Some(commitment), ..g }, now))
        }
    } else {
        if g.seed_commitment2 is Some {
            Err(Error::AlreadyCommitted)
        } else {
            Ok(commit_advance(GameView { seed_commitment2: Some(commitment), ..g }, now))
        }
    }
}

/// After a commitment lands: move to the reveal phase once both are present.
pub open spec fn commit_advance(g: GameView, now: u64) -> GameView {
    if g.seed_commitment1 is Some && g.seed_commitment2 is Some {
        GameView { state: GameState::ShuffleReveal, last_action_at: now as int, ..g }
    } else {
        GameView { last_action_at: now as int, ..g }
    }
}

impl Game {
    /// Whether `player` is one of this game's participants.
    pub fn is_player(&self, player: &Bytes32) -> (r: bool)
        ensures
            r == self@.is_participant(player@),
    {
        if bytes32_eq(player, &self.player1) {
            true
        } else {
            match &self.player2 {
                Some(p2) => bytes32_eq(player, p2),
                None => false,
            }
        }
    }

    /// Whether `player` is the participant whose turn it is.
    pub fn is_current_actor(&self, player: &Bytes32) -> (r: bool)
        requires
            self@.actor != 0 ==> self@.player2 is Some,
        ensures
            r == (player@ == self@.current_actor_id()),
    {
        if self.actor == 0 {
            bytes32_eq(player, &self.player1)
        } else {
            match &self.player2 {
                Some(p2) => bytes32_eq(player, p2),
                None => false,
            }
        }
    }

    /// Seats `player` as the second participant of a waiting game; their
    /// buy-in enters the pot and the shuffle-commit phase begins.
    pub fn join_game(&mut self, player: &Bytes32, now: u64) -> (r: Result<(), Error>)
        requires
            old(self)@.wf(),
            old(self)@.pot <= POT_LIMIT,
            now <= TIME_LIMIT,
        ensures
            final(self)@.wf(),
            (match join_game_next(old(self)@, player@, now) {
                Ok(g2) => r is Ok && final(self)@ == g2,
                Err(e) => r == Err::<(), Error>(e) && final(self)@ == old(self)@,
            }),
    {
        if self.state != GameState::WaitingForPlayers {
            return Err(Error::InvalidState);
        }
        if bytes32_eq(player, &self.player1) {
            return Err(Error::CannotPlaySelf);
        }
        if self.player2.is_some() {
            return Err(Error::GameFull);
        }
        self.player2 = Some(*player);
        self.pot = self.pot + self.buy_in;
        self.state = GameState::ShuffleCommit;
        self.last_action_at = now;
        Ok(())
    }

    /// Records `player`'s shuffle commitment; a second submission by the
    /// same participant fails and leaves the first value intact.
    pub fn commit_seed(&mut self, player: &Bytes32, commitment: Bytes32, now: u64) -> (r: Result<
        (),
        Error,
    >)
        requires
            old(self)@.wf(),
            now <= TIME_LIMIT,
        ensures
            final(self)@.wf(),
            (match commit_seed_next(old(self)@, player@, commitment@, now) {
                Ok(g2) => r is Ok && final(self)@ == g2,
                Err(e) => r == Err::<(), Error>(e) && final(self)@ == old(self)@,
            }),
    {
        if self.state != GameState::ShuffleCommit {
            return Err(Error::InvalidState);
        }
        if !self.is_player(player) {
            return Err(Error::NotPlayer);
        }
        if bytes32_eq(player, &self.player1) {
            if self.seed_commitment1.is_some() {
                return Err(Error::AlreadyCommitted);
            }
            self.seed_commitment1 = Some(commitment);
        } else {
            if self.seed_commitment2.is_some() {
                return Err(Error::AlreadyCommitted);
            }
            self.seed_commitment2 = Some(commitment);
        }
        if self.seed_commitment1.is_some() && self.seed_commitment2.is_some() {
            self.state = GameState::ShuffleReveal;
        }
        self.last_action_at = now;
        Ok(())
    }
}

} // verus!
