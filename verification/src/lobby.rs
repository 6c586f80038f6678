use vstd::prelude::*;
use crate::{bytes32_eq, Bytes32, AMOUNT_LIMIT, TIME_LIMIT};
use crate::config::Table;
use crate::error::Error;
use crate::game::{Game, GameState, GameView};

verus! {

/// One participant waiting at a table for an opponent. Destroyed the moment
/// a second participant sits (the pair is promoted into a game) or when the
/// seat is cancelled.
#[derive(Clone, Copy, Debug)]
pub struct WaitingSession {
    pub player1: Bytes32,
    pub buy_in: i128,
    pub created_at: u64,
}

/// The mathematical image of a waiting session.
pub struct SessionView {
    pub player1: Seq<u8>,
    pub buy_in: int,
    pub created_at: int,
}

impl View for WaitingSession {
    type V = SessionView;

    open spec fn view(&self) -> SessionView {
        SessionView {
            player1: self.player1@,
            buy_in: self.buy_in as int,
            created_at: self.created_at as int,
        }
    }
}

impl WaitingSession {
    /// A session's amounts and timestamp are bounded like every other.
    pub open spec fn wf(self) -> bool {
        &&& 0 <= self.buy_in <= AMOUNT_LIMIT
        &&& self.created_at <= TIME_LIMIT
    }
}

/// What sitting at a table produced: either a waiting seat (first of two)
/// or a started game (second of two), with the new game's identifier.
#[derive(Clone, Copy, Debug, PartialEq, Eq, Structural)]
pub struct SitResult {
    pub waiting: bool,
    pub game_id: u64,
}

/// What sitting at a table creates: a waiting seat, or a full game.
pub enum SitOutcome {
    Wait(WaitingSession),
    Start(Game),
}

/// The mathematical image of a sit outcome.
pub enum SitOutcomeView {
    Wait(SessionView),
    Start(GameView),
}

impl View for SitOutcome {
    type V = SitOutcomeView;

    open spec fn view(&self) -> SitOutcomeView {
        match self {
            SitOutcome::Wait(s) => SitOutcomeView::Wait(s@),
            SitOutcome::Start(g) => SitOutcomeView::Start(g@),
        }
    }
}

impl SitOutcome {
    /// The outward shape of the outcome: waiting, or the started game's id.
    pub fn result(&self) -> (r: SitResult)
        ensures
            (match self@ {
                SitOutcomeView::Wait(s) => r == (SitResult { waiting: true, game_id: 0 }),
                SitOutcomeView::Start(g) => r == (SitResult { waiting: false, game_id: g.id }),
            }),
    {
        match self {
            SitOutcome::Wait(_) => SitResult { waiting: true, game_id: 0 },
            SitOutcome::Start(g) => SitResult { waiting: false, game_id: g.id },
        }
    }
}

/// The fields of a freshly created game: identities and buy-in as given,
/// blinds from the table, an empty board, no commitments, the first dealer
/// button, and the minimum raise at the big blind.
pub open spec fn new_game_view(
    id: u64,
    state: GameState,
    player1: Seq<u8>,
    player2: Option<Seq<u8>>,
    buy_in: int,
    pot: int,
    table: Table,
    table_id: u64,
    now: u64,
) -> GameView {
    GameView {
        id: id,
        state: state,
        player1: player1,
        player2: player2,
        buy_in: buy_in,
        pot: pot,
        small_blind: table.small_blind as int,
        big_blind: table.big_blind as int,
        dealer_position: 0,
        board: Seq::empty(),
        board_revealed: 0,
        current_bet_p1: 0,
        current_bet_p2: 0,
        total_bet_p1: 0,
        total_bet_p2: 0,
        min_raise: table.big_blind as int,
        last_raise_amount: table.big_blind as int,
        actor: 0,
        folded: None,
        seed_commitment1: None,
        seed_commitment2: None,
        seed_reveal1: None,
        seed_reveal2: None,
        final_seed: None,
        hand_commitment1: None,
        hand_commitment2: None,
        hand_rank1: None,
        hand_rank2: None,
        winner: None,
        created_at: now as int,
        last_action_at: now as int,
        table_id: table_id,
    }
}

/// Whether a buy-in lies in the table's window, and the error otherwise.
pub open spec fn buy_in_check(table: Table, buy_in: int) -> Result<(), Error> {
    if buy_in < table.min_buy_in {
        Err(Error::BuyInTooLow)
    } else if buy_in > table.max_buy_in {
        Err(Error::BuyInTooHigh)
    } else {
        Ok(())
    }
}

/// What sitting at a table does: a buy-in outside the table's window is
/// rejected; with a seat already waiting, the same participant may not take
/// both seats and the buy-ins must match, and the pair becomes a game in the
/// shuffle-commit phase with both buy-ins in the pot; with no seat waiting,
/// the participant becomes the waiting seat.
pub open spec fn sit_at_table_next(
    table: Table,
    table_id: u64,
    waiting: Option<WaitingSession>,
    player: Seq<u8>,
    buy_in: int,
    game_id: u64,
    now: u64,
) -> Result<SitOutcomeView, Error> {
    if buy_in_check(table, buy_in) is Err {
        Err(buy_in_check(table, buy_in)->Err_0)
    } else {
        match waiting {
            Some(session) => if session.player1@ == player {
                Err(Error::CannotPlaySelf)
            } else if session.buy_in != buy_in {
                Err(Error::InvalidAmount)
            } else {
                Ok(
                    SitOutcomeView::Start(
                        new_game_view(
                            game_id,
                            GameState::ShuffleCommit,
                            session.player1@,
                            Some(player),
                            buy_in,
                            buy_in + buy_in,
                            table,
                            table_id,
                            now,
                        ),
                    ),
                )
            },
            None => Ok(
                SitOutcomeView::Wait(
                    SessionView { player1: player, buy_in: buy_in, created_at: now as int },
                ),
            ),
        }
    }
}

/// Seats a participant at a table: the first of two becomes the waiting
/// seat; the second of two is matched with the waiting one and a game
/// starts, holding both buy-ins.
pub fn sit_at_table(
    table: &Table,
    table_id: u64,
    waiting: Option<&WaitingSession>,
    player: &Bytes32,
    buy_in: i128,
    game_id: u64,
    now: u64,
) -> (r: Result<SitOutcome, Error>)
    requires
        table.wf(),
        now <= TIME_LIMIT,
        (waiting matches Some(s) ==> s.wf()),
    ensures
        (match sit_at_table_next(
            *table,
            table_id,
            (match waiting {
                Some(s) => Some(*s),
                None => None,
            }),
            player@,
            buy_in as int,
            game_id,
            now,
        ) {
            Ok(o) => r matches Ok(out) && out@ == o && (out matches SitOutcome::Start(g)
                ==> g@.wf()) && (out matches SitOutcome::Wait(s) ==> s.wf()),
            Err(e) => r == Err::<SitOutcome, Error>(e),
        }),
{
    if buy_in < table.min_buy_in {
        return Err(Error::BuyInTooLow);
    }
    if buy_in > table.max_buy_in {
        return Err(Error::BuyInTooHigh);
    }
    match waiting {
        Some(session) => {
            if bytes32_eq(&session.player1, player) {
                return Err(Error::CannotPlaySelf);
            }
            if session.buy_in != buy_in {
                return Err(Error::InvalidAmount);
            }
            let game = fresh_game(
                game_id,
                GameState::ShuffleCommit,
                session.player1,
                Some(*player),
                buy_in,
                buy_in + buy_in,
                table,
                table_id,
                now,
            );
            Ok(SitOutcome::Start(game))
        },
        None => Ok(
            SitOutcome::Wait(
                WaitingSession { player1: *player, buy_in: buy_in, created_at: now },
            ),
        ),
    }
}

/// What creating an open game does: the creator takes the first seat, their
/// buy-in enters the pot, and the game waits for an opponent.
pub open spec fn create_game_next(
    table: Table,
    table_id: u64,
    player: Seq<u8>,
    buy_in: int,
    game_id: u64,
    now: u64,
) -> Result<GameView, Error> {
    if buy_in_check(table, buy_in) is Err {
        Err(buy_in_check(table, buy_in)->Err_0)
    } else {
        Ok(
            new_game_view(
                game_id,
                GameState::WaitingForPlayers,
                player,
                None,
                buy_in,
                buy_in,
                table,
                table_id,
                now,
            ),
        )
    }
}

/// Creates an open game at a table: the creator holds the first seat and
/// their buy-in is the whole pot until an opponent joins.
pub fn create_game(
    table: &Table,
    table_id: u64,
    player: &Bytes32,
    buy_in: i128,
    game_id: u64,
    now: u64,
) -> (r: Result<Game, Error>)
    requires
        table.wf(),
        now <= TIME_LIMIT,
    ensures
        (match create_game_next(*table, table_id, player@, buy_in as int, game_id, now) {
            Ok(gv) => r matches Ok(g) && g@ == gv && g@.wf(),
            Err(e) => r == Err::<Game, Error>(e),
        }),
{
    if buy_in < table.min_buy_in {
        return Err(Error::BuyInTooLow);
    }
    if buy_in > table.max_buy_in {
        return Err(Error::BuyInTooHigh);
    }
    Ok(
        fresh_game(
            game_id,
            GameState::WaitingForPlayers,
            *player,
            None,
            buy_in,
            buy_in,
            table,
            table_id,
            now,
        ),
    )
}

/// What starting a two-party game under an agreed session does: the two
/// identities must differ, the buy-in must lie in the table's window, the
/// session identifier must be free, and the game starts with both buy-ins
/// in the pot at the shuffle-commit phase.
pub open spec fn start_game_next(
    session_id: u64,
    table: Table,
    table_id: u64,
    player1: Seq<u8>,
    player2: Seq<u8>,
    buy_in: int,
    session_taken: bool,
    now: u64,
) -> Result<GameView, Error> {
    if player1 == player2 {
        Err(Error::CannotPlaySelf)
    } else if buy_in_check(table, buy_in) is Err {
        Err(buy_in_check(table, buy_in)->Err_0)
    } else if session_taken {
        Err(Error::GameFull)
    } else {
        Ok(
            new_game_view(
                session_id,
                GameState::ShuffleCommit,
                player1,
                Some(player2),
                buy_in,
                buy_in + buy_in,
                table,
                table_id,
                now,
            ),
        )
    }
}

/// Starts a two-party game under a caller-provided session identifier, once
/// both participants have authorized the same terms.
pub fn start_game(
    session_id: u64,
    table: &Table,
    table_id: u64,
    player1: &Bytes32,
    player2: &Bytes32,
    buy_in: i128,
    session_taken: bool,
    now: u64,
) -> (r: Result<Game, Error>)
    requires
        table.wf(),
        now <= TIME_LIMIT,
    ensures
        (match start_game_next(
            session_id,
            *table,
            table_id,
            player1@,
            player2@,
            buy_in as int,
            session_taken,
            now,
        ) {
            Ok(gv) => r matches Ok(g) && g@ == gv && g@.wf(),
            Err(e) => r == Err::<Game, Error>(e),
        }),
{
    if bytes32_eq(player1, player2) {
        return Err(Error::CannotPlaySelf);
    }
    if buy_in < table.min_buy_in {
        return Err(Error::BuyInTooLow);
    }
    if buy_in > table.max_buy_in {
        return Err(Error::BuyInTooHigh);
    }
    if session_taken {
        return Err(Error::GameFull);
    }
    Ok(
        fresh_game(
            session_id,
            GameState::ShuffleCommit,
            *player1,
            Some(*player2),
            buy_in,
            buy_in + buy_in,
            table,
            table_id,
            now,
        ),
    )
}

/// Builds a fresh game record with the given seats and pot.
fn fresh_game(
    id: u64,
    state: GameState,
    player1: Bytes32,
    player2: Option<Bytes32>,
    buy_in: i128,
    pot: i128,
    table: &Table,
    table_id: u64,
    now: u64,
) -> (g: Game)
    ensures
        g@ == new_game_view(
            id,
            state,
            player1@,
            crate::game::opt_bytes_view(player2),
            buy_in as int,
            pot as int,
            *table,
            table_id,
            now,
        ),
{
    let g = Game {
        id: id,
        state: state,
        player1: player1,
        player2: player2,
        buy_in: buy_in,
        pot: pot,
        small_blind: table.small_blind,
        big_blind: table.big_blind,
        dealer_position: 0,
        board: Vec::new(),
        board_revealed: 0,
        current_bet_p1: 0,
        current_bet_p2: 0,
        total_bet_p1: 0,
        total_bet_p2: 0,
        min_raise: table.big_blind,
        last_raise_amount: table.big_blind,
        actor: 0,
        folded: None,
        seed_commitment1: None,
        seed_commitment2: None,
        seed_reveal1: None,
        seed_reveal2: None,
        final_seed: None,
        hand_commitment1: None,
        hand_commitment2: None,
        hand_rank1: None,
        hand_rank2: None,
        winner: None,
        created_at: now,
        last_action_at: now,
        table_id: table_id,
    };
    proof {
        assert(g@.board =~= Seq::<u32>::empty());
    }
    g
}

/// What cancelling a waiting seat requires: the waiting participant may
/// always cancel; anyone else only once the waiting timeout has elapsed,
/// and never when no timeout is configured.
pub open spec fn cancel_waiting_check(
    session: WaitingSession,
    caller: Seq<u8>,
    waiting_timeout: u64,
    now: u64,
) -> Result<(), Error> {
    if caller == session.player1@ {
        Ok(())
    } else if waiting_timeout == 0 {
        Err(Error::WaitingTimeoutNotReached)
    } else if now >= session.created_at + waiting_timeout {
        Ok(())
    } else {
        Err(Error::WaitingTimeoutNotReached)
    }
}

/// Decides whether `caller` may cancel the waiting seat now; on success the
/// seat is cleared and the waiting participant's buy-in is refunded.
pub fn cancel_waiting(
    session: &WaitingSession,
    caller: &Bytes32,
    waiting_timeout: u64,
    now: u64,
) -> (r: Result<(), Error>)
    requires
        session.wf(),
        waiting_timeout <= TIME_LIMIT,
    ensures
        r == cancel_waiting_check(*session, caller@, waiting_timeout, now),
{
    if bytes32_eq(caller, &session.player1) {
        return Ok(());
    }
    if waiting_timeout == 0 {
        return Err(Error::WaitingTimeoutNotReached);
    }
    if now >= session.created_at + waiting_timeout {
        Ok(())
    } else {
        Err(Error::WaitingTimeoutNotReached)
    }
}

/// Whether a chat message is short enough to be sent.
pub open spec fn chat_message_ok(message: Seq<u8>) -> bool {
    message.len() <= 280
}

/// Checks a chat message's length: over 280 bytes is rejected.
pub fn check_chat_message(message: &Vec<u8>) -> (r: Result<(), Error>)
    ensures
        r is Ok <==> chat_message_ok(message@),
        r is Err ==> r == Err::<(), Error>(Error::MessageTooLong),
{
    if message.len() > 280 {
        Err(Error::MessageTooLong)
    } else {
        Ok(())
    }
}

} // verus!
