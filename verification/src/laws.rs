use vstd::prelude::*;
use crate::betting::{act_next, post_blinds_next};
use crate::config::GameConfig;
use crate::crypto::sha256_of;
use crate::error::Error;
use crate::game::{commit_seed_next, Action, GameState, GameView};
use crate::settle::rake_of;
use crate::showdown::apply_hand_reveal_next;
use crate::shuffle::reveal_seed_next;
use crate::timeout::{advance_timeout_next, timeout_for_state};

verus! {

/// Money conservation at settlement: however a hand ended, the winner's
/// payout and the house rake split the pot exactly, and the rake never
/// exceeds the pot.
pub proof fn lemma_payout_conserves_pot(pot: int, rake_bps: int)
    requires
        0 <= pot,
        0 <= rake_bps <= 10000,
    ensures
        (pot - rake_of(pot, rake_bps)) + rake_of(pot, rake_bps) == pot,
        0 <= rake_of(pot, rake_bps) <= pot,
{
    vstd::arithmetic::div_mod::lemma_div_pos_is_pos(pot * rake_bps, 10000);
    assert(0 <= pot * rake_bps) by (nonlinear_arith)
        requires 0 <= pot, 0 <= rake_bps,
    ;
    assert(pot * rake_bps <= pot * 10000) by (nonlinear_arith)
        requires 0 <= pot, rake_bps <= 10000,
    ;
    vstd::arithmetic::div_mod::lemma_div_is_ordered(pot * rake_bps, pot * 10000, 10000);
    vstd::arithmetic::div_mod::lemma_div_by_multiple(pot, 10000);
}

/// Money conservation across a betting action: whatever a successful action
/// moves into the pot it also records as the actor's cumulative
/// contribution, so the pot exceeds the two cumulative round contributions
/// by the same carried-over amount before and after; and the pot never
/// shrinks.
pub proof fn lemma_act_conserves_pot(
    g: GameView,
    player: Seq<u8>,
    action: Action,
    raise_amount: int,
    commitment: Option<Seq<u8>>,
    now: u64,
)
    requires
        g.wf(),
        act_next(g, player, action, raise_amount, commitment, now) is Ok,
    ensures
        ({
            let g2 = act_next(g, player, action, raise_amount, commitment, now)->Ok_0;
            &&& g2.pot - (g2.total_bet_p1 + g2.total_bet_p2) == g.pot - (g.total_bet_p1
                + g.total_bet_p2)
            &&& g2.pot >= g.pot
            &&& g2.buy_in == g.buy_in
        }),
{
}

/// Money conservation across the blinds: posting them moves exactly both
/// blinds into the pot and records them as the two cumulative
/// contributions, on top of the buy-ins already there.
pub proof fn lemma_blinds_conserve_pot(g: GameView, cfg: GameConfig, now: u64)
    requires
        g.wf(),
        post_blinds_next(g, cfg, now) is Ok,
    ensures
        ({
            let g2 = post_blinds_next(g, cfg, now)->Ok_0;
            &&& g2.pot - (g2.total_bet_p1 + g2.total_bet_p2) == g.pot - (g.total_bet_p1
                + g.total_bet_p2)
            &&& g2.pot == g.pot + cfg.small_blind + cfg.big_blind
        }),
{
}

/// Money conservation across a forced timeout resolution: neither an
/// automatic check nor an automatic fold nor a forfeit moves any money; the
/// pot and both cumulative contributions are exactly what they were.
pub proof fn lemma_timeout_conserves_pot(g: GameView, cfg: GameConfig, now: u64)
    requires
        g.wf(),
        advance_timeout_next(g, cfg, now) is Ok,
    ensures
        ({
            let g2 = advance_timeout_next(g, cfg, now)->Ok_0;
            &&& g2.pot == g.pot
            &&& g2.total_bet_p1 == g.total_bet_p1
            &&& g2.total_bet_p2 == g.total_bet_p2
        }),
{
}

/// Within a hand the board only grows: no betting action removes a board
/// card or lowers the count of revealed cards.
pub proof fn lemma_act_board_monotonic(
    g: GameView,
    player: Seq<u8>,
    action: Action,
    raise_amount: int,
    commitment: Option<Seq<u8>>,
    now: u64,
)
    requires
        g.wf(),
        act_next(g, player, action, raise_amount, commitment, now) is Ok,
    ensures
        ({
            let g2 = act_next(g, player, action, raise_amount, commitment, now)->Ok_0;
            &&& g2.board == g.board
            &&& g2.board_revealed >= g.board_revealed
        }),
{
}

/// A forced timeout resolution, too, never removes a board card or lowers
/// the count of revealed cards.
pub proof fn lemma_timeout_board_monotonic(g: GameView, cfg: GameConfig, now: u64)
    requires
        g.wf(),
        advance_timeout_next(g, cfg, now) is Ok,
    ensures
        ({
            let g2 = advance_timeout_next(g, cfg, now)->Ok_0;
            &&& g2.board == g.board
            &&& g2.board_revealed >= g.board_revealed
        }),
{
}

/// Commit-reveal soundness: a revealed seed whose SHA-256 digest does not
/// match the participant's stored commitment never advances the game, and
/// when that participant has not yet revealed, the failure is exactly the
/// seed-invalid error.
pub proof fn lemma_commit_reveal_soundness(g: GameView, player: Seq<u8>, seed: Seq<u8>, now: u64)
    requires
        g.wf(),
        g.state == GameState::ShuffleReveal,
        g.is_participant(player),
        player == g.player1 ==> sha256_of(seed) != g.seed_commitment1->0,
        player != g.player1 ==> sha256_of(seed) != g.seed_commitment2->0,
    ensures
        reveal_seed_next(g, player, seed, now) is Err,
        (if player == g.player1 {
            g.seed_reveal1 is None
        } else {
            g.seed_reveal2 is None
        }) ==> reveal_seed_next(g, player, seed, now) == Err::<GameView, Error>(Error::InvalidSeed),
{
}

/// Round-equality gate, used by the lemma below: whether the two
/// current-round bets are equal once the action's payment is applied.
pub open spec fn bets_equal_after(
    g: GameView,
    player: Seq<u8>,
    action: Action,
    raise_amount: int,
) -> bool {
    let cur_self = if player == g.player1 {
        g.current_bet_p1
    } else {
        g.current_bet_p2
    };
    let cur_other = if player == g.player1 {
        g.current_bet_p2
    } else {
        g.current_bet_p1
    };
    match action {
        Action::Fold => false,
        Action::Check => cur_self == cur_other,
        Action::Call => true,
        Action::Raise => raise_amount == cur_other,
    }
}

/// Round-equality gate: a successful non-fold action advances the betting
/// round if and only if it left both current-round bets equal — never
/// before; and an advanced round starts with both bets reset to zero.
pub proof fn lemma_round_equality_gate(
    g: GameView,
    player: Seq<u8>,
    action: Action,
    raise_amount: int,
    commitment: Option<Seq<u8>>,
    now: u64,
)
    requires
        g.wf(),
        action != Action::Fold,
        act_next(g, player, action, raise_amount, commitment, now) is Ok,
    ensures
        ({
            let g2 = act_next(g, player, action, raise_amount, commitment, now)->Ok_0;
            &&& (g2.state != g.state <==> bets_equal_after(g, player, action, raise_amount))
            &&& (g2.state != g.state ==> g2.current_bet_p1 == 0 && g2.current_bet_p2 == 0)
        }),
{
}

/// Turn enforcement: during a live betting round, an action submitted by
/// anyone but the current actor fails as not-your-turn, whatever the action
/// and its amounts, and changes nothing.
pub proof fn lemma_turn_enforcement(
    g: GameView,
    player: Seq<u8>,
    action: Action,
    raise_amount: int,
    commitment: Option<Seq<u8>>,
    now: u64,
)
    requires
        g.wf(),
        g.in_betting_state(),
        g.folded is None,
        player != g.current_actor_id(),
    ensures
        act_next(g, player, action, raise_amount, commitment, now) == Err::<GameView, Error>(
            Error::NotYourTurn,
        ),
{
}

/// Idempotent shuffle commitments: a second commitment by the same
/// participant in the same hand fails as a duplicate, so the first value
/// stays.
pub proof fn lemma_commit_idempotent(g: GameView, player: Seq<u8>, commitment: Seq<u8>, now: u64)
    requires
        g.wf(),
        g.state == GameState::ShuffleCommit,
        g.is_participant(player),
        player == g.player1 ==> g.seed_commitment1 is Some,
        player != g.player1 ==> g.seed_commitment2 is Some,
    ensures
        commit_seed_next(g, player, commitment, now) == Err::<GameView, Error>(
            Error::AlreadyCommitted,
        ),
{
}

/// Idempotent reveals: a second reveal by the same participant fails as a
/// duplicate — before the seed is even checked — so the first value stays.
pub proof fn lemma_reveal_idempotent(g: GameView, player: Seq<u8>, seed: Seq<u8>, now: u64)
    requires
        g.wf(),
        g.state == GameState::ShuffleReveal,
        g.is_participant(player),
        player == g.player1 ==> g.seed_reveal1 is Some,
        player != g.player1 ==> g.seed_reveal2 is Some,
    ensures
        reveal_seed_next(g, player, seed, now) == Err::<GameView, Error>(Error::AlreadyRevealed),
{
}

/// Idempotent hand ranks: a second accepted showdown reveal by the same
/// participant fails as a duplicate, so the first rank stays.
pub proof fn lemma_hand_rank_idempotent(g: GameView, player: Seq<u8>, claimed_rank: u32, now: u64)
    requires
        g.wf(),
        g.state == GameState::Showdown,
        g.is_participant(player),
        1 <= claimed_rank <= 10,
        player == g.player1 ==> g.hand_rank1 is Some,
        player != g.player1 ==> g.hand_rank2 is Some,
    ensures
        apply_hand_reveal_next(g, player, claimed_rank, true, now) == Err::<GameView, Error>(
            Error::AlreadyRevealed,
        ),
{
}

/// Timeout monotonicity, first half: before `last_action_at + timeout` has
/// passed, forcing a stalled game forward fails with timeout-not-reached and
/// changes nothing.
pub proof fn lemma_timeout_not_reached(g: GameView, cfg: GameConfig, now: u64)
    requires
        g.wf(),
        g.state != GameState::Finished,
        g.state != GameState::Cancelled,
        (timeout_for_state(g.state, cfg) matches Some(t) && now <= g.last_action_at + t),
    ensures
        advance_timeout_next(g, cfg, now) == Err::<GameView, Error>(Error::TimeoutNotReached),
{
}

/// Timeout monotonicity, second half: a stall is resolved at most once. A
/// second forcing at the same instant finds either a terminal game or a
/// fresh last-action timestamp, and fails.
pub proof fn lemma_timeout_single_shot(g: GameView, cfg: GameConfig, now: u64)
    requires
        g.wf(),
        advance_timeout_next(g, cfg, now) is Ok,
    ensures
        advance_timeout_next(advance_timeout_next(g, cfg, now)->Ok_0, cfg, now) is Err,
{
}

} // verus!
