use poker_engine::config::{GameConfig, Table};
use poker_engine::error::Error;
use poker_engine::game::{Action, Game, GameState};
use poker_engine::lobby;
use poker_engine::settle;

fn sha256(env: &soroban_sdk::Env, data: &[u8]) -> [u8; 32] {
    let bytes = soroban_sdk::Bytes::from_slice(env, data);
    env.crypto().sha256(&bytes).to_array()
}

fn test_table() -> Table {
    Table { small_blind: 5, big_blind: 10, min_buy_in: 100, max_buy_in: 1_000_000, max_seats: 2 }
}

fn test_config() -> GameConfig {
    GameConfig {
        min_buy_in: 100,
        max_buy_in: 1_000_000,
        small_blind: 5,
        big_blind: 10,
        rake_percentage: 200,
        reveal_timeout: 3600,
        bet_timeout: 300,
        waiting_timeout: 3600,
        treasury: [9u8; 32],
        game_hub: [8u8; 32],
        payment_controller: None,
        proof_verifier: None,
    }
}

const P1: [u8; 32] = [11u8; 32];
const P2: [u8; 32] = [22u8; 32];
const T0: u64 = 1_441_065_600;

fn new_joined_game() -> Game {
    let table = test_table();
    let mut game = lobby::create_game(&table, 0, &P1, 1000, 0, T0).unwrap();
    game.join_game(&P2, T0).unwrap();
    game
}

/// Drives a fresh two-party game through commit and reveal with the given
/// seeds, leaving it in the dealing phase.
fn game_after_reveal(env: &soroban_sdk::Env, seed1: [u8; 32], seed2: [u8; 32]) -> Game {
    let mut game = new_joined_game();
    game.commit_seed(&P1, sha256(env, &seed1), T0).unwrap();
    game.commit_seed(&P2, sha256(env, &seed2), T0).unwrap();
    game.reveal_seed(env, &P1, seed1, T0).unwrap();
    game.reveal_seed(env, &P2, seed2, T0).unwrap();
    game
}

#[test]
fn test_create_and_join_game() {
    let table = test_table();
    let buy_in = 1000i128;
    let game = lobby::create_game(&table, 0, &P1, buy_in, 0, T0).unwrap();
    assert_eq!(game.state, GameState::WaitingForPlayers);
    assert_eq!(game.player1, P1);
    assert!(game.player2.is_none());
    assert_eq!(game.pot, buy_in);

    let mut game2 = game.clone();
    game2.join_game(&P2, T0).unwrap();
    assert_eq!(game2.state, GameState::ShuffleCommit);
    assert_eq!(game2.player2, Some(P2));
    assert_eq!(game2.pot, buy_in + buy_in);
}

#[test]
fn test_commit_and_reveal_seed() {
    let env = soroban_sdk::Env::default();
    let seed1 = [1u8; 32];
    let seed2 = [2u8; 32];
    let mut game = new_joined_game();
    game.commit_seed(&P1, sha256(&env, &seed1), T0).unwrap();
    game.commit_seed(&P2, sha256(&env, &seed2), T0).unwrap();
    assert_eq!(game.state, GameState::ShuffleReveal);

    game.reveal_seed(&env, &P1, seed1, T0).unwrap();
    game.reveal_seed(&env, &P2, seed2, T0).unwrap();
    assert_eq!(game.state, GameState::DealCards);
    assert!(game.final_seed.is_some());
    assert_eq!(game.board.len(), 5);
}

#[test]
fn test_post_blinds_and_fold() {
    let env = soroban_sdk::Env::default();
    let mut game = game_after_reveal(&env, [1u8; 32], [2u8; 32]);
    let cfg = test_config();
    game.post_blinds(&cfg, T0).unwrap();
    assert_eq!(game.state, GameState::PreFlop);
    assert!(game.current_bet_p1 > 0 || game.current_bet_p2 > 0);

    game.act(&P2, Action::Fold, 0, None, T0).unwrap();
    assert_eq!(game.state, GameState::Finished);
    assert_eq!(game.winner, Some(P1));
}

#[test]
fn test_sit_at_table_waiting_then_start() {
    let table = test_table();
    let buy_in = 1000i128;

    let r1 = lobby::sit_at_table(&table, 0, None, &P1, buy_in, 0, T0).unwrap();
    assert!(r1.result().waiting);
    assert_eq!(r1.result().game_id, 0);
    let session = match r1 {
        lobby::SitOutcome::Wait(s) => s,
        lobby::SitOutcome::Start(_) => panic!("expected a waiting seat"),
    };
    assert_eq!(session.player1, P1);
    assert_eq!(session.buy_in, buy_in);

    let r2 = lobby::sit_at_table(&table, 0, Some(&session), &P2, buy_in, 7, T0).unwrap();
    assert!(!r2.result().waiting);
    assert_eq!(r2.result().game_id, 7);
    let game = match r2 {
        lobby::SitOutcome::Start(g) => g,
        lobby::SitOutcome::Wait(_) => panic!("expected a started game"),
    };
    assert_eq!(game.state, GameState::ShuffleCommit);
    assert_eq!(game.player1, P1);
    assert_eq!(game.player2, Some(P2));
    assert_eq!(game.pot, buy_in + buy_in);
}

#[test]
fn test_cancel_waiting_by_player_anytime() {
    let table = test_table();
    let buy_in = 1000i128;
    let r1 = lobby::sit_at_table(&table, 0, None, &P1, buy_in, 0, T0).unwrap();
    assert!(r1.result().waiting);
    let session = match r1 {
        lobby::SitOutcome::Wait(s) => s,
        lobby::SitOutcome::Start(_) => panic!("expected a waiting seat"),
    };
    assert_eq!(session.player1, P1);

    lobby::cancel_waiting(&session, &P1, 3600, T0).unwrap();
    // the seat is free again: the same participant can sit and wait anew
    let r2 = lobby::sit_at_table(&table, 0, None, &P1, buy_in, 0, T0).unwrap();
    assert!(r2.result().waiting);
}

#[test]
fn test_cancel_waiting_by_other_after_timeout() {
    let table = test_table();
    let r1 = lobby::sit_at_table(&table, 0, None, &P1, 1000, 0, T0).unwrap();
    let session = match r1 {
        lobby::SitOutcome::Wait(s) => s,
        lobby::SitOutcome::Start(_) => panic!("expected a waiting seat"),
    };
    // waiting_timeout is 3600; 4000 seconds later anyone may cancel
    lobby::cancel_waiting(&session, &P2, 3600, T0 + 4000).unwrap();
    let r2 = lobby::sit_at_table(&table, 0, None, &P2, 1000, 0, T0 + 4000).unwrap();
    assert!(r2.result().waiting);
}

#[test]
fn test_cancel_waiting_by_other_before_timeout_fails() {
    let table = test_table();
    let r1 = lobby::sit_at_table(&table, 0, None, &P1, 1000, 0, T0).unwrap();
    let session = match r1 {
        lobby::SitOutcome::Wait(s) => s,
        lobby::SitOutcome::Start(_) => panic!("expected a waiting seat"),
    };
    let r = lobby::cancel_waiting(&session, &P2, 3600, T0);
    assert_eq!(r, Err(Error::WaitingTimeoutNotReached));
}

#[test]
fn test_set_payment_controller() {
    let mut cfg = test_config();
    assert!(cfg.payment_controller.is_none());

    let pc = [33u8; 32];
    cfg.set_payment_controller(Some(pc));
    assert_eq!(cfg.payment_controller, Some(pc));

    cfg.set_payment_controller(None);
    assert!(cfg.payment_controller.is_none());
}

#[test]
fn test_deterministic_board_from_seeds() {
    let env = soroban_sdk::Env::default();
    // the regression pin for the shuffle: these two seeds must always give
    // this exact board
    let game = game_after_reveal(&env, [1u8; 32], [2u8; 32]);
    assert_eq!(game.board, vec![3u32, 21, 17, 23, 19]);

    let expected_seed: [u8; 32] = {
        let h1 = sha256(&env, &[1u8; 32]);
        let h2 = sha256(&env, &[2u8; 32]);
        let mut x = [0u8; 32];
        for i in 0..32 {
            x[i] = h1[i] ^ h2[i];
        }
        x
    };
    assert_eq!(game.final_seed, Some(expected_seed));

    // bit-for-bit reproducible: the same seeds give the same board again
    let game2 = game_after_reveal(&env, [1u8; 32], [2u8; 32]);
    assert_eq!(game2.board, game.board);
}

#[test]
fn test_blinds_posted_scenario() {
    let env = soroban_sdk::Env::default();
    let mut game = game_after_reveal(&env, [1u8; 32], [2u8; 32]);
    assert_eq!(game.dealer_position, 0);
    let cfg = test_config();
    game.post_blinds(&cfg, T0).unwrap();
    assert_eq!(game.current_bet_p1, 5);
    assert_eq!(game.current_bet_p2, 10);
    assert_eq!(game.total_bet_p1, 5);
    assert_eq!(game.total_bet_p2, 10);
    assert_eq!(game.actor, 1);
    assert_eq!(game.min_raise, 10);
    assert_eq!(game.pot, 2015);
}

#[test]
fn test_fold_pays_winner() {
    let env = soroban_sdk::Env::default();
    let mut game = game_after_reveal(&env, [1u8; 32], [2u8; 32]);
    // with the button on the second seat, the first seat posts the big
    // blind and acts first
    game.dealer_position = 1;
    let cfg = test_config();
    game.post_blinds(&cfg, T0).unwrap();
    assert_eq!(game.actor, 0);
    let commitment = sha256(&env, &[0u8; 32]);
    game.act(&P1, Action::Raise, 15, Some(commitment), T0 + 1).unwrap();
    assert_eq!(game.pot, 2020);

    game.act(&P2, Action::Fold, 0, None, T0 + 2).unwrap();
    assert_eq!(game.state, GameState::Finished);
    assert_eq!(game.winner, Some(P1));
    let (payout, rake) = settle::payout_amounts(game.pot, cfg.rake_percentage);
    assert_eq!(rake, 2020 * 200 / 10000);
    assert_eq!(payout, game.pot - rake);
    assert_eq!(payout + rake, game.pot);
}

#[test]
fn test_timeout_auto_check() {
    let env = soroban_sdk::Env::default();
    let mut game = game_after_reveal(&env, [1u8; 32], [2u8; 32]);
    let cfg = test_config();
    game.post_blinds(&cfg, T0).unwrap();
    // the big blind raises, the small blind calls: the flop begins
    let c = sha256(&env, &[0u8; 32]);
    game.act(&P2, Action::Raise, 15, Some(c), T0 + 1).unwrap();
    game.act(&P1, Action::Call, 0, Some(c), T0 + 2).unwrap();
    assert_eq!(game.state, GameState::FlopBetting);
    assert_eq!(game.actor, game.dealer_position);
    assert_eq!(game.current_bet_p1, 0);
    assert_eq!(game.current_bet_p2, 0);

    // nobody owes anything, so a stall forces an automatic check, not a fold
    let r = game.advance_timeout(&cfg, T0 + 2 + 301);
    assert_eq!(r, Ok(()));
    assert!(game.folded.is_none());
    assert!(game.winner.is_none());
    assert_eq!(game.state, GameState::TurnBetting);
}

#[test]
fn test_timeout_auto_fold() {
    let env = soroban_sdk::Env::default();
    let mut game = game_after_reveal(&env, [1u8; 32], [2u8; 32]);
    let cfg = test_config();
    game.post_blinds(&cfg, T0).unwrap();
    let c = sha256(&env, &[0u8; 32]);
    // the big blind raises; the small blind now owes 10 and goes silent
    game.act(&P2, Action::Raise, 15, Some(c), T0 + 1).unwrap();
    assert_eq!(game.actor, 0);

    let r = game.advance_timeout(&cfg, T0 + 1 + 301);
    assert_eq!(r, Ok(()));
    assert_eq!(game.folded, Some(P1));
    assert_eq!(game.winner, Some(P2));
    assert_eq!(game.state, GameState::Finished);
}

#[test]
fn test_timeout_monotonicity() {
    let env = soroban_sdk::Env::default();
    let mut game = game_after_reveal(&env, [1u8; 32], [2u8; 32]);
    let cfg = test_config();
    game.post_blinds(&cfg, T0).unwrap();

    // exactly at the deadline the timeout has not been reached yet
    let r = game.advance_timeout(&cfg, T0 + 300);
    assert_eq!(r, Err(Error::TimeoutNotReached));
    assert_eq!(game.state, GameState::PreFlop);

    // past the deadline the stall resolves; the stalled actor's owed
    // amount is not zero here, so the resolution is an automatic fold
    let r2 = game.advance_timeout(&cfg, T0 + 301);
    assert_eq!(r2, Ok(()));
    assert_eq!(game.folded, Some(P2));
    assert_eq!(game.state, GameState::Finished);
    // a second forcing at the same instant finds no stall
    let r3 = game.advance_timeout(&cfg, T0 + 301);
    assert!(r3.is_err());
}

#[test]
fn test_timeout_forfeits_stalled_commit() {
    let env = soroban_sdk::Env::default();
    let mut game = new_joined_game();
    game.commit_seed(&P1, sha256(&env, &[1u8; 32]), T0).unwrap();
    let cfg = test_config();
    // reveal_timeout is 3600; player2 never commits
    let r = game.advance_timeout(&cfg, T0 + 3601);
    assert_eq!(r, Ok(()));
    assert_eq!(game.state, GameState::Cancelled);
    assert_eq!(game.winner, Some(P1));
}

#[test]
fn test_turn_enforcement() {
    let env = soroban_sdk::Env::default();
    let mut game = game_after_reveal(&env, [1u8; 32], [2u8; 32]);
    let cfg = test_config();
    game.post_blinds(&cfg, T0).unwrap();
    assert_eq!(game.actor, 1);
    let before = game.clone();
    // player1 is not the current actor: every action fails as not-your-turn
    let r = game.act(&P1, Action::Fold, 0, None, T0 + 1);
    assert_eq!(r, Err(Error::NotYourTurn));
    let r2 = game.act(&P1, Action::Raise, 100, Some([0u8; 32]), T0 + 1);
    assert_eq!(r2, Err(Error::NotYourTurn));
    assert_eq!(game.state, before.state);
    assert_eq!(game.pot, before.pot);
    assert_eq!(game.actor, before.actor);
}

#[test]
fn test_idempotent_commit() {
    let env = soroban_sdk::Env::default();
    let mut game = new_joined_game();
    let first = sha256(&env, &[1u8; 32]);
    let second = sha256(&env, &[3u8; 32]);
    game.commit_seed(&P1, first, T0).unwrap();
    let r = game.commit_seed(&P1, second, T0 + 1);
    assert_eq!(r, Err(Error::AlreadyCommitted));
    assert_eq!(game.seed_commitment1, Some(first));
}

#[test]
fn test_idempotent_reveal() {
    let env = soroban_sdk::Env::default();
    let mut game = new_joined_game();
    game.commit_seed(&P1, sha256(&env, &[1u8; 32]), T0).unwrap();
    game.commit_seed(&P2, sha256(&env, &[2u8; 32]), T0).unwrap();
    game.reveal_seed(&env, &P1, [1u8; 32], T0).unwrap();
    let r = game.reveal_seed(&env, &P1, [1u8; 32], T0 + 1);
    assert_eq!(r, Err(Error::AlreadyRevealed));
    assert_eq!(game.seed_reveal1, Some([1u8; 32]));
}

#[test]
fn test_reveal_wrong_seed_rejected() {
    let env = soroban_sdk::Env::default();
    let mut game = new_joined_game();
    game.commit_seed(&P1, sha256(&env, &[1u8; 32]), T0).unwrap();
    game.commit_seed(&P2, sha256(&env, &[2u8; 32]), T0).unwrap();
    // player1 reveals a seed that does not hash to their commitment
    let r = game.reveal_seed(&env, &P1, [7u8; 32], T0 + 1);
    assert_eq!(r, Err(Error::InvalidSeed));
    assert_eq!(game.state, GameState::ShuffleReveal);
    assert!(game.seed_reveal1.is_none());
}

#[test]
fn test_betting_errors() {
    let env = soroban_sdk::Env::default();
    let mut game = game_after_reveal(&env, [1u8; 32], [2u8; 32]);
    let cfg = test_config();
    game.post_blinds(&cfg, T0).unwrap();
    let c = sha256(&env, &[0u8; 32]);

    // the big blind owes a negative amount, so a check is refused in favour
    // of an explicit call or raise, and a call of nothing is invalid
    assert_eq!(game.act(&P2, Action::Check, 0, None, T0), Err(Error::MustCallOrRaise));
    assert_eq!(game.act(&P2, Action::Call, 0, None, T0), Err(Error::InvalidAmount));
    // a raise must reach the opponent's bet plus the minimum raise
    assert_eq!(game.act(&P2, Action::Raise, 14, Some(c), T0), Err(Error::RaiseTooSmall));
    // a raise without a hole-card commitment is refused
    assert_eq!(game.act(&P2, Action::Raise, 15, None, T0), Err(Error::InvalidCommitment));
    // and the failed attempts changed nothing
    assert_eq!(game.pot, 2015);
    assert_eq!(game.state, GameState::PreFlop);
}

#[test]
fn test_round_advances_only_on_equal_bets() {
    let env = soroban_sdk::Env::default();
    let mut game = game_after_reveal(&env, [1u8; 32], [2u8; 32]);
    let cfg = test_config();
    game.post_blinds(&cfg, T0).unwrap();
    let c = sha256(&env, &[0u8; 32]);

    // a raise leaves the bets unequal: still the same round
    game.act(&P2, Action::Raise, 15, Some(c), T0 + 1).unwrap();
    assert_eq!(game.state, GameState::PreFlop);
    assert_eq!(game.current_bet_p1, 5);
    assert_eq!(game.current_bet_p2, 15);

    // the call equalizes them: the round advances at once and the round
    // bets reset
    game.act(&P1, Action::Call, 0, Some(c), T0 + 2).unwrap();
    assert_eq!(game.state, GameState::FlopBetting);
    assert_eq!(game.current_bet_p1, 0);
    assert_eq!(game.current_bet_p2, 0);
    assert_eq!(game.board_revealed, 3);
}

#[test]
fn test_showdown_and_money_conservation() {
    let env = soroban_sdk::Env::default();
    let mut game = game_after_reveal(&env, [1u8; 32], [2u8; 32]);
    let cfg = test_config();
    game.post_blinds(&cfg, T0).unwrap();

    let cards1: [u32; 2] = [7, 8];
    let cards2: [u32; 2] = [9, 10];
    let mut buf1 = [0u8; 32];
    buf1[0] = cards1[0] as u8;
    buf1[1] = cards1[1] as u8;
    let mut buf2 = [0u8; 32];
    buf2[0] = cards2[0] as u8;
    buf2[1] = cards2[1] as u8;
    let commitment1 = sha256(&env, &buf1);
    let commitment2 = sha256(&env, &buf2);

    // pre-flop: the big blind raises with their commitment, the small blind
    // calls with theirs; then the dealer checks down every later street
    game.act(&P2, Action::Raise, 15, Some(commitment2), T0 + 1).unwrap();
    game.act(&P1, Action::Call, 0, Some(commitment1), T0 + 2).unwrap();
    assert_eq!(game.state, GameState::FlopBetting);
    game.act(&P1, Action::Check, 0, None, T0 + 3).unwrap();
    assert_eq!(game.state, GameState::TurnBetting);
    game.act(&P1, Action::Check, 0, None, T0 + 4).unwrap();
    assert_eq!(game.state, GameState::RiverBetting);
    game.act(&P1, Action::Check, 0, None, T0 + 5).unwrap();
    assert_eq!(game.state, GameState::Showdown);
    assert_eq!(game.board_revealed, 5);

    // the pot holds exactly both buy-ins plus both cumulative contributions
    assert_eq!(game.pot, 2 * game.buy_in + game.total_bet_p1 + game.total_bet_p2);

    // wrong hole cards are caught against the commitment
    let wrong = vec![1u32, 2u32];
    assert_eq!(
        game.check_hand_reveal(&env, &P1, &wrong, 3),
        Err(Error::InvalidCommitment)
    );

    // player1 reveals a rank-3 hand, player2 a rank-5 hand
    let hole1 = vec![cards1[0], cards1[1]];
    let board_hash = game.check_hand_reveal(&env, &P1, &hole1, 3).unwrap();
    assert_eq!(board_hash, game.board_hash(&env));
    game.apply_hand_reveal(&P1, 3, true, T0 + 6).unwrap();
    assert_eq!(game.hand_rank1, Some(3));

    // a second reveal by the same participant is a duplicate
    assert_eq!(
        game.apply_hand_reveal(&P1, 4, true, T0 + 7),
        Err(Error::AlreadyRevealed)
    );
    assert_eq!(game.hand_rank1, Some(3));

    // a rejected attestation changes nothing
    assert_eq!(
        game.apply_hand_reveal(&P2, 5, false, T0 + 8),
        Err(Error::InvalidProof)
    );

    let hole2 = vec![cards2[0], cards2[1]];
    game.check_hand_reveal(&env, &P2, &hole2, 5).unwrap();
    game.apply_hand_reveal(&P2, 5, true, T0 + 9).unwrap();
    assert_eq!(game.state, GameState::Finished);
    assert_eq!(game.winner, Some(P2));

    // settlement splits the pot exactly
    let (payout, rake) = settle::payout_amounts(game.pot, cfg.rake_percentage);
    assert_eq!(payout + rake, game.pot);
    assert_eq!(rake, game.pot * 200 / 10000);
}

#[test]
fn test_equal_ranks_favour_player1() {
    let env = soroban_sdk::Env::default();
    let mut game = game_after_reveal(&env, [1u8; 32], [2u8; 32]);
    let cfg = test_config();
    game.post_blinds(&cfg, T0).unwrap();
    let mut buf = [0u8; 32];
    buf[0] = 7;
    buf[1] = 8;
    let commitment = sha256(&env, &buf);
    game.act(&P2, Action::Raise, 15, Some(commitment), T0 + 1).unwrap();
    game.act(&P1, Action::Call, 0, Some(commitment), T0 + 2).unwrap();
    game.act(&P1, Action::Check, 0, None, T0 + 3).unwrap();
    game.act(&P1, Action::Check, 0, None, T0 + 4).unwrap();
    game.act(&P1, Action::Check, 0, None, T0 + 5).unwrap();
    assert_eq!(game.state, GameState::Showdown);
    game.apply_hand_reveal(&P1, 4, true, T0 + 6).unwrap();
    game.apply_hand_reveal(&P2, 4, true, T0 + 7).unwrap();
    // the documented tie-break: equal claimed ranks go to the first seat
    assert_eq!(game.winner, Some(P1));
}

#[test]
fn test_reset_for_next_hand() {
    let env = soroban_sdk::Env::default();
    let mut game = game_after_reveal(&env, [1u8; 32], [2u8; 32]);
    let cfg = test_config();
    game.post_blinds(&cfg, T0).unwrap();
    game.act(&P2, Action::Fold, 0, None, T0 + 1).unwrap();
    assert_eq!(game.state, GameState::Finished);

    game.reset_for_next_hand(T0 + 2).unwrap();
    assert_eq!(game.state, GameState::ShuffleCommit);
    assert_eq!(game.dealer_position, 1);
    assert_eq!(game.pot, 0);
    assert_eq!(game.board.len(), 0);
    assert!(game.winner.is_none());
    assert!(game.folded.is_none());
    assert!(game.seed_commitment1.is_none());
    assert_eq!(game.player1, P1);
    assert_eq!(game.player2, Some(P2));
}

#[test]
fn test_buy_in_bounds() {
    let table = test_table();
    assert_eq!(
        lobby::create_game(&table, 0, &P1, 99, 0, T0).err(),
        Some(Error::BuyInTooLow)
    );
    assert_eq!(
        lobby::create_game(&table, 0, &P1, 1_000_001, 0, T0).err(),
        Some(Error::BuyInTooHigh)
    );
}

#[test]
fn test_join_errors() {
    let table = test_table();
    let mut game = lobby::create_game(&table, 0, &P1, 1000, 0, T0).unwrap();
    assert_eq!(game.join_game(&P1, T0), Err(Error::CannotPlaySelf));
    game.join_game(&P2, T0).unwrap();
    let p3 = [33u8; 32];
    assert_eq!(game.join_game(&p3, T0), Err(Error::InvalidState));
}

#[test]
fn test_start_game_errors() {
    let table = test_table();
    assert_eq!(
        lobby::start_game(7, &table, 0, &P1, &P1, 1000, false, T0).err(),
        Some(Error::CannotPlaySelf)
    );
    assert_eq!(
        lobby::start_game(7, &table, 0, &P1, &P2, 1000, true, T0).err(),
        Some(Error::GameFull)
    );
    let game = lobby::start_game(7, &table, 0, &P1, &P2, 1000, false, T0).unwrap();
    assert_eq!(game.id, 7);
    assert_eq!(game.pot, 2000);
    assert_eq!(game.state, GameState::ShuffleCommit);
}

#[test]
fn test_sit_at_table_mismatched_buy_in() {
    let table = test_table();
    let r1 = lobby::sit_at_table(&table, 0, None, &P1, 1000, 0, T0).unwrap();
    let session = match r1 {
        lobby::SitOutcome::Wait(s) => s,
        lobby::SitOutcome::Start(_) => panic!("expected a waiting seat"),
    };
    assert_eq!(
        lobby::sit_at_table(&table, 0, Some(&session), &P2, 500, 1, T0).err(),
        Some(Error::InvalidAmount)
    );
    assert_eq!(
        lobby::sit_at_table(&table, 0, Some(&session), &P1, 1000, 1, T0).err(),
        Some(Error::CannotPlaySelf)
    );
}

#[test]
fn test_chat_message_length() {
    let short = vec![b'a'; 280];
    assert!(lobby::check_chat_message(&short).is_ok());
    let long = vec![b'a'; 281];
    assert_eq!(lobby::check_chat_message(&long), Err(Error::MessageTooLong));
}

#[test]
fn test_timeout_errors() {
    let env = soroban_sdk::Env::default();
    let mut game = new_joined_game();
    let cfg = test_config();
    // dealing phase: no timeout applies
    let mut dealt = game_after_reveal(&env, [1u8; 32], [2u8; 32]);
    assert_eq!(dealt.advance_timeout(&cfg, T0 + 9999), Err(Error::NoTimeoutApplicable));
    // finished and cancelled games report their terminal state
    game.advance_timeout(&cfg, T0 + 3601).unwrap();
    assert_eq!(game.state, GameState::Cancelled);
    assert_eq!(game.advance_timeout(&cfg, T0 + 9999), Err(Error::GameCancelled));
}
