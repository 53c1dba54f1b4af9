use rps::commitment::create_commitment;
use rps::error::RpsError;
use rps::game::{
    clean_game, create_game, create_player_info, expire_game, fee_for_wager, join_game,
    payout_for, reveal_game, settle_game, CleanerPolicy, Game, LedgerOutcome, Payout, PlayerInfo,
};
use rps::logic::{GameState, Winner, RPS};
use rps::pubkey::Pubkey;

fn key(n: u8) -> Pubkey {
    Pubkey::new_from_array([n; 32])
}

const GAME: u8 = 8;
const MINT: u8 = 9;

fn info(n: u8) -> PlayerInfo {
    create_player_info(key(n), key(MINT))
}

fn created(wager: u64) -> (Game, PlayerInfo) {
    let commitment = create_commitment(key(1), 36, RPS::Rock);
    let e = create_game(key(GAME), 5, key(MINT), key(1), commitment, wager, None, 0, &info(1)).unwrap();
    (e.game, e.player_info)
}

#[test]
fn scenario_a_paper_beats_rock() {
    let commitment = create_commitment(key(1), 36, RPS::Rock);
    let created =
        create_game(key(GAME), 5, key(MINT), key(1), commitment, 10, None, 0, &info(1)).unwrap();
    assert_eq!(created.deposit, 10);
    assert_eq!(created.game.fee_amount, 0);
    assert_eq!(created.player_info.amount_in_games, 10);
    assert_eq!(created.player_info.lifetime_wagering, 10);
    let joined = join_game(key(GAME), &created.game, key(2), RPS::Paper, None, 3, &info(2)).unwrap();
    assert_eq!(joined.deposit, 10);
    let revealed = reveal_game(key(GAME), &joined.game, key(1), RPS::Rock, 36, 4).unwrap();
    assert!(matches!(revealed.state, GameState::AcceptingSettle { result: Winner::P2, .. }));
    let s = settle_game(key(GAME), &revealed, 5, &created.player_info, &joined.player_info).unwrap();
    assert!(matches!(s.game.state, GameState::Settled { result: Winner::P2, .. }));
    assert_eq!(s.payout, Payout { player_1: 0, player_2: 20, fee: 0 });
    assert_eq!(s.player_1_info.games_lost, 1);
    assert_eq!(s.player_1_info.lifetime_earnings, -10);
    assert_eq!(s.player_1_info.amount_in_games, 0);
    let p2 = s.player_2_info.unwrap();
    assert_eq!(p2.games_won, 1);
    assert_eq!(p2.lifetime_earnings, 10);
    assert_eq!(p2.amount_in_games, 0);
}

#[test]
fn scenario_b_unmatched_game_refunded() {
    let (game, p1) = created(10);
    assert_eq!(expire_game(key(GAME), &game, key(1), 600), Err(RpsError::ChallengeNotExpired));
    let expired = expire_game(key(GAME), &game, key(1), 601).unwrap();
    assert!(matches!(expired.state, GameState::AcceptingSettle { result: Winner::P1, .. }));
    let s = settle_game(key(GAME), &expired, 700, &p1, &p1).unwrap();
    assert_eq!(s.payout, Payout { player_1: 10, player_2: 0, fee: 0 });
    assert_eq!(s.player_2_info, None);
    assert_eq!(s.player_1_info.amount_in_games, 0);
    assert_eq!(s.player_1_info.games_won, 0);
    assert_eq!(s.player_1_info.lifetime_earnings, 0);
}

#[test]
fn fee_is_charged_and_paid_out() {
    assert_eq!(fee_for_wager(10_000), Ok(350));
    assert_eq!(fee_for_wager(10), Ok(0));
    assert_eq!(fee_for_wager(u64::MAX / 350 + 1), Err(RpsError::BetTooLarge));
    let (game, p1) = created(1_000_000);
    assert_eq!(game.fee_amount, 35_000);
    let joined = join_game(key(GAME), &game, key(2), RPS::Rock, None, 1, &info(2)).unwrap();
    let revealed = reveal_game(key(GAME), &joined.game, key(1), RPS::Rock, 36, 2).unwrap();
    let s = settle_game(key(GAME), &revealed, 3, &p1, &joined.player_info).unwrap();
    assert_eq!(s.payout, Payout { player_1: 1_000_000, player_2: 1_000_000, fee: 35_000 });
    assert_eq!(s.player_1_info.games_drawn, 1);
    assert_eq!(s.player_2_info.unwrap().games_drawn, 1);
}

#[test]
fn create_refuses_bad_inputs() {
    let c = [0u8; 32];
    assert_eq!(
        create_game(key(GAME), 5, key(MINT), key(1), c, 10, None, 0, &info(2)).unwrap_err(),
        RpsError::AccountMismatch
    );
    assert_eq!(
        create_game(key(GAME), 5, key(MINT), key(1), c, u64::MAX, None, 0, &info(1)).unwrap_err(),
        RpsError::BetTooLarge
    );
    let mut busy = info(1);
    busy.amount_in_games = u64::MAX - 5;
    assert_eq!(
        create_game(key(GAME), 5, key(MINT), key(1), c, 10, None, 0, &busy).unwrap_err(),
        RpsError::BetTooLarge
    );
}

#[test]
fn settle_refuses_wrong_records_and_states() {
    let (game, p1) = created(10);
    assert_eq!(
        settle_game(key(GAME), &game, 1, &p1, &p1).unwrap_err(),
        RpsError::InvalidTransition
    );
    let joined = join_game(key(GAME), &game, key(2), RPS::Paper, None, 1, &info(2)).unwrap();
    let revealed = reveal_game(key(GAME), &joined.game, key(1), RPS::Rock, 36, 2).unwrap();
    assert_eq!(
        settle_game(key(GAME), &revealed, 3, &p1, &info(3)).unwrap_err(),
        RpsError::AccountMismatch
    );
    assert_eq!(
        settle_game(key(GAME), &revealed, 3, &info(1), &joined.player_info).unwrap_err(),
        RpsError::MathOverflow
    );
}

#[test]
fn player_joining_own_game_is_one_record() {
    let (game, p1) = created(10);
    let joined = join_game(key(GAME), &game, key(1), RPS::Scissors, None, 1, &p1).unwrap();
    assert_eq!(joined.player_info.amount_in_games, 20);
    let revealed = reveal_game(key(GAME), &joined.game, key(1), RPS::Rock, 36, 2).unwrap();
    let r = joined.player_info;
    let s = settle_game(key(GAME), &revealed, 3, &r, &r).unwrap();
    assert_eq!(s.payout, Payout { player_1: 20, player_2: 0, fee: 0 });
    assert_eq!(s.player_2_info, None);
    assert_eq!(s.player_1_info.amount_in_games, 0);
    assert_eq!(s.player_1_info.games_won, 1);
    assert_eq!(s.player_1_info.games_lost, 1);
    assert_eq!(s.player_1_info.lifetime_earnings, 0);
}

#[test]
fn payouts_and_ledger_records() {
    assert_eq!(payout_for(Winner::P1, false, 7, 1), Ok(Payout { player_1: 14, player_2: 0, fee: 1 }));
    assert_eq!(payout_for(Winner::P1, true, 7, 1), Ok(Payout { player_1: 7, player_2: 0, fee: 1 }));
    assert_eq!(payout_for(Winner::P2, false, u64::MAX, 0), Err(RpsError::MathOverflow));
    let mut r = info(1);
    r.amount_in_games = 5;
    assert_eq!(r.record(6, LedgerOutcome::Won), Err(RpsError::MathOverflow));
    let won = r.record(5, LedgerOutcome::Won).unwrap();
    assert_eq!((won.games_won, won.lifetime_earnings, won.amount_in_games), (1, 5, 0));
    r.lifetime_earnings = i64::MIN + 2;
    assert_eq!(r.record(5, LedgerOutcome::Lost), Err(RpsError::MathOverflow));
    assert_eq!(r.stake(u64::MAX), Err(RpsError::BetTooLarge));
    assert_eq!(PlayerInfo::space(), 420);
    assert_eq!(Game::space(), 192);
}

#[test]
fn game_players() {
    let (game, _) = created(10);
    assert_eq!(game.player_1(), Some(key(1)));
    assert_eq!(game.player_2(), None);
    let joined = join_game(key(GAME), &game, key(2), RPS::Paper, None, 1, &info(2)).unwrap();
    assert_eq!(joined.game.player_2(), Some(key(2)));
    let fresh = Game { state: GameState::Initialized, ..game };
    assert_eq!(fresh.player_1(), None);
}

#[test]
fn clean_publishes_the_record() {
    let policy = CleanerPolicy { trusted_loader: key(20), game_cleaner: key(21) };
    let (game, p1) = created(10);
    let joined = join_game(key(GAME), &game, key(2), RPS::Paper, None, 1, &info(2)).unwrap();
    assert_eq!(
        clean_game(&joined.game, key(30), key(21), &policy).unwrap_err(),
        RpsError::InvalidTransition
    );
    let revealed = reveal_game(key(GAME), &joined.game, key(1), RPS::Rock, 36, 2).unwrap();
    let s = settle_game(key(GAME), &revealed, 3, &p1, &joined.player_info).unwrap();
    assert_eq!(clean_game(&s.game, key(30), key(31), &policy).unwrap_err(), RpsError::Unauthorized);
    let event = clean_game(&s.game, key(20), key(31), &policy).unwrap();
    assert_eq!(event.event_name, "game_result");
    assert_eq!(event.event_version, 1);
    assert_eq!(event.player_1, solana_program::pubkey::Pubkey::new_from_array([1; 32]).to_string());
    assert_eq!(event.player_2, solana_program::pubkey::Pubkey::new_from_array([2; 32]).to_string());
    assert_ne!(event.player_1, event.player_2);
    assert_eq!(event.choice_1, Some(RPS::Rock));
    assert_eq!(event.choice_2, Some(RPS::Paper));
    assert_eq!(event.result, Winner::P2);
    assert_eq!(event.wager_amount, 10);
    assert_eq!(event.fee_amount, 0);
    assert!(event.public);
    assert!(clean_game(&s.game, key(30), key(21), &policy).is_ok());
}
