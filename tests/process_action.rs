use rps::commitment::{create_commitment, create_entry_proof};
use rps::logic::{process_action, Actions, GameConfig, GameState, PlayerState, Winner, RPS};
use rps::pubkey::Pubkey;

fn unique_key() -> Pubkey {
    Pubkey::new_from_array(solana_program::pubkey::Pubkey::new_unique().to_bytes())
}

#[test]
fn logic_test_process_action() {
    let state = GameState::Initialized;

    let state_pubkey = unique_key();
    let player_1_pubkey = unique_key();
    let salt = 36;
    let commitment = create_commitment(player_1_pubkey, salt, RPS::Rock);
    let player_2_pubkey = unique_key();
    let usdc_mint = unique_key();
    let slot: u64 = 0;

    let state = {
        let action = Actions::CreateGame {
            player_1_pubkey,
            commitment,
            config: GameConfig { wager_amount: 10, mint: usdc_mint, entry_proof: None },
        };
        let expected = GameState::AcceptingChallenge {
            config: GameConfig { wager_amount: 10, mint: usdc_mint, entry_proof: None },
            player_1: PlayerState::Committed { pubkey: player_1_pubkey, commitment },
            expiry_slot: 600,
        };
        assert_eq!(process_action(state_pubkey, state, action, slot), Ok(expected));
        expected
    };

    let state = {
        let action = Actions::JoinGame { player_2_pubkey, choice: RPS::Paper, secret: None };
        let expected = GameState::AcceptingReveal {
            player_1: PlayerState::Committed { pubkey: player_1_pubkey, commitment },
            player_2: PlayerState::Revealed { pubkey: player_2_pubkey, choice: RPS::Paper },
            config: GameConfig { wager_amount: 10, mint: usdc_mint, entry_proof: None },
            expiry_slot: 600,
        };
        assert_eq!(process_action(state_pubkey, state, action, slot), Ok(expected));
        expected
    };

    let state = {
        let action = Actions::Reveal { player_1_pubkey, salt, choice: RPS::Rock };
        let expected = GameState::AcceptingSettle {
            result: Winner::P2,
            player_1: PlayerState::Revealed { pubkey: player_1_pubkey, choice: RPS::Rock },
            player_2: PlayerState::Revealed { pubkey: player_2_pubkey, choice: RPS::Paper },
            config: GameConfig { wager_amount: 10, mint: usdc_mint, entry_proof: None },
        };
        assert_eq!(process_action(state_pubkey, state, action, slot), Ok(expected));
        expected
    };

    let _state = {
        let action = Actions::Settle;
        let expected = GameState::Settled {
            result: Winner::P2,
            player_1: PlayerState::Revealed { pubkey: player_1_pubkey, choice: RPS::Rock },
            player_2: PlayerState::Revealed { pubkey: player_2_pubkey, choice: RPS::Paper },
            config: GameConfig { wager_amount: 10, mint: usdc_mint, entry_proof: None },
        };
        assert_eq!(process_action(state_pubkey, state, action, slot), Ok(expected));
        expected
    };
}

#[test]
fn logic_test_process_action_with_secret() {
    let state = GameState::Initialized;

    let state_pubkey = unique_key();
    let player_1_pubkey = unique_key();
    let salt = 36;
    let commitment = create_commitment(player_1_pubkey, salt, RPS::Rock);
    let player_2_pubkey = unique_key();
    let usdc_mint = unique_key();
    let slot: u64 = 0;
    let secret = Some(8238538u64);
    let entry_proof = Some(create_entry_proof(state_pubkey, 8238538u64));

    let state = {
        let action = Actions::CreateGame {
            player_1_pubkey,
            commitment,
            config: GameConfig { wager_amount: 10, mint: usdc_mint, entry_proof },
        };
        let expected = GameState::AcceptingChallenge {
            config: GameConfig { wager_amount: 10, mint: usdc_mint, entry_proof },
            player_1: PlayerState::Committed { pubkey: player_1_pubkey, commitment },
            expiry_slot: 600,
        };
        assert_eq!(process_action(state_pubkey, state, action, slot), Ok(expected));
        expected
    };

    let state = {
        let action = Actions::JoinGame { player_2_pubkey, choice: RPS::Paper, secret };
        let expected = GameState::AcceptingReveal {
            player_1: PlayerState::Committed { pubkey: player_1_pubkey, commitment },
            player_2: PlayerState::Revealed { pubkey: player_2_pubkey, choice: RPS::Paper },
            config: GameConfig { wager_amount: 10, mint: usdc_mint, entry_proof },
            expiry_slot: 600,
        };
        assert_eq!(process_action(state_pubkey, state, action, slot), Ok(expected));
        expected
    };

    let _state = {
        let action = Actions::Reveal { player_1_pubkey, salt, choice: RPS::Rock };
        let expected = GameState::AcceptingSettle {
            result: Winner::P2,
            player_1: PlayerState::Revealed { pubkey: player_1_pubkey, choice: RPS::Rock },
            player_2: PlayerState::Revealed { pubkey: player_2_pubkey, choice: RPS::Paper },
            config: GameConfig { wager_amount: 10, mint: usdc_mint, entry_proof },
        };
        assert_eq!(process_action(state_pubkey, state, action, slot), Ok(expected));
        expected
    };
}

#[test]
fn lib_test_process_action() {
    let state = GameState::Initialized;

    let state_pubkey = unique_key();
    let player_1_pubkey = unique_key();
    let salt = 36;
    let commitment = create_commitment(player_1_pubkey, salt, RPS::Rock);
    let player_2_pubkey = unique_key();
    let usdc_mint = unique_key();
    let slot: u64 = 0;
    let config = GameConfig { wager_amount: 10, mint: usdc_mint, entry_proof: None };

    let state = {
        let action = Actions::CreateGame { player_1_pubkey, commitment, config };
        let expected = GameState::AcceptingChallenge {
            config,
            player_1: PlayerState::Committed { pubkey: player_1_pubkey, commitment },
            expiry_slot: 600,
        };
        assert_eq!(process_action(state_pubkey, state, action, slot), Ok(expected));
        expected
    };

    let state = {
        let action = Actions::JoinGame { player_2_pubkey, choice: RPS::Paper, secret: None };
        let expected = GameState::AcceptingReveal {
            player_1: PlayerState::Committed { pubkey: player_1_pubkey, commitment },
            player_2: PlayerState::Revealed { pubkey: player_2_pubkey, choice: RPS::Paper },
            config,
            expiry_slot: 600,
        };
        assert_eq!(process_action(state_pubkey, state, action, slot), Ok(expected));
        expected
    };

    let _state = {
        let action = Actions::Reveal { player_1_pubkey, salt, choice: RPS::Rock };
        let expected = GameState::AcceptingSettle {
            result: Winner::P2,
            player_1: PlayerState::Revealed { pubkey: player_1_pubkey, choice: RPS::Rock },
            player_2: PlayerState::Revealed { pubkey: player_2_pubkey, choice: RPS::Paper },
            config,
        };
        assert_eq!(process_action(state_pubkey, state, action, slot), Ok(expected));
        expected
    };
}

#[test]
fn lib_test_process_action_with_secret() {
    let state = GameState::Initialized;

    let state_pubkey = unique_key();
    let player_1_pubkey = unique_key();
    let salt = 36;
    let commitment = create_commitment(player_1_pubkey, salt, RPS::Rock);
    let player_2_pubkey = unique_key();
    let usdc_mint = unique_key();
    let slot: u64 = 0;
    let secret = Some(8238538u64);
    let entry_proof = Some(create_entry_proof(state_pubkey, 8238538u64));
    let config = GameConfig { wager_amount: 10, mint: usdc_mint, entry_proof };

    let state = {
        let action = Actions::CreateGame { player_1_pubkey, commitment, config };
        let expected = GameState::AcceptingChallenge {
            config,
            player_1: PlayerState::Committed { pubkey: player_1_pubkey, commitment },
            expiry_slot: 600,
        };
        assert_eq!(process_action(state_pubkey, state, action, slot), Ok(expected));
        expected
    };

    let state = {
        let action = Actions::JoinGame { player_2_pubkey, choice: RPS::Paper, secret };
        let expected = GameState::AcceptingReveal {
            player_1: PlayerState::Committed { pubkey: player_1_pubkey, commitment },
            player_2: PlayerState::Revealed { pubkey: player_2_pubkey, choice: RPS::Paper },
            config,
            expiry_slot: 600,
        };
        assert_eq!(process_action(state_pubkey, state, action, slot), Ok(expected));
        expected
    };

    let _state = {
        let action = Actions::Reveal { player_1_pubkey, salt, choice: RPS::Rock };
        let expected = GameState::AcceptingSettle {
            result: Winner::P2,
            player_1: PlayerState::Revealed { pubkey: player_1_pubkey, choice: RPS::Rock },
            player_2: PlayerState::Revealed { pubkey: player_2_pubkey, choice: RPS::Paper },
            config,
        };
        assert_eq!(process_action(state_pubkey, state, action, slot), Ok(expected));
        expected
    };
}
