use vstd::prelude::*;

use crate::commitment::{commitment_of, entry_proof_of, verify_commitment, verify_entry};
use crate::error::RpsError;
use crate::pubkey::Pubkey;

verus! {

/// How many slots a game waits for the next move: five minutes at two slots a second.
pub const GAME_WINDOW: u64 = 600;

/// A hand.
#[derive(Clone, Copy, Debug, PartialEq, Eq, Structural)]
pub enum RPS {
    Rock,
    Paper,
    Scissors,
}

/// The byte that stands for a hand in a commitment.
pub open spec fn choice_byte(choice: RPS) -> u8 {
    match choice {
        RPS::Rock => 0,
        RPS::Paper => 1,
        RPS::Scissors => 2,
    }
}

impl From<RPS> for u8 {
    fn from(rps: RPS) -> (r: u8) {
        match rps {
            RPS::Rock => 0,
            RPS::Paper => 1,
            RPS::Scissors => 2,
        }
    }
}

impl vstd::std_specs::convert::FromSpecImpl<RPS> for u8 {
    open spec fn obeys_from_spec() -> bool {
        true
    }

    open spec fn from_spec(v: RPS) -> u8 {
        choice_byte(v)
    }
}

/// Who won a game.
#[derive(Clone, Copy, Debug, PartialEq, Eq, Structural)]
pub enum Winner {
    P1,
    P2,
    TIE,
}

/// The code that stands for a result.
pub open spec fn winner_byte(w: Winner) -> u8 {
    match w {
        Winner::P1 => 0,
        Winner::P2 => 1,
        Winner::TIE => 2,
    }
}

impl From<Winner> for u8 {
    fn from(result: Winner) -> (r: u8) {
        match result {
            Winner::P1 => 0,
            Winner::P2 => 1,
            Winner::TIE => 2,
        }
    }
}

impl vstd::std_specs::convert::FromSpecImpl<Winner> for u8 {
    open spec fn obeys_from_spec() -> bool {
        true
    }

    open spec fn from_spec(v: Winner) -> u8 {
        winner_byte(v)
    }
}

/// Rock beats scissors, scissors beat paper, paper beats rock.
pub open spec fn beats(a: RPS, b: RPS) -> bool {
    ||| a == RPS::Rock && b == RPS::Scissors
    ||| a == RPS::Scissors && b == RPS::Paper
    ||| a == RPS::Paper && b == RPS::Rock
}

/// The result of a game in which player one shows `p1` and player two `p2`.
pub open spec fn winner_spec(p1: RPS, p2: RPS) -> Winner {
    if beats(p1, p2) {
        Winner::P1
    } else if beats(p2, p1) {
        Winner::P2
    } else {
        Winner::TIE
    }
}

/// Decides a game from the two hands.
pub fn winner(p1: RPS, p2: RPS) -> (r: Winner)
    ensures
        r == winner_spec(p1, p2),
        r == Winner::P1 <==> beats(p1, p2),
        r == Winner::P2 <==> beats(p2, p1),
        r == Winner::TIE <==> p1 == p2,
{
    match (p1, p2) {
        (RPS::Rock, RPS::Scissors) => Winner::P1,
        (RPS::Paper, RPS::Rock) => Winner::P1,
        (RPS::Scissors, RPS::Paper) => Winner::P1,
        (RPS::Rock, RPS::Paper) => Winner::P2,
        (RPS::Paper, RPS::Scissors) => Winner::P2,
        (RPS::Scissors, RPS::Rock) => Winner::P2,
        _ => Winner::TIE,
    }
}

/// What is known of a player: a hidden commitment, or a revealed hand.
#[derive(Clone, Copy, Debug, PartialEq, Eq)]
pub enum PlayerState {
    Committed { pubkey: Pubkey, commitment: [u8; 32] },
    Revealed { pubkey: Pubkey, choice: RPS },
}

impl PlayerState {
    pub open spec fn key(&self) -> Pubkey {
        match *self {
            PlayerState::Committed { pubkey, .. } => pubkey,
            PlayerState::Revealed { pubkey, .. } => pubkey,
        }
    }

    pub open spec fn shown(&self) -> Option<RPS> {
        match *self {
            PlayerState::Committed { .. } => None,
            PlayerState::Revealed { choice, .. } => Some(choice),
        }
    }

    /// The player's address.
    pub fn pubkey(&self) -> (r: Pubkey)
        ensures
            r == self.key(),
    {
        match *self {
            PlayerState::Committed { pubkey, .. } => pubkey,
            PlayerState::Revealed { pubkey, .. } => pubkey,
        }
    }

    /// The player's hand once revealed, `None` while it is still committed.
    pub fn choice_or_unrevealed(&self) -> (r: Option<RPS>)
        ensures
            r == self.shown(),
    {
        match *self {
            PlayerState::Committed { .. } => None,
            PlayerState::Revealed { choice, .. } => Some(choice),
        }
    }

    /// Whether two player records are the same in every field.
    pub fn same_as(&self, other: &PlayerState) -> (r: bool)
        ensures
            r == (*self == *other),
    {
        match (*self, *other) {
            (
                PlayerState::Committed { pubkey: k1, commitment: c1 },
                PlayerState::Committed { pubkey: k2, commitment: c2 },
            ) => {
                let r = k1 == k2 && crate::pubkey::bytes32_eq(&c1, &c2);
                proof {
                    if r {
                        assert(k1.bytes@ =~= k2.bytes@);
                        assert(k1.bytes == k2.bytes);
                        assert(c1 == c2);
                    }
                }
                r
            },
            (
                PlayerState::Revealed { pubkey: k1, choice: h1 },
                PlayerState::Revealed { pubkey: k2, choice: h2 },
            ) => {
                let r = k1 == k2 && h1 == h2;
                proof {
                    if r {
                        assert(k1.bytes == k2.bytes);
                    }
                }
                r
            },
            _ => false,
        }
    }
}

/// The fixed terms of a game.
#[derive(Clone, Copy, Debug, PartialEq, Eq)]
pub struct GameConfig {
    pub wager_amount: u64,
    pub mint: Pubkey,
    /// Present for a private game: the hash that a joining player's secret must reproduce.
    pub entry_proof: Option<[u8; 32]>,
}

/// Where a game stands.
#[derive(Clone, Copy, Debug, PartialEq, Eq)]
pub enum GameState {
    Initialized,
    AcceptingChallenge { config: GameConfig, player_1: PlayerState, expiry_slot: u64 },
    AcceptingReveal {
        player_1: PlayerState,
        player_2: PlayerState,
        config: GameConfig,
        expiry_slot: u64,
    },
    AcceptingSettle {
        result: Winner,
        player_1: PlayerState,
        player_2: PlayerState,
        config: GameConfig,
    },
    Settled { result: Winner, player_1: PlayerState, player_2: PlayerState, config: GameConfig },
}

/// What a caller asks of a game.
#[derive(Clone, Copy, Debug, PartialEq, Eq)]
pub enum Actions {
    CreateGame { player_1_pubkey: Pubkey, commitment: [u8; 32], config: GameConfig },
    JoinGame { player_2_pubkey: Pubkey, choice: RPS, secret: Option<u64> },
    Reveal { player_1_pubkey: Pubkey, salt: u64, choice: RPS },
    ExpireGame { player_pubkey: Pubkey },
    Settle,
}

/// The shapes of the player records that each state admits: player one
/// stays committed until the reveal, player two is revealed from the moment
/// they join, and a decided game either has both sides revealed by play or
/// is an unmatched challenge whose creator stands on both sides.
pub open spec fn state_wf(state: GameState) -> bool {
    match state {
        GameState::Initialized => true,
        GameState::AcceptingChallenge { player_1, .. } => player_1 is Committed,
        GameState::AcceptingReveal { player_1, player_2, .. } => player_1 is Committed
            && player_2 is Revealed,
        GameState::AcceptingSettle { result, player_1, player_2, .. } => decided_wf(
            result,
            player_1,
            player_2,
        ),
        GameState::Settled { result, player_1, player_2, .. } => decided_wf(
            result,
            player_1,
            player_2,
        ),
    }
}

/// The records of a decided game: player two revealed, or an unmatched
/// challenge handed back to player one.
pub open spec fn decided_wf(result: Winner, player_1: PlayerState, player_2: PlayerState) -> bool {
    ||| player_2 is Revealed
    ||| result == Winner::P1 && player_1 is Committed && player_1 == player_2
}

/// The next state for `action` at `slot`, where `credential_ok` says whether
/// the action's secret matched: the entry secret of a join into a private
/// game, or the salt and hand of a reveal. Other actions ignore it.
pub open spec fn transition_spec(
    state: GameState,
    action: Actions,
    slot: u64,
    credential_ok: bool,
) -> Result<GameState, RpsError> {
    match state {
        GameState::Initialized => match action {
            Actions::CreateGame { player_1_pubkey, commitment, config } => {
                if slot + GAME_WINDOW > u64::MAX {
                    Err(RpsError::MathOverflow)
                } else {
                    Ok(
                        GameState::AcceptingChallenge {
                            config,
                            player_1: PlayerState::Committed { pubkey: player_1_pubkey, commitment },
                            expiry_slot: (slot + GAME_WINDOW) as u64,
                        },
                    )
                }
            },
            _ => Err(RpsError::InvalidTransition),
        },
        GameState::AcceptingChallenge { config, player_1, expiry_slot } => match action {
            Actions::JoinGame { player_2_pubkey, choice, secret } => {
                if slot > expiry_slot {
                    Err(RpsError::ChallengeExpired)
                } else if config.entry_proof is Some && !credential_ok {
                    Err(RpsError::InvalidEntrySecret)
                } else if slot + GAME_WINDOW > u64::MAX {
                    Err(RpsError::MathOverflow)
                } else {
                    Ok(
                        GameState::AcceptingReveal {
                            player_1,
                            player_2: PlayerState::Revealed { pubkey: player_2_pubkey, choice },
                            config,
                            expiry_slot: (slot + GAME_WINDOW) as u64,
                        },
                    )
                }
            },
            Actions::ExpireGame { player_pubkey } => {
                if player_1 is Committed {
                    if slot <= expiry_slot {
                        Err(RpsError::ChallengeNotExpired)
                    } else if player_pubkey != player_1.key() {
                        Err(RpsError::WrongPlayer)
                    } else {
                        Ok(
                            GameState::AcceptingSettle {
                                result: Winner::P1,
                                player_1,
                                player_2: player_1,
                                config,
                            },
                        )
                    }
                } else {
                    Err(RpsError::InvalidTransition)
                }
            },
            _ => Err(RpsError::InvalidTransition),
        },
        GameState::AcceptingReveal { player_1, player_2, config, expiry_slot } => match action {
            Actions::Reveal { player_1_pubkey, salt, choice } => {
                if player_1 is Committed && player_2 is Revealed {
                    if slot > expiry_slot {
                        Err(RpsError::ChallengeExpired)
                    } else if player_1.key() != player_1_pubkey {
                        Err(RpsError::WrongPlayer)
                    } else if !credential_ok {
                        Err(RpsError::InvalidCommitment)
                    } else {
                        Ok(
                            GameState::AcceptingSettle {
                                result: winner_spec(choice, player_2->Revealed_choice),
                                player_1: PlayerState::Revealed { pubkey: player_1.key(), choice },
                                player_2,
                                config,
                            },
                        )
                    }
                } else {
                    Err(RpsError::InvalidTransition)
                }
            },
            Actions::ExpireGame { player_pubkey } => {
                if player_2 is Revealed {
                    if slot <= expiry_slot {
                        Err(RpsError::ChallengeNotExpired)
                    } else if player_pubkey != player_2.key() {
                        Err(RpsError::WrongPlayer)
                    } else {
                        Ok(
                            GameState::AcceptingSettle {
                                result: Winner::P2,
                                player_1,
                                player_2,
                                config,
                            },
                        )
                    }
                } else {
                    Err(RpsError::InvalidTransition)
                }
            },
            _ => Err(RpsError::InvalidTransition),
        },
        GameState::AcceptingSettle { result, player_1, player_2, config } => match action {
            Actions::Settle => Ok(GameState::Settled { result, player_1, player_2, config }),
            _ => Err(RpsError::InvalidTransition),
        },
        GameState::Settled { .. } => Err(RpsError::InvalidTransition),
    }
}

/// Whether the secret that `action` carries matches what `state` holds, for
/// the game at `state_pubkey`. True for actions that carry none.
pub open spec fn credential_spec(state_pubkey: Pubkey, state: GameState, action: Actions) -> bool {
    match state {
        GameState::AcceptingChallenge { config, .. } => match action {
            Actions::JoinGame { secret, .. } => match config.entry_proof {
                None => true,
                Some(proof) => match secret {
                    None => false,
                    Some(s) => proof@ == entry_proof_of(state_pubkey, s),
                },
            },
            _ => true,
        },
        GameState::AcceptingReveal { player_1, .. } => match player_1 {
            PlayerState::Committed { commitment, .. } => match action {
                Actions::Reveal { player_1_pubkey, salt, choice } => commitment@ == commitment_of(
                    player_1_pubkey,
                    salt,
                    choice,
                ),
                _ => true,
            },
            _ => true,
        },
        _ => true,
    }
}

/// The next state of the game at `state_pubkey` for `action` at `slot`.
pub open spec fn process_spec(
    state_pubkey: Pubkey,
    state: GameState,
    action: Actions,
    slot: u64,
) -> Result<GameState, RpsError> {
    transition_spec(state, action, slot, credential_spec(state_pubkey, state, action))
}

/// Applies `action` to `state` at `slot`, given whether the action's secret
/// matched (see `transition_spec`).
pub fn transition(state: GameState, action: Actions, slot: u64, credential_ok: bool) -> (r: Result<
    GameState,
    RpsError,
>)
    ensures
        r == transition_spec(state, action, slot, credential_ok),
        state_wf(state) ==> (r matches Ok(next) ==> state_wf(next)),
{
    match state {
        GameState::Initialized => match action {
            Actions::CreateGame { player_1_pubkey, commitment, config } => {
                if slot > u64::MAX - GAME_WINDOW {
                    return Err(RpsError::MathOverflow);
                }
                Ok(
                    GameState::AcceptingChallenge {
                        config,
                        player_1: PlayerState::Committed { pubkey: player_1_pubkey, commitment },
                        expiry_slot: slot + GAME_WINDOW,
                    },
                )
            },
            _ => Err(RpsError::InvalidTransition),
        },
        GameState::AcceptingChallenge { config, player_1, expiry_slot } => match action {
            Actions::JoinGame { player_2_pubkey, choice, secret } => {
                if slot > expiry_slot {
                    return Err(RpsError::ChallengeExpired);
                }
                if config.entry_proof.is_some() && !credential_ok {
                    return Err(RpsError::InvalidEntrySecret);
                }
                if slot > u64::MAX - GAME_WINDOW {
                    return Err(RpsError::MathOverflow);
                }
                Ok(
                    GameState::AcceptingReveal {
                        player_1,
                        player_2: PlayerState::Revealed { pubkey: player_2_pubkey, choice },
                        config,
                        expiry_slot: slot + GAME_WINDOW,
                    },
                )
            },
            Actions::ExpireGame { player_pubkey } => match player_1 {
                PlayerState::Committed { pubkey: p1, .. } => {
                    if slot <= expiry_slot {
                        return Err(RpsError::ChallengeNotExpired);
                    }
                    if player_pubkey != p1 {
                        return Err(RpsError::WrongPlayer);
                    }
                    Ok(
                        GameState::AcceptingSettle {
                            result: Winner::P1,
                            player_1,
                            player_2: player_1,
                            config,
                        },
                    )
                },
                _ => Err(RpsError::InvalidTransition),
            },
            _ => Err(RpsError::InvalidTransition),
        },
        GameState::AcceptingReveal { player_1, player_2, config, expiry_slot } => match action {
            Actions::Reveal { player_1_pubkey, salt, choice } => match (player_1, player_2) {
                (
                    PlayerState::Committed { pubkey: p1, .. },
                    PlayerState::Revealed { choice: player_2_choice, .. },
                ) => {
                    if slot > expiry_slot {
                        return Err(RpsError::ChallengeExpired);
                    }
                    if p1 != player_1_pubkey {
                        return Err(RpsError::WrongPlayer);
                    }
                    if !credential_ok {
                        return Err(RpsError::InvalidCommitment);
                    }
                    let result = winner(choice, player_2_choice);
                    Ok(
                        GameState::AcceptingSettle {
                            result,
                            player_1: PlayerState::Revealed { pubkey: p1, choice },
                            player_2,
                            config,
                        },
                    )
                },
                _ => Err(RpsError::InvalidTransition),
            },
            Actions::ExpireGame { player_pubkey } => match player_2 {
                PlayerState::Revealed { pubkey: p2, .. } => {
                    if slot <= expiry_slot {
                        return Err(RpsError::ChallengeNotExpired);
                    }
                    if player_pubkey != p2 {
                        return Err(RpsError::WrongPlayer);
                    }
                    Ok(GameState::AcceptingSettle { result: Winner::P2, player_1, player_2, config })
                },
                _ => Err(RpsError::InvalidTransition),
            },
            _ => Err(RpsError::InvalidTransition),
        },
        GameState::AcceptingSettle { result, player_1, player_2, config } => match action {
            Actions::Settle => Ok(GameState::Settled { result, player_1, player_2, config }),
            _ => Err(RpsError::InvalidTransition),
        },
        GameState::Settled { .. } => Err(RpsError::InvalidTransition),
    }
}

/// Checks the secret that `action` carries against what `state` holds.
fn check_credential(state_pubkey: Pubkey, state: &GameState, action: &Actions) -> (r: bool)
    ensures
        r == credential_spec(state_pubkey, *state, *action),
{
    match *state {
        GameState::AcceptingChallenge { config, .. } => match *action {
            Actions::JoinGame { secret, .. } => match config.entry_proof {
                None => true,
                Some(proof) => match secret {
                    None => false,
                    Some(s) => verify_entry(state_pubkey, proof, s),
                },
            },
            _ => true,
        },
        GameState::AcceptingReveal { player_1, .. } => match player_1 {
            PlayerState::Committed { commitment, .. } => match *action {
                Actions::Reveal { player_1_pubkey, salt, choice } => verify_commitment(
                    player_1_pubkey,
                    commitment,
                    salt,
                    choice,
                ),
                _ => true,
            },
            _ => true,
        },
        _ => true,
    }
}

/// Applies `action` to the game at `state_pubkey`, in `state`, at `slot`.
/// A join into a private game must carry the secret of its entry proof; a
/// reveal must reproduce player one's commitment.
pub fn process_action(state_pubkey: Pubkey, state: GameState, action: Actions, slot: u64) -> (r:
    Result<GameState, RpsError>)
    ensures
        r == process_spec(state_pubkey, state, action, slot),
        state_wf(state) ==> (r matches Ok(next) ==> state_wf(next)),
{
    let credential_ok = check_credential(state_pubkey, &state, &action);
    transition(state, action, slot, credential_ok)
}

/// The slot after which a waiting game may be expired.
pub open spec fn expiry_of(state: GameState) -> Option<u64> {
    match state {
        GameState::AcceptingChallenge { expiry_slot, .. } => Some(expiry_slot),
        GameState::AcceptingReveal { expiry_slot, .. } => Some(expiry_slot),
        _ => None,
    }
}

/// The one player who may expire a waiting game: player one while nobody has
/// joined, player two while player one has not revealed.
pub open spec fn expirer_of(state: GameState) -> Option<Pubkey> {
    match state {
        GameState::AcceptingChallenge { player_1, .. } => match player_1 {
            PlayerState::Committed { pubkey, .. } => Some(pubkey),
            _ => None,
        },
        GameState::AcceptingReveal { player_2, .. } => match player_2 {
            PlayerState::Revealed { pubkey, .. } => Some(pubkey),
            _ => None,
        },
        _ => None,
    }
}

/// Expiring fails in every state while the window is open, whoever asks;
/// once it has closed, it succeeds exactly for the player it favours. A game
/// that is not waiting cannot be expired at all.
pub proof fn lemma_expiry_rules(state_pubkey: Pubkey, state: GameState, caller: Pubkey, slot: u64)
    ensures
        ({
            let r = process_spec(state_pubkey, state, Actions::ExpireGame { player_pubkey: caller }, slot);
            match expiry_of(state) {
                None => r is Err,
                Some(expiry) => {
                    &&& slot <= expiry ==> r is Err
                    &&& slot > expiry ==> (r is Ok <==> expirer_of(state) == Some(caller))
                },
            }
        }),
{
}

/// A reveal whose salt and hand do not reproduce player one's commitment is
/// rejected, in whatever state and at whatever slot it comes.
pub proof fn lemma_mismatched_reveal_rejected(
    state_pubkey: Pubkey,
    state: GameState,
    caller: Pubkey,
    salt: u64,
    choice: RPS,
    slot: u64,
)
    requires
        state matches GameState::AcceptingReveal { player_1, .. } ==> (player_1 matches PlayerState::Committed { commitment, .. } ==> commitment@
            != commitment_of(caller, salt, choice)),
    ensures
        process_spec(
            state_pubkey,
            state,
            Actions::Reveal { player_1_pubkey: caller, salt, choice },
            slot,
        ) is Err,
{
}

/// The hands form a cycle: of two different hands exactly one beats the
/// other, no hand beats itself, and swapping the players swaps the winner.
pub proof fn lemma_winner_rules(a: RPS, b: RPS)
    ensures
        !beats(a, a),
        a != b ==> (beats(a, b) != beats(b, a)),
        beats(a, b) ==> !beats(b, a),
        winner_spec(a, b) == Winner::TIE <==> a == b,
        winner_spec(a, b) == Winner::P1 <==> winner_spec(b, a) == Winner::P2,
{
}

/// Revealing what was committed passes: within the window, player one's
/// reveal of the salt and hand behind their commitment is accepted and decides
/// the game by the two hands.
pub proof fn lemma_commitment_round_trip(
    state_pubkey: Pubkey,
    player_1: Pubkey,
    salt: u64,
    choice: RPS,
    commitment: [u8; 32],
    player_2: PlayerState,
    config: GameConfig,
    expiry_slot: u64,
    slot: u64,
)
    requires
        commitment@ == commitment_of(player_1, salt, choice),
        player_2 is Revealed,
        slot <= expiry_slot,
    ensures
        process_spec(
            state_pubkey,
            GameState::AcceptingReveal {
                player_1: PlayerState::Committed { pubkey: player_1, commitment },
                player_2,
                config,
                expiry_slot,
            },
            Actions::Reveal { player_1_pubkey: player_1, salt, choice },
            slot,
        ) == Ok::<GameState, RpsError>(
            GameState::AcceptingSettle {
                result: winner_spec(choice, player_2->Revealed_choice),
                player_1: PlayerState::Revealed { pubkey: player_1, choice },
                player_2,
                config,
            },
        ),
{
}

} // verus!
