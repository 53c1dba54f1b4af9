use vstd::prelude::*;

use crate::error::RpsError;
use crate::logic::{
    process_action, process_spec, state_wf, Actions, GameConfig, GameState, PlayerState, Winner, RPS,
};
use crate::pubkey::{base58_of, base58_text, Pubkey};

verus! {

/// Player one's origination fee, in basis points of the wager.
pub const PLAYER_1_FEE_BPS: u64 = 350;

/// The fee charged on top of `wager`.
pub open spec fn fee_spec(wager: u64) -> int {
    wager * PLAYER_1_FEE_BPS / 10000
}

/// The origination fee for `wager`; fails where `wager` times the fee rate
/// does not fit in 64 bits.
pub fn fee_for_wager(wager: u64) -> (r: Result<u64, RpsError>)
    ensures
        wager * PLAYER_1_FEE_BPS <= u64::MAX ==> r == Ok::<u64, RpsError>(fee_spec(wager) as u64),
        wager * PLAYER_1_FEE_BPS > u64::MAX ==> r == Err::<u64, RpsError>(RpsError::BetTooLarge),
{
    match wager.checked_mul(PLAYER_1_FEE_BPS) {
        Some(scaled) => Ok(scaled / 10000),
        None => Err(RpsError::BetTooLarge),
    }
}

/// A player's running totals for one asset.
#[derive(Clone, Copy, Debug, PartialEq, Eq)]
pub struct PlayerInfo {
    pub owner: Pubkey,
    pub mint: Pubkey,
    pub games_won: u64,
    pub games_drawn: u64,
    pub games_lost: u64,
    /// Everything ever wagered; never decreases.
    pub lifetime_wagering: u64,
    /// Net winnings; negative after net losses.
    pub lifetime_earnings: i64,
    /// What the player has at stake in games not yet settled.
    pub amount_in_games: u64,
}

/// How a settled game counts for one player.
#[derive(Clone, Copy, Debug, PartialEq, Eq, Structural)]
pub enum LedgerOutcome {
    Won,
    Lost,
    Drawn,
    /// An unmatched game returned to its creator: no contest.
    Refunded,
}

/// A fresh record for `owner` in the asset `mint`.
pub fn create_player_info(owner: Pubkey, mint: Pubkey) -> (r: PlayerInfo)
    ensures
        r == (PlayerInfo {
            owner,
            mint,
            games_won: 0,
            games_drawn: 0,
            games_lost: 0,
            lifetime_wagering: 0,
            lifetime_earnings: 0,
            amount_in_games: 0,
        }),
{
    PlayerInfo {
        owner,
        mint,
        games_won: 0,
        games_drawn: 0,
        games_lost: 0,
        lifetime_wagering: 0,
        lifetime_earnings: 0,
        amount_in_games: 0,
    }
}

impl PlayerInfo {
    /// Room reserved for a record, leaving some for later fields.
    pub fn space() -> (r: usize)
        ensures
            r == 420,
    {
        420
    }

    /// Whether this record is `owner`'s record for `mint`.
    pub open spec fn belongs_to(self, owner: Pubkey, mint: Pubkey) -> bool {
        self.owner == owner && self.mint == mint
    }

    /// The record after the player stakes `amount` in a game.
    pub open spec fn stake_spec(self, amount: u64) -> Result<PlayerInfo, RpsError> {
        if self.amount_in_games + amount > u64::MAX || self.lifetime_wagering + amount > u64::MAX {
            Err(RpsError::BetTooLarge)
        } else {
            Ok(
                PlayerInfo {
                    amount_in_games: (self.amount_in_games + amount) as u64,
                    lifetime_wagering: (self.lifetime_wagering + amount) as u64,
                    ..self
                },
            )
        }
    }

    /// The record after a game with stake `wager` settles with `outcome`.
    pub open spec fn record_spec(self, wager: u64, outcome: LedgerOutcome) -> Result<
        PlayerInfo,
        RpsError,
    > {
        if self.amount_in_games < wager {
            Err(RpsError::MathOverflow)
        } else {
            let base = PlayerInfo { amount_in_games: (self.amount_in_games - wager) as u64, ..self };
            match outcome {
                LedgerOutcome::Refunded => Ok(base),
                LedgerOutcome::Drawn => {
                    if self.games_drawn == u64::MAX {
                        Err(RpsError::MathOverflow)
                    } else {
                        Ok(PlayerInfo { games_drawn: (self.games_drawn + 1) as u64, ..base })
                    }
                },
                LedgerOutcome::Won => {
                    if self.games_won == u64::MAX || self.lifetime_earnings + wager > i64::MAX {
                        Err(RpsError::MathOverflow)
                    } else {
                        Ok(
                            PlayerInfo {
                                games_won: (self.games_won + 1) as u64,
                                lifetime_earnings: (self.lifetime_earnings + wager) as i64,
                                ..base
                            },
                        )
                    }
                },
                LedgerOutcome::Lost => {
                    if self.games_lost == u64::MAX || self.lifetime_earnings - wager < i64::MIN {
                        Err(RpsError::MathOverflow)
                    } else {
                        Ok(
                            PlayerInfo {
                                games_lost: (self.games_lost + 1) as u64,
                                lifetime_earnings: (self.lifetime_earnings - wager) as i64,
                                ..base
                            },
                        )
                    }
                },
            }
        }
    }

    /// Counts `amount` as staked in a game and as wagered.
    pub fn stake(&self, amount: u64) -> (r: Result<PlayerInfo, RpsError>)
        ensures
            r == self.stake_spec(amount),
    {
        if self.amount_in_games > u64::MAX - amount || self.lifetime_wagering > u64::MAX - amount {
            return Err(RpsError::BetTooLarge);
        }
        Ok(
            PlayerInfo {
                amount_in_games: self.amount_in_games + amount,
                lifetime_wagering: self.lifetime_wagering + amount,
                ..*self
            },
        )
    }

    /// Releases the stake `wager` of a settled game and counts its `outcome`.
    pub fn record(&self, wager: u64, outcome: LedgerOutcome) -> (r: Result<PlayerInfo, RpsError>)
        ensures
            r == self.record_spec(wager, outcome),
    {
        if self.amount_in_games < wager {
            return Err(RpsError::MathOverflow);
        }
        let base = PlayerInfo { amount_in_games: self.amount_in_games - wager, ..*self };
        match outcome {
            LedgerOutcome::Refunded => Ok(base),
            LedgerOutcome::Drawn => {
                if self.games_drawn == u64::MAX {
                    return Err(RpsError::MathOverflow);
                }
                Ok(PlayerInfo { games_drawn: self.games_drawn + 1, ..base })
            },
            LedgerOutcome::Won => {
                let earnings = self.lifetime_earnings as i128 + wager as i128;
                if self.games_won == u64::MAX || earnings > i64::MAX as i128 {
                    return Err(RpsError::MathOverflow);
                }
                Ok(
                    PlayerInfo {
                        games_won: self.games_won + 1,
                        lifetime_earnings: earnings as i64,
                        ..base
                    },
                )
            },
            LedgerOutcome::Lost => {
                let earnings = self.lifetime_earnings as i128 - wager as i128;
                if self.games_lost == u64::MAX || earnings < i64::MIN as i128 {
                    return Err(RpsError::MathOverflow);
                }
                Ok(
                    PlayerInfo {
                        games_lost: self.games_lost + 1,
                        lifetime_earnings: earnings as i64,
                        ..base
                    },
                )
            },
        }
    }
}

/// The terms of a game in `state`, once it has been created.
pub open spec fn config_of(state: GameState) -> Option<GameConfig> {
    match state {
        GameState::Initialized => None,
        GameState::AcceptingChallenge { config, .. } => Some(config),
        GameState::AcceptingReveal { config, .. } => Some(config),
        GameState::AcceptingSettle { config, .. } => Some(config),
        GameState::Settled { config, .. } => Some(config),
    }
}

/// A wagered game and its escrow terms.
#[derive(Clone, Copy, Debug, PartialEq, Eq)]
pub struct Game {
    /// The key that makes the game's address unique.
    pub seed: u64,
    pub mint: Pubkey,
    pub wager_amount: u64,
    pub fee_amount: u64,
    pub state: GameState,
}

/// What moves into escrow when a game is created or joined, and the game and
/// ledger record after it.
#[derive(Clone, Copy, Debug, PartialEq, Eq)]
pub struct Entered {
    pub game: Game,
    /// The amount the player pays into the game's escrow.
    pub deposit: u64,
    pub player_info: PlayerInfo,
}

/// What leaves escrow when a game is settled.
#[derive(Clone, Copy, Debug, PartialEq, Eq, Structural)]
pub struct Payout {
    pub player_1: u64,
    pub player_2: u64,
    /// Paid to the fee recipient, whatever the outcome.
    pub fee: u64,
}

/// A settled game, its payouts and its players' ledger records.
#[derive(Clone, Copy, Debug, PartialEq, Eq)]
pub struct Settlement {
    pub game: Game,
    pub payout: Payout,
    pub player_1_info: PlayerInfo,
    /// `None` where both sides of the game are one record, then held in
    /// `player_1_info`: an unmatched game returned to its creator, or a
    /// player who joined their own game.
    pub player_2_info: Option<PlayerInfo>,
}

impl Game {
    /// The player records have the shapes the state admits, and the wager
    /// and fee agree with the terms in the state.
    pub open spec fn wf(self) -> bool {
        &&& state_wf(self.state)
        &&& match config_of(self.state) {
            None => true,
            Some(config) => {
                &&& config.wager_amount == self.wager_amount
                &&& config.mint == self.mint
                &&& self.fee_amount == fee_spec(config.wager_amount)
            },
        }
    }

    pub open spec fn player_1_spec(self) -> Option<Pubkey> {
        match self.state {
            GameState::AcceptingChallenge { player_1, .. } => Some(player_1.key()),
            GameState::AcceptingReveal { player_1, .. } => Some(player_1.key()),
            GameState::AcceptingSettle { player_1, .. } => Some(player_1.key()),
            GameState::Settled { player_1, .. } => Some(player_1.key()),
            _ => None,
        }
    }

    pub open spec fn player_2_spec(self) -> Option<Pubkey> {
        match self.state {
            GameState::AcceptingReveal { player_2, .. } => Some(player_2.key()),
            GameState::AcceptingSettle { player_2, .. } => Some(player_2.key()),
            GameState::Settled { player_2, .. } => Some(player_2.key()),
            _ => None,
        }
    }

    /// Room reserved for a game record.
    pub fn space() -> (r: usize)
        ensures
            r == 192,
    {
        192
    }

    /// Player one's address, once the game is created.
    pub fn player_1(self) -> (r: Option<Pubkey>)
        ensures
            r == self.player_1_spec(),
    {
        match self.state {
            GameState::AcceptingChallenge { player_1, .. } => Some(player_1.pubkey()),
            GameState::AcceptingReveal { player_1, .. } => Some(player_1.pubkey()),
            GameState::AcceptingSettle { player_1, .. } => Some(player_1.pubkey()),
            GameState::Settled { player_1, .. } => Some(player_1.pubkey()),
            _ => None,
        }
    }

    /// Player two's address, once someone has joined.
    pub fn player_2(self) -> (r: Option<Pubkey>)
        ensures
            r == self.player_2_spec(),
    {
        match self.state {
            GameState::AcceptingReveal { player_2, .. } => Some(player_2.pubkey()),
            GameState::AcceptingSettle { player_2, .. } => Some(player_2.pubkey()),
            GameState::Settled { player_2, .. } => Some(player_2.pubkey()),
            _ => None,
        }
    }
}

/// The game that `player` creates, what they pay into escrow (wager and fee),
/// and their ledger record after it.
pub open spec fn create_game_spec(
    game_key: Pubkey,
    game_seed: u64,
    mint: Pubkey,
    player: Pubkey,
    commitment: [u8; 32],
    wager_amount: u64,
    entry_proof: Option<[u8; 32]>,
    slot: u64,
    player_info: PlayerInfo,
) -> Result<Entered, RpsError> {
    let action = Actions::CreateGame {
        player_1_pubkey: player,
        commitment,
        config: GameConfig { wager_amount, mint, entry_proof },
    };
    if !player_info.belongs_to(player, mint) {
        Err(RpsError::AccountMismatch)
    } else if wager_amount * PLAYER_1_FEE_BPS > u64::MAX
        || wager_amount + fee_spec(wager_amount) > u64::MAX {
        Err(RpsError::BetTooLarge)
    } else {
        match process_spec(game_key, GameState::Initialized, action, slot) {
            Err(e) => Err(e),
            Ok(state) => match player_info.stake_spec(wager_amount) {
                Err(e) => Err(e),
                Ok(info) => Ok(
                    Entered {
                        game: Game {
                            seed: game_seed,
                            mint,
                            wager_amount,
                            fee_amount: fee_spec(wager_amount) as u64,
                            state,
                        },
                        deposit: (wager_amount + fee_spec(wager_amount)) as u64,
                        player_info: info,
                    },
                ),
            },
        }
    }
}

/// Creates a game at `game_key` in which `player` commits to a hidden hand
/// and stakes `wager_amount`, plus the origination fee.
pub fn create_game(
    game_key: Pubkey,
    game_seed: u64,
    mint: Pubkey,
    player: Pubkey,
    commitment: [u8; 32],
    wager_amount: u64,
    entry_proof: Option<[u8; 32]>,
    slot: u64,
    player_info: &PlayerInfo,
) -> (r: Result<Entered, RpsError>)
    ensures
        r == create_game_spec(
            game_key,
            game_seed,
            mint,
            player,
            commitment,
            wager_amount,
            entry_proof,
            slot,
            *player_info,
        ),
        r matches Ok(e) ==> e.game.wf(),
{
    if !(player_info.owner == player && player_info.mint == mint) {
        return Err(RpsError::AccountMismatch);
    }
    let fee_amount = match fee_for_wager(wager_amount) {
        Ok(fee) => fee,
        Err(e) => return Err(e),
    };
    if wager_amount > u64::MAX - fee_amount {
        return Err(RpsError::BetTooLarge);
    }
    let action = Actions::CreateGame {
        player_1_pubkey: player,
        commitment,
        config: GameConfig { wager_amount, mint, entry_proof },
    };
    let state = match process_action(game_key, GameState::Initialized, action, slot) {
        Ok(state) => state,
        Err(e) => return Err(e),
    };
    let info = match player_info.stake(wager_amount) {
        Ok(info) => info,
        Err(e) => return Err(e),
    };
    Ok(
        Entered {
            game: Game { seed: game_seed, mint, wager_amount, fee_amount, state },
            deposit: wager_amount + fee_amount,
            player_info: info,
        },
    )
}

/// The game after `player` joins it showing `choice`, what they pay into
/// escrow (the wager), and their ledger record after it.
pub open spec fn join_game_spec(
    game_key: Pubkey,
    game: Game,
    player: Pubkey,
    choice: RPS,
    secret: Option<u64>,
    slot: u64,
    player_info: PlayerInfo,
) -> Result<Entered, RpsError> {
    let action = Actions::JoinGame { player_2_pubkey: player, choice, secret };
    if !player_info.belongs_to(player, game.mint) {
        Err(RpsError::AccountMismatch)
    } else {
        match process_spec(game_key, game.state, action, slot) {
            Err(e) => Err(e),
            Ok(state) => match player_info.stake_spec(game.wager_amount) {
                Err(e) => Err(e),
                Ok(info) => Ok(
                    Entered {
                        game: Game { state, ..game },
                        deposit: game.wager_amount,
                        player_info: info,
                    },
                ),
            },
        }
    }
}

/// `player` takes up the challenge of `game`, showing `choice` at once and
/// staking the same wager.
pub fn join_game(
    game_key: Pubkey,
    game: &Game,
    player: Pubkey,
    choice: RPS,
    secret: Option<u64>,
    slot: u64,
    player_info: &PlayerInfo,
) -> (r: Result<Entered, RpsError>)
    ensures
        r == join_game_spec(game_key, *game, player, choice, secret, slot, *player_info),
        game.wf() ==> (r matches Ok(e) ==> e.game.wf()),
{
    if !(player_info.owner == player && player_info.mint == game.mint) {
        return Err(RpsError::AccountMismatch);
    }
    let action = Actions::JoinGame { player_2_pubkey: player, choice, secret };
    let state = match process_action(game_key, game.state, action, slot) {
        Ok(state) => state,
        Err(e) => return Err(e),
    };
    let info = match player_info.stake(game.wager_amount) {
        Ok(info) => info,
        Err(e) => return Err(e),
    };
    Ok(Entered { game: Game { state, ..*game }, deposit: game.wager_amount, player_info: info })
}

/// The game after `action` at `slot`, its escrow terms unchanged.
pub open spec fn step_game_spec(game_key: Pubkey, game: Game, action: Actions, slot: u64) -> Result<
    Game,
    RpsError,
> {
    match process_spec(game_key, game.state, action, slot) {
        Err(e) => Err(e),
        Ok(state) => Ok(Game { state, ..game }),
    }
}

/// Player one reveals the hand and salt behind their commitment.
pub fn reveal_game(game_key: Pubkey, game: &Game, player: Pubkey, choice: RPS, salt: u64, slot: u64) -> (r:
    Result<Game, RpsError>)
    ensures
        r == step_game_spec(
            game_key,
            *game,
            Actions::Reveal { player_1_pubkey: player, salt, choice },
            slot,
        ),
        game.wf() ==> (r matches Ok(g) ==> g.wf()),
{
    let action = Actions::Reveal { player_1_pubkey: player, salt, choice };
    match process_action(game_key, game.state, action, slot) {
        Ok(state) => Ok(Game { state, ..*game }),
        Err(e) => Err(e),
    }
}

/// `player` ends a game whose window has closed, in their own favour.
pub fn expire_game(game_key: Pubkey, game: &Game, player: Pubkey, slot: u64) -> (r: Result<
    Game,
    RpsError,
>)
    ensures
        r == step_game_spec(game_key, *game, Actions::ExpireGame { player_pubkey: player }, slot),
        game.wf() ==> (r matches Ok(g) ==> g.wf()),
{
    let action = Actions::ExpireGame { player_pubkey: player };
    match process_action(game_key, game.state, action, slot) {
        Ok(state) => Ok(Game { state, ..*game }),
        Err(e) => Err(e),
    }
}

/// Whether a decided game is an unmatched challenge handed back to its
/// creator: player one is the winner and stands on both sides.
pub open spec fn is_refund(result: Winner, player_1: PlayerState, player_2: PlayerState) -> bool {
    result == Winner::P1 && player_1 == player_2
}

/// What leaves escrow for `result`: twice the wager to the winner, the wager
/// to each player on a tie, the wager alone back on a refund; and the fee.
pub open spec fn payout_spec(result: Winner, refund: bool, wager: u64, fee: u64) -> Result<
    Payout,
    RpsError,
> {
    if refund {
        Ok(Payout { player_1: wager, player_2: 0, fee })
    } else if result == Winner::TIE {
        Ok(Payout { player_1: wager, player_2: wager, fee })
    } else if 2 * wager > u64::MAX {
        Err(RpsError::MathOverflow)
    } else if result == Winner::P1 {
        Ok(Payout { player_1: (2 * wager) as u64, player_2: 0, fee })
    } else {
        Ok(Payout { player_1: 0, player_2: (2 * wager) as u64, fee })
    }
}

/// How `result` counts for player one and for player two.
pub open spec fn outcomes_of(result: Winner) -> (LedgerOutcome, LedgerOutcome) {
    match result {
        Winner::P1 => (LedgerOutcome::Won, LedgerOutcome::Lost),
        Winner::P2 => (LedgerOutcome::Lost, LedgerOutcome::Won),
        Winner::TIE => (LedgerOutcome::Drawn, LedgerOutcome::Drawn),
    }
}

/// The ledger records after a game with stake `wager` settles: a refund
/// only releases player one's stake; where one player sat on both sides, both
/// outcomes go to the one record; otherwise each player's record counts theirs.
pub open spec fn ledger_spec(
    info_1: PlayerInfo,
    info_2: PlayerInfo,
    wager: u64,
    result: Winner,
    refund: bool,
    one_record: bool,
) -> Result<(PlayerInfo, Option<PlayerInfo>), RpsError> {
    if refund {
        match info_1.record_spec(wager, LedgerOutcome::Refunded) {
            Err(e) => Err(e),
            Ok(n1) => Ok((n1, None)),
        }
    } else {
        match info_1.record_spec(wager, outcomes_of(result).0) {
            Err(e) => Err(e),
            Ok(n1) => if one_record {
                match n1.record_spec(wager, outcomes_of(result).1) {
                    Err(e) => Err(e),
                    Ok(n) => Ok((n, None)),
                }
            } else {
                match info_2.record_spec(wager, outcomes_of(result).1) {
                    Err(e) => Err(e),
                    Ok(n2) => Ok((n1, Some(n2))),
                }
            },
        }
    }
}

/// The settlement of `game`: the game moves to `Settled`, the payouts are
/// fixed and both players' records are brought up to date, or nothing is.
pub open spec fn settle_game_spec(
    game_key: Pubkey,
    game: Game,
    slot: u64,
    info_1: PlayerInfo,
    info_2: PlayerInfo,
) -> Result<Settlement, RpsError> {
    match process_spec(game_key, game.state, Actions::Settle, slot) {
        Err(e) => Err(e),
        Ok(state) => match state {
            GameState::Settled { result, player_1, player_2, .. } => {
                if !info_1.belongs_to(player_1.key(), game.mint) || !info_2.belongs_to(
                    player_2.key(),
                    game.mint,
                ) {
                    Err(RpsError::AccountMismatch)
                } else {
                    let refund = is_refund(result, player_1, player_2);
                    match payout_spec(result, refund, game.wager_amount, game.fee_amount) {
                        Err(e) => Err(e),
                        Ok(payout) => match ledger_spec(
                            info_1,
                            info_2,
                            game.wager_amount,
                            result,
                            refund,
                            player_1.key() == player_2.key(),
                        ) {
                            Err(e) => Err(e),
                            Ok(infos) => Ok(
                                Settlement {
                                    game: Game { state, ..game },
                                    payout,
                                    player_1_info: infos.0,
                                    player_2_info: infos.1,
                                },
                            ),
                        },
                    }
                }
            },
            _ => Err(RpsError::InvalidTransition),
        },
    }
}

/// The payouts for a decided game.
pub fn payout_for(result: Winner, refund: bool, wager: u64, fee: u64) -> (r: Result<
    Payout,
    RpsError,
>)
    ensures
        r == payout_spec(result, refund, wager, fee),
{
    if refund {
        return Ok(Payout { player_1: wager, player_2: 0, fee });
    }
    if result == Winner::TIE {
        return Ok(Payout { player_1: wager, player_2: wager, fee });
    }
    let double = match wager.checked_mul(2) {
        Some(d) => d,
        None => return Err(RpsError::MathOverflow),
    };
    if result == Winner::P1 {
        Ok(Payout { player_1: double, player_2: 0, fee })
    } else {
        Ok(Payout { player_1: 0, player_2: double, fee })
    }
}

fn update_ledgers(
    info_1: &PlayerInfo,
    info_2: &PlayerInfo,
    wager: u64,
    result: Winner,
    refund: bool,
    one_record: bool,
) -> (r: Result<(PlayerInfo, Option<PlayerInfo>), RpsError>)
    ensures
        r == ledger_spec(*info_1, *info_2, wager, result, refund, one_record),
{
    if refund {
        return match info_1.record(wager, LedgerOutcome::Refunded) {
            Ok(n1) => Ok((n1, None)),
            Err(e) => Err(e),
        };
    }
    let (o1, o2) = match result {
        Winner::P1 => (LedgerOutcome::Won, LedgerOutcome::Lost),
        Winner::P2 => (LedgerOutcome::Lost, LedgerOutcome::Won),
        Winner::TIE => (LedgerOutcome::Drawn, LedgerOutcome::Drawn),
    };
    let n1 = match info_1.record(wager, o1) {
        Ok(n1) => n1,
        Err(e) => return Err(e),
    };
    if one_record {
        match n1.record(wager, o2) {
            Ok(n) => Ok((n, None)),
            Err(e) => Err(e),
        }
    } else {
        match info_2.record(wager, o2) {
            Ok(n2) => Ok((n1, Some(n2))),
            Err(e) => Err(e),
        }
    }
}

/// Settles a decided game: fixes what leaves escrow and updates both
/// players' ledger records. Computes everything before anything is returned,
/// so a failure leaves the game and the records as they were.
pub fn settle_game(
    game_key: Pubkey,
    game: &Game,
    slot: u64,
    player_1_info: &PlayerInfo,
    player_2_info: &PlayerInfo,
) -> (r: Result<Settlement, RpsError>)
    ensures
        r == settle_game_spec(game_key, *game, slot, *player_1_info, *player_2_info),
        game.wf() ==> (r matches Ok(s) ==> s.game.wf()),
{
    let state = match process_action(game_key, game.state, Actions::Settle, slot) {
        Ok(state) => state,
        Err(e) => return Err(e),
    };
    match state {
        GameState::Settled { result, player_1, player_2, .. } => {
            let p1 = player_1.pubkey();
            let p2 = player_2.pubkey();
            if !(player_1_info.owner == p1 && player_1_info.mint == game.mint) || !(
            player_2_info.owner == p2 && player_2_info.mint == game.mint) {
                return Err(RpsError::AccountMismatch);
            }
            let refund = result == Winner::P1 && player_1.same_as(&player_2);
            let payout = match payout_for(result, refund, game.wager_amount, game.fee_amount) {
                Ok(p) => p,
                Err(e) => return Err(e),
            };
            let one_record = p1 == p2;
            match update_ledgers(
                player_1_info,
                player_2_info,
                game.wager_amount,
                result,
                refund,
                one_record,
            ) {
                Ok(infos) => Ok(
                    Settlement {
                        game: Game { state, ..*game },
                        payout,
                        player_1_info: infos.0,
                        player_2_info: infos.1,
                    },
                ),
                Err(e) => Err(e),
            }
        },
        _ => Err(RpsError::InvalidTransition),
    }
}

/// Who may close settled games: any caller where the program is owned by
/// `trusted_loader`, else only `game_cleaner`.
#[derive(Clone, Copy, Debug, PartialEq, Eq)]
pub struct CleanerPolicy {
    pub trusted_loader: Pubkey,
    pub game_cleaner: Pubkey,
}

/// Whether `cleaner` may close games of a program owned by `program_owner`.
pub open spec fn may_clean_spec(policy: CleanerPolicy, program_owner: Pubkey, cleaner: Pubkey) -> bool {
    program_owner == policy.trusted_loader || cleaner == policy.game_cleaner
}

/// The record of a finished game, published when the game is closed.
#[derive(Debug)]
pub struct ReadableGameEvent {
    pub event_name: String,
    pub event_version: u64,
    pub player_1: String,
    pub choice_1: Option<RPS>,
    pub player_2: String,
    pub choice_2: Option<RPS>,
    pub result: Winner,
    pub wager_amount: u64,
    pub fee_amount: u64,
    /// True for a game that anyone could join.
    pub public: bool,
}

/// Whether `event` is the record of `game`, which is settled.
pub open spec fn describes(event: ReadableGameEvent, game: Game) -> bool {
    match game.state {
        GameState::Settled { result, player_1, player_2, config } => {
            &&& event.event_name@ == "game_result"@
            &&& event.event_version == 1
            &&& event.player_1@ == base58_of(player_1.key()@)
            &&& event.choice_1 == player_1.shown()
            &&& event.player_2@ == base58_of(player_2.key()@)
            &&& event.choice_2 == player_2.shown()
            &&& event.result == result
            &&& event.wager_amount == game.wager_amount
            &&& event.fee_amount == game.fee_amount
            &&& event.public == (config.entry_proof is None)
        },
        _ => false,
    }
}

/// Closes a settled game: checks that `cleaner` may do so and returns the
/// game's record.
pub fn clean_game(game: &Game, program_owner: Pubkey, cleaner: Pubkey, policy: &CleanerPolicy) -> (r:
    Result<ReadableGameEvent, RpsError>)
    ensures
        !may_clean_spec(*policy, program_owner, cleaner) ==> r matches Err(RpsError::Unauthorized),
        may_clean_spec(*policy, program_owner, cleaner) ==> match r {
            Ok(event) => describes(event, *game),
            Err(e) => e == RpsError::InvalidTransition && !(game.state is Settled),
        },
{
    if !(program_owner == policy.trusted_loader || cleaner == policy.game_cleaner) {
        return Err(RpsError::Unauthorized);
    }
    match game.state {
        GameState::Settled { result, player_1, player_2, config } => {
            let event = ReadableGameEvent {
                event_name: "game_result".to_owned(),
                event_version: 1,
                player_1: base58_text(&player_1.pubkey()),
                choice_1: player_1.choice_or_unrevealed(),
                player_2: base58_text(&player_2.pubkey()),
                choice_2: player_2.choice_or_unrevealed(),
                result,
                wager_amount: game.wager_amount,
                fee_amount: game.fee_amount,
                public: config.entry_proof.is_none(),
            };
            Ok(event)
        },
        _ => Err(RpsError::InvalidTransition),
    }
}

} // verus!
