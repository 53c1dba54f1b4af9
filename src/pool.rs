use vstd::prelude::*;

use crate::error::RpsError;
use crate::game::{create_player_info, join_game, join_game_spec, Entered, Game, PlayerInfo};
use crate::logic::RPS;
use crate::pubkey::Pubkey;

verus! {

/// A liquidity pool whose capital plays games, priced in shares.
#[derive(Clone, Copy, Debug, PartialEq, Eq)]
pub struct Pool {
    pub seed: u64,
    /// The escrow signer that holds the pool's liquid balance and plays as a player.
    pub authority: Pubkey,
    /// The ledger record of `authority`, which tracks what the pool has at stake.
    pub authority_player_info: Pubkey,
    /// The only caller allowed to play on the pool's behalf.
    pub bot_authority: Pubkey,
    /// The asset whose units are the pool's shares.
    pub lp_token_mint: Pubkey,
}

impl Pool {
    /// Room reserved for a pool record.
    pub fn space() -> (r: usize)
        ensures
            r == 1000,
    {
        1000
    }
}

/// A new pool, and the ledger record under which its authority plays in `mint`.
pub fn create_pool(
    seed: u64,
    authority: Pubkey,
    authority_player_info: Pubkey,
    bot_authority: Pubkey,
    lp_token_mint: Pubkey,
    mint: Pubkey,
) -> (r: (Pool, PlayerInfo))
    ensures
        r.0 == (Pool { seed, authority, authority_player_info, bot_authority, lp_token_mint }),
        r.1.owner == authority,
        r.1.mint == mint,
        r.1.amount_in_games == 0,
        r.1.lifetime_wagering == 0,
        r.1.lifetime_earnings == 0,
        r.1.games_won == 0 && r.1.games_lost == 0 && r.1.games_drawn == 0,
{
    let pool = Pool { seed, authority, authority_player_info, bot_authority, lp_token_mint };
    (pool, create_player_info(authority, mint))
}

/// What the pool is worth to a depositor: its liquid balance, plus twice
/// what it has at stake, as if it won every open game.
pub open spec fn pool_deposits(pool_balance: u64, amount_in_games: u64) -> int {
    pool_balance + 2 * amount_in_games
}

/// The shares minted for `deposit_amount`: one share per unit for the first
/// deposit, while no shares exist; refused into a pool that holds nothing but
/// has shares outstanding; otherwise `deposit_amount * lp_supply / deposits`.
pub open spec fn deposit_spec(
    pool_balance: u64,
    amount_in_games: u64,
    lp_supply: u64,
    deposit_amount: u64,
) -> Result<u64, RpsError> {
    let deposits = pool_deposits(pool_balance, amount_in_games);
    if lp_supply == 0 {
        Ok(deposit_amount)
    } else if deposits == 0 {
        Err(RpsError::PoolInsolvent)
    } else {
        let minted = (deposit_amount as int * lp_supply as int) / deposits;
        if minted > u64::MAX {
            Err(RpsError::MathOverflow)
        } else {
            Ok(minted as u64)
        }
    }
}

/// What `withdraw_amount` shares redeem: their part of the liquid balance
/// alone, as if every open game were lost.
pub open spec fn withdraw_spec(pool_balance: u64, lp_supply: u64, withdraw_amount: u64) -> Result<
    u64,
    RpsError,
> {
    if lp_supply != 0 && pool_balance != 0 {
        let out = (withdraw_amount as int * pool_balance as int) / (lp_supply as int);
        if out > u64::MAX {
            Err(RpsError::MathOverflow)
        } else {
            Ok(out as u64)
        }
    } else if pool_balance == 0 {
        Err(RpsError::NoLiquidity)
    } else {
        Err(RpsError::NoSharesOutstanding)
    }
}

/// `a * b / c` in 128 bits, `None` where the quotient does not fit in 64.
fn mul_div(a: u64, b: u64, c: u128) -> (r: Option<u64>)
    requires
        c != 0,
    ensures
        (a as int * b as int) / (c as int) > u64::MAX ==> r is None,
        (a as int * b as int) / (c as int) <= u64::MAX ==> r == Some(
            ((a as int * b as int) / (c as int)) as u64,
        ),
{
    proof {
        assert(a as int * b as int <= u64::MAX as int * u64::MAX as int) by (nonlinear_arith)
            requires
                a <= u64::MAX,
                b <= u64::MAX,
        ;
    }
    let product = (a as u128) * (b as u128);
    let quotient = product / c;
    if quotient > u64::MAX as u128 {
        None
    } else {
        Some(quotient as u64)
    }
}

/// The shares to mint for `deposit_amount`, given the pool's liquid balance
/// before the deposit, its ledger record and the share supply.
pub fn deposit(
    pool: &Pool,
    pool_info: &PlayerInfo,
    pool_balance: u64,
    lp_supply: u64,
    deposit_amount: u64,
) -> (r: Result<u64, RpsError>)
    ensures
        pool_info.owner != pool.authority ==> r == Err::<u64, RpsError>(RpsError::AccountMismatch),
        pool_info.owner == pool.authority ==> r == deposit_spec(
            pool_balance,
            pool_info.amount_in_games,
            lp_supply,
            deposit_amount,
        ),
{
    if pool_info.owner != pool.authority {
        return Err(RpsError::AccountMismatch);
    }
    if lp_supply == 0 {
        return Ok(deposit_amount);
    }
    let deposits = pool_balance as u128 + 2 * (pool_info.amount_in_games as u128);
    if deposits == 0 {
        return Err(RpsError::PoolInsolvent);
    }
    match mul_div(deposit_amount, lp_supply, deposits) {
        Some(minted) => Ok(minted),
        None => Err(RpsError::MathOverflow),
    }
}

/// The liquid balance to pay out for `withdraw_amount` shares, given the
/// pool's liquid balance and the share supply.
pub fn withdraw(pool_balance: u64, lp_supply: u64, withdraw_amount: u64) -> (r: Result<
    u64,
    RpsError,
>)
    ensures
        r == withdraw_spec(pool_balance, lp_supply, withdraw_amount),
{
    if lp_supply != 0 && pool_balance != 0 {
        match mul_div(withdraw_amount, pool_balance, lp_supply as u128) {
            Some(out) => Ok(out),
            None => Err(RpsError::MathOverflow),
        }
    } else if pool_balance == 0 {
        Err(RpsError::NoLiquidity)
    } else {
        Err(RpsError::NoSharesOutstanding)
    }
}

/// The pool joins `game` as player two, showing `choice`; only the pool's
/// bot may ask it to.
pub fn bot_play(
    pool: &Pool,
    bot: Pubkey,
    pool_info: &PlayerInfo,
    game_key: Pubkey,
    game: &Game,
    choice: RPS,
    slot: u64,
) -> (r: Result<Entered, RpsError>)
    ensures
        bot != pool.bot_authority ==> r == Err::<Entered, RpsError>(RpsError::Unauthorized),
        bot == pool.bot_authority ==> r == join_game_spec(
            game_key,
            *game,
            pool.authority,
            choice,
            None,
            slot,
            *pool_info,
        ),
{
    if bot != pool.bot_authority {
        return Err(RpsError::Unauthorized);
    }
    join_game(game_key, game, pool.authority, choice, None, slot, pool_info)
}

/// Pricing is exact or refused, never wrapped: the first deposit, into a pool
/// that has issued no shares, mints one share per unit whatever the pool
/// holds; one into a pool that holds nothing but has shares outstanding is
/// refused; otherwise
/// the shares are the exact quotient, refused where it does not fit. A
/// withdrawal pays the exact quotient, and no more than the liquid balance for
/// at most the whole supply.
pub proof fn lemma_pool_pricing(
    pool_balance: u64,
    amount_in_games: u64,
    lp_supply: u64,
    amount: u64,
)
    ensures
        lp_supply == 0 ==> deposit_spec(
            pool_balance,
            amount_in_games,
            lp_supply,
            amount,
        ) == Ok::<u64, RpsError>(amount),
        pool_deposits(pool_balance, amount_in_games) == 0 && lp_supply > 0 ==> deposit_spec(
            pool_balance,
            amount_in_games,
            lp_supply,
            amount,
        ) == Err::<u64, RpsError>(RpsError::PoolInsolvent),
        pool_deposits(pool_balance, amount_in_games) != 0 && lp_supply > 0 ==> match deposit_spec(
            pool_balance,
            amount_in_games,
            lp_supply,
            amount,
        ) {
            Ok(minted) => minted == (amount as int * lp_supply as int) / pool_deposits(
                pool_balance,
                amount_in_games,
            ),
            Err(e) => e == RpsError::MathOverflow,
        },
        withdraw_spec(pool_balance, lp_supply, amount) matches Ok(out) ==> out == (amount as int
            * pool_balance as int) / (lp_supply as int),
        amount <= lp_supply && lp_supply != 0 && pool_balance != 0 ==> (withdraw_spec(
            pool_balance,
            lp_supply,
            amount,
        ) matches Ok(out) && out <= pool_balance),
{
    if amount <= lp_supply && lp_supply != 0 && pool_balance != 0 {
        let q = (amount as int * pool_balance as int) / (lp_supply as int);
        assert(q <= pool_balance) by (nonlinear_arith)
            requires
                q == (amount as int * pool_balance as int) / (lp_supply as int),
                0 <= amount <= lp_supply,
                lp_supply > 0,
                pool_balance >= 0,
        ;
    }
}

} // verus!
