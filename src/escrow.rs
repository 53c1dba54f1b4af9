use vstd::prelude::*;

use crate::error::RpsError;
use crate::game::{fee_spec, is_refund, payout_spec, settle_game_spec, Game, PlayerInfo};
use crate::logic::{process_spec, Actions, GameState, PlayerState, Winner};
use crate::pubkey::Pubkey;

verus! {

/// What the escrow of a game in `state` holds: the wager and fee once
/// created, a second wager once joined; an unmatched game returned to its
/// creator never received the second.
pub open spec fn escrow_held(state: GameState) -> int {
    match state {
        GameState::Initialized => 0,
        GameState::AcceptingChallenge { config, .. } => config.wager_amount + fee_spec(
            config.wager_amount,
        ),
        GameState::AcceptingReveal { config, .. } => 2 * config.wager_amount + fee_spec(
            config.wager_amount,
        ),
        GameState::AcceptingSettle { result, player_1, player_2, config } => settled_escrow(
            result,
            player_1,
            player_2,
            config.wager_amount,
        ),
        GameState::Settled { result, player_1, player_2, config } => settled_escrow(
            result,
            player_1,
            player_2,
            config.wager_amount,
        ),
    }
}

/// What the escrow of a decided game holds.
pub open spec fn settled_escrow(
    result: Winner,
    player_1: PlayerState,
    player_2: PlayerState,
    wager: u64,
) -> int {
    if is_refund(result, player_1, player_2) {
        wager + fee_spec(wager)
    } else {
        2 * wager + fee_spec(wager)
    }
}

/// What `action` pays into the escrow of a game in `state`: the wager and
/// fee on creation, the wager on joining, nothing otherwise.
pub open spec fn escrow_inflow(state: GameState, action: Actions) -> int {
    match state {
        GameState::Initialized => match action {
            Actions::CreateGame { config, .. } => config.wager_amount + fee_spec(
                config.wager_amount,
            ),
            _ => 0,
        },
        GameState::AcceptingChallenge { config, .. } => match action {
            Actions::JoinGame { .. } => config.wager_amount as int,
            _ => 0,
        },
        _ => 0,
    }
}

/// The state after each `(action, slot)` of `steps` in turn, or the first error.
pub open spec fn run_actions(
    game_key: Pubkey,
    state: GameState,
    steps: Seq<(Actions, u64)>,
) -> Result<GameState, RpsError>
    decreases steps.len(),
{
    if steps.len() == 0 {
        Ok(state)
    } else {
        match process_spec(game_key, state, steps[0].0, steps[0].1) {
            Err(e) => Err(e),
            Ok(next) => run_actions(game_key, next, steps.drop_first()),
        }
    }
}

/// Everything that `steps` pay into escrow, up to the first rejected step.
pub open spec fn total_inflow(game_key: Pubkey, state: GameState, steps: Seq<(Actions, u64)>) -> int
    decreases steps.len(),
{
    if steps.len() == 0 {
        0
    } else {
        match process_spec(game_key, state, steps[0].0, steps[0].1) {
            Err(_) => 0,
            Ok(next) => escrow_inflow(state, steps[0].0) + total_inflow(
                game_key,
                next,
                steps.drop_first(),
            ),
        }
    }
}

/// The escrow changes by exactly what an accepted action pays in.
pub proof fn lemma_step_escrow(game_key: Pubkey, state: GameState, action: Actions, slot: u64)
    requires
        process_spec(game_key, state, action, slot) is Ok,
    ensures
        escrow_held(process_spec(game_key, state, action, slot)->Ok_0) == escrow_held(state)
            + escrow_inflow(state, action),
{
}

/// Escrow held after a run of accepted actions is what it held before plus
/// what the run paid in.
pub proof fn lemma_run_escrow(game_key: Pubkey, state: GameState, steps: Seq<(Actions, u64)>)
    requires
        run_actions(game_key, state, steps) is Ok,
    ensures
        escrow_held(run_actions(game_key, state, steps)->Ok_0) == escrow_held(state)
            + total_inflow(game_key, state, steps),
    decreases steps.len(),
{
    if steps.len() > 0 {
        lemma_step_escrow(game_key, state, steps[0].0, steps[0].1);
        let next = process_spec(game_key, state, steps[0].0, steps[0].1)->Ok_0;
        lemma_run_escrow(game_key, next, steps.drop_first());
    }
}

/// Settling a well-formed game pays out exactly what its escrow holds: the
/// players' shares plus the fee.
pub proof fn lemma_settlement_empties_escrow(
    game_key: Pubkey,
    game: Game,
    slot: u64,
    player_1_info: PlayerInfo,
    player_2_info: PlayerInfo,
)
    requires
        game.wf(),
        settle_game_spec(game_key, game, slot, player_1_info, player_2_info) is Ok,
    ensures
        ({
            let payout = settle_game_spec(game_key, game, slot, player_1_info, player_2_info)->Ok_0.payout;
            payout.player_1 + payout.player_2 + payout.fee == escrow_held(game.state)
        }),
{
}

/// No value is created or destroyed: for any run of accepted actions from a
/// fresh game to a settled one, the payouts to both players plus the fee
/// equal everything paid into escrow, and the players alone receive all of
/// it but the fee.
pub proof fn lemma_escrow_conservation(game_key: Pubkey, steps: Seq<(Actions, u64)>)
    requires
        run_actions(game_key, GameState::Initialized, steps) matches Ok(
            GameState::Settled { .. },
        ),
    ensures
        ({
            let end = run_actions(game_key, GameState::Initialized, steps)->Ok_0;
            let wager = end->Settled_config.wager_amount;
            let fee = fee_spec(wager);
            let refund = is_refund(end->Settled_result, end->Settled_player_1, end->Settled_player_2);
            payout_spec(end->Settled_result, refund, wager, fee as u64) matches Ok(p) ==> {
                &&& p.player_1 + p.player_2 + p.fee == total_inflow(
                    game_key,
                    GameState::Initialized,
                    steps,
                )
                &&& p.player_1 + p.player_2 == total_inflow(
                    game_key,
                    GameState::Initialized,
                    steps,
                ) - fee
            }
        }),
{
    lemma_run_escrow(game_key, GameState::Initialized, steps);
    let end = run_actions(game_key, GameState::Initialized, steps)->Ok_0;
    let wager = end->Settled_config.wager_amount;
    assert(0 <= fee_spec(wager) <= wager) by (nonlinear_arith)
        requires
            fee_spec(wager) == wager * 350 / 10000,
            wager >= 0,
    ;
}

} // verus!
