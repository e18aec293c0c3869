//! A settlement coordinator for bridged funds: it takes custody of a bridged
//! amount, deducts a protocol fee, hands the remainder to a swap engine, and
//! either completes the order or leaves it refundable.

use vstd::prelude::*;
use crate::coordinator::Coordinator;
use crate::error::InstructionError;
use crate::instructions::execute_jupiter_swap::{engine_call, ExecuteJupiterSwap};
use crate::instructions::initialize::{initialization, Initialize};
use crate::instructions::pause::{pause_switch, Pause};
use crate::instructions::process_bridge_and_swap::{answers, settlement, ProcessBridgeAndSwap, Settlement};
use crate::instructions::recover_funds::{recovery, RecoverFunds};
use crate::instructions::refund::Refund;
use crate::instructions::unpause::Unpause;
use crate::instructions::update_config::{update, UpdateConfig};
use crate::state::{
    ExecuteJupiterSwapParams,
    InitializeParams,
    ProcessBridgeAndSwapParams,
    RecoverFundsParams,
    UpdateConfigParams,
};
use crate::utils::jupiter::{DelegatedCall, SwapOutcome};

pub mod coordinator;
pub mod custody;
pub mod error;
pub mod instructions;
pub mod state;
pub mod utils;

verus! {

/// Initialize the coordinator's configuration.
pub fn initialize(state: &mut Coordinator, ctx: &Initialize, params: InitializeParams) -> (result: Result<
    (),
    InstructionError,
>)
    ensures
        (final(state)@, result) == initialization(old(state)@, *ctx, params),
        final(state)@.well_formed(),
{
    instructions::initialize::handler(state, ctx, params)
}

/// Update the configuration (admin only).
pub fn update_config(state: &mut Coordinator, ctx: &UpdateConfig, params: UpdateConfigParams) -> (result:
    Result<(), InstructionError>)
    ensures
        (final(state)@, result) == update(old(state)@, *ctx, params),
        final(state)@.well_formed(),
{
    instructions::update_config::handler(state, ctx, params)
}

/// Settle one bridged transfer, given the time of the call and what the
/// swap engine answered. This is called for the relayer.
pub fn process_bridge_and_swap(
    state: &mut Coordinator,
    ctx: &ProcessBridgeAndSwap,
    params: ProcessBridgeAndSwapParams,
    now: i64,
    outcome: SwapOutcome,
) -> (result: Result<Settlement, InstructionError>)
    ensures
        final(state)@ == settlement(old(state)@, *ctx, params, now, outcome).0,
        answers(result, old(state)@, *ctx, params, now, outcome),
        final(state)@.well_formed(),
{
    instructions::process_bridge_and_swap::handler(state, ctx, params, now, outcome)
}

/// Build the call of the swap engine for the caller to issue.
pub fn execute_jupiter_swap(state: &Coordinator, ctx: &ExecuteJupiterSwap, params: ExecuteJupiterSwapParams) -> (result:
    Result<DelegatedCall, InstructionError>)
    ensures
        engine_call(result, state@, *ctx, params),
{
    instructions::execute_jupiter_swap::handler(state, ctx, params)
}

/// Recover funds held by the coordinator (admin only).
pub fn recover_funds(state: &mut Coordinator, ctx: &RecoverFunds, params: RecoverFundsParams) -> (result:
    Result<(), InstructionError>)
    ensures
        (final(state)@, result) == recovery(old(state)@, *ctx, params),
        final(state)@.well_formed(),
{
    instructions::recover_funds::handler(state, ctx, params)
}

/// Refund a pending or failed order (admin or relayer only).
pub fn refund(state: &mut Coordinator, ctx: &Refund) -> (result: Result<(), InstructionError>)
    ensures
        (final(state)@, result) == instructions::refund::refund(old(state)@, *ctx),
        final(state)@.well_formed(),
{
    instructions::refund::handler(state, ctx)
}

/// Pause the coordinator (admin only).
pub fn pause(state: &mut Coordinator, ctx: &Pause) -> (result: Result<(), InstructionError>)
    ensures
        (final(state)@, result) == pause_switch(old(state)@, ctx.admin, true),
        final(state)@.well_formed(),
{
    instructions::pause::handler(state, ctx)
}

/// Resume the coordinator (admin only).
pub fn unpause(state: &mut Coordinator, ctx: &Unpause) -> (result: Result<(), InstructionError>)
    ensures
        (final(state)@, result) == pause_switch(old(state)@, ctx.admin, false),
        final(state)@.well_formed(),
{
    instructions::unpause::handler(state, ctx)
}

} // verus!
