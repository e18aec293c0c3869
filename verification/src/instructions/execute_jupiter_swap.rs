//! A call of the swap engine on its own.

use vstd::prelude::*;
use crate::coordinator::{Coordinator, CoordinatorView};
use crate::error::{InstructionError, SuperSwapError};
use crate::state::{ExecuteJupiterSwapParams, Pubkey};
use crate::utils::jupiter::{execute_jupiter_swap, forwards, AccountMeta, DelegatedCall};

verus! {

/// What is presented for a call of the swap engine.
#[derive(Clone, Debug)]
pub struct ExecuteJupiterSwap {
    /// The swap engine to call.
    pub jupiter_program: Pubkey,
    /// The accounts to hand on to the swap engine, as they are.
    pub remaining_accounts: Vec<AccountMeta>,
}

/// Whether `result` is the answer to a request for a call of the swap
/// engine: the call comes back exactly when the coordinator is initialised
/// and the engine named is the configured one, and it forwards the accounts
/// and the payload untouched.
pub open spec fn engine_call(
    result: Result<DelegatedCall, InstructionError>,
    pre: CoordinatorView,
    ctx: ExecuteJupiterSwap,
    params: ExecuteJupiterSwapParams,
) -> bool {
    match pre.config {
        None => result == Err::<DelegatedCall, InstructionError>(InstructionError::NotInitialized),
        Some(config) => if ctx.jupiter_program != config.jupiter_program {
            result == Err::<DelegatedCall, InstructionError>(
                InstructionError::Program(SuperSwapError::InvalidJupiterProgram),
            )
        } else {
            result is Ok && forwards(
                result->Ok_0,
                ctx.jupiter_program,
                params.swap_data@,
                ctx.remaining_accounts@,
            )
        },
    }
}

/// Builds the call of the swap engine for the caller to issue.
///
/// The call comes back exactly when the coordinator is initialised and the
/// engine named is the configured one. It forwards the accounts and the
/// payload untouched and is to be signed by the coordinator's own authority.
pub fn handler(state: &Coordinator, ctx: &ExecuteJupiterSwap, params: ExecuteJupiterSwapParams) -> (result:
    Result<DelegatedCall, InstructionError>)
    ensures
        engine_call(result, state@, *ctx, params),
{
    let config = match state.config() {
        Some(config) => config,
        None => {
            return Err(InstructionError::NotInitialized);
        },
    };
    match execute_jupiter_swap(
        &config,
        &ctx.jupiter_program,
        params.swap_data.as_slice(),
        ctx.remaining_accounts.as_slice(),
    ) {
        Ok(call) => Ok(call),
        Err(refusal) => Err(InstructionError::Program(refusal)),
    }
}

} // verus!
