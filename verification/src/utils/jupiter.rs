//! The swap delegate: the call handed to the swap engine, and the test of
//! what the engine delivered.

use vstd::prelude::*;
use vstd::slice::slice_to_vec;
use crate::custody::Authority;
use crate::error::SuperSwapError;
use crate::state::{Config, OrderEvent, Pubkey, SwapOrder};

verus! {

/// The shortest payload that can be an instruction for the engine: the
/// eight bytes that name the instruction.
pub const DISCRIMINATOR_LEN: usize = 8;

/// One account handed on to the swap engine.
#[derive(Clone, Copy, Debug, PartialEq, Eq)]
pub struct AccountMeta {
    /// The account's address.
    pub pubkey: Pubkey,
    /// Whether the account signed the enclosing request.
    pub is_signer: bool,
    /// Whether the engine may change the account.
    pub is_writable: bool,
}

/// A call of another program: which program, on which accounts, with which
/// payload.
#[derive(Clone, Debug, PartialEq, Eq)]
pub struct Instruction {
    pub program_id: Pubkey,
    pub accounts: Vec<AccountMeta>,
    pub data: Vec<u8>,
}

/// A call of the swap engine together with the authority that signs it.
#[derive(Clone, Debug, PartialEq, Eq)]
pub struct DelegatedCall {
    pub instruction: Instruction,
    pub signer: Authority,
}

/// What the engine did with a call.
#[derive(Clone, Copy, Debug, PartialEq, Eq, Structural)]
pub enum SwapOutcome {
    /// The engine refused the call or failed while running it.
    Aborted,
    /// The engine ran the swap and delivered `output` units of the
    /// destination asset.
    Executed { output: u64 },
}

/// What the payload of an engine instruction carries behind its
/// discriminator.
#[derive(Clone, Copy, Debug, PartialEq, Eq, Structural)]
pub struct JupiterSwapParams {
    pub amount_in: u64,
    pub minimum_amount_out: u64,
}

/// Whether `call` is the call of `jupiter_program` that forwards `accounts`
/// and `swap_data` as they are, signed by the coordinator's own authority.
pub open spec fn forwards(
    call: DelegatedCall,
    jupiter_program: Pubkey,
    swap_data: Seq<u8>,
    accounts: Seq<AccountMeta>,
) -> bool {
    &&& call.instruction.program_id == jupiter_program
    &&& call.instruction.accounts@ == accounts
    &&& call.instruction.data@ == swap_data
    &&& call.signer == Authority::SystemOwned
}

/// Builds the call of the swap engine.
///
/// The engine named must be the configured one; otherwise the result is
/// `InvalidJupiterProgram`. The account list and the payload are forwarded
/// unchanged and uninterpreted, and the call is to be signed by the
/// coordinator's own authority. Issuing the call is left to the caller.
pub fn execute_jupiter_swap(
    config: &Config,
    jupiter_program: &Pubkey,
    swap_data: &[u8],
    accounts: &[AccountMeta],
) -> (result: Result<DelegatedCall, SuperSwapError>)
    ensures
        *jupiter_program != config.jupiter_program ==> result == Err::<DelegatedCall, SuperSwapError>(
            SuperSwapError::InvalidJupiterProgram,
        ),
        *jupiter_program == config.jupiter_program ==> result is Ok && forwards(
            result->Ok_0,
            *jupiter_program,
            swap_data@,
            accounts@,
        ),
{
    if *jupiter_program != config.jupiter_program {
        return Err(SuperSwapError::InvalidJupiterProgram);
    }
    let instruction = Instruction {
        program_id: *jupiter_program,
        accounts: slice_to_vec(accounts),
        data: slice_to_vec(swap_data),
    };
    Ok(DelegatedCall { instruction, signer: Authority::SystemOwned })
}

/// What `validate_swap_output` returns.
pub open spec fn output_check(actual_output: u64, min_output: u64) -> Result<(), SuperSwapError> {
    if actual_output >= min_output {
        Ok(())
    } else {
        Err(SuperSwapError::InsufficientOutputAmount)
    }
}

/// Validates that a swap output meets the minimum.
pub fn validate_swap_output(actual_output: u64, min_output: u64) -> (result: Result<(), SuperSwapError>)
    ensures
        result == output_check(actual_output, min_output),
{
    if actual_output >= min_output {
        Ok(())
    } else {
        Err(SuperSwapError::InsufficientOutputAmount)
    }
}

/// By how much a balance grew from `before` to `after`; nothing where it
/// did not grow.
pub open spec fn increase(before: u64, after: u64) -> u64 {
    if after >= before {
        (after - before) as u64
    } else {
        0
    }
}

/// Returns by how much a balance grew between two readings, and zero where
/// it shrank.
pub fn balance_increase(before: u64, after: u64) -> (grown: u64)
    ensures
        grown == increase(before, after),
{
    if after >= before {
        after - before
    } else {
        0
    }
}

/// The event that a measured output is for an order whose minimum is
/// `min_output`: success exactly when the output reaches the minimum.
pub open spec fn output_event(actual_output: u64, min_output: u64) -> OrderEvent {
    if output_check(actual_output, min_output) is Ok {
        OrderEvent::SwapSucceeded
    } else {
        OrderEvent::SwapFailed
    }
}

/// What `record_swap_output` answers: the output measured, where it reaches
/// the minimum.
pub open spec fn recorded_output(balance_before: u64, balance_after: u64, min_output: u64) -> Result<
    u64,
    SuperSwapError,
> {
    match output_check(increase(balance_before, balance_after), min_output) {
        Ok(_) => Ok(increase(balance_before, balance_after)),
        Err(refusal) => Err(refusal),
    }
}

/// Records on `order` what the swap delivered, measured as the growth of
/// the recipient's destination balance from `balance_before` to
/// `balance_after`.
///
/// The answer is the output measured, or `InsufficientOutputAmount` where it
/// is below the order's minimum. A pending order becomes `Completed` in the
/// first case and `Failed` in the second; an order that is not pending
/// stays as it is.
pub fn record_swap_output(order: &mut SwapOrder, balance_before: u64, balance_after: u64) -> (result: Result<
    u64,
    SuperSwapError,
>)
    ensures
        result == recorded_output(balance_before, balance_after, old(order).min_output_amount),
        *final(order) == old(order).after(
            output_event(increase(balance_before, balance_after), old(order).min_output_amount),
        ),
{
    let output = balance_increase(balance_before, balance_after);
    match validate_swap_output(output, order.min_output_amount) {
        Ok(_) => {
            order.apply(OrderEvent::SwapSucceeded);
            Ok(output)
        },
        Err(refusal) => {
            order.apply(OrderEvent::SwapFailed);
            Err(refusal)
        },
    }
}

/// A pending order becomes `Completed` exactly when the output measured
/// reaches its minimum, and `Failed` otherwise; an order that is not pending
/// is not moved by any output.
pub proof fn lemma_output_decides_completion(order: SwapOrder, actual_output: u64)
    ensures
        order.status is Pending ==> (order.after(
            output_event(actual_output, order.min_output_amount),
        ).status is Completed <==> actual_output >= order.min_output_amount),
        order.status is Pending ==> (order.after(
            output_event(actual_output, order.min_output_amount),
        ).status is Failed <==> actual_output < order.min_output_amount),
        !(order.status is Pending) ==> order.after(output_event(actual_output, order.min_output_amount))
            == order,
{
}

/// Checks that a swap payload is framed as an instruction for the engine:
/// it holds at least the eight bytes of a discriminator. What stands behind
/// the discriminator is the engine's own business and is not decoded: both
/// amounts of the result are zero.
pub fn parse_jupiter_swap_data(data: &[u8]) -> (result: Result<JupiterSwapParams, SuperSwapError>)
    ensures
        data@.len() >= DISCRIMINATOR_LEN ==> result == Ok::<JupiterSwapParams, SuperSwapError>(
            JupiterSwapParams { amount_in: 0, minimum_amount_out: 0 },
        ),
        data@.len() < DISCRIMINATOR_LEN ==> result == Err::<JupiterSwapParams, SuperSwapError>(
            SuperSwapError::InvalidSwapCalldata,
        ),
{
    if data.len() < DISCRIMINATOR_LEN {
        return Err(SuperSwapError::InvalidSwapCalldata);
    }
    Ok(JupiterSwapParams { amount_in: 0, minimum_amount_out: 0 })
}

} // verus!
