//! Settlement of one bridged transfer: validation, the order, custody, the
//! fee, the swap, and the test of its output.

use vstd::prelude::*;
use crate::coordinator::{Coordinator, CoordinatorView};
use crate::custody::{
    account_at,
    after_deposit,
    after_transfer,
    after_withdraw,
    deposit_result,
    lemma_transfer_conserves_value,
    transfer_result,
    withdraw_result,
    Authority,
    CustodyError,
    Movement,
    TokenAccount,
};
use crate::error::{InstructionError, SuperSwapError};
use crate::state::{Config, OrderStatus, ProcessBridgeAndSwapParams, Pubkey, SwapOrder};
use crate::utils::jupiter::{
    execute_jupiter_swap,
    forwards,
    increase,
    output_check,
    output_event,
    record_swap_output,
    AccountMeta,
    DelegatedCall,
    SwapOutcome,
};
use crate::utils::refund::{calculate_fee, calculate_net_amount, fee_of, net_result};

verus! {

/// What the relayer presents with a bridged transfer.
#[derive(Clone, Debug)]
pub struct ProcessBridgeAndSwap {
    /// The relayer that signed the request.
    pub across_handler: Pubkey,
    /// The asset the relayer says it bridged.
    pub usdc_mint: Pubkey,
    /// The relayer's account holding the bridged amount.
    pub source_usdc_account: Pubkey,
    /// The coordinator's custody account for the settlement asset.
    pub program_usdc_account: Pubkey,
    /// The recipient's account for the destination asset.
    pub recipient_destination_account: Pubkey,
    /// The fee recipient's account for the settlement asset.
    pub fee_recipient_account: Pubkey,
    /// The swap engine to call.
    pub jupiter_program: Pubkey,
    /// The accounts to hand on to the swap engine, as they are.
    pub remaining_accounts: Vec<AccountMeta>,
    /// Bump seed of the order's own address.
    pub bump: u8,
}

/// What stands on the ledger at the four addresses a request names.
#[derive(Clone, Copy, Debug)]
pub struct PresentedAccounts {
    /// At the relayer's source address.
    pub source: Option<TokenAccount>,
    /// At the custody address.
    pub custody: Option<TokenAccount>,
    /// At the recipient's destination address.
    pub destination: Option<TokenAccount>,
    /// At the fee recipient's address.
    pub fee_account: Option<TokenAccount>,
}

/// What is to be done for a request that passed every check: the order to
/// file, the value to move, and the call to place with the swap engine.
#[derive(Clone, Debug, PartialEq, Eq)]
pub struct SettlementPlan {
    /// The order to file, pending.
    pub order: SwapOrder,
    /// The gross amount, from the relayer's account into custody.
    pub custody_transfer: Movement,
    /// The fee, from custody to the fee recipient; none where the fee is
    /// zero.
    pub fee_transfer: Option<Movement>,
    /// The protocol fee.
    pub fee_amount: u64,
    /// The amount handed to the swap engine: the gross amount less the fee.
    pub swap_amount: u64,
    /// The call to place with the swap engine.
    pub call: DelegatedCall,
}

/// What a completed settlement did.
#[derive(Clone, Debug, PartialEq, Eq)]
pub struct Settlement {
    /// The protocol fee paid out of custody.
    pub fee_amount: u64,
    /// The amount handed to the swap engine.
    pub swap_amount: u64,
    /// By how much the recipient's destination balance grew.
    pub output_amount: u64,
    /// The call placed with the swap engine.
    pub call: DelegatedCall,
}

/// The checks on a request that need nothing but the configuration and the
/// clock, in the order in which they decide: the relayer, the settlement
/// asset, the pause, the recipient, the deadline, the amount.
pub open spec fn request_check(
    config: Config,
    ctx: ProcessBridgeAndSwap,
    params: ProcessBridgeAndSwapParams,
    now: i64,
) -> Result<(), SuperSwapError> {
    if ctx.across_handler != config.across_handler {
        Err(SuperSwapError::InvalidAcrossHandler)
    } else if ctx.usdc_mint != config.usdc_mint {
        Err(SuperSwapError::InvalidTokenMint)
    } else if config.is_paused {
        Err(SuperSwapError::ProgramPaused)
    } else if params.recipient.is_null() {
        Err(SuperSwapError::InvalidRecipient)
    } else if now > params.deadline {
        Err(SuperSwapError::DeadlineExceeded)
    } else if params.usdc_amount == 0 {
        Err(SuperSwapError::InvalidBridgeAmount)
    } else {
        Ok(())
    }
}

/// The checks on the token accounts that a request names: the source holds
/// the settlement asset; custody holds it too and belongs to the
/// coordinator, else the ledger's `OwnerMismatch`; the destination account
/// belongs to the recipient and holds the asset asked for; the fee account
/// holds the settlement asset and belongs to the configured fee recipient.
pub open spec fn accounts_check(
    config: Config,
    params: ProcessBridgeAndSwapParams,
    presented: PresentedAccounts,
) -> Result<(), InstructionError> {
    if presented.source is None {
        Err(InstructionError::Program(SuperSwapError::UsdcTokenAccountNotFound))
    } else if presented.source->Some_0.mint != config.usdc_mint {
        Err(InstructionError::Program(SuperSwapError::InvalidTokenMint))
    } else if presented.custody is None {
        Err(InstructionError::Program(SuperSwapError::UsdcTokenAccountNotFound))
    } else if presented.custody->Some_0.mint != config.usdc_mint {
        Err(InstructionError::Program(SuperSwapError::InvalidTokenMint))
    } else if presented.custody->Some_0.owner != Authority::SystemOwned {
        Err(InstructionError::Custody(CustodyError::OwnerMismatch))
    } else if presented.destination is None {
        Err(InstructionError::Program(SuperSwapError::DestinationTokenAccountNotFound))
    } else if presented.destination->Some_0.owner != Authority::ExternalSigner(params.recipient) {
        Err(InstructionError::Program(SuperSwapError::InvalidRecipient))
    } else if presented.destination->Some_0.mint != params.destination_mint {
        Err(InstructionError::Program(SuperSwapError::InvalidTokenMint))
    } else if presented.fee_account is None {
        Err(InstructionError::Program(SuperSwapError::UsdcTokenAccountNotFound))
    } else if presented.fee_account->Some_0.mint != config.usdc_mint {
        Err(InstructionError::Program(SuperSwapError::InvalidTokenMint))
    } else if presented.fee_account->Some_0.owner != Authority::ExternalSigner(config.fee_recipient) {
        Err(InstructionError::Program(SuperSwapError::InvalidFeeConfiguration))
    } else {
        Ok(())
    }
}

/// Whether a request is taken on, and if not, why. The checks decide in
/// this order: the request check; the order identifier, which must be
/// unused; the accounts check; the fee arithmetic; the swap engine, which
/// must be the configured one.
pub open spec fn plan_check(
    config: Config,
    ctx: ProcessBridgeAndSwap,
    params: ProcessBridgeAndSwapParams,
    now: i64,
    order_exists: bool,
    presented: PresentedAccounts,
) -> Result<(), InstructionError> {
    if request_check(config, ctx, params, now) is Err {
        Err(InstructionError::Program(request_check(config, ctx, params, now)->Err_0))
    } else if order_exists {
        Err(InstructionError::OrderAlreadyExists)
    } else if accounts_check(config, params, presented) is Err {
        accounts_check(config, params, presented)
    } else if net_result(params.usdc_amount, config.fee_bps) is Err {
        Err(InstructionError::Program(SuperSwapError::MathOverflow))
    } else if ctx.jupiter_program != config.jupiter_program {
        Err(InstructionError::Program(SuperSwapError::InvalidJupiterProgram))
    } else {
        Ok(())
    }
}

/// The movement that takes custody of a request's gross amount: from the
/// relayer's account into custody, on the relayer's word.
pub open spec fn custody_movement(ctx: ProcessBridgeAndSwap, params: ProcessBridgeAndSwapParams) -> Movement {
    Movement {
        from: ctx.source_usdc_account,
        to: ctx.program_usdc_account,
        authority: Authority::ExternalSigner(ctx.across_handler),
        amount: params.usdc_amount,
    }
}

/// The movement that pays a fee: from custody to the fee recipient's
/// account, on the coordinator's own authority.
pub open spec fn fee_movement(ctx: ProcessBridgeAndSwap, fee: u64) -> Movement {
    Movement {
        from: ctx.program_usdc_account,
        to: ctx.fee_recipient_account,
        authority: Authority::SystemOwned,
        amount: fee,
    }
}

/// Whether `plan` is the plan for a request: the order it opens, pending;
/// custody of the gross amount; the fee at the configured rate, paid only
/// where it is not zero; the rest as swap amount; and a call that forwards
/// the request's accounts and payload to the configured engine.
pub open spec fn plans(
    plan: SettlementPlan,
    config: Config,
    ctx: ProcessBridgeAndSwap,
    params: ProcessBridgeAndSwapParams,
) -> bool {
    &&& plan.order == SwapOrder::opened(params, ctx.bump)
    &&& plan.custody_transfer == custody_movement(ctx, params)
    &&& plan.fee_amount == fee_of(params.usdc_amount, config.fee_bps)
    &&& plan.swap_amount == params.usdc_amount - fee_of(params.usdc_amount, config.fee_bps)
    &&& plan.fee_transfer == (if plan.fee_amount > 0 {
        Some(fee_movement(ctx, plan.fee_amount))
    } else {
        None
    })
    &&& forwards(plan.call, config.jupiter_program, params.jupiter_swap_data@, ctx.remaining_accounts@)
}

/// What stands on `accounts` at the four addresses that `ctx` names.
pub open spec fn presented_on(accounts: Map<Pubkey, TokenAccount>, ctx: ProcessBridgeAndSwap) -> PresentedAccounts {
    PresentedAccounts {
        source: account_at(accounts, ctx.source_usdc_account),
        custody: account_at(accounts, ctx.program_usdc_account),
        destination: account_at(accounts, ctx.recipient_destination_account),
        fee_account: account_at(accounts, ctx.fee_recipient_account),
    }
}

/// The ledger once the coordinator has taken custody: the gross amount has
/// moved from the relayer's account into custody on the relayer's word, and
/// the fee, where there is one, from custody to the fee recipient on the
/// coordinator's own.
pub open spec fn custody_taken(
    accounts: Map<Pubkey, TokenAccount>,
    config: Config,
    ctx: ProcessBridgeAndSwap,
    params: ProcessBridgeAndSwapParams,
) -> Result<Map<Pubkey, TokenAccount>, CustodyError> {
    let gross = custody_movement(ctx, params);
    let fee = fee_movement(ctx, fee_of(params.usdc_amount, config.fee_bps) as u64);
    match transfer_result(accounts, gross.from, gross.to, gross.authority, gross.amount) {
        Err(refusal) => Err(refusal),
        Ok(_) => {
            let held = after_transfer(accounts, gross.from, gross.to, gross.amount);
            if fee.amount == 0 {
                Ok(held)
            } else {
                match transfer_result(held, fee.from, fee.to, fee.authority, fee.amount) {
                    Err(refusal) => Err(refusal),
                    Ok(_) => Ok(after_transfer(held, fee.from, fee.to, fee.amount)),
                }
            }
        },
    }
}

/// The ledger once the engine has run the swap: the swap amount has left
/// custody and the output has reached the recipient's destination account.
pub open spec fn swap_applied(
    accounts: Map<Pubkey, TokenAccount>,
    ctx: ProcessBridgeAndSwap,
    swap_amount: u64,
    output: u64,
) -> Result<Map<Pubkey, TokenAccount>, CustodyError> {
    match withdraw_result(accounts, ctx.program_usdc_account, Authority::SystemOwned, swap_amount) {
        Err(refusal) => Err(refusal),
        Ok(_) => {
            let spent = after_withdraw(accounts, ctx.program_usdc_account, swap_amount);
            match deposit_result(spent, ctx.recipient_destination_account, output) {
                Err(refusal) => Err(refusal),
                Ok(_) => Ok(after_deposit(spent, ctx.recipient_destination_account, output)),
            }
        },
    }
}

/// What settling one bridged transfer does to the coordinator's state and
/// what it answers, for every state, request, time and answer of the engine.
///
/// The request must pass `plan_check` on the accounts as they stand. Then
/// custody is taken and the fee paid; then the engine must not have
/// aborted; then the engine's swap is applied and the growth of the
/// recipient's destination balance is held against the order's minimum.
/// Where the minimum is met the order is filed as `Completed`. Where it is
/// not, the swap is not kept: the order is filed as `Failed` with the gross
/// amount, less the fee, left in custody, and the answer is
/// `InsufficientOutputAmount`. Every other refusal leaves the state as it
/// was.
pub open spec fn settlement(
    pre: CoordinatorView,
    ctx: ProcessBridgeAndSwap,
    params: ProcessBridgeAndSwapParams,
    now: i64,
    outcome: SwapOutcome,
) -> (CoordinatorView, Result<(), InstructionError>) {
    if pre.config is None {
        (pre, Err(InstructionError::NotInitialized))
    } else {
        let config = pre.config->Some_0;
        let checked = plan_check(
            config,
            ctx,
            params,
            now,
            pre.orders.contains_key(params.order_id),
            presented_on(pre.accounts, ctx),
        );
        let taken = custody_taken(pre.accounts, config, ctx, params);
        if checked is Err {
            (pre, checked)
        } else if taken is Err {
            (pre, Err(InstructionError::Custody(taken->Err_0)))
        } else if outcome is Aborted {
            (pre, Err(InstructionError::Program(SuperSwapError::SwapExecutionFailed)))
        } else {
            let held = taken->Ok_0;
            let swap_amount = net_result(params.usdc_amount, config.fee_bps)->Ok_0;
            let swapped = swap_applied(held, ctx, swap_amount, outcome->output);
            if swapped is Err {
                (pre, Err(InstructionError::Custody(swapped->Err_0)))
            } else {
                let destination = ctx.recipient_destination_account;
                let grown = increase(held[destination].amount, swapped->Ok_0[destination].amount);
                let opened = SwapOrder::opened(params, ctx.bump);
                let settled = opened.after(output_event(grown, opened.min_output_amount));
                match output_check(grown, opened.min_output_amount) {
                    Ok(_) => (pre.with_accounts(swapped->Ok_0).with_order(settled), Ok(())),
                    Err(refusal) => (
                        pre.with_accounts(held).with_order(settled),
                        Err(InstructionError::Program(refusal)),
                    ),
                }
            }
        }
    }
}

/// Whether `receipt` is the receipt of a completed settlement: the fee and
/// the swap amount at the configured rate, the output the engine delivered,
/// and a call that forwards the request's accounts and payload to the
/// configured engine.
pub open spec fn receipts(
    receipt: Settlement,
    config: Config,
    ctx: ProcessBridgeAndSwap,
    params: ProcessBridgeAndSwapParams,
    outcome: SwapOutcome,
) -> bool {
    &&& receipt.fee_amount == fee_of(params.usdc_amount, config.fee_bps)
    &&& receipt.swap_amount == params.usdc_amount - fee_of(params.usdc_amount, config.fee_bps)
    &&& outcome == (SwapOutcome::Executed { output: receipt.output_amount })
    &&& forwards(receipt.call, config.jupiter_program, params.jupiter_swap_data@, ctx.remaining_accounts@)
}

/// Whether `result` is the answer to a request: the refusal that
/// `settlement` names, or, where it names none, the receipt of the
/// completed settlement.
pub open spec fn answers(
    result: Result<Settlement, InstructionError>,
    pre: CoordinatorView,
    ctx: ProcessBridgeAndSwap,
    params: ProcessBridgeAndSwapParams,
    now: i64,
    outcome: SwapOutcome,
) -> bool {
    match result {
        Ok(receipt) => settlement(pre, ctx, params, now, outcome).1 == Ok::<(), InstructionError>(())
            && pre.config is Some && receipts(receipt, pre.config->Some_0, ctx, params, outcome),
        Err(refusal) => settlement(pre, ctx, params, now, outcome).1 == Err::<(), InstructionError>(
            refusal,
        ),
    }
}

/// Checks a request against the configuration and the clock.
pub fn check_request(
    config: &Config,
    ctx: &ProcessBridgeAndSwap,
    params: &ProcessBridgeAndSwapParams,
    now: i64,
) -> (result: Result<(), SuperSwapError>)
    ensures
        result == request_check(*config, *ctx, *params, now),
{
    if ctx.across_handler != config.across_handler {
        return Err(SuperSwapError::InvalidAcrossHandler);
    }
    if ctx.usdc_mint != config.usdc_mint {
        return Err(SuperSwapError::InvalidTokenMint);
    }
    if config.is_paused {
        return Err(SuperSwapError::ProgramPaused);
    }
    if params.recipient.is_default() {
        return Err(SuperSwapError::InvalidRecipient);
    }
    if now > params.deadline {
        return Err(SuperSwapError::DeadlineExceeded);
    }
    if params.usdc_amount == 0 {
        return Err(SuperSwapError::InvalidBridgeAmount);
    }
    Ok(())
}

/// Checks the token accounts that a request names.
pub fn check_accounts(config: &Config, params: &ProcessBridgeAndSwapParams, presented: &PresentedAccounts) -> (result:
    Result<(), InstructionError>)
    ensures
        result == accounts_check(*config, *params, *presented),
{
    let source = match presented.source {
        Some(account) => account,
        None => {
            return Err(InstructionError::Program(SuperSwapError::UsdcTokenAccountNotFound));
        },
    };
    if source.mint != config.usdc_mint {
        return Err(InstructionError::Program(SuperSwapError::InvalidTokenMint));
    }
    let custody = match presented.custody {
        Some(account) => account,
        None => {
            return Err(InstructionError::Program(SuperSwapError::UsdcTokenAccountNotFound));
        },
    };
    if custody.mint != config.usdc_mint {
        return Err(InstructionError::Program(SuperSwapError::InvalidTokenMint));
    }
    if custody.owner != Authority::SystemOwned {
        return Err(InstructionError::Custody(CustodyError::OwnerMismatch));
    }
    let destination = match presented.destination {
        Some(account) => account,
        None => {
            return Err(InstructionError::Program(SuperSwapError::DestinationTokenAccountNotFound));
        },
    };
    if destination.owner != Authority::ExternalSigner(params.recipient) {
        return Err(InstructionError::Program(SuperSwapError::InvalidRecipient));
    }
    if destination.mint != params.destination_mint {
        return Err(InstructionError::Program(SuperSwapError::InvalidTokenMint));
    }
    let fee_account = match presented.fee_account {
        Some(account) => account,
        None => {
            return Err(InstructionError::Program(SuperSwapError::UsdcTokenAccountNotFound));
        },
    };
    if fee_account.mint != config.usdc_mint {
        return Err(InstructionError::Program(SuperSwapError::InvalidTokenMint));
    }
    if fee_account.owner != Authority::ExternalSigner(config.fee_recipient) {
        return Err(InstructionError::Program(SuperSwapError::InvalidFeeConfiguration));
    }
    Ok(())
}

/// Decides whether a request is taken on and, if so, what is to be done
/// for it.
///
/// `order_exists` tells whether an order stands under the request's
/// identifier already, and `presented` what stands on the ledger at the
/// addresses the request names. Nothing is moved and nothing filed: the
/// plan says what to move and what to file.
pub fn plan_settlement(
    config: &Config,
    ctx: &ProcessBridgeAndSwap,
    params: &ProcessBridgeAndSwapParams,
    now: i64,
    order_exists: bool,
    presented: &PresentedAccounts,
) -> (result: Result<SettlementPlan, InstructionError>)
    ensures
        match result {
            Ok(plan) => plan_check(*config, *ctx, *params, now, order_exists, *presented) is Ok && plans(
                plan,
                *config,
                *ctx,
                *params,
            ),
            Err(refusal) => plan_check(*config, *ctx, *params, now, order_exists, *presented) == Err::<
                (),
                InstructionError,
            >(refusal),
        },
{
    match check_request(config, ctx, params, now) {
        Ok(_) => {},
        Err(refusal) => {
            return Err(InstructionError::Program(refusal));
        },
    }
    if order_exists {
        return Err(InstructionError::OrderAlreadyExists);
    }
    match check_accounts(config, params, presented) {
        Ok(_) => {},
        Err(refusal) => {
            return Err(refusal);
        },
    }
    let swap_amount = match calculate_net_amount(params.usdc_amount, config.fee_bps) {
        Ok(net) => net,
        Err(refusal) => {
            return Err(InstructionError::Program(refusal));
        },
    };
    let fee_amount = match calculate_fee(params.usdc_amount, config.fee_bps) {
        Ok(fee) => fee,
        Err(refusal) => {
            return Err(InstructionError::Program(refusal));
        },
    };
    let call = match execute_jupiter_swap(
        config,
        &ctx.jupiter_program,
        params.jupiter_swap_data.as_slice(),
        ctx.remaining_accounts.as_slice(),
    ) {
        Ok(call) => call,
        Err(refusal) => {
            return Err(InstructionError::Program(refusal));
        },
    };
    let fee_transfer = if fee_amount > 0 {
        Some(
            Movement {
                from: ctx.program_usdc_account,
                to: ctx.fee_recipient_account,
                authority: Authority::SystemOwned,
                amount: fee_amount,
            },
        )
    } else {
        None
    };
    Ok(
        SettlementPlan {
            order: SwapOrder::open(params, ctx.bump),
            custody_transfer: Movement {
                from: ctx.source_usdc_account,
                to: ctx.program_usdc_account,
                authority: Authority::ExternalSigner(ctx.across_handler),
                amount: params.usdc_amount,
            },
            fee_transfer,
            fee_amount,
            swap_amount,
            call,
        },
    )
}

/// Settles one bridged transfer, all or nothing.
///
/// `now` is the time of the call and `outcome` what the swap engine
/// answered to the call that the receipt names. The coordinator's state and
/// the answer are those of `settlement`. A receipt comes back exactly when
/// the order was completed; it names the fee, the amount swapped, the
/// output measured and the call, which forwards the request's accounts and
/// payload untouched.
pub fn handler(
    state: &mut Coordinator,
    ctx: &ProcessBridgeAndSwap,
    params: ProcessBridgeAndSwapParams,
    now: i64,
    outcome: SwapOutcome,
) -> (result: Result<Settlement, InstructionError>)
    ensures
        final(state)@ == settlement(old(state)@, *ctx, params, now, outcome).0,
        answers(result, old(state)@, *ctx, params, now, outcome),
        final(state)@.well_formed(),
{
    let config = match state.config() {
        Some(config) => config,
        None => {
            return Err(InstructionError::NotInitialized);
        },
    };
    let mut ledger = state.stage_ledger();
    let presented = PresentedAccounts {
        source: ledger.account(&ctx.source_usdc_account),
        custody: ledger.account(&ctx.program_usdc_account),
        destination: ledger.account(&ctx.recipient_destination_account),
        fee_account: ledger.account(&ctx.fee_recipient_account),
    };
    let order_exists = state.order(params.order_id).is_some();
    let plan = match plan_settlement(&config, ctx, &params, now, order_exists, &presented) {
        Ok(plan) => plan,
        Err(refusal) => {
            return Err(refusal);
        },
    };

    match ledger.perform(&plan.custody_transfer) {
        Ok(_) => {},
        Err(refusal) => {
            return Err(InstructionError::Custody(refusal));
        },
    }
    if let Some(fee_transfer) = plan.fee_transfer {
        match ledger.perform(&fee_transfer) {
            Ok(_) => {},
            Err(refusal) => {
                return Err(InstructionError::Custody(refusal));
            },
        }
    }
    let output = match outcome {
        SwapOutcome::Executed { output } => output,
        SwapOutcome::Aborted => {
            return Err(InstructionError::Program(SuperSwapError::SwapExecutionFailed));
        },
    };

    let mut swapped = ledger.snapshot();
    match swapped.withdraw(&ctx.program_usdc_account, &Authority::SystemOwned, plan.swap_amount) {
        Ok(_) => {},
        Err(refusal) => {
            return Err(InstructionError::Custody(refusal));
        },
    }
    match swapped.deposit(&ctx.recipient_destination_account, output) {
        Ok(_) => {},
        Err(refusal) => {
            return Err(InstructionError::Custody(refusal));
        },
    }
    let before = match ledger.account(&ctx.recipient_destination_account) {
        Some(account) => account.amount,
        None => 0,
    };
    let after = match swapped.account(&ctx.recipient_destination_account) {
        Some(account) => account.amount,
        None => 0,
    };

    let mut order = plan.order;
    match record_swap_output(&mut order, before, after) {
        Ok(output_amount) => {
            state.commit_ledger(swapped);
            state.store_order(order);
            Ok(
                Settlement {
                    fee_amount: plan.fee_amount,
                    swap_amount: plan.swap_amount,
                    output_amount,
                    call: plan.call,
                },
            )
        },
        Err(refusal) => {
            state.commit_ledger(ledger);
            state.store_order(order);
            Err(InstructionError::Program(refusal))
        },
    }
}

/// Settlement is all or nothing: a refusal leaves the whole state as it
/// was, unless it is the refusal for insufficient output, which files the
/// failed order.
pub proof fn lemma_refusal_changes_nothing(
    pre: CoordinatorView,
    ctx: ProcessBridgeAndSwap,
    params: ProcessBridgeAndSwapParams,
    now: i64,
    outcome: SwapOutcome,
)
    ensures
        settlement(pre, ctx, params, now, outcome).1 is Err && settlement(pre, ctx, params, now, outcome).1
            != Err::<(), InstructionError>(
            InstructionError::Program(SuperSwapError::InsufficientOutputAmount),
        ) ==> settlement(pre, ctx, params, now, outcome).0 == pre,
{
}

/// An order identifier is used once: a request under an identifier that
/// has an order is refused and changes nothing, whatever else it holds.
pub proof fn lemma_used_order_id_is_rejected(
    pre: CoordinatorView,
    ctx: ProcessBridgeAndSwap,
    params: ProcessBridgeAndSwapParams,
    now: i64,
    outcome: SwapOutcome,
)
    requires
        pre.orders.contains_key(params.order_id),
    ensures
        settlement(pre, ctx, params, now, outcome).0 == pre,
        settlement(pre, ctx, params, now, outcome).1 is Err,
        pre.config is Some && request_check(pre.config->Some_0, ctx, params, now) is Ok ==> settlement(
            pre,
            ctx,
            params,
            now,
            outcome,
        ).1 == Err::<(), InstructionError>(InstructionError::OrderAlreadyExists),
{
}

/// Of two requests under one order identifier the second fails: once a
/// first request has filed its order, completed or failed, any second
/// request under that identifier is refused and leaves the state, the first
/// order in it, untouched.
pub proof fn lemma_replay_is_rejected(
    pre: CoordinatorView,
    ctx: ProcessBridgeAndSwap,
    params: ProcessBridgeAndSwapParams,
    now: i64,
    outcome: SwapOutcome,
    second_ctx: ProcessBridgeAndSwap,
    second_params: ProcessBridgeAndSwapParams,
    second_now: i64,
    second_outcome: SwapOutcome,
)
    requires
        second_params.order_id == params.order_id,
        settlement(pre, ctx, params, now, outcome).1 is Ok || settlement(pre, ctx, params, now, outcome).1
            == Err::<(), InstructionError>(
            InstructionError::Program(SuperSwapError::InsufficientOutputAmount),
        ),
    ensures
        settlement(pre, ctx, params, now, outcome).0.orders.contains_key(params.order_id),
        settlement(
            settlement(pre, ctx, params, now, outcome).0,
            second_ctx,
            second_params,
            second_now,
            second_outcome,
        ).1 is Err,
        settlement(
            settlement(pre, ctx, params, now, outcome).0,
            second_ctx,
            second_params,
            second_now,
            second_outcome,
        ).0 == settlement(pre, ctx, params, now, outcome).0,
{
    let first = settlement(pre, ctx, params, now, outcome).0;
    assert(first.orders.contains_key(params.order_id));
    lemma_used_order_id_is_rejected(first, second_ctx, second_params, second_now, second_outcome);
}

/// Taking custody changes balances only: every account is still there,
/// with its owner and its asset.
pub proof fn lemma_custody_taken_keeps_owners(
    accounts: Map<Pubkey, TokenAccount>,
    config: Config,
    ctx: ProcessBridgeAndSwap,
    params: ProcessBridgeAndSwapParams,
)
    requires
        custody_taken(accounts, config, ctx, params) is Ok,
    ensures
        custody_taken(accounts, config, ctx, params)->Ok_0.dom() == accounts.dom(),
        forall|address: Pubkey| #[trigger]
            accounts.contains_key(address) ==> custody_taken(
                accounts,
                config,
                ctx,
                params,
            )->Ok_0[address].owner == accounts[address].owner && custody_taken(
                accounts,
                config,
                ctx,
                params,
            )->Ok_0[address].mint == accounts[address].mint,
{
    let gross = custody_movement(ctx, params);
    let fee = fee_movement(ctx, fee_of(params.usdc_amount, config.fee_bps) as u64);
    let held = after_transfer(accounts, gross.from, gross.to, gross.amount);
    lemma_transfer_conserves_value(accounts, gross.from, gross.to, gross.authority, gross.amount);
    if fee.amount != 0 {
        lemma_transfer_conserves_value(held, fee.from, fee.to, fee.authority, fee.amount);
        assert(custody_taken(accounts, config, ctx, params)->Ok_0.dom() =~= accounts.dom());
    }
}

/// Where the engine's swap is applied, the growth measured on the
/// recipient's destination account is the output the engine delivered.
pub proof fn lemma_swap_measures_output(
    pre: CoordinatorView,
    ctx: ProcessBridgeAndSwap,
    params: ProcessBridgeAndSwapParams,
    now: i64,
    outcome: SwapOutcome,
)
    requires
        settlement(pre, ctx, params, now, outcome).1 is Ok || settlement(pre, ctx, params, now, outcome).1
            == Err::<(), InstructionError>(
            InstructionError::Program(SuperSwapError::InsufficientOutputAmount),
        ),
    ensures
        outcome is Executed,
        pre.config is Some,
        ({
            let config = pre.config->Some_0;
            let held = custody_taken(pre.accounts, config, ctx, params)->Ok_0;
            let swap_amount = net_result(params.usdc_amount, config.fee_bps)->Ok_0;
            let swapped = swap_applied(held, ctx, swap_amount, outcome->output)->Ok_0;
            let destination = ctx.recipient_destination_account;
            &&& destination != ctx.program_usdc_account
            &&& held.contains_key(destination)
            &&& increase(held[destination].amount, swapped[destination].amount) == outcome->output
        }),
{
    let config = pre.config->Some_0;
    lemma_custody_taken_keeps_owners(pre.accounts, config, ctx, params);
    assert(pre.accounts[ctx.recipient_destination_account].owner
        != pre.accounts[ctx.program_usdc_account].owner);
}

/// An order is filed as `Completed` only where the engine ran the swap and
/// the output reached the order's minimum; where the output fell short the
/// order is filed as `Failed`, never as `Completed`. No other answer files
/// an order, and no answer touches another order.
pub proof fn lemma_completed_only_with_minimum_output(
    pre: CoordinatorView,
    ctx: ProcessBridgeAndSwap,
    params: ProcessBridgeAndSwapParams,
    now: i64,
    outcome: SwapOutcome,
)
    ensures
        settlement(pre, ctx, params, now, outcome).1 is Ok ==> {
            &&& outcome is Executed
            &&& outcome->output >= params.min_output_amount
            &&& !pre.orders.contains_key(params.order_id)
            &&& settlement(pre, ctx, params, now, outcome).0.orders.contains_key(params.order_id)
            &&& settlement(pre, ctx, params, now, outcome).0.orders[params.order_id] == (SwapOrder {
                status: OrderStatus::Completed,
                ..SwapOrder::opened(params, ctx.bump)
            })
        },
        settlement(pre, ctx, params, now, outcome).1 == Err::<(), InstructionError>(
            InstructionError::Program(SuperSwapError::InsufficientOutputAmount),
        ) ==> {
            &&& outcome is Executed
            &&& outcome->output < params.min_output_amount
            &&& !pre.orders.contains_key(params.order_id)
            &&& settlement(pre, ctx, params, now, outcome).0.orders.contains_key(params.order_id)
            &&& settlement(pre, ctx, params, now, outcome).0.orders[params.order_id] == (SwapOrder {
                status: OrderStatus::Failed,
                ..SwapOrder::opened(params, ctx.bump)
            })
        },
        settlement(pre, ctx, params, now, outcome).0.orders.dom().subset_of(
            pre.orders.dom().insert(params.order_id),
        ),
        forall|id: u64|
            id != params.order_id && #[trigger] pre.orders.contains_key(id) ==> settlement(
                pre,
                ctx,
                params,
                now,
                outcome,
            ).0.orders.contains_key(id) && settlement(pre, ctx, params, now, outcome).0.orders[id]
                == pre.orders[id],
{
    let post = settlement(pre, ctx, params, now, outcome);
    if post.1 is Ok || post.1 == Err::<(), InstructionError>(
        InstructionError::Program(SuperSwapError::InsufficientOutputAmount),
    ) {
        lemma_swap_measures_output(pre, ctx, params, now, outcome);
    }
}

/// A paused coordinator moves nothing: every request is refused and the
/// state, custody balances included, stays as it was. From the configured
/// relayer with the configured asset the refusal is `ProgramPaused`.
pub proof fn lemma_paused_coordinator_moves_nothing(
    pre: CoordinatorView,
    ctx: ProcessBridgeAndSwap,
    params: ProcessBridgeAndSwapParams,
    now: i64,
    outcome: SwapOutcome,
)
    requires
        pre.config is Some,
        pre.config->Some_0.is_paused,
    ensures
        settlement(pre, ctx, params, now, outcome).0 == pre,
        settlement(pre, ctx, params, now, outcome).1 is Err,
        ctx.across_handler == pre.config->Some_0.across_handler && ctx.usdc_mint
            == pre.config->Some_0.usdc_mint ==> settlement(pre, ctx, params, now, outcome).1 == Err::<
            (),
            InstructionError,
        >(InstructionError::Program(SuperSwapError::ProgramPaused)),
{
}

/// A request whose deadline has passed is refused before any order is
/// filed or value moved. Where nothing earlier in the request check fails,
/// the refusal is `DeadlineExceeded`.
pub proof fn lemma_expired_deadline_is_rejected(
    pre: CoordinatorView,
    ctx: ProcessBridgeAndSwap,
    params: ProcessBridgeAndSwapParams,
    now: i64,
    outcome: SwapOutcome,
)
    requires
        now > params.deadline,
    ensures
        settlement(pre, ctx, params, now, outcome).0 == pre,
        settlement(pre, ctx, params, now, outcome).1 is Err,
        pre.config matches Some(config) && ctx.across_handler == config.across_handler && ctx.usdc_mint
            == config.usdc_mint && !config.is_paused && !params.recipient.is_null() ==> settlement(
            pre,
            ctx,
            params,
            now,
            outcome,
        ).1 == Err::<(), InstructionError>(InstructionError::Program(SuperSwapError::DeadlineExceeded)),
{
}

/// Custody keeps exactly what it owes. After a completed settlement the
/// custody account holds what it held before: the gross amount came in,
/// the fee and the swap amount went out, and these two add up to the gross
/// amount. After a settlement that failed for insufficient output it holds
/// the gross amount more and the fee less.
pub proof fn lemma_custody_keeps_what_it_owes(
    pre: CoordinatorView,
    ctx: ProcessBridgeAndSwap,
    params: ProcessBridgeAndSwapParams,
    now: i64,
    outcome: SwapOutcome,
)
    ensures
        settlement(pre, ctx, params, now, outcome).1 is Ok ==> settlement(
            pre,
            ctx,
            params,
            now,
            outcome,
        ).0.accounts[ctx.program_usdc_account].amount == pre.accounts[ctx.program_usdc_account].amount,
        settlement(pre, ctx, params, now, outcome).1 == Err::<(), InstructionError>(
            InstructionError::Program(SuperSwapError::InsufficientOutputAmount),
        ) ==> settlement(pre, ctx, params, now, outcome).0.accounts[ctx.program_usdc_account].amount
            == pre.accounts[ctx.program_usdc_account].amount + params.usdc_amount - fee_of(
            params.usdc_amount,
            pre.config->Some_0.fee_bps,
        ),
{
    let post = settlement(pre, ctx, params, now, outcome);
    if post.1 is Ok || post.1 == Err::<(), InstructionError>(
        InstructionError::Program(SuperSwapError::InsufficientOutputAmount),
    ) {
        lemma_swap_measures_output(pre, ctx, params, now, outcome);
        let custody = ctx.program_usdc_account;
        assert(pre.accounts[ctx.source_usdc_account].owner != pre.accounts[custody].owner);
        assert(pre.accounts[ctx.fee_recipient_account].owner != pre.accounts[custody].owner);
    }
}

/// Settlement keeps the state well formed and the configuration as it was.
pub proof fn lemma_settlement_keeps_well_formed(
    pre: CoordinatorView,
    ctx: ProcessBridgeAndSwap,
    params: ProcessBridgeAndSwapParams,
    now: i64,
    outcome: SwapOutcome,
)
    requires
        pre.well_formed(),
    ensures
        settlement(pre, ctx, params, now, outcome).0.well_formed(),
        settlement(pre, ctx, params, now, outcome).0.config == pre.config,
{
}

} // verus!
