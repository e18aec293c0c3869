//! The refund of one settlement order out of the coordinator's custody.

use vstd::prelude::*;
use crate::coordinator::{Coordinator, CoordinatorView};
use crate::custody::after_transfer;
use crate::error::{InstructionError, SuperSwapError};
use crate::state::{Config, OrderEvent, OrderStatus, Pubkey, SwapOrder};
use crate::utils::refund::{refund_result, refund_usdc};

verus! {

/// What is presented to refund an order.
#[derive(Clone, Copy, Debug)]
pub struct Refund {
    /// Who signs: the admin, or the relayer as the designated refund trigger.
    pub authority: Pubkey,
    /// The order to refund.
    pub order_id: u64,
    /// The coordinator's custody account for the settlement asset.
    pub program_usdc_account: Pubkey,
    /// The recipient's account for the settlement asset.
    pub recipient_usdc_account: Pubkey,
}

/// Whether `caller` may trigger refunds: the admin and the relayer may.
pub open spec fn may_refund(config: Config, caller: Pubkey) -> bool {
    caller == config.admin || caller == config.across_handler
}

/// Whether a refund of `order` may be asked for by `caller`: the order
/// must be `Pending` or `Failed`, else `RefundFailed` whoever asks; and the
/// caller must be the admin or the relayer.
pub open spec fn request_check(config: Config, order: SwapOrder, caller: Pubkey) -> Result<
    (),
    SuperSwapError,
> {
    if !order.status.spec_is_refundable() {
        Err(SuperSwapError::RefundFailed)
    } else if !may_refund(config, caller) {
        Err(SuperSwapError::Unauthorized)
    } else {
        Ok(())
    }
}

/// Checks whether a refund of `order` may be asked for by `caller`.
pub fn check_request(config: &Config, order: &SwapOrder, caller: &Pubkey) -> (result: Result<
    (),
    SuperSwapError,
>)
    ensures
        result == request_check(*config, *order, *caller),
{
    if !order.status.is_refundable() {
        return Err(SuperSwapError::RefundFailed);
    }
    if *caller != config.admin && *caller != config.across_handler {
        return Err(SuperSwapError::Unauthorized);
    }
    Ok(())
}

/// What a refund request does.
///
/// The order must exist, else `OrderNotFound`, and the request must pass
/// `request_check`. Then `refund_usdc` decides: where it pays, the order's
/// full gross amount has moved from custody to the recipient and the order
/// is `Refunded`. A refused refund changes nothing.
pub open spec fn refund(pre: CoordinatorView, ctx: Refund) -> (CoordinatorView, Result<(), InstructionError>) {
    if pre.config is None {
        (pre, Err(InstructionError::NotInitialized))
    } else if !pre.orders.contains_key(ctx.order_id) {
        (pre, Err(InstructionError::OrderNotFound))
    } else {
        let config = pre.config->Some_0;
        let order = pre.orders[ctx.order_id];
        let paid = refund_result(
            pre.accounts,
            config,
            order,
            ctx.program_usdc_account,
            ctx.recipient_usdc_account,
        );
        if request_check(config, order, ctx.authority) is Err {
            (pre, Err(InstructionError::Program(request_check(config, order, ctx.authority)->Err_0)))
        } else if paid is Err {
            (pre, paid)
        } else {
            (
                pre.with_accounts(
                    after_transfer(
                        pre.accounts,
                        ctx.program_usdc_account,
                        ctx.recipient_usdc_account,
                        order.usdc_amount,
                    ),
                ).with_order(order.after(OrderEvent::RefundRequested)),
                Ok(()),
            )
        }
    }
}

/// Refunds an order on the word of the admin or the relayer.
pub fn handler(state: &mut Coordinator, ctx: &Refund) -> (result: Result<(), InstructionError>)
    ensures
        (final(state)@, result) == refund(old(state)@, *ctx),
        final(state)@.well_formed(),
{
    let config = match state.config() {
        Some(config) => config,
        None => {
            return Err(InstructionError::NotInitialized);
        },
    };
    let mut order = match state.order(ctx.order_id) {
        Some(order) => order,
        None => {
            return Err(InstructionError::OrderNotFound);
        },
    };
    match check_request(&config, &order, &ctx.authority) {
        Ok(_) => {},
        Err(refusal) => {
            return Err(InstructionError::Program(refusal));
        },
    }
    let mut ledger = state.stage_ledger();
    match refund_usdc(&config, &mut order, &mut ledger, &ctx.program_usdc_account, &ctx.recipient_usdc_account) {
        Ok(_) => {},
        Err(refusal) => {
            return Err(refusal);
        },
    }
    state.commit_ledger(ledger);
    state.store_order(order);
    Ok(())
}

/// A refund is paid only from `Pending` or `Failed`, and leaves the order
/// `Refunded`: from `Completed` or `Refunded` the request fails with
/// `RefundFailed`, whoever asks and whatever accounts are named, and
/// nothing changes.
pub proof fn lemma_refund_only_from_pending_or_failed(pre: CoordinatorView, ctx: Refund)
    requires
        pre.well_formed(),
    ensures
        refund(pre, ctx).1 is Ok ==> {
            &&& pre.orders.contains_key(ctx.order_id)
            &&& pre.orders[ctx.order_id].status is Pending || pre.orders[ctx.order_id].status is Failed
            &&& refund(pre, ctx).0.orders.contains_key(ctx.order_id)
            &&& refund(pre, ctx).0.orders[ctx.order_id] == (SwapOrder {
                status: OrderStatus::Refunded,
                ..pre.orders[ctx.order_id]
            })
        },
        pre.config is Some && pre.orders.contains_key(ctx.order_id) && (pre.orders[ctx.order_id].status
            is Completed || pre.orders[ctx.order_id].status is Refunded) ==> refund(pre, ctx).1 == Err::<
            (),
            InstructionError,
        >(InstructionError::Program(SuperSwapError::RefundFailed)),
        refund(pre, ctx).1 is Err ==> refund(pre, ctx).0 == pre,
        refund(pre, ctx).0.config == pre.config,
        refund(pre, ctx).0.orders.dom() =~= pre.orders.dom(),
        forall|id: u64|
            id != ctx.order_id && #[trigger] pre.orders.contains_key(id) ==> refund(pre, ctx).0.orders[id]
                == pre.orders[id],
{
}

/// An order is refunded at most once: after a refund that was paid, any
/// further refund request for that order fails with `RefundFailed` and
/// changes nothing.
pub proof fn lemma_refund_is_paid_once(pre: CoordinatorView, ctx: Refund, again: Refund)
    requires
        pre.well_formed(),
        refund(pre, ctx).1 is Ok,
        again.order_id == ctx.order_id,
    ensures
        refund(refund(pre, ctx).0, again).1 == Err::<(), InstructionError>(
            InstructionError::Program(SuperSwapError::RefundFailed),
        ),
        refund(refund(pre, ctx).0, again).0 == refund(pre, ctx).0,
{
}

/// A refund keeps the state well formed.
pub proof fn lemma_refund_keeps_well_formed(pre: CoordinatorView, ctx: Refund)
    requires
        pre.well_formed(),
    ensures
        refund(pre, ctx).0.well_formed(),
{
}

} // verus!
