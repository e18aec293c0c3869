//! Fee arithmetic and the refund of a settlement order.

use vstd::prelude::*;
use crate::custody::{
    account_at,
    after_transfer,
    transfer_result,
    Authority,
    Ledger,
    Movement,
    TokenAccount,
};
use crate::error::{InstructionError, SuperSwapError};
use crate::state::{Config, OrderEvent, OrderStatus, Pubkey, SwapOrder};

verus! {

/// One hundred percent, in basis points.
pub const BPS_DENOMINATOR: u64 = 10000;

/// The protocol fee on `amount` at `fee_bps` basis points: the exact product
/// divided by ten thousand, rounded down.
pub open spec fn fee_of(amount: u64, fee_bps: u16) -> nat {
    ((amount as nat) * (fee_bps as nat)) / (BPS_DENOMINATOR as nat)
}

/// What `calculate_fee` returns: the fee where it fits in 64 bits.
pub open spec fn fee_result(amount: u64, fee_bps: u16) -> Result<u64, SuperSwapError> {
    if fee_of(amount, fee_bps) <= u64::MAX {
        Ok(fee_of(amount, fee_bps) as u64)
    } else {
        Err(SuperSwapError::MathOverflow)
    }
}

/// What `calculate_net_amount` returns: the amount less the fee, where the
/// fee does not exceed the amount.
pub open spec fn net_result(amount: u64, fee_bps: u16) -> Result<u64, SuperSwapError> {
    if fee_of(amount, fee_bps) <= amount {
        Ok((amount - fee_of(amount, fee_bps)) as u64)
    } else {
        Err(SuperSwapError::MathOverflow)
    }
}

/// Calculates the fee amount based on fee_bps.
pub fn calculate_fee(amount: u64, fee_bps: u16) -> (result: Result<u64, SuperSwapError>)
    ensures
        result == fee_result(amount, fee_bps),
{
    let wide_amount: u128 = amount as u128;
    let wide_bps: u128 = fee_bps as u128;
    assert(wide_amount * wide_bps <= 0xffff_ffff_ffff_ffff * 0xffff) by (nonlinear_arith)
        requires
            wide_amount <= 0xffff_ffff_ffff_ffff,
            wide_bps <= 0xffff,
    ;
    let product: u128 = wide_amount * wide_bps;
    let fee: u128 = product / (BPS_DENOMINATOR as u128);
    if fee > u64::MAX as u128 {
        Err(SuperSwapError::MathOverflow)
    } else {
        Ok(fee as u64)
    }
}

/// Calculates the net amount after fee deduction.
pub fn calculate_net_amount(amount: u64, fee_bps: u16) -> (result: Result<u64, SuperSwapError>)
    ensures
        result == net_result(amount, fee_bps),
{
    match calculate_fee(amount, fee_bps) {
        Ok(fee) => match amount.checked_sub(fee) {
            Some(net) => Ok(net),
            None => Err(SuperSwapError::MathOverflow),
        },
        Err(_) => Err(SuperSwapError::MathOverflow),
    }
}

/// At any rate up to one hundred percent the fee never exceeds the amount,
/// both computations succeed, and fee and net amount add up to the amount.
pub proof fn lemma_fee_and_net_partition_amount(amount: u64, fee_bps: u16)
    requires
        fee_bps <= BPS_DENOMINATOR,
    ensures
        fee_of(amount, fee_bps) <= amount,
        fee_result(amount, fee_bps) is Ok,
        net_result(amount, fee_bps) is Ok,
        fee_result(amount, fee_bps)->Ok_0 + net_result(amount, fee_bps)->Ok_0 == amount,
{
    let a = amount as nat;
    let b = fee_bps as nat;
    assert(a * b <= a * 10000) by (nonlinear_arith)
        requires
            b <= 10000,
    ;
    assert((a * b) / 10000 <= a) by (nonlinear_arith)
        requires
            a * b <= a * 10000,
    ;
}

/// The checks before a refund is paid, in the order in which they decide:
/// the order must be `Pending` or `Failed`; both accounts must exist; the
/// receiving account must belong to the order's recipient; both accounts
/// must hold the settlement asset.
pub open spec fn refund_check(
    config: Config,
    order: SwapOrder,
    program_account: Option<TokenAccount>,
    recipient_account: Option<TokenAccount>,
) -> Result<(), SuperSwapError> {
    if !order.status.spec_is_refundable() {
        Err(SuperSwapError::RefundFailed)
    } else if program_account is None || recipient_account is None {
        Err(SuperSwapError::UsdcTokenAccountNotFound)
    } else if recipient_account->Some_0.owner != Authority::ExternalSigner(order.recipient) {
        Err(SuperSwapError::InvalidRecipient)
    } else if program_account->Some_0.mint != config.usdc_mint || recipient_account->Some_0.mint
        != config.usdc_mint {
        Err(SuperSwapError::InvalidTokenMint)
    } else {
        Ok(())
    }
}

/// The movement that pays a refund: the order's full gross amount, from
/// custody to the recipient's account, on the coordinator's own authority.
pub open spec fn refund_movement(
    order: SwapOrder,
    program_usdc_account: Pubkey,
    recipient_usdc_account: Pubkey,
) -> Movement {
    Movement {
        from: program_usdc_account,
        to: recipient_usdc_account,
        authority: Authority::SystemOwned,
        amount: order.usdc_amount,
    }
}

/// What `refund_usdc` answers on the given ledger and order.
///
/// It answers with the first failing check of `refund_check`, or else with
/// what the ledger says to moving the order's full gross amount from
/// custody to the recipient on the coordinator's own authority.
pub open spec fn refund_result(
    accounts: Map<Pubkey, TokenAccount>,
    config: Config,
    order: SwapOrder,
    program_usdc_account: Pubkey,
    recipient_usdc_account: Pubkey,
) -> Result<(), InstructionError> {
    match refund_check(
        config,
        order,
        account_at(accounts, program_usdc_account),
        account_at(accounts, recipient_usdc_account),
    ) {
        Err(refusal) => Err(InstructionError::Program(refusal)),
        Ok(_) => match transfer_result(
            accounts,
            program_usdc_account,
            recipient_usdc_account,
            Authority::SystemOwned,
            order.usdc_amount,
        ) {
            Err(refusal) => Err(InstructionError::Custody(refusal)),
            Ok(_) => Ok(()),
        },
    }
}

/// Checks whether a refund of `order` may be paid between the two accounts.
pub fn check_refund(
    config: &Config,
    order: &SwapOrder,
    program_account: Option<TokenAccount>,
    recipient_account: Option<TokenAccount>,
) -> (result: Result<(), SuperSwapError>)
    ensures
        result == refund_check(*config, *order, program_account, recipient_account),
{
    if !order.status.is_refundable() {
        return Err(SuperSwapError::RefundFailed);
    }
    let program_account = match program_account {
        Some(account) => account,
        None => {
            return Err(SuperSwapError::UsdcTokenAccountNotFound);
        },
    };
    let recipient_account = match recipient_account {
        Some(account) => account,
        None => {
            return Err(SuperSwapError::UsdcTokenAccountNotFound);
        },
    };
    if recipient_account.owner != Authority::ExternalSigner(order.recipient) {
        return Err(SuperSwapError::InvalidRecipient);
    }
    if program_account.mint != config.usdc_mint {
        return Err(SuperSwapError::InvalidTokenMint);
    }
    if recipient_account.mint != config.usdc_mint {
        return Err(SuperSwapError::InvalidTokenMint);
    }
    Ok(())
}

/// Decides whether a refund of `order` is paid and, if so, which movement
/// pays it. Nothing is moved.
pub fn plan_refund(
    config: &Config,
    order: &SwapOrder,
    program_usdc_account: &Pubkey,
    recipient_usdc_account: &Pubkey,
    program_account: Option<TokenAccount>,
    recipient_account: Option<TokenAccount>,
) -> (result: Result<Movement, SuperSwapError>)
    ensures
        match result {
            Ok(movement) => refund_check(*config, *order, program_account, recipient_account) is Ok
                && movement == refund_movement(*order, *program_usdc_account, *recipient_usdc_account),
            Err(refusal) => refund_check(*config, *order, program_account, recipient_account) == Err::<
                (),
                SuperSwapError,
            >(refusal),
        },
{
    match check_refund(config, order, program_account, recipient_account) {
        Ok(_) => Ok(
            Movement {
                from: *program_usdc_account,
                to: *recipient_usdc_account,
                authority: Authority::SystemOwned,
                amount: order.usdc_amount,
            },
        ),
        Err(refusal) => Err(refusal),
    }
}

/// Refunds the bridged amount of an order to its recipient.
///
/// On success the order's full gross amount, the fee included, has moved
/// from the coordinator's custody account to the recipient's account, and
/// the order is `Refunded`. On any refusal neither the ledger nor the order
/// has changed.
pub fn refund_usdc(
    config: &Config,
    swap_order: &mut SwapOrder,
    ledger: &mut Ledger,
    program_usdc_account: &Pubkey,
    recipient_usdc_account: &Pubkey,
) -> (result: Result<(), InstructionError>)
    ensures
        result == refund_result(
            old(ledger)@,
            *config,
            *old(swap_order),
            *program_usdc_account,
            *recipient_usdc_account,
        ),
        result is Ok ==> final(ledger)@ == after_transfer(
            old(ledger)@,
            *program_usdc_account,
            *recipient_usdc_account,
            old(swap_order).usdc_amount,
        ) && *final(swap_order) == old(swap_order).after(OrderEvent::RefundRequested)
            && final(swap_order).status == OrderStatus::Refunded,
        result is Err ==> final(ledger)@ == old(ledger)@ && *final(swap_order) == *old(swap_order),
{
    let movement = match plan_refund(
        config,
        swap_order,
        program_usdc_account,
        recipient_usdc_account,
        ledger.account(program_usdc_account),
        ledger.account(recipient_usdc_account),
    ) {
        Ok(movement) => movement,
        Err(refusal) => {
            return Err(InstructionError::Program(refusal));
        },
    };
    match ledger.perform(&movement) {
        Ok(_) => {},
        Err(refusal) => {
            return Err(InstructionError::Custody(refusal));
        },
    }
    swap_order.apply(OrderEvent::RefundRequested);
    Ok(())
}

/// A refund is paid only for an order that is `Pending` or `Failed`: from
/// `Completed` or `Refunded` the answer is `RefundFailed`, whatever the
/// accounts.
pub proof fn lemma_refund_needs_refundable_order(
    accounts: Map<Pubkey, TokenAccount>,
    config: Config,
    order: SwapOrder,
    program_usdc_account: Pubkey,
    recipient_usdc_account: Pubkey,
)
    ensures
        refund_result(accounts, config, order, program_usdc_account, recipient_usdc_account) is Ok ==> (
        order.status is Pending || order.status is Failed),
        (order.status is Completed || order.status is Refunded) ==> refund_result(
            accounts,
            config,
            order,
            program_usdc_account,
            recipient_usdc_account,
        ) == Err::<(), InstructionError>(InstructionError::Program(SuperSwapError::RefundFailed)),
{
}

/// A refund that is paid moves exactly the order's gross amount: between
/// two different accounts the custody account loses it and the recipient's
/// account gains it, and every other account keeps its balance.
pub proof fn lemma_refund_pays_gross_amount(
    accounts: Map<Pubkey, TokenAccount>,
    config: Config,
    order: SwapOrder,
    program_usdc_account: Pubkey,
    recipient_usdc_account: Pubkey,
)
    requires
        refund_result(accounts, config, order, program_usdc_account, recipient_usdc_account) is Ok,
    ensures
        program_usdc_account != recipient_usdc_account,
        after_transfer(accounts, program_usdc_account, recipient_usdc_account, order.usdc_amount)[program_usdc_account].amount
            == accounts[program_usdc_account].amount - order.usdc_amount,
        after_transfer(accounts, program_usdc_account, recipient_usdc_account, order.usdc_amount)[recipient_usdc_account].amount
            == accounts[recipient_usdc_account].amount + order.usdc_amount,
        forall|other: Pubkey|
            other != program_usdc_account && other != recipient_usdc_account ==> #[trigger] account_at(
                after_transfer(accounts, program_usdc_account, recipient_usdc_account, order.usdc_amount),
                other,
            ) == account_at(accounts, other),
{
}

} // verus!
