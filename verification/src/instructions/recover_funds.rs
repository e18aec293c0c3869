//! Recovery of funds held by the coordinator, by its admin.

use vstd::prelude::*;
use crate::coordinator::{Coordinator, CoordinatorView};
use crate::custody::{account_at, after_transfer, transfer_result, Authority, CustodyError, Movement, TokenAccount};
use crate::error::{InstructionError, SuperSwapError};
use crate::state::{Config, Pubkey, RecoverFundsParams};

verus! {

/// What is presented to recover funds.
#[derive(Clone, Copy, Debug)]
pub struct RecoverFunds {
    /// Who signs.
    pub admin: Pubkey,
    /// The account of the coordinator to take from.
    pub source_token_account: Pubkey,
    /// The account to pay into.
    pub destination_token_account: Pubkey,
}

/// The checks before a recovery, in the order in which they decide: only
/// the admin may ask; the source must exist and hold the asset named; the
/// destination must exist and hold it too.
pub open spec fn recovery_check(
    config: Config,
    ctx: RecoverFunds,
    params: RecoverFundsParams,
    source: Option<TokenAccount>,
    destination: Option<TokenAccount>,
) -> Result<(), InstructionError> {
    if ctx.admin != config.admin {
        Err(InstructionError::Program(SuperSwapError::Unauthorized))
    } else if source is None {
        Err(InstructionError::Custody(CustodyError::SourceNotFound))
    } else if source->Some_0.mint != params.token_mint {
        Err(InstructionError::Program(SuperSwapError::InvalidTokenMint))
    } else if destination is None {
        Err(InstructionError::Custody(CustodyError::DestinationNotFound))
    } else if destination->Some_0.mint != params.token_mint {
        Err(InstructionError::Program(SuperSwapError::InvalidTokenMint))
    } else {
        Ok(())
    }
}

/// The movement that a recovery makes: the amount asked for, between the
/// accounts named, on the coordinator's own authority.
pub open spec fn recovery_movement(ctx: RecoverFunds, params: RecoverFundsParams) -> Movement {
    Movement {
        from: ctx.source_token_account,
        to: ctx.destination_token_account,
        authority: Authority::SystemOwned,
        amount: params.amount,
    }
}

/// What a recovery does: it must pass `recovery_check`; then the amount
/// moves on the coordinator's own authority, or the ledger's refusal comes
/// back. A refused recovery changes nothing.
pub open spec fn recovery(pre: CoordinatorView, ctx: RecoverFunds, params: RecoverFundsParams) -> (
    CoordinatorView,
    Result<(), InstructionError>,
) {
    if pre.config is None {
        (pre, Err(InstructionError::NotInitialized))
    } else {
        let checked = recovery_check(
            pre.config->Some_0,
            ctx,
            params,
            account_at(pre.accounts, ctx.source_token_account),
            account_at(pre.accounts, ctx.destination_token_account),
        );
        let movement = recovery_movement(ctx, params);
        let moved = transfer_result(pre.accounts, movement.from, movement.to, movement.authority, movement.amount);
        if checked is Err {
            (pre, checked)
        } else if moved is Err {
            (pre, Err(InstructionError::Custody(moved->Err_0)))
        } else {
            (
                pre.with_accounts(after_transfer(pre.accounts, movement.from, movement.to, movement.amount)),
                Ok(()),
            )
        }
    }
}

/// Decides whether a recovery is made and, if so, which movement makes it.
/// Nothing is moved.
pub fn plan_recovery(
    config: &Config,
    ctx: &RecoverFunds,
    params: &RecoverFundsParams,
    source: Option<TokenAccount>,
    destination: Option<TokenAccount>,
) -> (result: Result<Movement, InstructionError>)
    ensures
        match result {
            Ok(movement) => recovery_check(*config, *ctx, *params, source, destination) is Ok && movement
                == recovery_movement(*ctx, *params),
            Err(refusal) => recovery_check(*config, *ctx, *params, source, destination) == Err::<
                (),
                InstructionError,
            >(refusal),
        },
{
    if ctx.admin != config.admin {
        return Err(InstructionError::Program(SuperSwapError::Unauthorized));
    }
    let source = match source {
        Some(account) => account,
        None => {
            return Err(InstructionError::Custody(CustodyError::SourceNotFound));
        },
    };
    if source.mint != params.token_mint {
        return Err(InstructionError::Program(SuperSwapError::InvalidTokenMint));
    }
    let destination = match destination {
        Some(account) => account,
        None => {
            return Err(InstructionError::Custody(CustodyError::DestinationNotFound));
        },
    };
    if destination.mint != params.token_mint {
        return Err(InstructionError::Program(SuperSwapError::InvalidTokenMint));
    }
    Ok(
        Movement {
            from: ctx.source_token_account,
            to: ctx.destination_token_account,
            authority: Authority::SystemOwned,
            amount: params.amount,
        },
    )
}

/// Moves funds out of an account of the coordinator.
pub fn handler(state: &mut Coordinator, ctx: &RecoverFunds, params: RecoverFundsParams) -> (result: Result<
    (),
    InstructionError,
>)
    ensures
        (final(state)@, result) == recovery(old(state)@, *ctx, params),
        final(state)@.well_formed(),
{
    let config = match state.config() {
        Some(config) => config,
        None => {
            return Err(InstructionError::NotInitialized);
        },
    };
    let mut ledger = state.stage_ledger();
    let movement = match plan_recovery(
        &config,
        ctx,
        &params,
        ledger.account(&ctx.source_token_account),
        ledger.account(&ctx.destination_token_account),
    ) {
        Ok(movement) => movement,
        Err(refusal) => {
            return Err(refusal);
        },
    };
    match ledger.perform(&movement) {
        Ok(_) => {},
        Err(refusal) => {
            return Err(InstructionError::Custody(refusal));
        },
    }
    state.commit_ledger(ledger);
    Ok(())
}

/// A recovery touches the ledger only, and a refused one nothing at all.
pub proof fn lemma_recovery_is_sound(pre: CoordinatorView, ctx: RecoverFunds, params: RecoverFundsParams)
    ensures
        recovery(pre, ctx, params).1 is Err ==> recovery(pre, ctx, params).0 == pre,
        recovery(pre, ctx, params).0.config == pre.config,
        recovery(pre, ctx, params).0.orders == pre.orders,
        pre.well_formed() ==> recovery(pre, ctx, params).0.well_formed(),
{
}

} // verus!
