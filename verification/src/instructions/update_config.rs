//! Changes to the coordinator's configuration, by its admin.

use vstd::prelude::*;
use crate::coordinator::{Coordinator, CoordinatorView};
use crate::error::{InstructionError, SuperSwapError};
use crate::state::{Config, Pubkey, UpdateConfigParams, MAX_FEE_BPS};

verus! {

/// What is presented to change the configuration.
#[derive(Clone, Copy, Debug)]
pub struct UpdateConfig {
    /// Who signs.
    pub admin: Pubkey,
}

/// `stored`, or `replacement` where there is one.
pub open spec fn replaced<T>(stored: T, replacement: Option<T>) -> T {
    match replacement {
        Some(value) => value,
        None => stored,
    }
}

/// `config` with every field replaced for which `params` holds a value.
pub open spec fn updated_config(config: Config, params: UpdateConfigParams) -> Config {
    Config {
        admin: replaced(config.admin, params.new_admin),
        across_handler: replaced(config.across_handler, params.new_across_handler),
        jupiter_program: replaced(config.jupiter_program, params.new_jupiter_program),
        usdc_mint: config.usdc_mint,
        fee_recipient: replaced(config.fee_recipient, params.new_fee_recipient),
        fee_bps: replaced(config.fee_bps, params.new_fee_bps),
        is_paused: config.is_paused,
        bump: config.bump,
    }
}

/// What `revise` answers: the updated configuration, unless the signer is
/// not the admin or the fee rate asked for is above 10%.
pub open spec fn revised(config: Config, ctx: UpdateConfig, params: UpdateConfigParams) -> Result<
    Config,
    SuperSwapError,
> {
    if ctx.admin != config.admin {
        Err(SuperSwapError::Unauthorized)
    } else if params.new_fee_bps matches Some(fee_bps) && fee_bps > MAX_FEE_BPS {
        Err(SuperSwapError::InvalidFeeConfiguration)
    } else {
        Ok(updated_config(config, params))
    }
}

/// What an update does: only the admin may update, a fee rate above 10% is
/// rejected, and a rejected update changes nothing.
pub open spec fn update(pre: CoordinatorView, ctx: UpdateConfig, params: UpdateConfigParams) -> (
    CoordinatorView,
    Result<(), InstructionError>,
) {
    match pre.config {
        None => (pre, Err(InstructionError::NotInitialized)),
        Some(config) => match revised(config, ctx, params) {
            Err(refusal) => (pre, Err(InstructionError::Program(refusal))),
            Ok(next) => (pre.with_config(next), Ok(())),
        },
    }
}

/// Makes the configuration that an update stores in the place of `config`.
pub fn revise(config: &Config, ctx: &UpdateConfig, params: &UpdateConfigParams) -> (result: Result<
    Config,
    SuperSwapError,
>)
    ensures
        result == revised(*config, *ctx, *params),
        config.well_formed() ==> (result matches Ok(next) ==> next.well_formed()),
{
    if ctx.admin != config.admin {
        return Err(SuperSwapError::Unauthorized);
    }
    let mut next = *config;
    if let Some(new_fee_bps) = params.new_fee_bps {
        if new_fee_bps > MAX_FEE_BPS {
            return Err(SuperSwapError::InvalidFeeConfiguration);
        }
        next.fee_bps = new_fee_bps;
    }
    if let Some(new_admin) = params.new_admin {
        next.admin = new_admin;
    }
    if let Some(new_across_handler) = params.new_across_handler {
        next.across_handler = new_across_handler;
    }
    if let Some(new_jupiter_program) = params.new_jupiter_program {
        next.jupiter_program = new_jupiter_program;
    }
    if let Some(new_fee_recipient) = params.new_fee_recipient {
        next.fee_recipient = new_fee_recipient;
    }
    Ok(next)
}

/// Updates the coordinator's configuration.
pub fn handler(state: &mut Coordinator, ctx: &UpdateConfig, params: UpdateConfigParams) -> (result: Result<
    (),
    InstructionError,
>)
    ensures
        (final(state)@, result) == update(old(state)@, *ctx, params),
        final(state)@.well_formed(),
{
    let config = match state.config() {
        Some(config) => config,
        None => {
            return Err(InstructionError::NotInitialized);
        },
    };
    match revise(&config, ctx, &params) {
        Ok(next) => {
            state.store_config(next);
            Ok(())
        },
        Err(refusal) => Err(InstructionError::Program(refusal)),
    }
}

/// The fee rate of a stored configuration never exceeds 10%: an update
/// that asks for more is refused and changes nothing, and every update
/// keeps the state well formed.
pub proof fn lemma_update_keeps_fee_bound(pre: CoordinatorView, ctx: UpdateConfig, params: UpdateConfigParams)
    ensures
        params.new_fee_bps matches Some(fee_bps) && fee_bps > MAX_FEE_BPS ==> update(pre, ctx, params).0
            == pre && update(pre, ctx, params).1 is Err,
        update(pre, ctx, params).1 is Err ==> update(pre, ctx, params).0 == pre,
        pre.well_formed() ==> update(pre, ctx, params).0.well_formed(),
        update(pre, ctx, params).0.orders == pre.orders,
        update(pre, ctx, params).0.accounts == pre.accounts,
{
}

} // verus!
