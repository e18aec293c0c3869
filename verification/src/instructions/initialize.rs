//! Creation of the coordinator's configuration.

use vstd::prelude::*;
use crate::coordinator::{Coordinator, CoordinatorView};
use crate::error::{InstructionError, SuperSwapError};
use crate::state::{Config, InitializeParams, Pubkey, MAX_FEE_BPS};

verus! {

/// What is presented to create the configuration.
#[derive(Clone, Copy, Debug)]
pub struct Initialize {
    /// Who signs, and becomes the admin.
    pub admin: Pubkey,
    /// Bump seed of the coordinator's own signing identity.
    pub bump: u8,
}

/// The configuration a successful initialisation stores: not paused, with
/// the signer as admin.
pub open spec fn initial_config(ctx: Initialize, params: InitializeParams) -> Config {
    Config {
        admin: ctx.admin,
        across_handler: params.across_handler,
        jupiter_program: params.jupiter_program,
        usdc_mint: params.usdc_mint,
        fee_recipient: params.fee_recipient,
        fee_bps: params.fee_bps,
        is_paused: false,
        bump: ctx.bump,
    }
}

/// What `configure` answers: the initial configuration, unless the fee
/// rate asked for is above 10%.
pub open spec fn configured(ctx: Initialize, params: InitializeParams) -> Result<Config, SuperSwapError> {
    if params.fee_bps > MAX_FEE_BPS {
        Err(SuperSwapError::InvalidFeeConfiguration)
    } else {
        Ok(initial_config(ctx, params))
    }
}

/// What initialising does: the configuration is created once, and never
/// with a fee rate above 10%.
pub open spec fn initialization(pre: CoordinatorView, ctx: Initialize, params: InitializeParams) -> (
    CoordinatorView,
    Result<(), InstructionError>,
) {
    if pre.config is Some {
        (pre, Err(InstructionError::AlreadyInitialized))
    } else {
        match configured(ctx, params) {
            Err(refusal) => (pre, Err(InstructionError::Program(refusal))),
            Ok(config) => (pre.with_config(config), Ok(())),
        }
    }
}

/// Makes the configuration that an initialisation stores.
pub fn configure(ctx: &Initialize, params: &InitializeParams) -> (result: Result<Config, SuperSwapError>)
    ensures
        result == configured(*ctx, *params),
        result matches Ok(config) ==> config.well_formed(),
{
    if params.fee_bps > MAX_FEE_BPS {
        return Err(SuperSwapError::InvalidFeeConfiguration);
    }
    Ok(
        Config {
            admin: ctx.admin,
            across_handler: params.across_handler,
            jupiter_program: params.jupiter_program,
            usdc_mint: params.usdc_mint,
            fee_recipient: params.fee_recipient,
            fee_bps: params.fee_bps,
            is_paused: false,
            bump: ctx.bump,
        },
    )
}

/// Creates the coordinator's configuration.
pub fn handler(state: &mut Coordinator, ctx: &Initialize, params: InitializeParams) -> (result: Result<
    (),
    InstructionError,
>)
    ensures
        (final(state)@, result) == initialization(old(state)@, *ctx, params),
        final(state)@.well_formed(),
{
    if state.config().is_some() {
        return Err(InstructionError::AlreadyInitialized);
    }
    match configure(ctx, &params) {
        Ok(config) => {
            state.store_config(config);
        },
        Err(refusal) => {
            return Err(InstructionError::Program(refusal));
        },
    }
    Ok(())
}

/// The configuration is created once and within the fee bound: a second
/// initialisation is refused, one with a fee rate above 10% is refused, a
/// refusal changes nothing, and initialising keeps the state well formed.
pub proof fn lemma_initialization_is_sound(pre: CoordinatorView, ctx: Initialize, params: InitializeParams)
    ensures
        pre.config is Some || params.fee_bps > MAX_FEE_BPS ==> initialization(pre, ctx, params).0 == pre
            && initialization(pre, ctx, params).1 is Err,
        initialization(pre, ctx, params).1 is Ok ==> initialization(pre, ctx, params).0.config == Some(
            initial_config(ctx, params),
        ) && !initial_config(ctx, params).is_paused,
        pre.well_formed() ==> initialization(pre, ctx, params).0.well_formed(),
        initialization(pre, ctx, params).0.orders == pre.orders,
        initialization(pre, ctx, params).0.accounts == pre.accounts,
{
}

} // verus!
