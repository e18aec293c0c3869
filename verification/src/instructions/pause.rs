//! Pausing the coordinator, by its admin.

use vstd::prelude::*;
use crate::coordinator::{Coordinator, CoordinatorView};
use crate::error::{InstructionError, SuperSwapError};
use crate::state::{Config, Pubkey};

verus! {

/// What is presented to pause the coordinator.
#[derive(Clone, Copy, Debug)]
pub struct Pause {
    /// Who signs.
    pub admin: Pubkey,
}

/// `config` with the paused flag set to `paused`.
pub open spec fn with_paused(config: Config, paused: bool) -> Config {
    Config {
        admin: config.admin,
        across_handler: config.across_handler,
        jupiter_program: config.jupiter_program,
        usdc_mint: config.usdc_mint,
        fee_recipient: config.fee_recipient,
        fee_bps: config.fee_bps,
        is_paused: paused,
        bump: config.bump,
    }
}

/// What `switch` answers: the configuration with the flag set, unless the
/// signer is not the admin.
pub open spec fn switched(config: Config, admin: Pubkey, paused: bool) -> Result<Config, SuperSwapError> {
    if admin != config.admin {
        Err(SuperSwapError::Unauthorized)
    } else {
        Ok(with_paused(config, paused))
    }
}

/// What setting the paused flag does: only the admin may set it, and
/// nothing else changes.
pub open spec fn pause_switch(pre: CoordinatorView, admin: Pubkey, paused: bool) -> (
    CoordinatorView,
    Result<(), InstructionError>,
) {
    match pre.config {
        None => (pre, Err(InstructionError::NotInitialized)),
        Some(config) => match switched(config, admin, paused) {
            Err(refusal) => (pre, Err(InstructionError::Program(refusal))),
            Ok(next) => (pre.with_config(next), Ok(())),
        },
    }
}

/// Makes the configuration with the paused flag set to `paused`, on the
/// word of `admin`.
pub fn switch(config: &Config, admin: &Pubkey, paused: bool) -> (result: Result<Config, SuperSwapError>)
    ensures
        result == switched(*config, *admin, paused),
        config.well_formed() ==> (result matches Ok(next) ==> next.well_formed()),
{
    if *admin != config.admin {
        return Err(SuperSwapError::Unauthorized);
    }
    let mut next = *config;
    next.is_paused = paused;
    Ok(next)
}

/// Sets the paused flag on the word of `admin`.
pub fn set_paused(state: &mut Coordinator, admin: &Pubkey, paused: bool) -> (result: Result<
    (),
    InstructionError,
>)
    ensures
        (final(state)@, result) == pause_switch(old(state)@, *admin, paused),
        final(state)@.well_formed(),
{
    let config = match state.config() {
        Some(config) => config,
        None => {
            return Err(InstructionError::NotInitialized);
        },
    };
    match switch(&config, admin, paused) {
        Ok(next) => {
            state.store_config(next);
            Ok(())
        },
        Err(refusal) => Err(InstructionError::Program(refusal)),
    }
}

/// Pauses the coordinator.
pub fn handler(state: &mut Coordinator, ctx: &Pause) -> (result: Result<(), InstructionError>)
    ensures
        (final(state)@, result) == pause_switch(old(state)@, ctx.admin, true),
        final(state)@.well_formed(),
{
    set_paused(state, &ctx.admin, true)
}

/// Setting the paused flag touches nothing but the flag, and keeps the
/// state well formed.
pub proof fn lemma_pause_switch_is_sound(pre: CoordinatorView, admin: Pubkey, paused: bool)
    ensures
        pause_switch(pre, admin, paused).1 is Err ==> pause_switch(pre, admin, paused).0 == pre,
        pause_switch(pre, admin, paused).1 is Ok ==> pause_switch(pre, admin, paused).0.config->Some_0
            == with_paused(pre.config->Some_0, paused),
        pause_switch(pre, admin, paused).0.orders == pre.orders,
        pause_switch(pre, admin, paused).0.accounts == pre.accounts,
        pre.well_formed() ==> pause_switch(pre, admin, paused).0.well_formed(),
{
}

} // verus!
