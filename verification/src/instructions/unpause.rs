//! Resuming the coordinator, by its admin.

use vstd::prelude::*;
use crate::coordinator::Coordinator;
use crate::error::InstructionError;
use crate::instructions::pause::{pause_switch, set_paused};
use crate::state::Pubkey;

verus! {

/// What is presented to resume the coordinator.
#[derive(Clone, Copy, Debug)]
pub struct Unpause {
    /// Who signs.
    pub admin: Pubkey,
}

/// Resumes the coordinator.
pub fn handler(state: &mut Coordinator, ctx: &Unpause) -> (result: Result<(), InstructionError>)
    ensures
        (final(state)@, result) == pause_switch(old(state)@, ctx.admin, false),
        final(state)@.well_formed(),
{
    set_paused(state, &ctx.admin, false)
}

} // verus!
