//! The records the coordinator keeps: its configuration and one settlement
//! order per bridged transfer, with the order's life cycle.

use vstd::prelude::*;
use vstd::std_specs::cmp::PartialEqSpecImpl;

verus! {

/// The highest fee rate a configuration may carry, in basis points (10%).
pub const MAX_FEE_BPS: u16 = 1000;

/// A 32-byte identity: of a caller, an asset, an account or a program.
#[derive(Clone, Copy, Debug, Eq)]
pub struct Pubkey {
    pub bytes: [u8; 32],
}

impl PartialEq for Pubkey {
    fn eq(&self, other: &Self) -> (same: bool) {
        let mut i: usize = 0;
        while i < 32
            invariant
                i <= 32,
                forall|j: int| 0 <= j < i ==> self.bytes[j] == other.bytes[j],
            decreases 32 - i,
        {
            if self.bytes[i] != other.bytes[i] {
                return false;
            }
            i += 1;
        }
        assert(self.bytes =~= other.bytes);
        true
    }
}

impl PartialEqSpecImpl for Pubkey {
    open spec fn obeys_eq_spec() -> bool {
        true
    }

    open spec fn eq_spec(&self, other: &Self) -> bool {
        *self == *other
    }
}

impl Pubkey {
    /// Whether this is the null identity: thirty-two zero bytes.
    pub open spec fn is_null(self) -> bool {
        forall|i: int| 0 <= i < 32 ==> self.bytes[i] == 0
    }

    /// The identity made of the given bytes.
    pub fn new_from_array(bytes: [u8; 32]) -> (key: Pubkey)
        ensures
            key.bytes == bytes,
    {
        Pubkey { bytes }
    }

    /// The bytes of this identity.
    pub fn to_bytes(&self) -> (bytes: [u8; 32])
        ensures
            bytes == self.bytes,
    {
        self.bytes
    }

    /// Whether this is the null identity.
    pub fn is_default(&self) -> (null: bool)
        ensures
            null == self.is_null(),
    {
        let zero = Pubkey::default();
        proof {
            Pubkey::lemma_null_is_unique(*self, zero);
        }
        *self == zero
    }

    /// There is one null identity: two identities that are both null are equal.
    pub proof fn lemma_null_is_unique(a: Pubkey, b: Pubkey)
        requires
            b.is_null(),
        ensures
            a.is_null() <==> a == b,
    {
        if a.is_null() {
            assert(a.bytes =~= b.bytes);
        }
    }
}

impl Default for Pubkey {
    fn default() -> (key: Pubkey)
        ensures
            key.is_null(),
    {
        Pubkey { bytes: [0u8; 32] }
    }
}

/// Where a settlement order stands in its life.
#[derive(Clone, Copy, Debug, PartialEq, Eq, Structural)]
pub enum OrderStatus {
    /// Order is being processed.
    Pending,
    /// Swap completed successfully.
    Completed,
    /// The bridged amount went back to the recipient.
    Refunded,
    /// The swap did not deliver the minimum output.
    Failed,
}

/// What can happen to a settlement order once it exists.
#[derive(Clone, Copy, Debug, PartialEq, Eq, Structural)]
pub enum OrderEvent {
    /// The swap delivered at least the minimum output.
    SwapSucceeded,
    /// The swap delivered less than the minimum output, or timed out.
    SwapFailed,
    /// A refund of the bridged amount was asked for and paid.
    RefundRequested,
}

impl OrderStatus {
    /// The transition table: the status that follows `self` on `event`, if
    /// the table has such a transition.
    pub open spec fn spec_next(self, event: OrderEvent) -> Option<OrderStatus> {
        match (self, event) {
            (OrderStatus::Pending, OrderEvent::SwapSucceeded) => Some(OrderStatus::Completed),
            (OrderStatus::Pending, OrderEvent::SwapFailed) => Some(OrderStatus::Failed),
            (OrderStatus::Pending, OrderEvent::RefundRequested) => Some(OrderStatus::Refunded),
            (OrderStatus::Failed, OrderEvent::RefundRequested) => Some(OrderStatus::Refunded),
            _ => None,
        }
    }

    /// A status from which the bridged amount may still be refunded.
    pub open spec fn spec_is_refundable(self) -> bool {
        self is Pending || self is Failed
    }

    /// A status that no event leads out of.
    pub open spec fn spec_is_terminal(self) -> bool {
        self is Completed || self is Refunded
    }

    /// Returns the status that follows on `event`, or `None` where the
    /// transition table has no such move.
    pub fn next(self, event: OrderEvent) -> (following: Option<OrderStatus>)
        ensures
            following == self.spec_next(event),
    {
        match self {
            OrderStatus::Pending => match event {
                OrderEvent::SwapSucceeded => Some(OrderStatus::Completed),
                OrderEvent::SwapFailed => Some(OrderStatus::Failed),
                OrderEvent::RefundRequested => Some(OrderStatus::Refunded),
            },
            OrderStatus::Failed => match event {
                OrderEvent::RefundRequested => Some(OrderStatus::Refunded),
                _ => None,
            },
            _ => None,
        }
    }

    /// Whether a refund may still be paid from this status.
    pub fn is_refundable(self) -> (refundable: bool)
        ensures
            refundable == self.spec_is_refundable(),
            refundable == (self.spec_next(OrderEvent::RefundRequested) == Some(OrderStatus::Refunded)),
    {
        match self {
            OrderStatus::Pending => true,
            OrderStatus::Failed => true,
            _ => false,
        }
    }

    /// Whether this status is final.
    pub fn is_terminal(self) -> (terminal: bool)
        ensures
            terminal == self.spec_is_terminal(),
    {
        match self {
            OrderStatus::Completed => true,
            OrderStatus::Refunded => true,
            _ => false,
        }
    }
}

/// Global configuration of the coordinator.
#[derive(Clone, Copy, Debug, PartialEq, Eq)]
pub struct Config {
    /// Admin who can update the configuration.
    pub admin: Pubkey,
    /// The relayer: the only caller that may open settlement orders.
    pub across_handler: Pubkey,
    /// The swap engine: the only program the swap delegate may call.
    pub jupiter_program: Pubkey,
    /// The settlement asset: the only asset accepted as bridged input.
    pub usdc_mint: Pubkey,
    /// Who receives the protocol fee.
    pub fee_recipient: Pubkey,
    /// Fee in basis points (1 bp = 0.01%).
    pub fee_bps: u16,
    /// Whether the coordinator is paused.
    pub is_paused: bool,
    /// Bump seed of the coordinator's own signing identity.
    pub bump: u8,
}

impl Config {
    /// Size of the stored record in bytes: an 8-byte tag, five identities,
    /// the fee rate, the paused flag and the bump.
    pub const LEN: usize = 8 + 32 + 32 + 32 + 32 + 32 + 2 + 1 + 1;

    /// The invariant of a stored configuration: the fee rate is at most 10%.
    pub open spec fn well_formed(self) -> bool {
        self.fee_bps <= MAX_FEE_BPS
    }
}

/// One settlement order: a bridged transfer being turned into the asset the
/// recipient asked for.
#[derive(Clone, Copy, Debug, PartialEq, Eq)]
pub struct SwapOrder {
    /// Order identifier, unique over all orders.
    pub order_id: u64,
    /// Who receives the swapped asset, or the refund.
    pub recipient: Pubkey,
    /// Gross amount of the settlement asset that was bridged.
    pub usdc_amount: u64,
    /// Minimum output amount expected from the swap.
    pub min_output_amount: u64,
    /// The asset the recipient asked for.
    pub destination_mint: Pubkey,
    /// Deadline timestamp.
    pub deadline: i64,
    /// Status of the order.
    pub status: OrderStatus,
    /// Bump seed of the order's own address.
    pub bump: u8,
}

/// Parameters for initialization.
#[derive(Clone, Copy, Debug)]
pub struct InitializeParams {
    pub across_handler: Pubkey,
    pub jupiter_program: Pubkey,
    pub usdc_mint: Pubkey,
    pub fee_recipient: Pubkey,
    pub fee_bps: u16,
}

/// Parameters for updating configuration: each field that is `Some`
/// replaces the stored one.
#[derive(Clone, Copy, Debug)]
pub struct UpdateConfigParams {
    pub new_admin: Option<Pubkey>,
    pub new_across_handler: Option<Pubkey>,
    pub new_jupiter_program: Option<Pubkey>,
    pub new_fee_recipient: Option<Pubkey>,
    pub new_fee_bps: Option<u16>,
}

/// Parameters for processing a bridged transfer.
#[derive(Clone, Debug)]
pub struct ProcessBridgeAndSwapParams {
    pub order_id: u64,
    pub recipient: Pubkey,
    pub usdc_amount: u64,
    pub min_output_amount: u64,
    pub destination_mint: Pubkey,
    pub deadline: i64,
    /// Instruction payload for the swap engine, forwarded as it is.
    pub jupiter_swap_data: Vec<u8>,
}

/// Parameters for a call of the swap engine.
#[derive(Clone, Debug)]
pub struct ExecuteJupiterSwapParams {
    pub swap_data: Vec<u8>,
}

/// Parameters for recovering funds.
#[derive(Clone, Copy, Debug)]
pub struct RecoverFundsParams {
    pub token_mint: Pubkey,
    pub amount: u64,
}

impl SwapOrder {
    /// Size of the stored record in bytes: an 8-byte tag, the identifier,
    /// the recipient, two amounts, the destination asset, the deadline, the
    /// status and the bump.
    pub const LEN: usize = 8 + 8 + 32 + 8 + 8 + 32 + 8 + 1 + 1;

    /// The order that a request opens: the request's fields, status `Pending`.
    pub open spec fn opened(params: ProcessBridgeAndSwapParams, bump: u8) -> SwapOrder {
        SwapOrder {
            order_id: params.order_id,
            recipient: params.recipient,
            usdc_amount: params.usdc_amount,
            min_output_amount: params.min_output_amount,
            destination_mint: params.destination_mint,
            deadline: params.deadline,
            status: OrderStatus::Pending,
            bump,
        }
    }

    /// This order after `event`: moved along the transition table, or as it
    /// was where the table has no such move.
    pub open spec fn after(self, event: OrderEvent) -> SwapOrder {
        match self.status.spec_next(event) {
            Some(status) => SwapOrder { status, ..self },
            None => self,
        }
    }

    /// Opens the order of a request, in status `Pending`.
    pub fn open(params: &ProcessBridgeAndSwapParams, bump: u8) -> (order: SwapOrder)
        ensures
            order == SwapOrder::opened(*params, bump),
    {
        SwapOrder {
            order_id: params.order_id,
            recipient: params.recipient,
            usdc_amount: params.usdc_amount,
            min_output_amount: params.min_output_amount,
            destination_mint: params.destination_mint,
            deadline: params.deadline,
            status: OrderStatus::Pending,
            bump,
        }
    }

    /// Moves the order along the transition table. Returns whether the table
    /// has a transition for `event` from the order's status; where it has
    /// none the order stays as it was.
    pub fn apply(&mut self, event: OrderEvent) -> (moved: bool)
        ensures
            moved == old(self).status.spec_next(event).is_some(),
            *final(self) == old(self).after(event),
    {
        match self.status.next(event) {
            Some(status) => {
                self.status = status;
                true
            },
            None => false,
        }
    }
}

/// `Completed` and `Refunded` are final: no event leads out of them.
pub proof fn lemma_terminal_status_is_final(status: OrderStatus, event: OrderEvent)
    requires
        status.spec_is_terminal(),
    ensures
        status.spec_next(event) is None,
{
}

/// `Refunded` is reached only by a refund, and only from `Pending` or
/// `Failed`.
pub proof fn lemma_refunded_only_from_pending_or_failed(status: OrderStatus, event: OrderEvent)
    requires
        status.spec_next(event) == Some(OrderStatus::Refunded),
    ensures
        status is Pending || status is Failed,
        event is RefundRequested,
{
}

/// `Completed` and `Failed` are reached only from `Pending`, by the outcome
/// of the swap; the only way out of `Failed` is a refund.
pub proof fn lemma_swap_decides_pending_orders_only(status: OrderStatus, event: OrderEvent)
    ensures
        status.spec_next(event) == Some(OrderStatus::Completed) ==> status is Pending
            && event is SwapSucceeded,
        status.spec_next(event) == Some(OrderStatus::Failed) ==> status is Pending && event is SwapFailed,
        status.spec_next(event) is Some ==> status.spec_next(event) != Some(OrderStatus::Pending),
        status is Failed && status.spec_next(event) is Some ==> event is RefundRequested,
{
}

} // verus!
