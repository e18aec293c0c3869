//! The coordinator's whole state: its configuration, the settlement orders
//! by identifier, and the asset ledger it keeps custody on.

use vstd::prelude::*;
use std::collections::HashMap;
use crate::custody::{
    account_at,
    after_deposit,
    deposit_result,
    Authority,
    CustodyError,
    Ledger,
    TokenAccount,
};
use crate::state::{Config, Pubkey, SwapOrder};

verus! {

/// The coordinator's state as plain mathematics.
pub struct CoordinatorView {
    /// The configuration, once the coordinator is initialised.
    pub config: Option<Config>,
    /// The settlement orders, by identifier.
    pub orders: Map<u64, SwapOrder>,
    /// The token accounts of the ledger, by address.
    pub accounts: Map<Pubkey, TokenAccount>,
}

impl CoordinatorView {
    /// What holds of every state the coordinator reaches: a stored fee rate
    /// is at most 10%, and every order is filed under its own identifier
    /// and is for an amount above zero.
    pub open spec fn well_formed(self) -> bool {
        &&& self.config matches Some(config) ==> config.well_formed()
        &&& forall|id: u64| #[trigger]
            self.orders.contains_key(id) ==> self.orders[id].order_id == id && self.orders[id].usdc_amount
                > 0
    }

    /// This state with another configuration.
    pub open spec fn with_config(self, config: Config) -> CoordinatorView {
        CoordinatorView { config: Some(config), orders: self.orders, accounts: self.accounts }
    }

    /// This state with `order` filed under its identifier.
    pub open spec fn with_order(self, order: SwapOrder) -> CoordinatorView {
        CoordinatorView {
            config: self.config,
            orders: self.orders.insert(order.order_id, order),
            accounts: self.accounts,
        }
    }

    /// This state with other token accounts.
    pub open spec fn with_accounts(self, accounts: Map<Pubkey, TokenAccount>) -> CoordinatorView {
        CoordinatorView { config: self.config, orders: self.orders, accounts }
    }
}

/// The settlement coordinator.
pub struct Coordinator {
    config: Option<Config>,
    orders: HashMap<u64, SwapOrder>,
    ledger: Ledger,
}

impl View for Coordinator {
    type V = CoordinatorView;

    closed spec fn view(&self) -> CoordinatorView {
        CoordinatorView { config: self.config, orders: self.orders@, accounts: self.ledger@ }
    }
}

impl Coordinator {
    #[verifier::type_invariant]
    spec fn records_are_sound(self) -> bool {
        self@.well_formed()
    }

    /// A coordinator that is not initialised, with no order and no account.
    pub fn new() -> (coordinator: Coordinator)
        ensures
            coordinator@.config is None,
            coordinator@.orders == Map::<u64, SwapOrder>::empty(),
            coordinator@.accounts == Map::<Pubkey, TokenAccount>::empty(),
    {
        Coordinator { config: None, orders: HashMap::new(), ledger: Ledger::new() }
    }

    /// The configuration, once the coordinator is initialised.
    pub fn config(&self) -> (config: Option<Config>)
        ensures
            config == self@.config,
            self@.well_formed(),
    {
        proof {
            use_type_invariant(self);
        }
        self.config
    }

    /// The order filed under `order_id`, if there is one.
    pub fn order(&self, order_id: u64) -> (order: Option<SwapOrder>)
        ensures
            order == (if self@.orders.contains_key(order_id) {
                Some(self@.orders[order_id])
            } else {
                None
            }),
            self@.well_formed(),
    {
        proof {
            use_type_invariant(self);
        }
        match self.orders.get(&order_id) {
            Some(order) => Some(*order),
            None => None,
        }
    }

    /// The token account at `address`, if there is one.
    pub fn account(&self, address: &Pubkey) -> (account: Option<TokenAccount>)
        ensures
            account == account_at(self@.accounts, *address),
    {
        self.ledger.account(address)
    }

    /// Opens an empty token account on the ledger. Fails, changing nothing,
    /// where the address is taken.
    pub fn open_account(&mut self, address: Pubkey, mint: Pubkey, owner: Authority) -> (result: Result<
        (),
        CustodyError,
    >)
        ensures
            old(self)@.accounts.contains_key(address) ==> result == Err::<(), CustodyError>(
                CustodyError::AccountInUse,
            ) && final(self)@ == old(self)@,
            !old(self)@.accounts.contains_key(address) ==> result == Ok::<(), CustodyError>(())
                && final(self)@ == old(self)@.with_accounts(
                old(self)@.accounts.insert(address, TokenAccount { mint, owner, amount: 0 }),
            ),
    {
        proof {
            use_type_invariant(&*self);
        }
        let mut ledger = Ledger::new();
        std::mem::swap(&mut ledger, &mut self.ledger);
        let result = ledger.open_account(address, mint, owner);
        self.ledger = ledger;
        result
    }

    /// Credits value that arrives from outside the ledger to the account at
    /// `to`.
    pub fn deposit(&mut self, to: &Pubkey, amount: u64) -> (result: Result<(), CustodyError>)
        ensures
            result == deposit_result(old(self)@.accounts, *to, amount),
            final(self)@ == (if result is Ok {
                old(self)@.with_accounts(after_deposit(old(self)@.accounts, *to, amount))
            } else {
                old(self)@
            }),
    {
        proof {
            use_type_invariant(&*self);
        }
        let mut ledger = Ledger::new();
        std::mem::swap(&mut ledger, &mut self.ledger);
        let result = ledger.deposit(to, amount);
        self.ledger = ledger;
        result
    }

    /// A copy of the ledger to stage movements on.
    pub(crate) fn stage_ledger(&self) -> (ledger: Ledger)
        ensures
            ledger@ == self@.accounts,
    {
        self.ledger.snapshot()
    }

    /// Puts a staged ledger in the place of the coordinator's.
    pub(crate) fn commit_ledger(&mut self, ledger: Ledger)
        ensures
            final(self)@ == old(self)@.with_accounts(ledger@),
            final(self)@.well_formed(),
    {
        proof {
            use_type_invariant(&*self);
        }
        self.ledger = ledger;
    }

    /// Stores a configuration.
    pub(crate) fn store_config(&mut self, config: Config)
        requires
            config.well_formed(),
        ensures
            final(self)@ == old(self)@.with_config(config),
            final(self)@.well_formed(),
    {
        proof {
            use_type_invariant(&*self);
        }
        self.config = Some(config);
    }

    /// Files `order`, which is for an amount above zero, under its
    /// identifier, in the place of any order there.
    pub(crate) fn store_order(&mut self, order: SwapOrder)
        requires
            order.usdc_amount > 0,
        ensures
            final(self)@ == old(self)@.with_order(order),
            final(self)@.well_formed(),
    {
        proof {
            use_type_invariant(&*self);
        }
        let mut orders: HashMap<u64, SwapOrder> = HashMap::new();
        std::mem::swap(&mut orders, &mut self.orders);
        orders.insert(order.order_id, order);
        self.orders = orders;
    }
}

} // verus!
