//! The asset custody adapter: token accounts and the movement of value
//! between them, authorised by an outside signer or by the coordinator's own
//! keyless authority.

use vstd::prelude::*;
use vstd::std_specs::cmp::PartialEqSpecImpl;
use crate::state::Pubkey;

verus! {

/// Who stands behind a token account, or authorises a transfer out of one.
#[derive(Clone, Copy, Debug, Eq)]
pub enum Authority {
    /// An outside identity that signs with its own key.
    ExternalSigner(Pubkey),
    /// The coordinator's own program-owned authority, which has no key.
    SystemOwned,
}

impl PartialEq for Authority {
    fn eq(&self, other: &Self) -> (same: bool) {
        match (self, other) {
            (Authority::ExternalSigner(a), Authority::ExternalSigner(b)) => *a == *b,
            (Authority::SystemOwned, Authority::SystemOwned) => true,
            _ => false,
        }
    }
}

impl PartialEqSpecImpl for Authority {
    open spec fn obeys_eq_spec() -> bool {
        true
    }

    open spec fn eq_spec(&self, other: &Self) -> bool {
        *self == *other
    }
}

/// A balance of one asset, held for one owner.
#[derive(Clone, Copy, Debug, PartialEq, Eq)]
pub struct TokenAccount {
    /// The asset this account holds.
    pub mint: Pubkey,
    /// Who may move value out of this account.
    pub owner: Authority,
    /// The balance.
    pub amount: u64,
}

/// One movement of value: how much, from where to where, and on whose word.
#[derive(Clone, Copy, Debug, PartialEq, Eq)]
pub struct Movement {
    /// The address of the account that pays.
    pub from: Pubkey,
    /// The address of the account that receives.
    pub to: Pubkey,
    /// Who authorises the movement.
    pub authority: Authority,
    /// The amount that moves.
    pub amount: u64,
}

/// Why the ledger refused an operation.
#[derive(Clone, Copy, Debug, PartialEq, Eq, Structural)]
pub enum CustodyError {
    /// No account at the source address.
    SourceNotFound,
    /// No account at the destination address.
    DestinationNotFound,
    /// Source and destination hold different assets.
    MintMismatch,
    /// The authority given is not the owner of the source account.
    OwnerMismatch,
    /// The source holds less than the amount.
    InsufficientFunds,
    /// The destination balance would exceed sixty-four bits.
    Overflow,
    /// An account exists at the address already.
    AccountInUse,
}

/// The account at `address`, if `accounts` has one there.
pub open spec fn account_at(accounts: Map<Pubkey, TokenAccount>, address: Pubkey) -> Option<TokenAccount> {
    if accounts.contains_key(address) {
        Some(accounts[address])
    } else {
        None
    }
}

/// `account` with its balance replaced.
pub open spec fn with_amount(account: TokenAccount, amount: int) -> TokenAccount {
    TokenAccount { mint: account.mint, owner: account.owner, amount: amount as u64 }
}

/// Whether a transfer of `amount` from `from` to `to` under `authority` goes
/// through on `accounts`, and if not, why.
pub open spec fn transfer_result(
    accounts: Map<Pubkey, TokenAccount>,
    from: Pubkey,
    to: Pubkey,
    authority: Authority,
    amount: u64,
) -> Result<(), CustodyError> {
    if !accounts.contains_key(from) {
        Err(CustodyError::SourceNotFound)
    } else if !accounts.contains_key(to) {
        Err(CustodyError::DestinationNotFound)
    } else if accounts[from].mint != accounts[to].mint {
        Err(CustodyError::MintMismatch)
    } else if accounts[from].owner != authority {
        Err(CustodyError::OwnerMismatch)
    } else if accounts[from].amount < amount {
        Err(CustodyError::InsufficientFunds)
    } else if from != to && accounts[to].amount + amount > u64::MAX {
        Err(CustodyError::Overflow)
    } else {
        Ok(())
    }
}

/// The accounts after `amount` has moved from `from` to `to`.
pub open spec fn after_transfer(
    accounts: Map<Pubkey, TokenAccount>,
    from: Pubkey,
    to: Pubkey,
    amount: u64,
) -> Map<Pubkey, TokenAccount> {
    if from == to {
        accounts
    } else {
        accounts.insert(from, with_amount(accounts[from], accounts[from].amount - amount)).insert(
            to,
            with_amount(accounts[to], accounts[to].amount + amount),
        )
    }
}

/// Whether `amount` arriving from outside the ledger can be credited to `to`.
pub open spec fn deposit_result(accounts: Map<Pubkey, TokenAccount>, to: Pubkey, amount: u64) -> Result<
    (),
    CustodyError,
> {
    if !accounts.contains_key(to) {
        Err(CustodyError::DestinationNotFound)
    } else if accounts[to].amount + amount > u64::MAX {
        Err(CustodyError::Overflow)
    } else {
        Ok(())
    }
}

/// The accounts after `amount` has been credited to `to`.
pub open spec fn after_deposit(accounts: Map<Pubkey, TokenAccount>, to: Pubkey, amount: u64) -> Map<
    Pubkey,
    TokenAccount,
> {
    accounts.insert(to, with_amount(accounts[to], accounts[to].amount + amount))
}

/// Whether `amount` can leave the ledger from `from` under `authority`.
pub open spec fn withdraw_result(
    accounts: Map<Pubkey, TokenAccount>,
    from: Pubkey,
    authority: Authority,
    amount: u64,
) -> Result<(), CustodyError> {
    if !accounts.contains_key(from) {
        Err(CustodyError::SourceNotFound)
    } else if accounts[from].owner != authority {
        Err(CustodyError::OwnerMismatch)
    } else if accounts[from].amount < amount {
        Err(CustodyError::InsufficientFunds)
    } else {
        Ok(())
    }
}

/// The accounts after `amount` has been debited from `from`.
pub open spec fn after_withdraw(accounts: Map<Pubkey, TokenAccount>, from: Pubkey, amount: u64) -> Map<
    Pubkey,
    TokenAccount,
> {
    accounts.insert(from, with_amount(accounts[from], accounts[from].amount - amount))
}

/// A transfer neither makes nor loses value: between two different
/// accounts the source loses the amount, the destination gains it, owners
/// and assets stay, and every other account is as it was.
pub proof fn lemma_transfer_conserves_value(
    accounts: Map<Pubkey, TokenAccount>,
    from: Pubkey,
    to: Pubkey,
    authority: Authority,
    amount: u64,
)
    requires
        transfer_result(accounts, from, to, authority, amount) is Ok,
    ensures
        after_transfer(accounts, from, to, amount).dom() == accounts.dom(),
        from != to ==> after_transfer(accounts, from, to, amount)[from].amount + after_transfer(
            accounts,
            from,
            to,
            amount,
        )[to].amount == accounts[from].amount + accounts[to].amount,
        from != to ==> after_transfer(accounts, from, to, amount)[from].amount == accounts[from].amount
            - amount,
        forall|address: Pubkey| #[trigger]
            accounts.contains_key(address) ==> after_transfer(accounts, from, to, amount)[address].mint
                == accounts[address].mint && after_transfer(accounts, from, to, amount)[address].owner
                == accounts[address].owner,
        forall|address: Pubkey|
            address != from && address != to ==> #[trigger] account_at(
                after_transfer(accounts, from, to, amount),
                address,
            ) == account_at(accounts, address),
{
    assert(after_transfer(accounts, from, to, amount).dom() =~= accounts.dom());
}

/// One token account at its address.
#[derive(Clone, Copy, Debug)]
struct LedgerEntry {
    address: Pubkey,
    account: TokenAccount,
}

/// Whether some entry of `entries` stands at `address`.
spec fn listed(entries: Seq<LedgerEntry>, address: Pubkey) -> bool {
    exists|i: int| 0 <= i < entries.len() && #[trigger] entries[i].address == address
}

/// The index of an entry of `entries` at `address`.
spec fn slot_of(entries: Seq<LedgerEntry>, address: Pubkey) -> int {
    choose|i: int| 0 <= i < entries.len() && #[trigger] entries[i].address == address
}

/// No two entries of `entries` share an address.
spec fn distinct(entries: Seq<LedgerEntry>) -> bool {
    forall|i: int, j: int|
        0 <= i < j < entries.len() ==> #[trigger] entries[i].address != #[trigger] entries[j].address
}

/// The accounts that `entries` list, by address.
spec fn accounts_of(entries: Seq<LedgerEntry>) -> Map<Pubkey, TokenAccount> {
    Map::new(
        |address: Pubkey| listed(entries, address),
        |address: Pubkey| entries[slot_of(entries, address)].account,
    )
}

/// With distinct addresses, the entry at an address is the only one there.
proof fn lemma_slot_is_unique(entries: Seq<LedgerEntry>, i: int)
    requires
        distinct(entries),
        0 <= i < entries.len(),
    ensures
        listed(entries, entries[i].address),
        slot_of(entries, entries[i].address) == i,
        accounts_of(entries).contains_key(entries[i].address),
        accounts_of(entries)[entries[i].address] == entries[i].account,
{
    let address = entries[i].address;
    assert(listed(entries, address));
    let j = slot_of(entries, address);
    assert(0 <= j < entries.len() && entries[j].address == address);
    if j < i {
        assert(entries[j].address != entries[i].address);
    } else if i < j {
        assert(entries[i].address != entries[j].address);
    }
}

/// Replacing the account of one entry replaces it in the accounts listed.
proof fn lemma_update_entry(entries: Seq<LedgerEntry>, i: int, account: TokenAccount)
    requires
        distinct(entries),
        0 <= i < entries.len(),
    ensures
        distinct(entries.update(i, LedgerEntry { address: entries[i].address, account })),
        accounts_of(entries.update(i, LedgerEntry { address: entries[i].address, account }))
            == accounts_of(entries).insert(entries[i].address, account),
{
    let address = entries[i].address;
    let updated = entries.update(i, LedgerEntry { address, account });
    assert(distinct(updated)) by {
        assert forall|a: int, b: int| 0 <= a < b < updated.len() implies #[trigger] updated[a].address
            != #[trigger] updated[b].address by {
            assert(updated[a].address == entries[a].address);
            assert(updated[b].address == entries[b].address);
        }
    }
    let before = accounts_of(entries);
    let after = accounts_of(updated);
    let expected = before.insert(address, account);
    assert forall|key: Pubkey| after.contains_key(key) <==> expected.contains_key(key) by {
        if listed(updated, key) {
            let k = slot_of(updated, key);
            assert(entries[k].address == key);
        }
        if listed(entries, key) {
            let k = slot_of(entries, key);
            assert(updated[k].address == key);
        }
        if key == address {
            assert(updated[i].address == key);
        }
    }
    assert forall|key: Pubkey| after.contains_key(key) implies after[key] == expected[key] by {
        let k = slot_of(updated, key);
        assert(0 <= k < updated.len() && updated[k].address == key);
        lemma_slot_is_unique(updated, k);
        if k == i {
            assert(key == address);
        } else {
            assert(entries[k].address == key);
            lemma_slot_is_unique(entries, k);
            assert(key != address) by {
                lemma_slot_is_unique(entries, i);
            }
        }
    }
    assert(after =~= expected);
}

/// Appending an entry at an unlisted address adds it to the accounts listed.
proof fn lemma_push_entry(entries: Seq<LedgerEntry>, entry: LedgerEntry)
    requires
        distinct(entries),
        !listed(entries, entry.address),
    ensures
        distinct(entries.push(entry)),
        accounts_of(entries.push(entry)) == accounts_of(entries).insert(entry.address, entry.account),
{
    let pushed = entries.push(entry);
    let last = entries.len() as int;
    assert(distinct(pushed)) by {
        assert forall|a: int, b: int| 0 <= a < b < pushed.len() implies #[trigger] pushed[a].address
            != #[trigger] pushed[b].address by {
            if b == last {
                assert(entries[a].address == pushed[a].address);
                assert(!listed(entries, entry.address));
            } else {
                assert(entries[a].address == pushed[a].address);
                assert(entries[b].address == pushed[b].address);
            }
        }
    }
    let after = accounts_of(pushed);
    let expected = accounts_of(entries).insert(entry.address, entry.account);
    assert forall|key: Pubkey| after.contains_key(key) <==> expected.contains_key(key) by {
        if listed(pushed, key) {
            let k = slot_of(pushed, key);
            if k < last {
                assert(entries[k].address == key);
            }
        }
        if listed(entries, key) {
            let k = slot_of(entries, key);
            assert(pushed[k].address == key);
        }
        if key == entry.address {
            assert(pushed[last].address == key);
        }
    }
    assert forall|key: Pubkey| after.contains_key(key) implies after[key] == expected[key] by {
        let k = slot_of(pushed, key);
        assert(0 <= k < pushed.len() && pushed[k].address == key);
        lemma_slot_is_unique(pushed, k);
        if k < last {
            assert(entries[k].address == key);
            lemma_slot_is_unique(entries, k);
        }
    }
    assert(after =~= expected);
}

/// The asset ledger: token accounts by address.
#[derive(Debug)]
pub struct Ledger {
    entries: Vec<LedgerEntry>,
}

impl View for Ledger {
    type V = Map<Pubkey, TokenAccount>;

    closed spec fn view(&self) -> Map<Pubkey, TokenAccount> {
        accounts_of(self.entries@)
    }
}

impl Ledger {
    #[verifier::type_invariant]
    spec fn addresses_are_distinct(self) -> bool {
        distinct(self.entries@)
    }

    /// A ledger without accounts.
    pub fn new() -> (ledger: Ledger)
        ensures
            ledger@ == Map::<Pubkey, TokenAccount>::empty(),
    {
        let ledger = Ledger { entries: Vec::new() };
        assert(ledger@ =~= Map::<Pubkey, TokenAccount>::empty());
        ledger
    }

    /// The index of the entry at `address`, if there is one.
    fn find(&self, address: &Pubkey) -> (slot: Option<usize>)
        ensures
            match slot {
                Some(i) => i < self.entries@.len() && self.entries@[i as int].address == *address,
                None => !listed(self.entries@, *address),
            },
    {
        let mut i: usize = 0;
        while i < self.entries.len()
            invariant
                i <= self.entries@.len(),
                forall|j: int| 0 <= j < i ==> (#[trigger] self.entries@[j]).address != *address,
            decreases self.entries@.len() - i,
        {
            if self.entries[i].address == *address {
                return Some(i);
            }
            i += 1;
        }
        None
    }

    /// The account at `address`, if there is one.
    pub fn account(&self, address: &Pubkey) -> (found: Option<TokenAccount>)
        ensures
            found == account_at(self@, *address),
    {
        proof {
            use_type_invariant(self);
        }
        match self.find(address) {
            Some(i) => {
                proof {
                    lemma_slot_is_unique(self.entries@, i as int);
                }
                Some(self.entries[i].account)
            },
            None => None,
        }
    }

    /// A copy of this ledger.
    pub fn snapshot(&self) -> (copy: Ledger)
        ensures
            copy@ == self@,
    {
        proof {
            use_type_invariant(self);
        }
        let mut entries: Vec<LedgerEntry> = Vec::new();
        let mut i: usize = 0;
        while i < self.entries.len()
            invariant
                i <= self.entries@.len(),
                entries@ == self.entries@.subrange(0, i as int),
            decreases self.entries@.len() - i,
        {
            entries.push(self.entries[i]);
            assert(entries@ =~= self.entries@.subrange(0, i + 1));
            i += 1;
        }
        assert(entries@ =~= self.entries@);
        Ledger { entries }
    }

    /// Opens an empty account at `address` for `owner`, holding asset `mint`.
    /// Fails, changing nothing, where the address is taken.
    pub fn open_account(&mut self, address: Pubkey, mint: Pubkey, owner: Authority) -> (result: Result<
        (),
        CustodyError,
    >)
        ensures
            old(self)@.contains_key(address) ==> result == Err::<(), CustodyError>(
                CustodyError::AccountInUse,
            ) && final(self)@ == old(self)@,
            !old(self)@.contains_key(address) ==> result == Ok::<(), CustodyError>(()) && final(self)@
                == old(self)@.insert(address, TokenAccount { mint, owner, amount: 0 }),
    {
        proof {
            use_type_invariant(&*self);
        }
        match self.find(&address) {
            Some(i) => {
                proof {
                    lemma_slot_is_unique(self.entries@, i as int);
                }
                Err(CustodyError::AccountInUse)
            },
            None => {
                let entry = LedgerEntry { address, account: TokenAccount { mint, owner, amount: 0 } };
                proof {
                    lemma_push_entry(self.entries@, entry);
                }
                let mut entries: Vec<LedgerEntry> = Vec::new();
                std::mem::swap(&mut entries, &mut self.entries);
                entries.push(entry);
                self.entries = entries;
                Ok(())
            },
        }
    }

    /// Replaces the balance of the entry at index `i`.
    fn set_amount(&mut self, i: usize, amount: u64)
        requires
            i < old(self).entries@.len(),
        ensures
            final(self)@ == old(self)@.insert(
                old(self).entries@[i as int].address,
                with_amount(old(self).entries@[i as int].account, amount as int),
            ),
            final(self).entries@.len() == old(self).entries@.len(),
            forall|j: int|
                0 <= j < old(self).entries@.len() ==> (#[trigger] final(self).entries@[j]).address == old(
                    self,
                ).entries@[j].address,
    {
        proof {
            use_type_invariant(&*self);
        }
        let entry = self.entries[i];
        let replaced = LedgerEntry {
            address: entry.address,
            account: TokenAccount { mint: entry.account.mint, owner: entry.account.owner, amount },
        };
        proof {
            lemma_update_entry(self.entries@, i as int, replaced.account);
        }
        let mut entries: Vec<LedgerEntry> = Vec::new();
        std::mem::swap(&mut entries, &mut self.entries);
        entries.set(i, replaced);
        self.entries = entries;
    }

    /// Moves `amount` from the account at `from` to the account at `to`,
    /// on the word of `authority`. Either the whole amount moves or the
    /// ledger stays as it was.
    pub fn transfer(&mut self, from: &Pubkey, to: &Pubkey, authority: &Authority, amount: u64) -> (result:
        Result<(), CustodyError>)
        ensures
            result == transfer_result(old(self)@, *from, *to, *authority, amount),
            final(self)@ == (if result is Ok {
                after_transfer(old(self)@, *from, *to, amount)
            } else {
                old(self)@
            }),
    {
        proof {
            use_type_invariant(&*self);
        }
        let source = match self.find(from) {
            Some(i) => i,
            None => {
                return Err(CustodyError::SourceNotFound);
            },
        };
        let target = match self.find(to) {
            Some(i) => i,
            None => {
                proof {
                    lemma_slot_is_unique(self.entries@, source as int);
                }
                return Err(CustodyError::DestinationNotFound);
            },
        };
        proof {
            lemma_slot_is_unique(self.entries@, source as int);
            lemma_slot_is_unique(self.entries@, target as int);
        }
        let debited = self.entries[source].account;
        let credited = self.entries[target].account;
        if debited.mint != credited.mint {
            return Err(CustodyError::MintMismatch);
        }
        if debited.owner != *authority {
            return Err(CustodyError::OwnerMismatch);
        }
        if debited.amount < amount {
            return Err(CustodyError::InsufficientFunds);
        }
        if source == target {
            return Ok(());
        }
        if credited.amount > u64::MAX - amount {
            return Err(CustodyError::Overflow);
        }
        assert(*from != *to) by {
            if source < target {
                assert(self.entries@[source as int].address != self.entries@[target as int].address);
            } else {
                assert(self.entries@[target as int].address != self.entries@[source as int].address);
            }
        }
        self.set_amount(source, debited.amount - amount);
        proof {
            use_type_invariant(&*self);
            lemma_slot_is_unique(self.entries@, target as int);
        }
        self.set_amount(target, credited.amount + amount);
        Ok(())
    }

    /// Carries out one movement: a transfer of its amount between its
    /// accounts on the word of its authority.
    pub fn perform(&mut self, movement: &Movement) -> (result: Result<(), CustodyError>)
        ensures
            result == transfer_result(
                old(self)@,
                movement.from,
                movement.to,
                movement.authority,
                movement.amount,
            ),
            final(self)@ == (if result is Ok {
                after_transfer(old(self)@, movement.from, movement.to, movement.amount)
            } else {
                old(self)@
            }),
    {
        self.transfer(&movement.from, &movement.to, &movement.authority, movement.amount)
    }

    /// Credits `amount`, arriving from outside the ledger, to the account at
    /// `to`.
    pub fn deposit(&mut self, to: &Pubkey, amount: u64) -> (result: Result<(), CustodyError>)
        ensures
            result == deposit_result(old(self)@, *to, amount),
            final(self)@ == (if result is Ok {
                after_deposit(old(self)@, *to, amount)
            } else {
                old(self)@
            }),
    {
        proof {
            use_type_invariant(&*self);
        }
        let target = match self.find(to) {
            Some(i) => i,
            None => {
                return Err(CustodyError::DestinationNotFound);
            },
        };
        proof {
            lemma_slot_is_unique(self.entries@, target as int);
        }
        let credited = self.entries[target].account;
        if credited.amount > u64::MAX - amount {
            return Err(CustodyError::Overflow);
        }
        self.set_amount(target, credited.amount + amount);
        Ok(())
    }

    /// Debits `amount`, which leaves the ledger, from the account at `from`,
    /// on the word of `authority`.
    pub fn withdraw(&mut self, from: &Pubkey, authority: &Authority, amount: u64) -> (result: Result<
        (),
        CustodyError,
    >)
        ensures
            result == withdraw_result(old(self)@, *from, *authority, amount),
            final(self)@ == (if result is Ok {
                after_withdraw(old(self)@, *from, amount)
            } else {
                old(self)@
            }),
    {
        proof {
            use_type_invariant(&*self);
        }
        let source = match self.find(from) {
            Some(i) => i,
            None => {
                return Err(CustodyError::SourceNotFound);
            },
        };
        proof {
            lemma_slot_is_unique(self.entries@, source as int);
        }
        let debited = self.entries[source].account;
        if debited.owner != *authority {
            return Err(CustodyError::OwnerMismatch);
        }
        if debited.amount < amount {
            return Err(CustodyError::InsufficientFunds);
        }
        self.set_amount(source, debited.amount - amount);
        Ok(())
    }
}

} // verus!
