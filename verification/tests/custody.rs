use superswap_sol::custody::{Authority, CustodyError, Ledger, Movement, TokenAccount};
use superswap_sol::state::Pubkey;

fn key(tag: u8) -> Pubkey {
    Pubkey::new_from_array([tag; 32])
}

const USDC: u8 = 100;
const OTHER: u8 = 101;

fn funded(ledger: &mut Ledger, address: u8, mint: u8, owner: Authority, amount: u64) {
    ledger.open_account(key(address), key(mint), owner).unwrap();
    ledger.deposit(&key(address), amount).unwrap();
}

fn balance(ledger: &Ledger, address: u8) -> u64 {
    ledger.account(&key(address)).unwrap().amount
}

fn two_accounts() -> Ledger {
    let mut ledger = Ledger::new();
    funded(&mut ledger, 1, USDC, Authority::ExternalSigner(key(11)), 500);
    funded(&mut ledger, 2, USDC, Authority::SystemOwned, 70);
    ledger
}

#[test]
fn new_ledger_has_no_account() {
    let ledger = Ledger::new();
    assert_eq!(ledger.account(&key(1)), None);
    assert_eq!(ledger.account(&Pubkey::default()), None);
}

#[test]
fn opened_account_is_empty() {
    let mut ledger = Ledger::new();
    assert_eq!(ledger.open_account(key(1), key(USDC), Authority::SystemOwned), Ok(()));
    assert_eq!(
        ledger.account(&key(1)),
        Some(TokenAccount { mint: key(USDC), owner: Authority::SystemOwned, amount: 0 })
    );
    assert_eq!(ledger.account(&key(2)), None);
}

#[test]
fn address_is_taken_once() {
    let mut ledger = Ledger::new();
    funded(&mut ledger, 1, USDC, Authority::SystemOwned, 5);
    assert_eq!(
        ledger.open_account(key(1), key(OTHER), Authority::ExternalSigner(key(3))),
        Err(CustodyError::AccountInUse)
    );
    assert_eq!(
        ledger.account(&key(1)),
        Some(TokenAccount { mint: key(USDC), owner: Authority::SystemOwned, amount: 5 })
    );
}

#[test]
fn transfer_moves_the_amount() {
    let mut ledger = two_accounts();
    assert_eq!(ledger.transfer(&key(1), &key(2), &Authority::ExternalSigner(key(11)), 120), Ok(()));
    assert_eq!(balance(&ledger, 1), 380);
    assert_eq!(balance(&ledger, 2), 190);
    assert_eq!(ledger.transfer(&key(2), &key(1), &Authority::SystemOwned, 190), Ok(()));
    assert_eq!(balance(&ledger, 1), 570);
    assert_eq!(balance(&ledger, 2), 0);
}

#[test]
fn transfer_keeps_owner_and_asset() {
    let mut ledger = two_accounts();
    ledger.transfer(&key(1), &key(2), &Authority::ExternalSigner(key(11)), 1).unwrap();
    assert_eq!(
        ledger.account(&key(1)),
        Some(TokenAccount { mint: key(USDC), owner: Authority::ExternalSigner(key(11)), amount: 499 })
    );
    assert_eq!(
        ledger.account(&key(2)),
        Some(TokenAccount { mint: key(USDC), owner: Authority::SystemOwned, amount: 71 })
    );
}

#[test]
fn transfer_of_the_whole_balance_and_of_nothing() {
    let mut ledger = two_accounts();
    assert_eq!(ledger.transfer(&key(1), &key(2), &Authority::ExternalSigner(key(11)), 0), Ok(()));
    assert_eq!(balance(&ledger, 1), 500);
    assert_eq!(ledger.transfer(&key(1), &key(2), &Authority::ExternalSigner(key(11)), 500), Ok(()));
    assert_eq!(balance(&ledger, 1), 0);
    assert_eq!(balance(&ledger, 2), 570);
}

#[test]
fn transfer_to_the_same_account_changes_nothing() {
    let mut ledger = two_accounts();
    assert_eq!(ledger.transfer(&key(1), &key(1), &Authority::ExternalSigner(key(11)), 500), Ok(()));
    assert_eq!(balance(&ledger, 1), 500);
    assert_eq!(
        ledger.transfer(&key(1), &key(1), &Authority::ExternalSigner(key(11)), 501),
        Err(CustodyError::InsufficientFunds)
    );
}

#[test]
fn transfer_refusals() {
    let mut ledger = two_accounts();
    funded(&mut ledger, 3, OTHER, Authority::SystemOwned, 10);
    let signer = Authority::ExternalSigner(key(11));
    assert_eq!(ledger.transfer(&key(9), &key(2), &signer, 1), Err(CustodyError::SourceNotFound));
    assert_eq!(ledger.transfer(&key(1), &key(9), &signer, 1), Err(CustodyError::DestinationNotFound));
    assert_eq!(ledger.transfer(&key(1), &key(3), &signer, 1), Err(CustodyError::MintMismatch));
    assert_eq!(
        ledger.transfer(&key(1), &key(2), &Authority::ExternalSigner(key(12)), 1),
        Err(CustodyError::OwnerMismatch)
    );
    assert_eq!(
        ledger.transfer(&key(1), &key(2), &Authority::SystemOwned, 1),
        Err(CustodyError::OwnerMismatch)
    );
    assert_eq!(ledger.transfer(&key(2), &key(1), &signer, 1), Err(CustodyError::OwnerMismatch));
    assert_eq!(ledger.transfer(&key(1), &key(2), &signer, 501), Err(CustodyError::InsufficientFunds));
    assert_eq!(balance(&ledger, 1), 500);
    assert_eq!(balance(&ledger, 2), 70);
    assert_eq!(balance(&ledger, 3), 10);
}

#[test]
fn transfer_that_would_overflow_is_refused() {
    let mut ledger = two_accounts();
    funded(&mut ledger, 4, USDC, Authority::SystemOwned, u64::MAX - 10);
    let signer = Authority::ExternalSigner(key(11));
    assert_eq!(ledger.transfer(&key(1), &key(4), &signer, 11), Err(CustodyError::Overflow));
    assert_eq!(balance(&ledger, 1), 500);
    assert_eq!(balance(&ledger, 4), u64::MAX - 10);
    assert_eq!(ledger.transfer(&key(1), &key(4), &signer, 10), Ok(()));
    assert_eq!(balance(&ledger, 4), u64::MAX);
    assert_eq!(balance(&ledger, 1), 490);
}

#[test]
fn deposit_and_withdraw() {
    let mut ledger = two_accounts();
    assert_eq!(ledger.deposit(&key(2), 30), Ok(()));
    assert_eq!(balance(&ledger, 2), 100);
    assert_eq!(ledger.withdraw(&key(2), &Authority::SystemOwned, 40), Ok(()));
    assert_eq!(balance(&ledger, 2), 60);
    assert_eq!(balance(&ledger, 1), 500);
}

#[test]
fn deposit_refusals() {
    let mut ledger = two_accounts();
    assert_eq!(ledger.deposit(&key(9), 1), Err(CustodyError::DestinationNotFound));
    assert_eq!(ledger.deposit(&key(1), u64::MAX), Err(CustodyError::Overflow));
    assert_eq!(ledger.deposit(&key(1), u64::MAX - 500), Ok(()));
    assert_eq!(balance(&ledger, 1), u64::MAX);
}

#[test]
fn withdraw_refusals() {
    let mut ledger = two_accounts();
    assert_eq!(ledger.withdraw(&key(9), &Authority::SystemOwned, 1), Err(CustodyError::SourceNotFound));
    assert_eq!(ledger.withdraw(&key(1), &Authority::SystemOwned, 1), Err(CustodyError::OwnerMismatch));
    assert_eq!(ledger.withdraw(&key(2), &Authority::SystemOwned, 71), Err(CustodyError::InsufficientFunds));
    assert_eq!(balance(&ledger, 1), 500);
    assert_eq!(balance(&ledger, 2), 70);
}

#[test]
fn snapshot_is_independent_of_the_ledger() {
    let mut ledger = two_accounts();
    let copy = ledger.snapshot();
    ledger.transfer(&key(1), &key(2), &Authority::ExternalSigner(key(11)), 500).unwrap();
    assert_eq!(balance(&copy, 1), 500);
    assert_eq!(balance(&copy, 2), 70);
    assert_eq!(balance(&ledger, 1), 0);
    assert_eq!(balance(&ledger, 2), 570);
}

#[test]
fn authorities_compare_structurally() {
    assert_eq!(Authority::SystemOwned, Authority::SystemOwned);
    assert_eq!(Authority::ExternalSigner(key(1)), Authority::ExternalSigner(key(1)));
    assert_ne!(Authority::ExternalSigner(key(1)), Authority::ExternalSigner(key(2)));
    assert_ne!(Authority::ExternalSigner(Pubkey::default()), Authority::SystemOwned);
}

#[test]
fn perform_is_a_transfer() {
    let mut ledger = two_accounts();
    let movement =
        Movement { from: key(1), to: key(2), authority: Authority::ExternalSigner(key(11)), amount: 120 };
    assert_eq!(ledger.perform(&movement), Ok(()));
    assert_eq!(balance(&ledger, 1), 380);
    assert_eq!(balance(&ledger, 2), 190);
    let too_much =
        Movement { from: key(1), to: key(2), authority: Authority::ExternalSigner(key(11)), amount: 381 };
    assert_eq!(ledger.perform(&too_much), Err(CustodyError::InsufficientFunds));
    assert_eq!(balance(&ledger, 1), 380);
    assert_eq!(balance(&ledger, 2), 190);
}
