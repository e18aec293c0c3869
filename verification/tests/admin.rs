use superswap_sol::coordinator::Coordinator;
use superswap_sol::custody::{Authority, CustodyError, Movement};
use superswap_sol::error::{InstructionError, SuperSwapError};
use superswap_sol::instructions::initialize::{configure, Initialize};
use superswap_sol::instructions::pause::{switch, Pause};
use superswap_sol::instructions::recover_funds::{plan_recovery, RecoverFunds};
use superswap_sol::instructions::unpause::Unpause;
use superswap_sol::instructions::update_config::{revise, UpdateConfig};
use superswap_sol::state::{Config, InitializeParams, Pubkey, RecoverFundsParams, UpdateConfigParams};
use superswap_sol::{initialize, pause, recover_funds, unpause, update_config};

fn key(tag: u8) -> Pubkey {
    Pubkey::new_from_array([tag; 32])
}

fn setup(fee_bps: u16) -> InitializeParams {
    InitializeParams {
        across_handler: key(2),
        jupiter_program: key(3),
        usdc_mint: key(4),
        fee_recipient: key(5),
        fee_bps,
    }
}

fn initialised() -> Coordinator {
    let mut state = Coordinator::new();
    initialize(&mut state, &Initialize { admin: key(1), bump: 253 }, setup(30)).unwrap();
    state
}

fn stored() -> Config {
    Config {
        admin: key(1),
        across_handler: key(2),
        jupiter_program: key(3),
        usdc_mint: key(4),
        fee_recipient: key(5),
        fee_bps: 30,
        is_paused: false,
        bump: 253,
    }
}

fn no_change() -> UpdateConfigParams {
    UpdateConfigParams {
        new_admin: None,
        new_across_handler: None,
        new_jupiter_program: None,
        new_fee_recipient: None,
        new_fee_bps: None,
    }
}

#[test]
fn new_coordinator_is_empty() {
    let state = Coordinator::new();
    assert_eq!(state.config(), None);
    assert_eq!(state.order(0), None);
    assert_eq!(state.account(&key(1)), None);
}

#[test]
fn initialize_stores_the_configuration() {
    let state = initialised();
    assert_eq!(state.config(), Some(stored()));
}

#[test]
fn initialize_happens_once() {
    let mut state = initialised();
    assert_eq!(
        initialize(&mut state, &Initialize { admin: key(9), bump: 1 }, setup(0)),
        Err(InstructionError::AlreadyInitialized)
    );
    assert_eq!(state.config(), Some(stored()));
}

#[test]
fn initialize_rejects_a_fee_above_ten_percent() {
    let mut state = Coordinator::new();
    assert_eq!(
        initialize(&mut state, &Initialize { admin: key(1), bump: 253 }, setup(1001)),
        Err(InstructionError::Program(SuperSwapError::InvalidFeeConfiguration))
    );
    assert_eq!(state.config(), None);
    assert_eq!(initialize(&mut state, &Initialize { admin: key(1), bump: 253 }, setup(1000)), Ok(()));
    assert_eq!(state.config().unwrap().fee_bps, 1000);
}

#[test]
fn update_with_fee_of_1001_bps_is_rejected_and_changes_nothing() {
    let mut state = initialised();
    let mut params = no_change();
    params.new_fee_bps = Some(1001);
    params.new_admin = Some(key(9));
    params.new_fee_recipient = Some(key(8));
    assert_eq!(
        update_config(&mut state, &UpdateConfig { admin: key(1) }, params),
        Err(InstructionError::Program(SuperSwapError::InvalidFeeConfiguration))
    );
    assert_eq!(state.config(), Some(stored()));
}

#[test]
fn update_replaces_the_fields_given() {
    let mut state = initialised();
    let mut params = no_change();
    params.new_fee_bps = Some(1000);
    params.new_across_handler = Some(key(12));
    assert_eq!(update_config(&mut state, &UpdateConfig { admin: key(1) }, params), Ok(()));
    let mut expected = stored();
    expected.fee_bps = 1000;
    expected.across_handler = key(12);
    assert_eq!(state.config(), Some(expected));

    let params = UpdateConfigParams {
        new_admin: Some(key(11)),
        new_across_handler: None,
        new_jupiter_program: Some(key(13)),
        new_fee_recipient: Some(key(15)),
        new_fee_bps: Some(0),
    };
    assert_eq!(update_config(&mut state, &UpdateConfig { admin: key(1) }, params), Ok(()));
    expected.admin = key(11);
    expected.jupiter_program = key(13);
    expected.fee_recipient = key(15);
    expected.fee_bps = 0;
    assert_eq!(state.config(), Some(expected));

    assert_eq!(
        update_config(&mut state, &UpdateConfig { admin: key(1) }, no_change()),
        Err(InstructionError::Program(SuperSwapError::Unauthorized))
    );
    assert_eq!(update_config(&mut state, &UpdateConfig { admin: key(11) }, no_change()), Ok(()));
    assert_eq!(state.config(), Some(expected));
}

#[test]
fn update_is_for_the_admin_only() {
    let mut state = initialised();
    let mut params = no_change();
    params.new_fee_bps = Some(5);
    assert_eq!(
        update_config(&mut state, &UpdateConfig { admin: key(2) }, params),
        Err(InstructionError::Program(SuperSwapError::Unauthorized))
    );
    assert_eq!(state.config(), Some(stored()));
    let mut empty = Coordinator::new();
    assert_eq!(
        update_config(&mut empty, &UpdateConfig { admin: key(1) }, params),
        Err(InstructionError::NotInitialized)
    );
}

#[test]
fn pause_and_unpause_set_the_flag_only() {
    let mut state = initialised();
    assert_eq!(pause(&mut state, &Pause { admin: key(1) }), Ok(()));
    let mut expected = stored();
    expected.is_paused = true;
    assert_eq!(state.config(), Some(expected));
    assert_eq!(pause(&mut state, &Pause { admin: key(1) }), Ok(()));
    assert_eq!(state.config(), Some(expected));
    assert_eq!(unpause(&mut state, &Unpause { admin: key(1) }), Ok(()));
    assert_eq!(state.config(), Some(stored()));
}

#[test]
fn pause_is_for_the_admin_only() {
    let mut state = initialised();
    assert_eq!(
        pause(&mut state, &Pause { admin: key(2) }),
        Err(InstructionError::Program(SuperSwapError::Unauthorized))
    );
    assert_eq!(state.config(), Some(stored()));
    pause(&mut state, &Pause { admin: key(1) }).unwrap();
    assert_eq!(
        unpause(&mut state, &Unpause { admin: key(2) }),
        Err(InstructionError::Program(SuperSwapError::Unauthorized))
    );
    assert!(state.config().unwrap().is_paused);
    let mut empty = Coordinator::new();
    assert_eq!(pause(&mut empty, &Pause { admin: key(1) }), Err(InstructionError::NotInitialized));
    assert_eq!(unpause(&mut empty, &Unpause { admin: key(1) }), Err(InstructionError::NotInitialized));
}

fn with_accounts() -> Coordinator {
    let mut state = initialised();
    state.open_account(key(20), key(4), Authority::SystemOwned).unwrap();
    state.open_account(key(21), key(4), Authority::ExternalSigner(key(1))).unwrap();
    state.open_account(key(22), key(7), Authority::SystemOwned).unwrap();
    state.deposit(&key(20), 900).unwrap();
    state.deposit(&key(21), 50).unwrap();
    state
}

#[test]
fn recover_funds_moves_the_amount() {
    let mut state = with_accounts();
    let ctx = RecoverFunds { admin: key(1), source_token_account: key(20), destination_token_account: key(21) };
    assert_eq!(recover_funds(&mut state, &ctx, RecoverFundsParams { token_mint: key(4), amount: 400 }), Ok(()));
    assert_eq!(state.account(&key(20)).unwrap().amount, 500);
    assert_eq!(state.account(&key(21)).unwrap().amount, 450);
}

#[test]
fn recover_funds_refusals() {
    let mut state = with_accounts();
    let ctx = RecoverFunds { admin: key(1), source_token_account: key(20), destination_token_account: key(21) };
    let params = RecoverFundsParams { token_mint: key(4), amount: 400 };

    let mut stranger = ctx;
    stranger.admin = key(2);
    assert_eq!(
        recover_funds(&mut state, &stranger, params),
        Err(InstructionError::Program(SuperSwapError::Unauthorized))
    );
    assert_eq!(
        recover_funds(&mut state, &ctx, RecoverFundsParams { token_mint: key(7), amount: 400 }),
        Err(InstructionError::Program(SuperSwapError::InvalidTokenMint))
    );
    let mut other_asset = ctx;
    other_asset.destination_token_account = key(22);
    assert_eq!(
        recover_funds(&mut state, &other_asset, params),
        Err(InstructionError::Program(SuperSwapError::InvalidTokenMint))
    );
    let mut missing = ctx;
    missing.source_token_account = key(90);
    assert_eq!(
        recover_funds(&mut state, &missing, params),
        Err(InstructionError::Custody(CustodyError::SourceNotFound))
    );
    let mut missing = ctx;
    missing.destination_token_account = key(90);
    assert_eq!(
        recover_funds(&mut state, &missing, params),
        Err(InstructionError::Custody(CustodyError::DestinationNotFound))
    );
    let backwards =
        RecoverFunds { admin: key(1), source_token_account: key(21), destination_token_account: key(20) };
    assert_eq!(
        recover_funds(&mut state, &backwards, params),
        Err(InstructionError::Custody(CustodyError::OwnerMismatch))
    );
    assert_eq!(
        recover_funds(&mut state, &ctx, RecoverFundsParams { token_mint: key(4), amount: 901 }),
        Err(InstructionError::Custody(CustodyError::InsufficientFunds))
    );
    assert_eq!(state.account(&key(20)).unwrap().amount, 900);
    assert_eq!(state.account(&key(21)).unwrap().amount, 50);

    let mut empty = Coordinator::new();
    assert_eq!(recover_funds(&mut empty, &ctx, params), Err(InstructionError::NotInitialized));
}

#[test]
fn open_account_and_deposit_on_the_coordinator() {
    let mut state = Coordinator::new();
    assert_eq!(state.open_account(key(20), key(4), Authority::SystemOwned), Ok(()));
    assert_eq!(state.open_account(key(20), key(4), Authority::SystemOwned), Err(CustodyError::AccountInUse));
    assert_eq!(state.deposit(&key(20), 5), Ok(()));
    assert_eq!(state.deposit(&key(21), 5), Err(CustodyError::DestinationNotFound));
    assert_eq!(state.deposit(&key(20), u64::MAX), Err(CustodyError::Overflow));
    assert_eq!(state.account(&key(20)).unwrap().amount, 5);
}

#[test]
fn decisions_on_plain_values() {
    assert_eq!(configure(&Initialize { admin: key(1), bump: 253 }, &setup(30)), Ok(stored()));
    assert_eq!(
        configure(&Initialize { admin: key(1), bump: 253 }, &setup(1001)),
        Err(SuperSwapError::InvalidFeeConfiguration)
    );

    let mut params = no_change();
    params.new_fee_bps = Some(1001);
    assert_eq!(
        revise(&stored(), &UpdateConfig { admin: key(1) }, &params),
        Err(SuperSwapError::InvalidFeeConfiguration)
    );
    assert_eq!(revise(&stored(), &UpdateConfig { admin: key(9) }, &params), Err(SuperSwapError::Unauthorized));
    params.new_fee_bps = Some(999);
    let mut expected = stored();
    expected.fee_bps = 999;
    assert_eq!(revise(&stored(), &UpdateConfig { admin: key(1) }, &params), Ok(expected));

    let mut paused = stored();
    paused.is_paused = true;
    assert_eq!(switch(&stored(), &key(1), true), Ok(paused));
    assert_eq!(switch(&paused, &key(1), false), Ok(stored()));
    assert_eq!(switch(&stored(), &key(2), true), Err(SuperSwapError::Unauthorized));
}

#[test]
fn recovery_plan_names_the_movement() {
    let state = with_accounts();
    let ctx = RecoverFunds { admin: key(1), source_token_account: key(20), destination_token_account: key(21) };
    let params = RecoverFundsParams { token_mint: key(4), amount: 400 };
    assert_eq!(
        plan_recovery(&stored(), &ctx, &params, state.account(&key(20)), state.account(&key(21))),
        Ok(Movement { from: key(20), to: key(21), authority: Authority::SystemOwned, amount: 400 })
    );
    assert_eq!(
        plan_recovery(&stored(), &ctx, &params, None, state.account(&key(21))),
        Err(InstructionError::Custody(CustodyError::SourceNotFound))
    );
}
