use superswap_sol::coordinator::Coordinator;
use superswap_sol::custody::Authority;
use superswap_sol::error::{InstructionError, SuperSwapError};
use superswap_sol::execute_jupiter_swap;
use superswap_sol::initialize;
use superswap_sol::instructions::execute_jupiter_swap::ExecuteJupiterSwap;
use superswap_sol::instructions::initialize::Initialize;
use superswap_sol::state::{
    Config, ExecuteJupiterSwapParams, InitializeParams, OrderStatus, ProcessBridgeAndSwapParams, Pubkey,
    SwapOrder,
};
use superswap_sol::utils::jupiter::{
    balance_increase, parse_jupiter_swap_data, record_swap_output, validate_swap_output, AccountMeta,
    JupiterSwapParams, DISCRIMINATOR_LEN,
};

fn key(tag: u8) -> Pubkey {
    Pubkey::new_from_array([tag; 32])
}

fn config() -> Config {
    Config {
        admin: key(1),
        across_handler: key(2),
        jupiter_program: key(3),
        usdc_mint: key(4),
        fee_recipient: key(5),
        fee_bps: 30,
        is_paused: false,
        bump: 255,
    }
}

fn metas() -> Vec<AccountMeta> {
    vec![
        AccountMeta { pubkey: key(20), is_signer: false, is_writable: true },
        AccountMeta { pubkey: key(21), is_signer: true, is_writable: false },
        AccountMeta { pubkey: key(20), is_signer: false, is_writable: false },
    ]
}

#[test]
fn call_forwards_accounts_and_payload_unchanged() {
    let payload: Vec<u8> = vec![9, 8, 7, 6, 5, 4, 3, 2, 1, 0, 255];
    let accounts = metas();
    let call =
        superswap_sol::utils::jupiter::execute_jupiter_swap(&config(), &key(3), &payload, &accounts)
            .unwrap();
    assert_eq!(call.instruction.program_id, key(3));
    assert_eq!(call.instruction.accounts, accounts);
    assert_eq!(call.instruction.data, payload);
    assert_eq!(call.signer, Authority::SystemOwned);
}

#[test]
fn call_with_empty_payload_and_no_account() {
    let call = superswap_sol::utils::jupiter::execute_jupiter_swap(&config(), &key(3), &[], &[]).unwrap();
    assert_eq!(call.instruction.program_id, key(3));
    assert!(call.instruction.accounts.is_empty());
    assert!(call.instruction.data.is_empty());
}

#[test]
fn call_of_another_engine_is_refused() {
    let payload: Vec<u8> = vec![1; 16];
    assert_eq!(
        superswap_sol::utils::jupiter::execute_jupiter_swap(&config(), &key(4), &payload, &metas()),
        Err(SuperSwapError::InvalidJupiterProgram)
    );
    assert_eq!(
        superswap_sol::utils::jupiter::execute_jupiter_swap(
            &config(),
            &Pubkey::default(),
            &payload,
            &metas()
        ),
        Err(SuperSwapError::InvalidJupiterProgram)
    );
}

#[test]
fn swap_output_is_held_against_the_minimum() {
    assert_eq!(validate_swap_output(1000, 1000), Ok(()));
    assert_eq!(validate_swap_output(1001, 1000), Ok(()));
    assert_eq!(validate_swap_output(0, 0), Ok(()));
    assert_eq!(validate_swap_output(500, 1000), Err(SuperSwapError::InsufficientOutputAmount));
    assert_eq!(validate_swap_output(999, 1000), Err(SuperSwapError::InsufficientOutputAmount));
    assert_eq!(validate_swap_output(u64::MAX - 1, u64::MAX), Err(SuperSwapError::InsufficientOutputAmount));
}

#[test]
fn balance_increase_is_the_difference_or_zero() {
    assert_eq!(balance_increase(100, 600), 500);
    assert_eq!(balance_increase(0, u64::MAX), u64::MAX);
    assert_eq!(balance_increase(7, 7), 0);
    assert_eq!(balance_increase(600, 100), 0);
}

fn pending_order(min_output_amount: u64) -> SwapOrder {
    SwapOrder::open(
        &ProcessBridgeAndSwapParams {
            order_id: 7,
            recipient: key(9),
            usdc_amount: 1_000_000,
            min_output_amount,
            destination_mint: key(4),
            deadline: 5000,
            jupiter_swap_data: vec![],
        },
        1,
    )
}

#[test]
fn recorded_output_completes_or_fails_a_pending_order() {
    let mut order = pending_order(1000);
    assert_eq!(record_swap_output(&mut order, 42, 1042), Ok(1000));
    assert_eq!(order.status, OrderStatus::Completed);

    let mut order = pending_order(1000);
    assert_eq!(record_swap_output(&mut order, 42, 542), Err(SuperSwapError::InsufficientOutputAmount));
    assert_eq!(order.status, OrderStatus::Failed);

    let mut order = pending_order(1000);
    assert_eq!(record_swap_output(&mut order, 5000, 100), Err(SuperSwapError::InsufficientOutputAmount));
    assert_eq!(order.status, OrderStatus::Failed);

    let mut order = pending_order(0);
    assert_eq!(record_swap_output(&mut order, 5000, 100), Ok(0));
    assert_eq!(order.status, OrderStatus::Completed);
}

#[test]
fn recorded_output_moves_pending_orders_only() {
    let mut order = pending_order(1000);
    record_swap_output(&mut order, 0, 999).unwrap_err();
    assert_eq!(order.status, OrderStatus::Failed);
    assert_eq!(record_swap_output(&mut order, 0, 5000), Ok(5000));
    assert_eq!(order.status, OrderStatus::Failed);

    let mut order = pending_order(1000);
    record_swap_output(&mut order, 0, 1000).unwrap();
    assert_eq!(record_swap_output(&mut order, 0, 1), Err(SuperSwapError::InsufficientOutputAmount));
    assert_eq!(order.status, OrderStatus::Completed);
}

#[test]
fn payload_needs_a_discriminator() {
    assert_eq!(DISCRIMINATOR_LEN, 8);
    assert_eq!(parse_jupiter_swap_data(&[]), Err(SuperSwapError::InvalidSwapCalldata));
    assert_eq!(parse_jupiter_swap_data(&[1, 2, 3, 4, 5, 6, 7]), Err(SuperSwapError::InvalidSwapCalldata));
    assert_eq!(
        parse_jupiter_swap_data(&[1, 2, 3, 4, 5, 6, 7, 8]),
        Ok(JupiterSwapParams { amount_in: 0, minimum_amount_out: 0 })
    );
    assert_eq!(
        parse_jupiter_swap_data(&[0xff; 40]),
        Ok(JupiterSwapParams { amount_in: 0, minimum_amount_out: 0 })
    );
}

#[test]
fn engine_call_needs_a_configuration() {
    let state = Coordinator::new();
    let ctx = ExecuteJupiterSwap { jupiter_program: key(3), remaining_accounts: metas() };
    let params = ExecuteJupiterSwapParams { swap_data: vec![1, 2, 3] };
    assert_eq!(execute_jupiter_swap(&state, &ctx, params), Err(InstructionError::NotInitialized));
}

#[test]
fn engine_call_through_the_coordinator() {
    let mut state = Coordinator::new();
    initialize(
        &mut state,
        &Initialize { admin: key(1), bump: 255 },
        InitializeParams {
            across_handler: key(2),
            jupiter_program: key(3),
            usdc_mint: key(4),
            fee_recipient: key(5),
            fee_bps: 30,
        },
    )
    .unwrap();
    let ctx = ExecuteJupiterSwap { jupiter_program: key(3), remaining_accounts: metas() };
    let call =
        execute_jupiter_swap(&state, &ctx, ExecuteJupiterSwapParams { swap_data: vec![4, 5, 6] }).unwrap();
    assert_eq!(call.instruction.program_id, key(3));
    assert_eq!(call.instruction.accounts, metas());
    assert_eq!(call.instruction.data, vec![4, 5, 6]);
    assert_eq!(call.signer, Authority::SystemOwned);

    let wrong = ExecuteJupiterSwap { jupiter_program: key(30), remaining_accounts: metas() };
    assert_eq!(
        execute_jupiter_swap(&state, &wrong, ExecuteJupiterSwapParams { swap_data: vec![4, 5, 6] }),
        Err(InstructionError::Program(SuperSwapError::InvalidJupiterProgram))
    );
}
