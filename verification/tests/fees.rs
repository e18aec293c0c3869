use superswap_sol::error::SuperSwapError;
use superswap_sol::utils::refund::{calculate_fee, calculate_net_amount, BPS_DENOMINATOR};

#[test]
fn fee_of_one_million_at_thirty_bps() {
    assert_eq!(calculate_fee(1_000_000, 30), Ok(3000));
    assert_eq!(calculate_net_amount(1_000_000, 30), Ok(997_000));
}

#[test]
fn fee_is_rounded_down() {
    assert_eq!(calculate_fee(9_999, 1), Ok(0));
    assert_eq!(calculate_fee(10_000, 1), Ok(1));
    assert_eq!(calculate_fee(19_999, 1), Ok(1));
    assert_eq!(calculate_fee(333, 1000), Ok(33));
    assert_eq!(calculate_net_amount(333, 1000), Ok(300));
}

#[test]
fn fee_at_zero_rate_is_zero() {
    assert_eq!(calculate_fee(u64::MAX, 0), Ok(0));
    assert_eq!(calculate_net_amount(u64::MAX, 0), Ok(u64::MAX));
    assert_eq!(calculate_fee(0, 1000), Ok(0));
    assert_eq!(calculate_net_amount(0, 1000), Ok(0));
}

#[test]
fn fee_on_the_largest_amount_does_not_overflow() {
    assert_eq!(calculate_fee(u64::MAX, 1000), Ok(1_844_674_407_370_955_161));
    assert_eq!(calculate_net_amount(u64::MAX, 1000), Ok(16_602_069_666_338_596_454));
    assert_eq!(calculate_fee(u64::MAX, 10_000), Ok(u64::MAX));
    assert_eq!(calculate_net_amount(u64::MAX, 10_000), Ok(0));
}

#[test]
fn fee_and_net_add_up_to_the_amount() {
    let amounts: [u64; 7] = [0, 1, 9_999, 10_000, 1_000_000, 123_456_789_012, u64::MAX];
    let rates: [u16; 6] = [0, 1, 30, 250, 999, 1000];
    for amount in amounts {
        for rate in rates {
            let fee = calculate_fee(amount, rate).unwrap();
            let net = calculate_net_amount(amount, rate).unwrap();
            assert!(fee <= amount);
            assert_eq!(fee + net, amount);
        }
    }
}

#[test]
fn fee_above_the_amount_is_an_overflow_of_the_net_amount() {
    assert_eq!(calculate_fee(10_000, 10_001), Ok(10_001));
    assert_eq!(calculate_net_amount(10_000, 10_001), Err(SuperSwapError::MathOverflow));
    assert_eq!(calculate_net_amount(1, 20_000), Err(SuperSwapError::MathOverflow));
}

#[test]
fn fee_beyond_sixty_four_bits_is_an_overflow() {
    assert_eq!(calculate_fee(u64::MAX, u16::MAX), Err(SuperSwapError::MathOverflow));
    assert_eq!(calculate_fee(u64::MAX, 10_001), Err(SuperSwapError::MathOverflow));
    assert_eq!(calculate_net_amount(u64::MAX, u16::MAX), Err(SuperSwapError::MathOverflow));
}

#[test]
fn denominator_is_ten_thousand() {
    assert_eq!(BPS_DENOMINATOR, 10_000);
}
