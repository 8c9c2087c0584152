use fair_launch::uint256::U256;

#[test]
fn arithmetic_goes_through_all_four_words() {
    let a = U256::from(u128::MAX);
    let b = a + U256::one();
    assert_eq!(b.to_words(), [0, 0, 1, 0]);
    assert_eq!(b - U256::one(), a);
    assert_eq!((a * a).to_words(), [1, 0, u64::MAX - 1, u64::MAX]);
    assert_eq!((a * a) / a, a);
    assert_eq!(U256::from(7u64) / U256::from(2u64), U256::from(3u64));
    assert_eq!(U256::from(6u64) * U256::from(7u64), U256::from(42u64));
    assert_ne!(U256::from(6u64) + U256::from(7u64), U256::from(6u64));
}

#[test]
fn checked_operations_report_overflow() {
    let max = U256::max_value();
    assert_eq!(max.checked_add(U256::one()), None);
    assert_eq!(max.checked_add(U256::zero()), Some(max));
    assert_eq!(U256::zero().checked_sub(U256::one()), None);
    assert_eq!(U256::from(5u64).checked_sub(U256::from(3u64)), Some(U256::from(2u64)));
    assert_eq!(max.checked_mul(U256::from(2u64)), None);
    assert_eq!(max.checked_mul(U256::one()), Some(max));
    assert_eq!(max.checked_div(U256::zero()), None);
    assert_eq!(max.checked_div(max), Some(U256::one()));
    assert_eq!(U256::from(3u64).saturating_sub(U256::from(5u64)), U256::zero());
    assert_eq!(U256::from(5u64).saturating_sub(U256::from(3u64)), U256::from(2u64));
}

#[test]
fn comparison_is_numeric() {
    let small = U256::from(u64::MAX);
    let big = U256::from_words([0, 1, 0, 0]);
    let bigger = U256::from_words([0, 0, 0, 1]);
    assert!(small.lt(&big) && big.lt(&bigger) && small.lt(&bigger));
    assert!(small < big && big < bigger);
    assert!(!big.lt(&small) && !big.lt(&big));
    assert!(big.le(&big) && big.ge(&big) && bigger.gt(&big) && !big.gt(&bigger));
    assert!(U256::zero().is_zero() && !big.is_zero());
    assert!(small.fits_u128() && big.fits_u128() && !bigger.fits_u128());
    assert!(!U256::from_words([0, 0, 1, 0]).fits_u128());
}

#[test]
fn conversions_keep_the_value() {
    assert_eq!(U256::from(5u64), U256::from_u64(5));
    assert_eq!(U256::from(5u16), U256::from_u64(5));
    assert_eq!(U256::from(u128::MAX).as_u128(), u128::MAX);
    assert_eq!(U256::from(u128::MAX).to_words(), [u64::MAX, u64::MAX, 0, 0]);
    assert_eq!(U256::from_words([1, 2, 3, 4]).low_u128(), (2u128 << 64) + 1);
    assert_eq!(U256::from_words([1, 2, 3, 4]).to_words(), [1, 2, 3, 4]);
    assert_eq!(U256::max_value().to_words(), [u64::MAX; 4]);
    assert_eq!(U256::one().to_words(), [1, 0, 0, 0]);
}

#[test]
fn decimal_notation_both_ways() {
    assert_eq!(U256::zero().to_string(), "0");
    assert_eq!(U256::from(1000u64).to_string(), "1000");
    assert_eq!(
        U256::max_value().to_string(),
        "115792089237316195423570985008687907853269984665640564039457584007913129639935"
    );
    assert_eq!(U256::from_dec_str("1000"), Some(U256::from(1000u64)));
    assert_eq!(U256::from_dec_str("0001"), Some(U256::one()));
    assert_eq!(U256::from_dec_str(""), Some(U256::zero()));
    assert_eq!(U256::from_dec_str("12a"), None);
    assert_eq!(U256::from_dec_str("-1"), None);
    assert_eq!(
        U256::from_dec_str(
            "115792089237316195423570985008687907853269984665640564039457584007913129639935"
        ),
        Some(U256::max_value())
    );
    assert_eq!(
        U256::from_dec_str(
            "115792089237316195423570985008687907853269984665640564039457584007913129639936"
        ),
        None
    );
}
