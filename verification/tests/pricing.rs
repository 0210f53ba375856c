use pair::amm::{
    get_amount_in, get_amount_out, get_special_fee_from_input, quote, FEE_DENOMINATOR,
};
use pair::errors::AmmError;
use pair::math::{isqrt, mul_div};

#[test]
fn test_quote_values() {
    assert_eq!(quote(500, 1000, 2000), Ok(1000));
    assert_eq!(quote(1, 3, 2), Ok(0));
    assert_eq!(quote(0, 5, 7), Ok(0));
    assert_eq!(quote(u64::MAX, 1, u64::MAX), Ok(u64::MAX as u128 * u64::MAX as u128));
}

#[test]
fn test_quote_insufficient_liquidity() {
    assert_eq!(quote(500, 0, 2000), Err(AmmError::InsufficientLiquidity));
    assert_eq!(quote(500, 1000, 0), Err(AmmError::InsufficientLiquidity));
}

#[test]
fn test_get_amount_out_exact() {
    // 0.3% fee against equal reserves of 1_001_000.
    assert_eq!(get_amount_out(100_000, 1_001_000, 1_001_000, 300), Ok(90_669));
    // Recompute from the formula with full-width arithmetic.
    let after_fee: u128 = 100_000u128 * (FEE_DENOMINATOR - 300) as u128;
    let expected = after_fee * 1_001_000 / (1_001_000u128 * FEE_DENOMINATOR as u128 + after_fee);
    assert_eq!(expected, 90_669);
    // Zero fee reduces to the plain constant-product quote.
    assert_eq!(get_amount_out(100, 1000, 1000, 0), Ok(90));
}

#[test]
fn test_get_amount_out_errors() {
    assert_eq!(get_amount_out(0, 1000, 1000, 300), Err(AmmError::BadPayment));
    assert_eq!(get_amount_out(10, 0, 1000, 300), Err(AmmError::InsufficientLiquidity));
    assert_eq!(get_amount_out(10, 1000, 0, 300), Err(AmmError::InsufficientLiquidity));
}

#[test]
fn test_get_amount_in_exact() {
    assert_eq!(get_amount_in(90, 1000, 1000, 0), Ok(99));
    assert_eq!(get_amount_in(50_000, 1_001_000, 1_001_000, 300), Ok(52_788));
}

#[test]
fn test_get_amount_in_insufficient_reserve() {
    assert_eq!(get_amount_in(1000, 1000, 1000, 0), Err(AmmError::InsufficientLiquidity));
    assert_eq!(get_amount_in(1001, 1000, 1000, 0), Err(AmmError::InsufficientLiquidity));
}

#[test]
fn test_amount_in_covers_amount_out() {
    // Paying the quoted input always obtains at least the requested output.
    for y in [1u64, 7, 90, 500, 999] {
        let req = get_amount_in(y, 1000, 1000, 300).unwrap();
        assert!(req <= u64::MAX as u128);
        let got = get_amount_out(req as u64, 1000, 1000, 300).unwrap();
        assert!(got >= y, "y={y} req={req} got={got}");
    }
}

#[test]
fn test_required_input_never_undercharges() {
    // Where an input is the smallest one buying its output, quoting the
    // input back from the output returns at least that input.
    for x in [10u64, 99, 101, 100_000] {
        let y = get_amount_out(x, 1_001_000, 1_001_000, 300).unwrap();
        if y == 0 {
            continue;
        }
        let prev = get_amount_out(x - 1, 1_001_000, 1_001_000, 300).unwrap();
        let req = get_amount_in(y, 1_001_000, 1_001_000, 300).unwrap();
        if prev < y {
            assert!(req >= x as u128, "x={x} y={y} req={req}");
        }
        // In every case the quoted input still buys the same output.
        let again = get_amount_out(req as u64, 1_001_000, 1_001_000, 300).unwrap();
        assert!(again >= y);
    }
}

#[test]
fn test_special_fee_from_input() {
    assert_eq!(get_special_fee_from_input(100_000, 50), 50);
    assert_eq!(get_special_fee_from_input(999, 50), 0);
    assert_eq!(get_special_fee_from_input(100_000, 0), 0);
    let expected = (u64::MAX as u128 * 99_999 / 100_000) as u64;
    assert_eq!(get_special_fee_from_input(u64::MAX, 99_999), expected);
}

#[test]
fn test_mul_div_exact() {
    assert_eq!(mul_div(10, 10, 3), Some(33));
    assert_eq!(mul_div(0, 5, 7), Some(0));
    // A product that overflows 128 bits still divides back down exactly.
    let a = u128::MAX / 7;
    assert_eq!(mul_div(a, 7, 7), Some(a));
    assert_eq!(mul_div(99_700_000_000, 100_100, 110_070_000_000), Some(90_669));
}

#[test]
fn test_mul_div_overflow() {
    assert_eq!(mul_div(u128::MAX, 2, 1), None);
    assert_eq!(mul_div(u128::MAX, 2, 2), Some(u128::MAX));
}

#[test]
fn test_isqrt_values() {
    assert_eq!(isqrt(0), 0);
    assert_eq!(isqrt(1), 1);
    assert_eq!(isqrt(3), 1);
    assert_eq!(isqrt(4), 2);
    assert_eq!(isqrt(999_999), 999);
    assert_eq!(isqrt(1_000_000), 1000);
    assert_eq!(isqrt(1_001_000_000u128 * 1_000_000_000u128), 1_000_499_875);
    assert_eq!(isqrt(u128::MAX), u64::MAX);
}

#[test]
fn test_get_amount_in_overflow() {
    // The exact required input exceeds the representable amount range.
    let r = get_amount_in(u64::MAX - 1, u64::MAX, u64::MAX, 99_999);
    assert_eq!(r, Err(AmmError::AmountOverflow));
}
