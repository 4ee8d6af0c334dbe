use subscription_vault::safe_math::{
    safe_add, safe_add_balance, safe_sub, safe_sub_balance, validate_non_negative,
};
use subscription_vault::types::InsufficientBalanceError;
use subscription_vault::Error;

#[test]
fn test_safe_add_overflow() {
    assert_eq!(safe_add(i128::MAX, 1), Err(Error::Overflow));
    assert_eq!(safe_add(i128::MAX, 0), Ok(i128::MAX));
    assert_eq!(safe_add(2, 3), Ok(5));
    assert_eq!(safe_add(-2, -3), Ok(-5));
    assert_eq!(safe_add(i128::MIN, -1), Err(Error::Overflow));
}

#[test]
fn test_safe_sub_underflow() {
    assert_eq!(safe_sub(i128::MIN, 1), Err(Error::Underflow));
    assert_eq!(safe_sub(i128::MIN, 0), Ok(i128::MIN));
    assert_eq!(safe_sub(2, 3), Ok(-1)); // negative results are permitted
    assert_eq!(safe_sub(i128::MAX, -1), Err(Error::Underflow));
}

#[test]
fn test_safe_sub_balance_boundaries() {
    assert_eq!(safe_sub_balance(1000, 1000), Ok(0));
    assert_eq!(safe_sub_balance(1000, 1001), Err(Error::Underflow));
    assert_eq!(safe_sub_balance(1000, 999), Ok(1));
    assert_eq!(safe_sub_balance(1000, -1), Err(Error::Underflow));
}

#[test]
fn test_safe_add_balance_boundaries() {
    assert_eq!(safe_add_balance(1000, 1), Ok(1001));
    assert_eq!(safe_add_balance(1000, 0), Ok(1000));
    assert_eq!(safe_add_balance(1000, -1), Err(Error::Underflow));
    assert_eq!(safe_add_balance(i128::MAX, 1), Err(Error::Overflow));
    assert_eq!(safe_add_balance(i128::MAX - 1, 1), Ok(i128::MAX));
}

#[test]
fn test_validate_non_negative_boundary() {
    assert_eq!(validate_non_negative(0), Ok(()));
    assert_eq!(validate_non_negative(1), Ok(()));
    assert_eq!(validate_non_negative(-1), Err(Error::Underflow));
}

#[test]
fn test_error_codes() {
    assert_eq!(Error::Unauthorized.to_code(), 401);
    assert_eq!(Error::Forbidden.to_code(), 403);
    assert_eq!(Error::NotFound.to_code(), 404);
    assert_eq!(Error::InvalidStatusTransition.to_code(), 400);
    assert_eq!(Error::BelowMinimumTopup.to_code(), 402);
    assert_eq!(Error::IntervalNotElapsed.to_code(), 1001);
    assert_eq!(Error::NotActive.to_code(), 1002);
    assert_eq!(Error::InsufficientBalance.to_code(), 1003);
    assert_eq!(Error::UsageNotEnabled.to_code(), 1004);
    assert_eq!(Error::InsufficientPrepaidBalance.to_code(), 1005);
    assert_eq!(Error::InvalidAmount.to_code(), 1006);
    assert_eq!(Error::Replay.to_code(), 1007);
    assert_eq!(Error::InvalidRecoveryAmount.to_code(), 1008);
    assert_eq!(Error::AlreadyInitialized.to_code(), 1009);
    assert_eq!(Error::Underflow.to_code(), 1010);
    assert_eq!(Error::RecoveryNotAllowed.to_code(), 1011);
    assert_eq!(Error::Overflow.to_code(), 1012);
    assert_eq!(Error::NotInitialized.to_code(), 1013);
    assert_eq!(Error::InvalidExportLimit.to_code(), 1014);
    assert_eq!(Error::InvalidInput.to_code(), 1015);
    assert_eq!(Error::SubscriptionExpired.to_code(), 1016);
}

#[test]
fn test_insufficient_balance_error_shortfall() {
    let e = InsufficientBalanceError::new(3_000000, 10_000000);
    assert_eq!(e.available, 3_000000);
    assert_eq!(e.required, 10_000000);
    assert_eq!(e.shortfall(), 7_000000);

    let covered = InsufficientBalanceError::new(10_000000, 10_000000);
    assert_eq!(covered.shortfall(), 0);
}
