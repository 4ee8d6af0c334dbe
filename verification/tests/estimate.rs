use subscription_vault::{Address, Error, SubscriptionVault};

const INTERVAL: u64 = 30 * 24 * 60 * 60; // 30 days

/// Vault with one Active subscription: amount 10 USDC per interval, no
/// deposit yet.
fn setup() -> (SubscriptionVault, u32, Address) {
    let mut vault = SubscriptionVault::new();
    let token = Address { id: 1 };
    let admin = Address { id: 2 };
    vault.init(token, admin, 1_000000i128).unwrap();
    let subscriber = Address { id: 10 };
    let merchant = Address { id: 20 };
    let id = vault
        .create_subscription(subscriber, merchant, 10_000_000i128, INTERVAL, false, None, 0)
        .unwrap();
    (vault, id, subscriber)
}

#[test]
fn test_estimate_topup_zero_intervals_returns_zero() {
    let (vault, id, _) = setup();
    let topup = vault.estimate_topup_for_intervals(id, 0).unwrap();
    assert_eq!(topup, 0);
}

#[test]
fn test_estimate_topup_balance_already_covers_returns_zero() {
    let (mut vault, id, subscriber) = setup();
    // 10 USDC per interval, deposit 30 USDC, ask for 3 intervals:
    // required 30, balance 30, topup 0
    vault.deposit_funds(id, subscriber, 30_000000i128).unwrap();
    let sub = vault.get_subscription(id).unwrap();
    assert_eq!(sub.amount, 10_000_000);
    let topup = vault.estimate_topup_for_intervals(id, 3).unwrap();
    assert_eq!(topup, 0);
}

#[test]
fn test_estimate_topup_insufficient_balance_returns_shortfall() {
    let (mut vault, id, subscriber) = setup();
    // amount 10_000_000, 3 intervals = 30_000_000 required;
    // deposit 10_000_000, so topup 20_000_000
    vault.deposit_funds(id, subscriber, 10_000000i128).unwrap();
    let topup = vault.estimate_topup_for_intervals(id, 3).unwrap();
    assert_eq!(topup, 20_000_000);
}

#[test]
fn test_estimate_topup_no_balance_returns_full_required() {
    let (vault, id, _) = setup();
    // prepaid_balance 0, 5 intervals * 10_000_000 = 50_000_000
    let topup = vault.estimate_topup_for_intervals(id, 5).unwrap();
    assert_eq!(topup, 50_000_000);
}

#[test]
fn test_estimate_topup_subscription_not_found() {
    let (vault, _, _) = setup();
    let result = vault.estimate_topup_for_intervals(9999, 1);
    assert_eq!(result, Err(Error::NotFound));
}

#[test]
fn test_estimate_topup_overflow() {
    let mut vault = SubscriptionVault::new();
    vault
        .init(Address { id: 1 }, Address { id: 2 }, 1_000000i128)
        .unwrap();
    let subscriber = Address { id: 10 };
    let merchant = Address { id: 20 };
    let id = vault
        .create_subscription(subscriber, merchant, i128::MAX, INTERVAL, false, None, 0)
        .unwrap();
    assert_eq!(
        vault.estimate_topup_for_intervals(id, 2),
        Err(Error::Overflow)
    );
}
