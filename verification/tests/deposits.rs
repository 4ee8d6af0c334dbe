use subscription_vault::{Address, Error, SubscriptionVault};

#[test]
fn test_init_with_min_topup() {
    let mut vault = SubscriptionVault::new();
    let token = Address { id: 1 };
    let admin = Address { id: 2 };
    let min_topup = 1_000000i128; // 1 USDC
    vault.init(token, admin, min_topup).unwrap();

    assert_eq!(vault.get_min_topup().unwrap(), min_topup);
}

#[test]
fn test_init_twice_rejected() {
    let mut vault = SubscriptionVault::new();
    let token = Address { id: 1 };
    let admin = Address { id: 2 };
    vault.init(token, admin, 1_000000i128).unwrap();
    assert_eq!(
        vault.init(token, admin, 2_000000i128),
        Err(Error::AlreadyInitialized)
    );
    assert_eq!(vault.get_min_topup().unwrap(), 1_000000i128);
}

#[test]
fn test_uninitialized_queries_fail() {
    let vault = SubscriptionVault::new();
    assert_eq!(vault.get_min_topup(), Err(Error::NotFound));
    assert_eq!(vault.get_admin(), Err(Error::NotFound));
}

#[test]
fn test_min_topup_below_threshold() {
    let mut vault = SubscriptionVault::new();
    let token = Address { id: 1 };
    let admin = Address { id: 2 };
    let subscriber = Address { id: 10 };
    let min_topup = 5_000000i128; // 5 USDC

    vault.init(token, admin, min_topup).unwrap();

    let result = vault.deposit_funds(0, subscriber, 4_999999);
    assert!(result.is_err());
}

#[test]
fn test_min_topup_exactly_at_threshold() {
    let mut vault = SubscriptionVault::new();
    let token = Address { id: 1 };
    let admin = Address { id: 2 };
    let subscriber = Address { id: 10 };
    let merchant = Address { id: 20 };
    let min_topup = 5_000000i128; // 5 USDC

    vault.init(token, admin, min_topup).unwrap();
    vault
        .create_subscription(subscriber, merchant, 1000i128, 86400u64, false, None, 0)
        .unwrap();

    let result = vault.deposit_funds(0, subscriber, min_topup);
    assert!(result.is_ok());
}

#[test]
fn test_min_topup_above_threshold() {
    let mut vault = SubscriptionVault::new();
    let token = Address { id: 1 };
    let admin = Address { id: 2 };
    let subscriber = Address { id: 10 };
    let merchant = Address { id: 20 };
    let min_topup = 5_000000i128; // 5 USDC

    vault.init(token, admin, min_topup).unwrap();
    vault
        .create_subscription(subscriber, merchant, 1000i128, 86400u64, false, None, 0)
        .unwrap();

    let result = vault.deposit_funds(0, subscriber, 10_000000);
    assert!(result.is_ok());
}

#[test]
fn test_deposit_one_below_min_topup_reports_threshold_error() {
    let mut vault = SubscriptionVault::new();
    let subscriber = Address { id: 10 };
    let merchant = Address { id: 20 };
    let min_topup = 5_000000i128;
    vault
        .init(Address { id: 1 }, Address { id: 2 }, min_topup)
        .unwrap();
    let id = vault
        .create_subscription(subscriber, merchant, 1000i128, 86400u64, false, None, 0)
        .unwrap();

    assert_eq!(
        vault.deposit_funds(id, subscriber, min_topup - 1),
        Err(Error::BelowMinimumTopup)
    );
    vault.deposit_funds(id, subscriber, min_topup).unwrap();
    assert_eq!(
        vault.get_subscription(id).unwrap().prepaid_balance,
        min_topup
    );
}

#[test]
fn test_deposit_accumulates_balance() {
    let mut vault = SubscriptionVault::new();
    let subscriber = Address { id: 10 };
    let merchant = Address { id: 20 };
    vault
        .init(Address { id: 1 }, Address { id: 2 }, 1_000000i128)
        .unwrap();
    let id = vault
        .create_subscription(subscriber, merchant, 1000i128, 86400u64, false, None, 0)
        .unwrap();

    vault.deposit_funds(id, subscriber, 2_000000).unwrap();
    vault.deposit_funds(id, subscriber, 3_000000).unwrap();
    assert_eq!(
        vault.get_subscription(id).unwrap().prepaid_balance,
        5_000000
    );

    assert_eq!(
        vault.deposit_funds(9999, subscriber, 2_000000),
        Err(Error::NotFound)
    );
}

#[test]
fn test_deposit_overflow_rejected() {
    let mut vault = SubscriptionVault::new();
    let subscriber = Address { id: 10 };
    let merchant = Address { id: 20 };
    vault
        .init(Address { id: 1 }, Address { id: 2 }, 1_000000i128)
        .unwrap();
    let id = vault
        .create_subscription(subscriber, merchant, 1000i128, 86400u64, false, None, 0)
        .unwrap();

    vault.deposit_funds(id, subscriber, i128::MAX).unwrap();
    assert_eq!(
        vault.deposit_funds(id, subscriber, 1_000000),
        Err(Error::Overflow)
    );
    assert_eq!(
        vault.get_subscription(id).unwrap().prepaid_balance,
        i128::MAX
    );
}

#[test]
fn test_set_min_topup_by_admin() {
    let mut vault = SubscriptionVault::new();
    let token = Address { id: 1 };
    let admin = Address { id: 2 };
    let initial_min = 1_000000i128;
    let new_min = 10_000000i128;

    vault.init(token, admin, initial_min).unwrap();
    assert_eq!(vault.get_min_topup().unwrap(), initial_min);

    vault.set_min_topup(admin, new_min).unwrap();
    assert_eq!(vault.get_min_topup().unwrap(), new_min);
}

#[test]
fn test_set_min_topup_unauthorized() {
    let mut vault = SubscriptionVault::new();
    let token = Address { id: 1 };
    let admin = Address { id: 2 };
    let non_admin = Address { id: 3 };
    let min_topup = 1_000000i128;

    vault.init(token, admin, min_topup).unwrap();

    let result = vault.set_min_topup(non_admin, 5_000000);
    assert!(result.is_err());
}

#[test]
fn test_rotate_admin_hands_over_control() {
    let mut vault = SubscriptionVault::new();
    let token = Address { id: 1 };
    let admin = Address { id: 2 };
    let new_admin = Address { id: 3 };
    vault.init(token, admin, 1_000000i128).unwrap();

    assert_eq!(
        vault.rotate_admin(new_admin, new_admin),
        Err(Error::Unauthorized)
    );
    vault.rotate_admin(admin, new_admin).unwrap();
    assert_eq!(vault.get_admin().unwrap(), new_admin);

    // The old admin lost access immediately.
    assert_eq!(
        vault.set_min_topup(admin, 2_000000),
        Err(Error::Unauthorized)
    );
    vault.set_min_topup(new_admin, 2_000000).unwrap();
    assert_eq!(vault.get_min_topup().unwrap(), 2_000000);
}
