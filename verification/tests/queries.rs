use subscription_vault::types::compute_next_charge_info;
use subscription_vault::{
    Address, Error, NextChargeInfo, RecoveryReason, Subscription, SubscriptionStatus,
    SubscriptionVault,
};

fn setup() -> SubscriptionVault {
    let mut vault = SubscriptionVault::new();
    vault
        .init(Address { id: 1 }, Address { id: 2 }, 1_000000i128)
        .unwrap();
    vault
}

fn sample_subscription(status: SubscriptionStatus) -> Subscription {
    Subscription {
        subscriber: Address { id: 10 },
        merchant: Address { id: 20 },
        amount: 10_000_000,
        interval_seconds: 3600,
        last_payment_timestamp: 5000,
        status,
        prepaid_balance: 0,
        usage_enabled: false,
        expiration: None,
    }
}

#[test]
fn test_compute_next_charge_info_statuses() {
    let info = compute_next_charge_info(&sample_subscription(SubscriptionStatus::Active));
    assert_eq!(
        info,
        NextChargeInfo { next_charge_timestamp: 8600, is_charge_expected: true }
    );

    let info =
        compute_next_charge_info(&sample_subscription(SubscriptionStatus::InsufficientBalance));
    assert!(info.is_charge_expected);

    let info = compute_next_charge_info(&sample_subscription(SubscriptionStatus::GracePeriod));
    assert!(info.is_charge_expected);

    let info = compute_next_charge_info(&sample_subscription(SubscriptionStatus::Paused));
    assert!(!info.is_charge_expected);
    assert_eq!(info.next_charge_timestamp, 8600);

    let info = compute_next_charge_info(&sample_subscription(SubscriptionStatus::Cancelled));
    assert!(!info.is_charge_expected);
}

#[test]
fn test_compute_next_charge_info_saturates() {
    let mut sub = sample_subscription(SubscriptionStatus::Active);
    sub.last_payment_timestamp = u64::MAX - 10;
    sub.interval_seconds = 3600;
    let info = compute_next_charge_info(&sub);
    assert_eq!(info.next_charge_timestamp, u64::MAX);
}

#[test]
fn test_get_next_charge_info_by_id() {
    let mut vault = setup();
    let id = vault
        .create_subscription(
            Address { id: 10 },
            Address { id: 20 },
            1000i128,
            3600,
            false,
            None,
            5000,
        )
        .unwrap();
    let info = vault.get_next_charge_info(id).unwrap();
    assert_eq!(info.next_charge_timestamp, 8600);
    assert!(info.is_charge_expected);

    assert_eq!(vault.get_next_charge_info(9999), Err(Error::NotFound));
}

#[test]
fn test_get_subscription_not_found() {
    let vault = setup();
    assert_eq!(vault.get_subscription(0), Err(Error::NotFound));
}

#[test]
fn test_plan_template_roundtrip() {
    let mut vault = setup();
    let merchant = Address { id: 20 };
    let plan_id = vault
        .create_plan_template(merchant, 9_990_000i128, 2_592_000u64, true)
        .unwrap();
    assert_eq!(plan_id, 0);

    let plan = vault.get_plan_template(plan_id).unwrap();
    assert_eq!(plan.merchant, merchant);
    assert_eq!(plan.amount, 9_990_000);
    assert_eq!(plan.interval_seconds, 2_592_000);
    assert!(plan.usage_enabled);

    assert_eq!(vault.get_plan_template(1), Err(Error::NotFound));

    // Templates validate their parameters so every subscription stamped from
    // one is well formed.
    assert_eq!(
        vault.create_plan_template(merchant, 0, 2_592_000u64, false),
        Err(Error::InvalidAmount)
    );
    assert_eq!(
        vault.create_plan_template(merchant, 1000, 0, false),
        Err(Error::InvalidInput)
    );
}

#[test]
fn test_create_subscription_from_plan_inherits_parameters() {
    let mut vault = setup();
    let merchant = Address { id: 20 };
    let subscriber = Address { id: 10 };
    let plan_id = vault
        .create_plan_template(merchant, 9_990_000i128, 2_592_000u64, true)
        .unwrap();

    let id = vault
        .create_subscription_from_plan(subscriber, plan_id, 7777)
        .unwrap();
    let sub = vault.get_subscription(id).unwrap();
    assert_eq!(sub.subscriber, subscriber);
    assert_eq!(sub.merchant, merchant);
    assert_eq!(sub.amount, 9_990_000);
    assert_eq!(sub.interval_seconds, 2_592_000);
    assert!(sub.usage_enabled);
    assert_eq!(sub.last_payment_timestamp, 7777);
    assert_eq!(sub.status, SubscriptionStatus::Active);
    assert_eq!(sub.prepaid_balance, 0);

    assert_eq!(
        vault.create_subscription_from_plan(subscriber, 42, 7777),
        Err(Error::NotFound)
    );
}

#[test]
fn test_create_subscription_validates_parameters() {
    let mut vault = setup();
    let subscriber = Address { id: 10 };
    let merchant = Address { id: 20 };
    assert_eq!(
        vault.create_subscription(subscriber, merchant, 0, 3600, false, None, 0),
        Err(Error::InvalidAmount)
    );
    assert_eq!(
        vault.create_subscription(subscriber, merchant, -5, 3600, false, None, 0),
        Err(Error::InvalidAmount)
    );
    assert_eq!(
        vault.create_subscription(subscriber, merchant, 1000, 0, false, None, 0),
        Err(Error::InvalidInput)
    );
}

#[test]
fn test_subscription_ids_are_sequential() {
    let mut vault = setup();
    let subscriber = Address { id: 10 };
    let merchant = Address { id: 20 };
    for expected in 0u32..4 {
        let id = vault
            .create_subscription(subscriber, merchant, 1000, 3600, false, None, 0)
            .unwrap();
        assert_eq!(id, expected);
    }
    assert_eq!(vault.subscription_count(), 4);
}

#[test]
fn test_list_merchant_subscriptions_pagination() {
    let mut vault = setup();
    let subscriber = Address { id: 10 };
    let merchant_a = Address { id: 20 };
    let merchant_b = Address { id: 21 };

    // Interleave subscriptions of two merchants: a b a b a
    for i in 0..5u64 {
        let m = if i % 2 == 0 { merchant_a } else { merchant_b };
        vault
            .create_subscription(subscriber, m, 1000, 3600, false, None, 0)
            .unwrap();
    }

    // Full listing, insertion order.
    assert_eq!(
        vault.list_merchant_subscriptions(merchant_a, 0, 10),
        vec![0, 2, 4]
    );
    assert_eq!(
        vault.list_merchant_subscriptions(merchant_b, 0, 10),
        vec![1, 3]
    );

    // Windows.
    assert_eq!(
        vault.list_merchant_subscriptions(merchant_a, 1, 1),
        vec![2]
    );
    assert_eq!(
        vault.list_merchant_subscriptions(merchant_a, 1, 10),
        vec![2, 4]
    );

    // Out-of-range offsets yield empty pages.
    assert_eq!(
        vault.list_merchant_subscriptions(merchant_a, 3, 10),
        Vec::<u32>::new()
    );
    assert_eq!(
        vault.list_merchant_subscriptions(Address { id: 99 }, 0, 10),
        Vec::<u32>::new()
    );
}

#[test]
fn test_list_subscriber_subscriptions_pagination() {
    let mut vault = setup();
    let subscriber_a = Address { id: 10 };
    let subscriber_b = Address { id: 11 };
    let merchant = Address { id: 20 };

    for i in 0..4u64 {
        let s = if i < 2 { subscriber_a } else { subscriber_b };
        vault
            .create_subscription(s, merchant, 1000, 3600, false, None, 0)
            .unwrap();
    }

    assert_eq!(
        vault.list_subscriber_subscriptions(subscriber_a, 0, 10),
        vec![0, 1]
    );
    assert_eq!(
        vault.list_subscriber_subscriptions(subscriber_b, 0, 10),
        vec![2, 3]
    );
    assert_eq!(
        vault.list_subscriber_subscriptions(subscriber_a, 1, 10),
        vec![1]
    );
    assert_eq!(
        vault.list_subscriber_subscriptions(subscriber_a, 2, 10),
        Vec::<u32>::new()
    );
}

#[test]
fn test_withdraw_merchant_funds_debits_accrual() {
    let mut vault = setup();
    let subscriber = Address { id: 10 };
    let merchant = Address { id: 20 };
    let id = vault
        .create_subscription(subscriber, merchant, 1000i128, 3600, false, None, 0)
        .unwrap();
    vault.deposit_funds(id, subscriber, 10_000000i128).unwrap();
    vault.charge_subscription(id, 3600).unwrap();
    assert_eq!(vault.get_merchant_balance(merchant), 1000);

    assert_eq!(
        vault.withdraw_merchant_funds(merchant, 0),
        Err(Error::InvalidAmount)
    );
    assert_eq!(
        vault.withdraw_merchant_funds(merchant, 1001),
        Err(Error::Underflow)
    );
    vault.withdraw_merchant_funds(merchant, 600).unwrap();
    assert_eq!(vault.get_merchant_balance(merchant), 400);
    vault.withdraw_merchant_funds(merchant, 400).unwrap();
    assert_eq!(vault.get_merchant_balance(merchant), 0);

    // A merchant that was never credited cannot withdraw.
    assert_eq!(
        vault.withdraw_merchant_funds(Address { id: 99 }, 1),
        Err(Error::Underflow)
    );
}

#[test]
fn test_recover_stranded_funds_rules() {
    let vault = setup();
    let admin = Address { id: 2 };
    let non_admin = Address { id: 3 };
    let recipient = Address { id: 4 };

    assert_eq!(
        vault.recover_stranded_funds(
            non_admin,
            recipient,
            100,
            RecoveryReason::AccidentalTransfer,
            5000
        ),
        Err(Error::Unauthorized)
    );
    assert_eq!(
        vault.recover_stranded_funds(
            admin,
            recipient,
            0,
            RecoveryReason::DeprecatedFlow,
            5000
        ),
        Err(Error::InvalidRecoveryAmount)
    );
    let event = vault
        .recover_stranded_funds(
            admin,
            recipient,
            100_000000,
            RecoveryReason::UnreachableSubscriber,
            5000,
        )
        .unwrap();
    assert_eq!(event.admin, admin);
    assert_eq!(event.recipient, recipient);
    assert_eq!(event.amount, 100_000000);
    assert_eq!(event.reason, RecoveryReason::UnreachableSubscriber);
    assert_eq!(event.timestamp, 5000);
}
