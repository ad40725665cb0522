use sleek::identity::derive_payment_address;
use sleek::identity::derive_redemption_address;
use sleek::identity::derive_state_address;
use sleek::identity::derive_subscription_address;
use sleek::identity::Address;
use sleek::ledger::Ledger;
use sleek::records::compute_cashback;
use sleek::records::SleekError;

#[test]
fn address_derivation_is_deterministic() {
    assert_eq!(derive_state_address(), derive_state_address());
    assert_eq!(derive_payment_address(1, 0), derive_payment_address(1, 0));
    assert_eq!(
        derive_subscription_address(1, 42),
        derive_subscription_address(1, 42)
    );
    assert_eq!(
        derive_redemption_address(1, 300),
        derive_redemption_address(1, 300)
    );
}

#[test]
fn address_derivation_separates_keys_and_kinds() {
    assert_ne!(derive_payment_address(1, 0), derive_payment_address(1, 1));
    assert_ne!(derive_payment_address(1, 0), derive_payment_address(2, 0));
    assert_ne!(
        derive_subscription_address(1, 42),
        derive_subscription_address(1, 43)
    );
    assert_ne!(
        derive_redemption_address(1, 300),
        derive_redemption_address(2, 300)
    );
    // the same field values under different kinds are different addresses
    assert_ne!(
        derive_payment_address(1, 42),
        derive_subscription_address(1, 42)
    );
    assert_ne!(
        derive_state_address(),
        derive_payment_address(0, 0)
    );
    assert_eq!(
        derive_subscription_address(1, 42),
        Address::Subscription {
            user: 1,
            subscription_id: 42
        }
    );
}

#[test]
fn cashback_formula_exact_values() {
    assert_eq!(compute_cashback(1000), Ok(100));
    assert_eq!(compute_cashback(105), Ok(10));
    assert_eq!(compute_cashback(9), Ok(0));
    assert_eq!(compute_cashback(10), Ok(1));
    assert_eq!(compute_cashback(0), Ok(0));
    assert_eq!(compute_cashback(u64::MAX / 10), Ok(u64::MAX / 10 * 10 / 100));
    assert_eq!(compute_cashback(u64::MAX / 10 + 1), Err(SleekError::Overflow));
    assert_eq!(compute_cashback(u64::MAX), Err(SleekError::Overflow));
}

#[test]
fn new_ledger_is_empty() {
    let l = Ledger::new();
    assert!(l.state.is_none());
    assert_eq!(l.payments.len(), 0);
    assert_eq!(l.subscriptions.len(), 0);
    assert_eq!(l.redemptions.len(), 0);
}
