use sleek::identity::Address;
use sleek::ledger::Ledger;
use sleek::ops::cancel_subscription;
use sleek::ops::effective_status;
use sleek::ops::get_cashback_balance;
use sleek::ops::initialize;
use sleek::ops::process_subscription_payment;
use sleek::ops::redeem_cashback;
use sleek::ops::CancelSubscription;
use sleek::ops::GetCashbackBalance;
use sleek::ops::Initialize;
use sleek::ops::ProcessPayment;
use sleek::ops::RedeemCashback;
use sleek::records::PaymentStatus;
use sleek::records::SleekError;
use sleek::records::SubscriptionStatus;
use sleek::token::Mint;
use sleek::token::TokenAccount;

fn fresh_ledger(authority: u64) -> Ledger {
    let mut l = Ledger::new();
    initialize(&mut l, Initialize { authority }).unwrap();
    l
}

fn payment_ctx(user: u64, funds: u64) -> ProcessPayment {
    ProcessPayment {
        user,
        user_token_account: TokenAccount { amount: funds },
        authority_token_account: TokenAccount { amount: 0 },
        user_bonk_account: TokenAccount { amount: 0 },
        bonk_mint: Mint { supply: 0 },
        authority: 7,
    }
}

#[test]
fn scenario_payment_success() {
    let mut l = fresh_ledger(7);
    let mut ctx = payment_ctx(1, 500);
    let ev = process_subscription_payment(&mut l, &mut ctx, 42, 1000, 50, 100).unwrap();
    assert_eq!(ev.user, 1);
    assert_eq!(ev.subscription_id, 42);
    assert_eq!(ev.amount, 1000);
    assert_eq!(ev.cashback_amount, 100);
    assert_eq!(l.payments.len(), 1);
    assert_eq!(l.payments[0].status, PaymentStatus::Completed);
    assert_eq!(l.payments[0].amount, 1000);
    assert_eq!(l.payments[0].sol_amount, 50);
    assert_eq!(l.subscriptions.len(), 1);
    assert_eq!(l.subscriptions[0].status, SubscriptionStatus::Active);
    assert_eq!(l.subscriptions[0].activation_date, 100);
    assert_eq!(l.subscriptions[0].expiration_date, 100 + 2_592_000);
    assert_eq!(l.subscriptions[0].cancellation_date, None);
    assert_eq!(ctx.user_token_account.amount, 450);
    assert_eq!(ctx.authority_token_account.amount, 50);
    assert_eq!(ctx.user_bonk_account.amount, 100);
    assert_eq!(ctx.bonk_mint.supply, 100);
}

#[test]
fn cashback_truncates() {
    let mut l = fresh_ledger(7);
    let mut ctx = payment_ctx(1, 500);
    let ev = process_subscription_payment(&mut l, &mut ctx, 1, 105, 5, 0).unwrap();
    assert_eq!(ev.cashback_amount, 10);
    let ev = process_subscription_payment(&mut l, &mut ctx, 2, 9, 5, 0).unwrap();
    assert_eq!(ev.cashback_amount, 0);
    let ev = process_subscription_payment(&mut l, &mut ctx, 3, 99, 5, 0).unwrap();
    assert_eq!(ev.cashback_amount, 9);
}

#[test]
fn counters_track_payments() {
    let mut l = fresh_ledger(7);
    let mut ctx = payment_ctx(1, 1_000);
    process_subscription_payment(&mut l, &mut ctx, 1, 100, 10, 0).unwrap();
    process_subscription_payment(&mut l, &mut ctx, 2, 250, 10, 1).unwrap();
    process_subscription_payment(&mut l, &mut ctx, 3, 105, 10, 2).unwrap();
    let s = l.state.unwrap();
    assert_eq!(s.total_payments, 3);
    assert_eq!(s.total_subscriptions, 3);
    assert_eq!(s.total_cashback_minted, 10 + 25 + 10);
    assert_eq!(l.payments.len(), 3);
    assert_eq!(l.subscriptions.len(), 3);
}

#[test]
fn initialize_only_once() {
    let mut l = Ledger::new();
    assert_eq!(initialize(&mut l, Initialize { authority: 7 }), Ok(()));
    assert_eq!(l.state.unwrap().authority, 7);
    assert_eq!(l.state.unwrap().total_payments, 0);
    assert_eq!(
        initialize(&mut l, Initialize { authority: 8 }),
        Err(SleekError::AlreadyInitialized)
    );
    assert_eq!(l.state.unwrap().authority, 7);
}

#[test]
fn payment_needs_initialized_ledger() {
    let mut l = Ledger::new();
    let mut ctx = payment_ctx(1, 500);
    assert_eq!(
        process_subscription_payment(&mut l, &mut ctx, 1, 100, 10, 0),
        Err(SleekError::NotFound)
    );
    assert_eq!(l.payments.len(), 0);
    assert_eq!(ctx.user_token_account.amount, 500);
}

#[test]
fn payment_insufficient_funds_is_atomic() {
    let mut l = fresh_ledger(7);
    let mut ctx = payment_ctx(1, 49);
    assert_eq!(
        process_subscription_payment(&mut l, &mut ctx, 42, 1000, 50, 100),
        Err(SleekError::InsufficientFunds)
    );
    assert_eq!(l.payments.len(), 0);
    assert_eq!(l.subscriptions.len(), 0);
    let s = l.state.unwrap();
    assert_eq!(s.total_payments, 0);
    assert_eq!(s.total_subscriptions, 0);
    assert_eq!(s.total_cashback_minted, 0);
    assert_eq!(ctx.user_token_account.amount, 49);
    assert_eq!(ctx.authority_token_account.amount, 0);
    assert_eq!(ctx.user_bonk_account.amount, 0);
    assert_eq!(ctx.bonk_mint.supply, 0);
}

#[test]
fn duplicate_subscription_rejected() {
    let mut l = fresh_ledger(7);
    let mut ctx = payment_ctx(1, 500);
    process_subscription_payment(&mut l, &mut ctx, 42, 1000, 50, 100).unwrap();
    assert_eq!(
        process_subscription_payment(&mut l, &mut ctx, 42, 2000, 60, 200),
        Err(SleekError::AlreadyExists)
    );
    assert_eq!(l.payments.len(), 1);
    assert_eq!(l.subscriptions.len(), 1);
    assert_eq!(l.subscriptions[0].amount, 1000);
    assert_eq!(l.state.unwrap().total_payments, 1);
    assert_eq!(ctx.user_token_account.amount, 450);
    // a different id, and a different user under the taken id, both go through
    let ev = process_subscription_payment(&mut l, &mut ctx, 43, 1000, 50, 300).unwrap();
    assert_eq!(ev.subscription_id, 43);
    let mut other = payment_ctx(2, 500);
    let ev = process_subscription_payment(&mut l, &mut other, 42, 1000, 50, 300).unwrap();
    assert_eq!(ev.user, 2);
    assert_eq!(l.subscriptions.len(), 3);
}

#[test]
fn payment_overflow_guard() {
    let mut l = fresh_ledger(7);
    let mut ctx = payment_ctx(1, 500);
    assert_eq!(
        process_subscription_payment(&mut l, &mut ctx, 1, u64::MAX / 10 + 1, 50, 0),
        Err(SleekError::Overflow)
    );
    assert_eq!(l.payments.len(), 0);
    assert_eq!(ctx.user_token_account.amount, 500);
    // the largest fee whose tenfold still fits goes through
    let ev = process_subscription_payment(&mut l, &mut ctx, 1, u64::MAX / 10, 50, 0).unwrap();
    assert_eq!(ev.cashback_amount, u64::MAX / 10 * 10 / 100);
}

#[test]
fn cancel_succeeds_exactly_once() {
    let mut l = fresh_ledger(7);
    let mut ctx = payment_ctx(1, 500);
    process_subscription_payment(&mut l, &mut ctx, 42, 1000, 50, 100).unwrap();
    let addr = Address::Subscription {
        user: 1,
        subscription_id: 42,
    };
    let ev = cancel_subscription(
        &mut l,
        CancelSubscription {
            subscription: addr,
            user: 1,
        },
        777,
    )
    .unwrap();
    assert_eq!(ev.user, 1);
    assert_eq!(ev.subscription_id, 42);
    assert_eq!(l.subscriptions[0].status, SubscriptionStatus::Cancelled);
    assert_eq!(l.subscriptions[0].cancellation_date, Some(777));
    assert_eq!(
        cancel_subscription(
            &mut l,
            CancelSubscription {
                subscription: addr,
                user: 1,
            },
            888,
        ),
        Err(SleekError::SubscriptionNotActive)
    );
    assert_eq!(l.subscriptions[0].cancellation_date, Some(777));
}

#[test]
fn cancel_by_non_owner_unauthorized() {
    let mut l = fresh_ledger(7);
    let mut ctx = payment_ctx(1, 500);
    process_subscription_payment(&mut l, &mut ctx, 42, 1000, 50, 100).unwrap();
    let before = l.subscriptions[0];
    assert_eq!(
        cancel_subscription(
            &mut l,
            CancelSubscription {
                subscription: Address::Subscription {
                    user: 1,
                    subscription_id: 42,
                },
                user: 2,
            },
            777,
        ),
        Err(SleekError::Unauthorized)
    );
    assert_eq!(l.subscriptions[0], before);
    assert_eq!(l.subscriptions[0].status, SubscriptionStatus::Active);
}

#[test]
fn cancel_missing_subscription_not_found() {
    let mut l = fresh_ledger(7);
    assert_eq!(
        cancel_subscription(
            &mut l,
            CancelSubscription {
                subscription: Address::Subscription {
                    user: 1,
                    subscription_id: 42,
                },
                user: 1,
            },
            777,
        ),
        Err(SleekError::NotFound)
    );
    // an address of another record kind is no subscription either
    assert_eq!(
        cancel_subscription(
            &mut l,
            CancelSubscription {
                subscription: Address::Payment { user: 1, sequence: 0 },
                user: 1,
            },
            777,
        ),
        Err(SleekError::NotFound)
    );
}

#[test]
fn redeem_success_burns_balance() {
    let mut l = fresh_ledger(7);
    let mut ctx = RedeemCashback {
        user: 1,
        user_bonk_account: TokenAccount { amount: 100 },
        bonk_mint: Mint { supply: 150 },
    };
    let ev = redeem_cashback(&mut l, &mut ctx, 60, 300).unwrap();
    assert_eq!(ev.user, 1);
    assert_eq!(ev.amount, 60);
    assert_eq!(ctx.user_bonk_account.amount, 40);
    assert_eq!(ctx.bonk_mint.supply, 90);
    assert_eq!(l.redemptions.len(), 1);
    assert_eq!(l.redemptions[0].user, 1);
    assert_eq!(l.redemptions[0].amount, 60);
    assert_eq!(l.redemptions[0].timestamp, 300);
}

#[test]
fn redeem_insufficient_balance_is_atomic() {
    let mut l = fresh_ledger(7);
    let mut ctx = RedeemCashback {
        user: 1,
        user_bonk_account: TokenAccount { amount: 100 },
        bonk_mint: Mint { supply: 150 },
    };
    assert_eq!(
        redeem_cashback(&mut l, &mut ctx, 101, 300),
        Err(SleekError::InsufficientBalance)
    );
    assert_eq!(l.redemptions.len(), 0);
    assert_eq!(ctx.user_bonk_account.amount, 100);
    assert_eq!(ctx.bonk_mint.supply, 150);
}

#[test]
fn redeem_does_not_touch_mint_counter() {
    let mut l = fresh_ledger(7);
    let mut pay = payment_ctx(1, 500);
    process_subscription_payment(&mut l, &mut pay, 1, 1000, 50, 0).unwrap();
    assert_eq!(l.state.unwrap().total_cashback_minted, 100);
    let mut ctx = RedeemCashback {
        user: 1,
        user_bonk_account: pay.user_bonk_account,
        bonk_mint: pay.bonk_mint,
    };
    redeem_cashback(&mut l, &mut ctx, 100, 300).unwrap();
    // issuance history, not circulating supply
    assert_eq!(l.state.unwrap().total_cashback_minted, 100);
    assert_eq!(ctx.bonk_mint.supply, 0);
}

#[test]
fn redeem_same_identity_twice_rejected() {
    let mut l = fresh_ledger(7);
    let mut ctx = RedeemCashback {
        user: 1,
        user_bonk_account: TokenAccount { amount: 100 },
        bonk_mint: Mint { supply: 100 },
    };
    redeem_cashback(&mut l, &mut ctx, 10, 300).unwrap();
    assert_eq!(
        redeem_cashback(&mut l, &mut ctx, 10, 300),
        Err(SleekError::AlreadyExists)
    );
    assert_eq!(l.redemptions.len(), 1);
    // a later timestamp is a fresh identity
    redeem_cashback(&mut l, &mut ctx, 10, 301).unwrap();
    assert_eq!(l.redemptions.len(), 2);
}

#[test]
fn balance_query_reads_account() {
    let ctx = GetCashbackBalance {
        user_bonk_account: TokenAccount { amount: 1234 },
    };
    assert_eq!(get_cashback_balance(&ctx), Ok(1234));
}

#[test]
fn expiration_is_a_read_time_view() {
    let mut l = fresh_ledger(7);
    let mut ctx = payment_ctx(1, 500);
    process_subscription_payment(&mut l, &mut ctx, 42, 1000, 50, 100).unwrap();
    let sub = l.subscriptions[0];
    assert_eq!(effective_status(&sub, 100), SubscriptionStatus::Active);
    assert_eq!(
        effective_status(&sub, 100 + 2_592_000),
        SubscriptionStatus::Expired
    );
    // the stored status is untouched by the passage of time
    assert_eq!(l.subscriptions[0].status, SubscriptionStatus::Active);
    // an expired-by-time subscription can still be cancelled: the stored
    // status decides
    let ev = cancel_subscription(
        &mut l,
        CancelSubscription {
            subscription: Address::Subscription {
                user: 1,
                subscription_id: 42,
            },
            user: 1,
        },
        100 + 2_592_001,
    )
    .unwrap();
    assert_eq!(ev.subscription_id, 42);
    let sub = l.subscriptions[0];
    assert_eq!(effective_status(&sub, 100 + 2_592_002), SubscriptionStatus::Cancelled);
}
