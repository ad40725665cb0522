//! The laws of the ledger, stated over the operation outcomes of `ops`
//! and proved once and for all: the cashback formula, the counters'
//! relation to the recorded history, and what repeated or unauthorized
//! operations do.

use crate::identity::Address;
use crate::ledger::LedgerView;
use crate::ledger::has_redemption;
use crate::ledger::has_subscription;
use crate::ledger::lemma_subscription_index_unique;
use crate::ledger::subscription_at;
use crate::ledger::subscription_index_of;
use crate::ledger::sum_cashback;
use crate::ops::CancelSubscription;
use crate::ops::ProcessPayment;
use crate::ops::RedeemCashback;
use crate::ops::cancel_outcome;
use crate::ops::cancelled_subscription;
use crate::ops::lemma_cancel_preserves_wf;
use crate::ops::process_payment_outcome;
use crate::ops::redeem_outcome;
use crate::records::CashbackRedeemed;
use crate::records::SleekError;
use crate::records::SubscriptionCancelled;
use crate::records::cashback_of;
use crate::records::CASHBACK_DENOMINATOR;
use crate::records::CASHBACK_NUMERATOR;
use vstd::prelude::*;

verus! {

/// Every successful payment credits exactly
/// `floor(amount * 10 / 100)` cashback: the emitted event, the stored
/// payment's fee, and the growth of the historical mint total all agree
/// on that value.
pub proof fn lemma_cashback_is_ten_percent(
    l: LedgerView,
    ctx: ProcessPayment,
    subscription_id: u64,
    amount: u64,
    sol_amount: u64,
    now: i64,
)
    ensures
        process_payment_outcome(l, ctx, subscription_id, amount, sol_amount, now).2 matches Ok(ev)
            ==> ev.cashback_amount == amount * CASHBACK_NUMERATOR / (CASHBACK_DENOMINATOR as int),
        process_payment_outcome(l, ctx, subscription_id, amount, sol_amount, now).2 matches Ok(ev)
            ==> ev.cashback_amount == cashback_of(amount) && ev.amount == amount,
{
    let r = process_payment_outcome(l, ctx, subscription_id, amount, sol_amount, now).2;
    if r is Ok {
        assert(amount * CASHBACK_NUMERATOR <= u64::MAX);
        assert(0 <= cashback_of(amount) <= amount * CASHBACK_NUMERATOR) by (nonlinear_arith);
    }
}

/// The global counters track the recorded history exactly: in every
/// well-formed initialized ledger, `total_payments` counts the stored
/// payments, `total_subscriptions` counts the stored subscriptions, and
/// `total_cashback_minted` is the sum of the cashback credited for every
/// stored payment.  Each successful payment appends exactly one payment
/// and one subscription, so after `N` successful payments from a fresh
/// ledger both counters read `N`.
pub proof fn lemma_counters_track_history(l: LedgerView)
    requires
        l.wf(),
        l.state is Some,
    ensures
        l.state->0.total_payments == l.payments.len(),
        l.state->0.total_subscriptions == l.subscriptions.len(),
        l.state->0.total_cashback_minted == sum_cashback(l.payments),
{
}

/// A successful payment steps each counter by exactly its contribution:
/// one more payment, one more subscription, and the payment's cashback
/// added to the historical mint total.
pub proof fn lemma_payment_steps_counters(
    l: LedgerView,
    ctx: ProcessPayment,
    subscription_id: u64,
    amount: u64,
    sol_amount: u64,
    now: i64,
)
    requires
        l.state is Some,
        process_payment_outcome(l, ctx, subscription_id, amount, sol_amount, now).2 is Ok,
    ensures
        ({
            let l1 = process_payment_outcome(l, ctx, subscription_id, amount, sol_amount, now).0;
            &&& l1.state is Some
            &&& l1.state->0.total_payments == l.state->0.total_payments + 1
            &&& l1.state->0.total_subscriptions == l.state->0.total_subscriptions + 1
            &&& l1.state->0.total_cashback_minted == l.state->0.total_cashback_minted
                + cashback_of(amount)
            &&& l1.payments.len() == l.payments.len() + 1
            &&& l1.subscriptions.len() == l.subscriptions.len() + 1
        }),
{
}

/// Cancellation succeeds exactly once: its owner cancelling an active
/// subscription gets the cancellation event and the record becomes
/// `Cancelled` with the cancellation date set; a second attempt on the
/// same subscription fails with `SubscriptionNotActive` and changes
/// nothing.
pub proof fn lemma_cancel_exactly_once(l: LedgerView, su: u64, sid: u64, now1: i64, now2: i64)
    requires
        l.wf(),
        has_subscription(l.subscriptions, su, sid),
        subscription_at(l.subscriptions, su, sid).status is Active,
    ensures
        ({
            let ctx = CancelSubscription {
                subscription: (Address::Subscription { user: su, subscription_id: sid }),
                user: su,
            };
            let (l1, r1) = cancel_outcome(l, ctx, now1);
            let (l2, r2) = cancel_outcome(l1, ctx, now2);
            &&& r1 == Ok::<SubscriptionCancelled, SleekError>(
                SubscriptionCancelled { user: su, subscription_id: sid },
            )
            &&& has_subscription(l1.subscriptions, su, sid)
            &&& subscription_at(l1.subscriptions, su, sid).status is Cancelled
            &&& subscription_at(l1.subscriptions, su, sid).cancellation_date == Some(now1)
            &&& r2 == Err::<SubscriptionCancelled, SleekError>(SleekError::SubscriptionNotActive)
            &&& l2 == l1
        }),
{
    let ctx = CancelSubscription {
        subscription: (Address::Subscription { user: su, subscription_id: sid }),
        user: su,
    };
    let i = subscription_index_of(l.subscriptions, su, sid);
    let sub = l.subscriptions[i];
    let (l1, r1) = cancel_outcome(l, ctx, now1);
    assert(l1.subscriptions == l.subscriptions.update(i, cancelled_subscription(sub, now1)));
    lemma_cancel_preserves_wf(l, ctx, now1);
    assert(l1.subscriptions[i].user == su && l1.subscriptions[i].subscription_id == sid);
    assert(has_subscription(l1.subscriptions, su, sid));
    let j = subscription_index_of(l1.subscriptions, su, sid);
    lemma_subscription_index_unique(l1.subscriptions, su, sid, i, j);
    assert(subscription_at(l1.subscriptions, su, sid).status is Cancelled);
}

/// Cancellation by anyone but the subscription's owner fails with
/// `Unauthorized` and leaves the ledger — the subscription record
/// included — exactly as it was.
pub proof fn lemma_cancel_unauthorized(l: LedgerView, su: u64, sid: u64, caller: u64, now: i64)
    requires
        l.wf(),
        has_subscription(l.subscriptions, su, sid),
        caller != su,
    ensures
        ({
            let ctx = CancelSubscription {
                subscription: (Address::Subscription { user: su, subscription_id: sid }),
                user: caller,
            };
            cancel_outcome(l, ctx, now).0 == l && cancel_outcome(l, ctx, now).1 == Err::<
                SubscriptionCancelled,
                SleekError,
            >(SleekError::Unauthorized)
        }),
{
    let i = subscription_index_of(l.subscriptions, su, sid);
    assert(l.subscriptions[i].user == su);
}

/// Redeeming more than the account's cashback balance fails with
/// `InsufficientBalance` and stores no redemption record (no redemption
/// with this identity exists yet, so the balance check decides).
pub proof fn lemma_redeem_insufficient_balance(
    l: LedgerView,
    ctx: RedeemCashback,
    amount: u64,
    now: i64,
)
    requires
        !has_redemption(l.redemptions, ctx.user, now),
        amount > ctx.user_bonk_account.amount,
    ensures
        redeem_outcome(l, ctx, amount, now).0 == l,
        redeem_outcome(l, ctx, amount, now).1 == ctx,
        redeem_outcome(l, ctx, amount, now).2 == Err::<CashbackRedeemed, SleekError>(
            SleekError::InsufficientBalance,
        ),
{
}

/// A payment whose `sol_amount` exceeds the user's transferable balance
/// fails with `InsufficientFunds`, creates no payment or subscription
/// record, leaves every counter unchanged, and moves no balance.
pub proof fn lemma_payment_insufficient_funds(
    l: LedgerView,
    ctx: ProcessPayment,
    subscription_id: u64,
    amount: u64,
    sol_amount: u64,
    now: i64,
)
    requires
        l.state is Some,
        !has_subscription(l.subscriptions, ctx.user, subscription_id),
        sol_amount > ctx.user_token_account.amount,
    ensures
        process_payment_outcome(l, ctx, subscription_id, amount, sol_amount, now).0 == l,
        process_payment_outcome(l, ctx, subscription_id, amount, sol_amount, now).1 == ctx,
        process_payment_outcome(l, ctx, subscription_id, amount, sol_amount, now).2 == Err::<
            crate::records::PaymentProcessed,
            SleekError,
        >(SleekError::InsufficientFunds),
{
}

/// Two payments with the same (user, subscription id): the second fails
/// with `AlreadyExists` and the first's effects remain intact — the
/// ledger after the second attempt is exactly the ledger the first left,
/// and the second caller's accounts are untouched.
pub proof fn lemma_duplicate_payment_rejected(
    l: LedgerView,
    ctx1: ProcessPayment,
    ctx2: ProcessPayment,
    subscription_id: u64,
    amount1: u64,
    sol_amount1: u64,
    now1: i64,
    amount2: u64,
    sol_amount2: u64,
    now2: i64,
)
    requires
        process_payment_outcome(l, ctx1, subscription_id, amount1, sol_amount1, now1).2 is Ok,
        ctx2.user == ctx1.user,
    ensures
        ({
            let l1 = process_payment_outcome(l, ctx1, subscription_id, amount1, sol_amount1, now1).0;
            &&& process_payment_outcome(l1, ctx2, subscription_id, amount2, sol_amount2, now2).0
                == l1
            &&& process_payment_outcome(l1, ctx2, subscription_id, amount2, sol_amount2, now2).1
                == ctx2
            &&& process_payment_outcome(l1, ctx2, subscription_id, amount2, sol_amount2, now2).2
                == Err::<crate::records::PaymentProcessed, SleekError>(SleekError::AlreadyExists)
        }),
{
    let l1 = process_payment_outcome(l, ctx1, subscription_id, amount1, sol_amount1, now1).0;
    let n = l.subscriptions.len();
    assert(l1.subscriptions[n as int].user == ctx2.user && l1.subscriptions[n as int].subscription_id
        == subscription_id);
    assert(has_subscription(l1.subscriptions, ctx2.user, subscription_id));
}

} // verus!
