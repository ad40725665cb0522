//! The five operations of the ledger: initialize, process a subscription
//! payment, redeem cashback, cancel a subscription, and read a cashback
//! balance.
//!
//! Each mutating operation is atomic: it either performs every record
//! mutation and balance movement of its contract, or fails and changes
//! nothing.  What each one does is stated once, as a function from the
//! ledger's model and the operation's accounts to the next model, the
//! accounts after the call, and the result (`initialize_outcome`,
//! `process_payment_outcome`, `redeem_outcome`, `cancel_outcome`); the
//! executable operation is proved to return exactly that outcome.

use crate::identity::Address;
use crate::ledger::Ledger;
use crate::ledger::LedgerView;
use crate::ledger::has_redemption;
use crate::ledger::has_subscription;
use crate::ledger::lemma_subscription_index_unique;
use crate::ledger::lemma_sum_cashback_push;
use crate::ledger::subscription_index_of;
use crate::ledger::subscription_shape;
use crate::records::CashbackRedeemed;
use crate::records::CashbackRedemption;
use crate::records::Payment;
use crate::records::PaymentProcessed;
use crate::records::PaymentStatus;
use crate::records::SleekError;
use crate::records::SleekState;
use crate::records::Subscription;
use crate::records::SubscriptionCancelled;
use crate::records::SubscriptionStatus;
use crate::records::cashback_of;
use crate::records::compute_cashback;
use crate::records::CASHBACK_NUMERATOR;
use crate::records::SUBSCRIPTION_DURATION_SECS;
use crate::token::Mint;
use crate::token::TokenAccount;
use crate::token::burn;
use crate::token::mint_to;
use crate::token::transfer;
use vstd::prelude::*;

verus! {

/// Accounts of the initialize operation: the administrator who becomes
/// the ledger's authority.
#[derive(Clone, Copy, Debug, PartialEq, Eq, Structural)]
pub struct Initialize {
    pub authority: u64,
}

/// Accounts of the payment operation: the paying user, the two accounts
/// the payment moves between, the user's cashback account, the cashback
/// mint, and the receiving authority.
#[derive(Clone, Copy, Debug, PartialEq, Eq, Structural)]
pub struct ProcessPayment {
    pub user: u64,
    pub user_token_account: TokenAccount,
    pub authority_token_account: TokenAccount,
    pub user_bonk_account: TokenAccount,
    pub bonk_mint: Mint,
    pub authority: u64,
}

/// Accounts of the redemption operation: the redeeming user, their
/// cashback account, and the cashback mint the burn shrinks.
#[derive(Clone, Copy, Debug, PartialEq, Eq, Structural)]
pub struct RedeemCashback {
    pub user: u64,
    pub user_bonk_account: TokenAccount,
    pub bonk_mint: Mint,
}

/// Accounts of the cancellation operation: the address of the
/// subscription to cancel and the calling user.
#[derive(Clone, Copy, Debug, PartialEq, Eq, Structural)]
pub struct CancelSubscription {
    pub subscription: Address,
    pub user: u64,
}

/// Accounts of the balance query: the cashback account to read.
#[derive(Clone, Copy, Debug, PartialEq, Eq, Structural)]
pub struct GetCashbackBalance {
    pub user_bonk_account: TokenAccount,
}

/// What initialize does: creates the singleton state with all counters at
/// zero and the caller as authority, or fails with `AlreadyInitialized`
/// when the singleton already exists.
pub open spec fn initialize_outcome(l: LedgerView, ctx: Initialize) -> (LedgerView, Result<
    (),
    SleekError,
>) {
    if l.state is Some {
        (l, Err(SleekError::AlreadyInitialized))
    } else {
        (
            LedgerView {
                state: Some(
                    SleekState {
                        authority: ctx.authority,
                        total_subscriptions: 0,
                        total_payments: 0,
                        total_cashback_minted: 0,
                    },
                ),
                ..l
            },
            Ok(()),
        )
    }
}

/// The payment record a successful payment stores, finalized at creation.
pub open spec fn new_payment(
    user: u64,
    subscription_id: u64,
    amount: u64,
    sol_amount: u64,
    now: i64,
) -> Payment {
    Payment {
        user,
        subscription_id,
        amount,
        sol_amount,
        status: PaymentStatus::Completed,
        timestamp: now,
    }
}

/// The subscription record a successful payment stores: active as of
/// `now` and expiring one fixed period later.
pub open spec fn new_subscription(user: u64, subscription_id: u64, amount: u64, now: i64) -> Subscription {
    Subscription {
        user,
        subscription_id,
        amount,
        status: SubscriptionStatus::Active,
        activation_date: now,
        expiration_date: (now + SUBSCRIPTION_DURATION_SECS) as i64,
        cancellation_date: None,
    }
}

/// The arithmetic a payment performs would leave the unsigned 64-bit
/// domain: the cashback product, a balance or supply sum, or a global
/// counter.
pub open spec fn process_payment_overflows(
    s: SleekState,
    ctx: ProcessPayment,
    amount: u64,
    sol_amount: u64,
) -> bool {
    ||| amount * CASHBACK_NUMERATOR > u64::MAX
    ||| ctx.authority_token_account.amount + sol_amount > u64::MAX
    ||| ctx.user_bonk_account.amount + cashback_of(amount) > u64::MAX
    ||| ctx.bonk_mint.supply + cashback_of(amount) > u64::MAX
    ||| s.total_payments + 1 > u64::MAX
    ||| s.total_cashback_minted + cashback_of(amount) > u64::MAX
    ||| s.total_subscriptions + 1 > u64::MAX
}

/// What a payment does.  In order, the first failure wins: `NotFound`
/// when the ledger is not initialized; `AlreadyExists` when the user
/// already has a subscription under this id; `InsufficientFunds` when the
/// user's account holds less than `sol_amount`; `Overflow` when the
/// arithmetic would wrap.  Otherwise it stores the payment (completed)
/// and the subscription (active, expiring one period after `now`), moves
/// `sol_amount` to the authority's account, mints the cashback into the
/// user's cashback account, steps both global counters and adds the
/// cashback to the mint total, and emits the payment event.
pub open spec fn process_payment_outcome(
    l: LedgerView,
    ctx: ProcessPayment,
    subscription_id: u64,
    amount: u64,
    sol_amount: u64,
    now: i64,
) -> (LedgerView, ProcessPayment, Result<PaymentProcessed, SleekError>) {
    match l.state {
        None => (l, ctx, Err(SleekError::NotFound)),
        Some(s) => if has_subscription(l.subscriptions, ctx.user, subscription_id) {
            (l, ctx, Err(SleekError::AlreadyExists))
        } else if ctx.user_token_account.amount < sol_amount {
            (l, ctx, Err(SleekError::InsufficientFunds))
        } else if process_payment_overflows(s, ctx, amount, sol_amount) {
            (l, ctx, Err(SleekError::Overflow))
        } else {
            let cashback = cashback_of(amount) as u64;
            (
                LedgerView {
                    state: Some(
                        SleekState {
                            authority: s.authority,
                            total_subscriptions: (s.total_subscriptions + 1) as u64,
                            total_payments: (s.total_payments + 1) as u64,
                            total_cashback_minted: (s.total_cashback_minted + cashback) as u64,
                        },
                    ),
                    payments: l.payments.push(
                        new_payment(ctx.user, subscription_id, amount, sol_amount, now),
                    ),
                    subscriptions: l.subscriptions.push(
                        new_subscription(ctx.user, subscription_id, amount, now),
                    ),
                    redemptions: l.redemptions,
                },
                ProcessPayment {
                    user_token_account: TokenAccount {
                        amount: (ctx.user_token_account.amount - sol_amount) as u64,
                    },
                    authority_token_account: TokenAccount {
                        amount: (ctx.authority_token_account.amount + sol_amount) as u64,
                    },
                    user_bonk_account: TokenAccount {
                        amount: (ctx.user_bonk_account.amount + cashback) as u64,
                    },
                    bonk_mint: Mint { supply: (ctx.bonk_mint.supply + cashback) as u64 },
                    ..ctx
                },
                Ok(
                    PaymentProcessed {
                        user: ctx.user,
                        subscription_id,
                        amount,
                        cashback_amount: cashback,
                    },
                ),
            )
        },
    }
}

/// What a redemption does.  The first failure wins: `AlreadyExists` when
/// a redemption with this identity (user, `now`) is already stored, and
/// `InsufficientBalance` when the cashback account holds less than
/// `amount`.  Otherwise it stores the redemption record, burns `amount`
/// out of the account and the supply, and emits the redemption event.
/// The historical mint total is deliberately untouched.
pub open spec fn redeem_outcome(l: LedgerView, ctx: RedeemCashback, amount: u64, now: i64) -> (
    LedgerView,
    RedeemCashback,
    Result<CashbackRedeemed, SleekError>,
) {
    if has_redemption(l.redemptions, ctx.user, now) {
        (l, ctx, Err(SleekError::AlreadyExists))
    } else if ctx.user_bonk_account.amount < amount {
        (l, ctx, Err(SleekError::InsufficientBalance))
    } else {
        (
            LedgerView {
                redemptions: l.redemptions.push(
                    CashbackRedemption { user: ctx.user, amount, timestamp: now },
                ),
                ..l
            },
            RedeemCashback {
                user_bonk_account: TokenAccount {
                    amount: (ctx.user_bonk_account.amount - amount) as u64,
                },
                bonk_mint: Mint { supply: (ctx.bonk_mint.supply - amount) as u64 },
                ..ctx
            },
            Ok(CashbackRedeemed { user: ctx.user, amount }),
        )
    }
}

/// The cancelled copy of a subscription: only the status and the
/// cancellation date change.
pub open spec fn cancelled_subscription(s: Subscription, now: i64) -> Subscription {
    Subscription { status: SubscriptionStatus::Cancelled, cancellation_date: Some(now), ..s }
}

/// What a cancellation does.  The first failure wins: `NotFound` when the
/// address is not a stored subscription's; `Unauthorized` when the caller
/// is not the subscription's user; `SubscriptionNotActive` when it is not
/// active.  Otherwise the one subscription at that address becomes
/// cancelled as of `now` and the cancellation event is emitted.  No
/// balance or counter changes.
pub open spec fn cancel_outcome(l: LedgerView, ctx: CancelSubscription, now: i64) -> (
    LedgerView,
    Result<SubscriptionCancelled, SleekError>,
) {
    match ctx.subscription {
        Address::Subscription { user: su, subscription_id: sid } => {
            if !has_subscription(l.subscriptions, su, sid) {
                (l, Err(SleekError::NotFound))
            } else {
                let i = subscription_index_of(l.subscriptions, su, sid);
                let sub = l.subscriptions[i];
                if ctx.user != sub.user {
                    (l, Err(SleekError::Unauthorized))
                } else if !(sub.status is Active) {
                    (l, Err(SleekError::SubscriptionNotActive))
                } else {
                    (
                        LedgerView {
                            subscriptions: l.subscriptions.update(
                                i,
                                cancelled_subscription(sub, now),
                            ),
                            ..l
                        },
                        Ok(
                            SubscriptionCancelled {
                                user: sub.user,
                                subscription_id: sub.subscription_id,
                            },
                        ),
                    )
                }
            }
        },
        _ => (l, Err(SleekError::NotFound)),
    }
}

/// Initialization preserves well-formedness.
pub proof fn lemma_initialize_preserves_wf(l: LedgerView, ctx: Initialize)
    requires
        l.wf(),
    ensures
        initialize_outcome(l, ctx).0.wf(),
{
}

/// A payment's outcome preserves well-formedness.
pub proof fn lemma_process_payment_preserves_wf(
    l: LedgerView,
    ctx: ProcessPayment,
    subscription_id: u64,
    amount: u64,
    sol_amount: u64,
    now: i64,
)
    requires
        l.wf(),
        amount > 0,
        sol_amount > 0,
        0 <= now,
        now + SUBSCRIPTION_DURATION_SECS <= i64::MAX,
    ensures
        process_payment_outcome(l, ctx, subscription_id, amount, sol_amount, now).0.wf(),
{
    let l2 = process_payment_outcome(l, ctx, subscription_id, amount, sol_amount, now).0;
    match l.state {
        None => {},
        Some(s) => {
            if !has_subscription(l.subscriptions, ctx.user, subscription_id)
                && ctx.user_token_account.amount >= sol_amount && !process_payment_overflows(
                s,
                ctx,
                amount,
                sol_amount,
            ) {
                let pay = new_payment(ctx.user, subscription_id, amount, sol_amount, now);
                let sub = new_subscription(ctx.user, subscription_id, amount, now);
                lemma_sum_cashback_push(l.payments, pay);
                assert forall|i: int| 0 <= i < l2.payments.len() implies l2.payments[i].status
                    is Completed && l2.payments[i].amount > 0 && l2.payments[i].sol_amount > 0 by {
                    if i < l.payments.len() {
                        assert(l2.payments[i] == l.payments[i]);
                    } else {
                        assert(l2.payments[i] == pay);
                    }
                }
                assert forall|i: int| 0 <= i < l2.subscriptions.len() implies subscription_shape(
                    l2.subscriptions[i],
                ) by {
                    if i < l.subscriptions.len() {
                        assert(l2.subscriptions[i] == l.subscriptions[i]);
                    } else {
                        assert(l2.subscriptions[i] == sub);
                    }
                }
                assert forall|i: int, j: int| 0 <= i < j < l2.subscriptions.len() implies !(
                l2.subscriptions[i].user == l2.subscriptions[j].user
                    && l2.subscriptions[i].subscription_id
                    == l2.subscriptions[j].subscription_id) by {
                    if j < l.subscriptions.len() {
                        assert(l2.subscriptions[i] == l.subscriptions[i]);
                        assert(l2.subscriptions[j] == l.subscriptions[j]);
                    } else {
                        assert(l2.subscriptions[j] == sub);
                        assert(l2.subscriptions[i] == l.subscriptions[i]);
                        assert(!(l.subscriptions[i].user == ctx.user
                            && l.subscriptions[i].subscription_id == subscription_id));
                    }
                }
            }
        },
    }
}

/// A redemption's outcome preserves well-formedness.
pub proof fn lemma_redeem_preserves_wf(l: LedgerView, ctx: RedeemCashback, amount: u64, now: i64)
    requires
        l.wf(),
        amount > 0,
    ensures
        redeem_outcome(l, ctx, amount, now).0.wf(),
{
    let l2 = redeem_outcome(l, ctx, amount, now).0;
    if !has_redemption(l.redemptions, ctx.user, now) && ctx.user_bonk_account.amount >= amount {
        let rec = CashbackRedemption { user: ctx.user, amount, timestamp: now };
        assert forall|i: int| 0 <= i < l2.redemptions.len() implies l2.redemptions[i].amount
            > 0 by {
            if i < l.redemptions.len() {
                assert(l2.redemptions[i] == l.redemptions[i]);
            } else {
                assert(l2.redemptions[i] == rec);
            }
        }
        assert forall|i: int, j: int| 0 <= i < j < l2.redemptions.len() implies !(
        l2.redemptions[i].user == l2.redemptions[j].user && l2.redemptions[i].timestamp
            == l2.redemptions[j].timestamp) by {
            if j < l.redemptions.len() {
                assert(l2.redemptions[i] == l.redemptions[i]);
                assert(l2.redemptions[j] == l.redemptions[j]);
            } else {
                assert(l2.redemptions[j] == rec);
                assert(l2.redemptions[i] == l.redemptions[i]);
                assert(!(l.redemptions[i].user == ctx.user && l.redemptions[i].timestamp == now));
            }
        }
    }
}

/// A cancellation's outcome preserves well-formedness.
pub proof fn lemma_cancel_preserves_wf(l: LedgerView, ctx: CancelSubscription, now: i64)
    requires
        l.wf(),
    ensures
        cancel_outcome(l, ctx, now).0.wf(),
{
    let l2 = cancel_outcome(l, ctx, now).0;
    match ctx.subscription {
        Address::Subscription { user: su, subscription_id: sid } => {
            if has_subscription(l.subscriptions, su, sid) {
                let i = subscription_index_of(l.subscriptions, su, sid);
                let sub = l.subscriptions[i];
                if ctx.user == sub.user && sub.status is Active {
                    assert forall|k: int| 0 <= k < l2.subscriptions.len() implies subscription_shape(
                        l2.subscriptions[k],
                    ) by {
                        if k != i {
                            assert(l2.subscriptions[k] == l.subscriptions[k]);
                        } else {
                            assert(l2.subscriptions[k] == cancelled_subscription(sub, now));
                        }
                    }
                    assert forall|k: int, j: int| 0 <= k < j < l2.subscriptions.len() implies !(
                    l2.subscriptions[k].user == l2.subscriptions[j].user
                        && l2.subscriptions[k].subscription_id
                        == l2.subscriptions[j].subscription_id) by {
                        assert(l2.subscriptions[k].user == l.subscriptions[k].user
                            && l2.subscriptions[k].subscription_id
                            == l.subscriptions[k].subscription_id);
                        assert(l2.subscriptions[j].user == l.subscriptions[j].user
                            && l2.subscriptions[j].subscription_id
                            == l.subscriptions[j].subscription_id);
                    }
                }
            }
        },
        _ => {},
    }
}

/// Creates the ledger singleton with the caller as authority and every
/// counter at zero; fails with `AlreadyInitialized` when the singleton
/// exists.  Not idempotent, and atomic: a failure changes nothing.
pub fn initialize(ledger: &mut Ledger, ctx: Initialize) -> (r: Result<(), SleekError>)
    requires
        old(ledger).wf(),
    ensures
        final(ledger).wf(),
        final(ledger)@ == initialize_outcome(old(ledger)@, ctx).0,
        r == initialize_outcome(old(ledger)@, ctx).1,
{
    if ledger.state.is_some() {
        return Err(SleekError::AlreadyInitialized);
    }
    ledger.state = Some(
        SleekState {
            authority: ctx.authority,
            total_subscriptions: 0,
            total_payments: 0,
            total_cashback_minted: 0,
        },
    );
    proof {
        lemma_initialize_preserves_wf(old(ledger)@, ctx);
        assert(ledger@ =~= initialize_outcome(old(ledger)@, ctx).0);
    }
    Ok(())
}

/// Processes a subscription payment: stores the completed payment record
/// and the active subscription record, transfers `sol_amount` from the
/// user to the authority, mints the cashback (10% of `amount`, rounded
/// down) to the user, and steps the global counters — all atomically, in
/// exactly the way `process_payment_outcome` states.
pub fn process_subscription_payment(
    ledger: &mut Ledger,
    ctx: &mut ProcessPayment,
    subscription_id: u64,
    amount: u64,
    sol_amount: u64,
    now: i64,
) -> (r: Result<PaymentProcessed, SleekError>)
    requires
        old(ledger).wf(),
        amount > 0,
        sol_amount > 0,
        0 <= now,
        now + SUBSCRIPTION_DURATION_SECS <= i64::MAX,
    ensures
        final(ledger).wf(),
        final(ledger)@ == process_payment_outcome(
            old(ledger)@,
            *old(ctx),
            subscription_id,
            amount,
            sol_amount,
            now,
        ).0,
        *final(ctx) == process_payment_outcome(
            old(ledger)@,
            *old(ctx),
            subscription_id,
            amount,
            sol_amount,
            now,
        ).1,
        r == process_payment_outcome(
            old(ledger)@,
            *old(ctx),
            subscription_id,
            amount,
            sol_amount,
            now,
        ).2,
{
    let s = match &ledger.state {
        None => { return Err(SleekError::NotFound) },
        Some(s) => *s,
    };
    match ledger.find_subscription(ctx.user, subscription_id) {
        Some(_) => { return Err(SleekError::AlreadyExists) },
        None => {},
    }
    if ctx.user_token_account.amount < sol_amount {
        return Err(SleekError::InsufficientFunds);
    }
    let cashback_amount = match compute_cashback(amount) {
        Ok(c) => c,
        Err(e) => { return Err(e) },
    };
    if sol_amount > u64::MAX - ctx.authority_token_account.amount {
        return Err(SleekError::Overflow);
    }
    if cashback_amount > u64::MAX - ctx.user_bonk_account.amount {
        return Err(SleekError::Overflow);
    }
    if cashback_amount > u64::MAX - ctx.bonk_mint.supply {
        return Err(SleekError::Overflow);
    }
    if s.total_payments == u64::MAX {
        return Err(SleekError::Overflow);
    }
    if cashback_amount > u64::MAX - s.total_cashback_minted {
        return Err(SleekError::Overflow);
    }
    if s.total_subscriptions == u64::MAX {
        return Err(SleekError::Overflow);
    }
    match transfer(&mut ctx.user_token_account, &mut ctx.authority_token_account, sol_amount) {
        Ok(_) => {},
        Err(e) => { return Err(e) },
    }
    match mint_to(&mut ctx.bonk_mint, &mut ctx.user_bonk_account, cashback_amount) {
        Ok(_) => {},
        Err(e) => { return Err(e) },
    }
    let pay = Payment {
        user: ctx.user,
        subscription_id,
        amount,
        sol_amount,
        status: PaymentStatus::Completed,
        timestamp: now,
    };
    let sub = Subscription {
        user: ctx.user,
        subscription_id,
        amount,
        status: SubscriptionStatus::Active,
        activation_date: now,
        expiration_date: now + SUBSCRIPTION_DURATION_SECS,
        cancellation_date: None,
    };
    ledger.payments.push(pay);
    ledger.subscriptions.push(sub);
    ledger.state = Some(
        SleekState {
            authority: s.authority,
            total_subscriptions: s.total_subscriptions + 1,
            total_payments: s.total_payments + 1,
            total_cashback_minted: s.total_cashback_minted + cashback_amount,
        },
    );
    let event = PaymentProcessed { user: ctx.user, subscription_id, amount, cashback_amount };
    proof {
        lemma_process_payment_preserves_wf(
            old(ledger)@,
            *old(ctx),
            subscription_id,
            amount,
            sol_amount,
            now,
        );
        assert(ledger@ =~= process_payment_outcome(
            old(ledger)@,
            *old(ctx),
            subscription_id,
            amount,
            sol_amount,
            now,
        ).0);
    }
    Ok(event)
}

/// Redeems `amount` of the user's cashback: stores the redemption record
/// and burns the amount out of the user's cashback account and the mint's
/// supply, atomically, in exactly the way `redeem_outcome` states.  The
/// historical `total_cashback_minted` counter is not adjusted.
pub fn redeem_cashback(ledger: &mut Ledger, ctx: &mut RedeemCashback, amount: u64, now: i64) -> (r:
    Result<CashbackRedeemed, SleekError>)
    requires
        old(ledger).wf(),
        amount > 0,
        old(ctx).user_bonk_account.amount <= old(ctx).bonk_mint.supply,
    ensures
        final(ledger).wf(),
        final(ledger)@ == redeem_outcome(old(ledger)@, *old(ctx), amount, now).0,
        *final(ctx) == redeem_outcome(old(ledger)@, *old(ctx), amount, now).1,
        r == redeem_outcome(old(ledger)@, *old(ctx), amount, now).2,
{
    if ledger.redemption_exists(ctx.user, now) {
        return Err(SleekError::AlreadyExists);
    }
    match burn(&mut ctx.bonk_mint, &mut ctx.user_bonk_account, amount) {
        Ok(_) => {},
        Err(e) => { return Err(e) },
    }
    ledger.redemptions.push(CashbackRedemption { user: ctx.user, amount, timestamp: now });
    proof {
        lemma_redeem_preserves_wf(old(ledger)@, *old(ctx), amount, now);
        assert(ledger@ =~= redeem_outcome(old(ledger)@, *old(ctx), amount, now).0);
    }
    Ok(CashbackRedeemed { user: ctx.user, amount })
}

/// Cancels the subscription at the given address: only its owning user
/// may cancel, only from `Active`, and the record then carries status
/// `Cancelled` and the cancellation date — exactly as `cancel_outcome`
/// states.  No balance or counter changes, and no way back to `Active`.
pub fn cancel_subscription(ledger: &mut Ledger, ctx: CancelSubscription, now: i64) -> (r: Result<
    SubscriptionCancelled,
    SleekError,
>)
    requires
        old(ledger).wf(),
    ensures
        final(ledger).wf(),
        final(ledger)@ == cancel_outcome(old(ledger)@, ctx, now).0,
        r == cancel_outcome(old(ledger)@, ctx, now).1,
{
    let (su, sid) = match ctx.subscription {
        Address::Subscription { user, subscription_id } => (user, subscription_id),
        _ => { return Err(SleekError::NotFound) },
    };
    let i = match ledger.find_subscription(su, sid) {
        Some(i) => i,
        None => { return Err(SleekError::NotFound) },
    };
    proof {
        let j = subscription_index_of(ledger@.subscriptions, su, sid);
        lemma_subscription_index_unique(ledger@.subscriptions, su, sid, i as int, j);
    }
    let sub = ledger.subscriptions[i];
    if ctx.user != sub.user {
        return Err(SleekError::Unauthorized);
    }
    let active = match sub.status {
        SubscriptionStatus::Active => true,
        _ => false,
    };
    if !active {
        return Err(SleekError::SubscriptionNotActive);
    }
    let slot = &mut ledger.subscriptions[i];
    slot.status = SubscriptionStatus::Cancelled;
    slot.cancellation_date = Some(now);
    proof {
        lemma_cancel_preserves_wf(old(ledger)@, ctx, now);
        assert(ledger@ =~= cancel_outcome(old(ledger)@, ctx, now).0);
    }
    Ok(SubscriptionCancelled { user: su, subscription_id: sid })
}

/// Reads the current cashback balance of the given account.  Read-only.
pub fn get_cashback_balance(ctx: &GetCashbackBalance) -> (r: Result<u64, SleekError>)
    ensures
        r == Ok::<u64, SleekError>(ctx.user_bonk_account.amount),
{
    Ok(ctx.user_bonk_account.amount)
}

/// The read-time status of a subscription at time `now`: an active
/// subscription whose expiration date has passed reads as `Expired`; no
/// stored status is changed by the passage of time.
pub open spec fn spec_effective_status(s: Subscription, now: i64) -> SubscriptionStatus {
    if s.status is Active && now >= s.expiration_date {
        SubscriptionStatus::Expired
    } else {
        s.status
    }
}

/// See `spec_effective_status`.
pub fn effective_status(s: &Subscription, now: i64) -> (r: SubscriptionStatus)
    ensures
        r == spec_effective_status(*s, now),
{
    let active = match s.status {
        SubscriptionStatus::Active => true,
        _ => false,
    };
    if active && now >= s.expiration_date {
        SubscriptionStatus::Expired
    } else {
        s.status
    }
}

} // verus!
