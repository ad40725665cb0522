//! The record data model: the ledger singleton, payments, subscriptions,
//! cashback redemptions, the status tags, the events each operation emits,
//! and the error taxonomy.

use vstd::prelude::*;

verus! {

/// Seconds in the fixed 30-day subscription period.
pub const SUBSCRIPTION_DURATION_SECS: i64 = 2592000;

/// Cashback is `CASHBACK_NUMERATOR / CASHBACK_DENOMINATOR` of each
/// payment's subscription fee, rounded down.
pub const CASHBACK_NUMERATOR: u64 = 10;

/// See `CASHBACK_NUMERATOR`.
pub const CASHBACK_DENOMINATOR: u64 = 100;

/// Status of a payment record.  Every payment this ledger stores is
/// finalized at creation, so stored payments are always `Completed`.
#[derive(Clone, Copy, Debug, PartialEq, Eq, Structural)]
pub enum PaymentStatus {
    Pending,
    Completed,
    Failed,
}

/// Status of a subscription record.  The only stored transition is
/// `Active` to `Cancelled`; `Expired` is a read-time view of an `Active`
/// subscription whose expiration date has passed (see
/// `ops::effective_status`).
#[derive(Clone, Copy, Debug, PartialEq, Eq, Structural)]
pub enum SubscriptionStatus {
    Active,
    Expired,
    Cancelled,
}

/// The error taxonomy.  Every operation fails atomically: an error leaves
/// the ledger and every account handed in exactly as they were.
#[derive(Clone, Copy, Debug, PartialEq, Eq, Structural)]
pub enum SleekError {
    /// The ledger singleton already exists.
    AlreadyInitialized,
    /// A record with the same derived identity already exists.
    AlreadyExists,
    /// The paying account holds less than the amount to transfer.
    InsufficientFunds,
    /// The cashback account holds less than the amount to burn.
    InsufficientBalance,
    /// Arithmetic would exceed the unsigned 64-bit domain.
    Overflow,
    /// The caller is not the record's owning user.
    Unauthorized,
    /// The subscription is not in the `Active` state.
    SubscriptionNotActive,
    /// The referenced record does not exist.
    NotFound,
}

/// The ledger singleton: the administrator who initialized it and the
/// monotonically non-decreasing global counters.
#[derive(Clone, Copy, Debug, PartialEq, Eq, Structural)]
pub struct SleekState {
    pub authority: u64,
    pub total_subscriptions: u64,
    pub total_payments: u64,
    pub total_cashback_minted: u64,
}

/// One payment event.  Identity: (`user`, sequence number at creation),
/// where the sequence number is the ledger's `total_payments` at the time.
/// Immutable once stored.
#[derive(Clone, Copy, Debug, PartialEq, Eq, Structural)]
pub struct Payment {
    pub user: u64,
    pub subscription_id: u64,
    pub amount: u64,
    pub sol_amount: u64,
    pub status: PaymentStatus,
    pub timestamp: i64,
}

/// One subscription instance.  Identity: (`user`, `subscription_id`).
#[derive(Clone, Copy, Debug, PartialEq, Eq, Structural)]
pub struct Subscription {
    pub user: u64,
    pub subscription_id: u64,
    pub amount: u64,
    pub status: SubscriptionStatus,
    pub activation_date: i64,
    pub expiration_date: i64,
    pub cancellation_date: Option<i64>,
}

/// One cashback redemption event.  Identity: (`user`, `timestamp`).
/// Immutable once stored.
#[derive(Clone, Copy, Debug, PartialEq, Eq, Structural)]
pub struct CashbackRedemption {
    pub user: u64,
    pub amount: u64,
    pub timestamp: i64,
}

/// Event emitted by a successful payment.
#[derive(Clone, Copy, Debug, PartialEq, Eq, Structural)]
pub struct PaymentProcessed {
    pub user: u64,
    pub subscription_id: u64,
    pub amount: u64,
    pub cashback_amount: u64,
}

/// Event emitted by a successful redemption.
#[derive(Clone, Copy, Debug, PartialEq, Eq, Structural)]
pub struct CashbackRedeemed {
    pub user: u64,
    pub amount: u64,
}

/// Event emitted by a successful cancellation.
#[derive(Clone, Copy, Debug, PartialEq, Eq, Structural)]
pub struct SubscriptionCancelled {
    pub user: u64,
    pub subscription_id: u64,
}

/// The cashback credited for a subscription fee of `amount`:
/// 10% of it, rounded down.
pub open spec fn cashback_of(amount: u64) -> int {
    amount * CASHBACK_NUMERATOR / (CASHBACK_DENOMINATOR as int)
}

/// Computes the cashback for a subscription fee, guarding the intermediate
/// product against overflow of the unsigned 64-bit domain.
pub fn compute_cashback(amount: u64) -> (r: Result<u64, SleekError>)
    ensures
        amount * CASHBACK_NUMERATOR > u64::MAX ==> r == Err::<u64, SleekError>(SleekError::Overflow),
        amount * CASHBACK_NUMERATOR <= u64::MAX ==> r == Ok::<u64, SleekError>(cashback_of(amount) as u64),
        r matches Ok(c) ==> c == cashback_of(amount) && c <= amount,
{
    if amount > u64::MAX / CASHBACK_NUMERATOR {
        assert(amount * CASHBACK_NUMERATOR > u64::MAX) by {
            assert(amount >= u64::MAX / CASHBACK_NUMERATOR + 1);
            assert((u64::MAX / CASHBACK_NUMERATOR + 1) * CASHBACK_NUMERATOR > u64::MAX) by (nonlinear_arith);
            assert(amount * CASHBACK_NUMERATOR >= (u64::MAX / CASHBACK_NUMERATOR + 1) * CASHBACK_NUMERATOR) by (nonlinear_arith)
                requires amount >= u64::MAX / CASHBACK_NUMERATOR + 1;
        };
        Err(SleekError::Overflow)
    } else {
        assert(amount * CASHBACK_NUMERATOR <= (u64::MAX / CASHBACK_NUMERATOR) * CASHBACK_NUMERATOR) by (nonlinear_arith)
            requires amount <= u64::MAX / CASHBACK_NUMERATOR;
        assert((u64::MAX / CASHBACK_NUMERATOR) * CASHBACK_NUMERATOR <= u64::MAX);
        let c = amount * CASHBACK_NUMERATOR / CASHBACK_DENOMINATOR;
        assert(cashback_of(amount) <= amount * CASHBACK_NUMERATOR);
        Ok(c)
    }
}

} // verus!
