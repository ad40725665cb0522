//! The ledger aggregate: the singleton state and the three record stores,
//! with the well-formedness invariant every operation preserves.
//!
//! Records are stored with their identifying fields inline, so a record's
//! derived address (see `identity`) is always recomputable from the record
//! itself, and a lookup is a search for the record carrying the looked-up
//! key.

use crate::records::CashbackRedemption;
use crate::records::Payment;
use crate::records::SleekState;
use crate::records::Subscription;
use crate::records::cashback_of;
use crate::records::SUBSCRIPTION_DURATION_SECS;
use vstd::prelude::*;

verus! {

/// The mathematical model of a ledger: the singleton state (absent until
/// initialization) and the sequences of stored records.
#[verifier::ext_equal]
pub ghost struct LedgerView {
    pub state: Option<SleekState>,
    pub payments: Seq<Payment>,
    pub subscriptions: Seq<Subscription>,
    pub redemptions: Seq<CashbackRedemption>,
}

/// The ledger aggregate an operation mutates.
pub struct Ledger {
    pub state: Option<SleekState>,
    pub payments: Vec<Payment>,
    pub subscriptions: Vec<Subscription>,
    pub redemptions: Vec<CashbackRedemption>,
}

impl View for Ledger {
    type V = LedgerView;

    open spec fn view(&self) -> LedgerView {
        LedgerView {
            state: self.state,
            payments: self.payments@,
            subscriptions: self.subscriptions@,
            redemptions: self.redemptions@,
        }
    }
}

/// The sum of the cashback credited for every stored payment.
pub open spec fn sum_cashback(ps: Seq<Payment>) -> int
    decreases ps.len(),
{
    if ps.len() == 0 {
        0
    } else {
        sum_cashback(ps.drop_last()) + cashback_of(ps.last().amount)
    }
}

/// Appending a payment grows the cashback sum by that payment's cashback.
pub proof fn lemma_sum_cashback_push(ps: Seq<Payment>, p: Payment)
    ensures
        sum_cashback(ps.push(p)) == sum_cashback(ps) + cashback_of(p.amount),
{
    assert(ps.push(p).drop_last() =~= ps);
    assert(ps.push(p).last() == p);
}

/// Every stored payment was finalized at creation: completed, with a
/// positive fee and a positive transferred amount.
pub open spec fn payments_wf(ps: Seq<Payment>) -> bool {
    forall|i: int|
        0 <= i < ps.len() ==> ps[i].status is Completed && ps[i].amount > 0 && ps[i].sol_amount > 0
}

/// Shape of a single stored subscription: the expiration date is exactly
/// the activation date plus the fixed period, the fee is positive, no
/// operation ever stores `Expired`, and the cancellation date is present
/// exactly on cancelled subscriptions.
pub open spec fn subscription_shape(s: Subscription) -> bool {
    &&& s.expiration_date == s.activation_date + SUBSCRIPTION_DURATION_SECS
    &&& s.amount > 0
    &&& s.status !is Expired
    &&& (s.status is Cancelled <==> s.cancellation_date is Some)
}

/// There is a stored subscription with the given logical key.
pub open spec fn has_subscription(subs: Seq<Subscription>, user: u64, subscription_id: u64) -> bool {
    exists|i: int|
        0 <= i < subs.len() && subs[i].user == user && subs[i].subscription_id == subscription_id
}

/// The index of the stored subscription with the given logical key
/// (meaningful under `has_subscription`; under `subscriptions_unique`
/// there is exactly one).
pub open spec fn subscription_index_of(subs: Seq<Subscription>, user: u64, subscription_id: u64) -> int {
    choose|i: int|
        0 <= i < subs.len() && subs[i].user == user && subs[i].subscription_id == subscription_id
}

/// The stored subscription with the given logical key (meaningful under
/// `has_subscription`).
pub open spec fn subscription_at(subs: Seq<Subscription>, user: u64, subscription_id: u64) -> Subscription {
    subs[subscription_index_of(subs, user, subscription_id)]
}

/// No two stored subscriptions share a logical key (so a derived
/// subscription address refers to at most one record).
pub open spec fn subscriptions_unique(subs: Seq<Subscription>) -> bool {
    forall|i: int, j: int|
        0 <= i < j < subs.len() ==> !(subs[i].user == subs[j].user && subs[i].subscription_id
            == subs[j].subscription_id)
}

/// Every stored subscription is well shaped and no key repeats.
pub open spec fn subscriptions_wf(subs: Seq<Subscription>) -> bool {
    &&& subscriptions_unique(subs)
    &&& forall|i: int| 0 <= i < subs.len() ==> subscription_shape(subs[i])
}

/// There is a stored redemption with the given logical key.
pub open spec fn has_redemption(rs: Seq<CashbackRedemption>, user: u64, timestamp: i64) -> bool {
    exists|i: int| 0 <= i < rs.len() && rs[i].user == user && rs[i].timestamp == timestamp
}

/// Redeemed amounts are positive and no two stored redemptions share a
/// logical key.
pub open spec fn redemptions_wf(rs: Seq<CashbackRedemption>) -> bool {
    &&& forall|i: int| 0 <= i < rs.len() ==> rs[i].amount > 0
    &&& forall|i: int, j: int|
        0 <= i < j < rs.len() ==> !(rs[i].user == rs[j].user && rs[i].timestamp == rs[j].timestamp)
}

impl LedgerView {
    /// Well-formedness of the whole ledger.  Before initialization no
    /// payment or subscription can exist; afterwards the global counters
    /// track the stored history exactly: `total_payments` and
    /// `total_subscriptions` count the records, and
    /// `total_cashback_minted` is the sum of all cashback ever credited
    /// (never decremented, even by redemption).
    pub open spec fn wf(self) -> bool {
        &&& match self.state {
            None => self.payments.len() == 0 && self.subscriptions.len() == 0,
            Some(s) => {
                &&& s.total_payments == self.payments.len()
                &&& s.total_subscriptions == self.subscriptions.len()
                &&& s.total_cashback_minted == sum_cashback(self.payments)
            },
        }
        &&& payments_wf(self.payments)
        &&& subscriptions_wf(self.subscriptions)
        &&& redemptions_wf(self.redemptions)
    }
}

impl Ledger {
    /// Well-formedness, stated of the ledger's model.
    pub open spec fn wf(&self) -> bool {
        self@.wf()
    }

    /// An empty ledger: no singleton state, no records.
    pub fn new() -> (l: Ledger)
        ensures
            l@ == (LedgerView {
                state: None,
                payments: Seq::empty(),
                subscriptions: Seq::empty(),
                redemptions: Seq::empty(),
            }),
            l.wf(),
    {
        let l = Ledger {
            state: None,
            payments: Vec::new(),
            subscriptions: Vec::new(),
            redemptions: Vec::new(),
        };
        proof {
            assert(l@ =~= (LedgerView {
                state: None,
                payments: Seq::empty(),
                subscriptions: Seq::empty(),
                redemptions: Seq::empty(),
            }));
        }
        l
    }

    /// Finds the index of the subscription with the given logical key.
    pub fn find_subscription(&self, user: u64, subscription_id: u64) -> (r: Option<usize>)
        ensures
            match r {
                Some(i) => i < self.subscriptions.len() && self.subscriptions@[i as int].user
                    == user && self.subscriptions@[i as int].subscription_id == subscription_id,
                None => !has_subscription(self@.subscriptions, user, subscription_id),
            },
    {
        let n = self.subscriptions.len();
        let mut i: usize = 0;
        while i < n
            invariant
                n == self.subscriptions.len(),
                i <= n,
                forall|k: int|
                    0 <= k < i ==> !(self.subscriptions@[k].user == user
                        && self.subscriptions@[k].subscription_id == subscription_id),
            decreases n - i,
        {
            let s = &self.subscriptions[i];
            if s.user == user && s.subscription_id == subscription_id {
                return Some(i);
            }
            i = i + 1;
        }
        None
    }

    /// Whether a redemption with the given logical key is stored.
    pub fn redemption_exists(&self, user: u64, timestamp: i64) -> (r: bool)
        ensures
            r == has_redemption(self@.redemptions, user, timestamp),
    {
        let n = self.redemptions.len();
        let mut i: usize = 0;
        while i < n
            invariant
                n == self.redemptions.len(),
                i <= n,
                forall|k: int|
                    0 <= k < i ==> !(self.redemptions@[k].user == user && self.redemptions@[k].timestamp
                        == timestamp),
            decreases n - i,
        {
            let rec = &self.redemptions[i];
            if rec.user == user && rec.timestamp == timestamp {
                return true;
            }
            i = i + 1;
        }
        false
    }
}

/// Two stored subscriptions matching one key are the same record.
pub proof fn lemma_subscription_index_unique(
    subs: Seq<Subscription>,
    user: u64,
    subscription_id: u64,
    i: int,
    j: int,
)
    requires
        subscriptions_unique(subs),
        0 <= i < subs.len(),
        0 <= j < subs.len(),
        subs[i].user == user && subs[i].subscription_id == subscription_id,
        subs[j].user == user && subs[j].subscription_id == subscription_id,
    ensures
        i == j,
{
}

} // verus!
