//! Identity derivation: the deterministic mapping from a record's logical
//! key (its kind and identifying fields) to its storage address.
//!
//! Derivation is a pure function, so a caller can always recompute a
//! record's address from its logical key, and no secondary index is ever
//! needed.  Addresses are collision-free by construction: two keys map to
//! the same address exactly when they agree on the kind and on every
//! identifying field (`lemma_address_collision_free`).

use vstd::prelude::*;

verus! {

/// The storage address of a record, derived from its logical key.
#[derive(Clone, Copy, Debug, PartialEq, Eq, Structural)]
pub enum Address {
    /// The ledger singleton.
    LedgerState,
    /// A payment, keyed by the paying user and the ledger's payment
    /// sequence number at creation time.
    Payment { user: u64, sequence: u64 },
    /// A subscription, keyed by its owning user and the caller-chosen
    /// subscription id.
    Subscription { user: u64, subscription_id: u64 },
    /// A cashback redemption, keyed by the redeeming user and the
    /// timestamp of the redemption.
    Redemption { user: u64, timestamp: i64 },
}

/// Derives the address of the ledger singleton.
pub fn derive_state_address() -> (r: Address)
    ensures
        r == Address::LedgerState,
{
    Address::LedgerState
}

/// Derives the address of the payment record with the given logical key.
pub fn derive_payment_address(user: u64, sequence: u64) -> (r: Address)
    ensures
        r == (Address::Payment { user, sequence }),
{
    Address::Payment { user, sequence }
}

/// Derives the address of the subscription record with the given logical key.
pub fn derive_subscription_address(user: u64, subscription_id: u64) -> (r: Address)
    ensures
        r == (Address::Subscription { user, subscription_id }),
{
    Address::Subscription { user, subscription_id }
}

/// Derives the address of the redemption record with the given logical key.
pub fn derive_redemption_address(user: u64, timestamp: i64) -> (r: Address)
    ensures
        r == (Address::Redemption { user, timestamp }),
{
    Address::Redemption { user, timestamp }
}

/// Derivation is injective: within one record kind, two logical keys share
/// an address exactly when they are the same key, and addresses of
/// different kinds never coincide.
pub proof fn lemma_address_collision_free(u1: u64, u2: u64, k1: u64, k2: u64, t1: i64, t2: i64)
    ensures
        ((Address::Payment { user: u1, sequence: k1 }) == (Address::Payment {
            user: u2,
            sequence: k2,
        })) <==> (u1 == u2 && k1 == k2),
        ((Address::Subscription { user: u1, subscription_id: k1 }) == (Address::Subscription {
            user: u2,
            subscription_id: k2,
        })) <==> (u1 == u2 && k1 == k2),
        ((Address::Redemption { user: u1, timestamp: t1 }) == (Address::Redemption {
            user: u2,
            timestamp: t2,
        })) <==> (u1 == u2 && t1 == t2),
        (Address::Payment { user: u1, sequence: k1 }) != (Address::Subscription {
            user: u2,
            subscription_id: k2,
        }),
        (Address::Payment { user: u1, sequence: k1 }) != (Address::Redemption {
            user: u2,
            timestamp: t2,
        }),
        (Address::Subscription { user: u1, subscription_id: k1 }) != (Address::Redemption {
            user: u2,
            timestamp: t2,
        }),
        Address::LedgerState != (Address::Payment { user: u1, sequence: k1 }),
        Address::LedgerState != (Address::Subscription { user: u1, subscription_id: k1 }),
        Address::LedgerState != (Address::Redemption { user: u1, timestamp: t1 }),
{
}

} // verus!
