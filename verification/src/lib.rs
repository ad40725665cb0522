//! A subscription-and-loyalty ledger.
//!
//! Users pay for a recurring subscription; the ledger records the payment,
//! issues a proportional cashback credit, and later lets the user redeem
//! (burn) that credit.  The library is the business state machine itself:
//! the record data model, the four mutating operations (initialize, process
//! payment, cancel subscription, redeem cashback), their authorization and
//! arithmetic rules, and the deterministic derivation of record addresses.
//! The surrounding platform (persistent storage, the token runtime, the
//! clock, event delivery) is the caller's concern: operations take the
//! current time and the token accounts as plain values and return the event
//! they emit.

pub mod identity;
pub mod laws;
pub mod ledger;
pub mod ops;
pub mod records;
pub mod token;
