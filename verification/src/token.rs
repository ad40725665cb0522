//! The value-transfer model: fungible token accounts and the three
//! balance-moving primitives (transfer, mint, burn) the operations rely on.
//!
//! Balances live in the accounts the caller hands to each operation; the
//! primitives here are total functions on those balances, so every caller
//! sees exactly which shortfalls and overflows make a movement fail and
//! that a failed movement changes nothing.

use crate::records::SleekError;
use vstd::prelude::*;

verus! {

/// A fungible token account: the balance it currently holds.
#[derive(Clone, Copy, Debug, PartialEq, Eq, Structural)]
pub struct TokenAccount {
    pub amount: u64,
}

/// A token mint: the total supply currently issued for one asset.
#[derive(Clone, Copy, Debug, PartialEq, Eq, Structural)]
pub struct Mint {
    pub supply: u64,
}

/// Moves `amount` from one account to another.  Fails with
/// `InsufficientFunds` when the source holds less than `amount`, and with
/// `Overflow` when the destination cannot hold the sum; a failure moves
/// nothing.
pub fn transfer(from: &mut TokenAccount, to: &mut TokenAccount, amount: u64) -> (r: Result<
    (),
    SleekError,
>)
    ensures
        old(from).amount < amount ==> r == Err::<(), SleekError>(SleekError::InsufficientFunds),
        old(from).amount >= amount && old(to).amount + amount > u64::MAX ==> r == Err::<
            (),
            SleekError,
        >(SleekError::Overflow),
        old(from).amount >= amount && old(to).amount + amount <= u64::MAX ==> r == Ok::<
            (),
            SleekError,
        >(()) && final(from).amount == old(from).amount - amount && final(to).amount == old(
            to,
        ).amount + amount,
        r is Err ==> *final(from) == *old(from) && *final(to) == *old(to),
{
    if from.amount < amount {
        Err(SleekError::InsufficientFunds)
    } else if amount > u64::MAX - to.amount {
        Err(SleekError::Overflow)
    } else {
        from.amount = from.amount - amount;
        to.amount = to.amount + amount;
        Ok(())
    }
}

/// Mints `amount` of the asset into `to`, growing the supply.  Fails with
/// `Overflow` when either the supply or the destination balance cannot
/// hold the sum; a failure mints nothing.
pub fn mint_to(mint: &mut Mint, to: &mut TokenAccount, amount: u64) -> (r: Result<(), SleekError>)
    ensures
        old(mint).supply + amount > u64::MAX || old(to).amount + amount > u64::MAX ==> r == Err::<
            (),
            SleekError,
        >(SleekError::Overflow) && *final(mint) == *old(mint) && *final(to) == *old(to),
        old(mint).supply + amount <= u64::MAX && old(to).amount + amount <= u64::MAX ==> r == Ok::<
            (),
            SleekError,
        >(()) && final(mint).supply == old(mint).supply + amount && final(to).amount == old(
            to,
        ).amount + amount,
{
    if amount > u64::MAX - mint.supply {
        Err(SleekError::Overflow)
    } else if amount > u64::MAX - to.amount {
        Err(SleekError::Overflow)
    } else {
        mint.supply = mint.supply + amount;
        to.amount = to.amount + amount;
        Ok(())
    }
}

/// Burns `amount` of the asset out of `from`, shrinking the supply.
/// Fails with `InsufficientBalance` when the account holds less than
/// `amount`; a failure burns nothing.  The supply covers every single
/// balance, which the caller states with `from.amount <= mint.supply`.
pub fn burn(mint: &mut Mint, from: &mut TokenAccount, amount: u64) -> (r: Result<(), SleekError>)
    requires
        old(from).amount <= old(mint).supply,
    ensures
        old(from).amount < amount ==> r == Err::<(), SleekError>(SleekError::InsufficientBalance)
            && *final(mint) == *old(mint) && *final(from) == *old(from),
        old(from).amount >= amount ==> r == Ok::<(), SleekError>(()) && final(mint).supply == old(
            mint,
        ).supply - amount && final(from).amount == old(from).amount - amount,
{
    if from.amount < amount {
        Err(SleekError::InsufficientBalance)
    } else {
        mint.supply = mint.supply - amount;
        from.amount = from.amount - amount;
        Ok(())
    }
}

} // verus!
