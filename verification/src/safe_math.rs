//! Overflow- and underflow-checked arithmetic on signed 128-bit integers.
//! Every balance mutation in the crate routes through these operations; no
//! raw arithmetic on balances is permitted anywhere else.

use vstd::prelude::*;

use crate::types::Error;

verus! {

/// Whether `a + b` fits in an i128.
pub open spec fn add_in_range(a: i128, b: i128) -> bool {
    i128::MIN <= a + b <= i128::MAX
}

/// Whether `a - b` fits in an i128.
pub open spec fn sub_in_range(a: i128, b: i128) -> bool {
    i128::MIN <= a - b <= i128::MAX
}

/// Checked addition: `Ok(a + b)`, or `Overflow` when the sum leaves the
/// i128 range.
pub fn safe_add(a: i128, b: i128) -> (r: Result<i128, Error>)
    ensures
        add_in_range(a, b) ==> r == Ok::<i128, Error>((a + b) as i128),
        !add_in_range(a, b) ==> r == Err::<i128, Error>(Error::Overflow),
{
    match a.checked_add(b) {
        Some(v) => Ok(v),
        None => Err(Error::Overflow),
    }
}

/// Checked subtraction: `Ok(a - b)`, or `Underflow` when the difference
/// leaves the i128 range. Negative results are permitted.
pub fn safe_sub(a: i128, b: i128) -> (r: Result<i128, Error>)
    ensures
        sub_in_range(a, b) ==> r == Ok::<i128, Error>((a - b) as i128),
        !sub_in_range(a, b) ==> r == Err::<i128, Error>(Error::Underflow),
{
    match a.checked_sub(b) {
        Some(v) => Ok(v),
        None => Err(Error::Underflow),
    }
}

/// Balance-semantics addition: rejects a negative `amount` with `Underflow`,
/// fails `Overflow` when the credited balance would exceed `i128::MAX`, and
/// otherwise returns the credited balance.
pub fn safe_add_balance(balance: i128, amount: i128) -> (r: Result<i128, Error>)
    ensures
        amount < 0 ==> r == Err::<i128, Error>(Error::Underflow),
        amount >= 0 && balance + amount > i128::MAX ==> r == Err::<i128, Error>(Error::Overflow),
        amount >= 0 && balance + amount <= i128::MAX ==> r == Ok::<i128, Error>(
            (balance + amount) as i128,
        ),
{
    if amount < 0 {
        return Err(Error::Underflow);
    }
    match balance.checked_add(amount) {
        Some(v) => Ok(v),
        None => Err(Error::Overflow),
    }
}

/// Balance-semantics subtraction: rejects a negative `amount` with
/// `Underflow`, rejects debits that would drive the balance below zero with
/// `Underflow`, and otherwise returns the debited balance.
pub fn safe_sub_balance(balance: i128, amount: i128) -> (r: Result<i128, Error>)
    ensures
        amount < 0 ==> r == Err::<i128, Error>(Error::Underflow),
        amount >= 0 && balance - amount < 0 ==> r == Err::<i128, Error>(Error::Underflow),
        amount >= 0 && balance - amount >= 0 ==> r == Ok::<i128, Error>((balance - amount) as i128),
{
    if amount < 0 {
        return Err(Error::Underflow);
    }
    if balance < amount {
        return Err(Error::Underflow);
    }
    Ok(balance - amount)
}

/// Fails `Underflow` if `x` is negative.
pub fn validate_non_negative(x: i128) -> (r: Result<(), Error>)
    ensures
        x >= 0 ==> r == Ok::<(), Error>(()),
        x < 0 ==> r == Err::<(), Error>(Error::Underflow),
{
    if x < 0 {
        Err(Error::Underflow)
    } else {
        Ok(())
    }
}

} // verus!
