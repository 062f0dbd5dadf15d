use vstd::prelude::*;

use crate::error::ArithmeticError;

verus! {

/// What a debit returns: the exact difference when the balance covers the
/// amount, and `InsufficientFunds` otherwise.
pub open spec fn spec_debit(balance: u64, amount: u64) -> Result<u64, ArithmeticError> {
    if amount <= balance {
        Ok((balance - amount) as u64)
    } else {
        Err(ArithmeticError::InsufficientFunds)
    }
}

/// Debits `amount` from `balance`.
///
/// The subtraction is performed in checked mode: the borrow-out condition
/// `amount > balance` — which a plain wrapping subtraction would turn into
/// `balance - amount + 2^64`, fabricating value — is detected and rejected
/// categorically as `InsufficientFunds`. The function is pure; on failure
/// the caller's stored balance is untouched.
pub fn debit(balance: u64, amount: u64) -> (result: Result<u64, ArithmeticError>)
    ensures
        result == spec_debit(balance, amount),
        amount <= balance ==> result == Ok::<u64, ArithmeticError>((balance - amount) as u64),
        amount > balance ==> result == Err::<u64, ArithmeticError>(
            ArithmeticError::InsufficientFunds,
        ),
        result is Ok ==> result->Ok_0 <= balance,
{
    match balance.checked_sub(amount) {
        Some(new_balance) => Ok(new_balance),
        None => Err(ArithmeticError::InsufficientFunds),
    }
}

/// Debit correctness: whenever the amount is covered, the debit succeeds
/// with exactly `balance - amount`, and that value never exceeds the
/// starting balance.
pub proof fn lemma_debit_exact(balance: u64, amount: u64)
    requires
        amount <= balance,
    ensures
        spec_debit(balance, amount) == Ok::<u64, ArithmeticError>((balance - amount) as u64),
        spec_debit(balance, amount)->Ok_0 <= balance,
{
}

/// Debit rejection: whenever the amount exceeds the balance, the debit
/// fails with `InsufficientFunds` and returns no numeric value at all.
pub proof fn lemma_debit_rejects_overdraw(balance: u64, amount: u64)
    requires
        amount > balance,
    ensures
        spec_debit(balance, amount) == Err::<u64, ArithmeticError>(
            ArithmeticError::InsufficientFunds,
        ),
{
}

/// No-wraparound invariant: for all inputs, a successful debit never
/// returns a value greater than the starting balance — the property a
/// faulty wrapping implementation violates.
pub proof fn lemma_debit_never_inflates(balance: u64, amount: u64)
    ensures
        spec_debit(balance, amount) is Ok ==> spec_debit(balance, amount)->Ok_0 <= balance,
{
}

} // verus!
