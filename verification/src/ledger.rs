use vstd::prelude::*;
use crate::errors::CoreError;

verus! {

// The balance-moving primitives the settlement engine delegates to. In the
// live system these are the runtime's transfer calls; here they are the
// model: a balance is a 64-bit amount, and a move either lands in full or
// fails having changed nothing.

/// Moves `amount` from one balance to another. Fails with
/// `InsufficientFunds` when the source is short, and with
/// `ArithmeticError` when the destination would overflow; on any failure
/// both balances are untouched. The two balances together are conserved in
/// every case.
pub fn transfer(from: &mut u64, to: &mut u64, amount: u64) -> (r: Result<(), CoreError>)
    ensures
        r is Ok <==> amount <= *old(from) && *old(to) + amount <= u64::MAX,
        r is Ok ==> *final(from) == *old(from) - amount && *final(to) == *old(to) + amount,
        r is Err ==> *final(from) == *old(from) && *final(to) == *old(to),
        r == Err::<(), CoreError>(CoreError::InsufficientFunds) <==> *old(from) < amount,
        r == Err::<(), CoreError>(CoreError::ArithmeticError) <==> (amount <= *old(from) && *old(
            to,
        ) + amount > u64::MAX),
        *final(from) + *final(to) == *old(from) + *old(to),
{
    if *from < amount {
        return Err(CoreError::InsufficientFunds);
    }
    match to.checked_add(amount) {
        Some(t) => {
            *from = *from - amount;
            *to = t;
            Ok(())
        }
        None => Err(CoreError::ArithmeticError),
    }
}

/// Credits a balance, failing with `ArithmeticError` instead of wrapping.
pub fn credit(balance: &mut u64, amount: u64) -> (r: Result<(), CoreError>)
    ensures
        r is Ok <==> *old(balance) + amount <= u64::MAX,
        r is Ok ==> *final(balance) == *old(balance) + amount,
        r is Err ==> *final(balance) == *old(balance) && r == Err::<(), CoreError>(
            CoreError::ArithmeticError,
        ),
{
    match balance.checked_add(amount) {
        Some(b) => {
            *balance = b;
            Ok(())
        }
        None => Err(CoreError::ArithmeticError),
    }
}

} // verus!
