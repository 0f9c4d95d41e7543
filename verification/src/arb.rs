use vstd::prelude::*;

verus! {

// The arbitrage check: a balance snapshot taken before a bundle of trades,
// and a profit check after them. The two calls are assumed to sit inside
// one atomic transaction bundle supplied by the environment; that ordering
// is an assumption of the surrounding runtime, not an invariant this
// module could enforce.

/// The arbitrage check's failure taxonomy.
#[derive(Clone, Copy, Debug, PartialEq, Eq, Structural)]
pub enum ErrorCode {
    /// The balance grew by less than the required minimum profit.
    NotProfitable,
    /// The balance ended below the snapshot: computing the profit would
    /// underflow.
    Underflow,
}

/// The snapshot persisted between the two calls.
#[derive(Clone, Copy, Debug, PartialEq, Eq, Structural)]
pub struct ArbState {
    /// The balance recorded before the trades.
    pub initial_balance: u64,
}

/// Records the balance observed before the trades.
pub fn save_balance(state: &mut ArbState, wsol_balance: u64)
    ensures
        final(state).initial_balance == wsol_balance,
{
    state.initial_balance = wsol_balance;
}

/// Checks that the trades were worth it: succeeds with the profit exactly
/// when the current balance covers the snapshot plus `min_profit`. A
/// shrunken balance is `Underflow`; growth short of the minimum is
/// `NotProfitable`. The snapshot is never modified.
pub fn check_profit(state: &ArbState, current_balance: u64, min_profit: u64) -> (r: Result<
    u64,
    ErrorCode,
>)
    ensures
        r is Ok <==> (state.initial_balance <= current_balance && current_balance
            - state.initial_balance >= min_profit),
        r matches Ok(p) ==> p == current_balance - state.initial_balance,
        r == Err::<u64, ErrorCode>(ErrorCode::Underflow) <==> current_balance
            < state.initial_balance,
        r == Err::<u64, ErrorCode>(ErrorCode::NotProfitable) <==> (state.initial_balance
            <= current_balance && current_balance - state.initial_balance < min_profit),
{
    if current_balance < state.initial_balance {
        return Err(ErrorCode::Underflow);
    }
    let profit = current_balance - state.initial_balance;
    if profit < min_profit {
        return Err(ErrorCode::NotProfitable);
    }
    Ok(profit)
}

} // verus!
