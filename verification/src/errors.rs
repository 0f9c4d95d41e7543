use vstd::prelude::*;

verus! {

/// The failure taxonomy of the custody/settlement core. Every error aborts
/// the whole request; the contracts of the operations state, for each kind,
/// exactly the inputs on which it is returned, and that no state changed.
#[derive(Clone, Copy, Debug, PartialEq, Eq, Structural)]
pub enum CoreError {
    /// The stored seed/bump pair no longer reproduces the authority
    /// identifier of the presented custody account.
    AuthorityMismatch,
    /// The record's phase does not permit the requested transition.
    InvalidPhase,
    /// A transfer's source holds less than the amount to move.
    InsufficientFunds,
    /// Fee or balance arithmetic would overflow; money math is never
    /// wrapped or saturated.
    ArithmeticError,
    /// A custody account was asked to close while still holding funds.
    NonZeroBalanceOnClose,
}

} // verus!
