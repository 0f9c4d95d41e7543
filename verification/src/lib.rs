//! A verified model of a custody/settlement skeleton shared by a family of
//! small ledger-resident programs (a vault, an escrow, a marketplace, a
//! staking program, an arbitrage check).
//!
//! The recurring problem all of them share is to custody value behind a
//! derived, signature-less authority and to settle multi-party transfers
//! atomically, without ever stranding or double-moving funds. This crate
//! states that skeleton over plain values — balances as integers, parties as
//! identifiers — and proves it:
//!
//! - `authority`: deterministic derivation of a custody authority from
//!   stable seeds, and the re-derivation check performed at every use;
//! - `record`: the escrow/listing record and its phase machine
//!   (`Open` to `Settled` or `Cancelled`, both terminal);
//! - `fees`: the basis-point fee split, exact by construction;
//! - `ledger`: the checked balance-moving primitives;
//! - `settle`: the settlement engine (`make`/`take`/`refund`) and the
//!   lifecycle manager that drains and closes a custody account;
//! - `vault`, `marketplace`, `amm`, `staking`, `arb`: the per-program
//!   variants, each a thin layer over the same skeleton.
//!
//! The surrounding ledger runtime — the layer that executes requests, holds
//! real accounts and enforces whole-request atomicity — is a collaborator,
//! not part of the model: every operation here either applies all of its
//! effects or returns an error having changed nothing, which is proved in
//! each contract.

pub mod amm;
pub mod arb;
pub mod authority;
pub mod errors;
pub mod fees;
pub mod ledger;
pub mod marketplace;
pub mod record;
pub mod settle;
pub mod staking;
pub mod vault;
