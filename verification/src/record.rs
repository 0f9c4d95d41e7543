use vstd::prelude::*;
use crate::authority::{derives, spec_id_bytes};
use crate::fees::BPS_DENOMINATOR;

verus! {

/// The phase of a record. `Open` is the only phase out of which funds may
/// move; `Settled` and `Cancelled` are terminal.
#[derive(Clone, Copy, Debug, PartialEq, Eq, Structural)]
pub enum Phase {
    Uninitialized,
    Open,
    Settled,
    Cancelled,
}

/// Whether a phase permits the settled path (take / purchase).
pub open spec fn settle_allowed(phase: Phase) -> bool {
    phase is Open
}

/// Whether a phase permits the cancelled path (refund / delist).
pub open spec fn refund_allowed(phase: Phase) -> bool {
    phase is Open
}

/// Whether a phase is terminal: nothing transitions out of it.
pub open spec fn terminal(phase: Phase) -> bool {
    phase is Settled || phase is Cancelled
}

/// Once a record has left `Open`, neither settlement path can ever succeed
/// again: of `take` and `refund`, whichever ran first was the only one, and
/// the other is owed `InvalidPhase` (the operations' contracts return
/// exactly that error, with no state change, whenever their path is not
/// allowed).
pub proof fn lemma_single_settlement(phase: Phase)
    requires
        terminal(phase),
    ensures
        !settle_allowed(phase),
        !refund_allowed(phase),
{
}

/// The domain tag under which a record's own identifier is derived.
pub open spec fn record_tag() -> Seq<u8> {
    seq![114u8, 101u8, 99u8, 111u8, 114u8, 100u8]  // "record"
}

/// The domain tag under which a custody account's authority is derived.
pub open spec fn custody_tag() -> Seq<u8> {
    seq![99u8, 117u8, 115u8, 116u8, 111u8, 100u8, 121u8]  // "custody"
}

/// The byte string "record", for seeding a record's derivation.
pub fn record_tag_exec() -> (r: Vec<u8>)
    ensures
        r@ == record_tag(),
{
    let mut v: Vec<u8> = Vec::new();
    v.push(114);
    v.push(101);
    v.push(99);
    v.push(111);
    v.push(114);
    v.push(100);
    proof {
        assert(v@ =~= record_tag());
    }
    v
}

/// The byte string "custody", for seeding a custody account's derivation.
pub fn custody_tag_exec() -> (r: Vec<u8>)
    ensures
        r@ == custody_tag(),
{
    let mut v: Vec<u8> = Vec::new();
    v.push(99);
    v.push(117);
    v.push(115);
    v.push(116);
    v.push(111);
    v.push(100);
    v.push(121);
    proof {
        assert(v@ =~= custody_tag());
    }
    v
}

/// A value-holding account controlled exclusively by a derived authority:
/// no private key can sign for it. Created empty when its record opens,
/// funded and drained only by the settlement engine, closed by the
/// lifecycle manager.
#[derive(Clone, Copy, Debug, PartialEq, Eq, Structural)]
pub struct CustodyAccount {
    /// The asset this account holds a balance of.
    pub asset: u64,
    /// The balance held in custody.
    pub balance: u64,
    /// The identifier of the record this account belongs to.
    pub record_id: u64,
    /// The derived identifier that alone controls this account.
    pub authority: u64,
    /// The persisted bump of the authority derivation.
    pub bump: u8,
    /// Whether the account still exists; cleared by the lifecycle manager.
    pub open: bool,
}

/// Persistent state of one in-flight or completed exchange: who, what, how
/// much, and the current phase. Bumps are persisted so every later call can
/// re-verify the derivations instead of re-searching.
#[derive(Clone, Copy, Debug, PartialEq, Eq, Structural)]
pub struct Record {
    /// The record's own derived identifier.
    pub id: u64,
    /// The maker's identity.
    pub maker: u64,
    /// The counterpart's identity, bound at settlement time.
    pub counterpart: Option<u64>,
    /// The asset the maker moved into custody.
    pub offered_asset: u64,
    /// The asset the maker asked for in return.
    pub wanted_asset: u64,
    /// How much of the offered asset went into custody.
    pub deposit_amount: u64,
    /// How much of the wanted asset settlement must supply.
    pub receive_amount: u64,
    /// Fee rate in basis points, charged on the receive amount.
    pub fee_rate: u16,
    /// Current phase.
    pub phase: Phase,
    /// The creation seed value chosen by the maker.
    pub seed: u64,
    /// The persisted bump of the record's own derivation.
    pub bump: u8,
    /// The persisted bump of the custody account's derivation.
    pub custody_bump: u8,
    /// The storage deposit paid to persist the record and its custody
    /// account, refunded to the maker when custody ends.
    pub storage_deposit: u64,
}

impl Record {
    /// Well-formedness: the economic fields are in range and the record's
    /// identifier is what its seed derives. The record's identifier is
    /// derived from the maker and the maker-chosen seed value, so one maker
    /// can hold many records without collision.
    pub open spec fn wf(self) -> bool {
        &&& self.fee_rate <= BPS_DENOMINATOR
        &&& self.deposit_amount > 0
        &&& self.receive_amount > 0
        &&& derives(
            record_tag(),
            seq![spec_id_bytes(self.maker), spec_id_bytes(self.seed)],
            self.id,
            self.bump,
        )
    }
}

/// Whether a custody account is the one a record was created with: it
/// belongs to the record, holds the offered asset, and its authority is
/// derived from the record's own identifier — never from the maker
/// directly — under the persisted bump.
pub open spec fn custody_matches(record: Record, custody: CustodyAccount) -> bool {
    &&& custody.record_id == record.id
    &&& custody.asset == record.offered_asset
    &&& custody.bump == record.custody_bump
    &&& derives(custody_tag(), seq![spec_id_bytes(record.id)], custody.authority, custody.bump)
}

} // verus!
