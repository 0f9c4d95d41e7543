use vstd::prelude::*;
use crate::authority::{canonical, derive_authority, derives, id_bytes, spec_id_bytes, verify_authority};
use crate::errors::CoreError;
use crate::ledger::transfer;

verus! {

// The vault variant of the skeleton: a single custody balance per owner,
// with deposits and withdrawals instead of a phase machine. The state
// account is derived from the owner; the vault's authority is derived from
// the state account's identifier, so the vault is signable only by
// re-deriving that seed.

/// The domain tag under which a vault's state account is derived.
pub open spec fn state_tag() -> Seq<u8> {
    seq![115u8, 116u8, 97u8, 116u8, 101u8]  // "state"
}

/// The domain tag under which a vault's holding account is derived.
pub open spec fn vault_tag() -> Seq<u8> {
    seq![118u8, 97u8, 117u8, 108u8, 116u8]  // "vault"
}

/// The byte string "state".
pub fn state_tag_exec() -> (r: Vec<u8>)
    ensures
        r@ == state_tag(),
{
    let mut v: Vec<u8> = Vec::new();
    v.push(115);
    v.push(116);
    v.push(97);
    v.push(116);
    v.push(101);
    proof {
        assert(v@ =~= state_tag());
    }
    v
}

/// The byte string "vault".
pub fn vault_tag_exec() -> (r: Vec<u8>)
    ensures
        r@ == vault_tag(),
{
    let mut v: Vec<u8> = Vec::new();
    v.push(118);
    v.push(97);
    v.push(117);
    v.push(108);
    v.push(116);
    proof {
        assert(v@ =~= vault_tag());
    }
    v
}

/// Persistent state of one owner's vault: the two derived identifiers and
/// their bumps, persisted once at creation so every later call re-verifies
/// them instead of re-searching.
#[derive(Clone, Copy, Debug, PartialEq, Eq, Structural)]
pub struct VaultState {
    /// The owner's identity.
    pub owner: u64,
    /// The state account's own derived identifier.
    pub state_id: u64,
    /// The persisted bump of the state derivation.
    pub state_bump: u8,
    /// The derived identifier that alone controls the vault balance.
    pub vault_id: u64,
    /// The persisted bump of the vault derivation.
    pub vault_bump: u8,
    /// The storage deposit paid to persist this state, refunded on close.
    pub storage_deposit: u64,
}

impl VaultState {
    /// Well-formedness: the state account is derived from the owner, and
    /// the vault authority from the state account's identifier.
    pub open spec fn wf(self) -> bool {
        &&& derives(state_tag(), seq![spec_id_bytes(self.owner)], self.state_id, self.state_bump)
        &&& derives(vault_tag(), seq![spec_id_bytes(self.state_id)], self.vault_id, self.vault_bump)
    }
}

/// Whether the persisted vault bump still reproduces the vault authority.
pub open spec fn vault_auth_ok(state: VaultState) -> bool {
    derives(vault_tag(), seq![spec_id_bytes(state.state_id)], state.vault_id, state.vault_bump)
}

/// Creates a vault: derives the state account and the vault authority,
/// persists both bumps, and charges the owner the storage cost. The vault
/// starts empty; the second component of the result is its balance.
pub fn initialize(owner: u64, storage_cost: u64, owner_native: &mut u64) -> (r: Result<
    (VaultState, u64),
    CoreError,
>)
    ensures
        r is Ok <==> storage_cost <= *old(owner_native),
        r is Err ==> r == Err::<(VaultState, u64), CoreError>(CoreError::InsufficientFunds)
            && *final(owner_native) == *old(owner_native),
        r matches Ok(v) ==> {
            &&& v.0.wf()
            &&& canonical(state_tag(), seq![spec_id_bytes(owner)], v.0.state_id, v.0.state_bump)
            &&& canonical(
                vault_tag(),
                seq![spec_id_bytes(v.0.state_id)],
                v.0.vault_id,
                v.0.vault_bump,
            )
            &&& v.0.owner == owner
            &&& v.0.storage_deposit == storage_cost
            &&& v.1 == 0
            &&& *final(owner_native) == *old(owner_native) - storage_cost
        },
{
    if *owner_native < storage_cost {
        return Err(CoreError::InsufficientFunds);
    }
    let tag = state_tag_exec();
    let mut ids: Vec<Vec<u8>> = Vec::new();
    ids.push(id_bytes(owner));
    proof {
        assert(ids.deep_view() =~~= seq![spec_id_bytes(owner)]);
    }
    let (state_id, state_bump) = derive_authority(&tag, &ids);

    let vtag = vault_tag_exec();
    let mut vids: Vec<Vec<u8>> = Vec::new();
    vids.push(id_bytes(state_id));
    proof {
        assert(vids.deep_view() =~~= seq![spec_id_bytes(state_id)]);
    }
    let (vault_id, vault_bump) = derive_authority(&vtag, &vids);

    *owner_native = *owner_native - storage_cost;
    let state = VaultState {
        owner,
        state_id,
        state_bump,
        vault_id,
        vault_bump,
        storage_deposit: storage_cost,
    };
    Ok((state, 0))
}

/// Moves `amount` from the owner into the vault. Fails exactly as the
/// underlying transfer does, with nothing moved on failure.
pub fn deposit(state: &VaultState, amount: u64, owner_native: &mut u64, vault: &mut u64) -> (r:
    Result<(), CoreError>)
    ensures
        r is Ok <==> amount <= *old(owner_native) && *old(vault) + amount <= u64::MAX,
        r is Ok ==> *final(owner_native) == *old(owner_native) - amount && *final(vault) == *old(
            vault,
        ) + amount,
        r == Err::<(), CoreError>(CoreError::InsufficientFunds) <==> *old(owner_native) < amount,
        r == Err::<(), CoreError>(CoreError::ArithmeticError) <==> (amount <= *old(owner_native)
            && *old(vault) + amount > u64::MAX),
        r is Err ==> *final(owner_native) == *old(owner_native) && *final(vault) == *old(vault),
        *final(owner_native) + *final(vault) == *old(owner_native) + *old(vault),
{
    transfer(owner_native, vault, amount)
}

/// Moves `amount` from the vault back to the owner, signed by re-deriving
/// the vault authority from the persisted seed and bump; only the owner
/// may ask. Nothing moves on any failure.
pub fn withdraw(state: &VaultState, caller: u64, amount: u64, owner_native: &mut u64, vault:
    &mut u64) -> (r: Result<(), CoreError>)
    ensures
        r is Ok <==> (vault_auth_ok(*state) && caller == state.owner && amount <= *old(vault)
            && *old(owner_native) + amount <= u64::MAX),
        r == Err::<(), CoreError>(CoreError::AuthorityMismatch) <==> !(vault_auth_ok(*state)
            && caller == state.owner),
        r == Err::<(), CoreError>(CoreError::InsufficientFunds) <==> (vault_auth_ok(*state)
            && caller == state.owner && *old(vault) < amount),
        r == Err::<(), CoreError>(CoreError::ArithmeticError) <==> (vault_auth_ok(*state) && caller
            == state.owner && amount <= *old(vault) && *old(owner_native) + amount > u64::MAX),
        r is Ok ==> *final(vault) == *old(vault) - amount && *final(owner_native) == *old(
            owner_native,
        ) + amount,
        r is Err ==> *final(owner_native) == *old(owner_native) && *final(vault) == *old(vault),
        *final(owner_native) + *final(vault) == *old(owner_native) + *old(vault),
{
    let vtag = vault_tag_exec();
    let mut vids: Vec<Vec<u8>> = Vec::new();
    vids.push(id_bytes(state.state_id));
    proof {
        assert(vids.deep_view() =~~= seq![spec_id_bytes(state.state_id)]);
    }
    match verify_authority(&vtag, &vids, state.vault_bump, state.vault_id) {
        Ok(()) => {}
        Err(e) => {
            return Err(e);
        }
    }
    if caller != state.owner {
        return Err(CoreError::AuthorityMismatch);
    }
    transfer(vault, owner_native, amount)
}

/// Ends custody: drains whatever the vault still holds back to the owner,
/// refunds the storage deposit, and closes the state. The vault is always
/// left at exactly zero — the drain is part of the close, so no balance can
/// be stranded. Only the owner may ask; nothing moves on any failure.
pub fn close(state: &VaultState, caller: u64, owner_native: &mut u64, vault: &mut u64) -> (r:
    Result<(), CoreError>)
    ensures
        r is Ok <==> (vault_auth_ok(*state) && caller == state.owner && *old(owner_native) + *old(
            vault,
        ) + state.storage_deposit <= u64::MAX),
        r == Err::<(), CoreError>(CoreError::AuthorityMismatch) <==> !(vault_auth_ok(*state)
            && caller == state.owner),
        r == Err::<(), CoreError>(CoreError::ArithmeticError) <==> (vault_auth_ok(*state) && caller
            == state.owner && *old(owner_native) + *old(vault) + state.storage_deposit > u64::MAX),
        r is Ok ==> *final(vault) == 0 && *final(owner_native) == *old(owner_native) + *old(vault)
            + state.storage_deposit,
        r is Err ==> *final(owner_native) == *old(owner_native) && *final(vault) == *old(vault),
{
    let vtag = vault_tag_exec();
    let mut vids: Vec<Vec<u8>> = Vec::new();
    vids.push(id_bytes(state.state_id));
    proof {
        assert(vids.deep_view() =~~= seq![spec_id_bytes(state.state_id)]);
    }
    match verify_authority(&vtag, &vids, state.vault_bump, state.vault_id) {
        Ok(()) => {}
        Err(e) => {
            return Err(e);
        }
    }
    if caller != state.owner {
        return Err(CoreError::AuthorityMismatch);
    }
    let drained = match owner_native.checked_add(*vault) {
        Some(v) => v,
        None => {
            return Err(CoreError::ArithmeticError);
        }
    };
    match drained.checked_add(state.storage_deposit) {
        Some(total) => {
            *vault = 0;
            *owner_native = total;
            Ok(())
        }
        None => Err(CoreError::ArithmeticError),
    }
}

} // verus!
