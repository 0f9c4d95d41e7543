use vstd::prelude::*;
use crate::authority::{canonical, derive_authority, id_bytes, spec_id_bytes};
use crate::errors::CoreError;
use crate::fees::BPS_DENOMINATOR;

verus! {

// The automated-market-maker variant of the skeleton: a pool configuration
// and the custody leg of a liquidity deposit. The pricing curve itself is a
// collaborator's concern: callers hand this module the amounts the curve
// settled on, and this module moves them, checked and all-or-nothing.

/// A pool's configuration, an explicitly passed value read fresh at every
/// request rather than process-wide state.
#[derive(Clone, Copy, Debug, PartialEq, Eq, Structural)]
pub struct Config {
    /// The configuration's own derived identifier.
    pub id: u64,
    /// The pool's creation seed value.
    pub seed: u64,
    /// An optional fixed authority allowed to lock the pool.
    pub authority: Option<u64>,
    /// The pool's first asset.
    pub mint_a: u64,
    /// The pool's second asset.
    pub mint_b: u64,
    /// Fee rate in basis points.
    pub fee: u16,
    /// Whether the pool is locked; a locked pool accepts no deposit.
    pub locked: bool,
    /// The persisted bump of the configuration's own derivation.
    pub config_bump: u8,
    /// The persisted bump of the liquidity mint's derivation.
    pub lp_bump: u8,
}

/// The domain tag under which a pool configuration is derived.
pub open spec fn pool_tag() -> Seq<u8> {
    seq![112u8, 111u8, 111u8, 108u8]  // "pool"
}

/// The domain tag under which a pool's liquidity mint is derived.
pub open spec fn lp_tag() -> Seq<u8> {
    seq![108u8, 112u8]  // "lp"
}

/// The byte string "pool".
pub fn pool_tag_exec() -> (r: Vec<u8>)
    ensures
        r@ == pool_tag(),
{
    let mut v: Vec<u8> = Vec::new();
    v.push(112);
    v.push(111);
    v.push(111);
    v.push(108);
    proof {
        assert(v@ =~= pool_tag());
    }
    v
}

/// The byte string "lp".
pub fn lp_tag_exec() -> (r: Vec<u8>)
    ensures
        r@ == lp_tag(),
{
    let mut v: Vec<u8> = Vec::new();
    v.push(108);
    v.push(112);
    proof {
        assert(v@ =~= lp_tag());
    }
    v
}

/// Creates a pool configuration, unlocked, deriving the configuration from
/// the seed and the liquidity mint from the configuration's identifier.
/// The second component of the result is the liquidity mint's identifier.
pub fn initialize(seed: u64, fee: u16, authority: Option<u64>, mint_a: u64, mint_b: u64) -> (r: (
    Config,
    u64,
))
    requires
        fee <= BPS_DENOMINATOR,
    ensures
        canonical(pool_tag(), seq![spec_id_bytes(seed)], r.0.id, r.0.config_bump),
        canonical(lp_tag(), seq![spec_id_bytes(r.0.id)], r.1, r.0.lp_bump),
        r.0.seed == seed,
        r.0.fee == fee,
        r.0.authority == authority,
        r.0.mint_a == mint_a,
        r.0.mint_b == mint_b,
        !r.0.locked,
{
    let tag = pool_tag_exec();
    let mut ids: Vec<Vec<u8>> = Vec::new();
    ids.push(id_bytes(seed));
    proof {
        assert(ids.deep_view() =~~= seq![spec_id_bytes(seed)]);
    }
    let (id, config_bump) = derive_authority(&tag, &ids);

    let ltag = lp_tag_exec();
    let mut lids: Vec<Vec<u8>> = Vec::new();
    lids.push(id_bytes(id));
    proof {
        assert(lids.deep_view() =~~= seq![spec_id_bytes(id)]);
    }
    let (lp_mint, lp_bump) = derive_authority(&ltag, &lids);

    let config = Config {
        id,
        seed,
        authority,
        mint_a,
        mint_b,
        fee,
        locked: false,
        config_bump,
        lp_bump,
    };
    (config, lp_mint)
}

/// The custody leg of a liquidity deposit: moves `max_x` of the first
/// asset and `max_y` of the second from the depositor into the pool, and
/// mints `lp_amount` liquidity tokens to the depositor — the amounts the
/// pricing curve settled on are inputs here. A locked pool rejects the
/// request as a phase violation. Every check precedes every effect: on any
/// error all six balances are exactly as they were; both pool assets and
/// the liquidity supply are conserved.
pub fn deposit(
    config: &Config,
    lp_amount: u64,
    max_x: u64,
    max_y: u64,
    user_x: &mut u64,
    user_y: &mut u64,
    pool_x: &mut u64,
    pool_y: &mut u64,
    user_lp: &mut u64,
    lp_supply: &mut u64,
) -> (r: Result<(), CoreError>)
    requires
        lp_amount > 0,
    ensures
        r is Ok <==> {
            &&& !config.locked
            &&& max_x <= *old(user_x) && max_y <= *old(user_y)
            &&& *old(pool_x) + max_x <= u64::MAX && *old(pool_y) + max_y <= u64::MAX
            &&& *old(user_lp) + lp_amount <= u64::MAX && *old(lp_supply) + lp_amount <= u64::MAX
        },
        r == Err::<(), CoreError>(CoreError::InvalidPhase) <==> config.locked,
        r == Err::<(), CoreError>(CoreError::InsufficientFunds) <==> (!config.locked && (*old(
            user_x,
        ) < max_x || *old(user_y) < max_y)),
        r == Err::<(), CoreError>(CoreError::ArithmeticError) <==> (!config.locked && max_x <= *old(
            user_x,
        ) && max_y <= *old(user_y) && (*old(pool_x) + max_x > u64::MAX || *old(pool_y) + max_y
            > u64::MAX || *old(user_lp) + lp_amount > u64::MAX || *old(lp_supply) + lp_amount
            > u64::MAX)),
        r is Ok ==> {
            &&& *final(user_x) == *old(user_x) - max_x
            &&& *final(user_y) == *old(user_y) - max_y
            &&& *final(pool_x) == *old(pool_x) + max_x
            &&& *final(pool_y) == *old(pool_y) + max_y
            &&& *final(user_lp) == *old(user_lp) + lp_amount
            &&& *final(lp_supply) == *old(lp_supply) + lp_amount
        },
        r is Err ==> {
            &&& *final(user_x) == *old(user_x) && *final(user_y) == *old(user_y)
            &&& *final(pool_x) == *old(pool_x) && *final(pool_y) == *old(pool_y)
            &&& *final(user_lp) == *old(user_lp) && *final(lp_supply) == *old(lp_supply)
        },
        *final(user_x) + *final(pool_x) == *old(user_x) + *old(pool_x),
        *final(user_y) + *final(pool_y) == *old(user_y) + *old(pool_y),
        *final(lp_supply) - *old(lp_supply) == *final(user_lp) - *old(user_lp),
{
    if config.locked {
        return Err(CoreError::InvalidPhase);
    }
    if *user_x < max_x || *user_y < max_y {
        return Err(CoreError::InsufficientFunds);
    }
    let new_pool_x = match pool_x.checked_add(max_x) {
        Some(v) => v,
        None => {
            return Err(CoreError::ArithmeticError);
        }
    };
    let new_pool_y = match pool_y.checked_add(max_y) {
        Some(v) => v,
        None => {
            return Err(CoreError::ArithmeticError);
        }
    };
    let new_user_lp = match user_lp.checked_add(lp_amount) {
        Some(v) => v,
        None => {
            return Err(CoreError::ArithmeticError);
        }
    };
    let new_lp_supply = match lp_supply.checked_add(lp_amount) {
        Some(v) => v,
        None => {
            return Err(CoreError::ArithmeticError);
        }
    };
    *user_x = *user_x - max_x;
    *user_y = *user_y - max_y;
    *pool_x = new_pool_x;
    *pool_y = new_pool_y;
    *user_lp = new_user_lp;
    *lp_supply = new_lp_supply;
    Ok(())
}

} // verus!
