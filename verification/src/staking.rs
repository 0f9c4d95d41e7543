use vstd::prelude::*;
use crate::authority::{canonical, canonical_bump, derive_authority, id_bytes, spec_id_bytes};

verus! {

// The staking variant of the skeleton: no asset custody beyond the staked
// item itself, but two domain guards layered on the same open/close shape —
// a count ceiling on staking and a time-lock on unstaking. Time enters only
// as a value read at request time, never as a scheduler.

/// The staking program's failure taxonomy. Both errors are
/// user-correctable: wait, or reduce the staked count.
#[derive(Clone, Copy, Debug, PartialEq, Eq, Structural)]
pub enum StakeError {
    /// The configured ceiling on simultaneously staked items is reached.
    MaxStakeReached,
    /// The freeze period since staking has not yet elapsed.
    FreezePeriodNotPassed,
}

/// The staking program's configuration, an explicitly passed value read
/// fresh at every request.
#[derive(Clone, Copy, Debug, PartialEq, Eq, Structural)]
pub struct StakeConfig {
    /// The configuration record's own derived identifier.
    pub id: u64,
    /// The rewards mint's derived identifier.
    pub rewards_mint: u64,
    /// Points earned per completed stake.
    pub points_per_stake: u8,
    /// Ceiling on simultaneously staked items per user.
    pub max_stake: u8,
    /// Seconds a staked item stays locked.
    pub freeze_period: u32,
    /// The persisted bump of the rewards mint derivation.
    pub rewards_bump: u8,
    /// The persisted bump of the configuration's own derivation.
    pub bump: u8,
}

/// One user's staking tally.
#[derive(Clone, Copy, Debug, PartialEq, Eq, Structural)]
pub struct UserAccount {
    /// The user's identity.
    pub owner: u64,
    /// Points accrued over completed stakes.
    pub points: u64,
    /// How many items the user has staked right now.
    pub amount_staked: u8,
    /// The persisted bump of the account's derivation.
    pub bump: u8,
}

/// One staked item: who staked what, and when.
#[derive(Clone, Copy, Debug, PartialEq, Eq, Structural)]
pub struct StakeAccount {
    /// The staking user's identity.
    pub owner: u64,
    /// The staked item's identifier.
    pub asset: u64,
    /// The time the item was staked, as read at request time.
    pub staked_at: u64,
    /// The persisted bump of the account's derivation.
    pub bump: u8,
}

/// The domain tag under which the configuration is derived.
pub open spec fn config_tag() -> Seq<u8> {
    seq![99u8, 111u8, 110u8, 102u8, 105u8, 103u8]  // "config"
}

/// The domain tag under which the rewards mint is derived.
pub open spec fn rewards_tag() -> Seq<u8> {
    seq![114u8, 101u8, 119u8, 97u8, 114u8, 100u8, 115u8]  // "rewards"
}

/// The domain tag under which a user account is derived.
pub open spec fn user_tag() -> Seq<u8> {
    seq![117u8, 115u8, 101u8, 114u8]  // "user"
}

/// The domain tag under which a staked item's account is derived.
pub open spec fn stake_tag() -> Seq<u8> {
    seq![115u8, 116u8, 97u8, 107u8, 101u8]  // "stake"
}

/// The byte string "config".
pub fn config_tag_exec() -> (r: Vec<u8>)
    ensures
        r@ == config_tag(),
{
    let mut v: Vec<u8> = Vec::new();
    v.push(99);
    v.push(111);
    v.push(110);
    v.push(102);
    v.push(105);
    v.push(103);
    proof {
        assert(v@ =~= config_tag());
    }
    v
}

/// The byte string "rewards".
pub fn rewards_tag_exec() -> (r: Vec<u8>)
    ensures
        r@ == rewards_tag(),
{
    let mut v: Vec<u8> = Vec::new();
    v.push(114);
    v.push(101);
    v.push(119);
    v.push(97);
    v.push(114);
    v.push(100);
    v.push(115);
    proof {
        assert(v@ =~= rewards_tag());
    }
    v
}

/// The byte string "user".
pub fn user_tag_exec() -> (r: Vec<u8>)
    ensures
        r@ == user_tag(),
{
    let mut v: Vec<u8> = Vec::new();
    v.push(117);
    v.push(115);
    v.push(101);
    v.push(114);
    proof {
        assert(v@ =~= user_tag());
    }
    v
}

/// The byte string "stake".
pub fn stake_tag_exec() -> (r: Vec<u8>)
    ensures
        r@ == stake_tag(),
{
    let mut v: Vec<u8> = Vec::new();
    v.push(115);
    v.push(116);
    v.push(97);
    v.push(107);
    v.push(101);
    proof {
        assert(v@ =~= stake_tag());
    }
    v
}

/// Creates the configuration: derives its own identifier from the bare
/// domain tag and the rewards mint from that identifier, persisting both
/// bumps alongside the three policy numbers.
pub fn initialize_config(points_per_stake: u8, max_stake: u8, freeze_period: u32) -> (c:
    StakeConfig)
    ensures
        canonical(config_tag(), Seq::empty(), c.id, c.bump),
        canonical(rewards_tag(), seq![spec_id_bytes(c.id)], c.rewards_mint, c.rewards_bump),
        c.points_per_stake == points_per_stake,
        c.max_stake == max_stake,
        c.freeze_period == freeze_period,
{
    let tag = config_tag_exec();
    let ids: Vec<Vec<u8>> = Vec::new();
    proof {
        assert(ids.deep_view() =~~= Seq::<Seq<u8>>::empty());
    }
    let (id, bump) = derive_authority(&tag, &ids);

    let rtag = rewards_tag_exec();
    let mut rids: Vec<Vec<u8>> = Vec::new();
    rids.push(id_bytes(id));
    proof {
        assert(rids.deep_view() =~~= seq![spec_id_bytes(id)]);
    }
    let (rewards_mint, rewards_bump) = derive_authority(&rtag, &rids);

    StakeConfig { id, rewards_mint, points_per_stake, max_stake, freeze_period, rewards_bump, bump }
}

/// Creates a user's tally, empty, at the account derived from the user's
/// identity.
pub fn initialize_user(owner: u64) -> (u: UserAccount)
    ensures
        canonical_bump(user_tag(), seq![spec_id_bytes(owner)], u.bump),
        u.owner == owner,
        u.points == 0,
        u.amount_staked == 0,
{
    let tag = user_tag_exec();
    let mut ids: Vec<Vec<u8>> = Vec::new();
    ids.push(id_bytes(owner));
    proof {
        assert(ids.deep_view() =~~= seq![spec_id_bytes(owner)]);
    }
    let (_, bump) = derive_authority(&tag, &ids);
    UserAccount { owner, points: 0, amount_staked: 0, bump }
}

/// Stakes one item: rejected with `MaxStakeReached` once the user already
/// holds `max_stake` staked items, with the tally untouched; otherwise the
/// tally rises by one and the item's account records the staking time.
pub fn stake(config: &StakeConfig, user: &mut UserAccount, asset: u64, now: u64) -> (r: Result<
    StakeAccount,
    StakeError,
>)
    ensures
        r is Ok <==> old(user).amount_staked < config.max_stake,
        r is Err ==> r == Err::<StakeAccount, StakeError>(StakeError::MaxStakeReached)
            && *final(user) == *old(user),
        r matches Ok(s) ==> {
            &&& final(user).amount_staked == old(user).amount_staked + 1
            &&& final(user).points == old(user).points
            &&& final(user).owner == old(user).owner
            &&& s.owner == old(user).owner
            &&& s.asset == asset
            &&& s.staked_at == now
            &&& canonical_bump(
                stake_tag(),
                seq![spec_id_bytes(old(user).owner), spec_id_bytes(asset)],
                s.bump,
            )
        },
{
    if user.amount_staked >= config.max_stake {
        return Err(StakeError::MaxStakeReached);
    }
    let tag = stake_tag_exec();
    let mut ids: Vec<Vec<u8>> = Vec::new();
    ids.push(id_bytes(user.owner));
    ids.push(id_bytes(asset));
    proof {
        assert(ids.deep_view() =~~= seq![spec_id_bytes(user.owner), spec_id_bytes(asset)]);
    }
    let (_, bump) = derive_authority(&tag, &ids);
    user.amount_staked = user.amount_staked + 1;
    Ok(StakeAccount { owner: user.owner, asset, staked_at: now, bump })
}

/// Unstakes one item: rejected with `FreezePeriodNotPassed` until
/// `staked_at + freeze_period` is no later than `now`, with the tally
/// untouched; otherwise the tally drops by one and the user earns the
/// configured points.
pub fn unstake(config: &StakeConfig, user: &mut UserAccount, staked: &StakeAccount, now: u64) -> (r:
    Result<(), StakeError>)
    requires
        old(user).amount_staked >= 1,
        old(user).points + config.points_per_stake <= u64::MAX,
    ensures
        r is Ok <==> staked.staked_at + config.freeze_period <= now,
        r is Err ==> r == Err::<(), StakeError>(StakeError::FreezePeriodNotPassed) && *final(user)
            == *old(user),
        r is Ok ==> {
            &&& final(user).amount_staked == old(user).amount_staked - 1
            &&& final(user).points == old(user).points + config.points_per_stake
            &&& final(user).owner == old(user).owner
        },
{
    let unlock = match staked.staked_at.checked_add(config.freeze_period as u64) {
        Some(t) => t,
        None => {
            // the unlock time lies beyond every representable `now`
            return Err(StakeError::FreezePeriodNotPassed);
        }
    };
    if now < unlock {
        return Err(StakeError::FreezePeriodNotPassed);
    }
    user.amount_staked = user.amount_staked - 1;
    user.points = user.points + (config.points_per_stake as u64);
    Ok(())
}

} // verus!
