use vstd::prelude::*;
use crate::authority::{canonical, derive_authority, id_bytes, spec_id_bytes, verify_authority};
use crate::errors::CoreError;
use crate::fees::{fee_split, spec_fee, spec_net, BPS_DENOMINATOR};
use crate::record::{custody_tag_exec, refund_allowed, settle_allowed, CustodyAccount, Phase, Record};
use crate::settle::{close, make, take_auth_ok, SettlementReceipt};

verus! {

// The marketplace variant of the skeleton: a listing is a record whose
// custodied asset is the listed item (one token of the maker's mint) and
// whose receive amount is the price, in the native asset. Purchasing
// settles the listing — fee to the treasury, net price to the maker, item
// to the buyer, an optional reward minted to the buyer — and delisting
// cancels it. Both paths close the item vault through the lifecycle
// manager and refund the listing's storage deposit to the maker.

/// The asset identifier this module uses for the native asset prices are
/// quoted in.
pub const NATIVE_ASSET: u64 = 0;

/// A marketplace's configuration: its derived identifiers, their bumps,
/// and the fee it charges on every sale.
#[derive(Clone, Debug)]
pub struct Marketplace {
    /// The marketplace's own derived identifier.
    pub id: u64,
    /// The administrator's identity.
    pub admin: u64,
    /// Fee rate in basis points, charged on the sale price.
    pub fee: u16,
    /// The treasury's derived identifier.
    pub treasury: u64,
    /// The reward mint's derived identifier.
    pub rewards_mint: u64,
    /// The persisted bump of the marketplace's own derivation.
    pub bump: u8,
    /// The persisted bump of the treasury derivation.
    pub treasury_bump: u8,
    /// The persisted bump of the reward mint derivation.
    pub rewards_bump: u8,
    /// The marketplace's name, the entity identifier it is derived from.
    pub name: Vec<u8>,
}

/// The domain tag under which a marketplace is derived.
pub open spec fn market_tag() -> Seq<u8> {
    seq![109u8, 97u8, 114u8, 107u8, 101u8, 116u8]  // "market"
}

/// The domain tag under which a marketplace's treasury is derived.
pub open spec fn treasury_tag() -> Seq<u8> {
    seq![116u8, 114u8, 101u8, 97u8, 115u8, 117u8, 114u8, 121u8]  // "treasury"
}

/// The domain tag under which a marketplace's reward mint is derived.
pub open spec fn reward_mint_tag() -> Seq<u8> {
    seq![109u8, 105u8, 110u8, 116u8]  // "mint"
}

/// The byte string "market".
pub fn market_tag_exec() -> (r: Vec<u8>)
    ensures
        r@ == market_tag(),
{
    let mut v: Vec<u8> = Vec::new();
    v.push(109);
    v.push(97);
    v.push(114);
    v.push(107);
    v.push(101);
    v.push(116);
    proof {
        assert(v@ =~= market_tag());
    }
    v
}

/// The byte string "treasury".
pub fn treasury_tag_exec() -> (r: Vec<u8>)
    ensures
        r@ == treasury_tag(),
{
    let mut v: Vec<u8> = Vec::new();
    v.push(116);
    v.push(114);
    v.push(101);
    v.push(97);
    v.push(115);
    v.push(117);
    v.push(114);
    v.push(121);
    proof {
        assert(v@ =~= treasury_tag());
    }
    v
}

/// The byte string "mint".
pub fn reward_mint_tag_exec() -> (r: Vec<u8>)
    ensures
        r@ == reward_mint_tag(),
{
    let mut v: Vec<u8> = Vec::new();
    v.push(109);
    v.push(105);
    v.push(110);
    v.push(116);
    proof {
        assert(v@ =~= reward_mint_tag());
    }
    v
}

/// Creates a marketplace: derives its identifier from its name, and the
/// treasury and reward mint from that identifier, persisting the bumps.
pub fn initialize(admin: u64, name: Vec<u8>, fee: u16) -> (m: Marketplace)
    requires
        fee <= BPS_DENOMINATOR,
    ensures
        canonical(market_tag(), seq![name@], m.id, m.bump),
        canonical(treasury_tag(), seq![spec_id_bytes(m.id)], m.treasury, m.treasury_bump),
        canonical(reward_mint_tag(), seq![spec_id_bytes(m.id)], m.rewards_mint, m.rewards_bump),
        m.admin == admin,
        m.fee == fee,
        m.name@ == name@,
{
    let mut ids: Vec<Vec<u8>> = Vec::new();
    ids.push(name);
    let tag = market_tag_exec();
    proof {
        assert(ids.deep_view() =~~= seq![ids@[0]@]);
    }
    let (id, bump) = derive_authority(&tag, &ids);

    let ttag = treasury_tag_exec();
    let mut tids: Vec<Vec<u8>> = Vec::new();
    tids.push(id_bytes(id));
    proof {
        assert(tids.deep_view() =~~= seq![spec_id_bytes(id)]);
    }
    let (treasury, treasury_bump) = derive_authority(&ttag, &tids);

    let rtag = reward_mint_tag_exec();
    let mut rids: Vec<Vec<u8>> = Vec::new();
    rids.push(id_bytes(id));
    proof {
        assert(rids.deep_view() =~~= seq![spec_id_bytes(id)]);
    }
    let (rewards_mint, rewards_bump) = derive_authority(&rtag, &rids);

    // the seed vector borrowed the name; take it back for the struct
    let name_back = match ids.pop() {
        Some(n) => n,
        None => Vec::new(),
    };
    Marketplace {
        id,
        admin,
        fee,
        treasury,
        rewards_mint,
        bump,
        treasury_bump,
        rewards_bump,
        name: name_back,
    }
}

/// Lists one token of the maker's mint at the given price: a `make` whose
/// custodied deposit is that single token and whose receive amount is the
/// price in the native asset, at the marketplace's fee rate. The mint's
/// identifier doubles as the record seed, so one maker lists each mint at
/// most once per seed space.
pub fn list(
    market: &Marketplace,
    maker: u64,
    maker_mint: u64,
    price: u64,
    storage_cost: u64,
    maker_item: &mut u64,
    maker_native: &mut u64,
) -> (r: Result<(Record, CustodyAccount), CoreError>)
    requires
        market.fee <= BPS_DENOMINATOR,
        price > 0,
    ensures
        r is Ok <==> (1 <= *old(maker_item) && storage_cost <= *old(maker_native)),
        r is Err ==> r == Err::<(Record, CustodyAccount), CoreError>(CoreError::InsufficientFunds)
            && *final(maker_item) == *old(maker_item) && *final(maker_native) == *old(maker_native),
        r matches Ok(rc) ==> {
            &&& rc.0.wf()
            &&& crate::record::custody_matches(rc.0, rc.1)
            &&& rc.0.phase is Open
            &&& rc.1.balance == 1
            &&& rc.1.open
            &&& rc.0.maker == maker
            &&& rc.0.offered_asset == maker_mint
            &&& rc.0.wanted_asset == NATIVE_ASSET
            &&& rc.0.deposit_amount == 1
            &&& rc.0.receive_amount == price
            &&& rc.0.fee_rate == market.fee
            &&& rc.0.storage_deposit == storage_cost
            &&& *final(maker_item) == *old(maker_item) - 1
            &&& *final(maker_native) == *old(maker_native) - storage_cost
        },
{
    make(
        maker,
        maker_mint,
        maker_mint,
        NATIVE_ASSET,
        1,
        price,
        market.fee,
        storage_cost,
        maker_item,
        maker_native,
    )
}

/// The payment leg of a purchase: the buyer pays the full price, split
/// into the fee (to the treasury) and the net price (to the maker).
pub fn send_sol(
    price: u64,
    fee_rate: u16,
    taker_native: &mut u64,
    maker_native: &mut u64,
    treasury: &mut u64,
)
    requires
        fee_rate <= BPS_DENOMINATOR,
        price * fee_rate <= u64::MAX,
        price <= *old(taker_native),
        *old(treasury) + spec_fee(price, fee_rate) <= u64::MAX,
        *old(maker_native) + spec_net(price, fee_rate) <= u64::MAX,
    ensures
        *final(taker_native) == *old(taker_native) - price,
        *final(treasury) == *old(treasury) + spec_fee(price, fee_rate),
        *final(maker_native) == *old(maker_native) + spec_net(price, fee_rate),
        *final(taker_native) + *final(treasury) + *final(maker_native) == *old(taker_native)
            + *old(treasury) + *old(maker_native),
{
    let split = match fee_split(price, fee_rate) {
        Ok(s) => s,
        Err(_) => {
            proof {
                assert(false);
            }
            return ;
        }
    };
    *taker_native = *taker_native - price;
    *treasury = *treasury + split.fee;
    *maker_native = *maker_native + split.net;
}

/// The item leg of a purchase: custody releases the listed token to the
/// buyer, leaving the vault at exactly zero.
pub fn send_nft(custody: &mut CustodyAccount, taker_item: &mut u64)
    requires
        *old(taker_item) + old(custody).balance <= u64::MAX,
    ensures
        *final(taker_item) == *old(taker_item) + old(custody).balance,
        final(custody).balance == 0,
        final(custody).asset == old(custody).asset,
        final(custody).record_id == old(custody).record_id,
        final(custody).authority == old(custody).authority,
        final(custody).bump == old(custody).bump,
        final(custody).open == old(custody).open,
        final(custody).balance + *final(taker_item) == old(custody).balance + *old(taker_item),
{
    *taker_item = *taker_item + custody.balance;
    custody.balance = 0;
}

/// The return leg of a delisting: custody releases the listed token back
/// to the maker, leaving the vault at exactly zero.
pub fn withdraw_nft(custody: &mut CustodyAccount, maker_item: &mut u64)
    requires
        *old(maker_item) + old(custody).balance <= u64::MAX,
    ensures
        *final(maker_item) == *old(maker_item) + old(custody).balance,
        final(custody).balance == 0,
        final(custody).asset == old(custody).asset,
        final(custody).record_id == old(custody).record_id,
        final(custody).authority == old(custody).authority,
        final(custody).bump == old(custody).bump,
        final(custody).open == old(custody).open,
        final(custody).balance + *final(maker_item) == old(custody).balance + *old(maker_item),
{
    *maker_item = *maker_item + custody.balance;
    custody.balance = 0;
}

/// Closes the item vault once it is drained, refunding the storage deposit
/// to the maker: the marketplace's entry into the lifecycle manager.
pub fn close_mint_vault(custody: &mut CustodyAccount, storage_deposit: u64, maker_native:
    &mut u64) -> (r: Result<(), CoreError>)
    ensures
        r is Ok <==> (old(custody).balance == 0 && *old(maker_native) + storage_deposit
            <= u64::MAX),
        r == Err::<(), CoreError>(CoreError::NonZeroBalanceOnClose) <==> old(custody).balance != 0,
        r == Err::<(), CoreError>(CoreError::ArithmeticError) <==> (old(custody).balance == 0
            && *old(maker_native) + storage_deposit > u64::MAX),
        r is Ok ==> !final(custody).open && final(custody).balance == 0 && *final(maker_native)
            == *old(maker_native) + storage_deposit,
        r is Err ==> *final(custody) == *old(custody) && *final(maker_native) == *old(maker_native),
{
    close(custody, storage_deposit, maker_native)
}

/// Whether both sources can cover a purchase: the vault holds exactly what
/// was recorded at listing time, and the buyer holds the full price.
pub open spec fn purchase_funds_ok(record: Record, custody: CustodyAccount, taker_native: u64) -> bool {
    custody.balance == record.deposit_amount && taker_native >= record.receive_amount
}

/// Whether every balance a purchase credits stays in 64 bits. The maker's
/// native balance receives both the net price and the storage refund.
pub open spec fn purchase_credits_fit(
    record: Record,
    treasury: u64,
    maker_native: u64,
    taker_item: u64,
    taker_rewards: u64,
    reward_supply: u64,
    reward_amount: u64,
) -> bool {
    &&& treasury + spec_fee(record.receive_amount, record.fee_rate) <= u64::MAX
    &&& maker_native + spec_net(record.receive_amount, record.fee_rate) + record.storage_deposit
        <= u64::MAX
    &&& taker_item + record.deposit_amount <= u64::MAX
    &&& taker_rewards + reward_amount <= u64::MAX
    &&& reward_supply + reward_amount <= u64::MAX
}

/// The settled path of a listing: the buyer pays the price, split into fee
/// (to the treasury) and net price (to the maker); the vault releases the
/// listed item to the buyer; `reward_amount` of the reward mint is minted
/// to the buyer; the vault is closed with the storage deposit refunded to
/// the maker — not the buyer — and the listing becomes `Settled`.
///
/// Every check precedes every effect: on any error all seven mutable
/// arguments are exactly as they were, and the contract says which inputs
/// produce which error.
#[verifier::rlimit(50)]
pub fn purchase(
    record: &mut Record,
    custody: &mut CustodyAccount,
    taker: u64,
    taker_native: &mut u64,
    taker_item: &mut u64,
    taker_rewards: &mut u64,
    maker_native: &mut u64,
    treasury: &mut u64,
    reward_supply: &mut u64,
    reward_amount: u64,
) -> (r: Result<SettlementReceipt, CoreError>)
    requires
        old(record).wf(),
    ensures
        r is Ok <==> {
            &&& take_auth_ok(*old(record), *old(custody))
            &&& settle_allowed(old(record).phase)
            &&& old(record).receive_amount * old(record).fee_rate <= u64::MAX
            &&& purchase_funds_ok(*old(record), *old(custody), *old(taker_native))
            &&& purchase_credits_fit(
                *old(record),
                *old(treasury),
                *old(maker_native),
                *old(taker_item),
                *old(taker_rewards),
                *old(reward_supply),
                reward_amount,
            )
        },
        r == Err::<SettlementReceipt, CoreError>(CoreError::AuthorityMismatch) <==> !take_auth_ok(
            *old(record),
            *old(custody),
        ),
        r == Err::<SettlementReceipt, CoreError>(CoreError::InvalidPhase) <==> (take_auth_ok(
            *old(record),
            *old(custody),
        ) && !settle_allowed(old(record).phase)),
        r == Err::<SettlementReceipt, CoreError>(CoreError::InsufficientFunds) <==> (take_auth_ok(
            *old(record),
            *old(custody),
        ) && settle_allowed(old(record).phase) && old(record).receive_amount * old(record).fee_rate
            <= u64::MAX && !purchase_funds_ok(*old(record), *old(custody), *old(taker_native))),
        r == Err::<SettlementReceipt, CoreError>(CoreError::ArithmeticError) <==> (take_auth_ok(
            *old(record),
            *old(custody),
        ) && settle_allowed(old(record).phase) && (old(record).receive_amount * old(
            record,
        ).fee_rate > u64::MAX || (purchase_funds_ok(*old(record), *old(custody), *old(taker_native))
            && !purchase_credits_fit(
            *old(record),
            *old(treasury),
            *old(maker_native),
            *old(taker_item),
            *old(taker_rewards),
            *old(reward_supply),
            reward_amount,
        )))),
        r is Err ==> {
            &&& *final(record) == *old(record)
            &&& *final(custody) == *old(custody)
            &&& *final(taker_native) == *old(taker_native)
            &&& *final(taker_item) == *old(taker_item)
            &&& *final(taker_rewards) == *old(taker_rewards)
            &&& *final(maker_native) == *old(maker_native)
            &&& *final(treasury) == *old(treasury)
            &&& *final(reward_supply) == *old(reward_supply)
        },
        r matches Ok(receipt) ==> {
            let price = old(record).receive_amount;
            let rate = old(record).fee_rate;
            &&& receipt.fee == spec_fee(price, rate)
            &&& receipt.net == spec_net(price, rate)
            &&& receipt.fee + receipt.net == price
            &&& receipt.released == old(record).deposit_amount
            &&& receipt.residual == 0
            &&& receipt.storage_refund == old(record).storage_deposit
            &&& *final(taker_native) == *old(taker_native) - price
            &&& *final(treasury) == *old(treasury) + receipt.fee
            &&& *final(maker_native) == *old(maker_native) + receipt.net + receipt.storage_refund
            &&& *final(taker_item) == *old(taker_item) + receipt.released
            &&& *final(taker_rewards) == *old(taker_rewards) + reward_amount
            &&& *final(reward_supply) == *old(reward_supply) + reward_amount
            &&& final(custody).balance == 0
            &&& !final(custody).open
            &&& final(record).phase is Settled
            &&& final(record).counterpart == Some(taker)
            &&& final(record).maker == old(record).maker
            &&& final(record).wf()
        },
        // the reward mint's supply grows by exactly what the buyer received
        *final(reward_supply) - *old(reward_supply) == *final(taker_rewards) - *old(taker_rewards),
        // conservation of the listed asset between custody and the buyer
        final(custody).balance + *final(taker_item) == old(custody).balance + *old(taker_item),
{
    // 1. the derived authority must still match the presented vault
    let ctag = custody_tag_exec();
    let mut cids: Vec<Vec<u8>> = Vec::new();
    cids.push(id_bytes(record.id));
    proof {
        assert(cids.deep_view() =~~= seq![spec_id_bytes(record.id)]);
    }
    match verify_authority(&ctag, &cids, record.custody_bump, custody.authority) {
        Ok(()) => {}
        Err(e) => {
            return Err(e);
        }
    }
    // 2. the phase must permit the settled path
    if !matches!(record.phase, Phase::Open) {
        return Err(CoreError::InvalidPhase);
    }
    // 3. fee split over the price, checked
    let split = match fee_split(record.receive_amount, record.fee_rate) {
        Ok(s) => s,
        Err(e) => {
            return Err(e);
        }
    };
    // 4. both sources must cover their legs
    if custody.balance != record.deposit_amount {
        return Err(CoreError::InsufficientFunds);
    }
    if *taker_native < record.receive_amount {
        return Err(CoreError::InsufficientFunds);
    }
    // 5. every credit must stay in 64 bits; nothing moves before all pass
    match treasury.checked_add(split.fee) {
        Some(_) => {}
        None => {
            return Err(CoreError::ArithmeticError);
        }
    }
    let maker_plus_net = match maker_native.checked_add(split.net) {
        Some(v) => v,
        None => {
            return Err(CoreError::ArithmeticError);
        }
    };
    match maker_plus_net.checked_add(record.storage_deposit) {
        Some(_) => {}
        None => {
            return Err(CoreError::ArithmeticError);
        }
    }
    match taker_item.checked_add(record.deposit_amount) {
        Some(_) => {}
        None => {
            return Err(CoreError::ArithmeticError);
        }
    }
    match taker_rewards.checked_add(reward_amount) {
        Some(_) => {}
        None => {
            return Err(CoreError::ArithmeticError);
        }
    }
    match reward_supply.checked_add(reward_amount) {
        Some(_) => {}
        None => {
            return Err(CoreError::ArithmeticError);
        }
    }
    // 6. commit every leg, then close the vault and flip the phase
    send_sol(record.receive_amount, record.fee_rate, taker_native, maker_native, treasury);
    send_nft(custody, taker_item);
    *taker_rewards = *taker_rewards + reward_amount;
    *reward_supply = *reward_supply + reward_amount;
    let storage_refund = record.storage_deposit;
    match close_mint_vault(custody, storage_refund, maker_native) {
        Ok(()) => {}
        Err(e) => {
            proof {
                assert(false);
            }
            return Err(e);
        }
    }
    record.phase = Phase::Settled;
    record.counterpart = Some(taker);
    Ok(
        SettlementReceipt {
            fee: split.fee,
            net: split.net,
            released: record.deposit_amount,
            residual: 0,
            storage_refund,
        },
    )
}

/// The cancelled path of a listing, maker-only: the listed item returns to
/// the maker, the vault is closed with the storage deposit refunded to the
/// maker, and the listing becomes `Cancelled`. On any error nothing moves.
pub fn delist(
    record: &mut Record,
    custody: &mut CustodyAccount,
    caller: u64,
    maker_item: &mut u64,
    maker_native: &mut u64,
) -> (r: Result<(), CoreError>)
    requires
        old(record).wf(),
    ensures
        r is Ok <==> {
            &&& take_auth_ok(*old(record), *old(custody))
            &&& caller == old(record).maker
            &&& refund_allowed(old(record).phase)
            &&& *old(maker_item) + old(custody).balance <= u64::MAX
            &&& *old(maker_native) + old(record).storage_deposit <= u64::MAX
        },
        r == Err::<(), CoreError>(CoreError::AuthorityMismatch) <==> !(take_auth_ok(
            *old(record),
            *old(custody),
        ) && caller == old(record).maker),
        r == Err::<(), CoreError>(CoreError::InvalidPhase) <==> (take_auth_ok(
            *old(record),
            *old(custody),
        ) && caller == old(record).maker && !refund_allowed(old(record).phase)),
        r == Err::<(), CoreError>(CoreError::ArithmeticError) <==> (take_auth_ok(
            *old(record),
            *old(custody),
        ) && caller == old(record).maker && refund_allowed(old(record).phase) && (*old(maker_item)
            + old(custody).balance > u64::MAX || *old(maker_native) + old(record).storage_deposit
            > u64::MAX)),
        r is Err ==> {
            &&& *final(record) == *old(record)
            &&& *final(custody) == *old(custody)
            &&& *final(maker_item) == *old(maker_item)
            &&& *final(maker_native) == *old(maker_native)
        },
        r is Ok ==> {
            &&& *final(maker_item) == *old(maker_item) + old(custody).balance
            &&& *final(maker_native) == *old(maker_native) + old(record).storage_deposit
            &&& final(custody).balance == 0
            &&& !final(custody).open
            &&& final(record).phase is Cancelled
            &&& final(record).maker == old(record).maker
            &&& final(record).wf()
        },
        final(custody).balance + *final(maker_item) == old(custody).balance + *old(maker_item),
{
    // 1. the derived authority must still match the presented vault
    let ctag = custody_tag_exec();
    let mut cids: Vec<Vec<u8>> = Vec::new();
    cids.push(id_bytes(record.id));
    proof {
        assert(cids.deep_view() =~~= seq![spec_id_bytes(record.id)]);
    }
    match verify_authority(&ctag, &cids, record.custody_bump, custody.authority) {
        Ok(()) => {}
        Err(e) => {
            return Err(e);
        }
    }
    // 2. only the maker may delist
    if caller != record.maker {
        return Err(CoreError::AuthorityMismatch);
    }
    // 3. the phase must permit the cancelled path
    if !matches!(record.phase, Phase::Open) {
        return Err(CoreError::InvalidPhase);
    }
    // 4. every credit must stay in 64 bits; nothing moves before all pass
    match maker_item.checked_add(custody.balance) {
        Some(_) => {}
        None => {
            return Err(CoreError::ArithmeticError);
        }
    }
    match maker_native.checked_add(record.storage_deposit) {
        Some(_) => {}
        None => {
            return Err(CoreError::ArithmeticError);
        }
    }
    // 5. return the item, close the vault, flip the phase
    withdraw_nft(custody, maker_item);
    let storage_refund = record.storage_deposit;
    match close_mint_vault(custody, storage_refund, maker_native) {
        Ok(()) => {}
        Err(e) => {
            proof {
                assert(false);
            }
            return Err(e);
        }
    }
    record.phase = Phase::Cancelled;
    Ok(())
}

} // verus!
