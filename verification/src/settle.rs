use vstd::prelude::*;
use crate::authority::{canonical, derive_authority, derives, id_bytes, spec_id_bytes, verify_authority};
use crate::errors::CoreError;
use crate::fees::{fee_split, spec_fee, spec_net, BPS_DENOMINATOR};
use crate::record::{
    custody_matches, custody_tag, custody_tag_exec, record_tag, record_tag_exec, refund_allowed,
    settle_allowed, CustodyAccount, Phase, Record,
};

verus! {

/// What one settlement moved, per leg. Observability only: the durable
/// effect is the record's phase change.
#[derive(Clone, Copy, Debug, PartialEq, Eq, Structural)]
pub struct SettlementReceipt {
    /// Fee paid by the counterpart to the treasury.
    pub fee: u64,
    /// Net principal paid by the counterpart to the maker.
    pub net: u64,
    /// Custodied amount released to the counterpart.
    pub released: u64,
    /// Residual held in custody beyond the recorded amount, swept to the
    /// maker; never left behind.
    pub residual: u64,
    /// Storage deposit refunded to the maker.
    pub storage_refund: u64,
}

/// Lifecycle manager: closes a custody account once custody ends, refunding
/// the storage deposit to `refund_native`. Closing an account that still
/// holds funds is a programming error and fails loudly with
/// `NonZeroBalanceOnClose` — funds are never silently forfeited.
pub fn close(custody: &mut CustodyAccount, storage_deposit: u64, refund_native: &mut u64) -> (r:
    Result<(), CoreError>)
    ensures
        r is Ok <==> (old(custody).balance == 0 && *old(refund_native) + storage_deposit
            <= u64::MAX),
        r == Err::<(), CoreError>(CoreError::NonZeroBalanceOnClose) <==> old(custody).balance != 0,
        r == Err::<(), CoreError>(CoreError::ArithmeticError) <==> (old(custody).balance == 0 && *old(
            refund_native,
        ) + storage_deposit > u64::MAX),
        r is Ok ==> {
            &&& !final(custody).open
            &&& final(custody).balance == 0
            &&& final(custody).asset == old(custody).asset
            &&& final(custody).record_id == old(custody).record_id
            &&& final(custody).authority == old(custody).authority
            &&& final(custody).bump == old(custody).bump
            &&& *final(refund_native) == *old(refund_native) + storage_deposit
        },
        r is Err ==> *final(custody) == *old(custody) && *final(refund_native) == *old(
            refund_native,
        ),
{
    if custody.balance != 0 {
        return Err(CoreError::NonZeroBalanceOnClose);
    }
    match refund_native.checked_add(storage_deposit) {
        Some(n) => {
            *refund_native = n;
            custody.open = false;
            Ok(())
        }
        None => Err(CoreError::ArithmeticError),
    }
}

/// Creates an `Open` record and its funded custody account: the only
/// operation that moves funds into custody.
///
/// Immediately after a successful call the custody balance equals the
/// deposit amount and the record's phase is `Open` — stated below, so it
/// holds of every valid `make`. The maker pays the deposit out of
/// `maker_offered` and the storage cost out of `maker_native`; on any
/// failure neither balance moves.
#[verifier::rlimit(50)]
pub fn make(
    maker: u64,
    seed: u64,
    offered_asset: u64,
    wanted_asset: u64,
    deposit_amount: u64,
    receive_amount: u64,
    fee_rate: u16,
    storage_cost: u64,
    maker_offered: &mut u64,
    maker_native: &mut u64,
) -> (r: Result<(Record, CustodyAccount), CoreError>)
    requires
        deposit_amount > 0,
        receive_amount > 0,
        fee_rate <= BPS_DENOMINATOR,
    ensures
        r is Ok <==> (deposit_amount <= *old(maker_offered) && storage_cost <= *old(maker_native)),
        r is Err ==> r == Err::<(Record, CustodyAccount), CoreError>(CoreError::InsufficientFunds)
            && *final(maker_offered) == *old(maker_offered) && *final(maker_native) == *old(
            maker_native,
        ),
        r matches Ok(rc) ==> {
            &&& rc.0.wf()
            &&& custody_matches(rc.0, rc.1)
            &&& canonical(
                record_tag(),
                seq![spec_id_bytes(maker), spec_id_bytes(seed)],
                rc.0.id,
                rc.0.bump,
            )
            &&& canonical(custody_tag(), seq![spec_id_bytes(rc.0.id)], rc.1.authority, rc.1.bump)
            &&& rc.0.phase is Open
            &&& rc.1.balance == deposit_amount
            &&& rc.1.open
            &&& rc.0.maker == maker
            &&& rc.0.seed == seed
            &&& rc.0.counterpart is None
            &&& rc.0.offered_asset == offered_asset
            &&& rc.0.wanted_asset == wanted_asset
            &&& rc.0.deposit_amount == deposit_amount
            &&& rc.0.receive_amount == receive_amount
            &&& rc.0.fee_rate == fee_rate
            &&& rc.0.storage_deposit == storage_cost
            &&& *final(maker_offered) == *old(maker_offered) - deposit_amount
            &&& *final(maker_native) == *old(maker_native) - storage_cost
        },
{
    if *maker_offered < deposit_amount || *maker_native < storage_cost {
        return Err(CoreError::InsufficientFunds);
    }
    let tag = record_tag_exec();
    let mut ids: Vec<Vec<u8>> = Vec::new();
    ids.push(id_bytes(maker));
    ids.push(id_bytes(seed));
    proof {
        assert(ids.deep_view() =~~= seq![spec_id_bytes(maker), spec_id_bytes(seed)]);
    }
    let (record_id, record_bump) = derive_authority(&tag, &ids);

    let ctag = custody_tag_exec();
    let mut cids: Vec<Vec<u8>> = Vec::new();
    cids.push(id_bytes(record_id));
    proof {
        assert(cids.deep_view() =~~= seq![spec_id_bytes(record_id)]);
    }
    let (authority, custody_bump) = derive_authority(&ctag, &cids);

    *maker_offered = *maker_offered - deposit_amount;
    *maker_native = *maker_native - storage_cost;

    let record = Record {
        id: record_id,
        maker,
        counterpart: None,
        offered_asset,
        wanted_asset,
        deposit_amount,
        receive_amount,
        fee_rate,
        phase: Phase::Open,
        seed,
        bump: record_bump,
        custody_bump,
        storage_deposit: storage_cost,
    };
    let custody = CustodyAccount {
        asset: offered_asset,
        balance: deposit_amount,
        record_id,
        authority,
        bump: custody_bump,
        open: true,
    };
    Ok((record, custody))
}

/// Whether the persisted custody bump still reproduces the presented
/// custody account's authority. Re-checked at every settlement call.
pub open spec fn take_auth_ok(record: Record, custody: CustodyAccount) -> bool {
    derives(custody_tag(), seq![spec_id_bytes(record.id)], custody.authority, record.custody_bump)
}

/// Whether scaling the gross amount by the fee rate stays in 64 bits.
pub open spec fn take_fee_fits(record: Record) -> bool {
    record.receive_amount * record.fee_rate <= u64::MAX
}

/// Whether both sources can cover their legs: the custody account holds at
/// least what was recorded at `Open`, and the taker holds the full receive
/// amount.
pub open spec fn take_funds_ok(record: Record, custody: CustodyAccount, taker_wanted: u64) -> bool {
    custody.balance >= record.deposit_amount && taker_wanted >= record.receive_amount
}

/// Whether every credited balance stays in 64 bits.
pub open spec fn take_credits_fit(
    record: Record,
    custody: CustodyAccount,
    treasury: u64,
    maker_wanted: u64,
    taker_offered: u64,
    maker_offered: u64,
    maker_native: u64,
) -> bool {
    &&& treasury + spec_fee(record.receive_amount, record.fee_rate) <= u64::MAX
    &&& maker_wanted + spec_net(record.receive_amount, record.fee_rate) <= u64::MAX
    &&& taker_offered + record.deposit_amount <= u64::MAX
    &&& maker_offered + (custody.balance - record.deposit_amount) <= u64::MAX
    &&& maker_native + record.storage_deposit <= u64::MAX
}

/// The settled path: the taker supplies the receive amount, split into fee
/// (to the treasury) and net principal (to the maker); custody releases the
/// recorded deposit to the taker and sweeps any residual to the maker; the
/// custody account is closed with the storage deposit refunded to the maker
/// — not the taker — and the record becomes `Settled`.
///
/// Every check precedes every effect: on any error all eight mutable
/// arguments are exactly as they were, and the contract says which inputs
/// produce which error. Both assets are conserved across the parties.
#[verifier::rlimit(50)]
pub fn take(
    record: &mut Record,
    custody: &mut CustodyAccount,
    taker: u64,
    taker_wanted: &mut u64,
    taker_offered: &mut u64,
    maker_wanted: &mut u64,
    maker_offered: &mut u64,
    maker_native: &mut u64,
    treasury: &mut u64,
) -> (r: Result<SettlementReceipt, CoreError>)
    requires
        old(record).wf(),
    ensures
        r is Ok <==> {
            &&& take_auth_ok(*old(record), *old(custody))
            &&& settle_allowed(old(record).phase)
            &&& take_fee_fits(*old(record))
            &&& take_funds_ok(*old(record), *old(custody), *old(taker_wanted))
            &&& take_credits_fit(
                *old(record),
                *old(custody),
                *old(treasury),
                *old(maker_wanted),
                *old(taker_offered),
                *old(maker_offered),
                *old(maker_native),
            )
        },
        r == Err::<SettlementReceipt, CoreError>(CoreError::AuthorityMismatch) <==> !take_auth_ok(
            *old(record),
            *old(custody),
        ),
        r == Err::<SettlementReceipt, CoreError>(CoreError::InvalidPhase) <==> (take_auth_ok(
            *old(record),
            *old(custody),
        ) && !settle_allowed(old(record).phase)),
        r == Err::<SettlementReceipt, CoreError>(CoreError::InsufficientFunds) <==> (take_auth_ok(
            *old(record),
            *old(custody),
        ) && settle_allowed(old(record).phase) && take_fee_fits(*old(record)) && !take_funds_ok(
            *old(record),
            *old(custody),
            *old(taker_wanted),
        )),
        r == Err::<SettlementReceipt, CoreError>(CoreError::ArithmeticError) <==> (take_auth_ok(
            *old(record),
            *old(custody),
        ) && settle_allowed(old(record).phase) && (!take_fee_fits(*old(record)) || (take_funds_ok(
            *old(record),
            *old(custody),
            *old(taker_wanted),
        ) && !take_credits_fit(
            *old(record),
            *old(custody),
            *old(treasury),
            *old(maker_wanted),
            *old(taker_offered),
            *old(maker_offered),
            *old(maker_native),
        )))),
        r is Err ==> {
            &&& *final(record) == *old(record)
            &&& *final(custody) == *old(custody)
            &&& *final(taker_wanted) == *old(taker_wanted)
            &&& *final(taker_offered) == *old(taker_offered)
            &&& *final(maker_wanted) == *old(maker_wanted)
            &&& *final(maker_offered) == *old(maker_offered)
            &&& *final(maker_native) == *old(maker_native)
            &&& *final(treasury) == *old(treasury)
        },
        r matches Ok(receipt) ==> {
            let gross = old(record).receive_amount;
            let rate = old(record).fee_rate;
            &&& receipt.fee == spec_fee(gross, rate)
            &&& receipt.net == spec_net(gross, rate)
            &&& receipt.fee + receipt.net == gross
            &&& receipt.released == old(record).deposit_amount
            &&& receipt.residual == old(custody).balance - old(record).deposit_amount
            &&& receipt.storage_refund == old(record).storage_deposit
            &&& *final(taker_wanted) == *old(taker_wanted) - gross
            &&& *final(treasury) == *old(treasury) + receipt.fee
            &&& *final(maker_wanted) == *old(maker_wanted) + receipt.net
            &&& *final(taker_offered) == *old(taker_offered) + receipt.released
            &&& *final(maker_offered) == *old(maker_offered) + receipt.residual
            &&& *final(maker_native) == *old(maker_native) + receipt.storage_refund
            &&& final(custody).balance == 0
            &&& !final(custody).open
            &&& final(record).phase is Settled
            &&& final(record).counterpart == Some(taker)
            &&& final(record).id == old(record).id
            &&& final(record).maker == old(record).maker
            &&& final(record).deposit_amount == old(record).deposit_amount
            &&& final(record).receive_amount == old(record).receive_amount
            &&& final(record).fee_rate == old(record).fee_rate
            &&& final(record).storage_deposit == old(record).storage_deposit
            &&& final(record).wf()
        },
        // conservation of the wanted asset across taker, maker and treasury
        *final(taker_wanted) + *final(maker_wanted) + *final(treasury) == *old(taker_wanted)
            + *old(maker_wanted) + *old(treasury),
        // conservation of the offered asset across custody, taker and maker
        final(custody).balance + *final(taker_offered) + *final(maker_offered) == old(
            custody,
        ).balance + *old(taker_offered) + *old(maker_offered),
{
    // 1. the derived authority must still match the presented custody account
    let ctag = custody_tag_exec();
    let mut cids: Vec<Vec<u8>> = Vec::new();
    cids.push(id_bytes(record.id));
    proof {
        assert(cids.deep_view() =~~= seq![spec_id_bytes(record.id)]);
    }
    match verify_authority(&ctag, &cids, record.custody_bump, custody.authority) {
        Ok(()) => {}
        Err(e) => {
            return Err(e);
        }
    }
    // 2. the phase must permit the settled path
    if !matches!(record.phase, Phase::Open) {
        return Err(CoreError::InvalidPhase);
    }
    // 3. fee split over the gross amount, checked
    let split = match fee_split(record.receive_amount, record.fee_rate) {
        Ok(s) => s,
        Err(e) => {
            return Err(e);
        }
    };
    // 4. both sources must cover their legs
    if custody.balance < record.deposit_amount {
        return Err(CoreError::InsufficientFunds);
    }
    if *taker_wanted < record.receive_amount {
        return Err(CoreError::InsufficientFunds);
    }
    let residual = custody.balance - record.deposit_amount;
    // 5. every credit must stay in 64 bits; nothing moves before all pass
    let new_treasury = match treasury.checked_add(split.fee) {
        Some(v) => v,
        None => {
            return Err(CoreError::ArithmeticError);
        }
    };
    let new_maker_wanted = match maker_wanted.checked_add(split.net) {
        Some(v) => v,
        None => {
            return Err(CoreError::ArithmeticError);
        }
    };
    let new_taker_offered = match taker_offered.checked_add(record.deposit_amount) {
        Some(v) => v,
        None => {
            return Err(CoreError::ArithmeticError);
        }
    };
    let new_maker_offered = match maker_offered.checked_add(residual) {
        Some(v) => v,
        None => {
            return Err(CoreError::ArithmeticError);
        }
    };
    match maker_native.checked_add(record.storage_deposit) {
        Some(_) => {}
        None => {
            return Err(CoreError::ArithmeticError);
        }
    }
    // 6. commit every leg, then close custody and flip the phase
    *taker_wanted = *taker_wanted - record.receive_amount;
    *treasury = new_treasury;
    *maker_wanted = new_maker_wanted;
    *taker_offered = new_taker_offered;
    *maker_offered = new_maker_offered;
    custody.balance = 0;
    let storage_refund = record.storage_deposit;
    match close(custody, storage_refund, maker_native) {
        Ok(()) => {}
        Err(e) => {
            proof {
                assert(false);
            }
            return Err(e);
        }
    }
    record.phase = Phase::Settled;
    record.counterpart = Some(taker);
    Ok(
        SettlementReceipt {
            fee: split.fee,
            net: split.net,
            released: record.deposit_amount,
            residual,
            storage_refund,
        },
    )
}

/// Whether the balances credited by a refund stay in 64 bits.
pub open spec fn refund_credits_fit(
    record: Record,
    custody: CustodyAccount,
    maker_offered: u64,
    maker_native: u64,
) -> bool {
    &&& maker_offered + custody.balance <= u64::MAX
    &&& maker_native + record.storage_deposit <= u64::MAX
}

/// The cancelled path, maker-only: the full custody balance returns to the
/// maker, the custody account is closed with the storage deposit refunded
/// to the maker, and the record becomes `Cancelled`. A caller other than
/// the maker is rejected as an authority mismatch, since only the maker's
/// consent authorizes this transition. On any error nothing moves.
pub fn refund(
    record: &mut Record,
    custody: &mut CustodyAccount,
    caller: u64,
    maker_offered: &mut u64,
    maker_native: &mut u64,
) -> (r: Result<(), CoreError>)
    requires
        old(record).wf(),
    ensures
        r is Ok <==> {
            &&& take_auth_ok(*old(record), *old(custody))
            &&& caller == old(record).maker
            &&& refund_allowed(old(record).phase)
            &&& refund_credits_fit(
                *old(record),
                *old(custody),
                *old(maker_offered),
                *old(maker_native),
            )
        },
        r == Err::<(), CoreError>(CoreError::AuthorityMismatch) <==> !(take_auth_ok(
            *old(record),
            *old(custody),
        ) && caller == old(record).maker),
        r == Err::<(), CoreError>(CoreError::InvalidPhase) <==> (take_auth_ok(
            *old(record),
            *old(custody),
        ) && caller == old(record).maker && !refund_allowed(old(record).phase)),
        r == Err::<(), CoreError>(CoreError::ArithmeticError) <==> (take_auth_ok(
            *old(record),
            *old(custody),
        ) && caller == old(record).maker && refund_allowed(old(record).phase)
            && !refund_credits_fit(
            *old(record),
            *old(custody),
            *old(maker_offered),
            *old(maker_native),
        )),
        r is Err ==> {
            &&& *final(record) == *old(record)
            &&& *final(custody) == *old(custody)
            &&& *final(maker_offered) == *old(maker_offered)
            &&& *final(maker_native) == *old(maker_native)
        },
        r is Ok ==> {
            &&& *final(maker_offered) == *old(maker_offered) + old(custody).balance
            &&& *final(maker_native) == *old(maker_native) + old(record).storage_deposit
            &&& final(custody).balance == 0
            &&& !final(custody).open
            &&& final(record).phase is Cancelled
            &&& final(record).id == old(record).id
            &&& final(record).maker == old(record).maker
            &&& final(record).counterpart == old(record).counterpart
            &&& final(record).deposit_amount == old(record).deposit_amount
            &&& final(record).receive_amount == old(record).receive_amount
            &&& final(record).storage_deposit == old(record).storage_deposit
            &&& final(record).wf()
        },
        // conservation of the offered asset between custody and the maker
        final(custody).balance + *final(maker_offered) == old(custody).balance + *old(
            maker_offered,
        ),
{
    // 1. the derived authority must still match the presented custody account
    let ctag = custody_tag_exec();
    let mut cids: Vec<Vec<u8>> = Vec::new();
    cids.push(id_bytes(record.id));
    proof {
        assert(cids.deep_view() =~~= seq![spec_id_bytes(record.id)]);
    }
    match verify_authority(&ctag, &cids, record.custody_bump, custody.authority) {
        Ok(()) => {}
        Err(e) => {
            return Err(e);
        }
    }
    // 2. only the maker may cancel
    if caller != record.maker {
        return Err(CoreError::AuthorityMismatch);
    }
    // 3. the phase must permit the cancelled path
    if !matches!(record.phase, Phase::Open) {
        return Err(CoreError::InvalidPhase);
    }
    // 4. every credit must stay in 64 bits; nothing moves before all pass
    let new_maker_offered = match maker_offered.checked_add(custody.balance) {
        Some(v) => v,
        None => {
            return Err(CoreError::ArithmeticError);
        }
    };
    match maker_native.checked_add(record.storage_deposit) {
        Some(_) => {}
        None => {
            return Err(CoreError::ArithmeticError);
        }
    }
    // 5. drain custody back to the maker, close it, flip the phase
    *maker_offered = new_maker_offered;
    custody.balance = 0;
    let storage_refund = record.storage_deposit;
    match close(custody, storage_refund, maker_native) {
        Ok(()) => {}
        Err(e) => {
            proof {
                assert(false);
            }
            return Err(e);
        }
    }
    record.phase = Phase::Cancelled;
    Ok(())
}

/// Making an escrow and immediately refunding it returns the maker's
/// balances to exactly their pre-`make` values: the deposit comes back in
/// full, and the storage cost — the one environment-imposed charge — is
/// itself fully refunded. The hypotheses are precisely the effect equations
/// that `make` and `refund` ensure on their success paths.
pub proof fn lemma_make_refund_round_trip(
    offered0: u64,
    native0: u64,
    deposit_amount: u64,
    storage_cost: u64,
    offered1: u64,
    native1: u64,
    custody_balance: u64,
    storage_deposit: u64,
    offered2: u64,
    native2: u64,
)
    requires
        // make's success path: deposit and storage cost leave the maker...
        deposit_amount <= offered0,
        storage_cost <= native0,
        offered1 == offered0 - deposit_amount,
        native1 == native0 - storage_cost,
        // ...and are held, in full, by the custody account and the record
        custody_balance == deposit_amount,
        storage_deposit == storage_cost,
        // refund's success path: both come back to the maker
        offered2 == offered1 + custody_balance,
        native2 == native1 + storage_deposit,
    ensures
        offered2 == offered0,
        native2 == native0,
{
}

} // verus!
