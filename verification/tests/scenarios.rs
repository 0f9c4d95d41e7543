use custody::amm;
use custody::errors::CoreError;
use custody::marketplace;
use custody::record::Phase;
use custody::authority::{derive_authority, id_bytes};
use custody::record::{custody_tag_exec, record_tag_exec, CustodyAccount, Record};
use custody::settle::{make, refund, take};
use custody::staking;
use custody::staking::StakeError;
use custody::vault;

const MAKER: u64 = 10;
const TAKER: u64 = 20;
const ASSET_A: u64 = 1;
const ASSET_B: u64 = 2;

#[test]
fn make_opens_funded_custody() {
    let mut maker_a = 5000u64;
    let mut maker_native = 100u64;
    let (record, custody) = make(
        MAKER, 1, ASSET_A, ASSET_B, 1000, 500, 0, 10, &mut maker_a, &mut maker_native,
    )
    .unwrap();
    assert_eq!(custody.balance, 1000);
    assert_eq!(record.phase, Phase::Open);
    assert!(custody.open);
    assert_eq!(maker_a, 4000);
    assert_eq!(maker_native, 90);
    assert_eq!(record.maker, MAKER);
    assert_eq!(custody.record_id, record.id);
}

#[test]
fn make_insufficient_deposit_changes_nothing() {
    let mut maker_a = 500u64;
    let mut maker_native = 100u64;
    let r = make(
        MAKER, 1, ASSET_A, ASSET_B, 1000, 500, 0, 10, &mut maker_a, &mut maker_native,
    );
    assert_eq!(r.unwrap_err(), CoreError::InsufficientFunds);
    assert_eq!((maker_a, maker_native), (500, 100));
}

#[test]
fn scenario_take_settles() {
    // maker deposits 1000 units asking 500 back; the taker settles
    let mut maker_a = 1000u64;
    let mut maker_b = 0u64;
    let mut maker_native = 50u64;
    let mut taker_a = 0u64;
    let mut taker_b = 800u64;
    let mut treasury = 0u64;

    let (mut record, mut custody) = make(
        MAKER, 1, ASSET_A, ASSET_B, 1000, 500, 0, 10, &mut maker_a, &mut maker_native,
    )
    .unwrap();
    assert_eq!(maker_native, 40);

    let receipt = take(
        &mut record,
        &mut custody,
        TAKER,
        &mut taker_b,
        &mut taker_a,
        &mut maker_b,
        &mut maker_a,
        &mut maker_native,
        &mut treasury,
    )
    .unwrap();

    // with a zero fee rate the maker receives the full 500
    assert_eq!(receipt.fee, 0);
    assert_eq!(receipt.net, 500);
    assert_eq!(receipt.released, 1000);
    assert_eq!(receipt.residual, 0);
    assert_eq!(receipt.storage_refund, 10);
    assert_eq!(maker_b, 500);
    assert_eq!(taker_a, 1000);
    assert_eq!(taker_b, 300);
    assert_eq!(treasury, 0);
    // custody closed, storage deposit back with the maker
    assert_eq!(custody.balance, 0);
    assert!(!custody.open);
    assert_eq!(maker_native, 50);
    assert_eq!(record.phase, Phase::Settled);
    assert_eq!(record.counterpart, Some(TAKER));
}

#[test]
fn take_charges_fee_to_treasury() {
    let mut maker_a = 1000u64;
    let mut maker_b = 0u64;
    let mut maker_native = 50u64;
    let mut taker_a = 0u64;
    let mut taker_b = 10000u64;
    let mut treasury = 0u64;

    let (mut record, mut custody) = make(
        MAKER, 1, ASSET_A, ASSET_B, 1000, 10000, 250, 10, &mut maker_a, &mut maker_native,
    )
    .unwrap();
    let receipt = take(
        &mut record,
        &mut custody,
        TAKER,
        &mut taker_b,
        &mut taker_a,
        &mut maker_b,
        &mut maker_a,
        &mut maker_native,
        &mut treasury,
    )
    .unwrap();
    assert_eq!(receipt.fee, 250);
    assert_eq!(receipt.net, 9750);
    assert_eq!(treasury, 250);
    assert_eq!(maker_b, 9750);
}

#[test]
fn scenario_take_on_settled_record_fails() {
    let mut maker_a = 1000u64;
    let mut maker_b = 0u64;
    let mut maker_native = 50u64;
    let mut taker_a = 0u64;
    let mut taker_b = 800u64;
    let mut treasury = 0u64;

    let (mut record, mut custody) = make(
        MAKER, 1, ASSET_A, ASSET_B, 1000, 500, 0, 10, &mut maker_a, &mut maker_native,
    )
    .unwrap();
    take(
        &mut record,
        &mut custody,
        TAKER,
        &mut taker_b,
        &mut taker_a,
        &mut maker_b,
        &mut maker_a,
        &mut maker_native,
        &mut treasury,
    )
    .unwrap();

    let before = (
        maker_a,
        maker_b,
        maker_native,
        taker_a,
        taker_b,
        treasury,
        custody.balance,
    );
    let r = take(
        &mut record,
        &mut custody,
        TAKER,
        &mut taker_b,
        &mut taker_a,
        &mut maker_b,
        &mut maker_a,
        &mut maker_native,
        &mut treasury,
    );
    assert_eq!(r.unwrap_err(), CoreError::InvalidPhase);
    let after = (
        maker_a,
        maker_b,
        maker_native,
        taker_a,
        taker_b,
        treasury,
        custody.balance,
    );
    assert_eq!(before, after);
    assert_eq!(record.phase, Phase::Settled);
}

#[test]
fn exactly_one_settlement_path_succeeds() {
    // take first: a later refund must fail with the phase error
    let mut maker_a = 1000u64;
    let mut maker_b = 0u64;
    let mut maker_native = 50u64;
    let mut taker_a = 0u64;
    let mut taker_b = 800u64;
    let mut treasury = 0u64;
    let (mut record, mut custody) = make(
        MAKER, 1, ASSET_A, ASSET_B, 1000, 500, 0, 10, &mut maker_a, &mut maker_native,
    )
    .unwrap();
    take(
        &mut record,
        &mut custody,
        TAKER,
        &mut taker_b,
        &mut taker_a,
        &mut maker_b,
        &mut maker_a,
        &mut maker_native,
        &mut treasury,
    )
    .unwrap();
    assert_eq!(
        refund(&mut record, &mut custody, MAKER, &mut maker_a, &mut maker_native).unwrap_err(),
        CoreError::InvalidPhase
    );

    // refund first: a later take must fail with the phase error
    let mut maker_a = 1000u64;
    let mut maker_native = 50u64;
    let (mut record, mut custody) = make(
        MAKER, 2, ASSET_A, ASSET_B, 1000, 500, 0, 10, &mut maker_a, &mut maker_native,
    )
    .unwrap();
    refund(&mut record, &mut custody, MAKER, &mut maker_a, &mut maker_native).unwrap();
    assert_eq!(record.phase, Phase::Cancelled);
    let r = take(
        &mut record,
        &mut custody,
        TAKER,
        &mut taker_b,
        &mut taker_a,
        &mut maker_b,
        &mut maker_a,
        &mut maker_native,
        &mut treasury,
    );
    assert_eq!(r.unwrap_err(), CoreError::InvalidPhase);
}

#[test]
fn make_refund_round_trip_restores_maker() {
    let mut maker_a = 4321u64;
    let mut maker_native = 999u64;
    let (mut record, mut custody) = make(
        MAKER, 1, ASSET_A, ASSET_B, 1200, 500, 25, 17, &mut maker_a, &mut maker_native,
    )
    .unwrap();
    assert_eq!((maker_a, maker_native), (4321 - 1200, 999 - 17));
    refund(&mut record, &mut custody, MAKER, &mut maker_a, &mut maker_native).unwrap();
    assert_eq!((maker_a, maker_native), (4321, 999));
    assert_eq!(custody.balance, 0);
    assert!(!custody.open);
}

#[test]
fn refund_is_maker_only() {
    let mut maker_a = 2000u64;
    let mut maker_native = 100u64;
    let (mut record, mut custody) = make(
        MAKER, 1, ASSET_A, ASSET_B, 1000, 500, 0, 10, &mut maker_a, &mut maker_native,
    )
    .unwrap();
    assert_eq!(
        refund(&mut record, &mut custody, TAKER, &mut maker_a, &mut maker_native).unwrap_err(),
        CoreError::AuthorityMismatch
    );
    assert_eq!(record.phase, Phase::Open);
}

#[test]
fn take_rejects_foreign_custody_account() {
    let mut maker_a = 2000u64;
    let mut maker_b = 0u64;
    let mut maker_native = 100u64;
    let mut taker_a = 0u64;
    let mut taker_b = 800u64;
    let mut treasury = 0u64;
    let (mut record, mut custody) = make(
        MAKER, 1, ASSET_A, ASSET_B, 1000, 500, 0, 10, &mut maker_a, &mut maker_native,
    )
    .unwrap();
    // a custody account whose authority the record's seed does not reproduce
    custody.authority = custody.authority.wrapping_add(2);
    let r = take(
        &mut record,
        &mut custody,
        TAKER,
        &mut taker_b,
        &mut taker_a,
        &mut maker_b,
        &mut maker_a,
        &mut maker_native,
        &mut treasury,
    );
    assert_eq!(r.unwrap_err(), CoreError::AuthorityMismatch);
    assert_eq!(custody.balance, 1000);
    assert_eq!(record.phase, Phase::Open);
}

#[test]
fn take_insufficient_payment_changes_nothing() {
    let mut maker_a = 2000u64;
    let mut maker_b = 0u64;
    let mut maker_native = 100u64;
    let mut taker_a = 0u64;
    let mut taker_b = 499u64;
    let mut treasury = 0u64;
    let (mut record, mut custody) = make(
        MAKER, 1, ASSET_A, ASSET_B, 1000, 500, 0, 10, &mut maker_a, &mut maker_native,
    )
    .unwrap();
    let r = take(
        &mut record,
        &mut custody,
        TAKER,
        &mut taker_b,
        &mut taker_a,
        &mut maker_b,
        &mut maker_a,
        &mut maker_native,
        &mut treasury,
    );
    assert_eq!(r.unwrap_err(), CoreError::InsufficientFunds);
    assert_eq!(taker_b, 499);
    assert_eq!(custody.balance, 1000);
    assert_eq!(record.phase, Phase::Open);
}

#[test]
fn scenario_purchase_splits_price() {
    // listing priced 10000 at 250 basis points: treasury 250, maker 9750
    let mut maker_item = 1u64;
    let mut maker_native = 50u64;
    let mut taker_native = 12000u64;
    let mut taker_item = 0u64;
    let mut taker_rewards = 0u64;
    let mut treasury = 0u64;
    let mut reward_supply = 0u64;

    let market = marketplace::initialize(3, b"bazaar".to_vec(), 250);
    let (mut record, mut custody) = marketplace::list(
        &market,
        MAKER,
        5,
        10000,
        7,
        &mut maker_item,
        &mut maker_native,
    )
    .unwrap();
    assert_eq!(custody.balance, 1);
    assert_eq!(maker_item, 0);
    assert_eq!(maker_native, 43);

    let receipt = marketplace::purchase(
        &mut record,
        &mut custody,
        TAKER,
        &mut taker_native,
        &mut taker_item,
        &mut taker_rewards,
        &mut maker_native,
        &mut treasury,
        &mut reward_supply,
        3,
    )
    .unwrap();
    assert_eq!(receipt.fee, 250);
    assert_eq!(receipt.net, 9750);
    assert_eq!(treasury, 250);
    assert_eq!(maker_native, 43 + 9750 + 7);
    assert_eq!(taker_native, 2000);
    assert_eq!(taker_item, 1);
    assert_eq!(taker_rewards, 3);
    assert_eq!(reward_supply, 3);
    assert_eq!(custody.balance, 0);
    assert!(!custody.open);
    assert_eq!(record.phase, Phase::Settled);
}

#[test]
fn delist_returns_item_and_deposit() {
    let mut maker_item = 1u64;
    let mut maker_native = 50u64;
    let market = marketplace::initialize(3, b"bazaar".to_vec(), 250);
    let (mut record, mut custody) = marketplace::list(
        &market,
        MAKER,
        5,
        10000,
        7,
        &mut maker_item,
        &mut maker_native,
    )
    .unwrap();
    marketplace::delist(
        &mut record,
        &mut custody,
        MAKER,
        &mut maker_item,
        &mut maker_native,
    )
    .unwrap();
    assert_eq!(maker_item, 1);
    assert_eq!(maker_native, 50);
    assert_eq!(record.phase, Phase::Cancelled);
    assert!(!custody.open);

    // the listing is spent: a purchase now fails with the phase error
    let mut taker_native = 12000u64;
    let mut taker_item = 0u64;
    let mut taker_rewards = 0u64;
    let mut treasury = 0u64;
    let mut reward_supply = 0u64;
    let r = marketplace::purchase(
        &mut record,
        &mut custody,
        TAKER,
        &mut taker_native,
        &mut taker_item,
        &mut taker_rewards,
        &mut maker_native,
        &mut treasury,
        &mut reward_supply,
        0,
    );
    assert_eq!(r.unwrap_err(), CoreError::InvalidPhase);
}

#[test]
fn scenario_staking_guards() {
    let config = staking::initialize_config(5, 2, 100);
    let mut user = staking::initialize_user(MAKER);

    let first = staking::stake(&config, &mut user, 70, 1000).unwrap();
    staking::stake(&config, &mut user, 71, 1000).unwrap();
    assert_eq!(user.amount_staked, 2);

    // the (max_stake + 1)-th stake is refused, tally untouched
    assert_eq!(
        staking::stake(&config, &mut user, 72, 1000).unwrap_err(),
        StakeError::MaxStakeReached
    );
    assert_eq!(user.amount_staked, 2);

    // unstaking before the freeze period elapses is refused
    assert_eq!(
        staking::unstake(&config, &mut user, &first, 1099).unwrap_err(),
        StakeError::FreezePeriodNotPassed
    );
    assert_eq!(user.amount_staked, 2);
    assert_eq!(user.points, 0);

    // at exactly staked_at + freeze_period it goes through
    staking::unstake(&config, &mut user, &first, 1100).unwrap();
    assert_eq!(user.amount_staked, 1);
    assert_eq!(user.points, 5);
}

#[test]
fn initialize_config_persists_policy() {
    let config = staking::initialize_config(5, 2, 100);
    assert_eq!(config.points_per_stake, 5);
    assert_eq!(config.max_stake, 2);
    assert_eq!(config.freeze_period, 100);
}

#[test]
fn vault_deposit_withdraw_close() {
    let mut owner_native = 1000u64;
    let (state, mut vault_balance) = vault::initialize(MAKER, 20, &mut owner_native).unwrap();
    assert_eq!(owner_native, 980);
    assert_eq!(vault_balance, 0);

    vault::deposit(&state, 300, &mut owner_native, &mut vault_balance).unwrap();
    assert_eq!((owner_native, vault_balance), (680, 300));

    // only the owner can withdraw
    assert_eq!(
        vault::withdraw(&state, TAKER, 100, &mut owner_native, &mut vault_balance).unwrap_err(),
        CoreError::AuthorityMismatch
    );
    vault::withdraw(&state, MAKER, 100, &mut owner_native, &mut vault_balance).unwrap();
    assert_eq!((owner_native, vault_balance), (780, 200));

    // withdrawing more than the vault holds is refused
    assert_eq!(
        vault::withdraw(&state, MAKER, 999, &mut owner_native, &mut vault_balance).unwrap_err(),
        CoreError::InsufficientFunds
    );

    // close drains the rest and refunds the storage deposit
    vault::close(&state, MAKER, &mut owner_native, &mut vault_balance).unwrap();
    assert_eq!((owner_native, vault_balance), (1000, 0));
}

#[test]
fn amm_initialize_and_deposit() {
    let (config, _lp_mint) = amm::initialize(9, 30, Some(MAKER), ASSET_A, ASSET_B, );
    assert_eq!(config.fee, 30);
    assert!(!config.locked);

    let mut user_x = 500u64;
    let mut user_y = 400u64;
    let mut pool_x = 0u64;
    let mut pool_y = 0u64;
    let mut user_lp = 0u64;
    let mut lp_supply = 0u64;
    amm::deposit(
        &config,
        100,
        200,
        150,
        &mut user_x,
        &mut user_y,
        &mut pool_x,
        &mut pool_y,
        &mut user_lp,
        &mut lp_supply,
    )
    .unwrap();
    assert_eq!((user_x, user_y), (300, 250));
    assert_eq!((pool_x, pool_y), (200, 150));
    assert_eq!((user_lp, lp_supply), (100, 100));

    // short funds are refused with nothing moved
    let r = amm::deposit(
        &config,
        100,
        1000,
        1,
        &mut user_x,
        &mut user_y,
        &mut pool_x,
        &mut pool_y,
        &mut user_lp,
        &mut lp_supply,
    );
    assert_eq!(r.unwrap_err(), CoreError::InsufficientFunds);
    assert_eq!((user_x, pool_x), (300, 200));
}

#[test]
fn amm_locked_pool_rejects_deposit() {
    let (mut config, _) = amm::initialize(9, 30, None, ASSET_A, ASSET_B);
    config.locked = true;
    let mut user_x = 500u64;
    let mut user_y = 400u64;
    let mut pool_x = 0u64;
    let mut pool_y = 0u64;
    let mut user_lp = 0u64;
    let mut lp_supply = 0u64;
    let r = amm::deposit(
        &config,
        100,
        200,
        150,
        &mut user_x,
        &mut user_y,
        &mut pool_x,
        &mut pool_y,
        &mut user_lp,
        &mut lp_supply,
    );
    assert_eq!(r.unwrap_err(), CoreError::InvalidPhase);
    assert_eq!(user_x, 500);
}

#[test]
fn uninitialized_record_rejects_settlement() {
    // assemble a record that was never opened, with honest derivations
    let tag = record_tag_exec();
    let ids = vec![id_bytes(MAKER), id_bytes(1)];
    let (id, bump) = derive_authority(&tag, &ids);
    let ctag = custody_tag_exec();
    let cids = vec![id_bytes(id)];
    let (authority, custody_bump) = derive_authority(&ctag, &cids);
    let mut record = Record {
        id,
        maker: MAKER,
        counterpart: None,
        offered_asset: ASSET_A,
        wanted_asset: ASSET_B,
        deposit_amount: 10,
        receive_amount: 10,
        fee_rate: 0,
        phase: Phase::Uninitialized,
        seed: 1,
        bump,
        custody_bump,
        storage_deposit: 0,
    };
    let mut custody = CustodyAccount {
        asset: ASSET_A,
        balance: 10,
        record_id: id,
        authority,
        bump: custody_bump,
        open: true,
    };

    let mut maker_a = 0u64;
    let mut maker_b = 0u64;
    let mut maker_native = 0u64;
    let mut taker_a = 0u64;
    let mut taker_b = 100u64;
    let mut treasury = 0u64;
    let r = take(
        &mut record,
        &mut custody,
        TAKER,
        &mut taker_b,
        &mut taker_a,
        &mut maker_b,
        &mut maker_a,
        &mut maker_native,
        &mut treasury,
    );
    assert_eq!(r.unwrap_err(), CoreError::InvalidPhase);
    assert_eq!(
        refund(&mut record, &mut custody, MAKER, &mut maker_a, &mut maker_native).unwrap_err(),
        CoreError::InvalidPhase
    );
    assert_eq!(record.phase, Phase::Uninitialized);
    assert_eq!(custody.balance, 10);
}

#[test]
fn take_sweeps_residual_to_maker() {
    let mut maker_a = 1000u64;
    let mut maker_b = 0u64;
    let mut maker_native = 50u64;
    let mut taker_a = 0u64;
    let mut taker_b = 800u64;
    let mut treasury = 0u64;
    let (mut record, mut custody) = make(
        MAKER, 1, ASSET_A, ASSET_B, 1000, 500, 0, 10, &mut maker_a, &mut maker_native,
    )
    .unwrap();
    // a stray credit lands in custody after the record opened
    custody.balance += 5;
    let receipt = take(
        &mut record,
        &mut custody,
        TAKER,
        &mut taker_b,
        &mut taker_a,
        &mut maker_b,
        &mut maker_a,
        &mut maker_native,
        &mut treasury,
    )
    .unwrap();
    // the recorded amount goes to the taker, the residual to the maker,
    // and custody is left at exactly zero
    assert_eq!(receipt.released, 1000);
    assert_eq!(receipt.residual, 5);
    assert_eq!(taker_a, 1000);
    assert_eq!(maker_a, 5);
    assert_eq!(custody.balance, 0);
}

#[test]
fn send_sol_splits_price_exactly() {
    let mut taker_native = 10000u64;
    let mut maker_native = 0u64;
    let mut treasury = 0u64;
    marketplace::send_sol(10000, 250, &mut taker_native, &mut maker_native, &mut treasury);
    assert_eq!((taker_native, maker_native, treasury), (0, 9750, 250));
}

#[test]
fn nft_legs_drain_custody_exactly() {
    let mut custody = CustodyAccount {
        asset: 5,
        balance: 3,
        record_id: 1,
        authority: 2,
        bump: 0,
        open: true,
    };
    let mut taker_item = 1u64;
    marketplace::send_nft(&mut custody, &mut taker_item);
    assert_eq!(custody.balance, 0);
    assert_eq!(taker_item, 4);

    custody.balance = 2;
    let mut maker_item = 0u64;
    marketplace::withdraw_nft(&mut custody, &mut maker_item);
    assert_eq!(custody.balance, 0);
    assert_eq!(maker_item, 2);

    // drained, the vault closes and the deposit comes back
    let mut maker_native = 10u64;
    marketplace::close_mint_vault(&mut custody, 7, &mut maker_native).unwrap();
    assert!(!custody.open);
    assert_eq!(maker_native, 17);
}

#[test]
fn close_mint_vault_refuses_funded_vault() {
    let mut custody = CustodyAccount {
        asset: 5,
        balance: 1,
        record_id: 1,
        authority: 2,
        bump: 0,
        open: true,
    };
    let mut maker_native = 0u64;
    assert_eq!(
        marketplace::close_mint_vault(&mut custody, 7, &mut maker_native).unwrap_err(),
        CoreError::NonZeroBalanceOnClose
    );
    assert!(custody.open);
    assert_eq!(maker_native, 0);
}

#[test]
fn unstake_with_unreachable_unlock_time_is_frozen() {
    let config = staking::initialize_config(5, 2, u32::MAX);
    let mut user = staking::initialize_user(MAKER);
    let staked = staking::stake(&config, &mut user, 70, u64::MAX - 10).unwrap();
    // staked_at + freeze_period lies beyond every representable time
    assert_eq!(
        staking::unstake(&config, &mut user, &staked, u64::MAX).unwrap_err(),
        StakeError::FreezePeriodNotPassed
    );
}

#[test]
fn vault_initialize_insufficient_storage() {
    let mut owner_native = 5u64;
    let r = vault::initialize(MAKER, 20, &mut owner_native);
    assert_eq!(r.unwrap_err(), CoreError::InsufficientFunds);
    assert_eq!(owner_native, 5);
}
