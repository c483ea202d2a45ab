use mcar_vesting::{
    admin_initialize_presale_stake, admin_withdraw_sol, calculate_index_increase,
    calculate_pending_reflections, claim_reflections, claim_yield, deposit_reflection_funds,
    initialize, register_user, stake, unstake, AdminInitializePresaleStake, AdminWithdrawSol,
    ClaimReflections, ClaimYield, DepositReflectionFunds, GlobalConfig, Initialize, ProgramError,
    Pubkey, RegisterUser, Stake, Unstake, UserStake, REFLECTION_INDEX_SCALE, SECONDS_IN_DAY,
    SECONDS_IN_YEAR,
};

fn key(b: u8) -> Pubkey {
    Pubkey::new_from_array([b; 32])
}

const ADMIN: u8 = 1;
const MINT: u8 = 2;
const STAKED_VAULT: u8 = 3;
const REWARD_VAULT: u8 = 4;
const ALICE: u8 = 10;
const BOB: u8 = 11;
const T0: i64 = 1_700_000_000;

fn setup(rate: u16) -> GlobalConfig {
    let mut config = GlobalConfig::default();
    let ctx = Initialize {
        admin: key(ADMIN),
        token_mint: key(MINT),
        staked_vault: key(STAKED_VAULT),
        reward_vault: key(REWARD_VAULT),
        vault_authority_bump: 254,
        sol_treasury_bump: 253,
    };
    assert_eq!(initialize(&ctx, &mut config, rate), Ok(()));
    config
}

fn user(config: &GlobalConfig, who: u8, now: i64) -> UserStake {
    register_user(&RegisterUser { user: key(who) }, config, now)
}

fn stake_ctx(who: u8) -> Stake {
    Stake { user: key(who), staked_vault: key(STAKED_VAULT) }
}

fn unstake_ctx(who: u8) -> Unstake {
    Unstake { user: key(who), staked_vault: key(STAKED_VAULT) }
}

fn deposit_ctx() -> DepositReflectionFunds {
    DepositReflectionFunds { admin: key(ADMIN) }
}

fn claim_ctx(who: u8, treasury: u64) -> ClaimReflections {
    ClaimReflections { user: key(who), treasury_lamports: treasury }
}

#[test]
fn initialize_sets_up_once() {
    let config = setup(500);
    assert_eq!(config.admin, key(ADMIN));
    assert_eq!(config.token_mint, key(MINT));
    assert_eq!(config.staked_vault, key(STAKED_VAULT));
    assert_eq!(config.reward_vault, key(REWARD_VAULT));
    assert_eq!(config.vault_authority_bump, 254);
    assert_eq!(config.sol_treasury_bump, 253);
    assert_eq!(config.total_staked, 0);
    assert_eq!(config.reflection_index, 0);
    assert_eq!(config.yield_rate_bps, 500);
    let mut again = config;
    let ctx = Initialize {
        admin: key(BOB),
        token_mint: key(MINT),
        staked_vault: key(STAKED_VAULT),
        reward_vault: key(REWARD_VAULT),
        vault_authority_bump: 1,
        sol_treasury_bump: 1,
    };
    assert_eq!(initialize(&ctx, &mut again, 9), Err(ProgramError::AlreadyInitialized));
    assert_eq!(again, config);
}

#[test]
fn register_starts_caught_up() {
    let mut config = setup(500);
    config.reflection_index = 42;
    let record = user(&config, ALICE, T0);
    assert_eq!(record.owner, key(ALICE));
    assert_eq!(record.staked_amount, 0);
    assert_eq!(record.start_timestamp, 0);
    assert_eq!(record.last_claimed_index, 42);
    assert_eq!(record.unclaimed_yield, 0);
    assert_eq!(record.last_yield_claim_time, T0);
}

#[test]
fn stake_adds_principal_and_restarts_clocks() {
    let mut config = setup(1000);
    let mut record = user(&config, ALICE, T0);
    assert_eq!(stake(&stake_ctx(ALICE), &mut config, &mut record, 100, T0), Ok(()));
    assert_eq!(record.staked_amount, 100);
    assert_eq!(record.start_timestamp, T0);
    assert_eq!(config.total_staked, 100);
    let later = T0 + SECONDS_IN_YEAR as i64;
    assert_eq!(stake(&stake_ctx(ALICE), &mut config, &mut record, 50, later), Ok(()));
    assert_eq!(record.staked_amount, 150);
    assert_eq!(record.unclaimed_yield, 10);
    assert_eq!(record.start_timestamp, later);
    assert_eq!(record.last_yield_claim_time, later);
    assert_eq!(config.total_staked, 150);
    assert_eq!(record.calculate_unlocked_amount(later + SECONDS_IN_DAY).unwrap(), 15);
}

#[test]
fn stake_zero_amount_changes_nothing() {
    let mut config = setup(1000);
    let mut record = user(&config, ALICE, T0);
    stake(&stake_ctx(ALICE), &mut config, &mut record, 100, T0).unwrap();
    let (config_before, record_before) = (config, record);
    assert_eq!(
        stake(&stake_ctx(ALICE), &mut config, &mut record, 0, T0 + 99),
        Err(ProgramError::InvalidAmount)
    );
    assert_eq!(config, config_before);
    assert_eq!(record, record_before);
    assert_eq!(
        stake(&stake_ctx(BOB), &mut config, &mut record, 0, T0 + 99),
        Err(ProgramError::InvalidAmount)
    );
    assert_eq!(record, record_before);
}

#[test]
fn stake_checks_owner_vault_and_overflow() {
    let mut config = setup(1000);
    let mut record = user(&config, ALICE, T0);
    assert_eq!(
        stake(&stake_ctx(BOB), &mut config, &mut record, 5, T0),
        Err(ProgramError::Unauthorized)
    );
    let wrong_vault = Stake { user: key(ALICE), staked_vault: key(REWARD_VAULT) };
    assert_eq!(stake(&wrong_vault, &mut config, &mut record, 5, T0), Err(ProgramError::VaultMismatch));
    config.total_staked = u64::MAX - 1;
    let before = (config, record);
    assert_eq!(
        stake(&stake_ctx(ALICE), &mut config, &mut record, 5, T0),
        Err(ProgramError::CalculationOverflow)
    );
    assert_eq!((config, record), before);
}

#[test]
fn unstake_follows_the_schedule() {
    let mut config = setup(10_000);
    let mut record = user(&config, ALICE, T0);
    stake(&stake_ctx(ALICE), &mut config, &mut record, 100, T0).unwrap();
    let before = (config, record);
    assert_eq!(
        unstake(&unstake_ctx(ALICE), &mut config, &mut record, 11, T0 + SECONDS_IN_DAY),
        Err(ProgramError::AmountExceedsUnlocked)
    );
    assert_eq!((config, record), before);
    assert_eq!(
        unstake(&unstake_ctx(ALICE), &mut config, &mut record, 0, T0 + SECONDS_IN_DAY),
        Err(ProgramError::InvalidAmount)
    );
    assert_eq!(unstake(&unstake_ctx(ALICE), &mut config, &mut record, 10, T0 + SECONDS_IN_DAY), Ok(()));
    assert_eq!(record.staked_amount, 90);
    assert_eq!(record.start_timestamp, T0);
    assert_eq!(record.unclaimed_yield, 0);
    assert_eq!(record.last_yield_claim_time, T0 + SECONDS_IN_DAY);
    assert_eq!(config.total_staked, 90);
    assert_eq!(
        unstake(&unstake_ctx(ALICE), &mut config, &mut record, 90, T0 + 8 * SECONDS_IN_DAY),
        Ok(())
    );
    assert_eq!(record.staked_amount, 0);
    assert_eq!(record.start_timestamp, 0);
    // 90 units at 100% a year for seven days: 1.72..., rounded down.
    assert_eq!(record.unclaimed_yield, 1);
    assert_eq!(record.last_yield_claim_time, T0 + 8 * SECONDS_IN_DAY);
    assert_eq!(config.total_staked, 0);
}

#[test]
fn unstake_keeps_yield_earned_on_withdrawn_principal() {
    let mut config = setup(10_000);
    let mut record = user(&config, ALICE, T0);
    stake(&stake_ctx(ALICE), &mut config, &mut record, 100, T0).unwrap();
    let late = T0 + 8 * SECONDS_IN_DAY;
    assert_eq!(record.calculate_yield(&config, late), Ok(2));
    assert_eq!(unstake(&unstake_ctx(ALICE), &mut config, &mut record, 100, late), Ok(()));
    assert_eq!(record.unclaimed_yield, 2);
    let claim = ClaimYield { user: key(ALICE), reward_vault: key(REWARD_VAULT) };
    assert_eq!(claim_yield(&claim, &config, &mut record, late + SECONDS_IN_DAY), Ok(2));
}

#[test]
fn unstake_reports_yield_overflow() {
    let mut config = setup(10_000);
    let mut record = user(&config, ALICE, T0);
    stake(&stake_ctx(ALICE), &mut config, &mut record, 1_000_000, T0).unwrap();
    record.unclaimed_yield = u64::MAX;
    let before = (config, record);
    assert_eq!(
        unstake(&unstake_ctx(ALICE), &mut config, &mut record, 10, T0 + 8 * SECONDS_IN_DAY),
        Err(ProgramError::CalculationOverflow)
    );
    assert_eq!((config, record), before);
}

#[test]
fn unstake_checks_owner_vault_and_total() {
    let mut config = setup(0);
    let mut record = user(&config, ALICE, T0);
    stake(&stake_ctx(ALICE), &mut config, &mut record, 100, T0).unwrap();
    let late = T0 + 8 * SECONDS_IN_DAY;
    assert_eq!(
        unstake(&unstake_ctx(BOB), &mut config, &mut record, 1, late),
        Err(ProgramError::Unauthorized)
    );
    let wrong_vault = Unstake { user: key(ALICE), staked_vault: key(REWARD_VAULT) };
    assert_eq!(unstake(&wrong_vault, &mut config, &mut record, 1, late), Err(ProgramError::VaultMismatch));
    config.total_staked = 20;
    let before = (config, record);
    assert_eq!(
        unstake(&unstake_ctx(ALICE), &mut config, &mut record, 50, late),
        Err(ProgramError::CalculationOverflow)
    );
    assert_eq!((config, record), before);
}

#[test]
fn claim_yield_pays_everything_owed() {
    let mut config = setup(1000);
    let mut record = user(&config, ALICE, T0);
    let ctx = ClaimYield { user: key(ALICE), reward_vault: key(REWARD_VAULT) };
    assert_eq!(claim_yield(&ctx, &config, &mut record, T0 + 10), Err(ProgramError::NoYieldToClaim));
    stake(&stake_ctx(ALICE), &mut config, &mut record, 1_000, T0).unwrap();
    record.unclaimed_yield = 3;
    let year = T0 + SECONDS_IN_YEAR as i64;
    assert_eq!(claim_yield(&ctx, &config, &mut record, year), Ok(103));
    assert_eq!(record.unclaimed_yield, 0);
    assert_eq!(record.last_yield_claim_time, year);
    assert_eq!(claim_yield(&ctx, &config, &mut record, year), Err(ProgramError::NoYieldToClaim));
    let wrong_vault = ClaimYield { user: key(ALICE), reward_vault: key(STAKED_VAULT) };
    assert_eq!(claim_yield(&wrong_vault, &config, &mut record, year + 1), Err(ProgramError::VaultMismatch));
    let stranger = ClaimYield { user: key(BOB), reward_vault: key(REWARD_VAULT) };
    assert_eq!(claim_yield(&stranger, &config, &mut record, year + 1), Err(ProgramError::Unauthorized));
    record.unclaimed_yield = u64::MAX;
    let before = record;
    assert_eq!(
        claim_yield(&ctx, &config, &mut record, year + SECONDS_IN_YEAR as i64),
        Err(ProgramError::CalculationOverflow)
    );
    assert_eq!(record, before);
}

#[test]
fn index_increase_values() {
    assert_eq!(calculate_index_increase(5, 2), Ok(2_500_000_000_000));
    assert_eq!(calculate_index_increase(10, 7), Ok(1_428_571_428_571));
    assert_eq!(calculate_index_increase(0, 7), Ok(0));
    assert_eq!(
        calculate_index_increase(u64::MAX, 1),
        Ok(u64::MAX as u128 * REFLECTION_INDEX_SCALE)
    );
    assert_eq!(calculate_index_increase(5, 0), Err(ProgramError::InvalidTotalSupply));
}

#[test]
fn pending_reward_values() {
    let scale = REFLECTION_INDEX_SCALE;
    assert_eq!(calculate_pending_reflections(3 * scale, scale, 7), Ok(14));
    assert_eq!(calculate_pending_reflections(3 * scale, scale, 0), Ok(0));
    assert_eq!(calculate_pending_reflections(scale, scale, 7), Err(ProgramError::NoReflectionsAccumulated));
    assert_eq!(calculate_pending_reflections(scale, 2 * scale, 7), Err(ProgramError::NoReflectionsAccumulated));
    assert_eq!(calculate_pending_reflections(1, 0, 1), Err(ProgramError::NoReflectionsAccumulated));
    assert_eq!(calculate_pending_reflections(u128::MAX, 0, u64::MAX), Err(ProgramError::CalculationOverflow));
    assert_eq!(
        calculate_pending_reflections(u64::MAX as u128 * scale * 2, 0, 1),
        Err(ProgramError::CalculationOverflow)
    );
}

#[test]
fn deposit_moves_the_index() {
    let mut config = setup(0);
    assert_eq!(deposit_reflection_funds(&deposit_ctx(), &mut config, 10, 7), Ok(()));
    assert_eq!(config.reflection_index, 1_428_571_428_571);
    let before = config;
    assert_eq!(
        deposit_reflection_funds(&deposit_ctx(), &mut config, 10, 0),
        Err(ProgramError::InvalidTotalSupply)
    );
    assert_eq!(config, before);
    let stranger = DepositReflectionFunds { admin: key(BOB) };
    assert_eq!(deposit_reflection_funds(&stranger, &mut config, 10, 7), Err(ProgramError::Unauthorized));
    assert_eq!(config, before);
    config.reflection_index = u128::MAX - 5;
    let before = config;
    assert_eq!(
        deposit_reflection_funds(&deposit_ctx(), &mut config, 1, 1),
        Err(ProgramError::CalculationOverflow)
    );
    assert_eq!(config, before);
}

#[test]
fn deposit_with_zero_supply_always_fails() {
    for amount in [0u64, 1, 1_000, u64::MAX] {
        let mut config = setup(0);
        config.reflection_index = 77;
        assert_eq!(
            deposit_reflection_funds(&deposit_ctx(), &mut config, amount, 0),
            Err(ProgramError::InvalidTotalSupply)
        );
        assert_eq!(config.reflection_index, 77);
    }
}

#[test]
fn reward_is_shared_pro_rata() {
    let mut config = setup(0);
    let principals = [(ALICE, 1u64), (BOB, 2u64), (12u8, 4u64)];
    let mut records = Vec::new();
    for (who, amount) in principals {
        let mut record = user(&config, who, T0);
        stake(&stake_ctx(who), &mut config, &mut record, amount, T0).unwrap();
        records.push((who, record));
    }
    let pool = 10u64;
    let supply = config.total_staked;
    deposit_reflection_funds(&deposit_ctx(), &mut config, pool, supply).unwrap();
    let mut paid = Vec::new();
    for (who, record) in records.iter_mut() {
        paid.push(claim_reflections(&claim_ctx(*who, 1_000), &config, record).unwrap());
    }
    assert_eq!(paid, vec![1, 2, 5]);
    let total: u64 = paid.iter().sum();
    assert!(total <= pool);
    assert!(pool - total <= principals.len() as u64);
}

#[test]
fn second_claim_finds_nothing() {
    let mut config = setup(0);
    let mut record = user(&config, ALICE, T0);
    stake(&stake_ctx(ALICE), &mut config, &mut record, 500, T0).unwrap();
    deposit_reflection_funds(&deposit_ctx(), &mut config, 1_000, 1_000).unwrap();
    assert_eq!(claim_reflections(&claim_ctx(ALICE, 10_000), &config, &mut record), Ok(500));
    assert_eq!(record.last_claimed_index, config.reflection_index);
    let before = record;
    assert_eq!(
        claim_reflections(&claim_ctx(ALICE, 10_000), &config, &mut record),
        Err(ProgramError::NoReflectionsAccumulated)
    );
    assert_eq!(record, before);
}

#[test]
fn claim_reflections_edge_cases() {
    let mut config = setup(0);
    let mut empty = user(&config, BOB, T0);
    deposit_reflection_funds(&deposit_ctx(), &mut config, 1_000, 1_000).unwrap();
    assert_eq!(claim_reflections(&claim_ctx(BOB, 0), &config, &mut empty), Ok(0));
    assert_eq!(empty.last_claimed_index, config.reflection_index);
    let mut record = user(&config, ALICE, T0);
    stake(&stake_ctx(ALICE), &mut config, &mut record, 500, T0).unwrap();
    deposit_reflection_funds(&deposit_ctx(), &mut config, 1_000, 1_000).unwrap();
    let before = record;
    assert_eq!(
        claim_reflections(&claim_ctx(ALICE, 499), &config, &mut record),
        Err(ProgramError::InsufficientReflectionPool)
    );
    assert_eq!(record, before);
    assert_eq!(
        claim_reflections(&claim_ctx(BOB, 10_000), &config, &mut record),
        Err(ProgramError::Unauthorized)
    );
    assert_eq!(record, before);
    assert_eq!(claim_reflections(&claim_ctx(ALICE, 500), &config, &mut record), Ok(500));
}

#[test]
fn seeded_stake_creates_or_extends_a_record() {
    let mut config = setup(1000);
    config.reflection_index = 9;
    let ctx = AdminInitializePresaleStake {
        admin: key(ADMIN),
        user: key(ALICE),
        source_owner: key(ADMIN),
        staked_vault: key(STAKED_VAULT),
    };
    let mut slot: Option<UserStake> = None;
    assert_eq!(admin_initialize_presale_stake(&ctx, &mut config, &mut slot, 300, T0), Ok(()));
    let record = slot.unwrap();
    assert_eq!(record.owner, key(ALICE));
    assert_eq!(record.staked_amount, 300);
    assert_eq!(record.start_timestamp, T0);
    assert_eq!(record.last_claimed_index, 9);
    assert_eq!(record.unclaimed_yield, 0);
    assert_eq!(record.last_yield_claim_time, T0);
    assert_eq!(config.total_staked, 300);
    let later = T0 + SECONDS_IN_YEAR as i64;
    assert_eq!(admin_initialize_presale_stake(&ctx, &mut config, &mut slot, 100, later), Ok(()));
    let record = slot.unwrap();
    assert_eq!(record.staked_amount, 400);
    assert_eq!(record.unclaimed_yield, 30);
    assert_eq!(record.start_timestamp, later);
    assert_eq!(config.total_staked, 400);
}

#[test]
fn seeded_stake_checks() {
    let mut config = setup(0);
    let good = AdminInitializePresaleStake {
        admin: key(ADMIN),
        user: key(ALICE),
        source_owner: key(ADMIN),
        staked_vault: key(STAKED_VAULT),
    };
    let mut slot: Option<UserStake> = None;
    let before = config;
    let not_admin = AdminInitializePresaleStake { admin: key(BOB), source_owner: key(BOB), ..good };
    assert_eq!(
        admin_initialize_presale_stake(&not_admin, &mut config, &mut slot, 5, T0),
        Err(ProgramError::Unauthorized)
    );
    let foreign_source = AdminInitializePresaleStake { source_owner: key(BOB), ..good };
    assert_eq!(
        admin_initialize_presale_stake(&foreign_source, &mut config, &mut slot, 5, T0),
        Err(ProgramError::Unauthorized)
    );
    let wrong_vault = AdminInitializePresaleStake { staked_vault: key(REWARD_VAULT), ..good };
    assert_eq!(
        admin_initialize_presale_stake(&wrong_vault, &mut config, &mut slot, 5, T0),
        Err(ProgramError::VaultMismatch)
    );
    assert_eq!(
        admin_initialize_presale_stake(&good, &mut config, &mut slot, 0, T0),
        Err(ProgramError::InvalidAmount)
    );
    let mut other = Some(user(&config, BOB, T0));
    let other_before = other;
    assert_eq!(
        admin_initialize_presale_stake(&good, &mut config, &mut other, 5, T0),
        Err(ProgramError::Unauthorized)
    );
    assert_eq!(other, other_before);
    assert_eq!(slot, None);
    assert_eq!(config, before);
}

#[test]
fn withdraw_from_reserve() {
    let config = setup(0);
    let ok = AdminWithdrawSol { admin: key(ADMIN), treasury_lamports: 100 };
    assert_eq!(admin_withdraw_sol(&ok, &config, 100), Ok(()));
    assert_eq!(admin_withdraw_sol(&ok, &config, 101), Err(ProgramError::InsufficientReflectionPool));
    let stranger = AdminWithdrawSol { admin: key(BOB), treasury_lamports: 100 };
    assert_eq!(admin_withdraw_sol(&stranger, &config, 1), Err(ProgramError::Unauthorized));
}

#[test]
fn large_supply_loses_at_most_supply_over_scale() {
    let mut config = setup(0);
    let mut record = user(&config, ALICE, T0);
    let supply = 10 * REFLECTION_INDEX_SCALE as u64;
    stake(&stake_ctx(ALICE), &mut config, &mut record, supply, T0).unwrap();
    deposit_reflection_funds(&deposit_ctx(), &mut config, 9, supply).unwrap();
    assert_eq!(config.reflection_index, 0);
    assert_eq!(
        claim_reflections(&claim_ctx(ALICE, 1_000), &config, &mut record),
        Err(ProgramError::NoReflectionsAccumulated)
    );
    // Short by 9: under one unit per holder plus supply / scale (1 + 10).
    assert!(9 < 1 + supply / REFLECTION_INDEX_SCALE as u64);
}
