//! The externally invoked operations. Each takes the records it changes by
//! `&mut`, checks the caller first, and on any error leaves every record as
//! it was; on success it reports what the ledger has to transfer.
use vstd::prelude::*;

use crate::error::ProgramError;
use crate::key::Pubkey;
use crate::reflection::{calculate_index_increase, calculate_pending_reflections, index_increase, pending_reflection};
use crate::state::{GlobalConfig, UserStake};

verus! {

/// Identities taking part in `initialize`.
#[derive(Clone, Copy, Debug)]
pub struct Initialize {
    /// The signer, who becomes the admin.
    pub admin: Pubkey,
    /// The token to account for.
    pub token_mint: Pubkey,
    /// Vault that will hold the staked principal.
    pub staked_vault: Pubkey,
    /// Vault that will pay out yield.
    pub reward_vault: Pubkey,
    /// Signing-authority parameter of the vaults.
    pub vault_authority_bump: u8,
    /// Signing-authority parameter of the reward reserve.
    pub sol_treasury_bump: u8,
}

/// Identity taking part in `register_user`.
#[derive(Clone, Copy, Debug)]
pub struct RegisterUser {
    /// The participant who registers.
    pub user: Pubkey,
}

/// Identities taking part in `admin_initialize_presale_stake`.
#[derive(Clone, Copy, Debug)]
pub struct AdminInitializePresaleStake {
    /// The signer, who must be the admin.
    pub admin: Pubkey,
    /// The participant whose stake is seeded.
    pub user: Pubkey,
    /// Owner of the token account the principal comes from; must be the admin.
    pub source_owner: Pubkey,
    /// Vault the principal goes to; must be the configured staked vault.
    pub staked_vault: Pubkey,
}

/// Identity taking part in `deposit_reflection_funds`.
#[derive(Clone, Copy, Debug)]
pub struct DepositReflectionFunds {
    /// The signer, who must be the admin.
    pub admin: Pubkey,
}

/// Identity and reserve balance taking part in `admin_withdraw_sol`.
#[derive(Clone, Copy, Debug)]
pub struct AdminWithdrawSol {
    /// The signer, who must be the admin.
    pub admin: Pubkey,
    /// Current balance of the reward reserve.
    pub treasury_lamports: u64,
}

/// Identities taking part in `stake`.
#[derive(Clone, Copy, Debug)]
pub struct Stake {
    /// The signer, who must own the stake.
    pub user: Pubkey,
    /// Vault the principal goes to; must be the configured staked vault.
    pub staked_vault: Pubkey,
}

/// Identities taking part in `unstake`.
#[derive(Clone, Copy, Debug)]
pub struct Unstake {
    /// The signer, who must own the stake.
    pub user: Pubkey,
    /// Vault the principal comes from; must be the configured staked vault.
    pub staked_vault: Pubkey,
}

/// Identities taking part in `claim_yield`.
#[derive(Clone, Copy, Debug)]
pub struct ClaimYield {
    /// The signer, who must own the stake.
    pub user: Pubkey,
    /// Vault the yield comes from; must be the configured reward vault.
    pub reward_vault: Pubkey,
}

/// Identity and reserve balance taking part in `claim_reflections`.
#[derive(Clone, Copy, Debug)]
pub struct ClaimReflections {
    /// The signer, who must own the stake.
    pub user: Pubkey,
    /// Current balance of the reward reserve.
    pub treasury_lamports: u64,
}

/// The configuration as `initialize` leaves it.
pub open spec fn initialized(ctx: Initialize, yield_rate_bps: u16) -> GlobalConfig {
    GlobalConfig {
        admin: ctx.admin,
        token_mint: ctx.token_mint,
        vault_authority_bump: ctx.vault_authority_bump,
        sol_treasury_bump: ctx.sol_treasury_bump,
        staked_vault: ctx.staked_vault,
        reward_vault: ctx.reward_vault,
        total_staked: 0,
        reflection_index: 0,
        yield_rate_bps,
        distribution_cursor: 0,
    }
}

/// A fresh stake record for `user`: no principal, caught up with the current
/// reward index, yield clock started at `now`.
pub open spec fn registered(user: Pubkey, config: GlobalConfig, now: i64) -> UserStake {
    UserStake {
        owner: user,
        staked_amount: 0,
        start_timestamp: 0,
        last_claimed_index: config.reflection_index,
        unclaimed_yield: 0,
        last_yield_claim_time: now,
    }
}

/// Whether adding `amount` of principal to `stake` at `now` stays within
/// 64 bits everywhere: the flushed yield, the stake and the total.
pub open spec fn stake_fits(config: GlobalConfig, stake: UserStake, amount: u64, now: i64) -> bool {
    &&& stake.unclaimed_yield + stake.accrued_at(config, now) <= u64::MAX
    &&& stake.staked_amount + amount <= u64::MAX
    &&& config.total_staked + amount <= u64::MAX
}

/// The stake after adding `amount` at `now`: the yield earned so far is kept
/// as unclaimed, and the vesting window and the yield clock restart at `now`.
pub open spec fn stake_after(config: GlobalConfig, stake: UserStake, amount: u64, now: i64) -> UserStake {
    UserStake {
        staked_amount: (stake.staked_amount + amount) as u64,
        start_timestamp: now,
        unclaimed_yield: (stake.unclaimed_yield + stake.accrued_at(config, now)) as u64,
        last_yield_claim_time: now,
        ..stake
    }
}

/// The configuration after `amount` of principal came in.
pub open spec fn total_after_stake(config: GlobalConfig, amount: u64) -> GlobalConfig {
    GlobalConfig { total_staked: (config.total_staked + amount) as u64, ..config }
}

/// The stake after `amount` of principal left at `now`: the yield earned so
/// far on the old principal is kept as unclaimed and the yield clock restarts
/// at `now`; an emptied stake stops vesting.
pub open spec fn stake_after_unstake(
    config: GlobalConfig,
    stake: UserStake,
    amount: u64,
    now: i64,
) -> UserStake {
    UserStake {
        staked_amount: (stake.staked_amount - amount) as u64,
        unclaimed_yield: (stake.unclaimed_yield + stake.accrued_at(config, now)) as u64,
        last_yield_claim_time: now,
        start_timestamp: if stake.staked_amount == amount {
            0
        } else {
            stake.start_timestamp
        },
        ..stake
    }
}

/// Outcome of a reward claim by the owner of `stake`, with `treasury` lamports
/// in the reserve: an empty stake succeeds with nothing; otherwise the pending
/// reward must be positive, fit in 64 bits and be covered by the reserve.
pub open spec fn reflection_claim_result(config: GlobalConfig, stake: UserStake, treasury: u64) -> Result<u64, ProgramError> {
    let pending = pending_reflection(
        config.reflection_index as int,
        stake.last_claimed_index as int,
        stake.staked_amount as int,
    );
    if stake.staked_amount == 0 {
        Ok(0)
    } else if pending == 0 {
        Err(ProgramError::NoReflectionsAccumulated)
    } else if pending > u64::MAX {
        Err(ProgramError::CalculationOverflow)
    } else if treasury < pending {
        Err(ProgramError::InsufficientReflectionPool)
    } else {
        Ok(pending as u64)
    }
}

/// The stake after a successful reward claim: caught up with the index.
pub open spec fn caught_up(config: GlobalConfig, stake: UserStake) -> UserStake {
    UserStake { last_claimed_index: config.reflection_index, ..stake }
}

/// Sets up the configuration. Fails with `AlreadyInitialized`, changing
/// nothing, when an admin is already set.
pub fn initialize(ctx: &Initialize, config: &mut GlobalConfig, yield_rate_bps: u16) -> (r: Result<
    (),
    ProgramError,
>)
    ensures
        !old(config).admin.is_zero() ==> r == Err::<(), ProgramError>(
            ProgramError::AlreadyInitialized,
        ) && *final(config) == *old(config),
        old(config).admin.is_zero() ==> r == Ok::<(), ProgramError>(()) && *final(config)
            == initialized(*ctx, yield_rate_bps),
{
    if !config.admin.is_default() {
        return Err(ProgramError::AlreadyInitialized);
    }
    *config = GlobalConfig {
        admin: ctx.admin,
        token_mint: ctx.token_mint,
        vault_authority_bump: ctx.vault_authority_bump,
        sol_treasury_bump: ctx.sol_treasury_bump,
        staked_vault: ctx.staked_vault,
        reward_vault: ctx.reward_vault,
        total_staked: 0,
        reflection_index: 0,
        yield_rate_bps,
        distribution_cursor: 0,
    };
    Ok(())
}

/// Creates the stake record of a participant, caught up with the current
/// reward index and with the yield clock started at `current_timestamp`.
pub fn register_user(ctx: &RegisterUser, config: &GlobalConfig, current_timestamp: i64) -> (r:
    UserStake)
    ensures
        r == registered(ctx.user, *config, current_timestamp),
{
    UserStake {
        owner: ctx.user,
        staked_amount: 0,
        start_timestamp: 0,
        last_claimed_index: config.reflection_index,
        unclaimed_yield: 0,
        last_yield_claim_time: current_timestamp,
    }
}

/// Flushes the accrued yield and adds `amount` of principal to the stake and
/// to the total; fails with `CalculationOverflow`, changing nothing, when a
/// result does not fit.
fn add_principal(config: &mut GlobalConfig, user_stake: &mut UserStake, amount: u64, now: i64) -> (r:
    Result<(), ProgramError>)
    ensures
        stake_fits(*old(config), *old(user_stake), amount, now) ==> r == Ok::<(), ProgramError>(()),
        !stake_fits(*old(config), *old(user_stake), amount, now) ==> r == Err::<(), ProgramError>(
            ProgramError::CalculationOverflow,
        ),
        r is Ok ==> *final(user_stake) == stake_after(*old(config), *old(user_stake), amount, now)
            && *final(config) == total_after_stake(*old(config), amount),
        r is Err ==> *final(user_stake) == *old(user_stake) && *final(config) == *old(config),
{
    let accrued = match user_stake.calculate_yield(config, now) {
        Ok(v) => v,
        Err(e) => {
            return Err(e);
        },
    };
    let unclaimed = match user_stake.unclaimed_yield.checked_add(accrued) {
        Some(v) => v,
        None => {
            return Err(ProgramError::CalculationOverflow);
        },
    };
    let staked = match user_stake.staked_amount.checked_add(amount) {
        Some(v) => v,
        None => {
            return Err(ProgramError::CalculationOverflow);
        },
    };
    let total = match config.total_staked.checked_add(amount) {
        Some(v) => v,
        None => {
            return Err(ProgramError::CalculationOverflow);
        },
    };
    config.total_staked = total;
    user_stake.staked_amount = staked;
    user_stake.unclaimed_yield = unclaimed;
    user_stake.start_timestamp = now;
    user_stake.last_yield_claim_time = now;
    Ok(())
}

/// Adds `amount` of the participant's tokens to their stake, restarting the
/// seven-day unlock window for the whole principal. The yield earned on the
/// old principal is kept as unclaimed first. On success the caller moves
/// `amount` tokens from the participant into the staked vault.
///
/// Fails, changing nothing: with `InvalidAmount` for a zero amount, then with
/// `Unauthorized` when the signer does not own the stake, then with
/// `VaultMismatch` for another vault, then with `CalculationOverflow` when a
/// result does not fit.
pub fn stake(
    ctx: &Stake,
    config: &mut GlobalConfig,
    user_stake: &mut UserStake,
    amount: u64,
    current_timestamp: i64,
) -> (r: Result<(), ProgramError>)
    ensures
        amount == 0 ==> r == Err::<(), ProgramError>(ProgramError::InvalidAmount),
        amount > 0 && old(user_stake).owner != ctx.user ==> r == Err::<(), ProgramError>(
            ProgramError::Unauthorized,
        ),
        amount > 0 && old(user_stake).owner == ctx.user && ctx.staked_vault
            != old(config).staked_vault ==> r == Err::<(), ProgramError>(
            ProgramError::VaultMismatch,
        ),
        amount > 0 && old(user_stake).owner == ctx.user && ctx.staked_vault
            == old(config).staked_vault ==> if stake_fits(
            *old(config),
            *old(user_stake),
            amount,
            current_timestamp,
        ) {
            r == Ok::<(), ProgramError>(())
        } else {
            r == Err::<(), ProgramError>(ProgramError::CalculationOverflow)
        },
        r is Ok ==> *final(user_stake) == stake_after(
            *old(config),
            *old(user_stake),
            amount,
            current_timestamp,
        ) && *final(config) == total_after_stake(*old(config), amount),
        r is Ok ==> final(config).total_staked - old(config).total_staked
            == final(user_stake).staked_amount - old(user_stake).staked_amount,
        r is Err ==> *final(user_stake) == *old(user_stake) && *final(config) == *old(config),
{
    if amount == 0 {
        return Err(ProgramError::InvalidAmount);
    }
    if user_stake.owner != ctx.user {
        return Err(ProgramError::Unauthorized);
    }
    if ctx.staked_vault != config.staked_vault {
        return Err(ProgramError::VaultMismatch);
    }
    add_principal(config, user_stake, amount, current_timestamp)
}

/// The record a seeded stake starts from: the participant's existing record,
/// or a fresh one.
pub open spec fn seed_base(
    user: Pubkey,
    config: GlobalConfig,
    existing: Option<UserStake>,
    now: i64,
) -> UserStake {
    match existing {
        Some(s) => s,
        None => registered(user, config, now),
    }
}

/// Whether the signer of a seeded stake is the admin, the source tokens are
/// the admin's, and an existing record belongs to the participant.
pub open spec fn seed_authorized(
    ctx: AdminInitializePresaleStake,
    config: GlobalConfig,
    existing: Option<UserStake>,
) -> bool {
    &&& ctx.admin == config.admin
    &&& ctx.source_owner == ctx.admin
    &&& (existing matches Some(s) ==> s.owner == ctx.user)
}

/// Admin-only stake for a participant, creating the participant's record
/// when `user_stake` is `None`; otherwise the same effects as `stake`. On
/// success the caller moves `amount` tokens from the admin's account into the
/// staked vault.
///
/// Fails, changing nothing: with `Unauthorized` unless the signer is the
/// admin, the source tokens are the admin's and an existing record belongs to
/// the participant; then with `VaultMismatch` for another vault; then with
/// `InvalidAmount` for a zero amount; then with `CalculationOverflow` when a
/// result does not fit.
pub fn admin_initialize_presale_stake(
    ctx: &AdminInitializePresaleStake,
    config: &mut GlobalConfig,
    user_stake: &mut Option<UserStake>,
    amount: u64,
    current_timestamp: i64,
) -> (r: Result<(), ProgramError>)
    ensures
        !seed_authorized(*ctx, *old(config), *old(user_stake)) ==> r == Err::<(), ProgramError>(
            ProgramError::Unauthorized,
        ),
        seed_authorized(*ctx, *old(config), *old(user_stake)) && ctx.staked_vault
            != old(config).staked_vault ==> r == Err::<(), ProgramError>(
            ProgramError::VaultMismatch,
        ),
        seed_authorized(*ctx, *old(config), *old(user_stake)) && ctx.staked_vault
            == old(config).staked_vault && amount == 0 ==> r == Err::<(), ProgramError>(
            ProgramError::InvalidAmount,
        ),
        seed_authorized(*ctx, *old(config), *old(user_stake)) && ctx.staked_vault
            == old(config).staked_vault && amount > 0 ==> if stake_fits(
            *old(config),
            seed_base(ctx.user, *old(config), *old(user_stake), current_timestamp),
            amount,
            current_timestamp,
        ) {
            r == Ok::<(), ProgramError>(())
        } else {
            r == Err::<(), ProgramError>(ProgramError::CalculationOverflow)
        },
        r is Ok ==> *final(user_stake) == Some(
            stake_after(
                *old(config),
                seed_base(ctx.user, *old(config), *old(user_stake), current_timestamp),
                amount,
                current_timestamp,
            ),
        ) && *final(config) == total_after_stake(*old(config), amount),
        r is Err ==> *final(user_stake) == *old(user_stake) && *final(config) == *old(config),
{
    if ctx.admin != config.admin || ctx.source_owner != ctx.admin {
        return Err(ProgramError::Unauthorized);
    }
    let mut record = match user_stake {
        Some(s) => {
            if s.owner != ctx.user {
                return Err(ProgramError::Unauthorized);
            }
            *s
        },
        None => register_user(&RegisterUser { user: ctx.user }, config, current_timestamp),
    };
    if ctx.staked_vault != config.staked_vault {
        return Err(ProgramError::VaultMismatch);
    }
    if amount == 0 {
        return Err(ProgramError::InvalidAmount);
    }
    let mut next_config = *config;
    match add_principal(&mut next_config, &mut record, amount, current_timestamp) {
        Ok(()) => {
            *config = next_config;
            *user_stake = Some(record);
            Ok(())
        },
        Err(e) => Err(e),
    }
}

/// The configuration after a reward deposit of `sol_amount` over
/// `total_supply` units.
pub open spec fn index_after_deposit(config: GlobalConfig, sol_amount: u64, total_supply: u64) -> GlobalConfig {
    GlobalConfig {
        reflection_index: (config.reflection_index + index_increase(
            sol_amount as int,
            total_supply as int,
        )) as u128,
        ..config
    }
}

/// Records a reward deposit of `sol_amount` lamports, already placed in the
/// reserve, shared over `total_supply` units: the reward index grows by
/// `sol_amount * 10^12 / total_supply`, rounded down.
///
/// Fails, changing nothing: with `Unauthorized` unless the signer is the
/// admin, then with `InvalidTotalSupply` for a zero supply, then with
/// `CalculationOverflow` when the index would leave 128 bits.
pub fn deposit_reflection_funds(
    ctx: &DepositReflectionFunds,
    config: &mut GlobalConfig,
    sol_amount: u64,
    total_supply: u64,
) -> (r: Result<(), ProgramError>)
    ensures
        ctx.admin != old(config).admin ==> r == Err::<(), ProgramError>(
            ProgramError::Unauthorized,
        ),
        ctx.admin == old(config).admin && total_supply == 0 ==> r == Err::<(), ProgramError>(
            ProgramError::InvalidTotalSupply,
        ),
        ctx.admin == old(config).admin && total_supply > 0 ==> if old(config).reflection_index
            + index_increase(sol_amount as int, total_supply as int) <= u128::MAX {
            r == Ok::<(), ProgramError>(())
        } else {
            r == Err::<(), ProgramError>(ProgramError::CalculationOverflow)
        },
        r is Ok ==> *final(config) == index_after_deposit(*old(config), sol_amount, total_supply),
        r is Err ==> *final(config) == *old(config),
        final(config).reflection_index >= old(config).reflection_index,
{
    if ctx.admin != config.admin {
        return Err(ProgramError::Unauthorized);
    }
    let index_increase = match calculate_index_increase(sol_amount, total_supply) {
        Ok(v) => v,
        Err(e) => {
            return Err(e);
        },
    };
    match config.reflection_index.checked_add(index_increase) {
        Some(v) => {
            config.reflection_index = v;
            Ok(())
        },
        None => Err(ProgramError::CalculationOverflow),
    }
}

/// Admin-only withdrawal of `amount` lamports from the reward reserve. On
/// success the caller moves them to the admin. Fails with `Unauthorized`
/// unless the signer is the admin, then with `InsufficientReflectionPool`
/// when the reserve holds less than `amount`.
pub fn admin_withdraw_sol(ctx: &AdminWithdrawSol, config: &GlobalConfig, amount: u64) -> (r:
    Result<(), ProgramError>)
    ensures
        ctx.admin != config.admin ==> r == Err::<(), ProgramError>(ProgramError::Unauthorized),
        ctx.admin == config.admin && ctx.treasury_lamports < amount ==> r == Err::<(), ProgramError>(
            ProgramError::InsufficientReflectionPool,
        ),
        ctx.admin == config.admin && ctx.treasury_lamports >= amount ==> r == Ok::<(), ProgramError>(()),
{
    if ctx.admin != config.admin {
        return Err(ProgramError::Unauthorized);
    }
    if ctx.treasury_lamports < amount {
        return Err(ProgramError::InsufficientReflectionPool);
    }
    Ok(())
}

/// Withdraws `amount` of unlocked principal. On success the caller moves
/// `amount` tokens from the staked vault to the participant. A stake emptied
/// by the withdrawal stops vesting. The yield earned on the old principal is
/// kept as unclaimed first, and the yield clock restarts.
///
/// Fails, changing nothing: with `InvalidAmount` for a zero amount, then with
/// `Unauthorized` when the signer does not own the stake, then with
/// `VaultMismatch` for another vault, then with `AmountExceedsUnlocked` when
/// `amount` is more than is unlocked at `current_timestamp`, then with
/// `CalculationOverflow` when the unclaimed yield would not fit in 64 bits or
/// the total would go below zero.
pub fn unstake(
    ctx: &Unstake,
    config: &mut GlobalConfig,
    user_stake: &mut UserStake,
    amount_to_withdraw: u64,
    current_timestamp: i64,
) -> (r: Result<(), ProgramError>)
    ensures
        amount_to_withdraw == 0 ==> r == Err::<(), ProgramError>(ProgramError::InvalidAmount),
        amount_to_withdraw > 0 && old(user_stake).owner != ctx.user ==> r == Err::<
            (),
            ProgramError,
        >(ProgramError::Unauthorized),
        amount_to_withdraw > 0 && old(user_stake).owner == ctx.user && ctx.staked_vault
            != old(config).staked_vault ==> r == Err::<(), ProgramError>(
            ProgramError::VaultMismatch,
        ),
        amount_to_withdraw > 0 && old(user_stake).owner == ctx.user && ctx.staked_vault
            == old(config).staked_vault ==> if amount_to_withdraw > old(user_stake).unlocked_at(
            current_timestamp,
        ) {
            r == Err::<(), ProgramError>(ProgramError::AmountExceedsUnlocked)
        } else if old(user_stake).unclaimed_yield + old(user_stake).accrued_at(
            *old(config),
            current_timestamp,
        ) > u64::MAX {
            r == Err::<(), ProgramError>(ProgramError::CalculationOverflow)
        } else if amount_to_withdraw > old(config).total_staked {
            r == Err::<(), ProgramError>(ProgramError::CalculationOverflow)
        } else {
            r == Ok::<(), ProgramError>(())
        },
        r is Ok ==> amount_to_withdraw <= old(user_stake).staked_amount,
        r is Ok ==> *final(user_stake) == stake_after_unstake(
            *old(config),
            *old(user_stake),
            amount_to_withdraw,
            current_timestamp,
        ),
        r is Ok ==> final(user_stake).unclaimed_yield == old(user_stake).unclaimed_yield + old(
            user_stake,
        ).accrued_at(*old(config), current_timestamp),
        r is Ok ==> final(user_stake).last_yield_claim_time == current_timestamp,
        r is Ok ==> final(config).total_staked == old(config).total_staked - amount_to_withdraw,
        r is Ok ==> final(user_stake).staked_amount == old(user_stake).staked_amount
            - amount_to_withdraw,
        r is Ok ==> *final(config) == (GlobalConfig {
            total_staked: final(config).total_staked,
            ..*old(config)
        }),
        r is Err ==> *final(user_stake) == *old(user_stake) && *final(config) == *old(config),
{
    if amount_to_withdraw == 0 {
        return Err(ProgramError::InvalidAmount);
    }
    if user_stake.owner != ctx.user {
        return Err(ProgramError::Unauthorized);
    }
    if ctx.staked_vault != config.staked_vault {
        return Err(ProgramError::VaultMismatch);
    }
    let available_to_withdraw = match user_stake.calculate_unlocked_amount(current_timestamp) {
        Ok(v) => v,
        Err(e) => {
            return Err(e);
        },
    };
    if amount_to_withdraw > available_to_withdraw {
        return Err(ProgramError::AmountExceedsUnlocked);
    }
    let accrued_yield = match user_stake.calculate_yield(config, current_timestamp) {
        Ok(v) => v,
        Err(e) => {
            return Err(e);
        },
    };
    let unclaimed = match user_stake.unclaimed_yield.checked_add(accrued_yield) {
        Some(v) => v,
        None => {
            return Err(ProgramError::CalculationOverflow);
        },
    };
    let total = match config.total_staked.checked_sub(amount_to_withdraw) {
        Some(v) => v,
        None => {
            return Err(ProgramError::CalculationOverflow);
        },
    };
    config.total_staked = total;
    user_stake.unclaimed_yield = unclaimed;
    user_stake.last_yield_claim_time = current_timestamp;
    user_stake.staked_amount = user_stake.staked_amount - amount_to_withdraw;
    if user_stake.staked_amount == 0 {
        user_stake.start_timestamp = 0;
    }
    Ok(())
}

/// Pays out all yield: what was unclaimed plus what accrued up to
/// `current_timestamp`. On success returns that amount, which the caller moves
/// from the reward vault to the participant; the unclaimed yield becomes zero
/// and the yield clock restarts at `current_timestamp`.
///
/// Fails, changing nothing: with `Unauthorized` when the signer does not own
/// the stake, then with `VaultMismatch` for another vault, then with
/// `CalculationOverflow` when the yield does not fit in 64 bits, then with
/// `NoYieldToClaim` when it is zero.
pub fn claim_yield(
    ctx: &ClaimYield,
    config: &GlobalConfig,
    user_stake: &mut UserStake,
    current_timestamp: i64,
) -> (r: Result<u64, ProgramError>)
    ensures
        old(user_stake).owner != ctx.user ==> r == Err::<u64, ProgramError>(
            ProgramError::Unauthorized,
        ),
        old(user_stake).owner == ctx.user && ctx.reward_vault != config.reward_vault ==> r
            == Err::<u64, ProgramError>(ProgramError::VaultMismatch),
        old(user_stake).owner == ctx.user && ctx.reward_vault == config.reward_vault ==> ({
            let owed = old(user_stake).unclaimed_yield + old(user_stake).accrued_at(
                *config,
                current_timestamp,
            );
            if owed > u64::MAX {
                r == Err::<u64, ProgramError>(ProgramError::CalculationOverflow)
            } else if owed == 0 {
                r == Err::<u64, ProgramError>(ProgramError::NoYieldToClaim)
            } else {
                r == Ok::<u64, ProgramError>(owed as u64)
            }
        }),
        r is Ok ==> *final(user_stake) == (UserStake {
            unclaimed_yield: 0,
            last_yield_claim_time: current_timestamp,
            ..*old(user_stake)
        }),
        r is Err ==> *final(user_stake) == *old(user_stake),
{
    if user_stake.owner != ctx.user {
        return Err(ProgramError::Unauthorized);
    }
    if ctx.reward_vault != config.reward_vault {
        return Err(ProgramError::VaultMismatch);
    }
    let accrued_yield = match user_stake.calculate_yield(config, current_timestamp) {
        Ok(v) => v,
        Err(e) => {
            return Err(e);
        },
    };
    let yield_to_claim = match user_stake.unclaimed_yield.checked_add(accrued_yield) {
        Some(v) => v,
        None => {
            return Err(ProgramError::CalculationOverflow);
        },
    };
    if yield_to_claim == 0 {
        return Err(ProgramError::NoYieldToClaim);
    }
    user_stake.unclaimed_yield = 0;
    user_stake.last_yield_claim_time = current_timestamp;
    Ok(yield_to_claim)
}

/// Pays out the pending reward of the stake. On success returns the payout,
/// which the caller moves from the reserve to the participant, and the stake
/// is caught up with the reward index. An empty stake succeeds with a zero
/// payout and is caught up too.
///
/// Fails, changing nothing: with `Unauthorized` when the signer does not own
/// the stake; otherwise as `reflection_claim_result` says.
pub fn claim_reflections(ctx: &ClaimReflections, config: &GlobalConfig, user_stake: &mut UserStake) -> (r: Result<u64, ProgramError>)
    ensures
        old(user_stake).owner != ctx.user ==> r == Err::<u64, ProgramError>(
            ProgramError::Unauthorized,
        ),
        old(user_stake).owner == ctx.user ==> r == reflection_claim_result(
            *config,
            *old(user_stake),
            ctx.treasury_lamports,
        ),
        r is Ok ==> *final(user_stake) == caught_up(*config, *old(user_stake)),
        r is Err ==> *final(user_stake) == *old(user_stake),
{
    if user_stake.owner != ctx.user {
        return Err(ProgramError::Unauthorized);
    }
    let pending = match calculate_pending_reflections(
        config.reflection_index,
        user_stake.last_claimed_index,
        user_stake.staked_amount,
    ) {
        Ok(v) => v,
        Err(e) => {
            return Err(e);
        },
    };
    if ctx.treasury_lamports < pending {
        return Err(ProgramError::InsufficientReflectionPool);
    }
    user_stake.last_claimed_index = config.reflection_index;
    Ok(pending)
}

/// A reward claim that pays out leaves nothing to claim: claiming again
/// before the next deposit fails with `NoReflectionsAccumulated`, whatever the
/// reserve then holds.
pub proof fn lemma_claim_twice(
    config: GlobalConfig,
    stake: UserStake,
    treasury: u64,
    treasury_later: u64,
)
    ensures
        reflection_claim_result(config, stake, treasury) matches Ok(payout) && payout > 0
            ==> reflection_claim_result(config, caught_up(config, stake), treasury_later) == Err::<
            u64,
            ProgramError,
        >(ProgramError::NoReflectionsAccumulated),
{
}

} // verus!
