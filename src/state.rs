//! The two persistent records and the calculators that read them.
use vstd::prelude::*;

use crate::accrual::{
    accrued_yield,
    lemma_accrued_nonnegative,
    lemma_two_step_division,
    lemma_wide_product_overflows,
    BPS_DENOMINATOR,
    SECONDS_IN_YEAR,
};
use crate::error::ProgramError;
use crate::key::Pubkey;
use crate::vesting::{
    lemma_unlocked_at_most_principal,
    unlocked_amount,
    DAILY_UNLOCK_PERCENT,
    FULL_UNLOCK_DAYS,
    SECONDS_IN_DAY,
};

verus! {

/// The process-wide record: identities, aggregate totals, the yield rate and
/// the reward index.
#[derive(Clone, Copy, Debug, PartialEq, Eq)]
pub struct GlobalConfig {
    /// Identity allowed to perform privileged operations; all zero until set.
    pub admin: Pubkey,
    /// The fungible token this deployment accounts for.
    pub token_mint: Pubkey,
    /// Signing-authority parameter of the token vaults.
    pub vault_authority_bump: u8,
    /// Signing-authority parameter of the reward reserve.
    pub sol_treasury_bump: u8,
    /// Vault that holds the staked principal.
    pub staked_vault: Pubkey,
    /// Vault that pays out yield.
    pub reward_vault: Pubkey,
    /// Sum of the principal of every stake.
    pub total_staked: u64,
    /// Cumulative reward per unit of principal, scaled by 10^12; never
    /// decreases.
    pub reflection_index: u128,
    /// Annual yield rate in basis points.
    pub yield_rate_bps: u16,
    /// Reserved for batch processing.
    pub distribution_cursor: u64,
}

/// One participant's stake.
#[derive(Clone, Copy, Debug, PartialEq, Eq)]
pub struct UserStake {
    /// The participant.
    pub owner: Pubkey,
    /// Current principal.
    pub staked_amount: u64,
    /// Start of the current vesting window; zero when no vesting is running.
    pub start_timestamp: i64,
    /// Reward index as of the participant's last reward computation.
    pub last_claimed_index: u128,
    /// Yield accrued but not yet paid out.
    pub unclaimed_yield: u64,
    /// Start of the current yield accrual period.
    pub last_yield_claim_time: i64,
}

impl Default for GlobalConfig {
    fn default() -> (r: GlobalConfig)
        ensures
            r.admin.is_zero(),
            r.token_mint.is_zero(),
            r.vault_authority_bump == 0,
            r.sol_treasury_bump == 0,
            r.staked_vault.is_zero(),
            r.reward_vault.is_zero(),
            r.total_staked == 0,
            r.reflection_index == 0,
            r.yield_rate_bps == 0,
            r.distribution_cursor == 0,
    {
        GlobalConfig {
            admin: Pubkey::default(),
            token_mint: Pubkey::default(),
            vault_authority_bump: 0,
            sol_treasury_bump: 0,
            staked_vault: Pubkey::default(),
            reward_vault: Pubkey::default(),
            total_staked: 0,
            reflection_index: 0,
            yield_rate_bps: 0,
            distribution_cursor: 0,
        }
    }
}

impl Default for UserStake {
    fn default() -> (r: UserStake)
        ensures
            r.owner.is_zero(),
            r.staked_amount == 0,
            r.start_timestamp == 0,
            r.last_claimed_index == 0,
            r.unclaimed_yield == 0,
            r.last_yield_claim_time == 0,
    {
        UserStake {
            owner: Pubkey::default(),
            staked_amount: 0,
            start_timestamp: 0,
            last_claimed_index: 0,
            unclaimed_yield: 0,
            last_yield_claim_time: 0,
        }
    }
}

impl UserStake {
    /// Amount of this stake unlocked at `now`.
    pub open spec fn unlocked_at(self, now: i64) -> int {
        unlocked_amount(self.staked_amount as int, self.start_timestamp as int, now as int)
    }

    /// Yield this stake has accrued at `now` under `config`'s rate.
    pub open spec fn accrued_at(self, config: GlobalConfig, now: i64) -> int {
        accrued_yield(
            self.staked_amount as int,
            config.yield_rate_bps as int,
            self.last_yield_claim_time as int,
            now as int,
        )
    }

    /// Amount currently available for withdrawal under the seven-day linear
    /// unlock schedule. It never fails.
    pub fn calculate_unlocked_amount(&self, current_timestamp: i64) -> (r: Result<
        u64,
        ProgramError,
    >)
        ensures
            r == Ok::<u64, ProgramError>(self.unlocked_at(current_timestamp) as u64),
            self.unlocked_at(current_timestamp) <= self.staked_amount,
    {
        proof {
            lemma_unlocked_at_most_principal(
                self.staked_amount,
                self.start_timestamp,
                current_timestamp,
            );
        }
        if self.start_timestamp == 0 || self.staked_amount == 0 {
            return Ok(0);
        }
        let seconds_elapsed: i128 = current_timestamp as i128 - self.start_timestamp as i128;
        if seconds_elapsed <= 0 {
            return Ok(0);
        }
        let days_elapsed: i128 = seconds_elapsed / (SECONDS_IN_DAY as i128);
        let unlocked_percentage: u128 = if days_elapsed >= FULL_UNLOCK_DAYS as i128 {
            100
        } else {
            days_elapsed as u128 * DAILY_UNLOCK_PERCENT
        };
        assert(unlocked_percentage <= 100);
        assert(self.staked_amount as u128 * unlocked_percentage <= u64::MAX as int * 100)
            by (nonlinear_arith)
            requires
                unlocked_percentage <= 100,
        ;
        let max_withdrawable: u128 = self.staked_amount as u128 * unlocked_percentage / 100;
        Ok(max_withdrawable as u64)
    }

    /// Yield accrued since `last_yield_claim_time`, at `config`'s annual rate.
    /// Fails with `CalculationOverflow` exactly when the yield does not fit in
    /// 64 bits; returns zero when the clock has not moved forward.
    pub fn calculate_yield(&self, config: &GlobalConfig, current_timestamp: i64) -> (r: Result<
        u64,
        ProgramError,
    >)
        ensures
            self.accrued_at(*config, current_timestamp) >= 0,
            self.accrued_at(*config, current_timestamp) <= u64::MAX ==> r == Ok::<
                u64,
                ProgramError,
            >(self.accrued_at(*config, current_timestamp) as u64),
            self.accrued_at(*config, current_timestamp) > u64::MAX ==> r == Err::<
                u64,
                ProgramError,
            >(ProgramError::CalculationOverflow),
            current_timestamp <= self.last_yield_claim_time ==> r == Ok::<u64, ProgramError>(0),
    {
        proof {
            lemma_accrued_nonnegative(
                self.staked_amount,
                config.yield_rate_bps,
                self.last_yield_claim_time,
                current_timestamp,
            );
        }
        if self.staked_amount == 0 || config.yield_rate_bps == 0 {
            return Ok(0);
        }
        let time_elapsed: i128 = current_timestamp as i128 - self.last_yield_claim_time as i128;
        if time_elapsed <= 0 {
            return Ok(0);
        }
        let principal: u128 = self.staked_amount as u128;
        let rate: u128 = config.yield_rate_bps as u128;
        let elapsed: u128 = time_elapsed as u128;
        assert(principal * rate <= u64::MAX as int * u16::MAX as int) by (nonlinear_arith)
            requires
                principal <= u64::MAX,
                rate <= u16::MAX,
        ;
        let principal_rate: u128 = principal * rate;
        let ghost exact: int = principal_rate * elapsed;
        assert(exact == principal * rate * (current_timestamp - self.last_yield_claim_time));
        match principal_rate.checked_mul(elapsed) {
            None => {
                proof {
                    lemma_wide_product_overflows(exact);
                }
                Err(ProgramError::CalculationOverflow)
            },
            Some(product) => {
                proof {
                    lemma_two_step_division(product as int);
                }
                let yield_amount: u128 = product / BPS_DENOMINATOR / SECONDS_IN_YEAR;
                if yield_amount > u64::MAX as u128 {
                    Err(ProgramError::CalculationOverflow)
                } else {
                    Ok(yield_amount as u64)
                }
            },
        }
    }
}

} // verus!
