//! Accounting engine for a staking incentive program: linear vesting unlock,
//! continuous yield accrual, and a fixed-point reward index that shares an
//! externally funded pool pro rata among stakers.
//!
//! Every operation works on explicitly passed records (`GlobalConfig`,
//! `UserStake`) and either commits all of its effects or returns an error and
//! leaves the records untouched. Token and lamport movements are reported to
//! the caller, which performs them through the ledger.
pub mod error;
pub mod key;
pub mod vesting;
pub mod accrual;
pub mod state;
pub mod reflection;
pub mod instructions;

pub use error::ProgramError;
pub use key::Pubkey;
pub use state::{GlobalConfig, UserStake};
pub use instructions::{
    admin_initialize_presale_stake,
    admin_withdraw_sol,
    claim_reflections,
    claim_yield,
    deposit_reflection_funds,
    initialize,
    register_user,
    stake,
    unstake,
    AdminInitializePresaleStake,
    AdminWithdrawSol,
    ClaimReflections,
    ClaimYield,
    DepositReflectionFunds,
    Initialize,
    RegisterUser,
    Stake,
    Unstake,
};
pub use reflection::{calculate_index_increase, calculate_pending_reflections, REFLECTION_INDEX_SCALE};
pub use vesting::SECONDS_IN_DAY;
pub use accrual::SECONDS_IN_YEAR;
