//! A staking ledger: participants deposit into a shared vault, earn a reward
//! that is linear in the principal they hold and in the epochs that pass, and
//! later withdraw principal or claim the reward.
//!
//! The crate holds the rules by which a stake record and the vault's totals
//! move, and proves them. It reads no clock and moves no funds: the caller
//! hands in the current epoch and the ledger's answers, and carries out the
//! transfer that an operation asks for.

pub mod account;
pub mod error;
pub mod instructions;
pub mod pool;
pub mod reward;
pub mod transfer;

pub use account::{StakeAccount, VaultAccount, EPOCH_DURATION, REWARD_PER_EPOCH};
pub use error::{AlreadyExists, CustomError, InsufficientFunds};
pub use instructions::{
    claim_reward, initialize, initialize_vault, stake_sol, unstake_sol, ClaimReward, Initialize,
    InitializeVault, StakeSol, UnstakeSol,
};
pub use reward::{current_epoch, settle};
pub use transfer::{AccountMeta, Authority, Instruction, Transfer};
