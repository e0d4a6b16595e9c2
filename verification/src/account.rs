use vstd::prelude::*;

verus! {

/// Length of one epoch in seconds: one day.
pub const EPOCH_DURATION: i64 = 86400;

/// Reward units that one staked unit earns in one epoch.
pub const REWARD_PER_EPOCH: u64 = 2;

/// The pool's single record: the totals over all stake records.
#[derive(Clone, Copy, Debug, PartialEq, Eq, Structural)]
pub struct VaultAccount {
    /// Principal currently staked, summed over all stake records.
    pub total_staked: u64,
    /// Reward accrued and not yet paid out, summed over all stake records.
    pub total_rewards: u64,
}

/// One participant's position in the pool.
#[derive(Clone, Copy, Debug, PartialEq, Eq)]
pub struct StakeAccount {
    /// The participant, as the 32 bytes of their address. Never changes once
    /// the record is initialised.
    pub user: [u8; 32],
    /// Principal currently staked.
    pub amount: u64,
    /// The epoch up to which reward has been settled into `pending_reward`.
    pub last_epoch: u64,
    /// Reward accrued and not yet paid out.
    pub pending_reward: u64,
}

} // verus!
