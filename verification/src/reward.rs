use crate::account::{StakeAccount, VaultAccount, EPOCH_DURATION, REWARD_PER_EPOCH};
use crate::error::CustomError;
use vstd::prelude::*;

verus! {

/// The epoch that a clock reading falls into: the whole days since the
/// clock's origin. A reading before the origin falls into no epoch.
pub open spec fn epoch_of(unix_timestamp: i64) -> Option<u64> {
    if unix_timestamp < 0 {
        None
    } else {
        Some((unix_timestamp / EPOCH_DURATION) as u64)
    }
}

/// Reward that `amount` staked units earn over `epochs` epochs: linear in
/// both, never compounding.
pub open spec fn reward_for(amount: u64, epochs: int) -> int {
    amount * epochs * REWARD_PER_EPOCH
}

/// What settling `stake` at `current_epoch` yields: the reward earned since
/// the record was last settled, and the epoch to write back.
///
/// A clock that ran backward is refused as an underflow, a reward beyond
/// 64 bits as an overflow.
pub open spec fn settle_spec(stake: StakeAccount, current_epoch: u64) -> Result<
    (u64, u64),
    CustomError,
> {
    if current_epoch < stake.last_epoch {
        Err(CustomError::ArithmeticUnderflow)
    } else if reward_for(stake.amount, current_epoch - stake.last_epoch) > u64::MAX {
        Err(CustomError::ArithmeticOverflow)
    } else {
        Ok((reward_for(stake.amount, current_epoch - stake.last_epoch) as u64, current_epoch))
    }
}

/// The two records after `stake` has been settled at `current_epoch`: the
/// reward earned since the last settlement is added to the record's pending
/// reward and to the vault's total, and the record's epoch moves up to
/// `current_epoch`. Principal and staked total stay as they are.
pub open spec fn accrue_spec(stake: StakeAccount, vault: VaultAccount, current_epoch: u64) -> Result<
    (StakeAccount, VaultAccount),
    CustomError,
> {
    match settle_spec(stake, current_epoch) {
        Err(e) => Err(e),
        Ok((reward, last_epoch)) => if stake.pending_reward + reward > u64::MAX
            || vault.total_rewards + reward > u64::MAX {
            Err(CustomError::ArithmeticOverflow)
        } else {
            Ok(
                (
                    StakeAccount {
                        last_epoch,
                        pending_reward: (stake.pending_reward + reward) as u64,
                        ..stake
                    },
                    VaultAccount { total_rewards: (vault.total_rewards + reward) as u64, ..vault },
                ),
            )
        },
    }
}

/// Derives the current epoch from a clock reading in seconds.
pub fn current_epoch(unix_timestamp: i64) -> (epoch: Option<u64>)
    ensures
        epoch == epoch_of(unix_timestamp),
{
    if unix_timestamp < 0 {
        None
    } else {
        Some((unix_timestamp / EPOCH_DURATION) as u64)
    }
}

/// Computes the reward that `stake` has earned from its last settlement up
/// to `current_epoch`, on the principal the record holds now, together with
/// the epoch to write back. Changes nothing.
pub fn settle(stake: &StakeAccount, current_epoch: u64) -> (res: Result<(u64, u64), CustomError>)
    ensures
        res == settle_spec(*stake, current_epoch),
{
    let epochs_elapsed = match current_epoch.checked_sub(stake.last_epoch) {
        Some(n) => n,
        None => {
            return Err(CustomError::ArithmeticUnderflow);
        },
    };
    let base = match stake.amount.checked_mul(epochs_elapsed) {
        Some(n) => n,
        None => {
            return Err(CustomError::ArithmeticOverflow);
        },
    };
    match base.checked_mul(REWARD_PER_EPOCH) {
        Some(reward) => Ok((reward, current_epoch)),
        None => Err(CustomError::ArithmeticOverflow),
    }
}

/// Settles `stake` at `current_epoch` and books the reward on both records.
/// Returns the records as they stand afterwards and changes neither.
pub(crate) fn accrue(stake: &StakeAccount, vault: &VaultAccount, current_epoch: u64) -> (res: Result<
    (StakeAccount, VaultAccount),
    CustomError,
>)
    ensures
        res == accrue_spec(*stake, *vault, current_epoch),
{
    let (reward, last_epoch) = settle(stake, current_epoch)?;
    let pending_reward = match stake.pending_reward.checked_add(reward) {
        Some(n) => n,
        None => {
            return Err(CustomError::ArithmeticOverflow);
        },
    };
    let total_rewards = match vault.total_rewards.checked_add(reward) {
        Some(n) => n,
        None => {
            return Err(CustomError::ArithmeticOverflow);
        },
    };
    Ok(
        (
            StakeAccount { last_epoch, pending_reward, ..*stake },
            VaultAccount { total_rewards, ..*vault },
        ),
    )
}

/// Law: settling twice at one epoch earns nothing the second time. Once a
/// record has been settled at `current_epoch` and the settlement has been
/// booked, settling it at `current_epoch` again yields a reward of zero, and
/// booking that changes neither record.
pub proof fn lemma_settle_twice(stake: StakeAccount, vault: VaultAccount, current_epoch: u64)
    ensures
        settle_spec(stake, current_epoch) matches Ok((_, last_epoch)) ==> settle_spec(
            StakeAccount { last_epoch, ..stake },
            current_epoch,
        ) == Ok::<(u64, u64), CustomError>((0u64, current_epoch)),
        accrue_spec(stake, vault, current_epoch) matches Ok((settled, booked)) ==> {
            &&& settle_spec(settled, current_epoch) == Ok::<(u64, u64), CustomError>(
                (0u64, current_epoch),
            )
            &&& accrue_spec(settled, booked, current_epoch) == Ok::<
                (StakeAccount, VaultAccount),
                CustomError,
            >((settled, booked))
        },
{
    assert(reward_for(stake.amount, 0) == 0) by (nonlinear_arith);
}

} // verus!
