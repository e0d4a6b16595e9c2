use crate::account::{StakeAccount, VaultAccount};
use crate::error::{AlreadyExists, CustomError, InsufficientFunds};
use crate::reward::{accrue, accrue_spec};
use crate::transfer::{transfer_instruction, Authority, Transfer};
use vstd::prelude::*;

verus! {

/// What `initialize_vault` works on: the vault record to set up.
#[derive(Clone, Copy, Debug, PartialEq, Eq)]
pub struct InitializeVault {
    pub vault: VaultAccount,
}

/// What `initialize` works on: the participant and the stake record to set up
/// for them.
#[derive(Clone, Copy, Debug, PartialEq, Eq)]
pub struct Initialize {
    /// Address of the participant who calls.
    pub payer: [u8; 32],
    pub user_stake_acc: StakeAccount,
}

/// What `stake_sol` works on.
#[derive(Clone, Copy, Debug, PartialEq, Eq)]
pub struct StakeSol {
    /// Address of the participant who calls, and whose balance pays.
    pub payer: [u8; 32],
    /// The caller's stake record.
    pub user_stake_acc: StakeAccount,
    /// Address under which the ledger keeps the vault's balance.
    pub vault_key: [u8; 32],
    pub vault: VaultAccount,
}

/// What `unstake_sol` works on.
#[derive(Clone, Copy, Debug, PartialEq, Eq)]
pub struct UnstakeSol {
    /// Address of the participant who calls, and whose balance is paid.
    pub payer: [u8; 32],
    /// The caller's stake record.
    pub user_stake_acc: StakeAccount,
    /// Address under which the ledger keeps the vault's balance.
    pub vault_key: [u8; 32],
    pub vault: VaultAccount,
}

/// What `claim_reward` works on.
#[derive(Clone, Copy, Debug, PartialEq, Eq)]
pub struct ClaimReward {
    /// Address of the participant who calls, and whose balance is paid.
    pub payer: [u8; 32],
    /// The caller's stake record.
    pub user_stake_acc: StakeAccount,
    /// Address under which the ledger keeps the vault's balance.
    pub vault_key: [u8; 32],
    pub vault: VaultAccount,
}

/// A vault as it is created: nothing staked, nothing owed.
pub open spec fn empty_vault() -> VaultAccount {
    VaultAccount { total_staked: 0, total_rewards: 0 }
}

/// A stake record as it is created for `payer` at `current_epoch`: no
/// principal, no reward, settled up to the epoch of its creation.
pub open spec fn fresh_stake(payer: [u8; 32], current_epoch: u64) -> StakeAccount {
    StakeAccount { user: payer, amount: 0, last_epoch: current_epoch, pending_reward: 0 }
}

/// The records after a deposit of `amount`, or the reason it is refused.
///
/// In order: the ledger must have moved the deposit; the record is settled
/// on the principal it held before the deposit; then the deposit is added to
/// the record's principal and to the vault's staked total.
pub open spec fn stake_spec(
    stake: StakeAccount,
    vault: VaultAccount,
    amount: u64,
    current_epoch: u64,
    transfer: Result<(), InsufficientFunds>,
) -> Result<(StakeAccount, VaultAccount), CustomError> {
    if transfer is Err {
        Err(CustomError::InsufficientFunds)
    } else {
        match accrue_spec(stake, vault, current_epoch) {
            Err(e) => Err(e),
            Ok((settled, booked)) => if settled.amount + amount > u64::MAX || booked.total_staked
                + amount > u64::MAX {
                Err(CustomError::ArithmeticOverflow)
            } else {
                Ok(
                    (
                        StakeAccount { amount: (settled.amount + amount) as u64, ..settled },
                        VaultAccount {
                            total_staked: (booked.total_staked + amount) as u64,
                            ..booked
                        },
                    ),
                )
            },
        }
    }
}

/// What a withdrawal of `amount` comes to before the ledger is asked: the
/// records as settled at `current_epoch`, or the reason the withdrawal is
/// refused without a word to the ledger.
///
/// In order: the record must hold `amount`; then the record is settled on
/// the principal it held before the withdrawal.
pub open spec fn unstake_ready(
    stake: StakeAccount,
    vault: VaultAccount,
    amount: u64,
    current_epoch: u64,
) -> Result<(StakeAccount, VaultAccount), CustomError> {
    if amount > stake.amount {
        Err(CustomError::InsufficientBalance)
    } else {
        accrue_spec(stake, vault, current_epoch)
    }
}

/// The records after a withdrawal of `amount`, or the reason it is refused.
///
/// In order: what `unstake_ready` tests and settles; the ledger must have
/// moved the funds; then `amount` is taken off the record's principal and
/// off the vault's staked total.
pub open spec fn unstake_spec(
    stake: StakeAccount,
    vault: VaultAccount,
    amount: u64,
    current_epoch: u64,
    transfer: Result<(), InsufficientFunds>,
) -> Result<(StakeAccount, VaultAccount), CustomError> {
    match unstake_ready(stake, vault, amount, current_epoch) {
        Err(e) => Err(e),
        Ok((settled, booked)) => if transfer is Err {
            Err(CustomError::InsufficientFunds)
        } else if booked.total_staked < amount {
            Err(CustomError::ArithmeticUnderflow)
        } else {
            Ok(
                (
                    StakeAccount { amount: (settled.amount - amount) as u64, ..settled },
                    VaultAccount { total_staked: (booked.total_staked - amount) as u64, ..booked },
                ),
            )
        },
    }
}

/// What a claim comes to before the ledger is asked: the reward to pay out,
/// which is the record's pending reward as it stands, or the reason the claim
/// is refused without a word to the ledger.
///
/// A clock that shows an epoch before the one the record is settled to is
/// refused as an underflow, as it is in a settlement.
pub open spec fn claim_ready(stake: StakeAccount, current_epoch: u64) -> Result<u64, CustomError> {
    if current_epoch < stake.last_epoch {
        Err(CustomError::ArithmeticUnderflow)
    } else {
        Ok(stake.pending_reward)
    }
}

/// The records after the pending reward has been paid out, or the reason the
/// claim is refused.
///
/// In order: the clock must not be behind the record; the ledger must have
/// moved the reward; the vault's reward total must cover it. What is paid is
/// the reward already settled into the record. The claim settles nothing
/// itself: it moves the record's epoch up to `current_epoch`, and reward for
/// the epochs in between is not booked.
pub open spec fn claim_spec(
    stake: StakeAccount,
    vault: VaultAccount,
    current_epoch: u64,
    transfer: Result<(), InsufficientFunds>,
) -> Result<(StakeAccount, VaultAccount), CustomError> {
    match claim_ready(stake, current_epoch) {
        Err(e) => Err(e),
        Ok(reward) => if transfer is Err {
            Err(CustomError::InsufficientFunds)
        } else if vault.total_rewards < reward {
            Err(CustomError::ArithmeticUnderflow)
        } else {
            Ok(
                (
                    StakeAccount { last_epoch: current_epoch, pending_reward: 0, ..stake },
                    VaultAccount { total_rewards: (vault.total_rewards - reward) as u64, ..vault },
                ),
            )
        },
    }
}

impl StakeSol {
    /// The transfer that a deposit of `amount` asks of the ledger: `amount`
    /// from the caller's balance to the vault's, on the caller's word.
    pub fn transfer(&self, amount: u64) -> (t: Transfer)
        ensures
            t@.authority == Authority::Payer,
            t@.instruction == transfer_instruction(self.payer, self.vault_key, amount),
    {
        Transfer::new(Authority::Payer, &self.payer, &self.vault_key, amount)
    }
}

impl UnstakeSol {
    /// Tests the record's principal and settles, as `unstake_sol` does before
    /// it turns to the ledger.
    fn ready(&self, amount: u64, current_epoch: u64) -> (res: Result<
        (StakeAccount, VaultAccount),
        CustomError,
    >)
        ensures
            res == unstake_ready(self.user_stake_acc, self.vault, amount, current_epoch),
    {
        if self.user_stake_acc.amount < amount {
            return Err(CustomError::InsufficientBalance);
        }
        accrue(&self.user_stake_acc, &self.vault, current_epoch)
    }

    /// The transfer that a withdrawal of `amount` at `current_epoch` asks of
    /// the ledger: `amount` from the vault's balance to the caller's, on the
    /// vault's word.
    ///
    /// It is handed out only where the record holds `amount` and settles at
    /// `current_epoch`. Where `unstake_sol` would refuse before it turns to
    /// the ledger, this refuses for the same reason, and the ledger is asked
    /// nothing.
    pub fn transfer(&self, amount: u64, current_epoch: u64) -> (res: Result<Transfer, CustomError>)
        ensures
            match unstake_ready(self.user_stake_acc, self.vault, amount, current_epoch) {
                Ok(_) => res matches Ok(t) && t@.authority == Authority::Vault && t@.instruction
                    == transfer_instruction(self.vault_key, self.payer, amount),
                Err(e) => res == Err::<Transfer, CustomError>(e),
            },
            amount > self.user_stake_acc.amount ==> res == Err::<Transfer, CustomError>(
                CustomError::InsufficientBalance,
            ),
    {
        match self.ready(amount, current_epoch) {
            Err(e) => Err(e),
            Ok(_) => Ok(Transfer::new(Authority::Vault, &self.vault_key, &self.payer, amount)),
        }
    }
}

impl ClaimReward {
    /// Tests the clock against the record, as `claim_reward` does before it
    /// turns to the ledger, and reads the reward to pay.
    fn ready(&self, current_epoch: u64) -> (res: Result<u64, CustomError>)
        ensures
            res == claim_ready(self.user_stake_acc, current_epoch),
    {
        if current_epoch < self.user_stake_acc.last_epoch {
            return Err(CustomError::ArithmeticUnderflow);
        }
        Ok(self.user_stake_acc.pending_reward)
    }

    /// The transfer that a claim at `current_epoch` asks of the ledger: the
    /// record's pending reward, as it stands before the claim, from the
    /// vault's balance to the caller's, on the vault's word.
    ///
    /// It is handed out only where the clock is not behind the record. Where
    /// `claim_reward` would refuse before it turns to the ledger, this
    /// refuses for the same reason, and the ledger is asked nothing.
    pub fn transfer(&self, current_epoch: u64) -> (res: Result<Transfer, CustomError>)
        ensures
            match claim_ready(self.user_stake_acc, current_epoch) {
                Ok(reward) => res matches Ok(t) && t@.authority == Authority::Vault
                    && t@.instruction == transfer_instruction(self.vault_key, self.payer, reward),
                Err(e) => res == Err::<Transfer, CustomError>(e),
            },
    {
        match self.ready(current_epoch) {
            Err(e) => Err(e),
            Ok(reward) => Ok(Transfer::new(Authority::Vault, &self.vault_key, &self.payer, reward)),
        }
    }
}

/// Sets up the vault with nothing staked and nothing owed.
///
/// `created` is the storage layer's answer to the request to create the
/// vault record. Where the record was there already, it is left as it is.
pub fn initialize_vault(ctx: &mut InitializeVault, created: Result<(), AlreadyExists>) -> (res:
    Result<(), CustomError>)
    ensures
        created is Ok ==> res is Ok && final(ctx).vault == empty_vault(),
        created is Err ==> res == Err::<(), CustomError>(CustomError::AlreadyExists) && *final(ctx)
            == *old(ctx),
{
    match created {
        Err(_) => Err(CustomError::AlreadyExists),
        Ok(()) => {
            ctx.vault.total_rewards = 0;
            ctx.vault.total_staked = 0;
            Ok(())
        },
    }
}

/// Sets up the caller's stake record: no principal, no reward, settled up to
/// `current_epoch`.
///
/// `created` is the storage layer's answer to the request to create the
/// record. Where the caller had a record already, it is left as it is.
pub fn initialize(
    ctx: &mut Initialize,
    current_epoch: u64,
    created: Result<(), AlreadyExists>,
) -> (res: Result<(), CustomError>)
    ensures
        final(ctx).payer == old(ctx).payer,
        created is Ok ==> res is Ok && final(ctx).user_stake_acc == fresh_stake(
            old(ctx).payer,
            current_epoch,
        ),
        created is Err ==> res == Err::<(), CustomError>(CustomError::AlreadyExists) && *final(ctx)
            == *old(ctx),
{
    match created {
        Err(_) => Err(CustomError::AlreadyExists),
        Ok(()) => {
            let pda = &mut ctx.user_stake_acc;
            pda.user = ctx.payer;
            pda.amount = 0;
            pda.last_epoch = current_epoch;
            pda.pending_reward = 0;
            Ok(())
        },
    }
}

/// Deposits `amount` for the caller.
///
/// `transfer` is the ledger's answer to the transfer that `ctx.transfer(amount)`
/// describes. The record is first settled at `current_epoch` on the principal
/// it held so far, so the deposit earns nothing for epochs before it; then
/// the deposit is added to the record's principal and to the vault's staked
/// total. A refused deposit changes nothing.
pub fn stake_sol(
    ctx: &mut StakeSol,
    amount: u64,
    current_epoch: u64,
    transfer: Result<(), InsufficientFunds>,
) -> (res: Result<(), CustomError>)
    ensures
        match stake_spec(old(ctx).user_stake_acc, old(ctx).vault, amount, current_epoch, transfer) {
            Ok((stake, vault)) => res is Ok && *final(ctx) == (StakeSol {
                user_stake_acc: stake,
                vault,
                ..*old(ctx)
            }),
            Err(e) => res == Err::<(), CustomError>(e) && *final(ctx) == *old(ctx),
        },
        res is Ok ==> {
            &&& final(ctx).user_stake_acc.amount == old(ctx).user_stake_acc.amount + amount
            &&& final(ctx).vault.total_staked == old(ctx).vault.total_staked + amount
            &&& final(ctx).user_stake_acc.last_epoch == current_epoch
        },
        final(ctx).user_stake_acc.last_epoch >= old(ctx).user_stake_acc.last_epoch,
        final(ctx).user_stake_acc.user == old(ctx).user_stake_acc.user,
{
    match transfer {
        Err(_) => {
            return Err(CustomError::InsufficientFunds);
        },
        Ok(()) => {},
    }
    let (settled, booked) = accrue(&ctx.user_stake_acc, &ctx.vault, current_epoch)?;
    let amount_staked = match settled.amount.checked_add(amount) {
        Some(n) => n,
        None => {
            return Err(CustomError::ArithmeticOverflow);
        },
    };
    let total_staked = match booked.total_staked.checked_add(amount) {
        Some(n) => n,
        None => {
            return Err(CustomError::ArithmeticOverflow);
        },
    };
    ctx.user_stake_acc = StakeAccount { amount: amount_staked, ..settled };
    ctx.vault = VaultAccount { total_staked, ..booked };
    Ok(())
}

/// Withdraws `amount` of the caller's principal.
///
/// `transfer` is the ledger's answer to the transfer that
/// `ctx.transfer(amount, current_epoch)` hands out; where that refuses, the
/// ledger is not asked, and this call refuses for the same reason whatever
/// `transfer` holds. The record is first settled at `current_epoch` on the
/// principal it held before the withdrawal; then `amount` is taken off the
/// record's principal and off the vault's staked total. With `amount` zero
/// the call only settles. A refused withdrawal changes nothing.
pub fn unstake_sol(
    ctx: &mut UnstakeSol,
    amount: u64,
    current_epoch: u64,
    transfer: Result<(), InsufficientFunds>,
) -> (res: Result<(), CustomError>)
    ensures
        match unstake_spec(
            old(ctx).user_stake_acc,
            old(ctx).vault,
            amount,
            current_epoch,
            transfer,
        ) {
            Ok((stake, vault)) => res is Ok && *final(ctx) == (UnstakeSol {
                user_stake_acc: stake,
                vault,
                ..*old(ctx)
            }),
            Err(e) => res == Err::<(), CustomError>(e) && *final(ctx) == *old(ctx),
        },
        amount > old(ctx).user_stake_acc.amount ==> res == Err::<(), CustomError>(
            CustomError::InsufficientBalance,
        ),
        res is Ok ==> {
            &&& final(ctx).user_stake_acc.amount == old(ctx).user_stake_acc.amount - amount
            &&& final(ctx).vault.total_staked == old(ctx).vault.total_staked - amount
            &&& final(ctx).user_stake_acc.last_epoch == current_epoch
        },
        res is Err ==> *final(ctx) == *old(ctx),
        final(ctx).user_stake_acc.last_epoch >= old(ctx).user_stake_acc.last_epoch,
        final(ctx).user_stake_acc.user == old(ctx).user_stake_acc.user,
{
    let (settled, booked) = ctx.ready(amount, current_epoch)?;
    match transfer {
        Err(_) => {
            return Err(CustomError::InsufficientFunds);
        },
        Ok(()) => {},
    }
    let amount_staked = match settled.amount.checked_sub(amount) {
        Some(n) => n,
        None => {
            return Err(CustomError::ArithmeticUnderflow);
        },
    };
    let total_staked = match booked.total_staked.checked_sub(amount) {
        Some(n) => n,
        None => {
            return Err(CustomError::ArithmeticUnderflow);
        },
    };
    ctx.user_stake_acc = StakeAccount { amount: amount_staked, ..settled };
    ctx.vault = VaultAccount { total_staked, ..booked };
    Ok(())
}

/// Pays out the caller's pending reward.
///
/// `transfer` is the ledger's answer to the transfer that
/// `ctx.transfer(current_epoch)` hands out, asked for before this call; where
/// that refuses, the ledger is not asked, and this call refuses for the same
/// reason whatever `transfer` holds. A clock behind the record is refused, so
/// the record's epoch never moves back. The pending reward is set to zero and
/// taken off the vault's reward total, and the record's epoch is set to
/// `current_epoch`. Reward for the epochs since the last settlement is not
/// booked: to have it, settle first, by a withdrawal of zero. A refused claim
/// changes nothing.
pub fn claim_reward(
    ctx: &mut ClaimReward,
    current_epoch: u64,
    transfer: Result<(), InsufficientFunds>,
) -> (res: Result<(), CustomError>)
    ensures
        match claim_spec(old(ctx).user_stake_acc, old(ctx).vault, current_epoch, transfer) {
            Ok((stake, vault)) => res is Ok && *final(ctx) == (ClaimReward {
                user_stake_acc: stake,
                vault,
                ..*old(ctx)
            }),
            Err(e) => res == Err::<(), CustomError>(e) && *final(ctx) == *old(ctx),
        },
        res is Ok ==> {
            &&& final(ctx).user_stake_acc.pending_reward == 0
            &&& final(ctx).vault.total_rewards == old(ctx).vault.total_rewards - old(
                ctx,
            ).user_stake_acc.pending_reward
            &&& final(ctx).user_stake_acc.last_epoch == current_epoch
        },
        current_epoch < old(ctx).user_stake_acc.last_epoch ==> res == Err::<(), CustomError>(
            CustomError::ArithmeticUnderflow,
        ),
        res is Err ==> *final(ctx) == *old(ctx),
        final(ctx).user_stake_acc.last_epoch >= old(ctx).user_stake_acc.last_epoch,
        final(ctx).user_stake_acc.user == old(ctx).user_stake_acc.user,
{
    let reward = ctx.ready(current_epoch)?;
    match transfer {
        Err(_) => {
            return Err(CustomError::InsufficientFunds);
        },
        Ok(()) => {},
    }
    let total_rewards = match ctx.vault.total_rewards.checked_sub(reward) {
        Some(n) => n,
        None => {
            return Err(CustomError::ArithmeticUnderflow);
        },
    };
    ctx.user_stake_acc.pending_reward = 0;
    ctx.user_stake_acc.last_epoch = current_epoch;
    ctx.vault.total_rewards = total_rewards;
    Ok(())
}

} // verus!
