use crate::account::{StakeAccount, VaultAccount};
use crate::error::{CustomError, InsufficientFunds};
use crate::instructions::{claim_spec, empty_vault, fresh_stake, stake_spec, unstake_spec};
use vstd::prelude::*;

verus! {

/// Everything the pool keeps: the vault, once it is set up, and the stake
/// records in the order in which they were created.
pub struct Pool {
    pub vault: Option<VaultAccount>,
    pub stakes: Seq<StakeAccount>,
}

/// One call of an operation, with everything it is handed from outside: who
/// calls, the amount, the epoch that the clock shows, and the ledger's answer
/// to the transfer that the call asks for.
pub enum Operation {
    InitializeVault,
    Initialize { payer: [u8; 32], current_epoch: u64 },
    Stake {
        payer: [u8; 32],
        amount: u64,
        current_epoch: u64,
        transfer: Result<(), InsufficientFunds>,
    },
    Unstake {
        payer: [u8; 32],
        amount: u64,
        current_epoch: u64,
        transfer: Result<(), InsufficientFunds>,
    },
    Claim { payer: [u8; 32], current_epoch: u64, transfer: Result<(), InsufficientFunds> },
}

/// Principal summed over `stakes`.
pub open spec fn staked_sum(stakes: Seq<StakeAccount>) -> int
    decreases stakes.len(),
{
    if stakes.len() == 0 {
        0
    } else {
        staked_sum(stakes.drop_last()) + stakes.last().amount
    }
}

/// Pending reward summed over `stakes`.
pub open spec fn pending_sum(stakes: Seq<StakeAccount>) -> int
    decreases stakes.len(),
{
    if stakes.len() == 0 {
        0
    } else {
        pending_sum(stakes.drop_last()) + stakes.last().pending_reward
    }
}

impl Pool {
    /// The pool before anything has been set up.
    pub open spec fn empty() -> Pool {
        Pool { vault: None, stakes: Seq::empty() }
    }

    /// The vault's totals are the sums over the stake records. Before the
    /// vault is set up, the sums are zero.
    pub open spec fn balanced(self) -> bool {
        match self.vault {
            Some(vault) => vault.total_staked == staked_sum(self.stakes) && vault.total_rewards
                == pending_sum(self.stakes),
            None => staked_sum(self.stakes) == 0 && pending_sum(self.stakes) == 0,
        }
    }

    /// `payer` has a stake record.
    pub open spec fn holds(self, payer: [u8; 32]) -> bool {
        exists|i: int| 0 <= i < self.stakes.len() && (#[trigger] self.stakes[i]).user == payer
    }

    /// Where `payer`'s stake record stands, if `payer` has one.
    pub open spec fn index_of(self, payer: [u8; 32]) -> int {
        choose|i: int| 0 <= i < self.stakes.len() && (#[trigger] self.stakes[i]).user == payer
    }

    /// No two stake records belong to one participant.
    pub open spec fn one_record_each(self) -> bool {
        forall|i: int, j: int|
            0 <= i < j < self.stakes.len() ==> (#[trigger] self.stakes[i]).user
                != (#[trigger] self.stakes[j]).user
    }

    /// Every stake record of `self` is still there in `later`, belongs to the
    /// same participant, and is settled no less far.
    pub open spec fn never_earlier(self, later: Pool) -> bool {
        &&& self.stakes.len() <= later.stakes.len()
        &&& forall|i: int|
            0 <= i < self.stakes.len() ==> {
                &&& (#[trigger] later.stakes[i]).user == self.stakes[i].user
                &&& later.stakes[i].last_epoch >= self.stakes[i].last_epoch
            }
    }

    /// The pool with `payer`'s record and the vault replaced by what an
    /// operation made of them, or unchanged where the operation was refused.
    pub open spec fn commit(
        self,
        payer: [u8; 32],
        outcome: Result<(StakeAccount, VaultAccount), CustomError>,
    ) -> Pool {
        match outcome {
            Ok((stake, vault)) => Pool {
                vault: Some(vault),
                stakes: self.stakes.update(self.index_of(payer), stake),
            },
            Err(_) => self,
        }
    }

    /// The pool after one call. The storage layer creates a record once: a
    /// second creation is refused. An operation on a record or a vault that
    /// does not exist is refused too. A refused call changes nothing.
    pub open spec fn step(self, op: Operation) -> Pool {
        match op {
            Operation::InitializeVault => if self.vault is Some {
                self
            } else {
                Pool { vault: Some(empty_vault()), ..self }
            },
            Operation::Initialize { payer, current_epoch } => if self.holds(payer) {
                self
            } else {
                Pool { stakes: self.stakes.push(fresh_stake(payer, current_epoch)), ..self }
            },
            Operation::Stake { payer, amount, current_epoch, transfer } => match self.vault {
                Some(vault) if self.holds(payer) => self.commit(
                    payer,
                    stake_spec(
                        self.stakes[self.index_of(payer)],
                        vault,
                        amount,
                        current_epoch,
                        transfer,
                    ),
                ),
                _ => self,
            },
            Operation::Unstake { payer, amount, current_epoch, transfer } => match self.vault {
                Some(vault) if self.holds(payer) => self.commit(
                    payer,
                    unstake_spec(
                        self.stakes[self.index_of(payer)],
                        vault,
                        amount,
                        current_epoch,
                        transfer,
                    ),
                ),
                _ => self,
            },
            Operation::Claim { payer, current_epoch, transfer } => match self.vault {
                Some(vault) if self.holds(payer) => self.commit(
                    payer,
                    claim_spec(self.stakes[self.index_of(payer)], vault, current_epoch, transfer),
                ),
                _ => self,
            },
        }
    }

    /// The pool after the calls `ops`, made one after the other.
    pub open spec fn run(self, ops: Seq<Operation>) -> Pool
        decreases ops.len(),
    {
        if ops.len() == 0 {
            self
        } else {
            self.run(ops.drop_last()).step(ops.last())
        }
    }
}

proof fn lemma_sums_update(stakes: Seq<StakeAccount>, i: int, record: StakeAccount)
    requires
        0 <= i < stakes.len(),
    ensures
        staked_sum(stakes.update(i, record)) == staked_sum(stakes) - stakes[i].amount
            + record.amount,
        pending_sum(stakes.update(i, record)) == pending_sum(stakes) - stakes[i].pending_reward
            + record.pending_reward,
    decreases stakes.len(),
{
    let updated = stakes.update(i, record);
    if i == stakes.len() - 1 {
        assert(updated.drop_last() =~= stakes.drop_last());
    } else {
        assert(updated.drop_last() =~= stakes.drop_last().update(i, record));
        lemma_sums_update(stakes.drop_last(), i, record);
    }
}

proof fn lemma_sums_push(stakes: Seq<StakeAccount>, record: StakeAccount)
    ensures
        staked_sum(stakes.push(record)) == staked_sum(stakes) + record.amount,
        pending_sum(stakes.push(record)) == pending_sum(stakes) + record.pending_reward,
{
    assert(stakes.push(record).drop_last() =~= stakes);
}

/// Law: an operation keeps the vault's totals equal to the sums over the
/// stake records, whatever the operation, its inputs and the ledger's answer,
/// and whether it goes through or is refused.
pub proof fn lemma_operation_keeps_totals(pool: Pool, op: Operation)
    requires
        pool.balanced(),
    ensures
        pool.step(op).balanced(),
{
    match op {
        Operation::InitializeVault => {},
        Operation::Initialize { payer, current_epoch } => {
            lemma_sums_push(pool.stakes, fresh_stake(payer, current_epoch));
        },
        Operation::Stake { payer, .. } => {
            if pool.vault is Some && pool.holds(payer) {
                let i = pool.index_of(payer);
                if pool.step(op) != pool {
                    lemma_sums_update(pool.stakes, i, pool.step(op).stakes[i]);
                }
            }
        },
        Operation::Unstake { payer, .. } => {
            if pool.vault is Some && pool.holds(payer) {
                let i = pool.index_of(payer);
                if pool.step(op) != pool {
                    lemma_sums_update(pool.stakes, i, pool.step(op).stakes[i]);
                }
            }
        },
        Operation::Claim { payer, .. } => {
            if pool.vault is Some && pool.holds(payer) {
                let i = pool.index_of(payer);
                if pool.step(op) != pool {
                    lemma_sums_update(pool.stakes, i, pool.step(op).stakes[i]);
                }
            }
        },
    }
}

proof fn lemma_run_keeps_totals(pool: Pool, ops: Seq<Operation>)
    requires
        pool.balanced(),
    ensures
        pool.run(ops).balanced(),
    decreases ops.len(),
{
    if ops.len() > 0 {
        lemma_run_keeps_totals(pool, ops.drop_last());
        lemma_operation_keeps_totals(pool.run(ops.drop_last()), ops.last());
    }
}

/// Law: over any sequence of operations on a pool whose totals were right,
/// the totals are right after each operation on the way, and so at the end.
pub proof fn lemma_history_keeps_totals(pool: Pool, ops: Seq<Operation>)
    requires
        pool.balanced(),
    ensures
        forall|n: int| 0 <= n <= ops.len() ==> (#[trigger] pool.run(ops.take(n))).balanced(),
        pool.run(ops).balanced(),
{
    assert forall|n: int| 0 <= n <= ops.len() implies (#[trigger] pool.run(
        ops.take(n),
    )).balanced() by {
        lemma_run_keeps_totals(pool, ops.take(n));
    }
    lemma_run_keeps_totals(pool, ops);
}

/// Law: no operation sets the epoch of a stake record back, nor changes
/// whose record it is, whatever the operation, its inputs, the clock and the
/// ledger's answer.
pub proof fn lemma_operation_keeps_epochs(pool: Pool, op: Operation)
    ensures
        pool.never_earlier(pool.step(op)),
{
}

/// Law: over any sequence of operations, no stake record's epoch ever
/// decreases, and each record stays with its participant.
pub proof fn lemma_history_keeps_epochs(pool: Pool, ops: Seq<Operation>)
    ensures
        pool.never_earlier(pool.run(ops)),
    decreases ops.len(),
{
    if ops.len() > 0 {
        lemma_history_keeps_epochs(pool, ops.drop_last());
        lemma_operation_keeps_epochs(pool.run(ops.drop_last()), ops.last());
    }
}

/// Law: no operation gives a participant a second stake record.
pub proof fn lemma_operation_keeps_one_record_each(pool: Pool, op: Operation)
    requires
        pool.one_record_each(),
    ensures
        pool.step(op).one_record_each(),
{
}

/// Law: over any sequence of operations, no participant comes to have a
/// second stake record.
pub proof fn lemma_history_keeps_one_record_each(pool: Pool, ops: Seq<Operation>)
    requires
        pool.one_record_each(),
    ensures
        pool.run(ops).one_record_each(),
    decreases ops.len(),
{
    if ops.len() > 0 {
        lemma_history_keeps_one_record_each(pool, ops.drop_last());
        lemma_operation_keeps_one_record_each(pool.run(ops.drop_last()), ops.last());
    }
}

/// Law: whatever is done to a pool from its beginning, the vault's totals
/// are the sums over the stake records, and no participant has two records.
pub proof fn lemma_pool_from_empty(ops: Seq<Operation>)
    ensures
        Pool::empty().run(ops).balanced(),
        Pool::empty().run(ops).one_record_each(),
{
    lemma_run_keeps_totals(Pool::empty(), ops);
    lemma_history_keeps_one_record_each(Pool::empty(), ops);
}

} // verus!
