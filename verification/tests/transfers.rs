use anchor_lang::solana_program::pubkey::Pubkey;
use anchor_lang::solana_program::system_instruction;
use staking::{
    AccountMeta, Authority, ClaimReward, CustomError, Instruction, StakeAccount, StakeSol,
    Transfer, UnstakeSol, VaultAccount,
};

const BOB: [u8; 32] = [
    1, 2, 3, 4, 5, 6, 7, 8, 9, 10, 11, 12, 13, 14, 15, 16, 17, 18, 19, 20, 21, 22, 23, 24, 25, 26,
    27, 28, 29, 30, 31, 32,
];
const VAULT: [u8; 32] = [0xee; 32];

fn stake_of(pending_reward: u64) -> StakeAccount {
    StakeAccount { user: BOB, amount: 1_000, last_epoch: 10, pending_reward }
}

fn vault() -> VaultAccount {
    VaultAccount { total_staked: 1_000, total_rewards: 5_000 }
}

fn expected(from: [u8; 32], to: [u8; 32], data: Vec<u8>) -> Instruction {
    Instruction {
        program_id: [0; 32],
        accounts: vec![
            AccountMeta { pubkey: from, is_signer: true, is_writable: true },
            AccountMeta { pubkey: to, is_signer: false, is_writable: true },
        ],
        data,
    }
}

fn same_as_system_interface(asked: &Transfer, from: [u8; 32], to: [u8; 32], lamports: u64) {
    let theirs = system_instruction::transfer(
        &Pubkey::new_from_array(from),
        &Pubkey::new_from_array(to),
        lamports,
    );
    let ours = asked.instruction();
    assert_eq!(ours.program_id, theirs.program_id.to_bytes());
    assert_eq!(ours.data, theirs.data);
    assert_eq!(ours.accounts.len(), theirs.accounts.len());
    for (a, b) in ours.accounts.iter().zip(theirs.accounts.iter()) {
        assert_eq!(a.pubkey, b.pubkey.to_bytes());
        assert_eq!(a.is_signer, b.is_signer);
        assert_eq!(a.is_writable, b.is_writable);
    }
}

#[test]
fn deposit_asks_for_a_transfer_from_payer_to_vault() {
    let ctx = StakeSol { payer: BOB, user_stake_acc: stake_of(0), vault_key: VAULT, vault: vault() };
    let asked = ctx.transfer(258);
    assert_eq!(asked.authority(), Authority::Payer);
    assert_eq!(
        *asked.instruction(),
        expected(BOB, VAULT, vec![2, 0, 0, 0, 2, 1, 0, 0, 0, 0, 0, 0])
    );
    same_as_system_interface(&asked, BOB, VAULT, 258);
}

#[test]
fn withdrawal_asks_for_a_transfer_from_vault_to_payer_on_the_vaults_word() {
    let ctx =
        UnstakeSol { payer: BOB, user_stake_acc: stake_of(0), vault_key: VAULT, vault: vault() };
    let asked = ctx.transfer(1_000, 10).unwrap();
    assert_eq!(asked.authority(), Authority::Vault);
    assert_eq!(
        *asked.instruction(),
        expected(VAULT, BOB, vec![2, 0, 0, 0, 0xe8, 0x03, 0, 0, 0, 0, 0, 0])
    );
    same_as_system_interface(&asked, VAULT, BOB, 1_000);
}

#[test]
fn claim_asks_for_the_pending_reward_as_it_stands() {
    let ctx = ClaimReward {
        payer: BOB,
        user_stake_acc: stake_of(0x0102_0304_0506_0708),
        vault_key: VAULT,
        vault: vault(),
    };
    let asked = ctx.transfer(10).unwrap();
    assert_eq!(asked.authority(), Authority::Vault);
    assert_eq!(
        *asked.instruction(),
        expected(VAULT, BOB, vec![2, 0, 0, 0, 8, 7, 6, 5, 4, 3, 2, 1])
    );
    same_as_system_interface(&asked, VAULT, BOB, 0x0102_0304_0506_0708);
}

#[test]
fn transfer_amount_is_encoded_over_the_whole_range() {
    let ctx = StakeSol { payer: BOB, user_stake_acc: stake_of(0), vault_key: VAULT, vault: vault() };
    assert_eq!(ctx.transfer(0).instruction().data, vec![2, 0, 0, 0, 0, 0, 0, 0, 0, 0, 0, 0]);
    assert_eq!(ctx.transfer(1).instruction().data, vec![2, 0, 0, 0, 1, 0, 0, 0, 0, 0, 0, 0]);
    assert_eq!(
        ctx.transfer(u64::MAX).instruction().data,
        vec![2, 0, 0, 0, 255, 255, 255, 255, 255, 255, 255, 255]
    );
    same_as_system_interface(&ctx.transfer(u64::MAX), BOB, VAULT, u64::MAX);
}

#[test]
fn asking_for_a_transfer_changes_no_record() {
    let ctx = ClaimReward { payer: BOB, user_stake_acc: stake_of(77), vault_key: VAULT, vault: vault() };
    let before = ctx;
    let first = ctx.transfer(12);
    let second = ctx.transfer(12);
    assert_eq!(ctx, before);
    assert_eq!(first, second);
    assert_eq!(first.clone(), second);
    assert_eq!(first.unwrap().authority(), Authority::Vault);
}

#[test]
fn withdrawal_beyond_the_principal_is_handed_no_transfer() {
    let ctx = UnstakeSol {
        payer: BOB,
        user_stake_acc: StakeAccount { user: BOB, amount: 50, last_epoch: 10, pending_reward: 0 },
        vault_key: VAULT,
        vault: VaultAccount { total_staked: 50, total_rewards: 0 },
    };
    assert_eq!(ctx.transfer(51, 10), Err(CustomError::InsufficientBalance));
    assert_eq!(ctx.transfer(51, 12), Err(CustomError::InsufficientBalance));
    assert_eq!(ctx.transfer(u64::MAX, 10), Err(CustomError::InsufficientBalance));
    let asked = ctx.transfer(50, 10).unwrap();
    assert_eq!(*asked.instruction(), expected(VAULT, BOB, vec![2, 0, 0, 0, 50, 0, 0, 0, 0, 0, 0, 0]));
    assert!(ctx.transfer(0, 10).is_ok());
}

#[test]
fn withdrawal_that_cannot_settle_is_handed_no_transfer() {
    let ctx =
        UnstakeSol { payer: BOB, user_stake_acc: stake_of(0), vault_key: VAULT, vault: vault() };
    assert_eq!(ctx.transfer(1, 9), Err(CustomError::ArithmeticUnderflow));
    assert_eq!(ctx.transfer(1_001, 9), Err(CustomError::InsufficientBalance));
    assert_eq!(ctx.transfer(1, u64::MAX), Err(CustomError::ArithmeticOverflow));
    let full = UnstakeSol {
        payer: BOB,
        user_stake_acc: stake_of(0),
        vault_key: VAULT,
        vault: VaultAccount { total_staked: 1_000, total_rewards: u64::MAX },
    };
    assert_eq!(full.transfer(1, 11), Err(CustomError::ArithmeticOverflow));
    assert!(full.transfer(1, 10).is_ok());
}

#[test]
fn claim_with_the_clock_behind_is_handed_no_transfer() {
    let ctx = ClaimReward { payer: BOB, user_stake_acc: stake_of(77), vault_key: VAULT, vault: vault() };
    assert_eq!(ctx.transfer(9), Err(CustomError::ArithmeticUnderflow));
    assert_eq!(ctx.transfer(0), Err(CustomError::ArithmeticUnderflow));
    let asked = ctx.transfer(10).unwrap();
    assert_eq!(*asked.instruction(), expected(VAULT, BOB, vec![2, 0, 0, 0, 77, 0, 0, 0, 0, 0, 0, 0]));
    assert!(ctx.transfer(u64::MAX).is_ok());
}
