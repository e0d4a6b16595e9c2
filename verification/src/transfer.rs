use anchor_lang::solana_program::pubkey::Pubkey;
use anchor_lang::solana_program::system_instruction;
use vstd::bytes::spec_u64_to_le_bytes;
use vstd::prelude::*;

verus! {

/// On whose word the ledger moves the funds.
#[derive(Clone, Copy, Debug, PartialEq, Eq, Structural)]
pub enum Authority {
    /// The participant who called the operation signs for their own balance.
    Payer,
    /// The pool signs for the vault's balance. No caller holds this
    /// authority: only a withdrawal or a claim of this crate asks for it.
    Vault,
}

/// One account that an instruction touches.
#[derive(Clone, Copy, Debug, PartialEq, Eq)]
pub struct AccountMeta {
    /// The account's address.
    pub pubkey: [u8; 32],
    /// Whether the account has to sign.
    pub is_signer: bool,
    /// Whether the instruction may change the account.
    pub is_writable: bool,
}

/// An instruction for another program, field by field as the runtime takes it.
#[derive(Clone, Debug, PartialEq, Eq)]
pub struct Instruction {
    /// Address of the program that carries the instruction out.
    pub program_id: [u8; 32],
    /// The accounts it touches, in the order the program expects.
    pub accounts: Vec<AccountMeta>,
    /// The program's own encoding of what to do.
    pub data: Vec<u8>,
}

/// An [`Instruction`] as plain sequences.
pub struct InstructionView {
    pub program_id: Seq<u8>,
    pub accounts: Seq<AccountMeta>,
    pub data: Seq<u8>,
}

impl View for Instruction {
    type V = InstructionView;

    open spec fn view(&self) -> InstructionView {
        InstructionView {
            program_id: self.program_id@,
            accounts: self.accounts@,
            data: self.data@,
        }
    }
}

/// Address of the system program: thirty-two zero bytes.
pub open spec fn system_program_id() -> Seq<u8> {
    Seq::new(32, |i: int| 0u8)
}

/// What the system program reads as "transfer `lamports`": the number 2 in
/// four bytes, then the amount in eight, both little-endian.
pub open spec fn transfer_data(lamports: u64) -> Seq<u8> {
    seq![2u8, 0u8, 0u8, 0u8] + spec_u64_to_le_bytes(lamports)
}

/// The system program's instruction that moves `lamports` from `from` to
/// `to`: `from` signs, and both accounts change.
pub open spec fn transfer_instruction(from: [u8; 32], to: [u8; 32], lamports: u64) -> InstructionView {
    InstructionView {
        program_id: system_program_id(),
        accounts: seq![
            AccountMeta { pubkey: from, is_signer: true, is_writable: true },
            AccountMeta { pubkey: to, is_signer: false, is_writable: true },
        ],
        data: transfer_data(lamports),
    }
}

/// A movement of funds that an operation asks of the ledger. Only this crate
/// makes one. One on the vault's authority is handed out for a withdrawal or
/// a claim, and only where the records handed in pass what the operation
/// tests before it turns to the ledger: the amount and the payee are those
/// that the records allow.
#[derive(Clone, Debug, PartialEq, Eq)]
pub struct Transfer {
    authority: Authority,
    instruction: Instruction,
}

/// A [`Transfer`] as plain values.
pub struct TransferView {
    pub authority: Authority,
    pub instruction: InstructionView,
}

impl View for Transfer {
    type V = TransferView;

    closed spec fn view(&self) -> TransferView {
        TransferView { authority: self.authority, instruction: self.instruction@ }
    }
}

impl Transfer {
    /// The transfer of `lamports` from `from` to `to` on `authority`.
    pub(crate) fn new(authority: Authority, from: &[u8; 32], to: &[u8; 32], lamports: u64) -> (t:
        Transfer)
        ensures
            t@.authority == authority,
            t@.instruction == transfer_instruction(*from, *to, lamports),
    {
        Transfer { authority, instruction: system_transfer(from, to, lamports) }
    }

    /// On whose word the funds move.
    pub fn authority(&self) -> (authority: Authority)
        ensures
            authority == self@.authority,
    {
        self.authority
    }

    /// The instruction to hand to the system program.
    pub fn instruction(&self) -> (instruction: &Instruction)
        ensures
            instruction@ == self@.instruction,
    {
        &self.instruction
    }
}

/// Calls `system_instruction::transfer` of the Solana system interface, which
/// anchor-lang re-exports, and copies the instruction it builds field by
/// field.
///
/// Trusted, not proved: that the instruction names the system program,
/// lists `from` as a writable signer and then `to` as writable, and carries
/// the variant index of `SystemInstruction::Transfer`, which is 2, followed
/// by `lamports`, in bincode's fixed-width little-endian encoding.
#[verifier::external_body]
fn system_transfer(from: &[u8; 32], to: &[u8; 32], lamports: u64) -> (ix: Instruction)
    ensures
        ix@ == transfer_instruction(*from, *to, lamports),
{
    let payer = Pubkey::new_from_array(*from);
    let ix = system_instruction::transfer(&payer, &Pubkey::new_from_array(*to), lamports);
    let accounts = ix.accounts.iter().map(
        |m| AccountMeta {
            pubkey: m.pubkey.to_bytes(),
            is_signer: m.is_signer,
            is_writable: m.is_writable,
        },
    );
    Instruction { program_id: ix.program_id.to_bytes(), accounts: accounts.collect(), data: ix.data }
}

} // verus!
