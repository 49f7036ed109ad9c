//! The instructions that ask the counter program for a mutation.

use vstd::prelude::*;
use vstd::slice::slice_to_vec;
use crate::program::{counter_program_key, id, CLOSE, INCREMENT};
use crate::pubkey::{incinerator_id, incinerator_key, Pubkey};

verus! {

/// One account an instruction touches, and how.
#[derive(Clone, Copy, Debug, PartialEq, Eq)]
pub struct AccountMeta {
    pub pubkey: Pubkey,
    pub is_signer: bool,
    pub is_writable: bool,
}

impl AccountMeta {
    /// Metadata for an account the instruction may write to.
    pub fn new(pubkey: Pubkey, is_signer: bool) -> (r: AccountMeta)
        ensures
            r == (AccountMeta { pubkey, is_signer, is_writable: true }),
    {
        AccountMeta { pubkey, is_signer, is_writable: true }
    }
}

/// A request to one program: the accounts it may touch and the bytes that
/// tell it what to do.
#[derive(Debug, PartialEq, Eq)]
pub struct Instruction {
    pub program_id: Pubkey,
    pub accounts: Vec<AccountMeta>,
    pub data: Vec<u8>,
}

/// The mathematical content of an [`Instruction`].
pub struct InstructionView {
    pub program_id: Pubkey,
    pub accounts: Seq<AccountMeta>,
    pub data: Seq<u8>,
}

impl View for Instruction {
    type V = InstructionView;

    open spec fn view(&self) -> InstructionView {
        InstructionView { program_id: self.program_id, accounts: self.accounts@, data: self.data@ }
    }
}

impl Instruction {
    /// An instruction for `program_id` carrying a copy of `data`.
    pub fn new_with_bytes(program_id: Pubkey, data: &[u8], accounts: Vec<AccountMeta>) -> (r:
        Instruction)
        ensures
            r@ == (InstructionView { program_id, accounts: accounts@, data: data@ }),
    {
        Instruction { program_id, accounts, data: slice_to_vec(data) }
    }
}

/// The instruction that increments the counter held by `key`.
pub open spec fn increment_request(key: Pubkey) -> InstructionView {
    InstructionView {
        program_id: counter_program_key(),
        accounts: seq![AccountMeta { pubkey: key, is_signer: false, is_writable: true }],
        data: seq![INCREMENT],
    }
}

/// The instruction that closes the account `key` and sends its balance to
/// the incinerator.
pub open spec fn close_request(key: Pubkey) -> InstructionView {
    InstructionView {
        program_id: counter_program_key(),
        accounts: seq![
            AccountMeta { pubkey: key, is_signer: false, is_writable: true },
            AccountMeta { pubkey: incinerator_key(), is_signer: false, is_writable: true },
        ],
        data: seq![CLOSE],
    }
}

/// Builds the instruction that increments the counter held by `key`.
pub fn increment_instruction(key: &Pubkey) -> (r: Instruction)
    ensures
        r@ == increment_request(*key),
{
    let mut accounts: Vec<AccountMeta> = Vec::new();
    accounts.push(AccountMeta::new(*key, false));
    let data: [u8; 1] = [INCREMENT];
    let r = Instruction::new_with_bytes(id(), data.as_slice(), accounts);
    assert(r@.data =~= increment_request(*key).data);
    r
}

/// Builds the instruction that closes the account `key`.
pub fn close_instruction(key: &Pubkey) -> (r: Instruction)
    ensures
        r@ == close_request(*key),
{
    let mut accounts: Vec<AccountMeta> = Vec::new();
    accounts.push(AccountMeta::new(*key, false));
    accounts.push(AccountMeta::new(incinerator_id(), false));
    let data: [u8; 1] = [CLOSE];
    let r = Instruction::new_with_bytes(id(), data.as_slice(), accounts);
    assert(r@.accounts =~= close_request(*key).accounts);
    assert(r@.data =~= close_request(*key).data);
    r
}

} // verus!
