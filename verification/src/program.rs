//! The counter program: the two state transitions a ledger can commit on a
//! counter account.

use vstd::prelude::*;
use crate::account::{account_states, Account, AccountState};
use crate::pubkey::{system_program_id, system_program_key, Pubkey};

verus! {

/// Why the counter program turned an instruction down.
#[derive(Clone, Copy, Debug, PartialEq, Eq, Structural)]
pub enum ProgramError {
    /// The instruction names no operation, or one the program does not know.
    InvalidInstructionData,
    /// The account's payload is too small to hold a counter.
    InvalidAccountData,
    /// The instruction came with fewer accounts than the operation needs.
    NotEnoughAccountKeys,
}

/// The authority that owns every counter account while it is alive.
pub open spec fn counter_program_key() -> Pubkey {
    Pubkey {
        bytes: [
            3u8, 6u8, 110u8, 48u8, 78u8, 79u8, 9u8, 144u8,
            11u8, 138u8, 67u8, 89u8, 110u8, 169u8, 249u8, 46u8,
            36u8, 109u8, 196u8, 227u8, 247u8, 232u8, 72u8, 188u8,
            198u8, 113u8, 187u8, 112u8, 0u8, 0u8, 0u8, 0u8,
        ],
    }
}

/// The identity of the counter program,
/// `Counter111111111111111111111111111111111111` in base 58.
pub fn id() -> (r: Pubkey)
    ensures
        r == counter_program_key(),
{
    Pubkey {
        bytes: [
            3u8, 6u8, 110u8, 48u8, 78u8, 79u8, 9u8, 144u8,
            11u8, 138u8, 67u8, 89u8, 110u8, 169u8, 249u8, 46u8,
            36u8, 109u8, 196u8, 227u8, 247u8, 232u8, 72u8, 188u8,
            198u8, 113u8, 187u8, 112u8, 0u8, 0u8, 0u8, 0u8,
        ],
    }
}

/// The byte that asks for an increment.
pub const INCREMENT: u8 = 0;

/// The byte that asks for a closure.
pub const CLOSE: u8 = 1;

/// The counter after one more increment: it stops at 255.
pub open spec fn incremented_counter(value: u8) -> u8 {
    if value == 255u8 {
        255u8
    } else {
        (value + 1) as u8
    }
}

/// A balance after receiving `amount`: it stops at the largest balance.
pub open spec fn credited_balance(balance: u64, amount: u64) -> u64 {
    if balance + amount > u64::MAX {
        u64::MAX
    } else {
        (balance + amount) as u64
    }
}

/// What an increment leaves of an account with a non-empty payload: the
/// first payload byte advances, all else stays.
pub open spec fn incremented(account: AccountState) -> AccountState {
    AccountState {
        data: account.data.update(0, incremented_counter(account.data[0])),
        ..account
    }
}

/// What a closure leaves of an account: no payload, no balance, and the
/// neutral authority as owner.
pub open spec fn closed(account: AccountState) -> AccountState {
    AccountState { lamports: 0, data: Seq::empty(), owner: system_program_key() }
}

/// What a closure leaves of the sink: its balance grows by the closed
/// account's balance.
pub open spec fn credited(sink: AccountState, amount: u64) -> AccountState {
    AccountState { lamports: credited_balance(sink.lamports, amount), ..sink }
}

/// The outcome of one instruction on the accounts handed to it: the accounts
/// afterwards, or the reason nothing was changed.
pub open spec fn process_outcome(accounts: Seq<AccountState>, input: Seq<u8>) -> Result<
    Seq<AccountState>,
    ProgramError,
> {
    if input.len() == 0 {
        Err(ProgramError::InvalidInstructionData)
    } else if input[0] == INCREMENT {
        if accounts.len() == 0 {
            Err(ProgramError::NotEnoughAccountKeys)
        } else if accounts[0].data.len() == 0 {
            Err(ProgramError::InvalidAccountData)
        } else {
            Ok(accounts.update(0, incremented(accounts[0])))
        }
    } else if input[0] == CLOSE {
        if accounts.len() < 2 {
            Err(ProgramError::NotEnoughAccountKeys)
        } else {
            Ok(
                accounts.update(0, closed(accounts[0])).update(
                    1,
                    credited(accounts[1], accounts[0].lamports),
                ),
            )
        }
    } else {
        Err(ProgramError::InvalidInstructionData)
    }
}

/// Runs one instruction of the counter program.
///
/// The first input byte picks the operation. An increment advances the first
/// payload byte of the first account, stopping at 255. A closure empties the
/// first account's payload, moves its balance to the second account and hands
/// the first account to the neutral authority. A rejected instruction leaves
/// every account as it was.
pub fn process(_program_id: &Pubkey, accounts: &mut Vec<Account>, input: &[u8]) -> (r: Result<
    (),
    ProgramError,
>)
    ensures
        final(accounts).len() == old(accounts).len(),
        match process_outcome(account_states(old(accounts)@), input@) {
            Ok(after) => r is Ok && account_states(final(accounts)@) == after,
            Err(e) => r == Err::<(), ProgramError>(e) && account_states(final(accounts)@)
                == account_states(old(accounts)@),
        },
{
    if input.len() == 0 {
        return Err(ProgramError::InvalidInstructionData);
    }
    let operation: u8 = input[0];
    if operation == INCREMENT {
        if accounts.len() == 0 {
            return Err(ProgramError::NotEnoughAccountKeys);
        }
        if accounts[0].data.len() == 0 {
            return Err(ProgramError::InvalidAccountData);
        }
        let value: u8 = accounts[0].data[0];
        accounts[0].data[0] = value.saturating_add(1);
        Ok(())
    } else if operation == CLOSE {
        if accounts.len() < 2 {
            return Err(ProgramError::NotEnoughAccountKeys);
        }
        let balance: u64 = accounts[0].lamports;
        accounts[0].data.clear();
        accounts[0].owner = system_program_id();
        accounts[1].lamports = accounts[1].lamports.saturating_add(balance);
        accounts[0].lamports = 0;
        Ok(())
    } else {
        Err(ProgramError::InvalidInstructionData)
    }
}

} // verus!
