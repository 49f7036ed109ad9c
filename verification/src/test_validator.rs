//! An in-memory ledger of counter accounts: it applies increments and
//! closures through the counter program and says, for each committed
//! mutation, what subscribers are to be told.

use vstd::prelude::*;
use solana_sdk::account::{AccountSharedData, ReadableAccount};
use solana_sdk::rent::Rent;
use crate::account::{account_states, Account, AccountState};
use crate::instruction::{
    close_instruction, close_request, increment_instruction, increment_request, Instruction,
    InstructionView,
};
use crate::notification::{Notification, NotificationView};
use crate::program::{
    closed, counter_program_key, credited_balance, id, incremented, process, INCREMENT,
};
use crate::pubkey::{system_program_id, Pubkey};

verus! {

/// Why the ledger could not read or mutate an account.
#[derive(Clone, Copy, Debug, PartialEq, Eq, Structural)]
pub enum AccountError {
    /// The ledger holds no account under that key.
    MissingAccount,
    /// The account's payload is too small to hold a counter.
    MalformedData,
}

impl AccountError {
    /// The diagnostic for a read that ended in this error.
    pub fn message(&self) -> (r: &'static str)
        ensures
            r@ == match *self {
                AccountError::MissingAccount => "Counter account not found"@,
                AccountError::MalformedData => "Account data too small"@,
            },
    {
        match self {
            AccountError::MissingAccount => "Counter account not found",
            AccountError::MalformedData => "Account data too small",
        }
    }
}

/// The payload size of a counter account, in bytes.
pub const COUNTER_SPACE: usize = 1;

/// The balance that exempts an account with `data_len` payload bytes from
/// rent: 128 bytes of overhead are added to the payload, and each byte costs
/// 3480 lamports a year, for two years.
pub open spec fn rent_exempt_balance(data_len: nat) -> nat {
    (128 + data_len) * 6960
}

/// The state every counter account starts in: rent-exempt, counter at zero,
/// owned by the counter program.
pub open spec fn genesis_state() -> AccountState {
    AccountState {
        lamports: rent_exempt_balance(COUNTER_SPACE as nat) as u64,
        data: seq![0u8],
        owner: counter_program_key(),
    }
}

/// Calls `Rent::minimum_balance` of `solana_sdk::rent` on the default rent.
///
/// Trusted: the default rent charges 3480 lamports per byte-year with an
/// exemption threshold of 2.0 years, and the method multiplies the payload
/// length plus 128 by both. Up to the length admitted here the product stays
/// far below 2^53, so the floating-point step is exact.
#[verifier::external_body]
fn rent_exempt_minimum(data_len: usize) -> (r: u64)
    requires
        data_len <= u32::MAX,
    ensures
        r == rent_exempt_balance(data_len as nat),
{
    Rent::default().minimum_balance(data_len)
}

/// Calls `AccountSharedData::new_data` of `solana_sdk::account` with a
/// one-byte state and copies the account it yields.
///
/// Trusted: an account that comes back has the given balance and owner, and
/// as payload the serialized state, which for a `u8` is that one byte.
#[verifier::external_body]
fn new_data_account(lamports: u64, state: u8, owner: &Pubkey) -> (r: Option<Account>)
    ensures
        r matches Some(account) ==> account@ == (AccountState {
            lamports,
            data: seq![state],
            owner: *owner,
        }),
{
    let owner = solana_sdk::pubkey::Pubkey::new_from_array(owner.bytes);
    match AccountSharedData::new_data(lamports, &state, &owner) {
        Ok(shared) => Some(
            Account {
                lamports: shared.lamports(),
                data: shared.data().to_vec(),
                owner: Pubkey { bytes: shared.owner().to_bytes() },
            },
        ),
        Err(_) => None,
    }
}

/// The account every counter starts as.
pub fn new_counter_account() -> (r: Account)
    ensures
        r@ == genesis_state(),
{
    let lamports = rent_exempt_minimum(COUNTER_SPACE);
    match new_data_account(lamports, 0u8, &id()) {
        Some(account) => account,
        None => {
            let mut data: Vec<u8> = Vec::new();
            data.push(0u8);
            Account::new(lamports, data, id())
        },
    }
}

/// The counter held by what a read of the ledger yielded: the first payload
/// byte of the account, if there is an account and it has a payload.
pub open spec fn counter_in(found: Option<AccountState>) -> Result<u8, AccountError> {
    match found {
        None => Err(AccountError::MissingAccount),
        Some(account) => if account.data.len() == 0 {
            Err(AccountError::MalformedData)
        } else {
            Ok(account.data[0])
        },
    }
}

/// Reads the counter out of what a read of the ledger yielded.
pub fn counter_of(found: &Option<Account>) -> (r: Result<u8, AccountError>)
    ensures
        r == counter_in(
            match *found {
                Some(account) => Some(account@),
                None => None,
            },
        ),
{
    match found {
        None => Err(AccountError::MissingAccount),
        Some(account) => {
            if account.data.len() == 0 {
                Err(AccountError::MalformedData)
            } else {
                Ok(account.data[0])
            }
        },
    }
}

/// The mathematical content of a [`ValidatorContext`].
pub struct LedgerView {
    /// The live accounts, by key.
    pub accounts: Map<Pubkey, AccountState>,
    /// The slot of the latest commit; zero before the first.
    pub slot: nat,
    /// The lamports that closures have sent to the incinerator so far.
    pub burned: u64,
}

impl LedgerView {
    /// The ledger before any mutation: one fresh counter account under each
    /// of `keys`.
    pub open spec fn genesis(keys: Seq<Pubkey>) -> LedgerView {
        LedgerView {
            accounts: Map::new(|key: Pubkey| keys.contains(key), |key: Pubkey| genesis_state()),
            slot: 0,
            burned: 0,
        }
    }

    /// Every account on the ledger is alive and owned by the counter program.
    pub open spec fn well_formed(self) -> bool {
        forall|key: Pubkey| #[trigger]
            self.accounts.contains_key(key) ==> self.accounts[key].is_alive()
                && self.accounts[key].owner == counter_program_key()
    }

    /// What reading the account `key` yields: its current state, or nothing
    /// if the ledger holds no such account.
    pub open spec fn read(self, key: Pubkey) -> Option<AccountState> {
        if self.accounts.contains_key(key) {
            Some(self.accounts[key])
        } else {
            None
        }
    }

    /// What reading the counter of `key` yields.
    pub open spec fn counter(self, key: Pubkey) -> Result<u8, AccountError> {
        counter_in(self.read(key))
    }

    /// What an increment of `key` reports: the notification of the commit, or
    /// why nothing was committed.
    pub open spec fn increment_outcome(self, key: Pubkey) -> Result<
        NotificationView,
        AccountError,
    > {
        if !self.accounts.contains_key(key) {
            Err(AccountError::MissingAccount)
        } else if self.accounts[key].data.len() == 0 {
            Err(AccountError::MalformedData)
        } else {
            Ok(
                NotificationView {
                    key,
                    slot: self.slot + 1,
                    account: incremented(self.accounts[key]),
                },
            )
        }
    }

    /// The ledger after an increment of `key` was asked for.
    pub open spec fn after_increment(self, key: Pubkey) -> LedgerView {
        match self.increment_outcome(key) {
            Ok(notification) => LedgerView {
                accounts: self.accounts.insert(key, notification.account),
                slot: self.slot + 1,
                burned: self.burned,
            },
            Err(_) => self,
        }
    }

    /// What a closure of `key` reports: the notification of the commit, or
    /// why nothing was committed.
    pub open spec fn close_outcome(self, key: Pubkey) -> Result<NotificationView, AccountError> {
        if !self.accounts.contains_key(key) {
            Err(AccountError::MissingAccount)
        } else {
            Ok(NotificationView { key, slot: self.slot + 1, account: closed(self.accounts[key]) })
        }
    }

    /// The ledger after a closure of `key` was asked for: on success the
    /// account is gone and its balance is with the incinerator.
    pub open spec fn after_close(self, key: Pubkey) -> LedgerView {
        match self.close_outcome(key) {
            Ok(_) => LedgerView {
                accounts: self.accounts.remove(key),
                slot: self.slot + 1,
                burned: credited_balance(self.burned, self.accounts[key].lamports),
            },
            Err(_) => self,
        }
    }
}

/// What a request of the counter program comes to on a ledger: the ledger
/// afterwards and what is reported, by the operation the request asks for.
spec fn requested(ledger: LedgerView, request: InstructionView) -> (
    LedgerView,
    Result<NotificationView, AccountError>,
) {
    let key = request.accounts[0].pubkey;
    if request.data[0] == INCREMENT {
        (ledger.after_increment(key), ledger.increment_outcome(key))
    } else {
        (ledger.after_close(key), ledger.close_outcome(key))
    }
}

/// One stored account with the key it is stored under.
#[derive(Debug)]
struct Entry {
    key: Pubkey,
    account: Account,
}

/// Whether `index` is a place in `entries` that holds `key`.
spec fn holds_key(entries: Seq<Entry>, key: Pubkey, index: int) -> bool {
    0 <= index < entries.len() && entries[index].key == key
}

/// The accounts that a list of entries stores, by key.
spec fn stored_accounts(entries: Seq<Entry>) -> Map<Pubkey, AccountState> {
    Map::new(
        |key: Pubkey| exists|i: int| holds_key(entries, key, i),
        |key: Pubkey| entries[choose|i: int| holds_key(entries, key, i)].account@,
    )
}

/// No key is stored twice.
spec fn distinct_keys(entries: Seq<Entry>) -> bool {
    forall|i: int, j: int| 0 <= i < j < entries.len() ==> entries[i].key != entries[j].key
}

/// Under distinct keys, the entry at `index` is what its key maps to.
proof fn lemma_stored_at(entries: Seq<Entry>, index: int)
    requires
        distinct_keys(entries),
        0 <= index < entries.len(),
    ensures
        stored_accounts(entries).contains_key(entries[index].key),
        stored_accounts(entries)[entries[index].key] == entries[index].account@,
{
    assert(holds_key(entries, entries[index].key, index));
}

/// Replacing the account at `index` replaces what its key maps to.
proof fn lemma_stored_update(entries: Seq<Entry>, index: int, entry: Entry)
    requires
        distinct_keys(entries),
        0 <= index < entries.len(),
        entry.key == entries[index].key,
    ensures
        distinct_keys(entries.update(index, entry)),
        stored_accounts(entries.update(index, entry)) == stored_accounts(entries).insert(
            entry.key,
            entry.account@,
        ),
{
    let after = entries.update(index, entry);
    assert forall|key: Pubkey|
        stored_accounts(after).contains_key(key) <==> #[trigger] stored_accounts(entries).insert(
            entry.key,
            entry.account@,
        ).contains_key(key) by {
        if stored_accounts(after).contains_key(key) {
            let i = choose|i: int| holds_key(after, key, i);
            assert(holds_key(entries, key, i));
        }
        if stored_accounts(entries).contains_key(key) {
            let i = choose|i: int| holds_key(entries, key, i);
            assert(holds_key(after, key, i));
        }
        if key == entry.key {
            assert(holds_key(after, key, index));
        }
    }
    assert forall|key: Pubkey| #[trigger] stored_accounts(after).contains_key(key) implies
        stored_accounts(after)[key] == stored_accounts(entries).insert(
            entry.key,
            entry.account@,
        )[key] by {
        let i = choose|i: int| holds_key(after, key, i);
        if key != entry.key {
            lemma_stored_at(entries, i);
        }
    }
}

/// Taking out the entry at `index` takes its key out of the map.
proof fn lemma_stored_remove(entries: Seq<Entry>, index: int)
    requires
        distinct_keys(entries),
        0 <= index < entries.len(),
    ensures
        distinct_keys(entries.remove(index)),
        stored_accounts(entries.remove(index)) == stored_accounts(entries).remove(
            entries[index].key,
        ),
{
    let after = entries.remove(index);
    let gone = entries[index].key;
    assert forall|key: Pubkey|
        stored_accounts(after).contains_key(key) <==> #[trigger] stored_accounts(entries).remove(
            gone,
        ).contains_key(key) by {
        if stored_accounts(after).contains_key(key) {
            let i = choose|i: int| holds_key(after, key, i);
            let from = if i < index { i } else { i + 1 };
            assert(holds_key(entries, key, from));
        }
        if stored_accounts(entries).contains_key(key) && key != gone {
            let i = choose|i: int| holds_key(entries, key, i);
            let to = if i < index { i } else { i - 1 };
            assert(holds_key(after, key, to));
        }
    }
    assert forall|key: Pubkey| #[trigger] stored_accounts(after).contains_key(key) implies
        stored_accounts(after)[key] == stored_accounts(entries).remove(gone)[key] by {
        let i = choose|i: int| holds_key(after, key, i);
        let from = if i < index { i } else { i + 1 };
        lemma_stored_at(entries, from);
    }
}

/// Appending an entry under a key not yet stored adds it to the map.
proof fn lemma_stored_push(entries: Seq<Entry>, entry: Entry)
    requires
        distinct_keys(entries),
        !stored_accounts(entries).contains_key(entry.key),
    ensures
        distinct_keys(entries.push(entry)),
        stored_accounts(entries.push(entry)) == stored_accounts(entries).insert(
            entry.key,
            entry.account@,
        ),
{
    let after = entries.push(entry);
    let last = entries.len() as int;
    assert forall|i: int, j: int| 0 <= i < j < after.len() implies after[i].key
        != after[j].key by {
        if j == last {
            assert(holds_key(entries, after[i].key, i));
        }
    }
    assert forall|key: Pubkey|
        stored_accounts(after).contains_key(key) <==> #[trigger] stored_accounts(entries).insert(
            entry.key,
            entry.account@,
        ).contains_key(key) by {
        if stored_accounts(after).contains_key(key) {
            let i = choose|i: int| holds_key(after, key, i);
            if i < last {
                assert(holds_key(entries, key, i));
            }
        }
        if stored_accounts(entries).contains_key(key) {
            let i = choose|i: int| holds_key(entries, key, i);
            assert(holds_key(after, key, i));
        }
        if key == entry.key {
            assert(holds_key(after, key, last));
        }
    }
    assert forall|key: Pubkey| #[trigger] stored_accounts(after).contains_key(key) implies
        stored_accounts(after)[key] == stored_accounts(entries).insert(
            entry.key,
            entry.account@,
        )[key] by {
        let i = choose|i: int| holds_key(after, key, i);
        if i < last {
            lemma_stored_at(entries, i);
        }
    }
}

/// Where `key` is stored among `entries`, if it is.
fn find_entry(entries: &Vec<Entry>, key: &Pubkey) -> (r: Option<usize>)
    ensures
        match r {
            Some(index) => holds_key(entries@, *key, index as int),
            None => !stored_accounts(entries@).contains_key(*key),
        },
{
    let mut i: usize = 0;
    while i < entries.len()
        invariant
            i <= entries.len(),
            forall|j: int| 0 <= j < i ==> !holds_key(entries@, *key, j),
        decreases entries.len() - i,
    {
        if entries[i].key == *key {
            return Some(i);
        }
        i = i + 1;
    }
    None
}

/// The ledger: the live counter accounts, the slot of the latest commit and
/// the lamports burned so far.
#[derive(Debug)]
pub struct ValidatorContext {
    entries: Vec<Entry>,
    slot: u64,
    burned: u64,
}

impl View for ValidatorContext {
    type V = LedgerView;

    closed spec fn view(&self) -> LedgerView {
        LedgerView {
            accounts: stored_accounts(self.entries@),
            slot: self.slot as nat,
            burned: self.burned,
        }
    }
}

impl ValidatorContext {
    #[verifier::type_invariant]
    spec fn entries_are_sound(self) -> bool {
        &&& distinct_keys(self.entries@)
        &&& forall|i: int|
            0 <= i < self.entries.len() ==> (#[trigger] self.entries[i]).account@.is_alive()
                && self.entries[i].account.owner == counter_program_key()
    }

    /// The slot of the latest commit; zero before the first.
    pub fn slot(&self) -> (r: u64)
        ensures
            r == self@.slot,
    {
        self.slot
    }

    /// The lamports that closures have sent to the incinerator so far.
    pub fn burned(&self) -> (r: u64)
        ensures
            r == self@.burned,
    {
        self.burned
    }

    /// Reads the account `key` as it is now. An account that was closed, or
    /// never existed, is not found.
    pub fn get_account(&self, account_id: &Pubkey) -> (r: Option<Account>)
        ensures
            self@.well_formed(),
            match r {
                Some(account) => self@.read(*account_id) == Some(account@),
                None => self@.read(*account_id) is None,
            },
    {
        proof {
            use_type_invariant(self);
        }
        match find_entry(&self.entries, account_id) {
            Some(index) => {
                Some(self.entries[index].account.clone())
            },
            None => None,
        }
    }

    /// Reads the counter that `key` holds: the first byte of its payload.
    pub fn get_counter(&self, key: &Pubkey) -> (r: Result<u8, AccountError>)
        ensures
            r == self@.counter(*key),
    {
        let found = self.get_account(key);
        counter_of(&found)
    }

    /// Puts a counter account with the given balance and payload on the
    /// ledger, owned by the counter program. Nothing is added, and the answer
    /// is `false`, if the key is taken or the account would not be alive.
    pub fn add_account(&mut self, key: Pubkey, lamports: u64, data: Vec<u8>) -> (added: bool)
        ensures
            added == (!old(self)@.accounts.contains_key(key) && (data@.len() > 0 || lamports > 0)),
            added ==> final(self)@ == (LedgerView {
                accounts: old(self)@.accounts.insert(
                    key,
                    AccountState { lamports, data: data@, owner: counter_program_key() },
                ),
                ..old(self)@
            }),
            !added ==> final(self)@ == old(self)@,
            final(self)@.well_formed(),
    {
        proof {
            use_type_invariant(&*self);
        }
        if data.len() == 0 && lamports == 0 {
            return false;
        }
        match find_entry(&self.entries, &key) {
            Some(_) => false,
            None => {
                let entry = Entry { key, account: Account::new(lamports, data, id()) };
                let mut entries: Vec<Entry> = Vec::new();
                core::mem::swap(&mut self.entries, &mut entries);
                proof {
                    lemma_stored_push(entries@, entry);
                }
                entries.push(entry);
                self.entries = entries;
                true
            },
        }
    }

    /// Commits what a mutation left of the account stored at `index`: the
    /// account is replaced, or taken off the ledger if it is no longer
    /// alive, and the slot advances. Hands back what subscribers are told.
    fn commit(&mut self, index: usize, after: Account) -> (r: Notification)
        requires
            index < old(self).entries.len(),
            old(self).slot < u64::MAX,
            after@.is_alive() ==> after.owner == counter_program_key(),
        ensures
            r@ == (NotificationView {
                key: old(self).entries[index as int].key,
                slot: old(self)@.slot + 1,
                account: after@,
            }),
            final(self)@.slot == old(self)@.slot + 1,
            final(self)@.burned == old(self)@.burned,
            final(self)@.accounts == if after@.is_alive() {
                old(self)@.accounts.insert(old(self).entries[index as int].key, after@)
            } else {
                old(self)@.accounts.remove(old(self).entries[index as int].key)
            },
            final(self)@.well_formed(),
    {
        proof {
            use_type_invariant(&*self);
        }
        let key = self.entries[index].key;
        let told = after.clone();
        let mut entries: Vec<Entry> = Vec::new();
        core::mem::swap(&mut self.entries, &mut entries);
        if after.is_alive() {
            proof {
                lemma_stored_update(entries@, index as int, Entry { key, account: after });
            }
            entries.set(index, Entry { key, account: after });
        } else {
            proof {
                lemma_stored_remove(entries@, index as int);
            }
            entries.remove(index);
        }
        self.entries = entries;
        self.slot = self.slot + 1;
        Notification { key, slot: self.slot, account: told }
    }

    /// Runs one request of the counter program against the ledger and commits
    /// what it leaves: the account the request names first is loaded, a
    /// closure is also handed the sink with all that was burned so far, and
    /// the outcome is stored only if the program accepts the request.
    fn send_transaction(&mut self, instruction: &Instruction) -> (r: Result<
        Notification,
        AccountError,
    >)
        requires
            old(self)@.slot < u64::MAX,
            instruction@ == increment_request(instruction@.accounts[0].pubkey) || instruction@
                == close_request(instruction@.accounts[0].pubkey),
        ensures
            final(self)@ == requested(old(self)@, instruction@).0,
            final(self)@.well_formed(),
            match r {
                Ok(notification) => requested(old(self)@, instruction@).1 == Ok::<
                    NotificationView,
                    AccountError,
                >(notification@),
                Err(e) => requested(old(self)@, instruction@).1 == Err::<
                    NotificationView,
                    AccountError,
                >(e),
            },
    {
        proof {
            use_type_invariant(&*self);
        }
        let key = instruction.accounts[0].pubkey;
        match find_entry(&self.entries, &key) {
            None => Err(AccountError::MissingAccount),
            Some(index) => {
                let mut accounts: Vec<Account> = Vec::new();
                accounts.push(self.entries[index].account.clone());
                if instruction.accounts.len() > 1 {
                    accounts.push(Account::new(self.burned, Vec::new(), system_program_id()));
                }
                match process(&instruction.program_id, &mut accounts, instruction.data.as_slice()) {
                    Ok(_) => {
                        assert(account_states(accounts@)[0] == accounts@[0]@);
                        if accounts.len() > 1 {
                            assert(account_states(accounts@)[1] == accounts@[1]@);
                            self.burned = accounts[1].lamports;
                        }
                        let after = accounts.remove(0);
                        Ok(self.commit(index, after))
                    },
                    // The program turns these requests down only for want of a payload.
                    Err(_) => Err(AccountError::MalformedData),
                }
            },
        }
    }

    /// Increments the counter held by `key` and commits the result. The
    /// counter stops at 255. Nothing is committed if the ledger holds no such
    /// account or its payload is empty.
    pub fn increment_counter(&mut self, key: &Pubkey) -> (r: Result<Notification, AccountError>)
        requires
            old(self)@.slot < u64::MAX,
        ensures
            final(self)@ == old(self)@.after_increment(*key),
            final(self)@.well_formed(),
            match r {
                Ok(notification) => old(self)@.increment_outcome(*key) == Ok::<
                    NotificationView,
                    AccountError,
                >(notification@),
                Err(e) => old(self)@.increment_outcome(*key) == Err::<
                    NotificationView,
                    AccountError,
                >(e),
            },
    {
        let instruction = increment_instruction(key);
        self.send_transaction(&instruction)
    }

    /// Closes the account `key` and commits the result: its payload is
    /// emptied, its balance goes to the incinerator, it is handed to the
    /// neutral authority, and it leaves the ledger. Nothing is committed if
    /// the ledger holds no such account.
    pub fn close_counter(&mut self, key: &Pubkey) -> (r: Result<Notification, AccountError>)
        requires
            old(self)@.slot < u64::MAX,
        ensures
            final(self)@ == old(self)@.after_close(*key),
            final(self)@.well_formed(),
            match r {
                Ok(notification) => old(self)@.close_outcome(*key) == Ok::<
                    NotificationView,
                    AccountError,
                >(notification@),
                Err(e) => old(self)@.close_outcome(*key) == Err::<NotificationView, AccountError>(
                    e,
                ),
            },
    {
        let instruction = close_instruction(key);
        self.send_transaction(&instruction)
    }
}

/// Starts a ledger that holds one fresh counter account under each of
/// `keys`, each rent-exempt, with its counter at zero and owned by the
/// counter program. A key given twice gets one account.
pub fn start_test_validator(keys: &[Pubkey]) -> (r: ValidatorContext)
    ensures
        r@ == LedgerView::genesis(keys@),
        r@.well_formed(),
{
    let mut entries: Vec<Entry> = Vec::new();
    let mut i: usize = 0;
    while i < keys.len()
        invariant
            i <= keys.len(),
            distinct_keys(entries@),
            forall|j: int|
                0 <= j < entries.len() ==> (#[trigger] entries[j]).account@ == genesis_state(),
            stored_accounts(entries@) == LedgerView::genesis(keys@.take(i as int)).accounts,
        decreases keys.len() - i,
    {
        let key = keys[i];
        if find_entry(&entries, &key).is_none() {
            let entry = Entry { key, account: new_counter_account() };
            proof {
                lemma_stored_push(entries@, entry);
            }
            entries.push(entry);
        }
        proof {
            let seen = keys@.take(i as int);
            let next = keys@.take(i + 1);
            assert forall|k: Pubkey| next.contains(k) <==> (seen.contains(k) || k == key) by {
                if k == key {
                    assert(next[i as int] == k);
                }
            }
        }
        i = i + 1;
    }
    assert(keys@.take(keys.len() as int) =~= keys@);
    ValidatorContext { entries, slot: 0, burned: 0 }
}

} // verus!
