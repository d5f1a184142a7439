//! The instruction handlers. The host hands each call the program's address,
//! the accounts of the instruction and its data; a handler appends the lines
//! it logs to `log` and says whether the call succeeded.

use vstd::prelude::*;
use vstd::string::StringExecFns;

use crate::account::{base58_text, key_text, same_key, Account};
use crate::counter::{
    counter_of, increment_counter, le_bytes, lemma_le_round_trip, next_count, COUNTER_LEN,
};
use crate::decimal::{decimal, decimal_text};
use crate::greeting::{greeting, greeting_of};

verus! {

/// Why a call failed.
#[derive(Clone, Copy, Debug, PartialEq, Eq, Structural)]
pub enum GreetingError {
    /// The instruction named no account.
    NotEnoughAccountKeys,
    /// The greeted account is not owned by this program.
    IncorrectProgramId,
    /// The greeted account's data is too short to hold the counter.
    InvalidAccountData,
}

/// The texts of the lines of a log.
pub open spec fn texts(log: Seq<String>) -> Seq<Seq<char>> {
    log.map_values(|s: String| s@)
}

/// What the counting handler logs first, whatever follows.
pub open spec fn entry_lines(program_id: Seq<u8>) -> Seq<Seq<char>> {
    seq!["Hello World Solana program entrypoint"@, "Program ID: "@ + base58_text(program_id)]
}

/// The outcome of the counting handler.
pub open spec fn counting_result(program_id: Seq<u8>, accounts: Seq<Account>, data: Seq<u8>) -> Result<
    (),
    GreetingError,
> {
    if accounts.len() == 0 {
        Err(GreetingError::NotEnoughAccountKeys)
    } else if accounts[0].owner@ != program_id {
        Err(GreetingError::IncorrectProgramId)
    } else if accounts[0].data@.len() < COUNTER_LEN {
        Err(GreetingError::InvalidAccountData)
    } else {
        Ok(())
    }
}

/// The lines that the counting handler logs.
pub open spec fn counting_log(program_id: Seq<u8>, accounts: Seq<Account>, data: Seq<u8>) -> Seq<
    Seq<char>,
> {
    if accounts.len() == 0 {
        entry_lines(program_id)
    } else if accounts[0].owner@ != program_id {
        entry_lines(program_id).push("Greeted account does not have the correct program id"@)
    } else if accounts[0].data@.len() < COUNTER_LEN {
        entry_lines(program_id).push(greeting_of(data)).push(
            "Account data too small to store counter"@,
        )
    } else {
        entry_lines(program_id).push(greeting_of(data)).push(
            "Greeting count: "@ + decimal(next_count(counter_of(accounts[0].data@)) as nat),
        ).push("Program complete!"@)
    }
}

/// `after` is `before` with one more greeting counted in the first account:
/// its first four bytes hold the next count, and nothing else changed.
pub open spec fn counted(before: Seq<Account>, after: Seq<Account>) -> bool {
    &&& before.len() > 0
    &&& after.len() == before.len()
    &&& after[0].key == before[0].key
    &&& after[0].owner == before[0].owner
    &&& after[0].data@ == le_bytes(next_count(counter_of(before[0].data@))) + before[0].data@.subrange(
        4,
        before[0].data@.len() as int,
    )
    &&& forall|i: int| 1 <= i < before.len() ==> after[i] == before[i]
}

/// The lines that the read-only handler logs.
pub open spec fn readonly_log(accounts: Seq<Account>, data: Seq<u8>) -> Seq<Seq<char>> {
    if accounts.len() == 0 {
        seq![]
    } else {
        seq![
            "Account owner: "@ + base58_text(accounts[0].owner@),
            "Account key: "@ + base58_text(accounts[0].key@),
            greeting_of(data),
        ]
    }
}

/// A call on an account that this program owns and whose data holds a
/// counter succeeds; it adds exactly one to the counter (below `u32::MAX`,
/// where it wraps) and leaves every other byte as it was.
pub proof fn lemma_count_adds_one(
    program_id: Seq<u8>,
    before: Seq<Account>,
    after: Seq<Account>,
    data: Seq<u8>,
)
    requires
        before.len() > 0,
        before[0].owner@ == program_id,
        before[0].data@.len() >= COUNTER_LEN,
        counter_of(before[0].data@) < u32::MAX,
        counted(before, after),
    ensures
        counting_result(program_id, before, data) == Ok::<(), GreetingError>(()),
        after[0].data@.len() == before[0].data@.len(),
        counter_of(after[0].data@) == counter_of(before[0].data@) + 1,
        forall|i: int|
            COUNTER_LEN <= i < before[0].data@.len() ==> after[0].data@[i] == before[0].data@[i],
{
    let next = next_count(counter_of(before[0].data@));
    lemma_le_round_trip(next);
    assert(after[0].data@.subrange(0, 4) =~= le_bytes(next));
}

/// Appends `line` to `log`.
fn emit(log: &mut Vec<String>, line: String)
    ensures
        texts(final(log)@) == texts(old(log)@).push(line@),
{
    let ghost line_text = line@;
    log.push(line);
    assert(texts(log@) =~= texts(old(log)@).push(line_text));
}

/// `prefix` followed by the base58 text of `k`.
fn key_line(prefix: &str, k: &[u8; 32]) -> (r: String)
    ensures
        r@ == prefix@ + base58_text(k@),
{
    let mut s = String::from_str(prefix);
    let text = key_text(k);
    s.append(text.as_str());
    s
}

/// Greets, and counts the greeting in the first account.
///
/// The first account must be owned by `program_id` and hold at least four
/// bytes; its first four bytes, read little-endian, are the count of
/// greetings so far, and on success they hold one more (wrapping to zero past
/// `u32::MAX`). On failure no account changes.
pub fn process_instruction(
    program_id: &[u8; 32],
    accounts: &mut Vec<Account>,
    instruction_data: &[u8],
    log: &mut Vec<String>,
) -> (r: Result<(), GreetingError>)
    ensures
        r == counting_result(program_id@, old(accounts)@, instruction_data@),
        texts(final(log)@) == texts(old(log)@) + counting_log(
            program_id@,
            old(accounts)@,
            instruction_data@,
        ),
        r is Err ==> final(accounts)@ == old(accounts)@,
        r is Ok ==> counted(old(accounts)@, final(accounts)@),
        old(accounts)@.len() > 0 && old(accounts)@[0].owner@ != program_id@ ==> r == Err::<
            (),
            GreetingError,
        >(GreetingError::IncorrectProgramId) && final(accounts)@ == old(accounts)@,
        old(accounts)@.len() > 0 && old(accounts)@[0].owner@ == program_id@
            && old(accounts)@[0].data@.len() < COUNTER_LEN ==> r == Err::<(), GreetingError>(
            GreetingError::InvalidAccountData,
        ) && final(accounts)@ == old(accounts)@,
{
    let ghost log0 = texts(log@);
    let ghost pid = program_id@;
    emit(log, String::from_str("Hello World Solana program entrypoint"));
    emit(log, key_line("Program ID: ", program_id));
    assert(texts(log@) =~= log0 + entry_lines(pid));
    if accounts.len() == 0 {
        return Err(GreetingError::NotEnoughAccountKeys);
    }
    if !same_key(&accounts[0].owner, program_id) {
        emit(log, String::from_str("Greeted account does not have the correct program id"));
        assert(texts(log@) =~= log0 + counting_log(pid, old(accounts)@, instruction_data@));
        return Err(GreetingError::IncorrectProgramId);
    }
    emit(log, greeting(instruction_data));
    if accounts[0].data.len() < COUNTER_LEN {
        emit(log, String::from_str("Account data too small to store counter"));
        assert(texts(log@) =~= log0 + counting_log(pid, old(accounts)@, instruction_data@));
        return Err(GreetingError::InvalidAccountData);
    }
    let account = &mut accounts[0];
    let count = increment_counter(&mut account.data);
    let mut line = String::from_str("Greeting count: ");
    let digits = decimal_text(count);
    line.append(digits.as_str());
    emit(log, line);
    emit(log, String::from_str("Program complete!"));
    assert(texts(log@) =~= log0 + counting_log(pid, old(accounts)@, instruction_data@));
    Ok(())
}

/// Greets without counting: logs the first account's owner and address and
/// the greeting, and changes no account.
pub fn process_instruction_readonly(
    _program_id: &[u8; 32],
    accounts: &mut Vec<Account>,
    instruction_data: &[u8],
    log: &mut Vec<String>,
) -> (r: Result<(), GreetingError>)
    ensures
        r == (if old(accounts)@.len() == 0 {
            Err(GreetingError::NotEnoughAccountKeys)
        } else {
            Ok(())
        }),
        texts(final(log)@) == texts(old(log)@) + readonly_log(old(accounts)@, instruction_data@),
        *final(accounts) == *old(accounts),
{
    let ghost log0 = texts(log@);
    if accounts.len() == 0 {
        assert(texts(log@) =~= log0 + readonly_log(old(accounts)@, instruction_data@));
        return Err(GreetingError::NotEnoughAccountKeys);
    }
    let account = &accounts[0];
    emit(log, key_line("Account owner: ", &account.owner));
    emit(log, key_line("Account key: ", &account.key));
    emit(log, greeting(instruction_data));
    assert(texts(log@) =~= log0 + readonly_log(old(accounts)@, instruction_data@));
    Ok(())
}

} // verus!
