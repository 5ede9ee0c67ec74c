//! A counter program: one unsigned 32-bit value kept in an account's
//! storage, changed by tagged instructions that add, subtract, set or clear it.
//! Addition and subtraction saturate at the bounds of `u32` instead of wrapping.
use vstd::prelude::*;

pub mod error;
pub mod instructions;
pub mod state;

pub use crate::error::CounterError;
pub use crate::instructions::{decode_instruction, CounterInstructions};
pub use crate::state::{le_u32, u32_le, CounterAccount};

verus! {

/// The counter after `instruction` is applied to `current`.
pub open spec fn next_counter(current: u32, instruction: CounterInstructions) -> u32 {
    match instruction {
        CounterInstructions::Increment(v) => {
            if current as int + v as int > u32::MAX as int {
                u32::MAX
            } else {
                (current + v) as u32
            }
        },
        CounterInstructions::Decrement(v) => {
            if current < v {
                0
            } else {
                (current - v) as u32
            }
        },
        CounterInstructions::Reset => 0,
        CounterInstructions::Update(v) => v,
    }
}

/// Applies one decoded instruction to a counter value.
pub fn apply_instruction(current: u32, instruction: CounterInstructions) -> (r: u32)
    ensures
        r == next_counter(current, instruction),
{
    match instruction {
        CounterInstructions::Increment(v) => current.saturating_add(v),
        CounterInstructions::Decrement(v) => current.saturating_sub(v),
        CounterInstructions::Reset => 0,
        CounterInstructions::Update(v) => v,
    }
}

/// Runs one invocation of the counter program on the storage of the supplied
/// accounts, of which the first is the counter's.
///
/// The instruction is decoded first, then the account is read, the counter is
/// changed and written back. On any failure the error is returned and no
/// account is changed: `InvalidInstruction` when the instruction bytes do not
/// decode, `MissingAccount` when no account is supplied, `Codec` when the
/// account's storage is not exactly four bytes.
pub fn process_instruction(accounts: &mut Vec<Vec<u8>>, instructions_data: &[u8]) -> (r: Result<(), CounterError>)
    ensures
        decode_instruction(instructions_data@) is None ==> r == Err::<(), CounterError>(
            CounterError::InvalidInstruction,
        ),
        decode_instruction(instructions_data@) is Some && old(accounts)@.len() == 0 ==> r == Err::<(), CounterError>(
            CounterError::MissingAccount,
        ),
        decode_instruction(instructions_data@) is Some && old(accounts)@.len() > 0
            && old(accounts)@[0]@.len() != 4 ==> r == Err::<(), CounterError>(CounterError::Codec),
        r is Err ==> final(accounts)@ == old(accounts)@,
        decode_instruction(instructions_data@) is Some && old(accounts)@.len() > 0
            && old(accounts)@[0]@.len() == 4 ==> r is Ok,
        r is Ok ==> {
            &&& decode_instruction(instructions_data@) is Some
            &&& old(accounts)@.len() > 0
            &&& final(accounts)@.len() == old(accounts)@.len()
            &&& final(accounts)@[0]@ == u32_le(
                next_counter(le_u32(old(accounts)@[0]@), decode_instruction(instructions_data@)->Some_0),
            )
            &&& forall|i: int| 1 <= i < old(accounts)@.len() ==> final(accounts)@[i] == old(accounts)@[i]
        },
{
    let instruction = CounterInstructions::unpack(instructions_data)?;
    if accounts.len() == 0 {
        return Err(CounterError::MissingAccount);
    }
    let mut counter_account = CounterAccount::try_from_slice(accounts[0].as_slice())?;
    counter_account.counter = apply_instruction(counter_account.counter, instruction);
    let ghost before = accounts@[0]@;
    let result = counter_account.serialize(&mut accounts[0]);
    proof {
        assert(u32_le(counter_account.counter) + before.skip(4) =~= u32_le(counter_account.counter));
    }
    result
}

/// Increment adds with saturation at `u32::MAX` and decrement subtracts with
/// saturation at zero, for every counter value and operand.
pub proof fn lemma_saturating_arithmetic(current: u32, v: u32)
    ensures
        next_counter(current, CounterInstructions::Increment(v)) as int == vstd::math::min(
            current as int + v as int,
            u32::MAX as int,
        ),
        next_counter(current, CounterInstructions::Decrement(v)) as int == vstd::math::max(
            current as int - v as int,
            0,
        ),
{
}

/// Update sets the counter to its operand whatever the counter held.
pub proof fn lemma_update_overwrites(current: u32, v: u32)
    ensures
        next_counter(current, CounterInstructions::Update(v)) == v,
{
}

/// Reset sets the counter to zero whatever the counter held.
pub proof fn lemma_reset_clears(current: u32)
    ensures
        next_counter(current, CounterInstructions::Reset) == 0,
{
}

/// Resetting twice in a row gives zero after each reset.
pub proof fn lemma_reset_twice(current: u32)
    ensures
        next_counter(current, CounterInstructions::Reset) == 0,
        next_counter(next_counter(current, CounterInstructions::Reset), CounterInstructions::Reset) == 0,
{
}

/// Account storage read as a counter and written back unchanged gives the same
/// four bytes.
pub proof fn lemma_storage_round_trip(data: Seq<u8>)
    requires
        data.len() == 4,
    ensures
        u32_le(le_u32(data)) == data,
{
    crate::state::lemma_u32_le_of_le_u32(data);
}

/// An empty instruction, or an increment whose four payload bytes are not all
/// there, does not decode.
pub proof fn lemma_malformed_instruction_rejected(input: Seq<u8>)
    requires
        input.len() == 0 || (input[0] == 0 && input.len() < 5),
    ensures
        decode_instruction(input) is None,
{
}

} // verus!
