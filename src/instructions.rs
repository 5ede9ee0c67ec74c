use crate::error::CounterError;
use crate::state::le_u32;
use borsh::BorshDeserialize;
use vstd::prelude::*;

verus! {

/// A request to change the counter, decoded from instruction bytes.
#[derive(Debug, Clone, Copy, PartialEq, Eq, Structural)]
pub enum CounterInstructions {
    /// Add the value, stopping at `u32::MAX`.
    Increment(u32),
    /// Subtract the value, stopping at zero.
    Decrement(u32),
    /// Set the counter to zero.
    Reset,
    /// Set the counter to the value.
    Update(u32),
}

/// The instruction that `input` encodes: a tag byte (0 increment, 1 decrement,
/// 2 update, 3 reset), followed for tags 0 to 2 by a little-endian `u32`.
/// Bytes after what the tag needs are ignored.
pub open spec fn decode_instruction(input: Seq<u8>) -> Option<CounterInstructions> {
    if input.len() == 0 {
        None
    } else if input[0] == 3 {
        Some(CounterInstructions::Reset)
    } else if input[0] > 3 || input.len() < 5 {
        None
    } else {
        let value = le_u32(input.subrange(1, 5));
        if input[0] == 0 {
            Some(CounterInstructions::Increment(value))
        } else if input[0] == 1 {
            Some(CounterInstructions::Decrement(value))
        } else {
            Some(CounterInstructions::Update(value))
        }
    }
}

/// Relies on borsh's `BorshDeserialize::deserialize` for `u32` on a byte slice:
/// it reads the first four bytes as little-endian and fails when fewer remain.
#[verifier::external_body]
fn u32_deserialize_prefix(v: &[u8]) -> (r: Option<u32>)
    ensures
        r is Some <==> v@.len() >= 4,
        r matches Some(x) ==> x == le_u32(v@.subrange(0, 4)),
{
    let mut rest = v;
    <u32 as BorshDeserialize>::deserialize(&mut rest).ok()
}

impl CounterInstructions {
    /// Decodes instruction bytes.
    ///
    /// Fails with `CounterError::InvalidInstruction` when `input` is empty,
    /// its tag is unknown, or a payload of four bytes is missing.
    pub fn unpack(input: &[u8]) -> (r: Result<CounterInstructions, CounterError>)
        ensures
            r matches Ok(ins) ==> decode_instruction(input@) == Some(ins),
            r is Err ==> decode_instruction(input@) is None && r == Err::<CounterInstructions, CounterError>(
                CounterError::InvalidInstruction,
            ),
            decode_instruction(input@) is Some ==> r is Ok,
    {
        if input.len() == 0 {
            return Err(CounterError::InvalidInstruction);
        }
        let tag = input[0];
        if tag == 3 {
            return Ok(CounterInstructions::Reset);
        }
        if tag > 3 {
            return Err(CounterError::InvalidInstruction);
        }
        let payload = &input[1..input.len()];
        let value = match u32_deserialize_prefix(payload) {
            Some(value) => value,
            None => return Err(CounterError::InvalidInstruction),
        };
        proof {
            assert(payload@.subrange(0, 4) =~= input@.subrange(1, 5));
        }
        if tag == 0 {
            Ok(CounterInstructions::Increment(value))
        } else if tag == 1 {
            Ok(CounterInstructions::Decrement(value))
        } else {
            Ok(CounterInstructions::Update(value))
        }
    }
}

} // verus!
