use borsh::{BorshDeserialize, BorshSerialize};
use crate::error::CounterError;
use vstd::prelude::*;

verus! {

/// The value of four bytes read as a little-endian unsigned integer.
pub open spec fn le_u32(b: Seq<u8>) -> u32
    recommends
        b.len() == 4,
{
    (b[0] as int + 256 * b[1] as int + 65536 * b[2] as int + 16777216 * b[3] as int) as u32
}

/// The four little-endian bytes of `v`.
pub open spec fn u32_le(v: u32) -> Seq<u8> {
    seq![
        (v % 256) as u8,
        ((v / 256) % 256) as u8,
        ((v / 65536) % 256) as u8,
        (v / 16777216) as u8,
    ]
}

/// Reading four bytes back from the encoding of `v` gives `v`.
pub proof fn lemma_le_u32_of_u32_le(v: u32)
    ensures
        le_u32(u32_le(v)) == v,
{
    let b = u32_le(v);
    assert(b[0] as int + 256 * b[1] as int + 65536 * b[2] as int + 16777216 * b[3] as int
        == v as int) by (nonlinear_arith)
        requires
            b[0] as int == v % 256,
            b[1] as int == (v / 256) % 256,
            b[2] as int == (v / 65536) % 256,
            b[3] as int == v / 16777216,
    {
    }
}

/// Encoding the value of four bytes gives those bytes back.
pub proof fn lemma_u32_le_of_le_u32(b: Seq<u8>)
    requires
        b.len() == 4,
    ensures
        u32_le(le_u32(b)) =~= b,
{
    let v = le_u32(b);
    assert((v % 256) as u8 == b[0] && ((v / 256) % 256) as u8 == b[1]
        && ((v / 65536) % 256) as u8 == b[2] && (v / 16777216) as u8 == b[3]) by (nonlinear_arith)
        requires
            v as int == b[0] as int + 256 * b[1] as int + 65536 * b[2] as int + 16777216 * b[3] as int,
            0 <= b[0] < 256,
            0 <= b[1] < 256,
            0 <= b[2] < 256,
            0 <= b[3] < 256,
    {
    }
}

/// Relies on borsh's `BorshDeserialize::try_from_slice` for `u32`: it reads
/// four little-endian bytes and fails unless the slice holds exactly four.
#[verifier::external_body]
fn u32_try_from_slice(v: &[u8]) -> (r: Option<u32>)
    ensures
        r is Some <==> v@.len() == 4,
        r matches Some(x) ==> x == le_u32(v@),
{
    <u32 as BorshDeserialize>::try_from_slice(v).ok()
}

/// Relies on borsh's `BorshSerialize::serialize` for `u32` into a byte slice:
/// it writes the four little-endian bytes over the front of the slice and
/// leaves the rest as it was.
#[verifier::external_body]
fn u32_serialize_into(value: u32, buf: &mut Vec<u8>) -> (r: bool)
    requires
        old(buf)@.len() >= 4,
    ensures
        r,
        final(buf)@ == u32_le(value) + old(buf)@.skip(4),
{
    value.serialize(&mut &mut buf[..]).is_ok()
}

/// The persisted state of a counter: one unsigned 32-bit value, stored as
/// exactly four little-endian bytes.
pub struct CounterAccount {
    pub counter: u32,
}

impl CounterAccount {
    /// Reads the counter from account storage.
    ///
    /// Fails with `CounterError::Codec` unless `data` is exactly four bytes.
    pub fn try_from_slice(data: &[u8]) -> (r: Result<CounterAccount, CounterError>)
        ensures
            data@.len() == 4 ==> (r matches Ok(a) && a.counter == le_u32(data@)),
            data@.len() != 4 ==> r == Err::<CounterAccount, CounterError>(CounterError::Codec),
    {
        match u32_try_from_slice(data) {
            Some(counter) => Ok(CounterAccount { counter }),
            None => Err(CounterError::Codec),
        }
    }

    /// Writes the counter over the first four bytes of account storage,
    /// leaving any later bytes as they were.
    ///
    /// Fails with `CounterError::Codec`, and writes nothing, when `data` is
    /// shorter than four bytes.
    pub fn serialize(&self, data: &mut Vec<u8>) -> (r: Result<(), CounterError>)
        ensures
            old(data)@.len() >= 4 ==> r is Ok && final(data)@ == u32_le(self.counter) + old(data)@.skip(4),
            old(data)@.len() < 4 ==> r == Err::<(), CounterError>(CounterError::Codec) && final(data)@ == old(data)@,
    {
        if data.len() < 4 {
            return Err(CounterError::Codec);
        }
        if u32_serialize_into(self.counter, data) {
            Ok(())
        } else {
            Err(CounterError::Codec)
        }
    }
}

} // verus!
