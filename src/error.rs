use vstd::prelude::*;

verus! {

/// Why an invocation of the counter program was rejected.
#[derive(Debug, Clone, Copy, PartialEq, Eq, Structural)]
pub enum CounterError {
    /// The instruction bytes are empty, carry an unknown tag, or are too short
    /// for the payload their tag requires.
    InvalidInstruction,
    /// Account storage does not hold exactly one encoded counter.
    Codec,
    /// No account was supplied.
    MissingAccount,
}

} // verus!
