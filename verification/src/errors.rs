use vstd::prelude::*;

verus! {

/// The ways a derivation or verification call can fail. A PIN that merely
/// fails to match is never an error: it is a `false` verification result.
#[derive(Clone, Copy, Debug, PartialEq, Eq, Structural)]
pub enum HashingError {
    /// The encoded hash does not parse into an algorithm identifier,
    /// parameters, salt and digest: the stored credential is corrupt.
    MalformedInput,
    /// Serializing the hash parameters failed during derivation; a defect,
    /// never retried.
    EncodingFailure,
    /// The secure random source could not supply entropy for a fresh salt.
    RandomnessUnavailable,
}

impl HashingError {
    /// A short description, for callers that report the failure.
    pub fn message(&self) -> (m: &'static str)
        ensures
            *self is MalformedInput ==> m@ == "malformed encoded hash"@,
            *self is EncodingFailure ==> m@ == "hash encoding failed"@,
            *self is RandomnessUnavailable ==> m@ == "secure randomness unavailable"@,
    {
        match self {
            HashingError::MalformedInput => "malformed encoded hash",
            HashingError::EncodingFailure => "hash encoding failed",
            HashingError::RandomnessUnavailable => "secure randomness unavailable",
        }
    }
}

} // verus!
