use vstd::prelude::*;

use crate::errors::HashingError;

verus! {

/// What the PHC parser reads out of a hash text: the algorithm identifier,
/// the salt field and the digest field — the latter two absent where the
/// text omits them — or `None` where the text does not parse at all. What
/// the parser accepts and reads is settled by the text alone.
pub uninterp spec fn phc_parts(encoded: Seq<char>) -> Option<
    (Seq<char>, Option<Seq<char>>, Option<Seq<u8>>),
>;

/// The B64 salt text that encodes the given salt bytes, as it appears in an
/// encoded hash. Settled by the bytes alone.
pub uninterp spec fn b64_salt(bytes: Seq<u8>) -> Seq<char>;

/// The outcome class of Argon2 verification of `pin` against the parsed
/// hash text `encoded`: `Some(true)` where a digest re-derived from `pin`
/// under the algorithm, version, cost parameters and salt embedded in
/// `encoded` equals the digest embedded there; `Some(false)` where the check
/// itself answers no — a digest mismatch, or a tuple missing its salt or
/// digest; `None` where the embedded tuple cannot be decoded into a runnable
/// derivation at all. Argon2 is deterministic, so this is settled by the two
/// texts alone.
pub uninterp spec fn phc_verdict(pin: Seq<char>, encoded: Seq<char>) -> Option<bool>;

/// The algorithm identifier of a parsed hash text.
pub open spec fn phc_ident(encoded: Seq<char>) -> Option<Seq<char>> {
    match phc_parts(encoded) {
        Some(p) => Some(p.0),
        None => None,
    }
}

/// The salt field of a parsed hash text, where one is present.
pub open spec fn phc_salt(encoded: Seq<char>) -> Option<Seq<char>> {
    match phc_parts(encoded) {
        Some(p) => p.1,
        None => None,
    }
}

/// The digest field of a parsed hash text, where one is present.
pub open spec fn phc_digest(encoded: Seq<char>) -> Option<Seq<u8>> {
    match phc_parts(encoded) {
        Some(p) => p.2,
        None => None,
    }
}

/// The identifiers of the Argon2 family: the only algorithms a stored hash
/// may name if verification is to be attempted at all.
pub open spec fn supported_ident(id: Seq<char>) -> bool {
    id == "argon2d"@ || id == "argon2i"@ || id == "argon2id"@
}

/// A stored text that is a complete credential hash: it parses, names a
/// member of the Argon2 family, and carries both a salt and a digest.
pub open spec fn well_formed(encoded: Seq<char>) -> bool {
    match phc_parts(encoded) {
        Some((id, salt, digest)) => supported_ident(id) && salt is Some && digest is Some,
        None => false,
    }
}

/// What `verify` returns: a boolean match verdict where the stored text is a
/// complete hash of the Argon2 family whose embedded tuple decodes, and
/// `MalformedInput` anywhere else — so a corrupt store entry is always told
/// apart from a wrong PIN.
pub open spec fn verify_spec(pin: Seq<char>, encoded: Seq<char>) -> Result<bool, HashingError> {
    if well_formed(encoded) {
        match phc_verdict(pin, encoded) {
            Some(b) => Ok(b),
            None => Err(HashingError::MalformedInput),
        }
    } else {
        Err(HashingError::MalformedInput)
    }
}

/// What `hash` guarantees of every encoded hash it returns: a complete
/// tuple naming Argon2id, whose digest the PIN it was derived from
/// re-derives.
pub open spec fn derived_for(pin: Seq<char>, encoded: Seq<char>) -> bool {
    &&& phc_ident(encoded) == Some("argon2id"@)
    &&& phc_salt(encoded) is Some
    &&& phc_digest(encoded) is Some
    &&& phc_verdict(pin, encoded) == Some(true)
}

/// Round trip: an encoded hash derived from a secret verifies as `true`
/// against that same secret.
pub proof fn lemma_round_trip(pin: Seq<char>, encoded: Seq<char>)
    requires
        derived_for(pin, encoded),
    ensures
        verify_spec(pin, encoded) == Ok::<bool, HashingError>(true),
{
}

/// Malformed input: a text that does not parse into a complete tuple of the
/// Argon2 family with decodable parameters is rejected as `MalformedInput`,
/// never answered with a boolean, whatever the secret.
pub proof fn lemma_malformed_rejected(pin: Seq<char>, encoded: Seq<char>)
    requires
        !well_formed(encoded) || phc_verdict(pin, encoded) is None,
    ensures
        verify_spec(pin, encoded) == Err::<bool, HashingError>(HashingError::MalformedInput),
{
}

/// Two derivations from one secret both verify against it, whatever salts
/// they drew. That the two encoded texts themselves differ rests on the
/// salts being fresh random draws, which no contract over the outputs can
/// state; a test exercises it.
pub proof fn lemma_repeated_derivations_verify(pin: Seq<char>, h1: Seq<char>, h2: Seq<char>)
    requires
        derived_for(pin, h1),
        derived_for(pin, h2),
    ensures
        verify_spec(pin, h1) == Ok::<bool, HashingError>(true),
        verify_spec(pin, h2) == Ok::<bool, HashingError>(true),
{
}

} // verus!
