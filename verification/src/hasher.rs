use vstd::prelude::*;

use crate::errors::HashingError;
use crate::phc::b64_salt;
use crate::phc::derived_for;
use crate::phc::phc_digest;
use crate::phc::phc_ident;
use crate::phc::phc_parts;
use crate::phc::phc_salt;
use crate::phc::phc_verdict;
use crate::phc::supported_ident;
use crate::phc::verify_spec;

use argon2::password_hash::rand_core;
use argon2::password_hash::rand_core::OsRng;
use argon2::password_hash::rand_core::RngCore;
use argon2::password_hash::PasswordHash;
use argon2::password_hash::PasswordHasher;
use argon2::password_hash::PasswordVerifier;
use argon2::password_hash::SaltString;
use argon2::Argon2;

verus! {

/// The number of random bytes drawn as a fresh salt for every derivation.
pub const SALT_LEN: usize = 16;

#[verifier::external_type_specification]
#[verifier::external_body]
pub struct ExPhcError(argon2::password_hash::Error);

#[verifier::external_type_specification]
#[verifier::external_body]
pub struct ExRandError(rand_core::Error);

/// Relies on rand_core::OsRng::try_fill_bytes: it fills the buffer from the
/// operating system's cryptographically secure random source, or reports the
/// source's failure. Nothing is promised of the bytes themselves.
#[verifier::external_body]
fn os_random_bytes(n: usize) -> (r: Result<Vec<u8>, rand_core::Error>)
    ensures
        r matches Ok(b) ==> b@.len() == n,
{
    let mut buf = vec![0u8; n];
    match OsRng.try_fill_bytes(&mut buf) {
        Ok(()) => Ok(buf),
        Err(e) => Err(e),
    }
}

/// Relies on password_hash::SaltString::encode_b64, which turns 3 to 48
/// salt bytes into a valid B64 salt text of 4 to 64 characters (the bounds
/// the salt grammar demands, hence the `requires`), and on
/// Argon2::hash_password under the crate's defaults (Argon2id, version
/// 0x13, default cost parameters) together with the PHC serialization of
/// its result: the returned text parses back as a complete tuple naming
/// `argon2id`, its salt field encodes exactly the given bytes, and
/// verification of the same PIN against it re-derives the embedded digest.
#[verifier::external_body]
fn derive_phc(pin: &str, salt: &Vec<u8>) -> (r: Result<String, argon2::password_hash::Error>)
    requires
        3 <= salt@.len() <= 48,
    ensures
        r matches Ok(h) ==> {
            &&& phc_ident(h@) == Some("argon2id"@)
            &&& phc_salt(h@) == Some(b64_salt(salt@))
            &&& phc_digest(h@) is Some
            &&& phc_verdict(pin@, h@) == Some(true)
        },
{
    let salt_string = match SaltString::encode_b64(salt.as_slice()) {
        Ok(s) => s,
        Err(e) => return Err(e),
    };
    let argon2 = Argon2::default();
    match argon2.hash_password(pin.as_bytes(), &salt_string) {
        Ok(h) => Ok(h.to_string()),
        Err(e) => Err(e),
    }
}

/// Relies on password_hash::PasswordHash::new: it parses the PHC string
/// format, failing exactly where the text does not conform to it, and on
/// success hands over the algorithm identifier the text names together with
/// its salt and digest fields, absent where the text omits them.
#[verifier::external_body]
fn parse_phc(encoded: &str) -> (r: Result<
    (String, Option<String>, Option<Vec<u8>>),
    argon2::password_hash::Error,
>)
    ensures
        r matches Ok(p) ==> phc_parts(encoded@) == Some(
            (p.0@, p.1.deep_view(), p.2.deep_view()),
        ),
        r is Ok <==> phc_parts(encoded@) is Some,
{
    match PasswordHash::new(encoded) {
        Ok(h) => Ok((
            h.algorithm.as_str().to_owned(),
            h.salt.map(|s| s.as_str().to_owned()),
            h.hash.map(|o| o.as_bytes().to_vec()),
        )),
        Err(e) => Err(e),
    }
}

/// Relies on password_hash::PasswordHash::new, which re-parses the stored
/// text as the argument of the check, and on Argon2::verify_password, which
/// judges the PIN under the algorithm, version, cost parameters and salt
/// embedded in the parsed hash — never under the verifier's own defaults —
/// and compares digests in constant time. Its password error covers both a
/// digest mismatch and a tuple missing its salt or digest, here
/// `Some(false)`; every other failure means the embedded tuple could not be
/// decoded, here `None`.
#[verifier::external_body]
fn check_phc(pin: &str, encoded: &str) -> (r: Result<
    Option<bool>,
    argon2::password_hash::Error,
>)
    ensures
        r matches Ok(v) ==> v == phc_verdict(pin@, encoded@),
        r is Ok <==> phc_parts(encoded@) is Some,
{
    let parsed = match PasswordHash::new(encoded) {
        Ok(h) => h,
        Err(e) => return Err(e),
    };
    Ok(match Argon2::default().verify_password(pin.as_bytes(), &parsed) {
        Ok(()) => Some(true),
        Err(argon2::password_hash::Error::Password) => Some(false),
        Err(_) => None,
    })
}

/// Whether a parsed algorithm identifier names a member of the Argon2
/// family.
fn is_supported_ident(id: &String) -> (r: bool)
    ensures
        r == supported_ident(id@),
{
    let argon2d = "argon2d".to_owned();
    let argon2i = "argon2i".to_owned();
    let argon2id = "argon2id".to_owned();
    *id == argon2d || *id == argon2i || *id == argon2id
}

/// Derives a salted, memory-hard hash from a PIN.
///
/// Every call draws a fresh salt from the operating system's secure random
/// source and encodes algorithm identifier, cost parameters, salt and digest
/// into one self-describing text, which `verify` later accepts for the same
/// PIN. Failures pass straight out: `RandomnessUnavailable` where no salt
/// could be drawn, `EncodingFailure` where derivation or its encoding
/// failed; neither is retried, and no weaker salt is ever substituted.
pub fn hash(pin: String) -> (r: Result<String, HashingError>)
    ensures
        r matches Ok(h) ==> derived_for(pin@, h@),
        r matches Err(e) ==> e is RandomnessUnavailable || e is EncodingFailure,
{
    let salt_bytes = match os_random_bytes(SALT_LEN) {
        Ok(b) => b,
        Err(_) => return Err(HashingError::RandomnessUnavailable),
    };
    match derive_phc(pin.as_str(), &salt_bytes) {
        Ok(h) => Ok(h),
        Err(_) => Err(HashingError::EncodingFailure),
    }
}

/// Verifies a candidate PIN against a stored encoded hash.
///
/// The verdict is settled by the two texts alone: re-derivation runs under
/// the parameters embedded in the stored text, so hashes stored under older
/// cost settings keep verifying unchanged. A PIN that fails to match is a
/// normal `Ok(false)`, never an error; `MalformedInput` comes exactly where
/// the stored text is no complete, decodable hash of the Argon2 family —
/// wrong structure, a foreign algorithm name, a missing salt or digest, or
/// cost parameters that do not decode.
pub fn verify(pin: String, hash: String) -> (r: Result<bool, HashingError>)
    ensures
        r == verify_spec(pin@, hash@),
{
    let parts = match parse_phc(hash.as_str()) {
        Ok(p) => p,
        Err(_) => {
            return Err(HashingError::MalformedInput);
        },
    };
    let (id, salt, digest) = parts;
    if !is_supported_ident(&id) {
        return Err(HashingError::MalformedInput);
    }
    if salt.is_none() || digest.is_none() {
        return Err(HashingError::MalformedInput);
    }
    match check_phc(pin.as_str(), hash.as_str()) {
        Ok(Some(b)) => Ok(b),
        Ok(None) => Err(HashingError::MalformedInput),
        Err(_) => Err(HashingError::MalformedInput),
    }
}

} // verus!
