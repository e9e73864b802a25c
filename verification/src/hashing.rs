//! Password hashing: salted hash generation and verification through a
//! memory-hard hash function. A stored hash is never compared as plaintext;
//! verification always goes through the hashing library's compare.

use argon2::password_hash::phc::PasswordHash;
use argon2::password_hash::{PasswordHasher, PasswordVerifier};
use vstd::prelude::*;

verus! {

use crate::error::Error;

/// Whether `hash` is a well-formed hash string in the self-describing PHC
/// encoded format. Named after the outcome of the hashing library's parser;
/// it depends on the hash string alone.
pub uninterp spec fn phc_parses(hash: Seq<char>) -> bool;

/// Whether `password` verifies against the PHC hash string `hash` under the
/// hashing algorithm. Named after the outcome of the hashing library's
/// verifier; it depends on the two strings alone.
pub uninterp spec fn phc_verifies(hash: Seq<char>, password: Seq<char>) -> bool;

/// The three outcomes of checking a password against a stored hash.
#[derive(Clone, Copy, Debug, PartialEq, Eq, Structural)]
enum PasswordCheck {
    BadHash,
    Mismatch,
    Matched,
}

/// Relies on `argon2::Argon2::hash_password` (via the `PasswordHasher`
/// trait): hashing with a freshly generated random salt yields a PHC string
/// against which the same password verifies. The salt is random, so nothing
/// else can be promised of the result. The hash function rejects a password
/// longer than the 32-bit length its parameters can carry, so such input is
/// kept out; a failure of the system's random source is fatal here.
#[verifier::external_body]
fn argon2_hash(password: &String) -> (h: String)
    requires
        vstd::utf8::encode_utf8(password@).len() <= 0xFFFF_FFFF,
    ensures
        phc_parses(h@),
        phc_verifies(h@, password@),
{
    argon2::Argon2::default().hash_password(password.as_bytes()).unwrap().to_string()
}

/// Relies on `argon2::password_hash::phc::PasswordHash::new` (the PHC
/// parser) and `argon2::Argon2::verify_password` (via the
/// `PasswordVerifier` trait): both are deterministic in their string
/// arguments, so their outcomes are exactly the two named predicates.
#[verifier::external_body]
fn argon2_check(hash: &String, password: &String) -> (r: PasswordCheck)
    ensures
        match r {
            PasswordCheck::BadHash => !phc_parses(hash@),
            PasswordCheck::Matched => phc_parses(hash@) && phc_verifies(hash@, password@),
            PasswordCheck::Mismatch => phc_parses(hash@) && !phc_verifies(hash@, password@),
        },
{
    match PasswordHash::new(hash.as_str()) {
        Err(_) => PasswordCheck::BadHash,
        Ok(parsed) => match argon2::Argon2::default().verify_password(
            password.as_bytes(),
            &parsed,
        ) {
            Ok(()) => PasswordCheck::Matched,
            Err(_) => PasswordCheck::Mismatch,
        },
    }
}

/// Produces the salted hash under which a new credential is stored. The
/// password must fit the hash function's 32-bit length field.
pub fn generate_hash(password: &String) -> (h: String)
    requires
        vstd::utf8::encode_utf8(password@).len() <= 0xFFFF_FFFF,
    ensures
        phc_parses(h@),
        phc_verifies(h@, password@),
{
    argon2_hash(password)
}

/// Verifies a candidate password against an expected stored hash.
///
/// A stored hash that does not parse in the PHC string format is an
/// internal error; a parsed hash that the candidate does not match is an
/// authentication failure.
pub fn verify_password_hash(expected_password_hash: &String, password_candidate: &String) -> (r:
    Result<(), Error>)
    ensures
        r is Ok <==> phc_parses(expected_password_hash@) && phc_verifies(
            expected_password_hash@,
            password_candidate@,
        ),
        !phc_parses(expected_password_hash@) ==> r == Err::<(), Error>(
            Error::InternalServerError,
        ),
        phc_parses(expected_password_hash@) && !phc_verifies(
            expected_password_hash@,
            password_candidate@,
        ) ==> r == Err::<(), Error>(Error::Unauthorized),
{
    match argon2_check(expected_password_hash, password_candidate) {
        PasswordCheck::BadHash => Err(Error::InternalServerError),
        PasswordCheck::Mismatch => Err(Error::Unauthorized),
        PasswordCheck::Matched => Ok(()),
    }
}

} // verus!
