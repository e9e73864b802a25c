//! Client token generation: opaque bearer tokens drawn from a fixed
//! alphanumeric alphabet with a cryptographically secure random source.

use rand::RngExt;
use vstd::prelude::*;

verus! {

/// The number of characters a client token carries.
pub const TOKEN_LENGTH: usize = 18;

/// The number of characters the token alphabet holds: the 26 upper-case
/// letters, the 26 lower-case letters and the 10 digits.
pub const ALPHABET_SIZE: u8 = 62;

/// The byte of the token alphabet at position `index`: `A`-`Z`, then
/// `a`-`z`, then `0`-`9`.
pub open spec fn spec_alphabet_byte(index: int) -> u8
    recommends
        0 <= index < 62,
{
    if index < 26 {
        (65 + index) as u8
    } else if index < 52 {
        (97 + (index - 26)) as u8
    } else {
        (48 + (index - 52)) as u8
    }
}

/// Whether `c` belongs to the token alphabet `[A-Za-z0-9]`.
pub open spec fn is_token_char(c: char) -> bool {
    let u = c as u32;
    (65 <= u <= 90) || (97 <= u <= 122) || (48 <= u <= 57)
}

/// A string is a well-formed token of length `len` when every character is
/// drawn from the token alphabet.
pub open spec fn is_token_string(s: Seq<char>, len: int) -> bool {
    s.len() == len && forall|i: int| 0 <= i < s.len() ==> is_token_char(s[i])
}

/// Relies on `rand::RngExt::random_range` over `rand::rng()`: a uniform
/// sample below `bound`, from a cryptographically secure generator (the
/// thread generator is a periodically reseeded CSPRNG).
#[verifier::external_body]
fn random_index(bound: u8) -> (r: u8)
    requires
        bound > 0,
    ensures
        r < bound,
{
    rand::rng().random_range(0..bound)
}

/// Relies on `String::from_utf8`: ASCII bytes decode to the string with
/// exactly those characters. The conversion cannot fail on ASCII input.
#[verifier::external_body]
pub(crate) fn ascii_to_string(bytes: Vec<u8>) -> (s: String)
    requires
        forall|i: int| 0 <= i < bytes@.len() ==> bytes@[i] < 128,
    ensures
        s@.len() == bytes@.len(),
        forall|i: int| 0 <= i < bytes@.len() ==> s@[i] == bytes@[i] as char,
{
    String::from_utf8(bytes).unwrap()
}

/// The alphabet byte at `index`, computed from the three contiguous ranges.
fn alphabet_byte(index: u8) -> (b: u8)
    requires
        index < 62,
    ensures
        b == spec_alphabet_byte(index as int),
        b < 128,
        is_token_char(b as char),
{
    let b: u8 = if index < 26 {
        65 + index
    } else if index < 52 {
        97 + (index - 26)
    } else {
        48 + (index - 52)
    };
    assert(is_token_char(b as char)) by {
        assert(b as char as u32 == b as u32);
    };
    b
}

/// Draws a random string of `length` characters over the token alphabet.
/// Every character comes from a cryptographically secure source; nothing
/// beyond its alphabet and length can be promised of the result.
pub fn generate_random_string(length: usize) -> (t: String)
    ensures
        is_token_string(t@, length as int),
{
    let mut bytes: Vec<u8> = Vec::new();
    let mut i: usize = 0;
    while i < length
        invariant
            i <= length,
            bytes@.len() == i,
            forall|k: int| 0 <= k < i ==> bytes@[k] < 128 && is_token_char(bytes@[k] as char),
        decreases length - i,
    {
        let index = random_index(ALPHABET_SIZE);
        let b = alphabet_byte(index);
        bytes.push(b);
        i += 1;
    }
    let s = ascii_to_string(bytes);
    s
}

/// Issues a fresh client bearer token of the configured fixed length.
pub fn generate_token() -> (t: String)
    ensures
        is_token_string(t@, TOKEN_LENGTH as int),
{
    generate_random_string(TOKEN_LENGTH)
}

/// A random state parameter for the authorization redirect: 30 characters
/// over the token alphabet.
pub fn random_state_string() -> (t: String)
    ensures
        is_token_string(t@, 30),
{
    generate_random_string(30)
}

/// Whether a presented bearer token satisfies the permissive middleware
/// layer, which admits every token.
pub fn token_is_valid(_token: &String) -> (r: bool)
    ensures
        r == true,
{
    true
}

} // verus!
