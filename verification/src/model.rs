//! Transport and record models of the two service tiers.

use vstd::prelude::*;

verus! {

/// An opaque 128-bit entity identifier. The wire form is a UUID; inside
/// the core its value is read, compared, and rendered in the canonical
/// hyphenated form.
#[derive(Clone, Copy, Debug, PartialEq, Eq, Hash, Structural)]
pub struct Uid {
    pub value: u128,
}

/// `16^e` (1 for a non-positive exponent).
pub open spec fn pow16(e: int) -> int
    decreases e,
{
    if e <= 0 {
        1
    } else {
        16 * pow16(e - 1)
    }
}

proof fn lemma_pow16_pos(e: int)
    ensures
        pow16(e) >= 1,
    decreases e,
{
    if e > 0 {
        lemma_pow16_pos(e - 1);
    }
}

/// The lower-case hex digit of a value below 16.
pub open spec fn spec_hex_char(d: int) -> char
    recommends
        0 <= d < 16,
{
    if d < 10 {
        ((48 + d) as u8) as char
    } else {
        ((87 + d) as u8) as char
    }
}

/// Hex digit `k` of `v`, counting from the most significant of 32.
pub open spec fn spec_nibble(v: u128, k: int) -> int {
    (v as int) / pow16(31 - k) % 16
}

/// How many hyphens stand before position `i` of the hyphenated text.
pub open spec fn spec_dashes_before(i: int) -> int {
    if i < 8 {
        0
    } else if i < 13 {
        1
    } else if i < 18 {
        2
    } else if i < 23 {
        3
    } else {
        4
    }
}

/// The canonical text of a 128-bit id: its 32 lower-case hex digits in
/// groups of 8, 4, 4, 4 and 12, separated by hyphens.
pub open spec fn uid_text(v: u128) -> Seq<char> {
    Seq::new(
        36,
        |i: int|
            if i == 8 || i == 13 || i == 18 || i == 23 {
                '-'
            } else {
                spec_hex_char(spec_nibble(v, i - spec_dashes_before(i)))
            },
    )
}

/// How many hyphens are emitted before hex digit `k` is.
pub open spec fn spec_dashes_emitted(k: int) -> int {
    if k <= 8 {
        0
    } else if k <= 12 {
        1
    } else if k <= 16 {
        2
    } else if k <= 20 {
        3
    } else {
        4
    }
}

impl Uid {
    /// Renders the id in its canonical hyphenated form.
    pub fn to_text(&self) -> (s: String)
        ensures
            s@ == uid_text(self.value),
    {
        let v = self.value;
        let mut bytes: Vec<u8> = Vec::new();
        let mut p: u128 = 0x1000_0000_0000_0000_0000_0000_0000_0000;
        proof {
            reveal_with_fuel(pow16, 32);
            assert(pow16(31) == 0x1000_0000_0000_0000_0000_0000_0000_0000);
        }
        let mut k: usize = 0;
        while k < 32
            invariant
                k <= 32,
                k < 32 ==> p as int == pow16(31 - k as int),
                bytes@.len() == k + spec_dashes_emitted(k as int),
                forall|j: int|
                    0 <= j < bytes@.len() ==> (#[trigger] bytes@[j]) < 128 && bytes@[j] as char
                        == uid_text(v)[j],
            decreases 32 - k,
        {
            let ghost pre = bytes@;
            proof {
                assert forall|j: int|
                    0 <= j < pre.len() implies (#[trigger] pre[j]) < 128 && pre[j] as char
                        == uid_text(v)[j] by {
                    assert(bytes@[j] == pre[j]);
                }
            }
            if k == 8 || k == 12 || k == 16 || k == 20 {
                bytes.push(45);
                proof {
                    assert(uid_text(v)[pre.len() as int] == '-');
                    assert(45u8 as char == '-');
                }
            }
            proof {
                lemma_pow16_pos(31 - k as int);
            }
            let ghost mid = bytes@;
            let digit = ((v / p) % 16) as u8;
            let byte: u8 = if digit < 10 {
                48 + digit
            } else {
                87 + digit
            };
            let ghost i = bytes@.len() as int;
            proof {
                assert(i == k + spec_dashes_before(i));
                assert(uid_text(v)[i] == spec_hex_char(spec_nibble(v, k as int)));
                assert(digit as int == spec_nibble(v, k as int));
                assert(byte as char == spec_hex_char(digit as int)) by {
                    assert(byte as char as u32 == byte as u32);
                };
            }
            bytes.push(byte);
            proof {
                assert(bytes@ =~= mid.push(byte));
                assert forall|j: int|
                    0 <= j < bytes@.len() implies (#[trigger] bytes@[j]) < 128 && bytes@[j] as char
                        == uid_text(v)[j] by {
                    if j < pre.len() {
                        assert(bytes@[j] == pre[j]);
                        assert(pre[j] < 128);
                        assert(pre[j] as char == uid_text(v)[j]);
                    } else if j < mid.len() {
                        assert(bytes@[j] == 45);
                        assert(j == pre.len());
                        assert(bytes@[j] < 128);
                        assert(bytes@[j] as char == uid_text(v)[j]);
                    } else {
                        assert(j == i);
                        assert(bytes@[j] == byte);
                        assert(bytes@[j] < 128);
                        assert(bytes@[j] as char == uid_text(v)[j]);
                    }
                }
            }
            p = p / 16;
            k += 1;
        }
        let s = crate::token::ascii_to_string(bytes);
        assert(s@ =~= uid_text(v));
        s
    }
}

/// A machine client: an API-key style identity owned by a user, looked up
/// by its opaque bearer token.
#[derive(Debug, Clone, PartialEq)]
pub struct ClientModel {
    pub id: Uid,
    pub name: String,
    pub user_id: Uid,
    pub token: String,
}

/// An account record: a unique name with an opaque credential string.
#[derive(Debug, Clone, PartialEq)]
pub struct AccountModel {
    pub id: Uid,
    pub name: String,
    pub credential: String,
}

/// A stored user record, password hash included. Never leaves the API tier.
#[derive(Debug, Clone, PartialEq)]
pub struct UserModel {
    pub id: Uid,
    pub name: String,
    pub password_hash: String,
}

/// The short form of a user record returned on creation.
#[derive(Debug, Clone, PartialEq)]
pub struct UserShortModel {
    pub id: Uid,
    pub name: String,
}

/// The form of a user record that crosses the wire: id and name only.
#[derive(Debug, Clone, PartialEq)]
pub struct UserTransportModel {
    pub id: Uid,
    pub name: String,
}

/// The uniform envelope of successful API responses.
#[derive(Debug)]
pub struct DataBody<T> {
    pub data: T,
}

} // verus!
