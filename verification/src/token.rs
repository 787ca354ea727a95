//! The session secret.
//!
//! One secret is issued for each run of the server: 256 bits from the
//! operating system's random source, written as 64 lower-case hexadecimal
//! digits. Such text needs no escaping in a URL query or in a cookie.

use rand::rngs::OsRng;
use rand::RngCore;
use vstd::prelude::*;

verus! {

/// How many random bytes a secret is made of.
pub const TOKEN_BYTES: usize = 32;

/// The lower-case hexadecimal digit of `n`.
pub open spec fn hex_digit(n: int) -> char
    recommends
        0 <= n < 16,
{
    if n < 10 {
        (0x30 + n) as char
    } else {
        (0x61 + n - 10) as char
    }
}

/// Whether `c` is a lower-case hexadecimal digit.
pub open spec fn is_hex_digit(c: char) -> bool {
    0x30 <= c as u32 <= 0x39 || 0x61 <= c as u32 <= 0x66
}

/// `bytes` in hexadecimal: two digits for each byte, the high half first.
pub open spec fn hex_of(bytes: Seq<u8>) -> Seq<char> {
    Seq::new(
        2 * bytes.len(),
        |i: int|
            if i % 2 == 0 {
                hex_digit(bytes[i / 2] as int / 16)
            } else {
                hex_digit(bytes[i / 2] as int % 16)
            },
    )
}

/// Whether `s` has the form of a session secret: 64 lower-case hexadecimal
/// digits.
pub open spec fn is_token(s: Seq<char>) -> bool {
    &&& s.len() == 2 * TOKEN_BYTES
    &&& forall|i: int| 0 <= i < s.len() ==> is_hex_digit(#[trigger] s[i])
}

/// The characters that stand for themselves in a URL: letters, digits,
/// `-`, `.`, `_` and `~`.
pub open spec fn is_unreserved(c: char) -> bool {
    let n = c as u32;
    ||| 0x30 <= n <= 0x39
    ||| 0x41 <= n <= 0x5A
    ||| 0x61 <= n <= 0x7A
    ||| n == 0x2D
    ||| n == 0x2E
    ||| n == 0x5F
    ||| n == 0x7E
}

/// Whether `s` can stand in the query of a URL without escaping.
pub open spec fn query_safe(s: Seq<char>) -> bool {
    forall|i: int| 0 <= i < s.len() ==> is_unreserved(#[trigger] s[i])
}

/// A secret needs no escaping in the query of a URL.
pub proof fn lemma_token_is_query_safe(secret: Seq<char>)
    requires
        is_token(secret),
    ensures
        query_safe(secret),
{
    assert forall|i: int| 0 <= i < secret.len() implies is_unreserved(#[trigger] secret[i]) by {
        assert(is_hex_digit(secret[i]));
    }
}

/// Hexadecimal text holds hexadecimal digits only, two for each byte.
pub proof fn lemma_hex_of(bytes: Seq<u8>)
    ensures
        hex_of(bytes).len() == 2 * bytes.len(),
        forall|i: int| 0 <= i < hex_of(bytes).len() ==> is_hex_digit(#[trigger] hex_of(bytes)[i]),
{
}

/// The text differs wherever the bytes do: no two byte strings are written
/// alike.
pub proof fn lemma_hex_of_injective(a: Seq<u8>, b: Seq<u8>)
    requires
        hex_of(a) == hex_of(b),
    ensures
        a == b,
{
    assert(a.len() == b.len()) by {
        assert(hex_of(a).len() == 2 * a.len());
        assert(hex_of(b).len() == 2 * b.len());
    }
    assert forall|k: int| 0 <= k < a.len() implies a[k] == b[k] by {
        let x = a[k] as int;
        let y = b[k] as int;
        assert(hex_of(a)[2 * k] == hex_digit(x / 16));
        assert(hex_of(b)[2 * k] == hex_digit(y / 16));
        assert(hex_of(a)[2 * k + 1] == hex_digit(x % 16));
        assert(hex_of(b)[2 * k + 1] == hex_digit(y % 16));
        assert(x / 16 == y / 16);
        assert(x % 16 == y % 16);
    }
    assert(a =~= b);
}

/// `hex::encode` writes each byte as two lower-case hexadecimal digits, the
/// high half first, and nothing else.
#[verifier::external_body]
fn hex_encode(bytes: &Vec<u8>) -> (text: String)
    ensures
        text@ == hex_of(bytes@),
{
    hex::encode(bytes)
}

/// `OsRng::try_fill_bytes` on a buffer of `len` bytes. The bytes come from
/// the operating system and nothing is known of them but their number;
/// `None` when the system could not give any.
#[verifier::external_body]
fn os_random_bytes(len: usize) -> (bytes: Option<Vec<u8>>)
    ensures
        bytes matches Some(b) ==> b@.len() == len,
{
    let mut buf = vec![0u8; len];
    match OsRng.try_fill_bytes(&mut buf) {
        Ok(()) => Some(buf),
        Err(_) => None,
    }
}

/// The secret made of the given random bytes.
pub fn token_from_bytes(bytes: &Vec<u8>) -> (token: String)
    ensures
        token@ == hex_of(bytes@),
        bytes@.len() == TOKEN_BYTES ==> is_token(token@),
{
    proof {
        lemma_hex_of(bytes@);
    }
    hex_encode(bytes)
}

/// Issues a fresh secret from the operating system's random source; `None`
/// when that source fails. Nothing that outlives the process goes into it.
pub fn generate_token() -> (token: Option<String>)
    ensures
        token matches Some(t) ==> is_token(t@) && exists|bytes: Seq<u8>|
            bytes.len() == TOKEN_BYTES && t@ == #[trigger] hex_of(bytes),
{
    match os_random_bytes(TOKEN_BYTES) {
        Some(bytes) => Some(token_from_bytes(&bytes)),
        None => None,
    }
}

} // verus!
