//! Authentication helpers: the shared token secret, password hashing, the
//! claims issued at login, and bearer-header parsing.

use vstd::prelude::*;
use vstd::string::*;
use sha2::Digest;
use sha2::Sha256;
use crate::models::Claims;
use crate::text::{spec_starts_with, starts_with, str_eq};

verus! {

/// The secret the service signs and checks authentication tokens with.
pub fn get_jwt_secret() -> (r: &'static str)
    ensures
        r@ == "hylacviet-secret-key-change-in-production"@,
{
    "hylacviet-secret-key-change-in-production"
}

/// The SHA-256 digest of a byte sequence; a function of the bytes alone.
pub uninterp spec fn spec_sha256(data: Seq<u8>) -> Seq<u8>;

/// Relies on `sha2::Sha256` through the `Digest` trait: the digest depends
/// on the input bytes alone, and is 32 bytes long.
#[verifier::external_body]
fn sha256_digest(data: &[u8]) -> (r: Vec<u8>)
    ensures
        r@ == spec_sha256(data@),
        r@.len() == 32,
{
    Sha256::digest(data).to_vec()
}

/// The lower-case hex digit of a value below sixteen.
pub open spec fn spec_hex_digit(n: u8) -> char
    recommends
        n < 16,
{
    if n == 0 {
        '0'
    } else if n == 1 {
        '1'
    } else if n == 2 {
        '2'
    } else if n == 3 {
        '3'
    } else if n == 4 {
        '4'
    } else if n == 5 {
        '5'
    } else if n == 6 {
        '6'
    } else if n == 7 {
        '7'
    } else if n == 8 {
        '8'
    } else if n == 9 {
        '9'
    } else if n == 10 {
        'a'
    } else if n == 11 {
        'b'
    } else if n == 12 {
        'c'
    } else if n == 13 {
        'd'
    } else if n == 14 {
        'e'
    } else {
        'f'
    }
}

/// The lower-case hex encoding of a byte sequence, two digits per byte,
/// high nibble first.
pub open spec fn spec_hex_of(bytes: Seq<u8>) -> Seq<char>
    decreases bytes.len(),
{
    if bytes.len() == 0 {
        Seq::empty()
    } else {
        seq![spec_hex_digit(bytes.first() / 16), spec_hex_digit(bytes.first() % 16)]
            + spec_hex_of(bytes.drop_first())
    }
}

/// Hex encoding yields two characters per byte.
proof fn lemma_hex_len(bytes: Seq<u8>)
    ensures
        spec_hex_of(bytes).len() == 2 * bytes.len(),
    decreases bytes.len(),
{
    if bytes.len() > 0 {
        lemma_hex_len(bytes.drop_first());
    }
}

/// The one-character string for a hex digit.
fn hex_digit_str(n: u8) -> (r: &'static str)
    requires
        n < 16,
    ensures
        r@ == seq![spec_hex_digit(n)],
{
    proof {
        reveal_strlit("0");
        reveal_strlit("1");
        reveal_strlit("2");
        reveal_strlit("3");
        reveal_strlit("4");
        reveal_strlit("5");
        reveal_strlit("6");
        reveal_strlit("7");
        reveal_strlit("8");
        reveal_strlit("9");
        reveal_strlit("a");
        reveal_strlit("b");
        reveal_strlit("c");
        reveal_strlit("d");
        reveal_strlit("e");
        reveal_strlit("f");
    }
    match n {
        0 => "0",
        1 => "1",
        2 => "2",
        3 => "3",
        4 => "4",
        5 => "5",
        6 => "6",
        7 => "7",
        8 => "8",
        9 => "9",
        10 => "a",
        11 => "b",
        12 => "c",
        13 => "d",
        14 => "e",
        _ => "f",
    }
}

/// Encode a byte vector as lower-case hex, two digits per byte.
pub fn to_hex_lower(data: &Vec<u8>) -> (r: String)
    ensures
        r@ == spec_hex_of(data@),
{
    let n = data.len();
    let mut r = String::new();
    proof {
        assert(data@.skip(0) == data@);
    }
    let mut i: usize = 0;
    while i < n
        invariant
            i <= n,
            n == data@.len(),
            spec_hex_of(data@) =~= r@ + spec_hex_of(data@.skip(i as int)),
        decreases n - i,
    {
        let b = data[i];
        r.append(hex_digit_str(b / 16));
        r.append(hex_digit_str(b % 16));
        proof {
            assert(data@.skip(i as int).drop_first() =~= data@.skip(i as int + 1));
        }
        i += 1;
    }
    proof {
        assert(r@ + spec_hex_of(data@.skip(n as int)) =~= r@);
    }
    r
}

/// Hash a password: the lower-case hex encoding of the SHA-256 digest of
/// its bytes, which is always 64 characters long.
pub fn hash_password(password: &str) -> (r: String)
    ensures
        r@ == spec_hex_of(spec_sha256(password.spec_bytes())),
        r@.len() == 64,
{
    let digest = sha256_digest(password.as_bytes());
    proof {
        lemma_hex_len(digest@);
    }
    to_hex_lower(&digest)
}

/// A presented password matches a stored hash exactly when the stored hash
/// is the hex-encoded SHA-256 digest of the password.
pub fn verify_password(stored_hash: &str, password: &str) -> (r: bool)
    ensures
        r == (stored_hash@ == spec_hex_of(spec_sha256(password.spec_bytes()))),
{
    let computed = hash_password(password);
    str_eq(stored_hash, computed.as_str())
}

/// Number of seconds an authentication token stays valid: 24 hours.
pub const TOKEN_LIFETIME_SECS: usize = 24 * 60 * 60;

/// The claims issued to an account at login: issued at `now_ts`, expiring
/// [`TOKEN_LIFETIME_SECS`] later.
pub fn make_claims(sub: String, username: String, role: String, now_ts: usize) -> (r: Claims)
    requires
        now_ts + TOKEN_LIFETIME_SECS <= usize::MAX,
    ensures
        r.sub == sub,
        r.username == username,
        r.role == role,
        r.iat == now_ts,
        r.exp == now_ts + TOKEN_LIFETIME_SECS,
{
    Claims { sub, username, role, exp: now_ts + TOKEN_LIFETIME_SECS, iat: now_ts }
}

/// The token carried by an authorization header: the part after the
/// `Bearer ` scheme prefix, or nothing when the prefix is absent.
pub fn parse_bearer<'a>(header: &'a str) -> (r: Option<&'a str>)
    ensures
        r matches Some(t) ==> (spec_starts_with(header@, "Bearer "@) && t@ == header@.skip(7)),
        r is None ==> !spec_starts_with(header@, "Bearer "@),
{
    proof {
        reveal_strlit("Bearer ");
    }
    if starts_with(header, "Bearer ") {
        let n = header.unicode_len();
        let t = header.substring_char(7, n);
        proof {
            assert(t@ =~= header@.skip(7));
        }
        Some(t)
    } else {
        None
    }
}

} // verus!
