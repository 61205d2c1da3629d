//! Password hashing and the random strings that keys and reset codes are made of.

use rand::Rng;
use vstd::prelude::*;
use vstd::utf8::encode_utf8;

verus! {

/// What checking a password against a stored hash gives: whether it matches,
/// or nothing when the stored hash is malformed.
pub uninterp spec fn bcrypt_check(secret: Seq<u8>, hash: Seq<char>) -> Option<bool>;

/// What the chosen wall-clock rendering of a Unix time in seconds reads.
pub uninterp spec fn utc_text(seconds: u32) -> Seq<char>;

/// Length of a per-user token key.
pub const TOKEN_KEY_CHARS: usize = 32;

/// Length of a password-reset code.
pub const RESET_CODE_CHARS: usize = 6;

/// An ASCII letter or digit.
pub open spec fn is_alphanumeric(c: char) -> bool {
    ('A' <= c <= 'Z') || ('a' <= c <= 'z') || ('0' <= c <= '9')
}

/// The bytes that are hashed for a user: the email followed by the password.
pub open spec fn secret_of(email: Seq<char>, password: Seq<char>) -> Seq<u8> {
    encode_utf8(email) + encode_utf8(password)
}

/// Relies on rand's Alphanumeric distribution over the thread-local generator:
/// `n` characters, each one of A-Z, a-z, 0-9, so one byte each.
#[verifier::external_body]
fn random_alphanumeric(n: usize) -> (r: String)
    ensures
        r@.len() == n,
        encode_utf8(r@).len() == n,
        forall|i: int| 0 <= i < n ==> is_alphanumeric(#[trigger] r@[i]),
{
    rand::thread_rng().sample_iter(&rand::distributions::Alphanumeric).take(n).map(char::from).collect()
}

/// Relies on bcrypt::hash at bcrypt::DEFAULT_COST: a freshly salted hash that
/// bcrypt::verify accepts for the same input, in the 60-character modular
/// crypt format that starts with '$' (HashParts::format).
#[verifier::external_body]
fn salted_hash(secret: &[u8]) -> (r: Option<String>)
    ensures
        r matches Some(h) ==> bcrypt_check(secret@, h@) == Some(true) && h@.len() == 60 && h@[0] == '$',
{
    bcrypt::hash(secret, bcrypt::DEFAULT_COST).ok()
}

/// Relies on bcrypt::verify: recomputes the hash of `secret` with the salt and
/// cost read from `hash`, and compares.
#[verifier::external_body]
fn check_hash(secret: &[u8], hash: &str) -> (r: Option<bool>)
    ensures
        r == bcrypt_check(secret@, hash@),
{
    bcrypt::verify(secret, hash).ok()
}

/// Relies on chrono's DateTime<Utc>: the Display rendering of the instant
/// `seconds` after the Unix epoch, `YYYY-MM-DD HH:MM:SS UTC` in ASCII; a u32
/// of seconds stays within four-digit years, so it is 23 bytes long.
#[verifier::external_body]
fn render_utc(seconds: u32) -> (r: String)
    ensures
        r@ == utc_text(seconds),
        encode_utf8(r@).len() == 23,
{
    match chrono::DateTime::<chrono::Utc>::from_timestamp(seconds as i64, 0) {
        Some(t) => t.to_string(),
        None => String::new(),
    }
}

/// The bytes of `email` followed by those of `password`.
pub fn secret_bytes(email: &str, password: &str) -> (r: Vec<u8>)
    ensures
        r@ == secret_of(email@, password@),
{
    let mut v = vstd::slice::slice_to_vec(email.as_bytes());
    v.extend_from_slice(password.as_bytes());
    v
}

/// A fresh per-user token key.
pub fn new_token_key() -> (r: String)
    ensures
        r@.len() == TOKEN_KEY_CHARS,
        encode_utf8(r@).len() == TOKEN_KEY_CHARS,
        forall|i: int| 0 <= i < r@.len() ==> is_alphanumeric(#[trigger] r@[i]),
{
    random_alphanumeric(TOKEN_KEY_CHARS)
}

/// A fresh password-reset code.
pub fn new_reset_code() -> (r: String)
    ensures
        r@.len() == RESET_CODE_CHARS,
        encode_utf8(r@).len() == RESET_CODE_CHARS,
        forall|i: int| 0 <= i < r@.len() ==> is_alphanumeric(#[trigger] r@[i]),
{
    random_alphanumeric(RESET_CODE_CHARS)
}

/// The salted hash of `email` followed by `password`.
pub fn hash_credentials(email: &str, password: &str) -> (r: Option<String>)
    ensures
        r matches Some(h) ==> bcrypt_check(secret_of(email@, password@), h@) == Some(true)
            && h@.len() == 60 && h@[0] == '$',
{
    let secret = secret_bytes(email, password);
    salted_hash(secret.as_slice())
}

/// Whether `email` followed by `password` matches the stored hash; nothing when
/// the stored hash is malformed.
pub fn verify_credentials(email: &str, password: &str, hash: &str) -> (r: Option<bool>)
    ensures
        r == bcrypt_check(secret_of(email@, password@), hash@),
{
    let secret = secret_bytes(email, password);
    check_hash(secret.as_slice(), hash)
}

/// The text that login tokens carry: the time of login.
pub fn login_payload(now: u32) -> (r: String)
    ensures
        r@ == utc_text(now),
        encode_utf8(r@).len() == 23,
{
    render_utc(now)
}

} // verus!
