//! Authenticated, expiring tokens sealed under one key per subject.

use vstd::prelude::*;
use vstd::string::StringSliceAdditionalSpecFns;

verus! {

/// What a token opens to under a key: the timestamp sealed into it and its
/// payload, or nothing when it does not authenticate under that key.
pub uninterp spec fn opened(key: Seq<u8>, token: Seq<char>) -> Option<(u32, Seq<u8>)>;

/// Lifetime of session tokens and reset codes, in seconds.
pub const TOKEN_TTL: u32 = 86400;

/// Length in bytes that a token key must have.
pub const KEY_LEN: usize = 32;

/// Largest payload, in bytes, that the cipher seals.
pub const MAX_PAYLOAD: u64 = 0xFFFF_FFFF * 64;

#[derive(Debug, Clone, Copy, PartialEq, Eq, Structural)]
pub enum CodecError {
    /// The key is unusable or the cipher failed.
    Crypto,
    /// The token does not authenticate under the key.
    Invalid,
    /// The token authenticates but is older than allowed.
    Expired,
}

/// A token sealed under `key` at `issued_at` carrying `payload`.
pub open spec fn issued(key: Seq<u8>, payload: Seq<u8>, issued_at: u32, token: Seq<char>) -> bool {
    opened(key, token) == Some((issued_at, payload))
}

/// Whether a token sealed at `issued_at` has outlived `ttl` seconds at time `now`.
pub open spec fn is_expired(issued_at: u32, ttl: u32, now: u64) -> bool {
    now > issued_at + ttl
}

/// What decoding `token` under `key` at time `now` yields.
pub open spec fn decoded(key: Seq<u8>, token: Seq<char>, ttl: u32, now: u64) -> Result<Seq<u8>, CodecError> {
    match opened(key, token) {
        None => Err(CodecError::Invalid),
        Some((issued_at, payload)) => if is_expired(issued_at, ttl, now) {
            Err(CodecError::Expired)
        } else {
            Ok(payload)
        },
    }
}

/// Relies on branca::encode: it refuses a key that is not 32 bytes long, and
/// otherwise fails only on a payload over the XChaCha20-Poly1305 limit of
/// u32::MAX * 64 bytes (orion's P_MAX); the token it returns opens under the
/// same key (branca::decode_with_timestamp) to the given timestamp and payload.
#[verifier::external_body]
fn seal(key: &[u8], payload: &[u8], timestamp: u32) -> (r: Option<String>)
    ensures
        key@.len() != KEY_LEN ==> r is None,
        key@.len() == KEY_LEN && payload@.len() <= MAX_PAYLOAD ==> r is Some,
        r matches Some(t) ==> issued(key@, payload@, timestamp, t@),
{
    branca::encode(payload, key, timestamp).ok()
}

/// Relies on branca::decode_with_timestamp: authenticates and decrypts a token,
/// giving its timestamp and payload, with no check of its age; a token under
/// 61 bytes is refused.
#[verifier::external_body]
fn unseal(key: &[u8], token: &str) -> (r: Option<(u32, Vec<u8>)>)
    ensures
        token.spec_bytes().len() < 61 ==> r is None,
        match r {
            Some((ts, p)) => opened(key@, token@) == Some((ts, p@)),
            None => opened(key@, token@) is None,
        },
{
    branca::decode_with_timestamp(token, key).ok()
}

/// Seals `payload` under `key`, stamped with `now`. It fails only for a key
/// that is not 32 bytes long, or a payload over the cipher's limit.
pub fn issue(key: &[u8], payload: &[u8], now: u32) -> (r: Result<String, CodecError>)
    ensures
        key@.len() != KEY_LEN ==> r == Err::<String, CodecError>(CodecError::Crypto),
        key@.len() == KEY_LEN && payload@.len() <= MAX_PAYLOAD ==> r is Ok,
        match r {
            Ok(t) => issued(key@, payload@, now, t@),
            Err(e) => e == CodecError::Crypto,
        },
{
    match seal(key, payload, now) {
        Some(t) => Ok(t),
        None => Err(CodecError::Crypto),
    }
}

/// Opens `token` under `key` and refuses it once more than `ttl` seconds have
/// passed between its timestamp and `now`.
pub fn decode(key: &[u8], token: &str, ttl: u32, now: u64) -> (r: Result<Vec<u8>, CodecError>)
    ensures
        match r {
            Ok(p) => decoded(key@, token@, ttl, now) == Ok::<Seq<u8>, CodecError>(p@),
            Err(e) => decoded(key@, token@, ttl, now) == Err::<Seq<u8>, CodecError>(e),
        },
{
    match unseal(key, token) {
        None => Err(CodecError::Invalid),
        Some((issued_at, payload)) => {
            if now > issued_at as u64 + ttl as u64 {
                Err(CodecError::Expired)
            } else {
                Ok(payload)
            }
        },
    }
}

/// A token decoded within `ttl` seconds of its issue gives back its payload.
pub proof fn lemma_round_trip(key: Seq<u8>, payload: Seq<u8>, issued_at: u32, token: Seq<char>, ttl: u32, now: u64)
    requires
        issued(key, payload, issued_at, token),
        now <= issued_at + ttl,
    ensures
        decoded(key, token, ttl, now) == Ok::<Seq<u8>, CodecError>(payload),
{
}

/// A token decoded one second after its lifetime has run out is expired,
/// whatever its key and payload.
pub proof fn lemma_expiry(key: Seq<u8>, payload: Seq<u8>, issued_at: u32, token: Seq<char>, ttl: u32, now: u64)
    requires
        issued(key, payload, issued_at, token),
        now == issued_at + ttl + 1,
    ensures
        decoded(key, token, ttl, now) == Err::<Seq<u8>, CodecError>(CodecError::Expired),
{
}

} // verus!
