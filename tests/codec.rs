use skeleton::codec::{decode, issue, CodecError, TOKEN_TTL};

const KEY: &[u8] = b"abcdefghijklmnopqrstuvwxyz012345";
const OTHER_KEY: &[u8] = b"ABCDEFGHIJKLMNOPQRSTUVWXYZ012345";
const T0: u32 = 1_700_000_000;

#[test]
fn round_trip_within_ttl() {
    let token = issue(KEY, b"payload", T0).unwrap();
    assert_ne!(token.as_bytes(), b"payload");
    assert_eq!(decode(KEY, &token, TOKEN_TTL, T0 as u64).unwrap(), b"payload".to_vec());
    assert_eq!(decode(KEY, &token, TOKEN_TTL, (T0 + TOKEN_TTL) as u64).unwrap(), b"payload".to_vec());
}

#[test]
fn empty_payload_round_trip() {
    let token = issue(KEY, b"", T0).unwrap();
    assert_eq!(decode(KEY, &token, 10, T0 as u64 + 10).unwrap(), Vec::<u8>::new());
}

#[test]
fn expired_one_second_after_ttl() {
    let token = issue(KEY, b"payload", T0).unwrap();
    assert_eq!(decode(KEY, &token, TOKEN_TTL, T0 as u64 + TOKEN_TTL as u64 + 1), Err(CodecError::Expired));
    assert_eq!(decode(KEY, &token, 0, T0 as u64 + 1), Err(CodecError::Expired));
    assert!(decode(KEY, &token, 0, T0 as u64).is_ok());
}

#[test]
fn tampered_token_is_invalid() {
    let token = issue(KEY, b"payload", T0).unwrap();
    let bytes = token.as_bytes();
    for pos in [0usize, bytes.len() / 2, bytes.len() - 1] {
        let mut changed = bytes.to_vec();
        changed[pos] = if changed[pos] == b'a' { b'b' } else { b'a' };
        let text = String::from_utf8(changed).unwrap();
        assert_eq!(decode(KEY, &text, TOKEN_TTL, T0 as u64), Err(CodecError::Invalid));
    }
}

#[test]
fn other_key_cannot_decode() {
    let token = issue(KEY, b"payload", T0).unwrap();
    assert_eq!(decode(OTHER_KEY, &token, TOKEN_TTL, T0 as u64), Err(CodecError::Invalid));
}

#[test]
fn short_key_is_refused() {
    assert_eq!(issue(b"short", b"payload", T0), Err(CodecError::Crypto));
    assert_eq!(decode(b"short", "anything", TOKEN_TTL, T0 as u64), Err(CodecError::Invalid));
}

#[test]
fn garbage_token_is_invalid() {
    assert_eq!(decode(KEY, "not a token", TOKEN_TTL, T0 as u64), Err(CodecError::Invalid));
    assert_eq!(decode(KEY, "", TOKEN_TTL, T0 as u64), Err(CodecError::Invalid));
}
