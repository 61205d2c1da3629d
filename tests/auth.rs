use skeleton::credential::{hash_credentials, login_payload, new_reset_code, new_token_key, verify_credentials};
use skeleton::session::{check_request, extract_json_token, GateError, Level};
use skeleton::store::{ApiError, User, UserStore};
use skeleton::user::{
    auth, change_password, create_token, delete, generate_reset_token, get_user_by_email, get_user_by_id, register,
    reset_password, update, verify_reset_token, verify_token,
};

const T0: u32 = 1_700_000_000;
const TTL: u32 = 86400;

fn token_of(cookie: &str) -> (i32, String) {
    let j = extract_json_token(Some(cookie)).unwrap();
    (j.id, j.token)
}

#[test]
fn register_then_authenticate() {
    let mut store = UserStore::new();
    let id = register(&mut store, false, "alice", "secret1", "alice@example.com", T0).unwrap();
    assert_eq!(id, 1);
    let u = get_user_by_id(&store, id).unwrap();
    assert_eq!(u.username, "alice");
    assert_eq!(u.email, "alice@example.com");
    assert!(!u.is_admin);
    assert_eq!(u.token_key.len(), 32);
    assert_eq!(u.reset_token, "");
    assert_ne!(u.password_hash, "alice@example.comsecret1");
    let cookie = auth(&store, "alice@example.com", "secret1", T0).unwrap();
    let (cid, token) = token_of(&cookie);
    assert_eq!(cid, id);
    assert_eq!(verify_token(&store, cid, &token, false, T0 + 10).unwrap().id, id);
    assert_eq!(auth(&store, "alice@example.com", "wrongpw", T0), Err(ApiError::Unauthorized));
}

#[test]
fn unknown_email_is_unauthorized() {
    let store = UserStore::new();
    assert_eq!(auth(&store, "nobody@example.com", "secret1", T0), Err(ApiError::Unauthorized));
    assert_eq!(get_user_by_email(&store, "nobody@example.com").err(), Some(ApiError::NotFound));
    assert_eq!(get_user_by_id(&store, 7).err(), Some(ApiError::NotFound));
}

#[test]
fn admin_level_needs_admin_flag() {
    let mut store = UserStore::new();
    let id = register(&mut store, false, "bob", "secret1", "bob@example.com", T0).unwrap();
    let cookie = auth(&store, "bob@example.com", "secret1", T0).unwrap();
    let (_, token) = token_of(&cookie);
    assert!(verify_token(&store, id, &token, false, T0).is_ok());
    assert_eq!(verify_token(&store, id, &token, true, T0).err(), Some(ApiError::Unauthorized));
    assert_eq!(check_request(&store, Some(&cookie), Level::User, T0).unwrap().id, id);
    assert_eq!(check_request(&store, Some(&cookie), Level::Admin, T0).err(), Some(GateError::Forbidden));
}

#[test]
fn admin_session_passes_admin_gate() {
    let mut store = UserStore::new();
    let id = register(&mut store, true, "root", "secret1", "root@example.com", T0).unwrap();
    let cookie = auth(&store, "root@example.com", "secret1", T0).unwrap();
    assert_eq!(check_request(&store, Some(&cookie), Level::Admin, T0 + 5).unwrap().id, id);
    let (_, token) = token_of(&cookie);
    assert!(verify_token(&store, id, &token, true, T0).is_ok());
}

#[test]
fn session_expires_after_ttl() {
    let mut store = UserStore::new();
    let id = register(&mut store, false, "carol", "secret1", "carol@example.com", T0).unwrap();
    let cookie = auth(&store, "carol@example.com", "secret1", T0).unwrap();
    let (_, token) = token_of(&cookie);
    assert!(verify_token(&store, id, &token, false, T0 + TTL).is_ok());
    assert_eq!(verify_token(&store, id, &token, false, T0 + TTL + 1).err(), Some(ApiError::Unauthorized));
    assert_eq!(check_request(&store, Some(&cookie), Level::User, T0 + TTL + 1).err(), Some(GateError::Unauthenticated));
}

#[test]
fn token_of_one_user_fails_for_another() {
    let mut store = UserStore::new();
    let a = register(&mut store, false, "a", "secret1", "a@example.com", T0).unwrap();
    let b = register(&mut store, false, "b", "secret2", "b@example.com", T0).unwrap();
    assert_eq!(b, a + 1);
    let cookie = auth(&store, "a@example.com", "secret1", T0).unwrap();
    let (_, token) = token_of(&cookie);
    assert_eq!(verify_token(&store, b, &token, false, T0).err(), Some(ApiError::Unauthorized));
    assert_eq!(verify_token(&store, 99, &token, false, T0).err(), Some(ApiError::Unauthorized));
}

#[test]
fn gate_rejects_missing_or_malformed_cookie() {
    let store = UserStore::new();
    assert_eq!(check_request(&store, None, Level::User, T0).err(), Some(GateError::Unauthenticated));
    assert_eq!(check_request(&store, Some("not json"), Level::User, T0).err(), Some(GateError::Unauthenticated));
    assert_eq!(check_request(&store, Some("{\"id\":1}"), Level::User, T0).err(), Some(GateError::Unauthenticated));
    assert_eq!(extract_json_token(None).err(), Some(ApiError::Unauthorized));
    assert_eq!(extract_json_token(Some("{\"id\":99999999999,\"token\":\"x\"}")).err(), Some(ApiError::Unauthorized));
    let j = extract_json_token(Some("{\"id\":3,\"token\":\"abc\"}")).unwrap();
    assert_eq!((j.id, j.token.as_str()), (3, "abc"));
}

#[test]
fn duplicate_registration_conflicts() {
    let mut store = UserStore::new();
    register(&mut store, false, "alice", "secret1", "alice@example.com", T0).unwrap();
    assert_eq!(register(&mut store, false, "other", "secret9", "alice@example.com", T0), Err(ApiError::Conflict));
    assert_eq!(store.users.iter().filter(|u| u.email == "alice@example.com").count(), 1);
    assert_eq!(store.users.len(), 1);
}

#[test]
fn reset_code_flow() {
    let mut store = UserStore::new();
    register(&mut store, false, "alice", "secret1", "alice@example.com", T0).unwrap();
    let code = generate_reset_token(&mut store, "alice@example.com", T0).unwrap();
    assert_eq!(code.chars().count(), 6);
    assert!(code.chars().all(|c| c.is_ascii_alphanumeric()));
    let stored = get_user_by_email(&store, "alice@example.com").unwrap().reset_token;
    assert_ne!(stored, code);
    assert_eq!(verify_reset_token(&store, "alice@example.com", &code, T0 + 60), Ok(()));
    assert_eq!(verify_reset_token(&store, "alice@example.com", "zzzzzz", T0 + 60), Err(ApiError::Invalid));
    assert_eq!(verify_reset_token(&store, "nobody@example.com", &code, T0), Err(ApiError::NotFound));
}

#[test]
fn stale_reset_code_is_invalid() {
    let mut store = UserStore::new();
    register(&mut store, false, "alice", "secret1", "alice@example.com", T0).unwrap();
    let first = generate_reset_token(&mut store, "alice@example.com", T0).unwrap();
    let second = generate_reset_token(&mut store, "alice@example.com", T0 + 1).unwrap();
    if first != second {
        assert_eq!(verify_reset_token(&store, "alice@example.com", &first, T0 + 2), Err(ApiError::Invalid));
    }
    assert_eq!(verify_reset_token(&store, "alice@example.com", &second, T0 + 2), Ok(()));
}

#[test]
fn reset_code_expires() {
    let mut store = UserStore::new();
    register(&mut store, false, "alice", "secret1", "alice@example.com", T0).unwrap();
    let code = generate_reset_token(&mut store, "alice@example.com", T0).unwrap();
    assert_eq!(code.len(), 6);
    assert_eq!(verify_reset_token(&store, "alice@example.com", &code, T0 + TTL + 1), Err(ApiError::Invalid));
}

#[test]
fn reset_password_sets_password_and_spends_code() {
    let mut store = UserStore::new();
    register(&mut store, false, "alice", "secret1", "alice@example.com", T0).unwrap();
    let code = generate_reset_token(&mut store, "alice@example.com", T0).unwrap();
    assert_eq!(reset_password(&mut store, "alice@example.com", "wrong!", "newpass", T0 + 1), Err(ApiError::Invalid));
    assert_eq!(reset_password(&mut store, "alice@example.com", &code, "newpass", T0 + 1), Ok(()));
    assert_eq!(get_user_by_email(&store, "alice@example.com").unwrap().reset_token, "");
    assert_eq!(verify_reset_token(&store, "alice@example.com", &code, T0 + 2), Err(ApiError::Invalid));
    assert_eq!(auth(&store, "alice@example.com", "secret1", T0 + 2), Err(ApiError::Unauthorized));
    assert!(auth(&store, "alice@example.com", "newpass", T0 + 2).is_ok());
}

#[test]
fn change_password_replaces_hash() {
    let mut store = UserStore::new();
    register(&mut store, false, "dan", "secret1", "dan@example.com", T0).unwrap();
    assert_eq!(change_password(&mut store, "dan@example.com", "another", T0 + 3), Ok(()));
    let u = get_user_by_email(&store, "dan@example.com").unwrap();
    assert_eq!(u.updated_at, T0 + 3);
    assert_eq!(u.created_at, T0);
    assert_eq!(verify_credentials("dan@example.com", "another", &u.password_hash), Some(true));
    assert_eq!(verify_credentials("dan@example.com", "secret1", &u.password_hash), Some(false));
    assert_eq!(change_password(&mut store, "ghost@example.com", "another", T0), Ok(()));
}

#[test]
fn update_and_delete_user() {
    let mut store = UserStore::new();
    let a = register(&mut store, false, "a", "secret1", "a@example.com", T0).unwrap();
    register(&mut store, false, "b", "secret2", "b@example.com", T0).unwrap();
    assert_eq!(update(&mut store, a, "a2", "secret3", "b@example.com", T0), Err(ApiError::Conflict));
    assert_eq!(update(&mut store, 42, "x", "secret3", "x@example.com", T0), Err(ApiError::NotFound));
    assert_eq!(update(&mut store, a, "a2", "secret3", "a2@example.com", T0 + 1), Ok(()));
    let u = get_user_by_id(&store, a).unwrap();
    assert_eq!((u.username.as_str(), u.email.as_str()), ("a2", "a2@example.com"));
    assert_eq!(delete(&mut store, a), Ok(()));
    assert_eq!(get_user_by_id(&store, a).err(), Some(ApiError::NotFound));
    assert_eq!(delete(&mut store, a), Ok(()));
    assert_eq!(store.users.len(), 1);
}

#[test]
fn helpers_produce_expected_shapes() {
    let key = new_token_key();
    assert_eq!(key.len(), 32);
    assert!(key.chars().all(|c| c.is_ascii_alphanumeric()));
    assert_eq!(new_reset_code().len(), 6);
    assert_eq!(login_payload(0), "1970-01-01 00:00:00 UTC");
    let h = hash_credentials("e@x.io", "pw").unwrap();
    assert_eq!(verify_credentials("e@x.io", "pw", &h), Some(true));
    assert_eq!(verify_credentials("e@x.io", "pw", "not a hash"), None);
}

#[test]
fn create_token_needs_a_32_byte_key() {
    let mut user = User {
        id: 5,
        is_admin: false,
        username: "eve".to_string(),
        email: "eve@example.com".to_string(),
        token_key: "short".to_string(),
        password_hash: String::new(),
        reset_token: String::new(),
        created_at: T0,
        updated_at: T0,
    };
    assert_eq!(create_token(&user, T0), Err(ApiError::CryptoError));
    user.token_key = "0123456789abcdefghijklmnopqrstuv".to_string();
    let cookie = create_token(&user, T0).unwrap();
    let (id, _) = token_of(&cookie);
    assert_eq!(id, 5);
}

#[test]
fn stored_hash_has_bcrypt_shape() {
    let mut store = UserStore::new();
    let id = register(&mut store, false, "fay", "secret1", "fay@example.com", T0).unwrap();
    let h = get_user_by_id(&store, id).unwrap().password_hash;
    assert_eq!(h.len(), 60);
    assert!(h.starts_with('$'));
}
