use skeleton::forms::{has_min_chars, AuthUser, ChangePassword, CreateUser, Mail, ResetPassword};
use skeleton::handlers;
use skeleton::store::{ApiError, UserStore};

const T0: u32 = 1_700_000_000;

fn create(email: &str, username: &str, password: &str) -> CreateUser {
    CreateUser { email: email.to_string(), username: username.to_string(), password: password.to_string() }
}

#[test]
fn create_user_checks() {
    assert!(create("alice@example.com", "alice", "secret1").validate());
    assert!(!create("not-an-email", "alice", "secret1").validate());
    assert!(!create("alice@example.com", "", "secret1").validate());
    assert!(!create("alice@example.com", "alice", "1234").validate());
    assert!(create("alice@example.com", "a", "12345").validate());
}

#[test]
fn other_bodies_check() {
    assert!(AuthUser { email: "a@b.co".into(), password: "12345".into() }.validate());
    assert!(!AuthUser { email: "".into(), password: "12345".into() }.validate());
    assert!(!ChangePassword { old_password: "1234".into(), new_password: "12345".into() }.validate());
    assert!(ChangePassword { old_password: "12345".into(), new_password: "12345".into() }.validate());
    assert!(Mail { email: "a@b.co".into() }.validate());
    assert!(!Mail { email: "ab.co".into() }.validate());
    assert!(ResetPassword { email: "a@b.co".into(), token: "".into(), password: "".into() }.validate());
    assert!(has_min_chars("ééééé", 5));
    assert!(!has_min_chars("éééé", 5));
}

#[test]
fn routes_register_login_and_reset() {
    let mut store = UserStore::new();
    assert_eq!(handlers::register(&mut store, &create("bad", "x", "secret1"), T0), Err(ApiError::ValidationError));
    let id = handlers::register(&mut store, &create("alice@example.com", "alice", "secret1"), T0).unwrap();
    assert!(!store.users[0].is_admin);
    let login = AuthUser { email: "alice@example.com".into(), password: "secret1".into() };
    let cookie = handlers::login(&store, &login, T0).unwrap();
    assert_eq!(handlers::get(&store, Some(&cookie)).unwrap().id, id);
    assert_eq!(handlers::get(&store, None).err(), Some(ApiError::Unauthorized));
    let mail = handlers::forgot_password(&mut store, &Mail { email: "alice@example.com".into() }, T0).unwrap();
    assert_eq!((mail.to.as_str(), mail.username.as_str(), mail.code.len()), ("alice@example.com", "alice", 6));
    let reset = ResetPassword { email: "alice@example.com".into(), token: mail.code.clone(), password: "fresh1".into() };
    assert_eq!(handlers::reset_password(&mut store, &reset, T0 + 5), Ok(()));
    let change = ChangePassword { old_password: "wrong1".into(), new_password: "other1".into() };
    assert_eq!(handlers::change_password(&mut store, Some(&cookie), &change, T0 + 6), Err(ApiError::Unauthorized));
    let change = ChangePassword { old_password: "fresh1".into(), new_password: "other1".into() };
    assert_eq!(handlers::change_password(&mut store, Some(&cookie), &change, T0 + 6), Ok(()));
    assert_eq!(handlers::delete(&mut store, Some(&cookie)), Ok(()));
    assert_eq!(store.users.len(), 0);
}
