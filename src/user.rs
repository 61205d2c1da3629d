//! The auth service: registration, login, session checks, password changes
//! and the password-reset code flow, over a credential store.

use vstd::prelude::*;
use vstd::utf8::encode_utf8;
use crate::codec::{decode, decoded, issue, issued, CodecError, KEY_LEN, TOKEN_TTL};
use crate::credential::{
    bcrypt_check, hash_credentials, is_alphanumeric, login_payload, new_reset_code,
    new_token_key, secret_of, utc_text, verify_credentials, TOKEN_KEY_CHARS, RESET_CODE_CHARS,
};
use crate::session::{bearer_fields, bearer_text, write_bearer};
use crate::store::{has_email, has_id, ApiError, NewUser, User, UserStore};

verus! {

/// The key that tokens of `u` are sealed under: the bytes of its token key.
pub open spec fn key_of(u: User) -> Seq<u8> {
    encode_utf8(u.token_key@)
}

/// The record that a successful registration adds.
pub open spec fn registered_record(
    u: User,
    id: i32,
    admin: bool,
    username: Seq<char>,
    password: Seq<char>,
    email: Seq<char>,
    now: u32,
) -> bool {
    &&& u.id == id
    &&& u.is_admin == admin
    &&& u.username@ == username
    &&& u.email@ == email
    &&& u.token_key@.len() == TOKEN_KEY_CHARS
    &&& forall|k: int| 0 <= k < u.token_key@.len() ==> is_alphanumeric(#[trigger] u.token_key@[k])
    &&& key_of(u).len() == KEY_LEN
    &&& bcrypt_check(secret_of(email, password), u.password_hash@) == Some(true)
    &&& u.password_hash@.len() == 60
    &&& u.password_hash@[0] == '$'
    &&& u.reset_token@.len() == 0
    &&& u.created_at == now
    &&& u.updated_at == now
}

/// What `register` may do: refuse a taken email with `Conflict`; otherwise
/// either append one record for the new user under the next id, or change
/// nothing and fail with `CryptoError` (hashing failed) or `StoreError` (the
/// ids have run out).
pub open spec fn register_post(
    s0: UserStore,
    s1: UserStore,
    admin: bool,
    username: Seq<char>,
    password: Seq<char>,
    email: Seq<char>,
    now: u32,
    r: Result<i32, ApiError>,
) -> bool {
    if has_email(s0.users@, email) {
        r == Err::<i32, ApiError>(ApiError::Conflict) && s1 == s0
    } else {
        match r {
            Ok(id) => {
                &&& id == s0.next_id
                &&& s1.next_id == s0.next_id + 1
                &&& s1.users@.len() == s0.users@.len() + 1
                &&& s1.users@.drop_last() == s0.users@
                &&& registered_record(s1.users@.last(), id, admin, username, password, email, now)
            },
            Err(e) => s1 == s0 && (e == ApiError::CryptoError || (e == ApiError::StoreError
                && s0.next_id == i32::MAX)),
        }
    }
}

/// `cookie` is a bearer value for `u`: its id beside a token sealed under
/// `u`'s key at `now`, carrying the login time.
pub open spec fn login_cookie(u: User, now: u32, cookie: Seq<char>) -> bool {
    exists|t: Seq<char>|
        cookie == #[trigger] bearer_text(u.id, t)
        && bearer_fields(cookie) == Some((u.id as i64, t))
        && issued(key_of(u), encode_utf8(utc_text(now)), now, t)
}

/// What `auth` may return: `Unauthorized` for an unknown email or a wrong
/// password, `CryptoError` for a malformed stored hash; for matching
/// credentials a login cookie when the user's key is 32 bytes long, and
/// `CryptoError` when it is not.
pub open spec fn auth_post(
    users: Seq<User>,
    email: Seq<char>,
    password: Seq<char>,
    now: u32,
    r: Result<String, ApiError>,
) -> bool {
    &&& !has_email(users, email) ==> r == Err::<String, ApiError>(ApiError::Unauthorized)
    &&& forall|i: int|
        0 <= i < users.len() && (#[trigger] users[i]).email@ == email ==> match bcrypt_check(
            secret_of(email, password),
            users[i].password_hash@,
        ) {
            None => r == Err::<String, ApiError>(ApiError::CryptoError),
            Some(false) => r == Err::<String, ApiError>(ApiError::Unauthorized),
            Some(true) => if key_of(users[i]).len() == KEY_LEN {
                (r matches Ok(c) && login_cookie(users[i], now, c@))
            } else {
                r == Err::<String, ApiError>(ApiError::CryptoError)
            },
        }
}

/// `u` admits `token` at time `now`: it is an admin where one is required,
/// and the token decodes under `u`'s key within the token lifetime.
pub open spec fn admits(u: User, token: Seq<char>, must_be_admin: bool, now: u32) -> bool {
    &&& (!must_be_admin || u.is_admin)
    &&& decoded(key_of(u), token, TOKEN_TTL, now as u64) is Ok
}

/// The user with id `id` admits `token` at time `now`.
pub open spec fn session_valid(users: Seq<User>, id: i32, token: Seq<char>, must_be_admin: bool, now: u32) -> bool {
    exists|i: int| 0 <= i < users.len() && (#[trigger] users[i]).id == id && admits(users[i], token, must_be_admin, now)
}

/// Whether `u` is one of `users`.
pub open spec fn contains_user(users: Seq<User>, u: User) -> bool {
    exists|i: int| 0 <= i < users.len() && #[trigger] users[i] == u
}

/// Registers a user; the email must not be taken. Returns the new id.
pub fn register(
    store: &mut UserStore,
    admin: bool,
    username: &str,
    password: &str,
    email: &str,
    now: u32,
) -> (r: Result<i32, ApiError>)
    requires
        old(store).wf(),
    ensures
        final(store).wf(),
        register_post(*old(store), *final(store), admin, username@, password@, email@, now, r),
{
    if store.exists_by_email(email) {
        return Err(ApiError::Conflict);
    }
    let key = new_token_key();
    let hash = match hash_credentials(email, password) {
        Some(h) => h,
        None => return Err(ApiError::CryptoError),
    };
    let new_user = NewUser {
        is_admin: admin,
        username: username.to_owned(),
        email: email.to_owned(),
        token_key: key,
        password_hash: hash,
        reset_token: String::new(),
    };
    let ghost before = store.users@;
    let r = store.insert(new_user, now);
    proof {
        if r is Ok {
            assert(store.users@.drop_last() =~= before);
        }
    }
    r
}

/// The record with id `id`.
pub fn get_user_by_id(store: &UserStore, id: i32) -> (r: Result<User, ApiError>)
    ensures
        r is Err <==> !has_id(store.users@, id),
        r is Err ==> r == Err::<User, ApiError>(ApiError::NotFound),
        r matches Ok(u) ==> u.id == id && contains_user(store.users@, u),
{
    match store.find_by_id(id) {
        Some(i) => Ok(store.users[i].snapshot()),
        None => Err(ApiError::NotFound),
    }
}

/// The record with email `email`.
pub fn get_user_by_email(store: &UserStore, email: &str) -> (r: Result<User, ApiError>)
    ensures
        r is Err <==> !has_email(store.users@, email@),
        r is Err ==> r == Err::<User, ApiError>(ApiError::NotFound),
        r matches Ok(u) ==> u.email@ == email@ && contains_user(store.users@, u),
{
    match store.find_by_email(email) {
        Some(i) => Ok(store.users[i].snapshot()),
        None => Err(ApiError::NotFound),
    }
}

/// A bearer value for `user`: its id beside a fresh token sealed under its key
/// at `now`, carrying the login time. A key that is not 32 bytes long is
/// `CryptoError`.
pub fn create_token(user: &User, now: u32) -> (r: Result<String, ApiError>)
    ensures
        key_of(*user).len() == KEY_LEN ==> (r matches Ok(c) && login_cookie(*user, now, c@)),
        key_of(*user).len() != KEY_LEN ==> r == Err::<String, ApiError>(ApiError::CryptoError),
{
    let payload = login_payload(now);
    match issue(user.token_key.as_str().as_bytes(), payload.as_str().as_bytes(), now) {
        Ok(t) => {
            let c = write_bearer(user.id, t.as_str());
            assert(c@ == bearer_text(user.id, t@));
            Ok(c)
        },
        Err(_) => Err(ApiError::CryptoError),
    }
}

/// Logs in: checks the password against the stored hash and, on a match,
/// returns a bearer value for the user.
pub fn auth(store: &UserStore, email: &str, password: &str, now: u32) -> (r: Result<String, ApiError>)
    requires
        store.wf(),
    ensures
        auth_post(store.users@, email@, password@, now, r),
{
    let i = match store.find_by_email(email) {
        Some(i) => i,
        None => return Err(ApiError::Unauthorized),
    };
    let user = &store.users[i];
    match verify_credentials(email, password, user.password_hash.as_str()) {
        None => Err(ApiError::CryptoError),
        Some(false) => Err(ApiError::Unauthorized),
        Some(true) => create_token(user, now),
    }
}

/// Checks a session: the user with id `id` must exist, be an admin where
/// `must_be_admin` asks for one, and `token` must decode under its key within
/// the token lifetime. Returns that user.
pub fn verify_token(store: &UserStore, id: i32, token: &str, must_be_admin: bool, now: u32) -> (r: Result<User, ApiError>)
    requires
        store.wf(),
    ensures
        r is Ok <==> session_valid(store.users@, id, token@, must_be_admin, now),
        r is Err ==> r == Err::<User, ApiError>(ApiError::Unauthorized),
        r matches Ok(u) ==> u.id == id && contains_user(store.users@, u),
{
    let i = match store.find_by_id(id) {
        Some(i) => i,
        None => return Err(ApiError::Unauthorized),
    };
    let user = &store.users[i];
    if must_be_admin && !user.is_admin {
        return Err(ApiError::Unauthorized);
    }
    match decode(user.token_key.as_str().as_bytes(), token, TOKEN_TTL, now as u64) {
        Ok(_) => Ok(user.snapshot()),
        Err(_) => Err(ApiError::Unauthorized),
    }
}

/// What `generate_reset_token` may do: fail with `NotFound` for an unknown
/// email; otherwise return a fresh code and store, in place of the previous
/// one, a token sealed under the user's key at `now` that carries it; a
/// user whose key is not 32 bytes long gives `CryptoError` and no change.
pub open spec fn reset_requested(s0: UserStore, s1: UserStore, email: Seq<char>, now: u32, r: Result<String, ApiError>) -> bool {
    &&& !has_email(s0.users@, email) ==> r == Err::<String, ApiError>(ApiError::NotFound) && s1 == s0
    &&& forall|i: int|
        0 <= i < s0.users@.len() && (#[trigger] s0.users@[i]).email@ == email ==> match r {
            Ok(code) => {
                &&& code@.len() == RESET_CODE_CHARS
                &&& forall|k: int| 0 <= k < code@.len() ==> is_alphanumeric(#[trigger] code@[k])
                &&& s1.next_id == s0.next_id
                &&& s1.users@ == s0.users@.update(i, s1.users@[i])
                &&& s1.users@[i] == (User { reset_token: s1.users@[i].reset_token, updated_at: now, ..s0.users@[i] })
                &&& issued(key_of(s0.users@[i]), encode_utf8(code@), now, s1.users@[i].reset_token@)
            },
            Err(e) => e == ApiError::CryptoError && s1 == s0 && key_of(s0.users@[i]).len() != KEY_LEN,
        }
}

/// The stored reset token of `u` decodes at `now`, within the token lifetime,
/// to exactly the bytes of `code`.
pub open spec fn reset_code_valid(u: User, code: Seq<char>, now: u32) -> bool {
    decoded(key_of(u), u.reset_token@, TOKEN_TTL, now as u64) == Ok::<Seq<u8>, CodecError>(encode_utf8(code))
}

/// What `verify_reset_token` returns: `NotFound` for an unknown email, `Ok`
/// when the stored reset token holds `code` and has not expired, `Invalid`
/// otherwise.
pub open spec fn reset_checked(users: Seq<User>, email: Seq<char>, code: Seq<char>, now: u32, r: Result<(), ApiError>) -> bool {
    &&& !has_email(users, email) ==> r == Err::<(), ApiError>(ApiError::NotFound)
    &&& forall|i: int|
        0 <= i < users.len() && (#[trigger] users[i]).email@ == email ==> r == if reset_code_valid(users[i], code, now) {
            Ok::<(), ApiError>(())
        } else {
            Err::<(), ApiError>(ApiError::Invalid)
        }
}

/// Whether two byte sequences are equal.
pub fn bytes_equal(a: &[u8], b: &[u8]) -> (r: bool)
    ensures
        r == (a@ == b@),
{
    if a.len() != b.len() {
        return false;
    }
    let mut i: usize = 0;
    while i < a.len()
        invariant
            i <= a@.len(),
            a@.len() == b@.len(),
            forall|k: int| 0 <= k < i ==> a@[k] == b@[k],
        decreases a@.len() - i,
    {
        if a[i] != b[i] {
            return false;
        }
        i = i + 1;
    }
    assert(a@ =~= b@);
    true
}

/// Starts a password reset: stores a fresh code, sealed under the user's key,
/// in place of any earlier one, and returns the code in plain text.
pub fn generate_reset_token(store: &mut UserStore, email: &str, now: u32) -> (r: Result<String, ApiError>)
    requires
        old(store).wf(),
    ensures
        final(store).wf(),
        reset_requested(*old(store), *final(store), email@, now, r),
{
    let i = match store.find_by_email(email) {
        Some(i) => i,
        None => return Err(ApiError::NotFound),
    };
    let code = new_reset_code();
    let token = match issue(store.users[i].token_key.as_str().as_bytes(), code.as_str().as_bytes(), now) {
        Ok(t) => t,
        Err(_) => return Err(ApiError::CryptoError),
    };
    store.set_reset_token(i, token, now);
    Ok(code)
}

/// Checks a reset code against the one stored for `email`.
pub fn verify_reset_token(store: &UserStore, email: &str, code: &str, now: u32) -> (r: Result<(), ApiError>)
    requires
        store.wf(),
    ensures
        reset_checked(store.users@, email@, code@, now, r),
{
    let i = match store.find_by_email(email) {
        Some(i) => i,
        None => return Err(ApiError::NotFound),
    };
    let user = &store.users[i];
    match decode(user.token_key.as_str().as_bytes(), user.reset_token.as_str(), TOKEN_TTL, now as u64) {
        Ok(p) => {
            if bytes_equal(p.as_slice(), code.as_bytes()) {
                Ok(())
            } else {
                Err(ApiError::Invalid)
            }
        },
        Err(_) => Err(ApiError::Invalid),
    }
}

/// What `change_password` may do: replace the password hash of the user with
/// that email by one that accepts the new password, change nothing for an
/// unknown email, or change nothing and fail with `CryptoError` (hashing
/// failed).
pub open spec fn password_changed(s0: UserStore, s1: UserStore, email: Seq<char>, password: Seq<char>, now: u32, r: Result<(), ApiError>) -> bool {
    &&& s1.next_id == s0.next_id
    &&& r is Err ==> r == Err::<(), ApiError>(ApiError::CryptoError) && s1 == s0
    &&& r is Ok && !has_email(s0.users@, email) ==> s1 == s0
    &&& forall|i: int|
            0 <= i < s0.users@.len() && (#[trigger] s0.users@[i]).email@ == email && r is Ok ==> {
                &&& s1.users@ == s0.users@.update(i, s1.users@[i])
                &&& s1.users@[i] == (User {
                    password_hash: s1.users@[i].password_hash,
                    updated_at: now,
                    ..s0.users@[i]
                })
                &&& bcrypt_check(secret_of(email, password), s1.users@[i].password_hash@) == Some(true)
            }
}

/// Sets a new password for the user with email `email`; an unknown email
/// changes nothing.
pub fn change_password(store: &mut UserStore, email: &str, password: &str, now: u32) -> (r: Result<(), ApiError>)
    requires
        old(store).wf(),
    ensures
        final(store).wf(),
        password_changed(*old(store), *final(store), email@, password@, now, r),
{
    let hash = match hash_credentials(email, password) {
        Some(h) => h,
        None => return Err(ApiError::CryptoError),
    };
    match store.find_by_email(email) {
        Some(i) => {
            store.set_password_hash(i, hash, now);
            Ok(())
        },
        None => Ok(()),
    }
}

/// What `update` may do: `NotFound` for an unknown id, `Conflict` exactly when
/// another user has the new email, and otherwise either replace the user's
/// username, email and password hash, or change nothing and fail with
/// `CryptoError` (hashing failed).
pub open spec fn updated(s0: UserStore, s1: UserStore, id: i32, username: Seq<char>, password: Seq<char>, email: Seq<char>, now: u32, r: Result<(), ApiError>) -> bool {
    &&& s1.next_id == s0.next_id
    &&& !has_id(s0.users@, id) ==> r == Err::<(), ApiError>(ApiError::NotFound)
    &&& r is Err ==> s1 == s0
    &&& forall|i: int|
            0 <= i < s0.users@.len() && (#[trigger] s0.users@[i]).id == id ==> {
                &&& (exists|j: int| 0 <= j < s0.users@.len() && j != i
                    && (#[trigger] s0.users@[j]).email@ == email)
                    ==> r == Err::<(), ApiError>(ApiError::Conflict)
                &&& r == Err::<(), ApiError>(ApiError::Conflict) ==> exists|j: int|
                    0 <= j < s0.users@.len() && j != i && (#[trigger] s0.users@[j]).email@ == email
                &&& r is Err ==> r == Err::<(), ApiError>(ApiError::Conflict)
                    || r == Err::<(), ApiError>(ApiError::CryptoError)
                &&& r is Ok ==> {
                    &&& s1.users@ == s0.users@.update(i, s1.users@[i])
                    &&& s1.users@[i] == (User {
                        username: s1.users@[i].username,
                        email: s1.users@[i].email,
                        password_hash: s1.users@[i].password_hash,
                        updated_at: now,
                        ..s0.users@[i]
                    })
                    &&& s1.users@[i].username@ == username
                    &&& s1.users@[i].email@ == email
                    &&& bcrypt_check(secret_of(email, password), s1.users@[i].password_hash@) == Some(true)
                }
            }
}

/// Replaces the username, email and password of the user with id `id`.
/// Fails with `NotFound` for an unknown id and with `Conflict` when another
/// user has the new email.
pub fn update(store: &mut UserStore, id: i32, username: &str, password: &str, email: &str, now: u32) -> (r: Result<(), ApiError>)
    requires
        old(store).wf(),
    ensures
        final(store).wf(),
        updated(*old(store), *final(store), id, username@, password@, email@, now, r),
{
    let i = match store.find_by_id(id) {
        Some(i) => i,
        None => return Err(ApiError::NotFound),
    };
    match store.find_by_email(email) {
        Some(j) => {
            if j != i {
                return Err(ApiError::Conflict);
            }
        },
        None => {},
    }
    let hash = match hash_credentials(email, password) {
        Some(h) => h,
        None => return Err(ApiError::CryptoError),
    };
    store.set_profile(i, username.to_owned(), email.to_owned(), hash, now)
}

/// Deletes the user with id `id`; an unknown id changes nothing.
pub fn delete(store: &mut UserStore, id: i32) -> (r: Result<(), ApiError>)
    requires
        old(store).wf(),
    ensures
        final(store).wf(),
        r is Ok,
        !has_id(final(store).users@, id),
        final(store).next_id == old(store).next_id,
        !has_id(old(store).users@, id) ==> final(store).users@ == old(store).users@,
        has_id(old(store).users@, id) ==> exists|i: int|
            0 <= i < old(store).users@.len() && old(store).users@[i].id == id
            && final(store).users@ == old(store).users@.remove(i),
{
    store.remove(id);
    Ok(())
}

/// What `reset_password` may do: `NotFound` for an unknown email, `Invalid`
/// when the code does not check out as in `verify_reset_token`; for a valid
/// code, set a hash that accepts the new password and clear the stored reset
/// token, or change nothing and fail with `CryptoError` (hashing failed).
pub open spec fn reset_completed(s0: UserStore, s1: UserStore, email: Seq<char>, code: Seq<char>, password: Seq<char>, now: u32, r: Result<(), ApiError>) -> bool {
    &&& s1.next_id == s0.next_id
    &&& !has_email(s0.users@, email) ==> r == Err::<(), ApiError>(ApiError::NotFound)
    &&& r is Err ==> s1 == s0
    &&& forall|i: int|
            0 <= i < s0.users@.len() && (#[trigger] s0.users@[i]).email@ == email ==> {
                &&& !reset_code_valid(s0.users@[i], code, now) ==> r == Err::<(), ApiError>(ApiError::Invalid)
                &&& reset_code_valid(s0.users@[i], code, now) ==> r is Ok || r == Err::<(), ApiError>(ApiError::CryptoError)
                &&& r is Ok ==> {
                    &&& s1.users@ == s0.users@.update(i, s1.users@[i])
                    &&& s1.users@[i] == (User {
                        password_hash: s1.users@[i].password_hash,
                        reset_token: s1.users@[i].reset_token,
                        updated_at: now,
                        ..s0.users@[i]
                    })
                    &&& s1.users@[i].reset_token@.len() == 0
                    &&& bcrypt_check(secret_of(email, password), s1.users@[i].password_hash@) == Some(true)
                }
            }
}

/// Completes a password reset: checks `code` as `verify_reset_token` does and,
/// when it holds, sets the new password and clears the stored reset token so
/// that the code cannot be used again.
pub fn reset_password(store: &mut UserStore, email: &str, code: &str, password: &str, now: u32) -> (r: Result<(), ApiError>)
    requires
        old(store).wf(),
    ensures
        final(store).wf(),
        reset_completed(*old(store), *final(store), email@, code@, password@, now, r),
{
    let ghost s0 = *store;
    match verify_reset_token(store, email, code, now) {
        Ok(()) => {},
        Err(e) => return Err(e),
    }
    let i = match store.find_by_email(email) {
        Some(i) => i,
        None => return Err(ApiError::NotFound),
    };
    let hash = match hash_credentials(email, password) {
        Some(h) => h,
        None => return Err(ApiError::CryptoError),
    };
    store.set_password_hash(i, hash, now);
    store.set_reset_token(i, String::new(), now);
    proof {
        assert(store.users@ =~= s0.users@.update(i as int, store.users@[i as int]));
        assert forall|k: int| 0 <= k < s0.users@.len() && (#[trigger] s0.users@[k]).email@ == email@ implies k == i by {}
    }
    Ok(())
}

/// Logging in right after a successful registration with the same email and
/// password succeeds; the bearer value it gives names the new user and carries a token that `verify_token` accepts at user
/// level for the whole token lifetime.
pub proof fn lemma_login_after_register(
    s0: UserStore,
    s1: UserStore,
    admin: bool,
    username: Seq<char>,
    password: Seq<char>,
    email: Seq<char>,
    now: u32,
    r: Result<i32, ApiError>,
    login_at: u32,
    c: Result<String, ApiError>,
    at: u32,
)
    requires
        s1.wf(),
        register_post(s0, s1, admin, username, password, email, now, r),
        r is Ok,
        auth_post(s1.users@, email, password, login_at, c),
        login_at <= at <= login_at + TOKEN_TTL,
    ensures
        c is Ok,
        c matches Ok(cookie) ==> bearer_fields(cookie@) matches Some((id, t))
            && id == r->Ok_0 as i64 && session_valid(s1.users@, r->Ok_0, t, false, at),
{
    let n = s1.users@.len() - 1;
    let u = s1.users@[n];
    assert(u == s1.users@.last());
    assert(u.email@ == email);
    assert(bcrypt_check(secret_of(email, password), u.password_hash@) == Some(true));
    if let Ok(cookie) = c {
        let t = choose|t: Seq<char>|
            cookie@ == #[trigger] bearer_text(u.id, t) && bearer_fields(cookie@) == Some((u.id as i64, t))
            && issued(key_of(u), encode_utf8(utc_text(login_at)), login_at, t);
        crate::codec::lemma_round_trip(key_of(u), encode_utf8(utc_text(login_at)), login_at, t, TOKEN_TTL, at as u64);
        assert(admits(s1.users@[n], t, false, at));
    }
}

/// A session that `verify_token` accepts when an admin is required belongs
/// to an admin: for a user without the flag it fails, whatever the token.
pub proof fn lemma_admin_required(s: UserStore, i: int, token: Seq<char>, now: u32)
    requires
        s.wf(),
        0 <= i < s.users@.len(),
        !s.users@[i].is_admin,
    ensures
        !session_valid(s.users@, s.users@[i].id, token, true, now),
{
}

/// Registering an email that is already present fails with `Conflict`, and
/// the store still holds exactly one record with that email.
pub proof fn lemma_duplicate_registration(
    s0: UserStore,
    s1: UserStore,
    admin: bool,
    username: Seq<char>,
    password: Seq<char>,
    email: Seq<char>,
    now: u32,
    r: Result<i32, ApiError>,
)
    requires
        s0.wf(),
        has_email(s0.users@, email),
        register_post(s0, s1, admin, username, password, email, now, r),
    ensures
        r == Err::<i32, ApiError>(ApiError::Conflict),
        exists|i: int| 0 <= i < s1.users@.len() && (#[trigger] s1.users@[i]).email@ == email
            && forall|j: int| 0 <= j < s1.users@.len() && (#[trigger] s1.users@[j]).email@ == email ==> j == i,
{
    let i = choose|i: int| 0 <= i < s0.users@.len() && (#[trigger] s0.users@[i]).email@ == email;
    assert(s1.users@[i].email@ == email);
}

/// The code that a reset request returns checks out against the same email
/// for the whole token lifetime.
pub proof fn lemma_reset_code_accepted(
    s0: UserStore,
    s1: UserStore,
    email: Seq<char>,
    requested_at: u32,
    r: Result<String, ApiError>,
    now: u32,
    v: Result<(), ApiError>,
)
    requires
        s0.wf(),
        s1.wf(),
        reset_requested(s0, s1, email, requested_at, r),
        r is Ok,
        reset_checked(s1.users@, email, r->Ok_0@, now, v),
        requested_at <= now <= requested_at + TOKEN_TTL,
    ensures
        v == Ok::<(), ApiError>(()),
{
    let code = r->Ok_0@;
    if has_email(s0.users@, email) {
        let i = choose|i: int| 0 <= i < s0.users@.len() && (#[trigger] s0.users@[i]).email@ == email;
        let u = s1.users@[i];
        assert(key_of(u) == key_of(s0.users@[i]));
        crate::codec::lemma_round_trip(key_of(u), encode_utf8(code), requested_at, u.reset_token@, TOKEN_TTL, now as u64);
        assert(reset_code_valid(s1.users@[i], code, now));
    }
}

/// After a second reset request, a code from before it no longer checks out,
/// unless the two codes happen to be equal.
pub proof fn lemma_stale_reset_code(
    s1: UserStore,
    s2: UserStore,
    email: Seq<char>,
    requested_at: u32,
    r: Result<String, ApiError>,
    stale: Seq<char>,
    now: u32,
    v: Result<(), ApiError>,
)
    requires
        s1.wf(),
        s2.wf(),
        has_email(s1.users@, email),
        reset_requested(s1, s2, email, requested_at, r),
        r is Ok,
        stale != r->Ok_0@,
        reset_checked(s2.users@, email, stale, now, v),
    ensures
        v == Err::<(), ApiError>(ApiError::Invalid),
{
    let code = r->Ok_0@;
    let i = choose|i: int| 0 <= i < s1.users@.len() && (#[trigger] s1.users@[i]).email@ == email;
    let u = s2.users@[i];
    assert(key_of(u) == key_of(s1.users@[i]));
    if reset_code_valid(u, stale, now) {
        vstd::utf8::encode_utf8_decode_utf8(stale);
        vstd::utf8::encode_utf8_decode_utf8(code);
        assert(encode_utf8(stale) == encode_utf8(code));
    }
    assert(!reset_code_valid(s2.users@[i], stale, now));
}

/// After a successful password change, logging in with the new password
/// succeeds.
pub proof fn lemma_login_after_password_change(
    s0: UserStore,
    s1: UserStore,
    email: Seq<char>,
    password: Seq<char>,
    now: u32,
    r: Result<(), ApiError>,
    login_at: u32,
    c: Result<String, ApiError>,
)
    requires
        s0.wf(),
        s1.wf(),
        has_email(s0.users@, email),
        password_changed(s0, s1, email, password, now, r),
        r is Ok,
        auth_post(s1.users@, email, password, login_at, c),
    ensures
        c is Ok,
{
    let i = choose|i: int| 0 <= i < s0.users@.len() && (#[trigger] s0.users@[i]).email@ == email;
    assert(s1.users@[i].email@ == email);
    assert(key_of(s1.users@[i]).len() == KEY_LEN);
}

/// A registration stores a salted hash, never the email and password
/// themselves, for every non-empty email whose first character is not '$'.
pub proof fn lemma_hash_is_not_plaintext(
    s0: UserStore,
    s1: UserStore,
    admin: bool,
    username: Seq<char>,
    password: Seq<char>,
    email: Seq<char>,
    now: u32,
    r: Result<i32, ApiError>,
)
    requires
        register_post(s0, s1, admin, username, password, email, now, r),
        r is Ok,
        email.len() > 0,
        email[0] != '$',
    ensures
        s1.users@.last().password_hash@ != email + password,
{
    let h = s1.users@.last().password_hash@;
    assert(h == email + password ==> (email + password)[0] == email[0]);
}

} // verus!
