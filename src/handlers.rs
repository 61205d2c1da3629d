//! What each account route decides, from its request body and session cookie
//! to the change of the store and the answer. Transport, cookies' attributes
//! and mail delivery stay with the caller.

use vstd::prelude::*;
use crate::credential::{bcrypt_check, secret_of, verify_credentials};
use crate::forms::{AuthUser, ChangePassword, CreateUser, Mail, ResetPassword};
use crate::session::{cookie_session, cookie_view, extract_json_token};
use crate::store::{has_id, ApiError, User, UserStore};
use crate::user;
use crate::user::{
    auth_post, contains_user, password_changed, register_post, reset_completed, reset_requested,
    updated,
};

verus! {

/// What the reset mail needs: recipient, username and the plain-text code.
pub struct ResetMail {
    pub to: String,
    pub username: String,
    pub code: String,
}

/// Registers a plain (non-admin) user from a checked request body.
pub fn register(store: &mut UserStore, input: &CreateUser, now: u32) -> (r: Result<i32, ApiError>)
    requires
        old(store).wf(),
    ensures
        final(store).wf(),
        !input.is_valid() ==> r == Err::<i32, ApiError>(ApiError::ValidationError) && *final(store) == *old(store),
        input.is_valid() ==> register_post(*old(store), *final(store), false, input.username@,
            input.password@, input.email@, now, r),
{
    if !input.validate() {
        return Err(ApiError::ValidationError);
    }
    user::register(store, false, input.username.as_str(), input.password.as_str(), input.email.as_str(), now)
}

/// Logs in from a checked request body; the result is the session cookie's value.
pub fn login(store: &UserStore, input: &AuthUser, now: u32) -> (r: Result<String, ApiError>)
    requires
        store.wf(),
    ensures
        !input.is_valid() ==> r == Err::<String, ApiError>(ApiError::ValidationError),
        input.is_valid() ==> auth_post(store.users@, input.email@, input.password@, now, r),
{
    if !input.validate() {
        return Err(ApiError::ValidationError);
    }
    user::auth(store, input.email.as_str(), input.password.as_str(), now)
}

/// The record of the user that the session cookie names.
pub fn get(store: &UserStore, cookie: Option<&str>) -> (r: Result<User, ApiError>)
    ensures
        match cookie_session(cookie_view(cookie)) {
            None => r == Err::<User, ApiError>(ApiError::Unauthorized),
            Some((id, _)) => {
                &&& r is Err <==> !has_id(store.users@, id)
                &&& r is Err ==> r == Err::<User, ApiError>(ApiError::NotFound)
                &&& r matches Ok(u) ==> u.id == id && contains_user(store.users@, u)
            },
        },
{
    let j = extract_json_token(cookie)?;
    user::get_user_by_id(store, j.id)
}

/// Deletes the user that the session cookie names.
pub fn delete(store: &mut UserStore, cookie: Option<&str>) -> (r: Result<(), ApiError>)
    requires
        old(store).wf(),
    ensures
        final(store).wf(),
        match cookie_session(cookie_view(cookie)) {
            None => r == Err::<(), ApiError>(ApiError::Unauthorized) && *final(store) == *old(store),
            Some((id, _)) => {
                &&& r is Ok
                &&& final(store).next_id == old(store).next_id
                &&& !has_id(final(store).users@, id)
                &&& !has_id(old(store).users@, id) ==> final(store).users@ == old(store).users@
                &&& has_id(old(store).users@, id) ==> exists|i: int|
                    0 <= i < old(store).users@.len() && old(store).users@[i].id == id
                    && final(store).users@ == old(store).users@.remove(i)
            },
        },
{
    let j = extract_json_token(cookie)?;
    user::delete(store, j.id)
}

/// Replaces the profile of the user that the session cookie names.
pub fn update(store: &mut UserStore, cookie: Option<&str>, input: &CreateUser, now: u32) -> (r: Result<(), ApiError>)
    requires
        old(store).wf(),
    ensures
        final(store).wf(),
        !input.is_valid() ==> r == Err::<(), ApiError>(ApiError::ValidationError) && *final(store) == *old(store),
        input.is_valid() ==> match cookie_session(cookie_view(cookie)) {
            None => r == Err::<(), ApiError>(ApiError::Unauthorized) && *final(store) == *old(store),
            Some((id, _)) => updated(*old(store), *final(store), id, input.username@, input.password@,
                input.email@, now, r),
        },
{
    if !input.validate() {
        return Err(ApiError::ValidationError);
    }
    let j = extract_json_token(cookie)?;
    user::update(store, j.id, input.username.as_str(), input.password.as_str(), input.email.as_str(), now)
}

/// Starts a password reset for a checked email, and returns what the reset
/// mail needs.
pub fn forgot_password(store: &mut UserStore, input: &Mail, now: u32) -> (r: Result<ResetMail, ApiError>)
    requires
        old(store).wf(),
    ensures
        final(store).wf(),
        !input.is_valid() ==> r == Err::<ResetMail, ApiError>(ApiError::ValidationError) && *final(store) == *old(store),
        input.is_valid() ==> reset_requested(*old(store), *final(store), input.email@, now, match r {
            Ok(m) => Ok::<String, ApiError>(m.code),
            Err(e) => Err::<String, ApiError>(e),
        }),
        r matches Ok(m) ==> m.to@ == input.email@ && exists|i: int|
            0 <= i < old(store).users@.len() && (#[trigger] old(store).users@[i]).email@ == input.email@
            && m.username@ == old(store).users@[i].username@,
{
    if !input.validate() {
        return Err(ApiError::ValidationError);
    }
    let i = match store.find_by_email(input.email.as_str()) {
        Some(i) => i,
        None => return Err(ApiError::NotFound),
    };
    let username = store.users[i].username.clone();
    let code = user::generate_reset_token(store, input.email.as_str(), now)?;
    Ok(ResetMail { to: input.email.clone(), username, code })
}

/// Completes a password reset from a checked request body.
pub fn reset_password(store: &mut UserStore, input: &ResetPassword, now: u32) -> (r: Result<(), ApiError>)
    requires
        old(store).wf(),
    ensures
        final(store).wf(),
        !input.is_valid() ==> r == Err::<(), ApiError>(ApiError::ValidationError) && *final(store) == *old(store),
        input.is_valid() ==> reset_completed(*old(store), *final(store), input.email@, input.token@,
            input.password@, now, r),
{
    if !input.validate() {
        return Err(ApiError::ValidationError);
    }
    user::reset_password(store, input.email.as_str(), input.token.as_str(), input.password.as_str(), now)
}

/// Changes the password of the user that the session cookie names, once the
/// old password checks out.
pub fn change_password(store: &mut UserStore, cookie: Option<&str>, input: &ChangePassword, now: u32) -> (r: Result<(), ApiError>)
    requires
        old(store).wf(),
    ensures
        final(store).wf(),
        r is Err ==> *final(store) == *old(store),
        !input.is_valid() ==> r == Err::<(), ApiError>(ApiError::ValidationError),
        input.is_valid() ==> match cookie_session(cookie_view(cookie)) {
            None => r == Err::<(), ApiError>(ApiError::Unauthorized),
            Some((id, _)) => {
                &&& !has_id(old(store).users@, id) ==> r == Err::<(), ApiError>(ApiError::NotFound)
                &&& forall|i: int| 0 <= i < old(store).users@.len() && (#[trigger] old(store).users@[i]).id == id
                    ==> match bcrypt_check(secret_of(old(store).users@[i].email@, input.old_password@),
                        old(store).users@[i].password_hash@) {
                        None => r == Err::<(), ApiError>(ApiError::CryptoError),
                        Some(false) => r == Err::<(), ApiError>(ApiError::Unauthorized),
                        Some(true) => password_changed(*old(store), *final(store), old(store).users@[i].email@,
                            input.new_password@, now, r),
                    }
            },
        },
{
    if !input.validate() {
        return Err(ApiError::ValidationError);
    }
    let j = extract_json_token(cookie)?;
    let u = user::get_user_by_id(store, j.id)?;
    match verify_credentials(u.email.as_str(), input.old_password.as_str(), u.password_hash.as_str()) {
        None => return Err(ApiError::CryptoError),
        Some(false) => return Err(ApiError::Unauthorized),
        Some(true) => {},
    }
    user::change_password(store, u.email.as_str(), input.new_password.as_str(), now)
}

} // verus!
