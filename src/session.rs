//! The session cookie's bearer value and the check that lets requests through by it.

use vstd::prelude::*;
use crate::store::{ApiError, User, UserStore};
use crate::user::{session_valid, contains_user, verify_token};

verus! {

/// The JSON text `{"id": id, "token": token}` as written for the session cookie.
pub uninterp spec fn bearer_text(id: i32, token: Seq<char>) -> Seq<char>;

/// The integer `id` and string `token` members of a JSON object, when `text`
/// is one that has both.
pub uninterp spec fn bearer_fields(text: Seq<char>) -> Option<(i64, Seq<char>)>;

/// Name of the cookie that carries the bearer value.
pub const SESSION_COOKIE: &'static str = "BrancaToken";

/// Relies on serde_json: a JSON object with the number member `id` and the
/// string member `token`, rendered by Value's to_string; reading it back with
/// serde_json::from_str gives the same two members.
#[verifier::external_body]
pub(crate) fn write_bearer(id: i32, token: &str) -> (r: String)
    ensures
        r@ == bearer_text(id, token@),
        bearer_fields(r@) == Some((id as i64, token@)),
{
    let mut m = serde_json::Map::new();
    m.insert("id".to_string(), serde_json::Value::from(id));
    m.insert("token".to_string(), serde_json::Value::from(token));
    serde_json::Value::Object(m).to_string()
}

/// Relies on serde_json::from_str into a Value, then Value::get with
/// as_i64 and as_str: the `id` and `token` members of the object, if present
/// with those types.
#[verifier::external_body]
fn read_bearer(text: &str) -> (r: Option<(i64, String)>)
    ensures
        match r {
            Some((id, t)) => bearer_fields(text@) == Some((id, t@)),
            None => bearer_fields(text@) is None,
        },
{
    let v: serde_json::Value = serde_json::from_str(text).ok()?;
    let id = v.get("id")?.as_i64()?;
    let token = v.get("token")?.as_str()?;
    Some((id, token.to_string()))
}

/// The privilege a route group asks of the session.
#[derive(Debug, Clone, Copy, PartialEq, Eq, Structural)]
pub enum Level {
    User,
    Admin,
}

/// Why a request was turned away.
#[derive(Debug, Clone, Copy, PartialEq, Eq, Structural)]
pub enum GateError {
    /// No cookie, a malformed one, or a session that does not check out.
    Unauthenticated,
    /// A valid session of a user without the privilege asked for.
    Forbidden,
}

/// The user id and token that a session cookie carries.
pub struct JsonBrancaToken {
    pub id: i32,
    pub token: String,
}

/// The id and token read from a cookie value, when it is a JSON object with
/// an `id` that fits an `i32` and a string `token`.
pub open spec fn cookie_session(cookie: Option<Seq<char>>) -> Option<(i32, Seq<char>)> {
    match cookie {
        None => None,
        Some(c) => match bearer_fields(c) {
            Some((id, t)) => if i32::MIN <= id <= i32::MAX {
                Some((id as i32, t))
            } else {
                None
            },
            None => None,
        },
    }
}

/// The view of an optional cookie value.
pub open spec fn cookie_view(cookie: Option<&str>) -> Option<Seq<char>> {
    match cookie {
        Some(c) => Some(c@),
        None => None,
    }
}

/// Reads the id and token out of the session cookie's value; a missing or
/// malformed value is `Unauthorized`.
pub fn extract_json_token(cookie: Option<&str>) -> (r: Result<JsonBrancaToken, ApiError>)
    ensures
        match cookie_session(cookie_view(cookie)) {
            Some((id, t)) => r matches Ok(j) && j.id == id && j.token@ == t,
            None => r == Err::<JsonBrancaToken, ApiError>(ApiError::Unauthorized),
        },
{
    let c = match cookie {
        Some(c) => c,
        None => return Err(ApiError::Unauthorized),
    };
    match read_bearer(c) {
        Some((id, token)) => {
            if id < i32::MIN as i64 || id > i32::MAX as i64 {
                Err(ApiError::Unauthorized)
            } else {
                Ok(JsonBrancaToken { id: id as i32, token })
            }
        },
        None => Err(ApiError::Unauthorized),
    }
}

/// Lets a request through by its session cookie at the privilege `level`: the
/// cookie must carry an id and a token that `verify_token` accepts, and for
/// `Admin` the user must be an admin. Returns the user.
pub fn check_request(store: &UserStore, cookie: Option<&str>, level: Level, now: u32) -> (r: Result<User, GateError>)
    requires
        store.wf(),
    ensures
        match cookie_session(cookie_view(cookie)) {
            None => r == Err::<User, GateError>(GateError::Unauthenticated),
            Some((id, t)) => {
                &&& !session_valid(store.users@, id, t, false, now)
                    ==> r == Err::<User, GateError>(GateError::Unauthenticated)
                &&& session_valid(store.users@, id, t, false, now) && level == Level::Admin
                    && !session_valid(store.users@, id, t, true, now)
                    ==> r == Err::<User, GateError>(GateError::Forbidden)
                &&& r is Ok <==> session_valid(store.users@, id, t, level == Level::Admin, now)
                &&& r matches Ok(u) ==> u.id == id && contains_user(store.users@, u)
            },
        },
{
    let j = match extract_json_token(cookie) {
        Ok(j) => j,
        Err(_) => return Err(GateError::Unauthenticated),
    };
    let user = match verify_token(store, j.id, j.token.as_str(), false, now) {
        Ok(u) => u,
        Err(_) => return Err(GateError::Unauthenticated),
    };
    match level {
        Level::Admin => {
            if !user.is_admin {
                return Err(GateError::Forbidden);
            }
        },
        Level::User => {},
    }
    Ok(user)
}

} // verus!
