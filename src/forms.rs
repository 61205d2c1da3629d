//! Request bodies of the account routes and the checks made on them.

use validator::ValidateEmail;
use vstd::prelude::*;
use vstd::string::StrSliceExecFns;

verus! {

/// Whether `s` is an email address by the HTML5 rule that the validator crate
/// applies.
pub uninterp spec fn valid_email(s: Seq<char>) -> bool;

/// Fewest characters a password may have.
pub const MIN_PASSWORD_CHARS: usize = 5;

/// Relies on validator's ValidateEmail::validate_email for a string: the HTML5
/// address rule; an empty value or one without '@' fails it.
#[verifier::external_body]
fn check_email(s: &str) -> (r: bool)
    ensures
        r == valid_email(s@),
        r ==> s@.contains('@'),
{
    s.validate_email()
}

/// Whether `s` has at least `min` characters.
pub fn has_min_chars(s: &str, min: usize) -> (r: bool)
    ensures
        r == (s@.len() >= min),
{
    s.unicode_len() >= min
}

/// A registration request.
pub struct CreateUser {
    pub email: String,
    pub username: String,
    pub password: String,
}

/// A login request.
pub struct AuthUser {
    pub email: String,
    pub password: String,
}

/// A password change by a logged-in user.
pub struct ChangePassword {
    pub old_password: String,
    pub new_password: String,
}

/// A password-reset request.
pub struct Mail {
    pub email: String,
}

/// The completion of a password reset, with the code the user received.
pub struct ResetPassword {
    pub email: String,
    pub token: String,
    pub password: String,
}

impl CreateUser {
    /// What `validate` checks.
    pub open spec fn is_valid(&self) -> bool {
        valid_email(self.email@) && self.username@.len() >= 1 && self.password@.len() >= MIN_PASSWORD_CHARS
    }

    /// A valid email, a non-empty username and a password of at least five characters.
    pub fn validate(&self) -> (r: bool)
        ensures
            r == self.is_valid(),
    {
        check_email(self.email.as_str()) && has_min_chars(self.username.as_str(), 1)
            && has_min_chars(self.password.as_str(), MIN_PASSWORD_CHARS)
    }
}

impl AuthUser {
    /// What `validate` checks.
    pub open spec fn is_valid(&self) -> bool {
        valid_email(self.email@) && self.password@.len() >= MIN_PASSWORD_CHARS
    }

    /// A valid email and a password of at least five characters.
    pub fn validate(&self) -> (r: bool)
        ensures
            r == self.is_valid(),
    {
        check_email(self.email.as_str()) && has_min_chars(self.password.as_str(), MIN_PASSWORD_CHARS)
    }
}

impl ChangePassword {
    /// What `validate` checks.
    pub open spec fn is_valid(&self) -> bool {
        self.old_password@.len() >= MIN_PASSWORD_CHARS && self.new_password@.len() >= MIN_PASSWORD_CHARS
    }

    /// Both passwords of at least five characters.
    pub fn validate(&self) -> (r: bool)
        ensures
            r == self.is_valid(),
    {
        has_min_chars(self.old_password.as_str(), MIN_PASSWORD_CHARS)
            && has_min_chars(self.new_password.as_str(), MIN_PASSWORD_CHARS)
    }
}

impl Mail {
    /// What `validate` checks.
    pub open spec fn is_valid(&self) -> bool {
        valid_email(self.email@)
    }

    /// A valid email.
    pub fn validate(&self) -> (r: bool)
        ensures
            r == self.is_valid(),
    {
        check_email(self.email.as_str())
    }
}

impl ResetPassword {
    /// What `validate` checks.
    pub open spec fn is_valid(&self) -> bool {
        valid_email(self.email@)
    }

    /// A valid email; the code and the new password are not checked here.
    pub fn validate(&self) -> (r: bool)
        ensures
            r == self.is_valid(),
    {
        check_email(self.email.as_str())
    }
}

} // verus!
