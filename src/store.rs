//! The credential store: user records held in memory, keyed by id and by email.

use vstd::prelude::*;
use vstd::utf8::encode_utf8;
use crate::codec::KEY_LEN;

verus! {

/// Failures of the credential and session operations.
#[derive(Debug, Clone, Copy, PartialEq, Eq, Structural)]
pub enum ApiError {
    /// The email is already registered to another user.
    Conflict,
    /// Bad credentials, or a session token that is missing, invalid, expired
    /// or of too low a privilege.
    Unauthorized,
    /// No user has the id or email asked for.
    NotFound,
    /// A reset code that does not match, or has expired.
    Invalid,
    /// The store has no room for another record.
    StoreError,
    /// Hashing or token sealing failed.
    CryptoError,
    /// A request body that fails its checks.
    ValidationError,
}

/// A user record. Timestamps are seconds since the Unix epoch.
pub struct User {
    pub id: i32,
    pub is_admin: bool,
    pub username: String,
    pub email: String,
    pub token_key: String,
    pub password_hash: String,
    pub reset_token: String,
    pub created_at: u32,
    pub updated_at: u32,
}

/// The fields of a record about to be inserted; the store assigns the id and
/// the timestamps.
pub struct NewUser {
    pub is_admin: bool,
    pub username: String,
    pub email: String,
    pub token_key: String,
    pub password_hash: String,
    pub reset_token: String,
}

impl User {
    /// A field-by-field copy of the record.
    pub fn snapshot(&self) -> (r: User)
        ensures
            r == *self,
    {
        User {
            id: self.id,
            is_admin: self.is_admin,
            username: self.username.clone(),
            email: self.email.clone(),
            token_key: self.token_key.clone(),
            password_hash: self.password_hash.clone(),
            reset_token: self.reset_token.clone(),
            created_at: self.created_at,
            updated_at: self.updated_at,
        }
    }
}

/// Whether some record of `users` has the email `email`.
pub open spec fn has_email(users: Seq<User>, email: Seq<char>) -> bool {
    exists|i: int| 0 <= i < users.len() && (#[trigger] users[i]).email@ == email
}

/// Whether some record of `users` has the id `id`.
pub open spec fn has_id(users: Seq<User>, id: i32) -> bool {
    exists|i: int| 0 <= i < users.len() && (#[trigger] users[i]).id == id
}

/// The record that inserting `new` with id `id` at time `now` adds.
pub open spec fn record_of(new: NewUser, id: i32, now: u32) -> User {
    User {
        id,
        is_admin: new.is_admin,
        username: new.username,
        email: new.email,
        token_key: new.token_key,
        password_hash: new.password_hash,
        reset_token: new.reset_token,
        created_at: now,
        updated_at: now,
    }
}

/// The user records, in order of insertion, and the id the next insert takes.
pub struct UserStore {
    pub users: Vec<User>,
    pub next_id: i32,
}

impl UserStore {
    /// Ids are positive, below `next_id` and distinct; emails are distinct;
    /// every token key is a 32-byte codec key.
    pub open spec fn wf(&self) -> bool {
        &&& self.next_id >= 1
        &&& forall|i: int| 0 <= i < self.users@.len() ==> encode_utf8((#[trigger] self.users@[i]).token_key@).len() == KEY_LEN
        &&& forall|i: int| 0 <= i < self.users@.len() ==> 1 <= #[trigger] self.users@[i].id < self.next_id
        &&& forall|i: int, j: int|
            0 <= i < self.users@.len() && 0 <= j < self.users@.len() && i != j ==> {
                &&& (#[trigger] self.users@[i]).id != (#[trigger] self.users@[j]).id
                &&& self.users@[i].email@ != self.users@[j].email@
            }
    }

    /// An empty store; the first id handed out is 1.
    pub fn new() -> (r: UserStore)
        ensures
            r.wf(),
            r.users@.len() == 0,
            r.next_id == 1,
    {
        UserStore { users: Vec::new(), next_id: 1 }
    }

    /// The position of the record with email `email`.
    pub fn find_by_email(&self, email: &str) -> (r: Option<usize>)
        ensures
            match r {
                Some(i) => i < self.users@.len() && self.users@[i as int].email@ == email@,
                None => !has_email(self.users@, email@),
            },
    {
        let target = email.to_owned();
        let mut i: usize = 0;
        while i < self.users.len()
            invariant
                i <= self.users@.len(),
                target@ == email@,
                forall|k: int| 0 <= k < i ==> (#[trigger] self.users@[k]).email@ != email@,
            decreases self.users@.len() - i,
        {
            if self.users[i].email == target {
                return Some(i);
            }
            i = i + 1;
        }
        None
    }

    /// The position of the record with id `id`.
    pub fn find_by_id(&self, id: i32) -> (r: Option<usize>)
        ensures
            match r {
                Some(i) => i < self.users@.len() && self.users@[i as int].id == id,
                None => !has_id(self.users@, id),
            },
    {
        let mut i: usize = 0;
        while i < self.users.len()
            invariant
                i <= self.users@.len(),
                forall|k: int| 0 <= k < i ==> (#[trigger] self.users@[k]).id != id,
            decreases self.users@.len() - i,
        {
            if self.users[i].id == id {
                return Some(i);
            }
            i = i + 1;
        }
        None
    }

    /// Adds a record built from `new`, whose key must be a 32-byte codec key,
    /// with the next id, unless its email is taken or the ids have run out.
    pub fn insert(&mut self, new: NewUser, now: u32) -> (r: Result<i32, ApiError>)
        requires
            old(self).wf(),
            encode_utf8(new.token_key@).len() == KEY_LEN,
        ensures
            final(self).wf(),
            has_email(old(self).users@, new.email@) ==> r == Err::<i32, ApiError>(ApiError::Conflict),
            !has_email(old(self).users@, new.email@) && old(self).next_id == i32::MAX
                ==> r == Err::<i32, ApiError>(ApiError::StoreError),
            !has_email(old(self).users@, new.email@) && old(self).next_id < i32::MAX ==> {
                &&& r == Ok::<i32, ApiError>(old(self).next_id)
                &&& final(self).users@ == old(self).users@.push(record_of(new, old(self).next_id, now))
                &&& final(self).next_id == old(self).next_id + 1
            },
            r is Err ==> *final(self) == *old(self),
    {
        if self.exists_by_email(new.email.as_str()) {
            return Err(ApiError::Conflict);
        }
        if self.next_id == i32::MAX {
            return Err(ApiError::StoreError);
        }
        let id = self.next_id;
        let ghost before = self.users@;
        let user = User {
            id,
            is_admin: new.is_admin,
            username: new.username,
            email: new.email,
            token_key: new.token_key,
            password_hash: new.password_hash,
            reset_token: new.reset_token,
            created_at: now,
            updated_at: now,
        };
        self.users.push(user);
        self.next_id = id + 1;
        assert forall|i: int| 0 <= i < before.len() implies self.users@[i].email@ != new.email@ by {
            assert(before[i] == self.users@[i]);
        }
        Ok(id)
    }

    /// Takes out the record with id `id`, if there is one.
    pub fn remove(&mut self, id: i32) -> (r: bool)
        requires
            old(self).wf(),
        ensures
            final(self).wf(),
            final(self).next_id == old(self).next_id,
            r == has_id(old(self).users@, id),
            !has_id(final(self).users@, id),
            r ==> exists|i: int| 0 <= i < old(self).users@.len() && old(self).users@[i].id == id
                && final(self).users@ == old(self).users@.remove(i),
            !r ==> final(self).users@ == old(self).users@,
    {
        match self.find_by_id(id) {
            None => false,
            Some(i) => {
                let ghost before = self.users@;
                self.users.remove(i);
                assert forall|k: int| 0 <= k < self.users@.len() implies self.users@[k].id != id by {
                    if k < i {
                        assert(self.users@[k] == before[k]);
                    } else {
                        assert(self.users@[k] == before[k + 1]);
                    }
                }
                true
            },
        }
    }

    /// Replaces the password hash of the record at `i`.
    pub fn set_password_hash(&mut self, i: usize, hash: String, now: u32)
        requires
            old(self).wf(),
            i < old(self).users@.len(),
        ensures
            final(self).wf(),
            final(self).next_id == old(self).next_id,
            final(self).users@ == old(self).users@.update(i as int, User {
                password_hash: hash,
                updated_at: now,
                ..old(self).users@[i as int]
            }),
    {
        self.users[i].password_hash = hash;
        self.users[i].updated_at = now;
    }

    /// Replaces the stored reset token of the record at `i`.
    pub fn set_reset_token(&mut self, i: usize, token: String, now: u32)
        requires
            old(self).wf(),
            i < old(self).users@.len(),
        ensures
            final(self).wf(),
            final(self).next_id == old(self).next_id,
            final(self).users@ == old(self).users@.update(i as int, User {
                reset_token: token,
                updated_at: now,
                ..old(self).users@[i as int]
            }),
    {
        self.users[i].reset_token = token;
        self.users[i].updated_at = now;
    }

    /// Replaces the username, email and password hash of the record at `i`,
    /// unless another record has that email.
    pub fn set_profile(&mut self, i: usize, username: String, email: String, hash: String, now: u32) -> (r: Result<(), ApiError>)
        requires
            old(self).wf(),
            i < old(self).users@.len(),
        ensures
            final(self).wf(),
            final(self).next_id == old(self).next_id,
            r is Err <==> exists|j: int| 0 <= j < old(self).users@.len() && j != i
                && (#[trigger] old(self).users@[j]).email@ == email@,
            r is Err ==> r == Err::<(), ApiError>(ApiError::Conflict) && *final(self) == *old(self),
            r is Ok ==> final(self).users@ == old(self).users@.update(i as int, User {
                username: username,
                email: email,
                password_hash: hash,
                updated_at: now,
                ..old(self).users@[i as int]
            }),
    {
        match self.find_by_email(email.as_str()) {
            Some(j) => {
                if j != i {
                    return Err(ApiError::Conflict);
                }
            },
            None => {},
        }
        let ghost before = self.users@;
        self.users[i].username = username;
        self.users[i].email = email;
        self.users[i].password_hash = hash;
        self.users[i].updated_at = now;
        assert forall|a: int, b: int|
            0 <= a < self.users@.len() && 0 <= b < self.users@.len() && a != b
            implies self.users@[a].email@ != self.users@[b].email@ by {
            if a == i {
                assert(before[b] == self.users@[b]);
            } else if b == i {
                assert(before[a] == self.users@[a]);
            } else {
                assert(before[a] == self.users@[a] && before[b] == self.users@[b]);
            }
        }
        Ok(())
    }

    /// Whether a record has the email `email`.
    pub fn exists_by_email(&self, email: &str) -> (r: bool)
        ensures
            r == has_email(self.users@, email@),
    {
        self.find_by_email(email).is_some()
    }
}

} // verus!
