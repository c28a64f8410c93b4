//! The identity store: the credential records that logins are checked
//! against, keyed by normalized (lowercase) email.
//!
//! Emails are not case sensitive: they are lowercased both before storage
//! and before every comparison, so a record can be found under any casing of
//! its email and a second record whose email collides case-insensitively is
//! rejected. Passwords are kept only as salted, slow (bcrypt) hashes.

use crate::errors::AuthError;
use crate::models::{NewUser, User};
use vstd::hash_map::StringHashMap;
use vstd::prelude::*;

verus! {

/// The lowercase form of a string, as the standard library's Unicode-aware
/// case folding computes it.
pub uninterp spec fn lower_of(s: Seq<char>) -> Seq<char>;

/// Whether `password` matches the bcrypt-hashed `hash`, as pwhash's
/// verification computes it.
pub uninterp spec fn bcrypt_matches(password: Seq<char>, hash: Seq<char>) -> bool;

/// Relies on `str::to_lowercase`: the result depends on the characters
/// alone.
#[verifier::external_body]
fn to_lowercase(s: &str) -> (r: String)
    ensures
        r@ == lower_of(s@),
{
    s.to_lowercase()
}

/// Relies on pwhash's `bcrypt::verify`: it re-derives the hash from the
/// password with the salt and cost carried in `hash` and compares in
/// constant time, deterministically in its two arguments.
#[verifier::external_body]
pub(crate) fn bcrypt_verify(password: &str, hash: &str) -> (r: bool)
    ensures
        r == bcrypt_matches(password@, hash@),
{
    pwhash::bcrypt::verify(password, hash)
}

/// Relies on pwhash's `bcrypt::hash`: with a fresh random salt and the
/// default cost it always returns a hash string, and its own `verify`
/// accepts that hash for the same password.
#[verifier::external_body]
fn bcrypt_hash(password: &str) -> (hash: String)
    ensures
        bcrypt_matches(password@, hash@),
{
    pwhash::bcrypt::hash(password).expect("bcrypt with the default cost and a fresh salt cannot fail")
}

/// Relies on uuid's `new_v4` and its simple formatting: 32 hexadecimal
/// digits. The value is random; nothing more is assumed of it.
#[verifier::external_body]
fn fresh_user_id() -> (id: String)
    ensures
        id@.len() == 32,
{
    uuid::Uuid::new_v4().simple().to_string()
}

impl User {
    /// Builds a stored identity record from a signup request: a fresh
    /// 32-digit identifier, the email normalized to lowercase, and the
    /// password replaced by a salted slow hash that matches it.
    pub fn new(new_user: &NewUser) -> (user: User)
        ensures
            user.user_id@.len() == 32,
            user.username@ == new_user.username@,
            user.user_email@ == lower_of(new_user.user_email@),
            bcrypt_matches(new_user.user_password@, user.user_password_hash@),
    {
        User {
            user_id: fresh_user_id(),
            username: new_user.username.clone(),
            user_email: to_lowercase(new_user.user_email.as_str()),
            user_password_hash: bcrypt_hash(new_user.user_password.as_str()),
        }
    }
}

/// The identity records, as a map from normalized email to record.
pub struct UserStore {
    users: StringHashMap<User>,
}

impl View for UserStore {
    type V = Map<Seq<char>, User>;

    closed spec fn view(&self) -> Map<Seq<char>, User> {
        self.users@
    }
}

impl UserStore {
    /// Creates an empty store.
    pub fn new() -> (r: Self)
        ensures
            r@ == Map::<Seq<char>, User>::empty(),
    {
        UserStore { users: StringHashMap::new() }
    }

    /// Whether an identity record exists for `email`, compared
    /// case-insensitively.
    pub fn check_user_exists(&self, email: &str) -> (r: bool)
        ensures
            r == self@.contains_key(lower_of(email@)),
    {
        let le = to_lowercase(email);
        self.users.contains_key(le.as_str())
    }

    /// The identity record stored for `email`, compared case-insensitively.
    pub fn find_user_by_email(&self, email: &str) -> (r: Option<&User>)
        ensures
            match r {
                Some(user) => self@.contains_key(lower_of(email@)) && *user == self@[lower_of(
                    email@,
                )],
                None => !self@.contains_key(lower_of(email@)),
            },
    {
        let le = to_lowercase(email);
        self.users.get(le.as_str())
    }

    /// Creates an identity record from a signup request. A request whose
    /// email collides case-insensitively with a stored record is rejected
    /// with `EmailAlreadyUsed` and the store is left unmodified; otherwise
    /// the record is stored under its normalized email, with a fresh
    /// identifier and a hash matching the request's password.
    pub fn create_user(&mut self, new_user: &NewUser) -> (r: Result<(), AuthError>)
        ensures
            r is Err <==> old(self)@.contains_key(lower_of(new_user.user_email@)),
            r is Err ==> r->Err_0 == AuthError::EmailAlreadyUsed && final(self)@ == old(self)@,
            r is Ok ==> ({
                let le = lower_of(new_user.user_email@);
                &&& final(self)@ == old(self)@.insert(le, final(self)@[le])
                &&& final(self)@[le].username@ == new_user.username@
                &&& final(self)@[le].user_email@ == le
                &&& final(self)@[le].user_id@.len() == 32
                &&& bcrypt_matches(new_user.user_password@, final(self)@[le].user_password_hash@)
            }),
    {
        if self.check_user_exists(new_user.user_email.as_str()) {
            return Result::Err(AuthError::EmailAlreadyUsed);
        }
        let user = User::new(new_user);
        let le = to_lowercase(new_user.user_email.as_str());
        self.users.insert(le, user);
        Result::Ok(())
    }
}

} // verus!
