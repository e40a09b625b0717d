//! The users table as the logic sees it: the rows it writes and the checks
//! it makes on the rows it reads. The queries themselves run outside.
use vstd::prelude::*;
use crate::model::{Timestamp, User};
use crate::oauth::GoogleUserResult;
use crate::password::{bcrypt_accepts, hash_password, verify_password};

verus! {

/// The lower-case form of a text, as Rust's `str::to_lowercase` gives it.
pub uninterp spec fn lower_of(s: Seq<char>) -> Seq<char>;

/// Relies on `str::to_lowercase`: the result depends on the characters alone.
#[verifier::external_body]
fn to_lowercase(s: &str) -> (r: String)
    ensures
        r@ == lower_of(s@),
{
    s.to_lowercase()
}

/// The form in which an email is stored and looked up: lower case.
pub fn normalize_email(email: &str) -> (r: String)
    ensures
        r@ == lower_of(email@),
{
    to_lowercase(email)
}

/// Whether `u` is the new local row for these inputs: the email in lower
/// case, role "user", the default photo, not verified, provider "local";
/// the store assigns the id and the times.
pub open spec fn is_local_row(u: User, email: Seq<char>, name: Seq<char>) -> bool {
    &&& u.id is None
    &&& u.name@ == name
    &&& u.email@ == lower_of(email)
    &&& u.role@ == "user"@
    &&& u.photo@ == "default.png"@
    &&& !u.verified
    &&& u.provider@ == "local"@
    &&& u.created_at is None
    &&& u.updated_at is None
}

/// The new local row with an already made password hash.
pub fn new_local_user(email: &str, password_hash: String, name: &str) -> (r: User)
    ensures
        is_local_row(r, email@, name@),
        r.password == password_hash,
{
    User {
        id: None,
        name: name.to_owned(),
        email: to_lowercase(email),
        password: password_hash,
        role: "user".to_owned(),
        photo: "default.png".to_owned(),
        verified: false,
        provider: "local".to_owned(),
        created_at: None,
        updated_at: None,
    }
}

/// A new local account as it is inserted, its password hashed with a fresh
/// salt, which the password check accepts for that password. `None` when
/// no hash could be made.
pub fn create_user(email: &str, password: &str, name: &str) -> (r: Option<User>)
    ensures
        r matches Some(u) ==> is_local_row(u, email@, name@) && bcrypt_accepts(password@, u.password@),
{
    match hash_password(password) {
        Some(hash) => Some(new_local_user(email, hash, name)),
        None => None,
    }
}

/// The row found for an email when the password matches its hash.
pub open spec fn authenticated(found: Option<User>, password: Seq<char>) -> Option<User> {
    match found {
        Some(u) => if bcrypt_accepts(password, u.password@) {
            Some(u)
        } else {
            None
        },
        None => None,
    }
}

/// The row found for an email, kept only when the password matches its hash.
pub fn get_user_by_email_and_password(found: Option<User>, password: &str) -> (r: Option<User>)
    ensures
        r == authenticated(found, password@),
        found matches Some(u) && u.password@.len() == 0 ==> r is None,
{
    match found {
        Some(user) => if verify_password(password, user.password.as_str()) {
            Some(user)
        } else {
            None
        },
        None => None,
    }
}

/// A password round-trips: the row made for a password is found again by
/// that password.
pub proof fn lemma_password_round_trip(u: User, email: Seq<char>, name: Seq<char>, password: Seq<char>)
    requires
        is_local_row(u, email, name),
        bcrypt_accepts(password, u.password@),
    ensures
        authenticated(Some(u), password) == Some(u),
{
}

/// The row inserted for a first login through Google: the given id, the
/// profile's name, photo and verified flag, the email in lower case,
/// provider "Google", role "user", no password, both times `now`.
pub fn insert_google_user(id: u128, google_user: &GoogleUserResult, now: Timestamp) -> (r: User)
    ensures
        r.id == Some(id),
        r.name@ == google_user.name@,
        r.email@ == lower_of(google_user.email@),
        r.photo@ == google_user.picture@,
        r.verified == google_user.verified_email,
        r.provider@ == "Google"@,
        r.role@ == "user"@,
        r.password@.len() == 0,
        r.created_at == Some(now),
        r.updated_at == Some(now),
{
    User {
        id: Some(id),
        name: google_user.name.clone(),
        email: to_lowercase(google_user.email.as_str()),
        password: String::new(),
        role: "user".to_owned(),
        photo: google_user.picture.clone(),
        verified: google_user.verified_email,
        provider: "Google".to_owned(),
        created_at: Some(now),
        updated_at: Some(now),
    }
}

/// The change made to an existing row on a later login through Google.
#[derive(Debug)]
pub struct GoogleUserUpdate {
    pub id: u128,
    pub email: String,
    pub photo: String,
    pub updated_at: Timestamp,
}

/// The change for row `id` on a later login through Google: the email in
/// lower case, the profile's photo, updated at `now`.
pub fn update_google_user(id: u128, google_user: &GoogleUserResult, now: Timestamp) -> (r: GoogleUserUpdate)
    ensures
        r.id == id,
        r.email@ == lower_of(google_user.email@),
        r.photo@ == google_user.picture@,
        r.updated_at == now,
{
    GoogleUserUpdate {
        id,
        email: to_lowercase(google_user.email.as_str()),
        photo: google_user.picture.clone(),
        updated_at: now,
    }
}

} // verus!
