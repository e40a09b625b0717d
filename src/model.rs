//! The data the service keeps and exchanges: user rows, their public view,
//! request bodies and configuration.
use vstd::prelude::*;

verus! {

/// A date-time without zone: whole seconds since the epoch and the
/// nanoseconds past that second.
#[derive(Debug, Clone, Copy, PartialEq, Eq, Structural)]
pub struct Timestamp {
    pub secs: i64,
    pub nanos: u32,
}

/// A row of the users table.
#[derive(Debug)]
pub struct User {
    pub id: Option<u128>,
    pub name: String,
    pub email: String,
    /// Salted one-way hash; empty for accounts of an outside provider.
    pub password: String,
    pub role: String,
    pub photo: String,
    pub verified: bool,
    /// "local" or "Google".
    pub provider: String,
    pub created_at: Option<Timestamp>,
    pub updated_at: Option<Timestamp>,
}

/// The view of a user that responses carry: every field but the password.
#[derive(Debug)]
pub struct FilteredUser {
    pub id: Option<u128>,
    pub name: String,
    pub email: String,
    pub role: String,
    pub photo: String,
    pub verified: bool,
    pub provider: String,
    pub created_at: Option<Timestamp>,
    pub updated_at: Option<Timestamp>,
}

#[derive(Debug)]
pub struct UserData {
    pub user: FilteredUser,
}

#[derive(Debug)]
pub struct UserResponse {
    pub status: String,
    pub data: UserData,
}

/// The claims that a session token carries: the user id as text, when it
/// was issued and when it expires, in seconds since the epoch.
#[derive(Debug)]
pub struct TokenClaims {
    pub sub: String,
    pub iat: u64,
    pub exp: u64,
}

/// The query of the provider's redirect back to this service.
#[derive(Debug)]
pub struct QueryCode {
    pub code: String,
    pub state: String,
}

#[derive(Debug)]
pub struct RegisterUserSchema {
    pub name: String,
    pub email: String,
    pub password: String,
}

#[derive(Debug)]
pub struct LoginUserSchema {
    pub email: String,
    pub password: String,
}

/// Settings read at start-up.
#[derive(Debug)]
pub struct Config {
    pub database_url: String,
    pub client_origin: String,
    pub jwt_secret: String,
    /// Token and cookie lifetime, in minutes.
    pub jwt_max_age: u64,
    pub google_oauth_client_id: String,
    pub google_oauth_client_secret: String,
    pub google_oauth_redirect_url: String,
}

/// The filtered view of a row.
pub open spec fn filtered(u: User) -> FilteredUser {
    FilteredUser {
        id: u.id,
        name: u.name,
        email: u.email,
        role: u.role,
        photo: u.photo,
        verified: u.verified,
        provider: u.provider,
        created_at: u.created_at,
        updated_at: u.updated_at,
    }
}

/// The view of a user that responses carry, without its password hash.
pub fn user_to_response(user: &User) -> (r: FilteredUser)
    ensures
        r == filtered(*user),
{
    FilteredUser {
        id: user.id,
        name: user.name.clone(),
        email: user.email.clone(),
        role: user.role.clone(),
        photo: user.photo.clone(),
        verified: user.verified,
        provider: user.provider.clone(),
        created_at: user.created_at,
        updated_at: user.updated_at,
    }
}

} // verus!
