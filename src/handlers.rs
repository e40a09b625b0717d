//! What each endpoint answers. The reads and writes that an endpoint needs
//! run outside; their results come in here as plain values, and what goes
//! back is a status, a body, and the session cookie or redirect to set.
use vstd::prelude::*;
use crate::ids::{user_id_from_subject, user_id_text, uuid_parse, uuid_text};
use crate::model::{filtered, user_to_response, Config, FilteredUser, RegisterUserSchema, User, UserData, UserResponse};
use crate::password::bcrypt_accepts;
use crate::token::{hs256_claims, issue_token, AuthError, AuthenticationGuard};
use crate::user_repo::{create_user, get_user_by_email_and_password, is_local_row};

verus! {

/// The JSON body of a response, by shape.
#[derive(Debug)]
pub enum ResponseBody {
    /// `{"status": "success", "message": ..}`
    Health { message: String },
    /// `{"status": .., "data": {"user": ..}}`
    Registered(UserResponse),
    /// `{"status": "success", "user": ..}`
    CurrentUser(FilteredUser),
    /// `{"status": "success"}`
    Success,
    /// `{"status": "fail", "message": ..}`
    Fail { message: String },
    /// `{"status": "error", "message": .., "info": ..}`, the message only
    /// where there is a summary
    Error { summary: Option<String>, info: String },
    /// `{"status": "failed", "err": ..}`
    Failed { err: String },
    /// No body.
    Empty,
}

/// The `token` cookie: HTTP-only, path `/`.
#[derive(Debug)]
pub struct SessionCookie {
    pub value: String,
    pub max_age_secs: i64,
}

/// A response: status code, body, the cookie to set and the redirect
/// target.
#[derive(Debug)]
pub struct ApiResponse {
    pub status: u16,
    pub body: ResponseBody,
    pub cookie: Option<SessionCookie>,
    pub location: Option<String>,
}

/// The next step of registration: answer now, or insert the row.
#[derive(Debug)]
pub enum RegisterStep {
    Respond(ApiResponse),
    Insert(User),
}

/// A response with a body and nothing else.
pub open spec fn plain(status: u16, body: ResponseBody) -> ApiResponse {
    ApiResponse { status, body, cookie: None, location: None }
}

/// Whether `r` is a response with only a `fail` body carrying `message`.
pub open spec fn is_fail(r: ApiResponse, status: u16, message: Seq<char>) -> bool {
    &&& r.status == status
    &&& r.body matches ResponseBody::Fail { message: m } && m@ == message
    &&& r.cookie is None
    &&& r.location is None
}

/// Whether `r` is a 500 response with only an `error` body.
pub open spec fn is_error(r: ApiResponse, summary: Option<Seq<char>>, info: Seq<char>) -> bool {
    &&& r.status == 500
    &&& r.body matches ResponseBody::Error { summary: m, info: i } && i@ == info && match summary {
        Some(t) => m matches Some(x) && x@ == t,
        None => m is None,
    }
    &&& r.cookie is None
    &&& r.location is None
}

/// Whether `c` is a session cookie for a token that proves `id` from
/// `now` on for the configured lifetime.
pub open spec fn is_session_cookie(c: SessionCookie, id: u128, now: u64, config: Config) -> bool {
    &&& hs256_claims(c.value@, config.jwt_secret@) == Some((uuid_text(id), now, (now + 60 * config.jwt_max_age) as u64))
    &&& c.max_age_secs == 60 * config.jwt_max_age
}

/// The lifetime that a configuration allows at time `now`: the expiry and
/// the cookie age stay within their integer types.
pub open spec fn lifetime_fits(config: Config, now: u64) -> bool {
    &&& now + 60 * config.jwt_max_age <= u64::MAX
    &&& 60 * config.jwt_max_age <= i64::MAX
}

fn fail(status: u16, message: &str) -> (r: ApiResponse)
    ensures
        is_fail(r, status, message@),
{
    ApiResponse { status, body: ResponseBody::Fail { message: message.to_owned() }, cookie: None, location: None }
}

pub(crate) fn error(summary: Option<&str>, info: String) -> (r: ApiResponse)
    ensures
        is_error(r, match summary { Some(m) => Some(m@), None => None }, info@),
{
    let summary = match summary {
        Some(m) => Some(m.to_owned()),
        None => None,
    };
    ApiResponse { status: 500, body: ResponseBody::Error { summary, info }, cookie: None, location: None }
}

/// The answer when a read or write of the store failed.
pub fn store_failure(info: String) -> (r: ApiResponse)
    ensures
        is_error(r, None, info@),
{
    error(None, info)
}

/// The answer of the health check.
pub fn health_checker_handler() -> (r: ApiResponse)
    ensures
        r.status == 200,
        r.body matches ResponseBody::Health { message } && message@ == "How to Implement Google OAuth2 in Rust"@,
        r.cookie is None,
        r.location is None,
{
    ApiResponse {
        status: 200,
        body: ResponseBody::Health { message: "How to Implement Google OAuth2 in Rust".to_owned() },
        cookie: None,
        location: None,
    }
}

/// The answer to a request without a usable identity.
pub fn unauthorized(e: AuthError) -> (r: ApiResponse)
    ensures
        e == AuthError::NotLoggedIn ==> is_fail(r, 401, "You are not logged in, please provide token"@),
        e == AuthError::InvalidToken ==> is_fail(r, 401, "Invalid token or usre doesn't exists"@),
{
    match e {
        AuthError::NotLoggedIn => fail(401, "You are not logged in, please provide token"),
        AuthError::InvalidToken => fail(401, "Invalid token or usre doesn't exists"),
    }
}

/// Registration once the store said whether the (lower-cased) email is
/// taken: a taken email is a conflict and nothing is inserted, as when the
/// lookup failed; otherwise the new local row is inserted, unless no
/// password hash could be made.
pub fn register_user_handler(body: &RegisterUserSchema, taken: Result<bool, String>) -> (r: RegisterStep)
    ensures
        match taken {
            Ok(true) => (r matches RegisterStep::Respond(resp) && is_fail(resp, 409, "Email already exist"@)),
            Err(e) => (r matches RegisterStep::Respond(resp) && is_error(resp, Some("Failed to register user"@), e@)),
            Ok(false) => (match r {
                RegisterStep::Insert(u) => is_local_row(u, body.email@, body.name@) && bcrypt_accepts(body.password@, u.password@),
                RegisterStep::Respond(resp) => is_error(resp, Some("Failed to register user"@), "password hashing failed"@),
            }),
        },
{
    match taken {
        Ok(true) => RegisterStep::Respond(fail(409, "Email already exist")),
        Err(e) => RegisterStep::Respond(error(Some("Failed to register user"), e)),
        Ok(false) => match create_user(body.email.as_str(), body.password.as_str(), body.name.as_str()) {
            Some(user) => RegisterStep::Insert(user),
            None => RegisterStep::Respond(error(Some("Failed to register user"), "password hashing failed".to_owned())),
        },
    }
}

/// Registration once the insert ran: the new user's view, or the store's
/// error.
pub fn register_finished(user: &User, inserted: Result<(), String>) -> (r: ApiResponse)
    ensures
        match inserted {
            Ok(_) => {
                &&& r.status == 200
                &&& r.body matches ResponseBody::Registered(ur) && ur.status@ == "success"@ && ur.data.user == filtered(*user)
                &&& r.cookie is None
                &&& r.location is None
            },
            Err(e) => is_error(r, Some("Failed to register user"@), e@),
        },
{
    match inserted {
        Ok(_) => ApiResponse {
            status: 200,
            body: ResponseBody::Registered(UserResponse {
                status: "success".to_owned(),
                data: UserData { user: user_to_response(user) },
            }),
            cookie: None,
            location: None,
        },
        Err(e) => error(Some("Failed to register user"), e),
    }
}

fn is_google(provider: &String) -> (r: bool)
    ensures
        r == (provider@ == "Google"@),
{
    *provider == "Google".to_owned()
}

/// Whether `r` is the answer to credentials that do not log in, or is the
/// logged-in row and its id: the lookup must have succeeded, the password
/// must match the row's hash, the account must be local and have an id.
pub open spec fn credentials_outcome(found: Result<Option<User>, String>, password: Seq<char>, r: Result<(User, u128), ApiResponse>) -> bool {
    match found {
        Err(e) => r matches Err(resp) && is_error(resp, None, e@),
        Ok(None) => r matches Err(resp) && is_fail(resp, 401, "Invalid email or password"@),
        Ok(Some(u)) => if !bcrypt_accepts(password, u.password@) {
            r matches Err(resp) && is_fail(resp, 401, "Invalid email or password"@)
        } else if u.provider@ == "Google"@ {
            r matches Err(resp) && is_fail(resp, 401, "Use Google OAuth2 instead"@)
        } else {
            match u.id {
                None => r matches Err(resp) && is_error(resp, None, "user has no id"@),
                Some(id) => r == Ok::<(User, u128), ApiResponse>((u, id)),
            }
        },
    }
}

/// The check of login credentials once the row for the (lower-cased) email
/// was looked up: the row and its id, or the answer that refuses the login.
pub fn check_credentials(found: Result<Option<User>, String>, password: &str) -> (r: Result<(User, u128), ApiResponse>)
    ensures
        credentials_outcome(found, password@, r),
        found matches Ok(Some(u)) && u.password@.len() == 0 ==> (r matches Err(resp) && resp.status == 401 && resp.cookie is None),
{
    let found = match found {
        Err(e) => return Err(error(None, e)),
        Ok(f) => f,
    };
    let user = match get_user_by_email_and_password(found, password) {
        None => return Err(fail(401, "Invalid email or password")),
        Some(u) => u,
    };
    if is_google(&user.provider) {
        return Err(fail(401, "Use Google OAuth2 instead"));
    }
    match user.id {
        None => Err(error(None, "user has no id".to_owned())),
        Some(id) => Ok((user, id)),
    }
}

/// Login once the row for the (lower-cased) email was looked up: refused
/// as the credential check says; otherwise the user's view, with a token
/// for the user's id issued at `now` set as the session cookie.
pub fn login_user_handler(found: Result<Option<User>, String>, password: &str, now: u64, config: &Config) -> (r: ApiResponse)
    requires
        lifetime_fits(*config, now),
    ensures
        match found {
            Err(e) => is_error(r, None, e@),
            Ok(None) => is_fail(r, 401, "Invalid email or password"@),
            Ok(Some(u)) => if !bcrypt_accepts(password@, u.password@) {
                is_fail(r, 401, "Invalid email or password"@)
            } else if u.provider@ == "Google"@ {
                is_fail(r, 401, "Use Google OAuth2 instead"@)
            } else {
                match u.id {
                    None => is_error(r, None, "user has no id"@),
                    Some(id) => {
                        &&& r.status == 200
                        &&& r.body == ResponseBody::CurrentUser(filtered(u))
                        &&& r.location is None
                        &&& r.cookie matches Some(c) && is_session_cookie(c, id, now, *config)
                    },
                }
            },
        },
{
    match check_credentials(found, password) {
        Err(resp) => resp,
        Ok((user, id)) => {
            let sub = user_id_text(id);
            let token = issue_token(sub.as_str(), now, config.jwt_max_age, config.jwt_secret.as_str());
            ApiResponse {
                status: 200,
                body: ResponseBody::CurrentUser(user_to_response(&user)),
                cookie: Some(SessionCookie { value: token, max_age_secs: (60 * config.jwt_max_age) as i64 }),
                location: None,
            }
        },
    }
}

/// Wrong credentials never log in: whatever the configuration and the
/// time, a row whose hash rejects the password, or no row, is refused with
/// a 401 and no cookie.
pub proof fn lemma_wrong_password_refused(found: Option<User>, password: Seq<char>, r: Result<(User, u128), ApiResponse>)
    requires
        credentials_outcome(Ok(found), password, r),
        found matches Some(u) ==> !bcrypt_accepts(password, u.password@),
    ensures
        r matches Err(resp) && is_fail(resp, 401, "Invalid email or password"@),
{
}

/// Logout: the cookie is cleared (empty, already expired).
pub fn logout_handler(guard: &AuthenticationGuard) -> (r: ApiResponse)
    ensures
        r.status == 200,
        r.body == ResponseBody::Success,
        r.cookie matches Some(c) && c.value@.len() == 0 && c.max_age_secs == -1,
        r.location is None,
{
    ApiResponse {
        status: 200,
        body: ResponseBody::Success,
        cookie: Some(SessionCookie { value: String::new(), max_age_secs: -1 }),
        location: None,
    }
}

/// The row id that the proved identity names, or the answer when its
/// subject is no user id.
pub fn get_me_target(guard: &AuthenticationGuard) -> (r: Result<u128, ApiResponse>)
    ensures
        match uuid_parse(guard.user_id@) {
            Some(id) => r == Ok::<u128, ApiResponse>(id),
            None => r matches Err(resp) && is_error(resp, None, "invalid user id"@),
        },
{
    match user_id_from_subject(guard.user_id.as_str()) {
        Some(id) => Ok(id),
        None => Err(error(None, "invalid user id".to_owned())),
    }
}

/// The current user once the row was looked up: its view, or a 500 answer
/// when the row is gone or the store failed.
pub fn get_me_handler(found: Result<Option<User>, String>) -> (r: ApiResponse)
    ensures
        match found {
            Ok(Some(u)) => r == plain(200, ResponseBody::CurrentUser(filtered(u))),
            Ok(None) => r.status == 500 && (r.body matches ResponseBody::Failed { err } && err@ == "can not find such user"@) && r.cookie is None && r.location is None,
            Err(e) => is_error(r, None, e@),
        },
{
    match found {
        Ok(Some(user)) => ApiResponse {
            status: 200,
            body: ResponseBody::CurrentUser(user_to_response(&user)),
            cookie: None,
            location: None,
        },
        Ok(None) => ApiResponse {
            status: 500,
            body: ResponseBody::Failed { err: "can not find such user".to_owned() },
            cookie: None,
            location: None,
        },
        Err(e) => error(None, e),
    }
}

} // verus!
