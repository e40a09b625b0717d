//! Login through Google: what the two calls to the provider send and
//! receive, how the local row is chosen afterwards, and the redirect that
//! ends the login.
use vstd::prelude::*;
use crate::handlers::{error, is_error, is_fail, is_session_cookie, lifetime_fits, ApiResponse, ResponseBody, SessionCookie};
use crate::ids::{new_user_id, user_id_text};
use crate::model::{Config, QueryCode, Timestamp, User};
use crate::token::issue_token;
use crate::user_repo::{insert_google_user, lower_of, update_google_user, GoogleUserUpdate};

verus! {

/// What the provider's token endpoint returns.
#[derive(Debug)]
pub struct OAuthResponse {
    pub access_token: String,
    pub id_token: String,
}

/// The profile that the provider's user-info endpoint returns.
#[derive(Debug)]
pub struct GoogleUserResult {
    pub email: String,
    pub verified_email: bool,
    pub name: String,
    pub picture: String,
}

/// The provider's token endpoint.
pub const GOOGLE_TOKEN_URL: &'static str = "https://oauth2.googleapis.com/token";

/// The provider's user-info endpoint.
pub const GOOGLE_USERINFO_URL: &'static str = "https://www.googleapis.com/oauth2/v1/userinfo";

/// The write that a login through Google makes to the users table.
#[derive(Debug)]
pub enum UpsertPlan {
    /// Answer now; nothing is written.
    Respond(ApiResponse),
    /// A first login: insert this row.
    Insert(User),
    /// A later login: change the existing row.
    Update(GoogleUserUpdate),
}

/// The check made before calling the provider: a code must be there.
pub fn google_oauth_start(query: &QueryCode) -> (r: Option<ApiResponse>)
    ensures
        query.code@.len() == 0 ==> (r matches Some(resp) && is_fail(resp, 401, "Authorization code not provided!"@)),
        query.code@.len() != 0 ==> r is None,
{
    if query.code.as_str().is_empty() {
        Some(ApiResponse {
            status: 401,
            body: ResponseBody::Fail { message: "Authorization code not provided!".to_owned() },
            cookie: None,
            location: None,
        })
    } else {
        None
    }
}

fn pair(k: &str, v: &str) -> (r: (String, String))
    ensures
        r.0@ == k@,
        r.1@ == v@,
{
    (k.to_owned(), v.to_owned())
}

/// The form posted to the token endpoint to trade an authorization code.
pub fn request_token(authorization_code: &str, config: &Config) -> (r: Vec<(String, String)>)
    ensures
        r@.len() == 5,
        r@[0].0@ == "grant_type"@ && r@[0].1@ == "authorization_code"@,
        r@[1].0@ == "redirect_uri"@ && r@[1].1@ == config.google_oauth_redirect_url@,
        r@[2].0@ == "client_id"@ && r@[2].1@ == config.google_oauth_client_id@,
        r@[3].0@ == "code"@ && r@[3].1@ == authorization_code@,
        r@[4].0@ == "client_secret"@ && r@[4].1@ == config.google_oauth_client_secret@,
{
    let mut form: Vec<(String, String)> = Vec::new();
    form.push(pair("grant_type", "authorization_code"));
    form.push(pair("redirect_uri", config.google_oauth_redirect_url.as_str()));
    form.push(pair("client_id", config.google_oauth_client_id.as_str()));
    form.push(pair("code", authorization_code));
    form.push(pair("client_secret", config.google_oauth_client_secret.as_str()));
    form
}

/// The query pairs of the user-info request.
pub fn get_google_user(access_token: &str) -> (r: Vec<(String, String)>)
    ensures
        r@.len() == 2,
        r@[0].0@ == "alt"@ && r@[0].1@ == "json"@,
        r@[1].0@ == "access_token"@ && r@[1].1@ == access_token@,
{
    let mut pairs: Vec<(String, String)> = Vec::new();
    pairs.push(pair("alt", "json"));
    pairs.push(pair("access_token", access_token));
    pairs
}

/// The answer when a call to the provider failed.
pub fn upstream_failure(message: String) -> (r: ApiResponse)
    ensures
        is_fail(r, 502, message@),
{
    ApiResponse { status: 502, body: ResponseBody::Fail { message }, cookie: None, location: None }
}

/// Whether `u` is the row of a first login with `profile`, id `id`, at `now`.
pub open spec fn is_google_row(u: User, id: u128, profile: GoogleUserResult, now: Timestamp) -> bool {
    &&& u.id == Some(id)
    &&& u.name@ == profile.name@
    &&& u.email@ == lower_of(profile.email@)
    &&& u.photo@ == profile.picture@
    &&& u.verified == profile.verified_email
    &&& u.provider@ == "Google"@
    &&& u.role@ == "user"@
    &&& u.password@.len() == 0
    &&& u.created_at == Some(now)
    &&& u.updated_at == Some(now)
}

/// The write once the row for the profile's lower-cased email was looked
/// up: an update of the row found, else a new row under a fresh random id.
pub fn plan_google_upsert(found: Result<Option<User>, String>, profile: &GoogleUserResult, now: Timestamp) -> (r: UpsertPlan)
    ensures
        found matches Err(e) ==> (r matches UpsertPlan::Respond(resp) && is_error(resp, None, e@)),
        found matches Ok(None) ==> (r matches UpsertPlan::Insert(u) && exists|id: u128| is_google_row(u, id, *profile, now)),
        found matches Ok(Some(u)) ==> match u.id {
            Some(id) => r matches UpsertPlan::Update(w) && w.id == id && w.email@ == lower_of(profile.email@)
                && w.photo@ == profile.picture@ && w.updated_at == now,
            None => r matches UpsertPlan::Respond(resp) && is_error(resp, None, "user has no id"@),
        },
{
    match found {
        Err(e) => UpsertPlan::Respond(error(None, e)),
        Ok(None) => {
            let id = new_user_id();
            let row = insert_google_user(id, profile, now);
            assert(is_google_row(row, id, *profile, now));
            UpsertPlan::Insert(row)
        },
        Ok(Some(u)) => match u.id {
            Some(id) => UpsertPlan::Update(update_google_user(id, profile, now)),
            None => UpsertPlan::Respond(error(None, "user has no id".to_owned())),
        },
    }
}

/// The id under which a plan leaves the user's row.
pub fn planned_user_id(plan: &UpsertPlan) -> (r: Option<u128>)
    ensures
        match *plan {
            UpsertPlan::Insert(u) => r == u.id,
            UpsertPlan::Update(w) => r == Some(w.id),
            UpsertPlan::Respond(_) => r is None,
        },
{
    match plan {
        UpsertPlan::Insert(u) => u.id,
        UpsertPlan::Update(w) => Some(w.id),
        UpsertPlan::Respond(_) => None,
    }
}

/// The end of a login through Google for row `user_id`: a redirect to the
/// client origin followed by `state`, with a token issued at `now` for the
/// row's id set as the session cookie.
pub fn google_oauth_finish(user_id: u128, state: &str, now: u64, config: &Config) -> (r: ApiResponse)
    requires
        lifetime_fits(*config, now),
    ensures
        r.status == 302,
        r.body == ResponseBody::Empty,
        r.location matches Some(l) && l@ == config.client_origin@ + state@,
        r.cookie matches Some(c) && is_session_cookie(c, user_id, now, *config),
{
    let sub = user_id_text(user_id);
    let token = issue_token(sub.as_str(), now, config.jwt_max_age, config.jwt_secret.as_str());
    let location = config.client_origin.clone().concat(state);
    ApiResponse {
        status: 302,
        body: ResponseBody::Empty,
        cookie: Some(SessionCookie { value: token, max_age_secs: (60 * config.jwt_max_age) as i64 }),
        location: Some(location),
    }
}

/// A users row as the table model keeps it: email, photo, provider and
/// password hash.
pub type RowView = (Seq<char>, Seq<char>, Seq<char>, Seq<char>);

pub open spec fn row_view(u: User) -> RowView {
    (u.email@, u.photo@, u.provider@, u.password@)
}

/// The users table, by id, after a plan was carried out.
pub open spec fn after_plan(table: Map<u128, RowView>, plan: UpsertPlan) -> Map<u128, RowView> {
    match plan {
        UpsertPlan::Insert(u) => match u.id {
            Some(id) => table.insert(id, row_view(u)),
            None => table,
        },
        UpsertPlan::Update(w) => if table.contains_key(w.id) {
            table.insert(w.id, (w.email@, w.photo@, table[w.id].2, table[w.id].3))
        } else {
            table
        },
        UpsertPlan::Respond(_) => table,
    }
}

/// Whether no row of the table has this email.
pub open spec fn email_free(table: Map<u128, RowView>, email: Seq<char>) -> bool {
    forall|k: u128| #[trigger] table.contains_key(k) ==> table[k].0 != email
}

/// A first login through Google for an email that no row has adds exactly
/// one row, with that email, provider "Google" and no password; a later
/// login, which finds that row, changes its email and photo and adds none.
pub proof fn lemma_google_login_upsert(
    table: Map<u128, RowView>,
    first: UpsertPlan,
    later: UpsertPlan,
    id: u128,
    profile: GoogleUserResult,
    later_profile: GoogleUserResult,
    now: Timestamp,
    later_now: Timestamp,
)
    requires
        table.dom().finite(),
        email_free(table, lower_of(profile.email@)),
        !table.contains_key(id),
        first matches UpsertPlan::Insert(u) && is_google_row(u, id, profile, now),
        later matches UpsertPlan::Update(w) && w.id == id && w.email@ == lower_of(later_profile.email@)
            && w.photo@ == later_profile.picture@,
    ensures
        after_plan(table, first).dom().len() == table.dom().len() + 1,
        after_plan(table, first).contains_key(id),
        after_plan(table, first)[id] == (lower_of(profile.email@), profile.picture@, "Google"@, Seq::<char>::empty()),
        forall|k: u128| #[trigger] after_plan(table, first).contains_key(k) && after_plan(table, first)[k].0 == lower_of(profile.email@) ==> k == id,
        after_plan(after_plan(table, first), later).dom() == after_plan(table, first).dom(),
        after_plan(after_plan(table, first), later)[id] == (lower_of(later_profile.email@), later_profile.picture@, "Google"@, Seq::<char>::empty()),
{
    let t1 = after_plan(table, first);
    assert(t1.dom() == table.dom().insert(id));
    assert(t1[id].3 =~= Seq::<char>::empty());
    let t2 = after_plan(t1, later);
    assert(t2.dom() =~= t1.dom());
}

} // verus!
