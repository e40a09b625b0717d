//! Session tokens: signed, time-bound claims naming a user, carried in a
//! cookie or a bearer header and checked without any store lookup.
use vstd::prelude::*;
use crate::model::TokenClaims;

verus! {

/// What an HS256 token yields when checked against a secret: its subject,
/// issue time and expiry when the signature holds and those claims are
/// there, nothing otherwise. Expiry is not judged here.
pub uninterp spec fn hs256_claims(token: Seq<char>, secret: Seq<char>) -> Option<(Seq<char>, u64, u64)>;

/// Why a request carries no usable identity.
#[derive(Debug, Clone, Copy, PartialEq, Eq, Structural)]
pub enum AuthError {
    /// Neither the cookie nor the header holds a token.
    NotLoggedIn,
    /// The token is malformed, badly signed or expired.
    InvalidToken,
}

/// The identity that a request proved.
#[derive(Debug)]
pub struct AuthenticationGuard {
    pub user_id: String,
}

/// Relies on `jsonwebtoken::encode` with the default header (HS256): the
/// claims as a JSON object, signed with the secret, which
/// `jsonwebtoken::decode` with the same secret reads back. With an HMAC key
/// and a map of plain values it does not fail: the key family matches the
/// header's algorithm and HMAC signing always succeeds.
#[verifier::external_body]
fn sign_claims(claims: &TokenClaims, secret: &str) -> (r: Option<String>)
    ensures
        r is Some,
        r matches Some(t) ==> hs256_claims(t@, secret@) == Some((claims.sub@, claims.iat, claims.exp)),
{
    let mut body = serde_json::Map::new();
    body.insert("sub".to_string(), serde_json::Value::from(claims.sub.as_str()));
    body.insert("iat".to_string(), serde_json::Value::from(claims.iat));
    body.insert("exp".to_string(), serde_json::Value::from(claims.exp));
    let key = jsonwebtoken::EncodingKey::from_secret(secret.as_bytes());
    jsonwebtoken::encode(&jsonwebtoken::Header::default(), &body, &key).ok()
}

/// Relies on `jsonwebtoken::decode` with HS256, the expiry check switched
/// off: the claims of a token whose signature holds for the secret.
#[verifier::external_body]
fn read_claims(token: &str, secret: &str) -> (r: Option<TokenClaims>)
    ensures
        match hs256_claims(token@, secret@) {
            Some((sub, iat, exp)) => r matches Some(c) && c.sub@ == sub && c.iat == iat && c.exp == exp,
            None => r is None,
        },
{
    let mut rules = jsonwebtoken::Validation::new(jsonwebtoken::Algorithm::HS256);
    rules.validate_exp = false;
    let key = jsonwebtoken::DecodingKey::from_secret(secret.as_bytes());
    let data = jsonwebtoken::decode::<serde_json::Value>(token, &key, &rules).ok()?;
    let sub = data.claims.get("sub")?.as_str()?.to_string();
    let iat = data.claims.get("iat")?.as_u64()?;
    let exp = data.claims.get("exp")?.as_u64()?;
    Some(TokenClaims { sub, iat, exp })
}

/// The subject that a token proves at time `now`: its signature holds for
/// the secret and `now` is before its expiry.
pub open spec fn token_subject(token: Seq<char>, secret: Seq<char>, now: u64) -> Result<Seq<char>, AuthError> {
    match hs256_claims(token, secret) {
        Some((sub, _iat, exp)) => if now < exp {
            Ok(sub)
        } else {
            Err(AuthError::InvalidToken)
        },
        None => Err(AuthError::InvalidToken),
    }
}

/// The token that a request carries: the cookie's value, else what follows
/// `Bearer ` in the authorization header; a header of another form carries
/// none.
pub open spec fn carried_token(cookie: Option<Seq<char>>, authorization: Option<Seq<char>>) -> Option<Seq<char>> {
    match cookie {
        Some(c) => Some(c),
        None => match authorization {
            Some(h) => if h.len() >= 7 && h.subrange(0, 7) == "Bearer "@ {
                Some(h.subrange(7, h.len() as int))
            } else {
                None
            },
            None => None,
        },
    }
}

/// The characters of an optional text.
pub open spec fn text_of(s: Option<&str>) -> Option<Seq<char>> {
    match s {
        Some(t) => Some(t@),
        None => None,
    }
}

/// Claims for `sub`, issued at `now` and expiring `ttl_minutes` later.
pub fn issue_claims(sub: &str, now: u64, ttl_minutes: u64) -> (r: TokenClaims)
    requires
        now + 60 * ttl_minutes <= u64::MAX,
    ensures
        r.sub@ == sub@,
        r.iat == now,
        r.exp == now + 60 * ttl_minutes,
{
    TokenClaims { sub: sub.to_owned(), iat: now, exp: now + 60 * ttl_minutes }
}

/// A token for `sub`, issued at `now` and expiring `ttl_minutes` later,
/// signed with the secret.
pub fn issue_token(sub: &str, now: u64, ttl_minutes: u64, secret: &str) -> (r: String)
    requires
        now + 60 * ttl_minutes <= u64::MAX,
    ensures
        hs256_claims(r@, secret@) == Some((sub@, now, (now + 60 * ttl_minutes) as u64)),
{
    let claims = issue_claims(sub, now, ttl_minutes);
    sign_claims(&claims, secret).unwrap()
}

/// Judges decoded claims at time `now`: their subject while `now` is before
/// their expiry.
pub fn check_claims(claims: Option<TokenClaims>, now: u64) -> (r: Result<String, AuthError>)
    ensures
        match claims {
            Some(c) => if now < c.exp {
                r matches Ok(s) && s@ == c.sub@
            } else {
                r == Err::<String, AuthError>(AuthError::InvalidToken)
            },
            None => r == Err::<String, AuthError>(AuthError::InvalidToken),
        },
{
    match claims {
        Some(c) => if now < c.exp {
            Ok(c.sub)
        } else {
            Err(AuthError::InvalidToken)
        },
        None => Err(AuthError::InvalidToken),
    }
}

/// The subject of a token at time `now`, or why it is refused.
pub fn verify_token(token: &str, now: u64, secret: &str) -> (r: Result<String, AuthError>)
    ensures
        match token_subject(token@, secret@, now) {
            Ok(s) => r matches Ok(x) && x@ == s,
            Err(e) => r == Err::<String, AuthError>(e),
        },
{
    check_claims(read_claims(token, secret), now)
}

/// The token of a request: the cookie wins over the header.
pub fn extract_token(cookie: Option<&str>, authorization: Option<&str>) -> (r: Option<String>)
    ensures
        match carried_token(text_of(cookie), text_of(authorization)) {
            Some(t) => r matches Some(x) && x@ == t,
            None => r is None,
        },
{
    match cookie {
        Some(c) => Some(c.to_owned()),
        None => match authorization {
            Some(h) => {
                let n = h.unicode_len();
                if n >= 7 && h.substring_char(0, 7).to_owned() == "Bearer ".to_owned() {
                    Some(h.substring_char(7, n).to_owned())
                } else {
                    None
                }
            },
            None => None,
        },
    }
}

/// The identity of a request at time `now`: a token must be carried and
/// prove a subject.
pub fn authenticate(cookie: Option<&str>, authorization: Option<&str>, now: u64, secret: &str) -> (r: Result<AuthenticationGuard, AuthError>)
    ensures
        match carried_token(text_of(cookie), text_of(authorization)) {
            None => r == Err::<AuthenticationGuard, AuthError>(AuthError::NotLoggedIn),
            Some(t) => match token_subject(t, secret@, now) {
                Ok(s) => r matches Ok(g) && g.user_id@ == s,
                Err(e) => r == Err::<AuthenticationGuard, AuthError>(e),
            },
        },
{
    match extract_token(cookie, authorization) {
        None => Err(AuthError::NotLoggedIn),
        Some(t) => match verify_token(t.as_str(), now, secret) {
            Ok(s) => Ok(AuthenticationGuard { user_id: s }),
            Err(e) => Err(e),
        },
    }
}

/// A token accepted at one time is accepted exactly while the time stays
/// before its expiry, and then always names the same subject.
pub proof fn lemma_token_accepted_until_expiry(token: Seq<char>, secret: Seq<char>, sub: Seq<char>, iat: u64, exp: u64, now: u64)
    requires
        hs256_claims(token, secret) == Some((sub, iat, exp)),
    ensures
        now < exp ==> token_subject(token, secret, now) == Ok::<Seq<char>, AuthError>(sub),
        now >= exp ==> token_subject(token, secret, now) == Err::<Seq<char>, AuthError>(AuthError::InvalidToken),
{
}

/// A token issued at `iat` with a lifetime of `ttl_minutes` proves its
/// subject at every time before `iat + 60 * ttl_minutes` and at no time
/// from then on.
pub proof fn lemma_issued_token_lifetime(token: Seq<char>, secret: Seq<char>, sub: Seq<char>, iat: u64, ttl_minutes: u64, now: u64)
    requires
        iat + 60 * ttl_minutes <= u64::MAX,
        hs256_claims(token, secret) == Some((sub, iat, (iat + 60 * ttl_minutes) as u64)),
    ensures
        now < iat + 60 * ttl_minutes <==> token_subject(token, secret, now) is Ok,
        token_subject(token, secret, now) is Ok ==> token_subject(token, secret, now) == Ok::<Seq<char>, AuthError>(sub),
{
}

} // verus!
