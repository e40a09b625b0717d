use server::token::{authenticate, check_claims, extract_token, issue_claims, issue_token, verify_token, AuthError};
use server::model::TokenClaims;

const SECRET: &str = "my_ultra_secure_secret";
const SUBJECT: &str = "67e55044-10b1-426f-9247-bb680e5fe0c8";

#[test]
fn claims_expire_after_the_lifetime() {
    let c = issue_claims(SUBJECT, 1_000, 60);
    assert_eq!(c.sub, SUBJECT);
    assert_eq!(c.iat, 1_000);
    assert_eq!(c.exp, 1_000 + 3_600);
}

#[test]
fn token_accepted_before_expiry_only() {
    let t = issue_token(SUBJECT, 1_000, 1, SECRET);
    assert_eq!(verify_token(&t, 1_000, SECRET), Ok(SUBJECT.to_string()));
    assert_eq!(verify_token(&t, 1_059, SECRET), Ok(SUBJECT.to_string()));
    assert_eq!(verify_token(&t, 1_060, SECRET), Err(AuthError::InvalidToken));
    assert_eq!(verify_token(&t, 5_000, SECRET), Err(AuthError::InvalidToken));
}

#[test]
fn token_from_another_secret_rejected() {
    let t = issue_token(SUBJECT, 1_000, 60, "another secret");
    assert_eq!(verify_token(&t, 1_000, SECRET), Err(AuthError::InvalidToken));
    let u = issue_token(SUBJECT, 1_000, 60, SECRET);
    assert_eq!(verify_token(&u, 1_000, "my_ultra_secure_secreT"), Err(AuthError::InvalidToken));
}

#[test]
fn malformed_token_rejected() {
    assert_eq!(verify_token("not.a.token", 0, SECRET), Err(AuthError::InvalidToken));
    assert_eq!(verify_token("", 0, SECRET), Err(AuthError::InvalidToken));
}

#[test]
fn token_is_not_its_subject() {
    let t = issue_token(SUBJECT, 0, 10, SECRET);
    assert_ne!(t, SUBJECT);
    assert_eq!(t.matches('.').count(), 2);
}

#[test]
fn expiry_judged_on_claims() {
    let c = TokenClaims { sub: "x".to_string(), iat: 0, exp: 10 };
    assert_eq!(check_claims(Some(c), 9), Ok("x".to_string()));
    let c = TokenClaims { sub: "x".to_string(), iat: 0, exp: 10 };
    assert_eq!(check_claims(Some(c), 10), Err(AuthError::InvalidToken));
    assert_eq!(check_claims(None, 0), Err(AuthError::InvalidToken));
}

#[test]
fn cookie_wins_over_header() {
    assert_eq!(extract_token(Some("abc"), Some("Bearer xyz")), Some("abc".to_string()));
    assert_eq!(extract_token(None, Some("Bearer xyz")), Some("xyz".to_string()));
    assert_eq!(extract_token(None, Some("Bearer")), None);
    assert_eq!(extract_token(None, Some("Token  xyz")), None);
    assert_eq!(extract_token(None, Some("Bearer ")), Some(String::new()));
    assert_eq!(extract_token(None, None), None);
}

#[test]
fn no_token_is_not_logged_in() {
    assert_eq!(authenticate(None, None, 0, SECRET).err(), Some(AuthError::NotLoggedIn));
    assert_eq!(authenticate(Some("junk"), None, 0, SECRET).err(), Some(AuthError::InvalidToken));
}

#[test]
fn header_token_authenticates() {
    let t = issue_token(SUBJECT, 100, 5, SECRET);
    let header = format!("Bearer {}", t);
    let g = authenticate(None, Some(&header), 200, SECRET).expect("accepted");
    assert_eq!(g.user_id, SUBJECT);
}
