use server::handlers::{
    check_credentials,
    get_me_handler, get_me_target, health_checker_handler, login_user_handler, logout_handler, register_finished,
    register_user_handler, unauthorized, ApiResponse, RegisterStep, ResponseBody,
};
use server::model::{Config, LoginUserSchema, RegisterUserSchema, User};
use server::token::{authenticate, verify_token, AuthError, AuthenticationGuard};

const USER_ID: u128 = 0x67e5504410b1426f9247bb680e5fe0c8;
const NOW: u64 = 1_700_000_000;

fn config() -> Config {
    Config {
        database_url: "postgres://localhost/db".to_string(),
        client_origin: "http://localhost:3000".to_string(),
        jwt_secret: "my_ultra_secure_secret".to_string(),
        jwt_max_age: 60,
        google_oauth_client_id: "client-id".to_string(),
        google_oauth_client_secret: "client-secret".to_string(),
        google_oauth_redirect_url: "http://localhost:8000/api/sessions/oauth/google".to_string(),
    }
}

fn alice(password_hash: &str, provider: &str) -> User {
    User {
        id: Some(USER_ID),
        name: "alice".to_string(),
        email: "a@x.com".to_string(),
        password: password_hash.to_string(),
        role: "user".to_string(),
        photo: "default.png".to_string(),
        verified: false,
        provider: provider.to_string(),
        created_at: None,
        updated_at: None,
    }
}

fn fail_message(r: &ApiResponse) -> String {
    match &r.body {
        ResponseBody::Fail { message } => message.clone(),
        other => panic!("not a fail body: {:?}", other),
    }
}

#[test]
fn register_then_register_again() {
    let body = RegisterUserSchema { name: "alice".to_string(), email: "a@x.com".to_string(), password: "pw1".to_string() };
    let user = match register_user_handler(&body, Ok(false)) {
        RegisterStep::Insert(u) => u,
        RegisterStep::Respond(r) => panic!("unexpected answer {:?}", r),
    };
    let r = register_finished(&user, Ok(()));
    assert_eq!(r.status, 200);
    match &r.body {
        ResponseBody::Registered(ur) => {
            assert_eq!(ur.status, "success");
            assert_eq!(ur.data.user.email, "a@x.com");
        }
        other => panic!("unexpected body {:?}", other),
    }
    match register_user_handler(&body, Ok(true)) {
        RegisterStep::Respond(r) => {
            assert_eq!(r.status, 409);
            assert_eq!(fail_message(&r), "Email already exist");
        }
        RegisterStep::Insert(_) => panic!("a taken email was inserted"),
    }
}

#[test]
fn register_store_failure() {
    let user = alice("h", "local");
    let r = register_finished(&user, Err("db down".to_string()));
    assert_eq!(r.status, 500);
    match &r.body {
        ResponseBody::Error { summary, info } => {
            assert_eq!(summary.as_deref(), Some("Failed to register user"));
            assert_eq!(info, "db down");
        }
        other => panic!("unexpected body {:?}", other),
    }
}

#[test]
fn login_with_wrong_password() {
    let h = bcrypt::hash("pw1", 4).unwrap();
    let r = login_user_handler(Ok(Some(alice(&h, "local"))), "wrong", NOW, &config());
    assert_eq!(r.status, 401);
    assert!(r.cookie.is_none());
    let r = login_user_handler(Ok(None), "pw1", NOW, &config());
    assert_eq!(r.status, 401);
    assert_eq!(fail_message(&r), "Invalid email or password");
    assert!(r.cookie.is_none());
}

#[test]
fn login_with_right_password() {
    let _ = LoginUserSchema { email: "a@x.com".to_string(), password: "pw1".to_string() };
    let h = bcrypt::hash("pw1", 4).unwrap();
    let cfg = config();
    let r = login_user_handler(Ok(Some(alice(&h, "local"))), "pw1", NOW, &cfg);
    assert_eq!(r.status, 200);
    let cookie = r.cookie.expect("token cookie");
    assert_eq!(cookie.max_age_secs, 3_600);
    let sub = verify_token(&cookie.value, NOW + 1, &cfg.jwt_secret).expect("decodable");
    assert_eq!(sub, "67e55044-10b1-426f-9247-bb680e5fe0c8");
    match &r.body {
        ResponseBody::CurrentUser(f) => assert_eq!(f.id, Some(USER_ID)),
        other => panic!("unexpected body {:?}", other),
    }
}

#[test]
fn login_of_google_account_refused() {
    let h = bcrypt::hash("pw1", 4).unwrap();
    let r = login_user_handler(Ok(Some(alice(&h, "Google"))), "pw1", NOW, &config());
    assert_eq!(r.status, 401);
    assert_eq!(fail_message(&r), "Use Google OAuth2 instead");
}

#[test]
fn login_store_failure() {
    let r = login_user_handler(Err("timeout".to_string()), "pw1", NOW, &config());
    assert_eq!(r.status, 500);
}

#[test]
fn me_without_token() {
    let cfg = config();
    let e = authenticate(None, None, NOW, &cfg.jwt_secret).err().expect("refused");
    let r = unauthorized(e);
    assert_eq!(r.status, 401);
    assert_eq!(fail_message(&r), "You are not logged in, please provide token");
    assert_eq!(fail_message(&unauthorized(AuthError::InvalidToken)), "Invalid token or usre doesn't exists");
}

#[test]
fn me_for_deleted_user() {
    let guard = AuthenticationGuard { user_id: "67e55044-10b1-426f-9247-bb680e5fe0c8".to_string() };
    assert_eq!(get_me_target(&guard).ok(), Some(USER_ID));
    let r = get_me_handler(Ok(None));
    assert_eq!(r.status, 500);
    match &r.body {
        ResponseBody::Failed { err } => assert_eq!(err, "can not find such user"),
        other => panic!("unexpected body {:?}", other),
    }
}

#[test]
fn me_for_existing_user() {
    let r = get_me_handler(Ok(Some(alice("h", "local"))));
    assert_eq!(r.status, 200);
    match &r.body {
        ResponseBody::CurrentUser(f) => assert_eq!(f.email, "a@x.com"),
        other => panic!("unexpected body {:?}", other),
    }
    assert_eq!(get_me_handler(Err("gone".to_string())).status, 500);
}

#[test]
fn me_with_bad_subject() {
    let guard = AuthenticationGuard { user_id: "nobody".to_string() };
    let r = get_me_target(&guard).err().expect("refused");
    assert_eq!(r.status, 500);
}

#[test]
fn health_and_logout() {
    let r = health_checker_handler();
    assert_eq!(r.status, 200);
    match &r.body {
        ResponseBody::Health { message } => assert_eq!(message, "How to Implement Google OAuth2 in Rust"),
        other => panic!("unexpected body {:?}", other),
    }
    let r = logout_handler(&AuthenticationGuard { user_id: "x".to_string() });
    assert_eq!(r.status, 200);
    let c = r.cookie.expect("cleared cookie");
    assert_eq!(c.value, "");
    assert_eq!(c.max_age_secs, -1);
}

#[test]
fn register_lookup_failure_inserts_nothing() {
    let body = RegisterUserSchema { name: "eve".to_string(), email: "e@x.com".to_string(), password: "pw".to_string() };
    match register_user_handler(&body, Err("db down".to_string())) {
        RegisterStep::Respond(r) => {
            assert_eq!(r.status, 500);
            match &r.body {
                ResponseBody::Error { info, .. } => assert_eq!(info, "db down"),
                other => panic!("unexpected body {:?}", other),
            }
        }
        RegisterStep::Insert(_) => panic!("inserted after a failed lookup"),
    }
}

#[test]
fn empty_hash_refuses_every_password() {
    for pw in ["", "pw1", "anything"] {
        let r = check_credentials(Ok(Some(alice("", "local"))), pw).err().expect("refused");
        assert_eq!(r.status, 401);
        assert!(r.cookie.is_none());
    }
}

#[test]
fn right_credentials_give_row_and_id() {
    let h = bcrypt::hash("pw1", 4).unwrap();
    let (u, id) = check_credentials(Ok(Some(alice(&h, "local"))), "pw1").ok().expect("accepted");
    assert_eq!(id, USER_ID);
    assert_eq!(u.email, "a@x.com");
}
