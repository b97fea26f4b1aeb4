use std::sync::Arc;

use oauth_rbac::config::AppConfig;
use oauth_rbac::dto::{
    EmailLoginRequest, EmailRegisterRequest, GoogleTokenError, GoogleTokenResponse,
    GoogleUserResult,
};
use oauth_rbac::entities::{Role, User, UserSession};
use oauth_rbac::error::{AppError, DbError};
use oauth_rbac::jwt_maker::{JwtMaker, RefreshTokenClaims};
use oauth_rbac::password::{hash_password, verify_password};
use oauth_rbac::policy::PolicyChange;
use oauth_rbac::services::oauth_svc::{
    classify_rejection, default_role, session_expiry, session_write, ExternalLogin, OauthService,
    ProviderReply, SessionWrite,
};
use oauth_rbac::flow::{Effect, Fresh, Step};
use oauth_rbac::usecases::auth::email_login::{EmailLogin, SessionRequest};
use oauth_rbac::usecases::auth::email_register::{
    register_with_password, registration_rows, EmailRegister,
};
use oauth_rbac::usecases::auth::get_google_auth_url::GetGoogleAuthUrl;
use oauth_rbac::usecases::auth::oauth2_login::Oauth2Login;
use oauth_rbac::usecases::auth::oauth2_logout::Oauth2Logout;
use oauth_rbac::usecases::auth::refresh_oauth_token::{
    session_or_error, RefreshOauthToken, RefreshPath, RefreshState,
};
use oauth_rbac::usecases::auth::seed_super_admin::SeedSuperAdmin;

type Svc = OauthService<(), (), (), ()>;
type Login = EmailLogin<(), (), (), ()>;
type Register = EmailRegister<(), ()>;
type Seed = SeedSuperAdmin<(), ()>;
type Logout = Oauth2Logout<(), (), (), (), ()>;
type Refresh = RefreshOauthToken<(), (), (), ()>;

const WEEK: i64 = 60 * 60 * 24 * 7;

fn config() -> AppConfig {
    AppConfig {
        app_name: "auth".to_string(),
        app_port: 8080,
        app_env: "local".to_string(),
        db_url: String::new(),
        redis_url: String::new(),
        jwt_secret: "test-signing-key".to_string(),
        allowed_origins: "http://localhost:3000".to_string(),
        google_client_id: "client-1".to_string(),
        google_client_secret: "client-key-1".to_string(),
        google_redirect_url: "http://localhost/callback".to_string(),
        super_key: "root-key".to_string(),
    }
}

fn service() -> Arc<Svc> {
    Arc::new(OauthService::new(
        Arc::new(config()),
        Arc::new(()),
        Arc::new(()),
        Arc::new(()),
        Arc::new(()),
    ))
}

fn login_use_case() -> Login {
    EmailLogin::new(
        Arc::new(()),
        Arc::new(JwtMaker::new("test-signing-key".to_string())),
        service(),
    )
}

fn refresh_use_case() -> Refresh {
    RefreshOauthToken::new(
        Arc::new(JwtMaker::new("test-signing-key".to_string())),
        Arc::new(()),
        service(),
    )
}

fn clock() -> i64 {
    std::time::SystemTime::now().duration_since(std::time::UNIX_EPOCH).unwrap().as_secs() as i64
}

fn not_found<T>() -> Result<T, AppError> {
    Err(AppError::SqlxError(DbError::RowNotFound))
}

fn db_down<T>() -> Result<T, AppError> {
    Err(AppError::SqlxError(DbError::Other("connection refused".to_string())))
}

fn stored_session(refresh: &str, expires_at: Option<i64>) -> UserSession {
    UserSession::create(
        "s-1".to_string(),
        "u-1".to_string(),
        "old-access".to_string(),
        refresh.to_string(),
        expires_at,
        1_000,
    )
}

fn user_with_password(email: &str, password: &str) -> User {
    let hash = hash_password(password.as_bytes()).unwrap();
    User::create("u-1".to_string(), email.to_string(), Some(hash), 1_000)
}

fn google_tokens() -> GoogleTokenResponse {
    GoogleTokenResponse {
        id_token: "id-1".to_string(),
        access_token: "access-1".to_string(),
        token_type: "Bearer".to_string(),
        expires_in: 3599,
        refresh_token: "refresh-1".to_string(),
        scope: "openid".to_string(),
    }
}

fn google_profile() -> GoogleUserResult {
    GoogleUserResult {
        sub: "google-sub-9".to_string(),
        name: "Ada L".to_string(),
        email: "ada@x.com".to_string(),
        picture: Some("http://pic".to_string()),
        given_name: None,
        family_name: None,
        email_verified: true,
    }
}

fn refusal(code: &str) -> GoogleTokenError {
    GoogleTokenError { error: code.to_string(), error_description: "why".to_string() }
}

fn fresh(now: i64) -> Fresh {
    Fresh {
        now,
        user_id: "u-new".to_string(),
        link_id: "l-new".to_string(),
        role_id: "r-new".to_string(),
        session_id: "s-new".to_string(),
    }
}

// Registration with email and password.

#[test]
fn registration_builds_user_link_and_membership() {
    let req = EmailRegisterRequest { email: "a@x.com".to_string(), password: "longenough1".to_string() };
    let role = Role::create("role-d".to_string(), "member".to_string(), true, 0);
    let rows = Register::registration(req, Ok(role), fresh(5_000)).unwrap();
    assert_eq!(rows.user.id, "u-new");
    assert_eq!(rows.user.email, "a@x.com");
    assert_eq!(rows.user.fullname.as_deref(), Some("a"));
    assert_eq!(rows.user.created_at, 5_000);
    assert!(verify_password(rows.user.password_hash.as_deref().unwrap(), b"longenough1").is_ok());
    assert_eq!((rows.link.id.as_str(), rows.link.provider.as_str()), ("l-new", "email"));
    assert_eq!((rows.link.user_id.as_str(), rows.link.provider_user_id.as_str()), ("u-new", "u-new"));
    assert_eq!((rows.membership.user_id.as_str(), rows.membership.role_id.as_str()), ("u-new", "role-d"));
}

#[test]
fn registration_without_default_role_is_a_misconfiguration() {
    let req = EmailRegisterRequest { email: "a@x.com".to_string(), password: "longenough1".to_string() };
    assert!(matches!(
        Register::registration(req, not_found(), fresh(0)),
        Err(AppError::ProcessError(m)) if m == "Default Role is not Found please contact Administrator!"
    ));
}

#[test]
fn register_hands_on_other_failures_of_the_role_lookup() {
    let req = EmailRegisterRequest { email: "a@x.com".to_string(), password: "longenough1".to_string() };
    let out = Register::registration(req, db_down(), fresh(0));
    assert!(matches!(out, Err(AppError::ProcessError(m)) if m == "Database Error: connection refused"));
}

#[test]
fn registration_rows_hash_the_password() {
    let rows = register_with_password(
        "bob@x.com".to_string(),
        "correct horse",
        "role-1",
        "u-7".to_string(),
        "l-7".to_string(),
        42,
    )
    .unwrap();
    let hash = rows.user.password_hash.unwrap();
    assert_ne!(hash, "correct horse");
    assert!(verify_password(&hash, b"correct horse").is_ok());
    assert_eq!(rows.membership.created_at, 42);
    assert_eq!(rows.membership.updated_at, 42);
}

#[test]
fn stored_hash_verifies_the_password_and_no_other() {
    let rows = register_with_password(
        "bob@x.com".to_string(),
        "longenough1",
        "role-1",
        "u-7".to_string(),
        "l-7".to_string(),
        42,
    )
    .unwrap();
    let hash = rows.user.password_hash.unwrap();
    assert_ne!(hash, "longenough1");
    assert!(hash.starts_with("$argon2"));
    assert!(verify_password(&hash, b"longenough1").is_ok());
    assert!(verify_password(&hash, b"longenough2").is_err());
    assert!(verify_password(&hash, b"").is_err());
}

#[test]
fn rows_store_the_hash_that_hashing_gave() {
    let rows = registration_rows(
        Ok("$argon2id$stub".to_string()),
        "bob@x.com".to_string(),
        "role-1",
        "u-7".to_string(),
        "l-7".to_string(),
        42,
    )
    .unwrap();
    assert_eq!(rows.user.password_hash.as_deref(), Some("$argon2id$stub"));
    assert_eq!(rows.user.id, "u-7");
    assert_eq!(rows.user.email, "bob@x.com");
    assert_eq!((rows.user.created_at, rows.user.updated_at), (42, 42));
    assert!(rows.user.is_active);
    assert_eq!(rows.link.id, "l-7");
    assert_eq!(rows.link.user_id, "u-7");
    assert_eq!(rows.link.provider, "email");
    assert_eq!(rows.link.provider_user_id, "u-7");
    assert_eq!(rows.membership.user_id, "u-7");
    assert_eq!(rows.membership.role_id, "role-1");
}

#[test]
fn failed_hashing_is_a_processing_failure_and_builds_no_row() {
    let out = registration_rows(
        Err(argon2::password_hash::Error::Password),
        "bob@x.com".to_string(),
        "role-1",
        "u-7".to_string(),
        "l-7".to_string(),
        42,
    );
    assert!(matches!(out, Err(AppError::ProcessError(_))));
}

#[test]
fn seeded_administrator_can_sign_in_with_the_password() {
    let req = EmailRegisterRequest { email: "root@x.com".to_string(), password: "longenough1".to_string() };
    let seed = Seed::seed(req, not_found(), fresh(7)).unwrap();
    let hash = seed.rows.user.password_hash.clone().unwrap();
    assert!(verify_password(&hash, b"longenough1").is_ok());
    assert!(verify_password(&hash, b"longenough0").is_err());
}

// Sign-in with email and password.

#[test]
fn login_with_wrong_password_is_invalid_credentials_not_unknown_user() {
    let uc = login_use_case();
    let req = EmailLoginRequest { email: "a@x.com".to_string(), password: "wrong-password".to_string() };
    let out = uc.sign_in(&req, Ok(user_with_password("a@x.com", "longenough1")), clock());
    match out {
        Err(AppError::UnauthorizedError(m)) => {
            assert_eq!(m, "Invalid Credentials");
            assert_eq!(AppError::UnauthorizedError(m).into_response().0, 401);
        }
        other => panic!("expected invalid credentials, got {:?}", other),
    }
}

#[test]
fn login_with_unknown_email_is_unknown_user() {
    let uc = login_use_case();
    let req = EmailLoginRequest { email: "ghost@x.com".to_string(), password: "whatever".to_string() };
    let out = uc.sign_in(&req, not_found(), clock());
    assert!(matches!(out, Err(AppError::UserNotExist(m)) if m == "ghost@x.com"));
}

#[test]
fn login_hands_on_other_failures_of_the_lookup() {
    let uc = login_use_case();
    let req = EmailLoginRequest { email: "a@x.com".to_string(), password: "whatever".to_string() };
    let out = uc.sign_in(&req, db_down(), clock());
    assert!(matches!(out, Err(AppError::ProcessError(m)) if m == "Database Error: connection refused"));
}

#[test]
fn login_mints_tokens_bound_to_the_user() {
    let uc = login_use_case();
    let req = EmailLoginRequest { email: "a@x.com".to_string(), password: "longenough1".to_string() };
    let SessionRequest { user_id, access_token, refresh_token, ttl_seconds } =
        uc.sign_in(&req, Ok(user_with_password("a@x.com", "longenough1")), clock()).unwrap();
    assert_eq!(user_id, "u-1");
    assert_eq!(ttl_seconds, Some(WEEK));
    let maker = JwtMaker::new("test-signing-key".to_string());
    let access = maker.verify_access_token(&access_token).unwrap();
    assert_eq!(access.sub, "u-1");
    assert_eq!(access.exp - access.iat, 3600);
    let refresh = maker.verify_refresh_token(&refresh_token).unwrap();
    assert_eq!(refresh.sub, "u-1");
    assert_eq!(refresh.exp - refresh.iat, WEEK as usize);
}

#[test]
fn login_tokens_are_the_makers_tokens_for_the_user_at_that_instant() {
    let uc = login_use_case();
    let req = EmailLoginRequest { email: "a@x.com".to_string(), password: "longenough1".to_string() };
    let now = clock();
    let session = uc.sign_in(&req, Ok(user_with_password("a@x.com", "longenough1")), now).unwrap();
    let maker = JwtMaker::new("test-signing-key".to_string());
    assert_eq!(session.access_token, maker.make_token_at("u-1".to_string(), 1, now).unwrap());
    assert_eq!(session.refresh_token, maker.make_refresh_token_at("u-1".to_string(), 168, now).unwrap());
    assert_ne!(session.access_token, session.refresh_token);
    let access = maker.verify_access_token(&session.access_token).unwrap();
    assert_eq!((access.sub.as_str(), access.iss.as_str()), ("u-1", "API_NAME"));
    assert_eq!((access.iat as i64, access.exp as i64), (now, now + 3_600));
    let refresh = maker.verify_refresh_token(&session.refresh_token).unwrap();
    assert_eq!((refresh.sub.as_str(), refresh.iss.as_str()), ("u-1", "API_NAME"));
    assert_eq!((refresh.iat as i64, refresh.exp as i64), (now, now + 604_800));
}

#[test]
fn login_at_an_instant_that_cannot_be_written_is_a_token_error() {
    let uc = login_use_case();
    let req = EmailLoginRequest { email: "a@x.com".to_string(), password: "longenough1".to_string() };
    let out = uc.sign_in(&req, Ok(user_with_password("a@x.com", "longenough1")), -5);
    assert!(matches!(out, Err(AppError::JWTError(_))));
    let out = uc.sign_in(&req, Ok(user_with_password("a@x.com", "longenough1")), i64::MAX);
    assert!(matches!(out, Err(AppError::JWTError(_))));
}

#[test]
fn account_without_password_accepts_no_password() {
    let user = User::create("u-2".to_string(), "g@x.com".to_string(), None, 0);
    assert!(matches!(
        Login::check_password(&user, ""),
        Err(AppError::UnauthorizedError(m)) if m == "Invalid Credentials"
    ));
    assert!(Login::check_password(&user, "anything").is_err());
}

#[test]
fn known_user_passes_the_user_through() {
    let user = User::create("u-2".to_string(), "g@x.com".to_string(), None, 0);
    assert_eq!(Login::known_user("g@x.com", Ok(user)).unwrap().id, "u-2");
}

// Session reconciliation.

#[test]
fn reconcile_creates_a_session_where_there_is_none() {
    let write = Svc::get_or_create_session(not_found(), "u-1", "acc", "ref", Some(WEEK), "s-new".to_string(), 10_000);
    match write {
        SessionWrite::Create(s) => {
            assert_eq!(s.id, "s-new");
            assert_eq!(s.user_id, "u-1");
            assert_eq!(s.access_token, "acc");
            assert_eq!(s.refresh_token, "ref");
            assert_eq!(s.expires_at, Some(10_000 + WEEK));
            assert_eq!(s.created_at, 10_000);
        }
        other => panic!("expected a creation, got {:?}", other),
    }
}

#[test]
fn reconcile_updates_on_another_refresh_token() {
    let write = Svc::get_or_create_session(
        Ok(stored_session("old-ref", Some(5))),
        "u-1",
        "acc",
        "new-ref",
        Some(WEEK),
        "unused".to_string(),
        10_000,
    );
    match write {
        SessionWrite::Update(s) => {
            assert_eq!(s.id, "s-1");
            assert_eq!(s.user_id, "u-1");
            assert_eq!(s.access_token, "acc");
            assert_eq!(s.refresh_token, "new-ref");
            assert_eq!(s.expires_at, Some(10_000 + WEEK));
            assert_eq!(s.created_at, 1_000);
        }
        other => panic!("expected an update, got {:?}", other),
    }
}

#[test]
fn reconcile_keeps_the_session_on_the_same_refresh_token() {
    let write = Svc::get_or_create_session(
        Ok(stored_session("same-ref", Some(5))),
        "u-1",
        "new-access",
        "same-ref",
        Some(WEEK),
        "unused".to_string(),
        10_000,
    );
    match write {
        SessionWrite::Keep(s) => {
            assert_eq!(s.access_token, "old-access");
            assert_eq!(s.expires_at, Some(5));
        }
        other => panic!("expected no write, got {:?}", other),
    }
}

#[test]
fn reconcile_twice_with_the_same_tokens_writes_once() {
    let mut rows: Vec<UserSession> = Vec::new();
    for round in 0..3 {
        let found = rows.iter().find(|s| s.user_id == "u-1").cloned().ok_or(AppError::ResourceNotFound);
        let write = Svc::get_or_create_session(found, "u-1", "acc", "ref", Some(WEEK), format!("s-{round}"), 100 + round);
        match write {
            SessionWrite::Create(s) => {
                assert_eq!(round, 0);
                rows.push(s);
            }
            SessionWrite::Update(_) => panic!("no update is due"),
            SessionWrite::Keep(s) => {
                assert!(round > 0);
                assert_eq!(s.id, "s-0");
            }
        }
    }
    assert_eq!(rows.len(), 1);
}

#[test]
fn reconcile_leaves_one_session_per_user() {
    let mut rows: Vec<UserSession> = Vec::new();
    for (n, (user, refresh)) in [("u-1", "a"), ("u-2", "b"), ("u-1", "c"), ("u-1", "c"), ("u-2", "d")].iter().enumerate() {
        let found = rows.iter().find(|s| s.user_id == *user).cloned().ok_or(AppError::ResourceNotFound);
        match Svc::get_or_create_session(found, user, "acc", refresh, None, format!("s-{n}"), 0) {
            SessionWrite::Create(s) => rows.push(s),
            SessionWrite::Update(s) => {
                let at = rows.iter().position(|r| r.user_id == s.user_id).unwrap();
                rows[at] = s;
            }
            SessionWrite::Keep(_) => {}
        }
    }
    assert_eq!(rows.len(), 2);
    assert_eq!(rows[0].refresh_token, "c");
    assert_eq!(rows[1].refresh_token, "d");
    assert_eq!(rows[0].expires_at, None);
}

#[test]
fn session_write_is_none_where_the_session_stands() {
    let kept = session_write(Ok(stored_session("r", None)), "u-1", "a", "r", None, "n".to_string(), 0);
    assert!(kept.is_none());
    let made = session_write(not_found(), "u-1", "a", "r", None, "n".to_string(), 0);
    assert!(matches!(made, Some(SessionWrite::Create(_))));
    let changed = session_write(Ok(stored_session("r", None)), "u-1", "a", "r2", None, "n".to_string(), 0);
    assert!(matches!(changed, Some(SessionWrite::Update(_))));
}

#[test]
fn session_write_names_the_stored_session() {
    let write = SessionWrite::Update(stored_session("r", None));
    assert_eq!(write.session().id, "s-1");
}

#[test]
fn session_end_is_now_plus_lifetime() {
    assert_eq!(session_expiry(Some(WEEK), 1_700_000_000), Some(1_700_604_800));
    assert_eq!(session_expiry(Some(0), 7), Some(7));
    assert_eq!(session_expiry(None, 7), None);
}

#[test]
fn session_end_that_cannot_be_written_is_now() {
    assert_eq!(session_expiry(Some(i64::MAX), 1), Some(1));
    assert_eq!(session_expiry(Some(i64::MIN), -1), Some(-1));
    assert_eq!(session_expiry(Some(i64::MAX), 0), Some(i64::MAX));
}

// Sign-in with the external provider.

#[test]
fn token_request_carries_code_and_client() {
    let form = service().token_request("code-77");
    let expected = [
        ("code", "code-77"),
        ("client_id", "client-1"),
        ("client_secret", "client-key-1"),
        ("redirect_uri", "http://localhost/callback"),
        ("grant_type", "authorization_code"),
    ];
    assert_eq!(form.len(), expected.len());
    for ((k, v), (ek, ev)) in form.iter().zip(expected.iter()) {
        assert_eq!((k.as_str(), v.as_str()), (*ek, *ev));
    }
}

#[test]
fn refresh_request_carries_token_and_client() {
    let body = service().refresh_request("refresh-5");
    let expected = [
        ("client_id", "client-1"),
        ("client_secret", "client-key-1"),
        ("refresh_token", "refresh-5"),
        ("grant_type", "refresh_token"),
    ];
    assert_eq!(body.len(), expected.len());
    for ((k, v), (ek, ev)) in body.iter().zip(expected.iter()) {
        assert_eq!((k.as_str(), v.as_str()), (*ek, *ev));
    }
}

#[test]
fn provider_addresses_are_exact() {
    assert_eq!(
        Svc::userinfo_url("tok"),
        "https://www.googleapis.com/oauth2/v3/userinfo?alt=json&access_token=tok"
    );
    assert_eq!(Svc::bearer("id"), "Bearer id");
    assert_eq!(Svc::revoke_url("tok"), "https://oauth2.googleapis.com/revoke?token=tok");
}

#[test]
fn invalid_grant_is_unauthorized() {
    assert!(matches!(classify_rejection(&refusal("invalid_grant")), AppError::Unauthorized));
    assert!(matches!(
        Svc::google_login(ProviderReply::Rejected(refusal("invalid_grant"))),
        Err(AppError::Unauthorized)
    ));
}

#[test]
fn any_other_refusal_is_a_provider_error_with_its_code() {
    for code in ["invalid_client", "Invalid_Grant", "", "invalid_grant "] {
        assert!(matches!(
            Svc::google_login(ProviderReply::Rejected(refusal(code))),
            Err(AppError::Oauth2ProviderError(m)) if m == code
        ));
    }
    assert!(matches!(
        Svc::fetch_google_user(ProviderReply::Rejected(refusal("access_denied"))),
        Err(AppError::Oauth2ProviderError(m)) if m == "access_denied"
    ));
    assert!(matches!(
        Svc::google_refresh_token(ProviderReply::Rejected(refusal("server_error"))),
        Err(AppError::Oauth2ProviderError(m)) if m == "server_error"
    ));
    assert!(matches!(
        classify_rejection(&refusal("invalid_client")),
        AppError::Oauth2ProviderError(m) if m == "invalid_client"
    ));
}

#[test]
fn refusal_of_the_provider_is_surfaced_as_bad_gateway() {
    let (status, body) = AppError::Oauth2ProviderError("invalid_client".to_string()).into_response();
    assert_eq!(status, 502);
    assert_eq!(body.error_code, "oauth2_provider_error");
    assert_eq!(body.message, "Oauth2 provider refused: invalid_client");
    assert!(!body.success);
    assert_eq!(
        AppError::Oauth2ProviderError("invalid_client".to_string()).to_string(),
        "Oauth2 Provider Error: invalid_client"
    );
}

#[test]
fn unreachable_provider_fails_to_authorize() {
    assert!(matches!(
        Svc::google_login(ProviderReply::Unreachable("timeout".to_string())),
        Err(AppError::Oauth2FailedToAuthorize)
    ));
    assert!(matches!(
        Svc::fetch_google_user(ProviderReply::Unreachable("timeout".to_string())),
        Err(AppError::Oauth2FailedToAuthorize)
    ));
    assert!(matches!(
        Svc::google_refresh_token(ProviderReply::Unreachable("timeout".to_string())),
        Err(AppError::ProcessError(m)) if m == "timeout"
    ));
}

#[test]
fn provider_success_hands_the_body_on() {
    let tokens = Svc::google_login(ProviderReply::Success(google_tokens())).unwrap();
    assert_eq!(tokens.id_token, "id-1");
    let profile = Svc::fetch_google_user(ProviderReply::Success(google_profile())).unwrap();
    assert_eq!(profile.sub, "google-sub-9");
    let again = Svc::google_refresh_token(ProviderReply::Success(google_tokens())).unwrap();
    assert_eq!(again.refresh_token, "refresh-1");
}

#[test]
fn revocation_hands_on_transport_failure_only() {
    assert!(Svc::google_revoke_token(Ok(())).is_ok());
    assert!(matches!(
        Svc::google_revoke_token(Err("reset".to_string())),
        Err(AppError::ProcessError(m)) if m == "reset"
    ));
}

#[test]
fn callback_for_existing_user_skips_registration() {
    let existing = User::create("u-9".to_string(), "ada@x.com".to_string(), None, 0);
    match Svc::login_path(Ok(existing)) {
        ExternalLogin::Existing(u) => {
            let write = Svc::get_or_create_session(db_down(), &u.id, "access-1", "refresh-1", Some(WEEK), "s".to_string(), 0);
            assert!(matches!(write, SessionWrite::Create(s) if s.user_id == "u-9"));
        }
        ExternalLogin::Register => panic!("an existing user must not be registered"),
    }
}

#[test]
fn callback_for_unknown_user_registers() {
    assert!(matches!(Svc::login_path(not_found()), ExternalLogin::Register));
    assert!(matches!(Svc::login_path(db_down()), ExternalLogin::Register));
}

#[test]
fn external_registration_links_the_provider_subject() {
    let role = Role::create("role-d".to_string(), "member".to_string(), true, 0);
    let rows = Svc::register_user_from_google(&google_profile(), &role, "u-3".to_string(), "l-3".to_string(), 77);
    assert_eq!(rows.user.id, "u-3");
    assert_eq!(rows.user.email, "ada@x.com");
    assert_eq!(rows.user.fullname.as_deref(), Some("Ada L"));
    assert_eq!(rows.user.avatar_url.as_deref(), Some("http://pic"));
    assert_eq!(rows.user.password_hash, None);
    assert!(rows.user.is_active);
    assert_eq!(rows.link.provider, "google");
    assert_eq!(rows.link.provider_user_id, "google-sub-9");
    assert_eq!(rows.link.user_id, "u-3");
    assert_eq!(rows.membership.role_id, "role-d");
    assert_eq!(rows.membership.user_id, "u-3");
    assert_eq!(rows.membership.created_at, 77);
}

#[test]
fn default_role_lookup_maps_failures() {
    assert!(matches!(
        default_role(not_found()),
        Err(AppError::ProcessError(m)) if m == "Default Role is not Found please contact Administrator!"
    ));
    assert!(matches!(
        default_role(Err(AppError::Unauthorized)),
        Err(AppError::ProcessError(m)) if m == "Unauthorized"
    ));
    let role = Role::create("role-d".to_string(), "member".to_string(), true, 0);
    assert_eq!(default_role(Ok(role)).unwrap().id, "role-d");
}

#[test]
fn external_login_hands_identity_token_as_access_token() {
    let pair = Oauth2Login::<(), (), (), ()>::tokens_of(google_tokens());
    assert_eq!(pair, ("id-1".to_string(), "refresh-1".to_string()));
}

#[test]
fn auth_url_exists_for_google_only() {
    let uc = GetGoogleAuthUrl::new("client-1".to_string(), "http://localhost/cb".to_string());
    assert_eq!(uc.execute_for("google").unwrap(), uc.execute().unwrap());
    assert!(matches!(uc.execute_for("email"), Err(AppError::Unauthorized)));
    assert!(matches!(uc.execute_for(""), Err(AppError::Unauthorized)));
}

#[test]
fn auth_url_is_exact() {
    let uc = GetGoogleAuthUrl::new("client-1".to_string(), "http://localhost/cb".to_string());
    assert_eq!(
        uc.execute().unwrap(),
        "https://accounts.google.com/o/oauth2/v2/auth?client_id=client-1&redirect_uri=http://localhost/cb&scope=https://www.googleapis.com/auth/userinfo.profile https://www.googleapis.com/auth/userinfo.email&prompt=consent&response_type=code&access_type=offline"
    );
}

// Token refresh.

#[test]
fn refresh_is_refused_one_second_after_expiry() {
    let now = 1_700_000_000;
    let out = Refresh::live_session(Ok(stored_session("r", Some(now - 1))), now);
    assert!(matches!(out, Err(AppError::RefreshTokenExpired)));
}

#[test]
fn refresh_is_allowed_until_the_end_and_without_an_end() {
    let now = 1_700_000_000;
    assert!(Refresh::live_session(Ok(stored_session("r", Some(now))), now).is_ok());
    assert!(Refresh::live_session(Ok(stored_session("r", Some(now + 1))), now).is_ok());
    assert!(Refresh::live_session(Ok(stored_session("r", None)), now).is_ok());
}

#[test]
fn refresh_without_session_is_an_invalid_session() {
    assert!(matches!(
        Refresh::live_session(not_found(), 0),
        Err(AppError::UnauthorizedError(m)) if m == "Invalid Session, try to relogin"
    ));
    assert!(matches!(
        Refresh::live_session(db_down(), 0),
        Err(AppError::ProcessError(m)) if m == "Database Error: connection refused"
    ));
    assert!(matches!(
        session_or_error(not_found()),
        Err(AppError::UnauthorizedError(m)) if m == "Invalid Session, try to relogin"
    ));
}

#[test]
fn refresh_path_follows_the_provider_tag() {
    assert_eq!(Refresh::path("google").unwrap(), RefreshPath::Google);
    assert_eq!(Refresh::path("email").unwrap(), RefreshPath::Email);
    assert!(matches!(Refresh::path("facebook"), Err(AppError::InvalidOauthProvider)));
    assert!(matches!(Refresh::path(""), Err(AppError::InvalidOauthProvider)));
}

#[test]
fn provider_refresh_updates_the_session() {
    let out = Refresh::google_refresh_token(stored_session("old", Some(5)), google_tokens(), 1_000_000);
    assert_eq!(out.session.id, "s-1");
    assert_eq!(out.session.access_token, "access-1");
    assert_eq!(out.session.refresh_token, "refresh-1");
    assert_eq!(out.session.expires_at, Some(1_000_000 + WEEK));
    assert_eq!(out.access_token, "id-1");
    assert_eq!(out.refresh_token, "refresh-1");
}

#[test]
fn own_refresh_mints_a_new_pair() {
    let uc = refresh_use_case();
    let maker = JwtMaker::new("test-signing-key".to_string());
    let token = maker.make_refresh_token("u-1".to_string(), 168).unwrap();
    let claims = uc.email_claims(&token).unwrap();
    assert_eq!(claims.sub, "u-1");
    let now = clock();
    let out = uc.email_refresh_token(&claims, Ok(stored_session("old", Some(now + 5))), now).unwrap();
    assert_eq!(out.session.access_token, out.access_token);
    assert_eq!(out.session.refresh_token, out.refresh_token);
    assert_eq!(out.session.expires_at, Some(now + WEEK));
    assert_eq!(maker.verify_access_token(&out.access_token).unwrap().sub, "u-1");
    assert_eq!(maker.verify_refresh_token(&out.refresh_token).unwrap().sub, "u-1");
}

#[test]
fn own_refresh_of_an_expired_session_mints_nothing() {
    let uc = refresh_use_case();
    let maker = JwtMaker::new("test-signing-key".to_string());
    let claims = uc.email_claims(&maker.make_refresh_token("u-1".to_string(), 168).unwrap()).unwrap();
    let out = uc.email_refresh_token(&claims, Ok(stored_session("old", Some(999_999))), 1_000_000);
    assert!(matches!(out, Err(AppError::RefreshTokenExpired)));
}

#[test]
fn tampered_or_foreign_refresh_token_counts_as_expired() {
    let uc = refresh_use_case();
    assert!(matches!(uc.email_claims("not.a.token"), Err(AppError::RefreshTokenExpired)));
    let foreign = JwtMaker::new("another-key".to_string()).make_refresh_token("u-1".to_string(), 168).unwrap();
    assert!(matches!(uc.email_claims(&foreign), Err(AppError::RefreshTokenExpired)));
    let old = JwtMaker::new("test-signing-key".to_string()).make_refresh_token_at("u-1".to_string(), 1, 1_000).unwrap();
    assert!(matches!(uc.email_claims(&old), Err(AppError::RefreshTokenExpired)));
}

#[test]
fn rejected_refresh_token_counts_as_expired_whatever_the_reason() {
    let rejected = Refresh::counted_expired(Err(AppError::JWTError("InvalidSignature".to_string())));
    assert!(matches!(rejected, Err(AppError::RefreshTokenExpired)));
    let lost = Refresh::counted_expired(Err(AppError::InvalidToken));
    assert!(matches!(lost, Err(AppError::RefreshTokenExpired)));
}

#[test]
fn accepted_refresh_token_keeps_its_claims() {
    let claims = RefreshTokenClaims {
        exp: 900,
        iat: 300,
        sub: "u-3".to_string(),
        iss: "API_NAME".to_string(),
    };
    let kept = Refresh::counted_expired(Ok(claims)).unwrap();
    assert_eq!(kept.exp, 900);
    assert_eq!(kept.iat, 300);
    assert_eq!(kept.sub, "u-3");
    assert_eq!(kept.iss, "API_NAME");
}

#[test]
fn refresh_claims_are_those_the_token_carries() {
    let uc = refresh_use_case();
    let maker = JwtMaker::new("test-signing-key".to_string());
    let now = clock();
    let token = maker.make_refresh_token_at("u-1".to_string(), 2, now).unwrap();
    let claims = uc.email_claims(&token).unwrap();
    assert_eq!(claims.sub, "u-1");
    assert_eq!(claims.iss, "API_NAME");
    assert_eq!(claims.iat as i64, now);
    assert_eq!(claims.exp as i64, now + 7_200);
}

#[test]
fn own_refresh_hands_out_the_makers_pair_for_the_subject() {
    let uc = refresh_use_case();
    let maker = JwtMaker::new("test-signing-key".to_string());
    let now = clock();
    let claims = uc.email_claims(&maker.make_refresh_token_at("u-1".to_string(), 168, now - 10).unwrap()).unwrap();
    let out = uc.email_refresh_token(&claims, Ok(stored_session("old", Some(now + 5))), now).unwrap();
    assert_eq!(out.access_token, maker.make_token_at("u-1".to_string(), 1, now).unwrap());
    assert_eq!(out.refresh_token, maker.make_refresh_token_at("u-1".to_string(), 168, now).unwrap());
    let access = maker.verify_access_token(&out.access_token).unwrap();
    assert_eq!((access.sub.as_str(), access.exp - access.iat), ("u-1", 3_600));
    let refresh = maker.verify_refresh_token(&out.refresh_token).unwrap();
    assert_eq!((refresh.sub.as_str(), refresh.exp - refresh.iat), ("u-1", 604_800));
    assert_eq!(out.session.access_token, out.access_token);
    assert_eq!(out.session.refresh_token, out.refresh_token);
    assert_eq!(out.session.expires_at, Some(now + WEEK));
}

#[test]
fn own_refresh_at_an_instant_that_cannot_be_written_is_a_token_error() {
    let uc = refresh_use_case();
    let claims = RefreshTokenClaims { exp: 9, iat: 1, sub: "u-1".to_string(), iss: "API_NAME".to_string() };
    let out = uc.email_refresh_token(&claims, Ok(stored_session("old", None)), -1);
    assert!(matches!(out, Err(AppError::JWTError(_))));
}

#[test]
fn refresh_with_a_rejected_token_ends_before_any_lookup() {
    let uc = refresh_use_case();
    let foreign = JwtMaker::new("another-key".to_string()).make_refresh_token("u-1".to_string(), 168).unwrap();
    let old = JwtMaker::new("test-signing-key".to_string()).make_refresh_token_at("u-1".to_string(), 1, 1_000).unwrap();
    let good = JwtMaker::new("test-signing-key".to_string()).make_refresh_token("u-1".to_string(), 168).unwrap();
    let mut tampered = good.clone();
    tampered.insert(good.find('.').unwrap() + 5, 'A');
    for token in ["", "not.a.token", "a.b", foreign.as_str(), old.as_str(), tampered.as_str()] {
        match uc.execute("email", token) {
            Step::Done(Err(AppError::RefreshTokenExpired)) => {}
            other => panic!("expected an expired token for {token:?}, got {other:?}"),
        }
    }
}

#[test]
fn refresh_goes_on_with_the_claims_the_token_carries() {
    let uc = refresh_use_case();
    let now = clock();
    let token = JwtMaker::new("test-signing-key".to_string()).make_refresh_token_at("u-77".to_string(), 2, now).unwrap();
    match uc.execute("email", &token) {
        Step::Next(RefreshState::AwaitingSessionOfSubject { claims }, Effect::FindSessionOfUser(id)) => {
            assert_eq!(id, "u-77");
            assert_eq!(claims.sub, "u-77");
            assert_eq!(claims.iss, "API_NAME");
            assert_eq!((claims.iat as i64, claims.exp as i64), (now, now + 7_200));
        }
        other => panic!("expected the lookup of the subject's session, got {other:?}"),
    }
}

// Sign-out.

#[test]
fn logout_with_google_revokes_the_access_token() {
    let out = Logout::revocation("google", Ok(stored_session("r", None)));
    assert_eq!(out.unwrap(), Some("old-access".to_string()));
}

#[test]
fn logout_with_email_revokes_nothing() {
    assert_eq!(Logout::revocation("email", Ok(stored_session("r", None))).unwrap(), None);
}

#[test]
fn logout_refuses_unknown_provider_and_missing_session() {
    assert!(matches!(
        Logout::revocation("github", Ok(stored_session("r", None))),
        Err(AppError::InvalidOauthProvider)
    ));
    assert!(matches!(Logout::revocation("google", not_found()), Err(AppError::Unauthorized)));
    assert!(matches!(
        Logout::revocation("google", db_down()),
        Err(AppError::SqlxError(DbError::Other(m))) if m == "connection refused"
    ));
}

// Seeding the first administrator.

#[test]
fn seed_ends_as_a_failed_role_lookup_did() {
    let req = EmailRegisterRequest { email: "root@x.com".to_string(), password: "longenough1".to_string() };
    let out = Seed::seed(req, Err(AppError::Unauthorized), fresh(0));
    assert!(matches!(out, Err(AppError::Unauthorized)));
}

#[test]
fn seed_creates_the_reserved_role_with_a_wildcard_grant() {
    let req = EmailRegisterRequest { email: "root@x.com".to_string(), password: "longenough1".to_string() };
    let seed = Seed::seed(req, not_found(), Fresh { now: 50, user_id: "u-9".into(), link_id: "l-9".into(), role_id: "role-9".into(), session_id: String::new() }).unwrap();
    let role = seed.new_role.unwrap();
    assert_eq!(role.id, "role-9");
    assert_eq!(role.name, "super_admin");
    assert!(!role.is_default);
    assert!(matches!(
        seed.grant,
        Some(PolicyChange::Add(r)) if r == vec!["role-9".to_string(), "*".to_string(), "*".to_string()]
    ));
    assert_eq!(seed.rows.membership.role_id, "role-9");
    assert_eq!(seed.rows.link.provider, "email");
    assert_eq!(seed.rows.link.provider_user_id, "u-9");
    assert_eq!(seed.rows.user.email, "root@x.com");
}

#[test]
fn seed_uses_the_reserved_role_where_it_exists() {
    let req = EmailRegisterRequest { email: "root@x.com".to_string(), password: "longenough1".to_string() };
    let role = Role::create("role-1".to_string(), "super_admin".to_string(), false, 0);
    let seed = Seed::seed(req, Ok(role), Fresh { now: 50, user_id: "u-9".into(), link_id: "l-9".into(), role_id: "unused".into(), session_id: String::new() }).unwrap();
    assert!(seed.new_role.is_none());
    assert!(seed.grant.is_none());
    assert_eq!(seed.rows.membership.role_id, "role-1");
}

#[test]
fn seed_hands_on_other_failures_of_the_role_lookup() {
    let req = EmailRegisterRequest { email: "root@x.com".to_string(), password: "longenough1".to_string() };
    let out = Seed::seed(req, db_down(), fresh(0));
    assert!(matches!(out, Err(AppError::SqlxError(DbError::Other(m))) if m == "connection refused"));
}
