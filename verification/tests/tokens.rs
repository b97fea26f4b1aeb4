use std::sync::Arc;

use base64::Engine;

use oauth_rbac::config::AppConfig;
use oauth_rbac::error::AppError;
use oauth_rbac::google_jwt::{cached_keys, GoogleJwtMaker, Jwk, Jwks, JwksCache};
use oauth_rbac::jwt_maker::{expiry_of, Claims, JwtMaker, RefreshTokenClaims};
use oauth_rbac::password::{hash_password, hashing_failed, verify_password};

fn maker() -> JwtMaker {
    JwtMaker::new("a-signing-key".to_string())
}

fn settings() -> Arc<AppConfig> {
    Arc::new(AppConfig {
        app_name: "auth".to_string(),
        app_port: 8080,
        app_env: "local".to_string(),
        db_url: String::new(),
        redis_url: String::new(),
        jwt_secret: "a-signing-key".to_string(),
        allowed_origins: String::new(),
        google_client_id: "client-1".to_string(),
        google_client_secret: String::new(),
        google_redirect_url: String::new(),
        super_key: String::new(),
    })
}

fn key(kid: &str) -> Jwk {
    Jwk { kid: kid.to_string(), n: format!("n-of-{kid}"), e: "AQAB".to_string() }
}

fn unix_now() -> i64 {
    std::time::SystemTime::now()
        .duration_since(std::time::UNIX_EPOCH)
        .unwrap()
        .as_secs() as i64
}

fn token_with_header(kid: Option<&str>) -> String {
    let mut header = jsonwebtoken::Header::default();
    header.kid = kid.map(String::from);
    let mut claims = serde_json::Map::new();
    claims.insert("sub".to_string(), serde_json::Value::from("someone"));
    claims.insert("exp".to_string(), serde_json::Value::from(4_000_000_000u64));
    jsonwebtoken::encode(&header, &claims, &jsonwebtoken::EncodingKey::from_secret(b"k")).unwrap()
}

#[test]
fn hashed_password_verifies() {
    let hash = hash_password(b"longenough1").unwrap();
    assert!(hash.starts_with("$argon2"));
    assert!(verify_password(&hash, b"longenough1").is_ok());
}

#[test]
fn wrong_password_does_not_verify() {
    let hash = hash_password(b"longenough1").unwrap();
    assert!(verify_password(&hash, b"longenough2").is_err());
    assert!(verify_password(&hash, b"").is_err());
}

#[test]
fn same_password_hashes_differently_each_time() {
    assert_ne!(hash_password(b"pw").unwrap(), hash_password(b"pw").unwrap());
}

#[test]
fn text_that_is_no_hash_verifies_nothing() {
    assert!(verify_password("", b"").is_err());
    assert!(verify_password("plain", b"plain").is_err());
}

#[test]
fn hashing_failure_is_a_processing_failure() {
    let err = verify_password("plain", b"plain").unwrap_err();
    assert!(matches!(hashing_failed(&err), AppError::ProcessError(m) if !m.is_empty()));
}

#[test]
fn token_times_add_the_hours() {
    assert_eq!(expiry_of(1_700_000_000, 1), Some((1_700_003_600, 1_700_000_000)));
    assert_eq!(expiry_of(1_700_000_000, 168), Some((1_700_604_800, 1_700_000_000)));
    assert_eq!(expiry_of(0, 0), Some((0, 0)));
    assert_eq!(expiry_of(7_200, -1), Some((3_600, 7_200)));
}

#[test]
fn token_times_that_cannot_be_written_are_refused() {
    assert_eq!(expiry_of(-1, 1), None);
    assert_eq!(expiry_of(0, -1), None);
    assert_eq!(expiry_of(i64::MAX, 1), None);
    assert_eq!(expiry_of(0, i64::MAX), None);
    assert_eq!(expiry_of(0, i64::MAX / 3600 + 1), None);
}

#[test]
fn access_claims_name_issuer_and_subject() {
    let c = Claims::for_access("u-1".to_string(), 100, 2).unwrap();
    assert_eq!((c.exp, c.iat), (7_300, 100));
    assert_eq!(c.sub, "u-1");
    assert_eq!(c.iss, "API_NAME");
    assert_eq!(c.name, "");
    assert!(c.roles.is_empty() && c.scopes.is_empty());
    assert!(Claims::for_access("u-1".to_string(), -5, 2).is_none());
}

#[test]
fn refresh_claims_name_issuer_and_subject() {
    let c = RefreshTokenClaims::for_refresh("u-1".to_string(), 100, 168).unwrap();
    assert_eq!((c.exp, c.iat), (604_900, 100));
    assert_eq!(c.sub, "u-1");
    assert_eq!(c.iss, "API_NAME");
    assert!(RefreshTokenClaims::for_refresh("u-1".to_string(), i64::MAX, 1).is_none());
}

#[test]
fn access_token_round_trip() {
    let now = unix_now();
    let token = maker().make_token_at("u-42".to_string(), 1, now).unwrap();
    assert_eq!(token.split('.').count(), 3);
    let claims = maker().verify_access_token(&token).unwrap();
    assert_eq!(claims.sub, "u-42");
    assert_eq!(claims.iss, "API_NAME");
    assert_eq!(claims.iat as i64, now);
    assert_eq!(claims.exp as i64, now + 3600);
    assert_eq!(claims.name, "");
    assert!(claims.roles.is_empty());
    assert!(claims.scopes.is_empty());
}

#[test]
fn refresh_token_round_trip() {
    let token = maker().make_refresh_token("u-42".to_string(), 168).unwrap();
    let claims = maker().verify_refresh_token(&token).unwrap();
    assert_eq!(claims.sub, "u-42");
    assert_eq!(claims.exp - claims.iat, 604_800);
}

#[test]
fn signed_claims_are_what_was_given() {
    let claims = Claims {
        exp: 4_000_000_000,
        iat: 5,
        sub: "s".to_string(),
        iss: "i".to_string(),
        name: "n \"quoted\"".to_string(),
        roles: vec!["a".to_string(), "b".to_string()],
        scopes: vec!["x".to_string()],
    };
    let back = maker().verify_access_token(&maker().sign_access(&claims).unwrap()).unwrap();
    assert_eq!(back.exp, 4_000_000_000);
    assert_eq!(back.iat, 5);
    assert_eq!(back.sub, "s");
    assert_eq!(back.iss, "i");
    assert_eq!(back.name, "n \"quoted\"");
    assert_eq!(back.roles, vec!["a".to_string(), "b".to_string()]);
    assert_eq!(back.scopes, vec!["x".to_string()]);
}

#[test]
fn token_of_another_key_is_rejected() {
    let token = JwtMaker::new("other-key".to_string()).make_token("u".to_string(), 1).unwrap();
    assert!(matches!(maker().verify_access_token(&token), Err(AppError::JWTError(_))));
}

#[test]
fn tampered_token_is_rejected() {
    let token = maker().make_token("u".to_string(), 1).unwrap();
    let mut parts: Vec<String> = token.split('.').map(String::from).collect();
    parts[1] = parts[1].replacen(|c: char| c.is_ascii_alphanumeric(), "x", 1);
    let forged = parts.join(".");
    assert_ne!(forged, token);
    assert!(matches!(maker().verify_access_token(&forged), Err(AppError::JWTError(_))));
    assert!(matches!(maker().verify_access_token("garbage"), Err(AppError::JWTError(_))));
}

#[test]
fn expired_token_is_rejected() {
    let now = unix_now();
    let token = maker().make_token_at("u".to_string(), 1, now - 2 * 3600).unwrap();
    assert!(matches!(maker().verify_access_token(&token), Err(AppError::JWTError(_))));
}

#[test]
fn refresh_token_is_no_access_token() {
    let token = maker().make_refresh_token("u".to_string(), 1).unwrap();
    assert!(matches!(
        maker().verify_access_token(&token),
        Err(AppError::JWTError(m)) if m == "missing or malformed claim"
    ));
    assert!(maker().verify_refresh_token(&maker().make_token("u".to_string(), 1).unwrap()).is_ok());
}

#[test]
fn token_lifetime_out_of_range_is_refused() {
    assert!(matches!(
        maker().make_token_at("u".to_string(), i64::MAX, 0),
        Err(AppError::JWTError(m)) if m == "token lifetime out of range"
    ));
    assert!(matches!(
        maker().make_refresh_token_at("u".to_string(), 1, -1),
        Err(AppError::JWTError(_))
    ));
}

#[test]
fn key_id_is_read_from_the_header() {
    assert_eq!(GoogleJwtMaker::key_id(&token_with_header(Some("key-7"))).unwrap(), "key-7");
}

#[test]
fn token_without_key_id_is_invalid() {
    assert!(matches!(
        GoogleJwtMaker::key_id(&token_with_header(None)),
        Err(AppError::InvalidToken)
    ));
}

#[test]
fn unreadable_header_is_a_token_error() {
    assert!(matches!(GoogleJwtMaker::key_id("nonsense"), Err(AppError::JWTError(_))));
    assert!(matches!(GoogleJwtMaker::key_id("a.b.c"), Err(AppError::JWTError(_))));
}

#[test]
fn first_key_of_that_name_is_found() {
    let mut second = key("k2");
    second.n = "later".to_string();
    let set = Jwks { keys: vec![key("k1"), key("k2"), second] };
    assert_eq!(GoogleJwtMaker::find_jwk_by_kid(&set, "k2").unwrap().n, "n-of-k2");
    assert!(GoogleJwtMaker::find_jwk_by_kid(&set, "k3").is_none());
    assert!(GoogleJwtMaker::find_jwk_by_kid(&set, "K1").is_none());
    assert!(GoogleJwtMaker::find_jwk_by_kid(&Jwks { keys: Vec::new() }, "k1").is_none());
}

#[test]
fn token_naming_an_unknown_key_is_invalid() {
    let verifier = GoogleJwtMaker::new(settings());
    let set = Jwks { keys: vec![key("k1")] };
    assert!(matches!(
        verifier.verify_token(&token_with_header(Some("rotated")), &set),
        Err(AppError::InvalidToken)
    ));
    assert!(matches!(
        verifier.verify_token(&token_with_header(None), &set),
        Err(AppError::InvalidToken)
    ));
    assert!(matches!(verifier.verify_token("nonsense", &set), Err(AppError::JWTError(_))));
}

#[test]
fn token_not_signed_with_the_named_key_is_rejected() {
    let verifier = GoogleJwtMaker::new(settings());
    let set = Jwks {
        keys: vec![Jwk { kid: "k1".to_string(), n: "AQAB".to_string(), e: "AQAB".to_string() }],
    };
    assert!(matches!(
        verifier.verify_token(&token_with_header(Some("k1")), &set),
        Err(AppError::JWTError(_))
    ));
}

#[test]
fn cache_entry_lives_one_hour() {
    let entry = JwksCache::filled(Jwks { keys: vec![key("k1")] }, 10_000);
    assert_eq!(entry.expires_at, 13_600);
    assert!(entry.is_fresh(10_000));
    assert!(entry.is_fresh(13_599));
    assert!(!entry.is_fresh(13_600));
    assert!(!entry.is_fresh(20_000));
    assert_eq!(JwksCache::filled(Jwks { keys: Vec::new() }, i64::MAX).expires_at, i64::MAX);
}

#[test]
fn cached_keys_are_used_while_fresh() {
    let entry = JwksCache::filled(Jwks { keys: vec![key("k1")] }, 10_000);
    assert_eq!(cached_keys(Some(entry.clone()), 12_000).unwrap().keys[0].kid, "k1");
    assert!(cached_keys(Some(entry), 13_600).is_none());
    assert!(cached_keys(None, 0).is_none());
}

#[test]
fn verifier_cache_is_replaced_not_merged() {
    let verifier = GoogleJwtMaker::new(settings());
    assert!(verifier.cached_jwks(0).unwrap().is_none());
    let stored = verifier.store_jwks(Jwks { keys: vec![key("k1"), key("k2")] }, 1_000).unwrap();
    assert_eq!(stored.keys.len(), 2);
    assert_eq!(verifier.cached_jwks(4_599).unwrap().unwrap().keys.len(), 2);
    assert!(verifier.cached_jwks(4_600).unwrap().is_none());
    verifier.store_jwks(Jwks { keys: vec![key("k3")] }, 5_000).unwrap();
    let now = verifier.cached_jwks(5_001).unwrap().unwrap();
    assert_eq!(now.keys.len(), 1);
    assert_eq!(now.keys[0].kid, "k3");
}

// What a token carries, and what is read from it.

fn carried(pairs: Vec<(&str, serde_json::Value)>) -> serde_json::Map<String, serde_json::Value> {
    let mut held = serde_json::Map::new();
    for (key, value) in pairs {
        held.insert(key.to_string(), value);
    }
    held
}

fn texts(items: &[&str]) -> serde_json::Value {
    serde_json::Value::Array(items.iter().map(|t| serde_json::Value::from(*t)).collect())
}

fn access_claims_carried() -> Vec<(&'static str, serde_json::Value)> {
    vec![
        ("exp", serde_json::Value::from(4_000_000_000u64)),
        ("iat", serde_json::Value::from(7u64)),
        ("sub", serde_json::Value::from("u-9")),
        ("iss", serde_json::Value::from("API_NAME")),
        ("name", serde_json::Value::from("Nine")),
        ("roles", texts(&["admin", "user"])),
        ("scopes", texts(&[])),
    ]
}

fn without(key: &str) -> serde_json::Map<String, serde_json::Value> {
    carried(access_claims_carried().into_iter().filter(|(k, _)| *k != key).collect())
}

fn with(key: &'static str, value: serde_json::Value) -> serde_json::Map<String, serde_json::Value> {
    let mut pairs = access_claims_carried();
    pairs.push((key, value));
    carried(pairs)
}

fn payload_of(token: &str) -> serde_json::Map<String, serde_json::Value> {
    let part = token.split('.').nth(1).unwrap();
    let bytes = base64::engine::general_purpose::URL_SAFE_NO_PAD.decode(part).unwrap();
    serde_json::from_slice(&bytes).unwrap()
}

#[test]
fn access_claims_are_read_from_what_a_token_carries() {
    let claims = Claims::read(&carried(access_claims_carried())).unwrap();
    assert_eq!(claims.exp, 4_000_000_000);
    assert_eq!(claims.iat, 7);
    assert_eq!(claims.sub, "u-9");
    assert_eq!(claims.iss, "API_NAME");
    assert_eq!(claims.name, "Nine");
    assert_eq!(claims.roles, vec!["admin".to_string(), "user".to_string()]);
    assert!(claims.scopes.is_empty());
}

#[test]
fn access_claims_lacking_a_field_are_not_read() {
    for key in ["exp", "iat", "sub", "iss", "name", "roles", "scopes"] {
        assert!(Claims::read(&without(key)).is_none(), "{key}");
    }
    assert!(Claims::read(&serde_json::Map::new()).is_none());
}

#[test]
fn access_claims_of_another_shape_are_not_read() {
    assert!(Claims::read(&with("exp", serde_json::Value::from("soon"))).is_none());
    assert!(Claims::read(&with("exp", serde_json::Value::from(-1i64))).is_none());
    assert!(Claims::read(&with("iat", serde_json::Value::from(1.5f64))).is_none());
    assert!(Claims::read(&with("sub", serde_json::Value::from(9u64))).is_none());
    assert!(Claims::read(&with("name", serde_json::Value::Null)).is_none());
    assert!(Claims::read(&with("roles", serde_json::Value::from("admin"))).is_none());
    let mixed = serde_json::Value::Array(vec![
        serde_json::Value::from("admin"),
        serde_json::Value::from(3u64),
    ]);
    assert!(Claims::read(&with("scopes", mixed)).is_none());
}

#[test]
fn claims_beyond_those_read_are_passed_over() {
    let claims = Claims::read(&with("aud", serde_json::Value::from("someone"))).unwrap();
    assert_eq!(claims.sub, "u-9");
    assert_eq!(claims.roles.len(), 2);
}

#[test]
fn refresh_claims_are_read_from_what_a_token_carries() {
    let held = carried(vec![
        ("exp", serde_json::Value::from(900u64)),
        ("iat", serde_json::Value::from(300u64)),
        ("sub", serde_json::Value::from("u-3")),
        ("iss", serde_json::Value::from("API_NAME")),
    ]);
    let claims = RefreshTokenClaims::read(&held).unwrap();
    assert_eq!(claims.exp, 900);
    assert_eq!(claims.iat, 300);
    assert_eq!(claims.sub, "u-3");
    assert_eq!(claims.iss, "API_NAME");
    let access = RefreshTokenClaims::read(&carried(access_claims_carried())).unwrap();
    assert_eq!(access.sub, "u-9");
    for key in ["exp", "iat", "sub", "iss"] {
        let mut lacking = held.clone();
        lacking.remove(key);
        assert!(RefreshTokenClaims::read(&lacking).is_none(), "{key}");
    }
}

#[test]
fn access_token_carries_the_claims_it_was_signed_with() {
    let claims = Claims {
        exp: 4_000_000_000,
        iat: 7,
        sub: "u-9".to_string(),
        iss: "API_NAME".to_string(),
        name: "Nine".to_string(),
        roles: vec!["admin".to_string(), "user".to_string()],
        scopes: Vec::new(),
    };
    let token = maker().sign_access(&claims).unwrap();
    assert_eq!(payload_of(&token), carried(access_claims_carried()));
}

#[test]
fn refresh_token_carries_the_claims_it_was_signed_with() {
    let claims = RefreshTokenClaims {
        exp: 900,
        iat: 300,
        sub: "u-3".to_string(),
        iss: "API_NAME".to_string(),
    };
    let token = maker().sign_refresh(&claims).unwrap();
    let held = payload_of(&token);
    assert_eq!(held.len(), 4);
    assert_eq!(held["exp"], serde_json::Value::from(900u64));
    assert_eq!(held["iat"], serde_json::Value::from(300u64));
    assert_eq!(held["sub"], serde_json::Value::from("u-3"));
    assert_eq!(held["iss"], serde_json::Value::from("API_NAME"));
}

#[test]
fn issued_access_token_carries_subject_issuer_and_lifetime() {
    let token = maker().make_token_at("u-42".to_string(), 2, 1_000).unwrap();
    let held = payload_of(&token);
    assert_eq!(held.len(), 7);
    assert_eq!(held["exp"], serde_json::Value::from(8_200u64));
    assert_eq!(held["iat"], serde_json::Value::from(1_000u64));
    assert_eq!(held["sub"], serde_json::Value::from("u-42"));
    assert_eq!(held["iss"], serde_json::Value::from("API_NAME"));
    assert_eq!(held["name"], serde_json::Value::from(""));
    assert_eq!(held["roles"], texts(&[]));
    assert_eq!(held["scopes"], texts(&[]));
}

#[test]
fn issued_refresh_token_carries_subject_issuer_and_lifetime() {
    let token = maker().make_refresh_token_at("u-42".to_string(), 168, 1_000).unwrap();
    let held = payload_of(&token);
    assert_eq!(held.len(), 4);
    assert_eq!(held["exp"], serde_json::Value::from(605_800u64));
    assert_eq!(held["iat"], serde_json::Value::from(1_000u64));
    assert_eq!(held["sub"], serde_json::Value::from("u-42"));
    assert_eq!(held["iss"], serde_json::Value::from("API_NAME"));
}

#[test]
fn token_issued_now_is_issued_at_the_clock() {
    let before = unix_now();
    let token = maker().make_token("u-42".to_string(), 1).unwrap();
    let after = unix_now();
    let held = payload_of(&token);
    let iat = held["iat"].as_u64().unwrap() as i64;
    assert!(before <= iat && iat <= after);
    assert_eq!(held["exp"].as_u64().unwrap() as i64, iat + 3600);
    assert_eq!(held["sub"], serde_json::Value::from("u-42"));
    let refresh = payload_of(&maker().make_refresh_token("u-42".to_string(), 1).unwrap());
    let issued = refresh["iat"].as_u64().unwrap() as i64;
    assert!(before <= issued && issued <= unix_now());
    assert_eq!(refresh["exp"].as_u64().unwrap() as i64, issued + 3600);
}

#[test]
fn signing_outcome_becomes_the_answer() {
    assert_eq!(JwtMaker::signed(Ok("a.b.c".to_string())).unwrap(), "a.b.c");
    let failed = jsonwebtoken::errors::Error::from(jsonwebtoken::errors::ErrorKind::InvalidAlgorithm);
    assert!(matches!(JwtMaker::signed(Err(failed)), Err(AppError::JWTError(_))));
}

#[test]
fn accepted_token_yields_the_claims_it_carries() {
    let claims = JwtMaker::accepted_access(Ok(carried(access_claims_carried()))).unwrap();
    assert_eq!(claims.sub, "u-9");
    assert_eq!(claims.exp, 4_000_000_000);
    let refresh = JwtMaker::accepted_refresh(Ok(carried(access_claims_carried()))).unwrap();
    assert_eq!(refresh.sub, "u-9");
    assert_eq!(refresh.iat, 7);
}

#[test]
fn accepted_token_with_unreadable_claims_is_a_token_error() {
    match JwtMaker::accepted_access(Ok(without("roles"))) {
        Err(AppError::JWTError(why)) => assert_eq!(why, "missing or malformed claim"),
        other => panic!("{other:?}"),
    }
    match JwtMaker::accepted_refresh(Ok(without("iss"))) {
        Err(AppError::JWTError(why)) => assert_eq!(why, "missing or malformed claim"),
        other => panic!("{other:?}"),
    }
}

#[test]
fn rejected_token_is_a_token_error() {
    let expired = || jsonwebtoken::errors::Error::from(jsonwebtoken::errors::ErrorKind::ExpiredSignature);
    assert!(matches!(JwtMaker::accepted_access(Err(expired())), Err(AppError::JWTError(_))));
    assert!(matches!(JwtMaker::accepted_refresh(Err(expired())), Err(AppError::JWTError(_))));
}

#[test]
fn verified_claims_are_those_of_the_payload() {
    let token = maker().make_token_at("u-42".to_string(), 1, unix_now()).unwrap();
    let read = Claims::read(&payload_of(&token)).unwrap();
    let verified = maker().verify_access_token(&token).unwrap();
    assert_eq!(read.sub, verified.sub);
    assert_eq!(read.exp, verified.exp);
    assert_eq!(read.iat, verified.iat);
    assert_eq!(read.iss, verified.iss);
}

#[test]
fn keys_read_from_the_cache_are_used_while_fresh() {
    let entry = JwksCache::filled(Jwks { keys: vec![key("k1"), key("k2")] }, 10_000);
    let fresh = GoogleJwtMaker::keys_read(Ok(Some(entry.clone())), 13_599).unwrap().unwrap();
    assert_eq!(fresh.keys.len(), 2);
    assert_eq!(fresh.keys[1].kid, "k2");
    assert!(GoogleJwtMaker::keys_read(Ok(Some(entry)), 13_600).unwrap().is_none());
    assert!(GoogleJwtMaker::keys_read(Ok(None), 0).unwrap().is_none());
}

#[test]
fn failed_lock_is_a_processing_failure() {
    match GoogleJwtMaker::keys_read(Err("poisoned lock".to_string()), 0) {
        Err(AppError::ProcessError(why)) => assert_eq!(why, "poisoned lock"),
        other => panic!("{other:?}"),
    }
    match GoogleJwtMaker::keys_written(Err("poisoned lock".to_string()), Jwks { keys: vec![key("k1")] }) {
        Err(AppError::ProcessError(why)) => assert_eq!(why, "poisoned lock"),
        other => panic!("{other:?}"),
    }
}

#[test]
fn written_keys_are_handed_back() {
    let keys = GoogleJwtMaker::keys_written(Ok(()), Jwks { keys: vec![key("k1"), key("k2")] }).unwrap();
    assert_eq!(keys.keys.len(), 2);
    assert_eq!(keys.keys[0].kid, "k1");
    assert_eq!(keys.keys[1].kid, "k2");
}

#[test]
fn token_is_told_by_secret_and_claims() {
    let first = maker().make_token_at("u-42".to_string(), 1, 1_000).unwrap();
    assert_eq!(first, maker().make_token_at("u-42".to_string(), 1, 1_000).unwrap());
    assert_ne!(first, maker().make_token_at("u-43".to_string(), 1, 1_000).unwrap());
    assert_ne!(first, maker().make_token_at("u-42".to_string(), 2, 1_000).unwrap());
    assert_ne!(first, maker().make_token_at("u-42".to_string(), 1, 1_001).unwrap());
    assert_ne!(first, JwtMaker::new("other-key".to_string()).make_token_at("u-42".to_string(), 1, 1_000).unwrap());
    let refresh = maker().make_refresh_token_at("u-42".to_string(), 1, 1_000).unwrap();
    assert_eq!(refresh, maker().make_refresh_token_at("u-42".to_string(), 1, 1_000).unwrap());
    assert_ne!(refresh, first);
}

#[test]
fn signing_the_same_claims_twice_gives_one_token() {
    let claims = || Claims {
        exp: 4_000_000_000,
        iat: 7,
        sub: "u-9".to_string(),
        iss: "API_NAME".to_string(),
        name: "Nine".to_string(),
        roles: vec!["admin".to_string(), "user".to_string()],
        scopes: Vec::new(),
    };
    assert_eq!(maker().sign_access(&claims()).unwrap(), maker().sign_access(&claims()).unwrap());
    let mut other = claims();
    other.roles.reverse();
    assert_ne!(maker().sign_access(&claims()).unwrap(), maker().sign_access(&other).unwrap());
}

#[test]
fn token_is_made_exactly_where_its_instants_can_be_written() {
    assert!(maker().make_token_at("u".to_string(), 1, 0).is_ok());
    assert!(maker().make_token_at("u".to_string(), 0, 5).is_ok());
    assert!(matches!(maker().make_token_at("u".to_string(), 1, -1), Err(AppError::JWTError(_))));
    assert!(matches!(maker().make_token_at("u".to_string(), -1, 3_599), Err(AppError::JWTError(_))));
    assert!(maker().make_token_at("u".to_string(), -1, 3_600).is_ok());
    assert!(matches!(maker().make_token_at("u".to_string(), i64::MAX, 1), Err(AppError::JWTError(_))));
    assert!(matches!(maker().make_refresh_token_at("u".to_string(), 1, i64::MAX), Err(AppError::JWTError(_))));
    assert!(maker().make_refresh_token_at("u".to_string(), 168, 1).is_ok());
}

// Identity tokens of the provider, signed with a key made for these tests.

/// An RSA key of 2048 bits, in DER, that signs nothing but the tokens below.
const PROVIDER_KEY: [u8; 1190] = [
    48, 130, 4, 162, 2, 1, 0, 2, 130, 1, 1, 0, 142, 254, 102, 37, 114, 76, 217, 6, 222, 97, 126, 174,
    96, 114, 134, 115, 29, 101, 87, 101, 78, 116, 16, 181, 9, 141, 151, 60, 184, 170, 134, 206, 124, 7, 235, 121,
    59, 169, 64, 27, 157, 255, 152, 44, 163, 69, 199, 20, 58, 24, 47, 138, 238, 105, 56, 229, 53, 240, 216, 69,
    18, 217, 174, 200, 81, 148, 87, 171, 178, 108, 10, 65, 88, 202, 189, 12, 83, 28, 49, 95, 51, 167, 136, 72,
    202, 220, 79, 166, 193, 183, 218, 209, 190, 203, 94, 180, 174, 29, 154, 202, 133, 191, 39, 127, 67, 129, 215, 23,
    22, 86, 223, 219, 70, 137, 30, 207, 89, 160, 122, 232, 196, 210, 137, 225, 21, 196, 18, 17, 154, 138, 149, 153,
    142, 158, 174, 9, 218, 82, 51, 55, 255, 222, 65, 96, 177, 13, 154, 31, 138, 177, 156, 109, 243, 60, 40, 251,
    252, 34, 150, 58, 206, 252, 97, 225, 71, 119, 188, 55, 71, 196, 86, 71, 19, 75, 168, 77, 248, 102, 160, 244,
    230, 233, 113, 235, 51, 7, 124, 98, 251, 140, 93, 177, 77, 195, 119, 138, 146, 45, 97, 122, 61, 40, 67, 59,
    210, 158, 251, 76, 165, 85, 235, 197, 217, 244, 203, 250, 56, 16, 29, 239, 88, 237, 35, 27, 62, 216, 33, 31,
    28, 134, 62, 240, 6, 15, 55, 83, 89, 75, 95, 50, 96, 43, 66, 170, 52, 215, 7, 116, 51, 49, 230, 107,
    220, 245, 152, 139, 2, 3, 1, 0, 1, 2, 130, 1, 0, 3, 82, 185, 175, 100, 77, 77, 43, 58, 127, 5,
    140, 33, 197, 37, 118, 57, 207, 187, 29, 246, 35, 15, 219, 137, 124, 161, 214, 123, 210, 149, 99, 114, 5, 36,
    8, 52, 78, 225, 181, 220, 50, 140, 82, 173, 63, 164, 177, 44, 80, 117, 113, 220, 185, 91, 245, 206, 31, 199,
    250, 28, 147, 60, 236, 126, 85, 169, 108, 255, 242, 200, 247, 143, 208, 9, 147, 94, 4, 41, 81, 10, 209, 87,
    97, 20, 93, 77, 78, 46, 173, 69, 246, 150, 114, 1, 162, 28, 64, 184, 105, 172, 57, 64, 28, 137, 112, 246,
    95, 165, 64, 15, 223, 196, 145, 89, 92, 56, 136, 20, 61, 213, 105, 108, 132, 56, 22, 190, 75, 167, 173, 106,
    69, 216, 72, 105, 9, 199, 69, 175, 173, 108, 3, 41, 102, 244, 133, 69, 236, 204, 131, 70, 187, 203, 7, 211,
    97, 51, 33, 229, 128, 215, 145, 112, 89, 223, 193, 66, 20, 56, 162, 77, 244, 240, 52, 158, 214, 47, 226, 109,
    59, 110, 87, 70, 111, 95, 22, 111, 166, 20, 110, 108, 24, 191, 9, 178, 107, 12, 161, 229, 183, 92, 201, 80,
    78, 100, 26, 173, 178, 1, 81, 59, 98, 162, 108, 144, 16, 245, 39, 42, 200, 57, 160, 142, 14, 94, 83, 234,
    117, 244, 160, 78, 152, 25, 61, 52, 78, 186, 46, 188, 101, 185, 75, 187, 30, 149, 153, 150, 101, 36, 66, 250,
    187, 62, 194, 101, 161, 2, 129, 129, 0, 192, 93, 158, 106, 146, 191, 60, 39, 202, 10, 35, 152, 149, 63, 206,
    212, 200, 41, 13, 189, 245, 29, 96, 148, 209, 234, 70, 8, 66, 52, 224, 133, 205, 70, 246, 149, 249, 95, 97,
    190, 212, 123, 101, 164, 29, 185, 235, 159, 74, 60, 45, 115, 51, 62, 114, 40, 185, 67, 255, 3, 249, 202, 81,
    234, 48, 86, 193, 75, 41, 184, 62, 176, 183, 157, 55, 126, 26, 227, 129, 29, 200, 250, 39, 19, 17, 17, 95,
    63, 230, 141, 131, 195, 195, 213, 35, 102, 174, 232, 66, 183, 27, 133, 35, 149, 241, 41, 35, 229, 247, 27, 97,
    211, 251, 179, 193, 204, 242, 51, 244, 43, 94, 187, 36, 89, 230, 170, 86, 169, 2, 129, 129, 0, 190, 75, 190,
    127, 8, 45, 169, 58, 142, 150, 253, 84, 20, 9, 125, 164, 135, 168, 128, 120, 8, 159, 196, 130, 112, 132, 84,
    240, 226, 55, 234, 230, 4, 193, 16, 96, 96, 60, 170, 35, 163, 189, 22, 14, 60, 72, 94, 38, 220, 104, 144,
    221, 208, 180, 181, 0, 13, 43, 147, 166, 135, 113, 197, 94, 50, 175, 116, 19, 198, 211, 229, 221, 63, 152, 216,
    189, 22, 164, 98, 5, 110, 155, 30, 53, 40, 160, 217, 93, 239, 244, 244, 35, 228, 213, 206, 45, 201, 32, 111,
    103, 118, 112, 49, 195, 9, 161, 147, 29, 35, 37, 103, 104, 60, 210, 234, 59, 119, 138, 240, 137, 124, 180, 108,
    68, 11, 228, 26, 19, 2, 129, 128, 92, 199, 138, 149, 138, 75, 179, 254, 216, 226, 133, 2, 157, 209, 149, 183,
    105, 6, 235, 250, 215, 147, 32, 183, 6, 123, 192, 229, 80, 209, 98, 13, 6, 210, 24, 50, 131, 129, 46, 138,
    180, 191, 3, 105, 225, 112, 127, 165, 103, 79, 152, 248, 60, 25, 253, 67, 136, 255, 179, 170, 190, 58, 135, 193,
    181, 40, 210, 183, 166, 218, 151, 89, 242, 101, 96, 147, 112, 242, 147, 158, 195, 5, 107, 253, 53, 57, 52, 192,
    132, 57, 114, 248, 227, 166, 20, 25, 253, 120, 70, 93, 60, 103, 189, 159, 31, 30, 161, 146, 211, 217, 32, 24,
    247, 8, 95, 11, 179, 49, 189, 173, 129, 86, 47, 149, 48, 188, 173, 105, 2, 129, 128, 23, 35, 156, 177, 83,
    172, 65, 180, 166, 28, 4, 7, 210, 59, 233, 52, 53, 110, 174, 216, 105, 172, 11, 184, 20, 184, 114, 159, 171,
    210, 66, 212, 223, 101, 30, 121, 169, 154, 22, 210, 40, 153, 216, 113, 184, 176, 208, 10, 7, 169, 11, 92, 125,
    129, 75, 181, 10, 228, 238, 154, 68, 67, 248, 76, 224, 250, 230, 177, 116, 238, 213, 55, 151, 1, 29, 241, 184,
    44, 26, 227, 48, 52, 218, 114, 122, 83, 60, 187, 40, 111, 111, 180, 97, 162, 1, 229, 29, 92, 189, 79, 38,
    94, 180, 30, 84, 48, 122, 116, 3, 143, 11, 200, 232, 4, 121, 136, 235, 155, 80, 110, 87, 100, 148, 249, 157,
    60, 138, 83, 2, 129, 128, 61, 34, 207, 123, 73, 71, 248, 35, 186, 26, 242, 157, 168, 72, 236, 39, 85, 69,
    25, 102, 166, 57, 183, 39, 58, 54, 154, 233, 48, 84, 217, 39, 60, 119, 132, 168, 107, 124, 225, 136, 236, 213,
    21, 79, 229, 107, 2, 189, 180, 65, 175, 67, 105, 140, 108, 189, 247, 138, 17, 60, 133, 60, 45, 2, 164, 216,
    169, 206, 186, 134, 144, 71, 36, 98, 11, 206, 220, 65, 165, 201, 156, 40, 140, 20, 64, 112, 174, 234, 64, 90,
    141, 221, 96, 220, 249, 74, 51, 41, 7, 185, 200, 142, 153, 231, 173, 204, 128, 92, 35, 4, 38, 135, 249, 182,
    241, 116, 26, 93, 160, 197, 238, 76, 1, 189, 113, 253, 72, 51,
];

/// The public part of [`PROVIDER_KEY`], as the provider would publish it.
fn provider_jwk(kid: &str) -> Jwk {
    let n = [
        "jv5mJXJM2QbeYX6uYHKGcx1lV2VOdBC1CY2XPLiqhs58B-t5O6lAG53_mCyjRccU",
        "Ohgviu5pOOU18NhFEtmuyFGUV6uybApBWMq9DFMcMV8zp4hIytxPpsG32tG-y160",
        "rh2ayoW_J39DgdcXFlbf20aJHs9ZoHroxNKJ4RXEEhGaipWZjp6uCdpSMzf_3kFg",
        "sQ2aH4qxnG3zPCj7_CKWOs78YeFHd7w3R8RWRxNLqE34ZqD05ulx6zMHfGL7jF2x",
        "TcN3ipItYXo9KEM70p77TKVV68XZ9Mv6OBAd71jtIxs-2CEfHIY-8AYPN1NZS18y",
        "YCtCqjTXB3QzMeZr3PWYiw",
    ]
    .concat();
    Jwk { kid: kid.to_string(), n, e: "AQAB".to_string() }
}

fn identity(aud: &str, iss: &str) -> serde_json::Map<String, serde_json::Value> {
    carried(vec![
        ("iss", serde_json::Value::from(iss)),
        ("azp", serde_json::Value::from("client-1")),
        ("aud", serde_json::Value::from(aud)),
        ("sub", serde_json::Value::from("google-sub-9")),
        ("email", serde_json::Value::from("ada@x.com")),
        ("email_verified", serde_json::Value::from(true)),
        ("name", serde_json::Value::from("Ada L")),
        ("picture", serde_json::Value::from("https://x.com/ada.png")),
        ("given_name", serde_json::Value::from("Ada")),
        ("iat", serde_json::Value::from(1_000u64)),
        ("exp", serde_json::Value::from(4_000_000_000u64)),
    ])
}

fn identity_token(kid: &str, claims: &serde_json::Map<String, serde_json::Value>) -> String {
    let mut header = jsonwebtoken::Header::new(jsonwebtoken::Algorithm::RS256);
    header.kid = Some(kid.to_string());
    jsonwebtoken::encode(&header, claims, &jsonwebtoken::EncodingKey::from_rsa_der(&PROVIDER_KEY)).unwrap()
}

const PROVIDER: &str = "https://accounts.google.com";

#[test]
fn identity_token_of_the_provider_is_accepted_and_read() {
    let verifier = GoogleJwtMaker::new(settings());
    let keys = Jwks { keys: vec![key("k0"), provider_jwk("k1")] };
    let token = identity_token("k1", &identity("client-1", PROVIDER));
    let claims = verifier.verify_token(&token, &keys).unwrap();
    assert_eq!(claims.iss, PROVIDER);
    assert_eq!(claims.aud, "client-1");
    assert_eq!(claims.azp, "client-1");
    assert_eq!(claims.sub, "google-sub-9");
    assert_eq!(claims.email, "ada@x.com");
    assert!(claims.email_verified);
    assert_eq!(claims.name, "Ada L");
    assert_eq!(claims.picture, "https://x.com/ada.png");
    assert_eq!(claims.given_name.as_deref(), Some("Ada"));
    assert_eq!(claims.family_name, None);
    assert_eq!(claims.hd, None);
    assert_eq!(claims.at_hash, None);
    assert_eq!((claims.iat, claims.exp), (1_000, 4_000_000_000));
}

#[test]
fn identity_token_for_another_client_is_rejected() {
    let verifier = GoogleJwtMaker::new(settings());
    let keys = Jwks { keys: vec![provider_jwk("k1")] };
    let token = identity_token("k1", &identity("client-2", PROVIDER));
    assert!(matches!(verifier.verify_token(&token, &keys), Err(AppError::JWTError(_))));
}

#[test]
fn identity_token_of_another_issuer_is_rejected() {
    let verifier = GoogleJwtMaker::new(settings());
    let keys = Jwks { keys: vec![provider_jwk("k1")] };
    let token = identity_token("k1", &identity("client-1", "https://accounts.example.com"));
    assert!(matches!(verifier.verify_token(&token, &keys), Err(AppError::JWTError(_))));
}

#[test]
fn identity_token_that_has_expired_is_rejected() {
    let verifier = GoogleJwtMaker::new(settings());
    let keys = Jwks { keys: vec![provider_jwk("k1")] };
    let mut claims = identity("client-1", PROVIDER);
    claims.insert("exp".to_string(), serde_json::Value::from(2_000u64));
    let token = identity_token("k1", &claims);
    assert!(matches!(verifier.verify_token(&token, &keys), Err(AppError::JWTError(_))));
}

#[test]
fn identity_token_lacking_a_claim_is_rejected() {
    let verifier = GoogleJwtMaker::new(settings());
    let keys = Jwks { keys: vec![provider_jwk("k1")] };
    for lacking in ["azp", "sub", "email", "email_verified", "name", "picture", "iat"] {
        let mut claims = identity("client-1", PROVIDER);
        claims.remove(lacking);
        let token = identity_token("k1", &claims);
        match verifier.verify_token(&token, &keys) {
            Err(AppError::JWTError(why)) => assert_eq!(why, "missing or malformed claim", "{lacking}"),
            other => panic!("{lacking}: {other:?}"),
        }
    }
}

#[test]
fn identity_token_signed_with_a_secret_is_rejected() {
    let verifier = GoogleJwtMaker::new(settings());
    let keys = Jwks { keys: vec![provider_jwk("k1")] };
    let mut header = jsonwebtoken::Header::default();
    header.kid = Some("k1".to_string());
    let forged = jsonwebtoken::encode(
        &header,
        &identity("client-1", PROVIDER),
        &jsonwebtoken::EncodingKey::from_secret(b"k"),
    )
    .unwrap();
    assert!(matches!(verifier.verify_token(&forged, &keys), Err(AppError::JWTError(_))));
}

#[test]
fn accepted_identity_token_yields_the_claims_it_carries() {
    let claims = GoogleJwtMaker::accepted_identity(Ok(identity("client-1", PROVIDER))).unwrap();
    assert_eq!(claims.sub, "google-sub-9");
    assert_eq!(claims.email, "ada@x.com");
    assert_eq!(claims.given_name.as_deref(), Some("Ada"));
    let mut unreadable = identity("client-1", PROVIDER);
    unreadable.insert("email_verified".to_string(), serde_json::Value::from("yes"));
    match GoogleJwtMaker::accepted_identity(Ok(unreadable)) {
        Err(AppError::JWTError(why)) => assert_eq!(why, "missing or malformed claim"),
        other => panic!("{other:?}"),
    }
    let rejected = jsonwebtoken::errors::Error::from(jsonwebtoken::errors::ErrorKind::InvalidAudience);
    assert!(matches!(GoogleJwtMaker::accepted_identity(Err(rejected)), Err(AppError::JWTError(_))));
}

#[test]
fn identity_token_is_checked_against_the_first_key_it_names() {
    let verifier = GoogleJwtMaker::new(settings());
    let token = identity_token("k1", &identity("client-1", PROVIDER));
    let right = provider_jwk("k1");
    let mut wrong = provider_jwk("k1");
    let flipped = if wrong.n.ends_with('A') { "B" } else { "A" };
    wrong.n.replace_range(wrong.n.len() - 1.., flipped);
    let keys = Jwks { keys: vec![wrong.clone()] };
    assert!(matches!(verifier.verify_token(&token, &keys), Err(AppError::JWTError(_))));
    let keys = Jwks { keys: vec![wrong.clone(), right.clone()] };
    assert!(matches!(verifier.verify_token(&token, &keys), Err(AppError::JWTError(_))));
    let keys = Jwks { keys: vec![key("k0"), right.clone(), wrong] };
    assert_eq!(verifier.verify_token(&token, &keys).unwrap().sub, "google-sub-9");
    let mut swapped = right.clone();
    std::mem::swap(&mut swapped.n, &mut swapped.e);
    let keys = Jwks { keys: vec![swapped] };
    assert!(matches!(verifier.verify_token(&token, &keys), Err(AppError::JWTError(_))));
    let renamed = Jwks { keys: vec![provider_jwk("k2")] };
    assert!(matches!(verifier.verify_token(&token, &renamed), Err(AppError::InvalidToken)));
}

#[test]
fn token_is_accepted_under_the_secret_it_was_signed_with_only() {
    let token = maker().make_token("u-42".to_string(), 1).unwrap();
    assert!(maker().verify_access_token(&token).is_ok());
    for secret in ["", "a-signing-ke", "a-signing-key ", "A-signing-key"] {
        let other = JwtMaker::new(secret.to_string());
        assert!(matches!(other.verify_access_token(&token), Err(AppError::JWTError(_))), "{secret:?}");
        assert!(matches!(other.verify_refresh_token(&token), Err(AppError::JWTError(_))), "{secret:?}");
    }
    let refresh = maker().make_refresh_token("u-42".to_string(), 1).unwrap();
    assert!(maker().verify_refresh_token(&refresh).is_ok());
    assert!(JwtMaker::new(String::new()).verify_refresh_token(&refresh).is_err());
}

#[test]
fn token_with_another_signature_is_rejected() {
    let token = maker().make_token("u-42".to_string(), 1).unwrap();
    let other = JwtMaker::new("other-key".to_string()).make_token("u-42".to_string(), 1).unwrap();
    let body = &token[..token.rfind('.').unwrap()];
    let foreign = &other[other.rfind('.').unwrap()..];
    let spliced = format!("{body}{foreign}");
    assert!(matches!(maker().verify_access_token(&spliced), Err(AppError::JWTError(_))));
    let unsigned = format!("{body}.");
    assert!(matches!(maker().verify_access_token(&unsigned), Err(AppError::JWTError(_))));
}

#[test]
fn copies_of_makers_and_claims_are_equal_to_them() {
    let first = maker();
    let second = first.clone();
    let token = first.make_token_at("u-42".to_string(), 1, 1_000).unwrap();
    assert_eq!(token, second.make_token_at("u-42".to_string(), 1, 1_000).unwrap());
    let fresh = first.make_token("u-42".to_string(), 1).unwrap();
    let claims = second.verify_access_token(&fresh).unwrap();
    let copy = claims.clone();
    assert_eq!((copy.sub, copy.iss, copy.exp, copy.iat), (claims.sub, claims.iss, claims.exp, claims.iat));
    let refresh = RefreshTokenClaims { exp: 9, iat: 1, sub: "u".to_string(), iss: "i".to_string() };
    let copy = refresh.clone();
    assert_eq!((copy.sub, copy.iss, copy.exp, copy.iat), ("u".to_string(), "i".to_string(), 9, 1));
    let cfg = settings();
    let copy = (*cfg).clone();
    assert_eq!(copy.google_client_id, cfg.google_client_id);
    assert_eq!(copy.jwt_secret, cfg.jwt_secret);
    let verifier = GoogleJwtMaker::new(cfg);
    let shared = verifier.clone();
    verifier.store_jwks(Jwks { keys: vec![key("k1")] }, 1_000).unwrap();
    assert_eq!(shared.cached_jwks(1_001).unwrap().unwrap().keys[0].kid, "k1");
}
