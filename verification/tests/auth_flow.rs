use chrono::NaiveDate;
use na::config::JwtConfig;
use na::errors::ApiError;
use na::handlers::auth::{
    authenticate_user, generate_jwt_token, generate_jwt_token_at, token, LoginRequest,
};
use na::handlers::user::{register_single_user, InputUser};
use na::middleware::jwt::JwtMiddleware;
use na::models::User;

fn stored(id: i32, email: &str, hashed_password: String) -> User {
    let at = NaiveDate::from_ymd_opt(2024, 5, 15).unwrap().and_hms_opt(19, 49, 55).unwrap();
    User {
        id,
        email: email.to_string(),
        name: "John".to_string(),
        hashed_password,
        created_at: at,
        updated_at: at,
    }
}

fn login(email: &str, password: &str) -> LoginRequest {
    LoginRequest { email: email.to_string(), password: password.to_string() }
}

fn registered(email: &str, password: &str) -> User {
    let new_user = register_single_user(InputUser {
        email: email.to_string(),
        name: "John".to_string(),
        password: password.to_string(),
    })
    .ok()
    .unwrap();
    assert_eq!(new_user.email, email);
    assert_eq!(new_user.name, "John");
    assert_ne!(new_user.hashed_password, password);
    assert!(new_user.hashed_password.starts_with("$argon2id$"));
    stored(1, email, new_user.hashed_password)
}

fn service(secret: &str) -> na::middleware::jwt::JwtMiddlewareService<u8> {
    let cfg: &'static JwtConfig = Box::leak(Box::new(JwtConfig { secret: secret.to_string() }));
    JwtMiddleware { jwt_config: cfg }.new_transform(7u8)
}

#[test]
fn registered_user_authenticates() {
    let user = registered("john@example.org", "secr3t");
    let ok = authenticate_user(Some(user), login("john@example.org", "secr3t"));
    assert_eq!(ok.ok().unwrap().email, "john@example.org");
}

#[test]
fn wrong_password_is_invalid_credentials() {
    let user = registered("mary@example.org", "right");
    let r = authenticate_user(Some(user), login("mary@example.org", "wrong"));
    assert!(matches!(r, Err(ApiError::InvalidCredentials {})));
    assert_eq!(r.err().unwrap().respond_to().status, 400);
}

#[test]
fn unknown_user_is_invalid_credentials() {
    let r = authenticate_user(None, login("nobody@example.org", "x"));
    assert!(matches!(r, Err(ApiError::InvalidCredentials {})));
}

#[test]
fn malformed_hash_is_invalid_credentials() {
    let user = stored(2, "a@b", "not a phc string".to_string());
    let r = authenticate_user(Some(user), login("a@b", "not a phc string"));
    assert!(matches!(r, Err(ApiError::InvalidCredentials {})));
}

#[test]
fn token_at_carries_email_and_expiration() {
    let user = stored(3, "john@example.org", String::new());
    let cfg = JwtConfig { secret: "s3cr3t".to_string() };
    let t = generate_jwt_token_at(&user, &cfg, 1_700_000_000).ok().unwrap();
    let mut validation = jsonwebtoken::Validation::default();
    validation.validate_exp = false;
    let data = jsonwebtoken::decode::<serde_json::Value>(
        &t,
        &jsonwebtoken::DecodingKey::from_secret(b"s3cr3t"),
        &validation,
    )
    .unwrap();
    assert_eq!(data.claims["sub"], "john@example.org");
    assert_eq!(data.claims["exp"], 1_700_000_000u64 + 86_400);
    assert_eq!(data.header.alg, jsonwebtoken::Algorithm::HS256);
}

#[test]
fn token_payload_lists_sub_then_exp() {
    let user = stored(3, "a\"b\\c@d", String::new());
    let cfg = JwtConfig { secret: "k".to_string() };
    let t = generate_jwt_token_at(&user, &cfg, 0).ok().unwrap();
    let parts: Vec<&str> = t.split('.').collect();
    assert_eq!(parts.len(), 3);
    assert_eq!(b64url_decode(parts[1]), "{\"sub\":\"a\\\"b\\\\c@d\",\"exp\":86400}");
}

fn b64url_decode(part: &str) -> String {
    let alphabet: &[u8] = b"ABCDEFGHIJKLMNOPQRSTUVWXYZabcdefghijklmnopqrstuvwxyz0123456789-_";
    let mut bits: u32 = 0;
    let mut n: u32 = 0;
    let mut out = Vec::new();
    for c in part.bytes() {
        let v = alphabet.iter().position(|&a| a == c).unwrap() as u32;
        bits = (bits << 6) | v;
        n += 6;
        if n >= 8 {
            n -= 8;
            out.push((bits >> n) as u8);
            bits &= (1 << n) - 1;
        }
    }
    String::from_utf8(out).unwrap()
}

#[test]
fn token_at_out_of_range_time() {
    let user = stored(3, "x@y", String::new());
    let cfg = JwtConfig { secret: "k".to_string() };
    let r = generate_jwt_token_at(&user, &cfg, i64::MAX - 10);
    assert!(matches!(r, Err(ApiError::InvalidTimestamp {})));
    assert_eq!(r.err().unwrap().respond_to().status, 500);
}

#[test]
fn issued_token_accepted_until_a_minute_after_expiry() {
    let user = stored(4, "john@example.org", String::new());
    let cfg = JwtConfig { secret: "s3cr3t".to_string() };
    let issued_at: i64 = 1_700_000_000;
    let t = generate_jwt_token_at(&user, &cfg, issued_at).ok().unwrap();
    let header = format!("Bearer {}", t);
    let svc = service("s3cr3t");
    let exp = issued_at + 86_400;
    assert!(svc.authorize_at(Some(header.as_bytes()), -5));
    assert!(svc.authorize_at(Some(header.as_bytes()), issued_at));
    assert!(svc.authorize_at(Some(header.as_bytes()), exp));
    assert!(svc.authorize_at(Some(header.as_bytes()), exp + 60));
    assert!(!svc.authorize_at(Some(header.as_bytes()), exp + 61));
}

#[test]
fn requests_without_valid_bearer_are_refused() {
    let user = stored(5, "john@example.org", String::new());
    let cfg = JwtConfig { secret: "s3cr3t".to_string() };
    let t = generate_jwt_token_at(&user, &cfg, 1_700_000_000).ok().unwrap();
    let now: i64 = 1_700_000_100;
    let svc = service("s3cr3t");
    assert!(!svc.authorize_at(None, now));
    assert!(!svc.authorize_at(Some(t.as_bytes()), now));
    assert!(!svc.authorize_at(Some(format!("bearer {}", t).as_bytes()), now));
    assert!(!svc.authorize_at(Some(format!("Bearer  {}", t).as_bytes()), now));
    assert!(!svc.authorize_at(Some(b"Bearer "), now));
    assert!(!svc.authorize_at(Some(b"Bear"), now));
    let mut bad = format!("Bearer {}", t).into_bytes();
    bad.push(0x7f);
    assert!(!svc.authorize_at(Some(&bad), now));
    let other = service("another secret");
    assert!(!other.authorize_at(Some(format!("Bearer {}", t).as_bytes()), now));
    assert!(svc.authorize_at(Some(format!("Bearer {}", t).as_bytes()), now));
}

#[test]
fn token_now_is_accepted_now() {
    let user = stored(6, "mary@example.org", String::new());
    let cfg = JwtConfig { secret: "s3cr3t".to_string() };
    let t = generate_jwt_token(&user, &cfg).ok().unwrap();
    let svc = service("s3cr3t");
    assert!(svc.authorize(Some(format!("Bearer {}", t).as_bytes())));
    assert!(!svc.authorize(None));
}

#[test]
fn token_request_flow() {
    let user = registered("flow@example.org", "pa55");
    let cfg = JwtConfig { secret: "s3cr3t".to_string() };
    let response = token(Some(user), login("flow@example.org", "pa55"), &cfg).ok().unwrap();
    let svc = service("s3cr3t");
    assert!(svc.authorize(Some(format!("Bearer {}", response.token).as_bytes())));

    let user = registered("flow2@example.org", "pa55");
    let refused = token(Some(user), login("flow2@example.org", "other"), &cfg);
    assert!(matches!(refused, Err(ApiError::InvalidCredentials {})));
    let refused = token(None, login("none@example.org", "pa55"), &cfg);
    assert!(matches!(refused, Err(ApiError::InvalidCredentials {})));
}

#[test]
fn transform_keeps_service() {
    let svc = service("k");
    assert_eq!(*svc.service(), 7u8);
}

#[test]
fn token_at_calendar_bounds() {
    let user = stored(7, "edge@example.org", String::new());
    let cfg = JwtConfig { secret: "k".to_string() };
    let max: i64 = 8_210_266_876_799;
    let min: i64 = -8_334_601_228_800;
    assert!(generate_jwt_token_at(&user, &cfg, max - 86_400).is_ok());
    assert!(matches!(
        generate_jwt_token_at(&user, &cfg, max - 86_399),
        Err(ApiError::InvalidTimestamp {})
    ));
    assert!(generate_jwt_token_at(&user, &cfg, min).is_ok());
    assert!(matches!(
        generate_jwt_token_at(&user, &cfg, min - 1),
        Err(ApiError::InvalidTimestamp {})
    ));
}
