use na::errors::{generic_ise, ApiError};

fn all_errors() -> Vec<ApiError> {
    vec![
        ApiError::Diesel { unique_violation: true, message: "duplicate key".to_string() },
        ApiError::Diesel { unique_violation: false, message: "connection reset".to_string() },
        ApiError::Argon2 { message: "password too long".to_string() },
        ApiError::ActixBlocking { message: "canceled".to_string() },
        ApiError::R2d2 { message: "timed out".to_string() },
        ApiError::Jwt { message: "InvalidSignature".to_string() },
        ApiError::InvalidCredentials {},
        ApiError::InvalidTimestamp {},
    ]
}

#[test]
fn invalid_credentials_answer_400() {
    let r = ApiError::InvalidCredentials {}.respond_to();
    assert_eq!(r.status, 400);
    assert_eq!(r.payload.reason, "Invalid credentials");
}

#[test]
fn unique_violation_answers_409() {
    let e = ApiError::Diesel { unique_violation: true, message: "dup".to_string() };
    let r = e.respond_to();
    assert_eq!(r.status, 409);
    assert_eq!(r.payload.reason, "Resource already exists");
}

#[test]
fn other_errors_answer_500() {
    for e in all_errors() {
        let r = e.respond_to();
        match e {
            ApiError::InvalidCredentials {} => assert_eq!(r.status, 400),
            ApiError::Diesel { unique_violation: true, .. } => assert_eq!(r.status, 409),
            _ => {
                assert_eq!(r.status, 500);
                assert_eq!(r.payload.reason, "Internal server error");
            }
        }
    }
}

#[test]
fn generic_ise_is_500() {
    let r = generic_ise();
    assert_eq!(r.status, 500);
    assert_eq!(r.payload.reason, "Internal server error");
}

#[test]
fn only_fault_errors_are_logged() {
    let logged: Vec<bool> = all_errors().iter().map(|e| e.is_logged()).collect();
    assert_eq!(logged, vec![false, false, true, true, true, true, false, false]);
}

#[test]
fn error_messages() {
    let messages: Vec<String> = all_errors().iter().map(|e| e.to_message()).collect();
    assert_eq!(
        messages,
        vec![
            "Database error: duplicate key",
            "Database error: connection reset",
            "Hashing error: password too long",
            "Actix blocking operation error: canceled",
            "Database pool error: timed out",
            "JWT error: InvalidSignature",
            "Invalid credentials provided",
            "Invalid expiration timestamp",
        ]
    );
}
