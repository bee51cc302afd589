use chrono::NaiveDate;
use na::handlers::users::{ListRequest, ListResponse, DEFAULT_QUERY_LIMIT};
use na::handlers::OutputUser;
use na::models::User;

fn user(id: i32, email: &str) -> User {
    let at = NaiveDate::from_ymd_opt(2024, 5, 15).unwrap().and_hms_opt(19, 49, 55).unwrap();
    User {
        id,
        email: email.to_string(),
        name: format!("user {}", id),
        hashed_password: "$argon2id$secret".to_string(),
        created_at: at,
        updated_at: at + chrono::Duration::hours(1),
    }
}

#[test]
fn default_limit_and_after() {
    let req = ListRequest { limit: None, after: None };
    assert_eq!(req.effective_limit(), 10);
    assert_eq!(req.effective_after(), 0);
    assert_eq!(DEFAULT_QUERY_LIMIT, 10);
}

#[test]
fn limit_asked_for_is_kept() {
    assert_eq!(ListRequest { limit: Some(3), after: Some(16) }.effective_limit(), 3);
    assert_eq!(ListRequest { limit: Some(10), after: None }.effective_limit(), 10);
    assert_eq!(ListRequest { limit: Some(20), after: None }.effective_limit(), 20);
    assert_eq!(ListRequest { limit: Some(i32::MAX), after: None }.effective_limit(), i32::MAX);
    assert_eq!(ListRequest { limit: Some(-1), after: None }.effective_limit(), -1);
    assert_eq!(ListRequest { limit: None, after: Some(16) }.effective_after(), 16);
}

#[test]
fn output_user_drops_secrets() {
    let u = user(17, "john@example.org");
    let created = u.created_at;
    let out = OutputUser::from(u);
    assert_eq!(out.id, 17);
    assert_eq!(out.email, "john@example.org");
    assert_eq!(out.name, "user 17");
    assert_eq!(out.created_at, created);
}

#[test]
fn list_response_keeps_order() {
    let users = vec![user(17, "john@example.org"), user(18, "mary@example.org"), user(5, "x@y")];
    let response = ListResponse::from_users(users);
    let ids: Vec<i32> = response.users.iter().map(|u| u.id).collect();
    assert_eq!(ids, vec![17, 18, 5]);
    assert_eq!(response.users[1].email, "mary@example.org");
}

#[test]
fn list_response_empty() {
    assert_eq!(ListResponse::from_users(Vec::new()).users.len(), 0);
}
