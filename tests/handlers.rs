use axum_webapp::auth::{login, login_outcome, AuthRequest};
use axum_webapp::error::{ApiError, FieldError};
use axum_webapp::jwt::{claims_at, new_claims, refresh_claims, renewed_claims, Claims, SESSION_SECS};
use axum_webapp::task::{
    apply_update, found_task, priority_filter, task_responses, task_to_delete, updated_request,
    GetTaskQueryParams, TaskRecord, TaskRequest,
};
use axum_webapp::user::{
    created_user, register, registration_outcome, user_to_delete, users_listing, CreateUserRequest,
    DeleteUserByUsernameRequest, UserRecord,
};

const STORED_HASH: &str = "$2a$04$UuTkLRZZ6QofpDOlMz32MuuxEHA43WOemOYHPz6.SjsVsyO1tDU96";

fn stored(id: i32, username: &str, password: &str) -> UserRecord {
    UserRecord { id, username: username.to_string(), password: password.to_string() }
}

fn record(id: i32, title: &str, priority: Option<&str>) -> TaskRecord {
    TaskRecord {
        id,
        title: title.to_string(),
        priority: priority.map(|p| p.to_string()),
        description: None,
    }
}

#[test]
fn login_with_the_right_password_gives_the_user_id() {
    let request = AuthRequest { username: "user@example.com".to_string(), password: "password".to_string() };
    let r = login(&request, Some(stored(7, "user@example.com", STORED_HASH)));
    assert_eq!(r.unwrap(), 7);
}

#[test]
fn login_with_a_wrong_password_is_unauthorized() {
    let request = AuthRequest { username: "user@example.com".to_string(), password: "password2".to_string() };
    let r = login(&request, Some(stored(7, "user@example.com", STORED_HASH)));
    assert!(matches!(r, Err(ApiError::Unauthorized)));
}

#[test]
fn login_of_an_unknown_user_fails() {
    let request = AuthRequest { username: "user@example.com".to_string(), password: "password".to_string() };
    assert!(matches!(login(&request, None), Err(ApiError::UserNotFound)));
}

#[test]
fn login_against_an_unreadable_hash_is_an_internal_failure() {
    let request = AuthRequest { username: "user@example.com".to_string(), password: "password".to_string() };
    let r = login(&request, Some(stored(7, "user@example.com", "not a hash")));
    assert!(matches!(r, Err(ApiError::Internal(_))));
}

#[test]
fn login_with_broken_credentials_is_invalid() {
    let request = AuthRequest { username: "user".to_string(), password: "password".to_string() };
    match login(&request, Some(stored(7, "user", STORED_HASH))) {
        Err(ApiError::Invalid(e)) => assert_eq!(e, vec![FieldError::InvalidEmail]),
        _ => panic!("expected a validation failure"),
    }
}

#[test]
fn login_outcome_follows_the_verdict() {
    assert_eq!(login_outcome(Some(stored(3, "a@b.c", "h")), Ok(true)).unwrap(), 3);
    assert!(matches!(login_outcome(Some(stored(3, "a@b.c", "h")), Ok(false)), Err(ApiError::Unauthorized)));
    match login_outcome(Some(stored(3, "a@b.c", "h")), Err("bad hash".to_string())) {
        Err(ApiError::Internal(m)) => assert_eq!(m, "bad hash"),
        _ => panic!("expected an internal failure"),
    }
    assert!(matches!(login_outcome(None, Ok(true)), Err(ApiError::UserNotFound)));
}

#[test]
fn registration_stores_a_hash_that_the_password_matches() {
    let request = CreateUserRequest { username: "new@example.com".to_string(), password: "secret-pass".to_string() };
    let user = register(request, None).unwrap();
    assert_eq!(user.username, "new@example.com");
    assert_ne!(user.password, "secret-pass");
    assert_eq!(user.password.len(), 60);
    assert!(user.password.starts_with("$2b$12$"));
    assert!(bcrypt::verify("secret-pass", &user.password).unwrap());
    let again = AuthRequest { username: "new@example.com".to_string(), password: "secret-pass".to_string() };
    assert_eq!(login(&again, Some(stored(11, "new@example.com", &user.password))).unwrap(), 11);
}

#[test]
fn registration_of_a_taken_username_fails() {
    let request = CreateUserRequest { username: "old@example.com".to_string(), password: "secret-pass".to_string() };
    let r = register(request, Some(stored(1, "old@example.com", STORED_HASH)));
    assert!(matches!(r, Err(ApiError::UserExists)));
}

#[test]
fn registration_outcome_keeps_the_hash_it_is_given() {
    let request = CreateUserRequest { username: "new@example.com".to_string(), password: "secret-pass".to_string() };
    let user = registration_outcome(request, None, Ok("HASH".to_string())).unwrap();
    assert_eq!(user.username, "new@example.com");
    assert_eq!(user.password, "HASH");
    let request = CreateUserRequest { username: "new@example.com".to_string(), password: "secret-pass".to_string() };
    assert!(matches!(registration_outcome(request, None, Err("no".to_string())), Err(ApiError::Internal(_))));
    let request = CreateUserRequest { username: "new".to_string(), password: "secret-pass".to_string() };
    assert!(matches!(registration_outcome(request, None, Ok("HASH".to_string())), Err(ApiError::Invalid(_))));
}

#[test]
fn created_user_answers_id_and_username() {
    let r = created_user(stored(5, "u@example.com", "HASH"));
    assert_eq!(r.id, 5);
    assert_eq!(r.username, "u@example.com");
}

#[test]
fn listing_users_keeps_their_order() {
    let listed = users_listing(vec![stored(2, "b@x.io", "h2"), stored(1, "a@x.io", "h1"), stored(3, "c@x.io", "h3")]);
    let ids: Vec<i32> = listed.iter().map(|u| u.id).collect();
    assert_eq!(ids, vec![2, 1, 3]);
    assert_eq!(listed[1].username, "a@x.io");
    assert_eq!(listed[1].password, "h1");
    assert!(users_listing(Vec::new()).is_empty());
}

#[test]
fn removing_a_user_needs_it_to_exist() {
    let request = DeleteUserByUsernameRequest { username: "a@x.io".to_string() };
    assert_eq!(user_to_delete(&request, Some(stored(4, "a@x.io", "h"))).unwrap().id, 4);
    assert!(matches!(user_to_delete(&request, None), Err(ApiError::UserNotFound)));
    let bad = DeleteUserByUsernameRequest { username: "a".to_string() };
    assert!(matches!(user_to_delete(&bad, None), Err(ApiError::Invalid(_))));
}

#[test]
fn found_task_answers_its_fields() {
    let r = found_task(Some(record(9, "test title", Some("qos")))).unwrap();
    assert_eq!(r.id, 9);
    assert_eq!(r.title, "test title");
    assert_eq!(r.priority.as_deref(), Some("qos"));
    assert_eq!(r.description, None);
    assert!(matches!(found_task(None), Err(ApiError::TaskNotFound)));
}

#[test]
fn priority_filter_cases() {
    assert_eq!(priority_filter(None).unwrap(), None);
    let p = GetTaskQueryParams { priority: "A".to_string() };
    assert_eq!(priority_filter(Some(p)).unwrap(), Some("A".to_string()));
    let p = GetTaskQueryParams { priority: "ABCD".to_string() };
    match priority_filter(Some(p)) {
        Err(ApiError::Invalid(e)) => assert_eq!(e, vec![FieldError::PriorityTooLong]),
        _ => panic!("expected a validation failure"),
    }
}

#[test]
fn listing_tasks_keeps_their_order() {
    let r = task_responses(vec![record(3, "third", None), record(1, "first", Some("A")), record(2, "second", None)]);
    let ids: Vec<i32> = r.iter().map(|t| t.id).collect();
    assert_eq!(ids, vec![3, 1, 2]);
    assert_eq!(r[1].title, "first");
    assert_eq!(r[1].priority.as_deref(), Some("A"));
}

#[test]
fn update_replaces_fields_and_keeps_the_id() {
    let request = TaskRequest { title: "new title".to_string(), priority: None, description: Some("details".to_string()) };
    let t = apply_update(request, Some(record(6, "old title", Some("B")))).unwrap();
    assert_eq!(t.id, 6);
    assert_eq!(t.title, "new title");
    assert_eq!(t.priority, None);
    assert_eq!(t.description.as_deref(), Some("details"));
    let answer = updated_request(t);
    assert_eq!(answer.title, "new title");
    assert_eq!(answer.description.as_deref(), Some("details"));
}

#[test]
fn update_of_a_missing_or_broken_task_fails() {
    let request = TaskRequest { title: "new title".to_string(), priority: None, description: None };
    assert!(matches!(apply_update(request, None), Err(ApiError::TaskNotFound)));
    let request = TaskRequest { title: "no".to_string(), priority: None, description: None };
    assert!(matches!(apply_update(request, Some(record(6, "old title", None))), Err(ApiError::Invalid(_))));
}

#[test]
fn removing_a_task_needs_it_to_exist() {
    assert_eq!(task_to_delete(Some(record(8, "gone", None))).unwrap().id, 8);
    assert!(matches!(task_to_delete(None), Err(ApiError::TaskNotFound)));
}

#[test]
fn status_codes_of_failures() {
    assert_eq!(ApiError::Invalid(vec![FieldError::TitleLength]).status_code(), 400);
    assert_eq!(ApiError::UserExists.status_code(), 400);
    assert_eq!(ApiError::Unauthorized.status_code(), 401);
    assert_eq!(ApiError::UserNotFound.status_code(), 404);
    assert_eq!(ApiError::TaskNotFound.status_code(), 404);
    assert_eq!(ApiError::Internal("db".to_string()).status_code(), 500);
}

#[test]
fn claims_run_out_a_day_after_issue() {
    let c = claims_at(42, 1_700_000_000).unwrap();
    assert_eq!(c.id, 42);
    assert!(!c.is_admin);
    assert_eq!(c.iat, 1_700_000_000);
    assert_eq!(c.exp, 1_700_086_400);
    assert_eq!(SESSION_SECS, 86_400);
    assert!(claims_at(42, -1).is_none());
    assert_eq!(claims_at(1, 0).unwrap().exp, 86_400);
}

#[test]
fn fresh_claims_use_the_clock() {
    let c = new_claims(5).unwrap();
    assert_eq!(c.id, 5);
    assert_eq!(c.exp - c.iat, 86_400);
    assert!(c.iat > 1_600_000_000);
}

#[test]
fn renewal_keeps_the_user_and_restarts_the_day() {
    let old = Claims { id: 12, is_admin: false, exp: 100 + 86_400, iat: 100 };
    let c = renewed_claims(&old, 5_000).unwrap();
    assert_eq!((c.id, c.iat, c.exp), (12, 5_000, 91_400));
    let c = refresh_claims(Ok(Claims { id: 12, is_admin: true, exp: 10, iat: 1 })).unwrap();
    assert_eq!(c.id, 12);
    assert!(!c.is_admin);
    assert!(c.iat > 1);
    assert_eq!(refresh_claims(Err("expired".to_string())).unwrap_err(), "expired");
}
