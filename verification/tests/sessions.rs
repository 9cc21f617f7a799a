//! The session store, the credential check, and the authorization gate.

use study_planner::auth::{authorize, ensure_not_self, login, Subject};
use study_planner::errors::AppError;
use study_planner::session::{SessionStore, SESSION_TTL_SECONDS};
use study_planner::users::{
    create_user, username_taken, verify_password, CreateUserInput, User, UserRole,
};

fn user(id: i64, username: &str, password: &str, role: UserRole) -> User {
    User {
        id,
        username: username.to_string(),
        password: password.to_string(),
        display_name: username.to_string(),
        role,
    }
}

#[test]
fn test_correct_password() {
    assert!(verify_password("admin123", "admin123"));
}

#[test]
fn test_wrong_password() {
    assert!(!verify_password("wrong", "admin123"));
}

#[test]
fn test_empty_input() {
    assert!(!verify_password("", "admin123"));
}

#[test]
fn test_case_sensitive() {
    assert!(!verify_password("Admin123", "admin123"));
}

#[test]
fn test_session_valid_when_logged_in() {
    let mut store = SessionStore::new();
    store
        .insert_session("abc123def456".to_string(), 1, 1_000)
        .unwrap();
    assert!(store.validate("abc123def456", 2_000).is_ok());
}

#[test]
fn test_session_invalid_when_logged_out() {
    let mut store = SessionStore::new();
    store
        .insert_session("abc123def456".to_string(), 1, 1_000)
        .unwrap();
    store.revoke("abc123def456");
    assert!(store.validate("abc123def456", 2_000).is_err());
}

#[test]
fn test_empty_session_invalid() {
    let store = SessionStore::new();
    assert!(store.validate("", 0).is_err());
}

#[test]
fn test_username_uniqueness_check() {
    let users = vec![
        user(1, "admin", "pw", UserRole::Admin),
        user(2, "user1", "pw", UserRole::User),
    ];
    assert!(username_taken(&users, "admin"));
    assert!(!username_taken(&users, "newuser"));
}

#[test]
fn validate_rejects_at_the_exact_expiry_boundary() {
    let mut store = SessionStore::new();
    let issued = 10_000;
    store.insert_session("t".to_string(), 7, issued).unwrap();
    let expiry = issued + SESSION_TTL_SECONDS;
    assert_eq!(store.validate("t", expiry - 1), Ok(7));
    assert_eq!(store.validate("t", expiry), Err(AppError::Unauthenticated));
    assert_eq!(store.validate("t", expiry + 1), Err(AppError::Unauthenticated));
}

#[test]
fn create_issues_distinct_tokens() {
    let mut store = SessionStore::new();
    let t1 = store.create(1, 0).unwrap();
    let t2 = store.create(1, 0).unwrap();
    assert_ne!(t1, t2);
    assert_eq!(t1.chars().count(), 36);
    assert!(store.validate(&t1, 100).is_ok());
    assert!(store.validate(&t2, 100).is_ok());
}

#[test]
fn inserting_a_duplicate_token_is_a_conflict() {
    let mut store = SessionStore::new();
    store.insert_session("tok".to_string(), 1, 0).unwrap();
    assert_eq!(
        store.insert_session("tok".to_string(), 2, 0),
        Err(AppError::Conflict)
    );
}

#[test]
fn revoking_an_unknown_token_is_not_an_error() {
    let mut store = SessionStore::new();
    store.insert_session("keep".to_string(), 1, 0).unwrap();
    store.revoke("unknown");
    assert!(store.validate("keep", 1).is_ok());
}

#[test]
fn login_rejects_wrong_credentials_with_one_reason() {
    let users = vec![user(1, "admin", "admin123", UserRole::Admin)];
    let mut store = SessionStore::new();
    let unknown = login(&users, &mut store, "nobody", "admin123", 0);
    let wrong = login(&users, &mut store, "admin", "wrong", 0);
    assert_eq!(unknown.unwrap_err(), AppError::Unauthenticated);
    assert_eq!(wrong.unwrap_err(), AppError::Unauthenticated);
}

#[test]
fn login_issues_a_token_that_validates() {
    let users = vec![user(1, "admin", "admin123", UserRole::Admin)];
    let mut store = SessionStore::new();
    let resp = login(&users, &mut store, "admin", "admin123", 0).unwrap();
    assert_eq!(resp.user.id, 1);
    assert_eq!(resp.user.role, "admin");
    assert_eq!(resp.user.role_label, "管理员");
    assert_eq!(store.validate(&resp.session_token, 1), Ok(1));
}

#[test]
fn admin_gate_rejects_plain_users_with_insufficient_role() {
    let users = vec![user(5, "bob", "pw", UserRole::User)];
    let mut store = SessionStore::new();
    store.insert_session("tok".to_string(), 5, 0).unwrap();
    // The request is otherwise perfectly valid.
    assert_eq!(
        authorize(&users, &store, "tok", 1, false),
        Ok(Subject { id: 5, role: UserRole::User })
    );
    assert_eq!(
        authorize(&users, &store, "tok", 1, true),
        Err(AppError::InsufficientRole)
    );
}

#[test]
fn gate_rejects_unknown_and_expired_tokens_alike() {
    let users = vec![user(5, "bob", "pw", UserRole::User)];
    let mut store = SessionStore::new();
    store.insert_session("tok".to_string(), 5, 0).unwrap();
    let expired = authorize(&users, &store, "tok", SESSION_TTL_SECONDS, false);
    let absent = authorize(&users, &store, "other", 1, false);
    assert_eq!(expired, Err(AppError::Unauthenticated));
    assert_eq!(absent, Err(AppError::Unauthenticated));
}

#[test]
fn gate_reports_a_vanished_subject_as_not_found() {
    let users: Vec<User> = Vec::new();
    let mut store = SessionStore::new();
    store.insert_session("tok".to_string(), 5, 0).unwrap();
    assert_eq!(
        authorize(&users, &store, "tok", 1, false),
        Err(AppError::NotFound)
    );
}

#[test]
fn self_protecting_operations_refuse_the_subject_itself() {
    let subject = Subject { id: 3, role: UserRole::Admin };
    assert_eq!(ensure_not_self(&subject, 3), Err(AppError::SelfActionForbidden));
    assert!(ensure_not_self(&subject, 4).is_ok());
}

#[test]
fn create_user_refuses_duplicate_identities() {
    let mut users = vec![user(1, "admin", "pw", UserRole::Admin)];
    let dup = CreateUserInput {
        username: "admin".to_string(),
        password: "x".to_string(),
        display_name: "x".to_string(),
        role: "user".to_string(),
    };
    assert_eq!(create_user(&mut users, 2, dup), Err(AppError::Conflict));
    assert_eq!(users.len(), 1);
    let fresh = CreateUserInput {
        username: "carol".to_string(),
        password: "x".to_string(),
        display_name: "Carol".to_string(),
        role: "admin".to_string(),
    };
    assert!(create_user(&mut users, 2, fresh).is_ok());
    assert_eq!(users[1].role, UserRole::Admin);
}

#[test]
fn one_subject_may_hold_several_concurrent_sessions() {
    let mut store = SessionStore::new();
    store.insert_session("phone".to_string(), 1, 0).unwrap();
    store.insert_session("laptop".to_string(), 1, 0).unwrap();
    assert_eq!(store.validate("phone", 5), Ok(1));
    assert_eq!(store.validate("laptop", 5), Ok(1));
    store.revoke("phone");
    assert!(store.validate("phone", 5).is_err());
    assert_eq!(store.validate("laptop", 5), Ok(1));
}
