//! The user repository: creation, duplicate refusal, lookups, the
//! last-login stamp and password updates.

use helpernote::users::{UserRepository, UserRepositoryError};

#[test]
fn test_create_user_success() {
    let mut repo = UserRepository::new();

    let user = repo
        .create_user(
            "testuser_1",
            "hashed_password",
            1, // security_question_id
            "hashed_answer",
            Some("010-1234-5678"),
            1_000,
        )
        .unwrap();

    assert_eq!(user.username, "testuser_1");
    assert!(user.id > 0);
    assert_eq!(user.phone.as_deref(), Some("010-1234-5678"));
}

#[test]
fn test_create_duplicate_user_fails() {
    let mut repo = UserRepository::new();

    // Create first user
    repo.create_user("testuser_2", "hashed_password", 1, "hashed_answer", None, 1_000)
        .unwrap();

    // Attempt to create duplicate
    let result =
        repo.create_user("testuser_2", "different_password", 1, "different_answer", None, 2_000);

    assert!(matches!(result, Err(UserRepositoryError::UsernameExists)));
}

#[test]
fn test_find_user_by_username() {
    let mut repo = UserRepository::new();

    // Create user
    repo.create_user("testuser_3", "hashed_password", 1, "hashed_answer", None, 1_000)
        .unwrap();

    // Find user
    let found_user = repo.find_by_username("testuser_3").unwrap();

    assert_eq!(found_user.username, "testuser_3");
}

#[test]
fn test_find_nonexistent_user_fails() {
    let repo = UserRepository::new();

    let result = repo.find_by_username("nonexistent_user_12345");

    assert!(result.is_err());
}

#[test]
fn test_update_last_login() {
    let mut repo = UserRepository::new();

    // Create user
    let user = repo
        .create_user("testuser_4", "hashed_password", 1, "hashed_answer", None, 1_000)
        .unwrap();

    // Update last login
    let result = repo.update_last_login(user.id, 2_000);

    assert!(result.is_ok());

    // Verify last_login_at was updated
    let updated_user = repo.find_by_id(user.id).unwrap();
    assert_eq!(updated_user.last_login_at, Some(2_000));
}

#[test]
fn update_password_of_missing_user_is_not_found() {
    let mut repo = UserRepository::new();
    let result = repo.update_password(99, "newhash", 1_000);
    assert!(matches!(result, Err(UserRepositoryError::UserNotFound)));
}

#[test]
fn update_password_replaces_the_hash() {
    let mut repo = UserRepository::new();
    let user = repo
        .create_user("testuser_5", "oldhash", 1, "hashed_answer", None, 1_000)
        .unwrap();
    repo.update_password(user.id, "newhash", 2_000).unwrap();
    let updated = repo.find_by_id(user.id).unwrap();
    assert_eq!(updated.password_hash, "newhash");
}
