//! Registration, login and password recovery against the real hashing
//! library: the validation bounds, the duplicate-username conflict, the
//! uniform login rejection, and the normalized security answer.

use helpernote::accounts::{
    forgot_password, login, register, ForgotPasswordRequest, LoginError, LoginRequest,
    RegisterError, RegisterRequest,
};
use helpernote::users::UserRepository;

fn request(username: &str, password: &str, answer: &str) -> RegisterRequest {
    RegisterRequest {
        username: username.to_string(),
        password: password.to_string(),
        security_question_id: 1,
        security_answer: answer.to_string(),
        phone: None,
    }
}

#[test]
fn test_register_validation_username_too_short() {
    let mut repo = UserRepository::new();
    let outcome = register(&mut repo, &request("ab", "longenough", "pet"), 1_000);
    assert_eq!(outcome.err(), Some(RegisterError::Validation));
}

#[test]
fn register_rejects_username_too_long() {
    let mut repo = UserRepository::new();
    let name = "x".repeat(51);
    let outcome = register(&mut repo, &request(&name, "longenough", "pet"), 1_000);
    assert_eq!(outcome.err(), Some(RegisterError::Validation));
    // Fifty characters is still fine.
    let name = "x".repeat(50);
    assert!(register(&mut repo, &request(&name, "longenough", "pet"), 1_000).is_ok());
}

#[test]
fn test_register_validation_password_too_short() {
    let mut repo = UserRepository::new();
    let outcome = register(&mut repo, &request("alice", "seven77", "pet"), 1_000);
    assert_eq!(outcome.err(), Some(RegisterError::Validation));
}

#[test]
fn duplicate_username_conflicts() {
    let mut repo = UserRepository::new();
    assert!(register(&mut repo, &request("alice", "password1", "pet"), 1_000).is_ok());
    let second = register(&mut repo, &request("alice", "password2", "dog"), 2_000);
    assert_eq!(second.err(), Some(RegisterError::UsernameExists));
}

#[test]
fn test_login_validation_empty_username() {
    let repo = UserRepository::new();
    let req = LoginRequest { username: "".to_string(), password: "whatever1".to_string() };
    assert_eq!(login(&repo, &req).err(), Some(LoginError::Validation));
}

#[test]
fn test_login_validation_empty_password() {
    let repo = UserRepository::new();
    let req = LoginRequest { username: "alice".to_string(), password: "".to_string() };
    assert_eq!(login(&repo, &req).err(), Some(LoginError::Validation));
}

#[test]
fn wrong_password_and_unknown_user_are_indistinguishable() {
    let mut repo = UserRepository::new();
    register(&mut repo, &request("alice", "password1", "pet"), 1_000).unwrap();

    let wrong_password = LoginRequest {
        username: "alice".to_string(),
        password: "password2".to_string(),
    };
    let unknown_user = LoginRequest {
        username: "nobody".to_string(),
        password: "password1".to_string(),
    };
    let e1 = login(&repo, &wrong_password).err().unwrap();
    let e2 = login(&repo, &unknown_user).err().unwrap();
    assert_eq!(e1, LoginError::InvalidCredentials);
    assert_eq!(e1, e2);
    assert_eq!(e1.message(), "Invalid username or password");
    assert_eq!(e2.message(), "Invalid username or password");
}

#[test]
fn correct_password_logs_in() {
    let mut repo = UserRepository::new();
    let created = register(&mut repo, &request("alice", "password1", "pet"), 1_000).unwrap();
    let req = LoginRequest {
        username: "alice".to_string(),
        password: "password1".to_string(),
    };
    let user = login(&repo, &req).unwrap();
    assert_eq!(user.id, created.id);
    assert_eq!(user.username, "alice");
}

#[test]
fn test_verify_security_answer_success() {
    let mut repo = UserRepository::new();
    let created = register(&mut repo, &request("alice", "password1", "Fluffy"), 1_000).unwrap();
    // The answer is normalized — case and surrounding whitespace do not
    // matter — before it is checked against the stored hash.
    let id = repo
        .verify_security_answer("alice", 1, "  fLuFFy  ")
        .unwrap();
    assert_eq!(id, created.id);
}

#[test]
fn test_verify_wrong_security_answer_fails() {
    let mut repo = UserRepository::new();
    register(&mut repo, &request("alice", "password1", "Fluffy"), 1_000).unwrap();
    assert!(repo.verify_security_answer("alice", 1, "Rex").is_err());
    // A wrong question id fails even with the right answer.
    assert!(repo.verify_security_answer("alice", 2, "Fluffy").is_err());
}

#[test]
fn stored_credentials_are_bcrypt_hashes() {
    // Registration never stores the password or the answer in the
    // clear: both come back as 60-character bcrypt hashes.
    let mut repo = UserRepository::new();
    let user = register(&mut repo, &request("alice", "password1", "Fluffy"), 1_000).unwrap();
    assert_ne!(user.password_hash, "password1");
    assert_eq!(user.password_hash.len(), 60);
    assert!(user.password_hash.starts_with("$2"));
    assert_ne!(user.security_answer, "Fluffy");
    assert_eq!(user.security_answer.len(), 60);
    assert!(user.security_answer.starts_with("$2"));
}

#[test]
fn test_forgot_password_validation() {
    let mut repo = UserRepository::new();
    let req = ForgotPasswordRequest {
        username: "alice".to_string(),
        security_question_id: 1,
        security_answer: "pet".to_string(),
        new_password: "short".to_string(),
    };
    let outcome = forgot_password(&mut repo, &req, 1_000);
    assert!(outcome.is_err());
}

#[test]
fn forgot_password_resets_and_old_password_stops_working() {
    let mut repo = UserRepository::new();
    register(&mut repo, &request("alice", "password1", "Fluffy"), 1_000).unwrap();
    let req = ForgotPasswordRequest {
        username: "alice".to_string(),
        security_question_id: 1,
        security_answer: "fluffy".to_string(),
        new_password: "password9".to_string(),
    };
    forgot_password(&mut repo, &req, 2_000).unwrap();

    let old = LoginRequest {
        username: "alice".to_string(),
        password: "password1".to_string(),
    };
    let new = LoginRequest {
        username: "alice".to_string(),
        password: "password9".to_string(),
    };
    assert_eq!(login(&repo, &old).err(), Some(LoginError::InvalidCredentials));
    assert!(login(&repo, &new).is_ok());
}
