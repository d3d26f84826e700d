//! The auth service against the real hashing and token libraries:
//! password hashing round trips, token issue and validation, and the
//! token-type discriminant.

use helpernote::auth::{hash_password, verify_password, AuthService, TokenType};
use helpernote::users::UserRepository;
use helpernote::workflow::{refresh_session, resolve_refresh_token, RefreshError};

#[test]
fn test_password_hashing() {
    let password = "test_password123";
    let hash = hash_password(password).unwrap();

    assert!(verify_password(password, &hash).unwrap());
    assert!(!verify_password("wrong_password", &hash).unwrap());
}

#[test]
fn test_token_generation_and_validation() {
    let auth_service = AuthService::new("test_secret", 3600);

    let access_token = auth_service.generate_access_token(1, "testuser").unwrap();
    let claims = auth_service
        .validate_token(&access_token, TokenType::Access)
        .unwrap();

    assert_eq!(claims.sub, "1");
    assert_eq!(claims.username, "testuser");
    assert_eq!(claims.token_type, TokenType::Access);
}

#[test]
fn test_token_type_validation() {
    let auth_service = AuthService::new("test_secret", 3600);

    let access_token = auth_service.generate_access_token(1, "testuser").unwrap();
    let result = auth_service.validate_token(&access_token, TokenType::Refresh);

    assert!(result.is_err());
}

#[test]
fn hashing_is_salted_and_never_plain() {
    let hash = hash_password("hunter22xyz").unwrap();
    // The wrapper must not hand its argument back: bcrypt output is a
    // 60-character "$2b$..." string, and two hashes of one password
    // differ by their salt.
    assert_ne!(hash, "hunter22xyz");
    assert_eq!(hash.len(), 60);
    assert!(hash.starts_with("$2"));
    let second = hash_password("hunter22xyz").unwrap();
    assert_ne!(hash, second);
    assert!(verify_password("hunter22xyz", &second).unwrap());
}

#[test]
fn tokens_are_signed_and_tamper_evident() {
    let service = AuthService::new("another_secret", 600);
    let token = service.generate_access_token(42, "carol").unwrap();
    // A real JWT: three dot-separated parts, not the raw claims.
    assert_eq!(token.matches('.').count(), 2);
    assert!(!token.contains("carol"));

    // Tampering breaks validation, and so does the wrong secret.
    let mut tampered = token.clone();
    tampered.push('x');
    assert!(service.validate_token(&tampered, TokenType::Access).is_err());
    let other = AuthService::new("a_different_secret", 600);
    assert!(other.validate_token(&token, TokenType::Access).is_err());
}

#[test]
fn expired_tokens_are_rejected() {
    let service = AuthService::new("clock_secret", 3600);
    let token = service
        .generate_token_at(7, "dave", TokenType::Access, 1_000_000)
        .unwrap();
    // Valid just before expiry, expired just after.
    assert!(service
        .validate_token_at(&token, TokenType::Access, 1_003_600)
        .is_ok());
    let late = service.validate_token_at(&token, TokenType::Access, 1_003_601);
    assert!(late.is_err());
}

#[test]
fn refresh_tokens_cannot_cross_over() {
    let service = AuthService::new("cross_secret", 3600);
    let refresh = service.generate_refresh_token(9, "erin").unwrap();
    assert!(service.validate_token(&refresh, TokenType::Access).is_err());
    let claims = service
        .validate_token(&refresh, TokenType::Refresh)
        .unwrap();
    assert_eq!(claims.sub, "9");
    assert_eq!(claims.token_type, TokenType::Refresh);
}

#[test]
fn test_refresh_token_validation() {
    // The body's token wins once trimmed; a blank body falls back to
    // the cookie; with neither there is nothing to refresh.
    assert_eq!(
        resolve_refresh_token(Some("  tok  "), None),
        Some("tok".to_string())
    );
    assert_eq!(
        resolve_refresh_token(Some("   "), Some("cookie_tok".to_string())),
        Some("cookie_tok".to_string())
    );
    assert_eq!(resolve_refresh_token(None, None), None);
}

#[test]
fn refresh_issues_a_new_token_pair() {
    let service = AuthService::new("refresh_secret", 3600);
    let mut repo = UserRepository::new();
    let user = repo
        .create_user("frank", "hash", 1, "answer", None, 100)
        .unwrap();
    let refresh = service
        .generate_refresh_token(user.id, &user.username)
        .unwrap();

    let (found, access, new_refresh) =
        refresh_session(&service, &repo, &refresh, helpernote::auth::now_ts()).unwrap();
    assert_eq!(found.id, user.id);
    assert!(service.validate_token(&access, TokenType::Access).is_ok());
    assert!(service
        .validate_token(&new_refresh, TokenType::Refresh)
        .is_ok());

    // An access token cannot stand in for a refresh token.
    let access_only = service
        .generate_access_token(user.id, &user.username)
        .unwrap();
    let refused = refresh_session(&service, &repo, &access_only, helpernote::auth::now_ts());
    assert_eq!(refused.err(), Some(RefreshError::InvalidToken));
}
