//! The authorization chain and the sliding-window rate limiter: a
//! foreign owner is refused with 403, a missing entity with 404, and a
//! key that fills its window is refused until the window slides on —
//! with other keys untouched.

use helpernote::customers::{Customer, CustomerType};
use helpernote::decimal::Dec;
use helpernote::matchings::{create_matching, CreateMatchingRequest};
use helpernote::ownership::{
    verify_job_posting_ownership, verify_matching_ownership, AccessError,
};
use helpernote::postings::{JobPosting, PostingStatus, SettlementStatus};
use helpernote::ratelimit::{RateLimitError, RateLimiter};

fn customer(id: i64, user_id: i64) -> Customer {
    Customer {
        id,
        user_id,
        name: "Kim".to_string(),
        birth_date: None,
        phone: "010-1234-5678".to_string(),
        address: None,
        profile_photo_id: None,
        customer_type: CustomerType::Employer,
        created_at: 0,
        updated_at: 0,
        deleted_at: None,
    }
}

fn posting(id: i64, customer_id: i64) -> JobPosting {
    JobPosting {
        id,
        customer_id,
        salary: Dec::new(5_000_000, 0),
        description: "nanny".to_string(),
        employer_fee_rate: None,
        settlement_status: SettlementStatus::Unsettled,
        settlement_amount: None,
        settlement_memo: None,
        posting_status: PostingStatus::Published,
        is_favorite: false,
        created_at: 0,
        updated_at: 0,
        deleted_at: None,
    }
}

fn matching(id: i64, job_posting_id: i64) -> helpernote::matchings::Matching {
    create_matching(
        &CreateMatchingRequest {
            job_posting_id,
            job_seeking_posting_id: 20,
            agreed_salary: Dec::new(5_000_000, 0),
            employer_fee_rate: Dec::new(15, 0),
            employee_fee_rate: Dec::new(10, 0),
        },
        id,
        1_000,
    )
    .unwrap()
}

#[test]
fn owner_passes_the_chain() {
    let m = matching(1, 10);
    let p = posting(10, 100);
    let c = customer(100, 7);
    assert!(verify_matching_ownership(Some(&m), Some(&p), Some(&c), 7).is_ok());
    assert!(verify_job_posting_ownership(Some(&p), Some(&c), 7).is_ok());
}

#[test]
fn foreign_owner_is_forbidden_not_missing() {
    // User 8 probing user 7's matching gets 403 — the entity exists but
    // is not theirs — never 404 and never access.
    let m = matching(1, 10);
    let p = posting(10, 100);
    let c = customer(100, 7);
    let refused = verify_matching_ownership(Some(&m), Some(&p), Some(&c), 8).unwrap_err();
    assert_eq!(refused, AccessError::Forbidden);
    assert_eq!(refused.status_code(), 403);
    let refused = verify_job_posting_ownership(Some(&p), Some(&c), 8).unwrap_err();
    assert_eq!(refused, AccessError::Forbidden);
}

#[test]
fn missing_matching_is_not_found() {
    let refused = verify_matching_ownership(None, None, None, 7).unwrap_err();
    assert_eq!(refused, AccessError::NotFound);
    assert_eq!(refused.status_code(), 404);
}

#[test]
fn deleted_matching_is_not_found() {
    let mut m = matching(1, 10);
    m.deleted_at = Some(5_000);
    let p = posting(10, 100);
    let c = customer(100, 7);
    let refused = verify_matching_ownership(Some(&m), Some(&p), Some(&c), 7).unwrap_err();
    assert_eq!(refused, AccessError::NotFound);
}

#[test]
fn broken_chain_is_a_lookup_failure() {
    let m = matching(1, 10);
    let p = posting(11, 100);
    let c = customer(100, 7);
    let refused = verify_matching_ownership(Some(&m), Some(&p), Some(&c), 7).unwrap_err();
    assert_eq!(refused, AccessError::LookupFailed);
    assert_eq!(refused.status_code(), 500);
}

#[test]
fn test_rate_limiter_logic() {
    let mut limiter = RateLimiter::new(5, 60);

    // First 5 requests should succeed
    for i in 0..5 {
        assert!(limiter.check_rate_limit("test_ip", 100 + i).is_ok());
    }

    // 6th request should fail
    assert!(limiter.check_rate_limit("test_ip", 105).is_err());
}

#[test]
fn test_rate_limit_per_ip() {
    let mut limiter = RateLimiter::new(3, 60);

    // Each IP should have separate limits
    assert!(limiter.check_rate_limit("ip1", 10).is_ok());
    assert!(limiter.check_rate_limit("ip2", 11).is_ok());
    assert!(limiter.check_rate_limit("ip1", 12).is_ok());
    assert!(limiter.check_rate_limit("ip2", 13).is_ok());
}

#[test]
fn over_limit_request_carries_retry_after() {
    let mut limiter = RateLimiter::new(2, 60);
    assert!(limiter.check_rate_limit("ip", 10).is_ok());
    assert!(limiter.check_rate_limit("ip", 11).is_ok());
    let refused = limiter.check_rate_limit("ip", 12).unwrap_err();
    assert_eq!(refused, RateLimitError::TooManyRequests { retry_after: 60 });
}

#[test]
fn window_slides_and_requests_recover() {
    let mut limiter = RateLimiter::new(2, 60);
    assert!(limiter.check_rate_limit("ip", 10).is_ok());
    assert!(limiter.check_rate_limit("ip", 20).is_ok());
    assert!(limiter.check_rate_limit("ip", 30).is_err());
    // 61 seconds after the first request, it has left the window.
    assert!(limiter.check_rate_limit("ip", 71).is_ok());
    // But the window is full again now.
    assert!(limiter.check_rate_limit("ip", 72).is_err());
}

#[test]
fn full_window_refusal_does_not_affect_other_keys() {
    let mut limiter = RateLimiter::new(1, 60);
    assert!(limiter.check_rate_limit("a", 10).is_ok());
    assert!(limiter.check_rate_limit("a", 11).is_err());
    assert!(limiter.check_rate_limit("b", 12).is_ok());
}
