//! The matching lifecycle end to end: exact fee computation, the merge
//! rules of partial updates, the terminal states, and settlement
//! accumulation.

use helpernote::decimal::{dec_eq, fee_amount, Dec};
use helpernote::matchings::{
    create_matching, CreateMatchingRequest, MatchingError, MatchingStatus, UpdateMatchingRequest,
};
use helpernote::postings::{JobPosting, JobSeekingPosting, PostingStatus, SettlementStatus};
use helpernote::workflow::{complete_matching_flow, CompletionError};
use helpernote::customers::{create_customer, CreateCustomerRequest, CustomerType};
use helpernote::dashboard::{dashboard_stats, MatchingJoinRow};

fn sample_request() -> CreateMatchingRequest {
    CreateMatchingRequest {
        job_posting_id: 10,
        job_seeking_posting_id: 20,
        agreed_salary: Dec::new(5_000_000, 0),
        employer_fee_rate: Dec::new(15, 0),
        employee_fee_rate: Dec::new(10, 0),
    }
}

fn sample_posting(id: i64, customer_id: i64) -> JobPosting {
    JobPosting {
        id,
        customer_id,
        salary: Dec::new(5_000_000, 0),
        description: "housekeeper".to_string(),
        employer_fee_rate: None,
        settlement_status: SettlementStatus::Unsettled,
        settlement_amount: None,
        settlement_memo: None,
        posting_status: PostingStatus::Published,
        is_favorite: false,
        created_at: 0,
        updated_at: 0,
        deleted_at: None,
    }
}

fn sample_seeking(id: i64, customer_id: i64) -> JobSeekingPosting {
    JobSeekingPosting {
        id,
        customer_id,
        desired_salary: Dec::new(5_000_000, 0),
        description: "seeking housekeeping work".to_string(),
        preferred_location: "Seoul".to_string(),
        employee_fee_rate: None,
        settlement_status: SettlementStatus::Unsettled,
        settlement_amount: None,
        settlement_memo: None,
        posting_status: PostingStatus::Published,
        is_favorite: false,
        created_at: 0,
        updated_at: 0,
        deleted_at: None,
    }
}

#[test]
fn fee_calculation_is_exact() {
    // 5,000,000 at 15% is exactly 750,000; at 10% exactly 500,000.
    let salary = Dec::new(5_000_000, 0);
    let employer_fee = fee_amount(&salary, &Dec::new(15, 0)).unwrap();
    let employee_fee = fee_amount(&salary, &Dec::new(10, 0)).unwrap();
    assert!(dec_eq(&employer_fee, &Dec::new(750_000, 0)));
    assert!(dec_eq(&employee_fee, &Dec::new(500_000, 0)));
}

#[test]
fn fee_calculation_keeps_fractional_rates_exact() {
    // 5,000,000 at 12.5% is exactly 625,000 — no rounding drift.
    let salary = Dec::new(5_000_000, 0);
    let rate = Dec::new(125, 1);
    let fee = fee_amount(&salary, &rate).unwrap();
    assert!(dec_eq(&fee, &Dec::new(625_000, 0)));
}

#[test]
fn create_matching_computes_both_fees() {
    let m = create_matching(&sample_request(), 1, 1_000).unwrap();
    assert_eq!(m.matching_status, MatchingStatus::InProgress);
    assert!(dec_eq(&m.employer_fee_amount.unwrap(), &Dec::new(750_000, 0)));
    assert!(dec_eq(&m.employee_fee_amount.unwrap(), &Dec::new(500_000, 0)));
}

#[test]
fn test_fee_recalculation() {
    // New values 5,500,000 at 12% give 660,000, different from the
    // original 750,000.
    let m = create_matching(&sample_request(), 1, 1_000).unwrap();
    let update = UpdateMatchingRequest {
        agreed_salary: Some(Dec::new(5_500_000, 0)),
        employer_fee_rate: Some(Dec::new(12, 0)),
        employee_fee_rate: None,
        matching_status: None,
        cancellation_reason: None,
    };
    let updated = m.update_details(&update).unwrap();
    let new_fee = updated.employer_fee_amount.unwrap();
    assert!(dec_eq(&new_fee, &Dec::new(660_000, 0)));
    assert!(!dec_eq(&new_fee, &Dec::new(750_000, 0)));
    // The employee fee is recomputed from the merged salary too.
    assert!(dec_eq(
        &updated.employee_fee_amount.unwrap(),
        &Dec::new(550_000, 0)
    ));
}

#[test]
fn test_matching_update_validation() {
    // The details endpoint refuses status changes and cancellation
    // reasons.
    let m = create_matching(&sample_request(), 1, 1_000).unwrap();
    let status_change = UpdateMatchingRequest {
        agreed_salary: None,
        employer_fee_rate: None,
        employee_fee_rate: None,
        matching_status: Some(MatchingStatus::Completed),
        cancellation_reason: None,
    };
    assert_eq!(
        m.update_details(&status_change).err(),
        Some(MatchingError::StatusChangeNotAllowed)
    );
    let reason_change = UpdateMatchingRequest {
        agreed_salary: None,
        employer_fee_rate: None,
        employee_fee_rate: None,
        matching_status: None,
        cancellation_reason: Some("changed my mind".to_string()),
    };
    assert_eq!(
        m.update_details(&reason_change).err(),
        Some(MatchingError::ReasonChangeNotAllowed)
    );
}

#[test]
fn status_endpoint_refuses_cancellation() {
    // Cancelling must go through the dedicated cancel operation.
    let m = create_matching(&sample_request(), 1, 1_000).unwrap();
    let req = UpdateMatchingRequest {
        agreed_salary: None,
        employer_fee_rate: None,
        employee_fee_rate: None,
        matching_status: Some(MatchingStatus::Cancelled),
        cancellation_reason: None,
    };
    assert_eq!(
        m.update_status(&req).err(),
        Some(MatchingError::StatusChangeNotAllowed)
    );
}

#[test]
fn status_endpoint_respects_terminal_states() {
    // Once completed or cancelled, the generic status endpoint refuses
    // to move the matching anywhere else — completed rows cannot be
    // reopened as in-progress.
    let m = create_matching(&sample_request(), 1, 1_000).unwrap();
    let done = m.complete(2_000).unwrap();
    let reopen = UpdateMatchingRequest {
        agreed_salary: None,
        employer_fee_rate: None,
        employee_fee_rate: None,
        matching_status: Some(MatchingStatus::InProgress),
        cancellation_reason: None,
    };
    assert_eq!(
        done.update_status(&reopen).err(),
        Some(MatchingError::TerminalState)
    );
    let cancelled = m.cancel(2_000, 7, None).unwrap();
    let finish = UpdateMatchingRequest {
        agreed_salary: None,
        employer_fee_rate: None,
        employee_fee_rate: None,
        matching_status: Some(MatchingStatus::Completed),
        cancellation_reason: None,
    };
    assert_eq!(
        cancelled.update_status(&finish).err(),
        Some(MatchingError::TerminalState)
    );
    // From in-progress, a completion through the status endpoint is
    // still a permitted transition.
    let via_status = m
        .update_status(&UpdateMatchingRequest {
            agreed_salary: None,
            employer_fee_rate: None,
            employee_fee_rate: None,
            matching_status: Some(MatchingStatus::Completed),
            cancellation_reason: None,
        })
        .unwrap();
    assert_eq!(via_status.matching_status, MatchingStatus::Completed);
}

#[test]
fn complete_twice_rejects_the_second() {
    let m = create_matching(&sample_request(), 1, 1_000).unwrap();
    let done = m.complete(2_000).unwrap();
    assert_eq!(done.matching_status, MatchingStatus::Completed);
    assert_eq!(done.completed_at, Some(2_000));
    assert_eq!(done.complete(3_000).err(), Some(MatchingError::AlreadyCompleted));
}

#[test]
fn cancel_after_complete_fails_and_inverse_blocks() {
    let m = create_matching(&sample_request(), 1, 1_000).unwrap();

    // Completed first: cancellation is refused.
    let done = m.complete(2_000).unwrap();
    assert_eq!(
        done.cancel(3_000, 7, None).err(),
        Some(MatchingError::CompletedCannotCancel)
    );

    // Cancelled first: the cancellation succeeds, then every further
    // transition is blocked.
    let cancelled = m.cancel(2_000, 7, Some("no show".to_string())).unwrap();
    assert_eq!(cancelled.matching_status, MatchingStatus::Cancelled);
    assert_eq!(cancelled.cancelled_by, Some(7));
    assert_eq!(
        cancelled.complete(3_000).err(),
        Some(MatchingError::CancelledCannotComplete)
    );
    assert_eq!(
        cancelled.cancel(3_000, 7, None).err(),
        Some(MatchingError::AlreadyCancelled)
    );
}

#[test]
fn test_settlement_auto_calculation() {
    // Completion credits each side's settlement with its fee.
    let m = create_matching(&sample_request(), 1, 1_000).unwrap();
    let posting = sample_posting(10, 100);
    let seeking = sample_seeking(20, 100);
    let (done, posting, seeking) =
        complete_matching_flow(&m, &posting, &seeking, 2_000).unwrap();
    assert_eq!(done.matching_status, MatchingStatus::Completed);
    assert!(dec_eq(
        &posting.settlement_amount.unwrap(),
        &Dec::new(750_000, 0)
    ));
    assert!(dec_eq(
        &seeking.settlement_amount.unwrap(),
        &Dec::new(500_000, 0)
    ));
}

#[test]
fn test_settlement_amount_accumulation() {
    // Two completed matchings against one posting leave the sum of the
    // two fees, not the last one nor the larger one.
    let posting = sample_posting(10, 100);
    let seeking = sample_seeking(20, 100);

    let first = create_matching(&sample_request(), 1, 1_000).unwrap();
    let (_, posting, seeking) =
        complete_matching_flow(&first, &posting, &seeking, 2_000).unwrap();

    let mut second_req = sample_request();
    second_req.agreed_salary = Dec::new(2_000_000, 0);
    let second = create_matching(&second_req, 2, 3_000).unwrap();
    let (_, posting, seeking) =
        complete_matching_flow(&second, &posting, &seeking, 4_000).unwrap();

    // 750,000 + 300,000 and 500,000 + 200,000.
    assert!(dec_eq(
        &posting.settlement_amount.unwrap(),
        &Dec::new(1_050_000, 0)
    ));
    assert!(dec_eq(
        &seeking.settlement_amount.unwrap(),
        &Dec::new(700_000, 0)
    ));
}

#[test]
fn test_full_matching_workflow() {
    // Create the customer's posting pair, match them, adjust the deal,
    // complete it, and watch the settlements and the dashboard follow.
    let employer = create_customer(
        7,
        &CreateCustomerRequest {
            name: "Employer Kim".to_string(),
            birth_date: None,
            phone: "010-1111-1111".to_string(),
            address: None,
            customer_type: CustomerType::Employer,
        },
        100,
        10,
    );
    let posting = sample_posting(10, employer.id);
    let seeking = sample_seeking(20, employer.id);

    let matching = create_matching(&sample_request(), 1, 20).unwrap();

    // Raise the salary; both fees are recomputed from the merged deal.
    let raised = matching
        .update_details(&UpdateMatchingRequest {
            agreed_salary: Some(Dec::new(6_000_000, 0)),
            employer_fee_rate: None,
            employee_fee_rate: None,
            matching_status: None,
            cancellation_reason: None,
        })
        .unwrap();
    assert!(dec_eq(&raised.employer_fee_amount.clone().unwrap(), &Dec::new(900_000, 0)));

    let (done, posting, seeking) =
        complete_matching_flow(&raised, &posting, &seeking, 30).unwrap();
    assert_eq!(done.matching_status, MatchingStatus::Completed);
    assert!(dec_eq(&posting.settlement_amount.clone().unwrap(), &Dec::new(900_000, 0)));
    assert!(dec_eq(&seeking.settlement_amount.clone().unwrap(), &Dec::new(600_000, 0)));

    let stats = dashboard_stats(
        &vec![employer],
        7,
        1,
        1,
        &vec![MatchingJoinRow {
            matching: done,
            posting_settlement: posting.settlement_status,
            seeking_settlement: seeking.settlement_status,
        }],
    )
    .unwrap();
    assert_eq!(stats.total_customers, 1);
    assert_eq!(stats.matchings_count, 1);
    assert!(dec_eq(&stats.total_revenue, &Dec::new(1_500_000, 0)));
}

#[test]
fn completing_a_cancelled_matching_reports_the_transition() {
    let m = create_matching(&sample_request(), 1, 1_000).unwrap();
    let cancelled = m.cancel(2_000, 7, None).unwrap();
    let posting = sample_posting(10, 100);
    let seeking = sample_seeking(20, 100);
    let refused = complete_matching_flow(&cancelled, &posting, &seeking, 3_000);
    assert_eq!(
        refused.err(),
        Some(CompletionError::Transition(
            MatchingError::CancelledCannotComplete
        ))
    );
}
