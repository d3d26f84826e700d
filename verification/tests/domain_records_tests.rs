//! The remaining domain records: customer merges and soft deletes,
//! posting updates and favorites, tags and their attachments, memos,
//! profiles, and the dashboard arithmetic.

use helpernote::files::{set_profile_photo, CustomerFile, FileType};
use helpernote::postings::{create_job_posting, CreateJobPostingRequest};
use helpernote::customers::{
    create_customer, CreateCustomerRequest, Customer, CustomerType, UpdateCustomerRequest,
};
use helpernote::dashboard::{dashboard_stats, MatchingJoinRow};
use helpernote::decimal::{dec_eq, dec_to_string, Dec};
use helpernote::matchings::{create_matching, CreateMatchingRequest};
use helpernote::memos::{create_customer_memo, CreateCustomerMemoRequest, UpdateMemoRequest};
use helpernote::postings::{
    JobPosting, PostingStatus, SettlementStatus, UpdateJobPostingRequest,
    UpdateSettlementRequest,
};
use helpernote::profile::{update_profile, profile_of, UpdateUserProfileRequest, ProfileError};
use helpernote::tags::{create_tag, CreateTagRequest, TagLinks, UpdateTagRequest};
use helpernote::users::UserRepository;

#[test]
fn customer_updates_merge_and_never_clear() {
    let req = CreateCustomerRequest {
        name: "Kim".to_string(),
        birth_date: Some(7_000),
        phone: "010-1111-2222".to_string(),
        address: Some("Seoul".to_string()),
        customer_type: CustomerType::Employer,
    };
    let c = create_customer(7, &req, 1, 100);
    assert_eq!(c.user_id, 7);
    assert_eq!(c.name, "Kim");

    let update = UpdateCustomerRequest {
        name: Some("Kim Min".to_string()),
        birth_date: None,
        phone: None,
        address: None,
        profile_photo_id: Some(9),
        customer_type: None,
    };
    let updated = c.apply_update(&update, 200);
    assert_eq!(updated.name, "Kim Min");
    // Unsupplied fields keep their stored values.
    assert_eq!(updated.birth_date, Some(7_000));
    assert_eq!(updated.phone, "010-1111-2222");
    assert_eq!(updated.address.as_deref(), Some("Seoul"));
    assert_eq!(updated.profile_photo_id, Some(9));

    let gone = updated.soft_delete(300);
    assert_eq!(gone.deleted_at, Some(300));
    assert!(!gone.is_visible_to(7));
}

#[test]
fn posting_updates_merge_and_favorites_toggle() {
    let posting = JobPosting {
        id: 1,
        customer_id: 2,
        salary: Dec::new(3_000_000, 0),
        description: "cook".to_string(),
        employer_fee_rate: None,
        settlement_status: SettlementStatus::Unsettled,
        settlement_amount: None,
        settlement_memo: None,
        posting_status: PostingStatus::Published,
        is_favorite: false,
        created_at: 0,
        updated_at: 0,
        deleted_at: None,
    };
    let update = UpdateJobPostingRequest {
        salary: Some(Dec::new(3_500_000, 0)),
        description: None,
        employer_fee_rate: Some(Dec::new(12, 0)),
        settlement_status: None,
        settlement_amount: None,
        settlement_memo: None,
        posting_status: Some(PostingStatus::InProgress),
        is_favorite: None,
    };
    let updated = posting.apply_update(&update, 50);
    assert!(dec_eq(&updated.salary, &Dec::new(3_500_000, 0)));
    assert_eq!(updated.description, "cook");
    assert_eq!(updated.posting_status, PostingStatus::InProgress);

    let flipped = updated.toggle_favorite(60);
    assert!(flipped.is_favorite);
    assert!(!flipped.toggle_favorite(70).is_favorite);

    let settled = flipped.update_settlement(
        &UpdateSettlementRequest {
            settlement_status: Some(SettlementStatus::Settled),
            settlement_amount: Some(Dec::new(420_000, 0)),
            settlement_memo: Some("paid in full".to_string()),
        },
        80,
    );
    assert_eq!(settled.settlement_status, SettlementStatus::Settled);
    assert!(dec_eq(&settled.settlement_amount.unwrap(), &Dec::new(420_000, 0)));
    assert_eq!(settled.settlement_memo.as_deref(), Some("paid in full"));
}

#[test]
fn test_tag_api_endpoints() {
    // Create, update, attach, re-attach, detach.
    let tag = create_tag(
        7,
        &CreateTagRequest {
            tag_name: "VIP".to_string(),
            tag_color: None,
            description: None,
        },
        1,
        10,
    );
    assert_eq!(tag.tag_color, "#6B7280");
    let renamed = tag.apply_update(
        &UpdateTagRequest {
            tag_name: Some("Priority".to_string()),
            tag_color: Some("#FF0000".to_string()),
            description: None,
        },
        20,
    );
    assert_eq!(renamed.tag_name, "Priority");
    assert_eq!(renamed.tag_color, "#FF0000");

    let mut links = TagLinks::new();
    links.attach(100, 1);
    links.attach(100, 1);
    assert!(links.is_linked(100, 1));
    assert_eq!(links.pairs.len(), 1);
    links.batch_attach(100, &vec![1, 2, 3]);
    assert_eq!(links.pairs.len(), 3);
    links.detach(100, 2);
    assert!(!links.is_linked(100, 2));
    assert!(links.is_linked(100, 3));
}

#[test]
fn memos_bind_to_their_path_entity() {
    let req = CreateCustomerMemoRequest {
        customer_id: 5,
        memo_content: "prefers weekday calls".to_string(),
    };
    // The path and body must agree on the customer.
    assert!(create_customer_memo(6, &req, 7, 1, 10).is_none());
    let memo = create_customer_memo(5, &req, 7, 1, 10).unwrap();
    assert_eq!(memo.customer_id, 5);
    assert_eq!(memo.created_by, Some(7));

    let edited = memo.apply_update(
        &UpdateMemoRequest { memo_content: "prefers evening calls".to_string() },
        20,
    );
    assert_eq!(edited.memo_content, "prefers evening calls");
    assert_eq!(edited.soft_delete(30).deleted_at, Some(30));
}

#[test]
fn test_profile_rates_must_stay_in_range() {
    let mut repo = UserRepository::new();
    let user = repo
        .create_user("alice", "h", 1, "a", None, 100)
        .unwrap();
    let over = UpdateUserProfileRequest {
        phone: None,
        default_employer_fee_rate: Some(Dec::new(101, 0)),
        default_employee_fee_rate: None,
    };
    assert_eq!(
        update_profile(&user, &over, 200).err(),
        Some(ProfileError::EmployerRateOutOfRange)
    );
    let fine = UpdateUserProfileRequest {
        phone: Some("010-9999-8888".to_string()),
        default_employer_fee_rate: Some(Dec::new(125, 1)),
        default_employee_fee_rate: Some(Dec::new(8, 0)),
    };
    let updated = update_profile(&user, &fine, 200).unwrap();
    assert_eq!(updated.phone.as_deref(), Some("010-9999-8888"));
    let rendered = profile_of(&updated);
    assert_eq!(rendered.default_employer_fee_rate, "12.5");
    assert_eq!(rendered.default_employee_fee_rate, "8");
}

#[test]
fn new_accounts_start_with_the_default_rates() {
    let mut repo = UserRepository::new();
    let user = repo.create_user("bob", "h", 1, "a", None, 100).unwrap();
    assert_eq!(dec_to_string(&user.default_employer_fee_rate), "15");
    assert_eq!(dec_to_string(&user.default_employee_fee_rate), "10");
}

#[test]
fn test_profile_photo_lifecycle() {
    let file = |id: i64, customer_id: i64, is_profile: bool| CustomerFile {
        id,
        customer_id,
        file_path: format!("customers/{customer_id}/{id}.png"),
        file_type: FileType::Image,
        file_size: Some(1_024),
        thumbnail_path: None,
        original_filename: None,
        mime_type: Some("image/png".to_string()),
        is_profile,
        created_at: 0,
        updated_at: 0,
        deleted_at: None,
    };
    let mut files = vec![file(1, 5, true), file(2, 5, false), file(3, 6, true)];
    // Choosing file 2 unmarks file 1 and leaves the other customer's
    // photo alone.
    set_profile_photo(&mut files, 5, 2, 100);
    assert!(!files[0].is_profile);
    assert!(files[1].is_profile);
    assert!(files[2].is_profile);
}

#[test]
fn postings_are_created_published_and_unsettled() {
    let posting = create_job_posting(
        &CreateJobPostingRequest {
            customer_id: 3,
            salary: Dec::new(4_000_000, 0),
            description: "driver".to_string(),
            employer_fee_rate: None,
        },
        9,
        50,
    );
    assert_eq!(posting.id, 9);
    assert_eq!(posting.posting_status, PostingStatus::Published);
    assert_eq!(posting.settlement_status, SettlementStatus::Unsettled);
    assert!(posting.settlement_amount.is_none());
    assert!(!posting.is_favorite);
}

#[test]
fn test_dashboard_stats_calculation() {
    let customers = vec![
        Customer {
            id: 1,
            user_id: 7,
            name: "A".to_string(),
            birth_date: None,
            phone: "1".to_string(),
            address: None,
            profile_photo_id: None,
            customer_type: CustomerType::Both,
            created_at: 0,
            updated_at: 0,
            deleted_at: None,
        },
        Customer {
            id: 2,
            user_id: 7,
            name: "B".to_string(),
            birth_date: None,
            phone: "2".to_string(),
            address: None,
            profile_photo_id: None,
            customer_type: CustomerType::Both,
            created_at: 0,
            updated_at: 0,
            deleted_at: Some(5),
        },
    ];
    let m = create_matching(
        &CreateMatchingRequest {
            job_posting_id: 1,
            job_seeking_posting_id: 2,
            agreed_salary: Dec::new(5_000_000, 0),
            employer_fee_rate: Dec::new(15, 0),
            employee_fee_rate: Dec::new(10, 0),
        },
        1,
        0,
    )
    .unwrap();
    let rows = vec![MatchingJoinRow {
        matching: m,
        posting_settlement: SettlementStatus::Unsettled,
        seeking_settlement: SettlementStatus::Settled,
    }];
    let stats = dashboard_stats(&customers, 7, 3, 2, &rows).unwrap();
    // The soft-deleted customer does not count.
    assert_eq!(stats.total_customers, 1);
    assert_eq!(stats.job_postings_count, 3);
    assert_eq!(stats.job_seekings_count, 2);
    assert_eq!(stats.matchings_count, 1);
    // Revenue sums both fees; pending only the unsettled employer side.
    assert!(dec_eq(&stats.total_revenue, &Dec::new(1_250_000, 0)));
    assert!(dec_eq(&stats.pending_amount, &Dec::new(750_000, 0)));
}
