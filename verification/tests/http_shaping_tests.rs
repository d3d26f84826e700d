//! The HTTP-facing shapes: same-origin checks, token extraction,
//! cookies, file kinds and storage paths, configuration parsing, the
//! health body, and the list filters.

use helpernote::config::{
    jwt_expiration_setting, max_connections_setting, port_setting, split_origins,
};
use helpernote::cookies::build_cookie;
use helpernote::csrf::{csrf_protect, origin_allowed, origin_from_url};
use helpernote::customers::{Customer, CustomerType};
use helpernote::decimal::Dec;
use helpernote::files::{file_extension, storage_path_for_customer, storage_path_for_user, FileType};
use helpernote::health::health_check;
use helpernote::listing::{list_job_postings, list_matchings, search_customers};
use helpernote::matchings::{create_matching, CreateMatchingRequest, MatchingStatus};
use helpernote::middleware::{cookie_value, extract_token};
use helpernote::postings::{JobPosting, PostingStatus, SettlementStatus};

#[test]
fn origins_compare_case_insensitively() {
    let allowed = vec![
        "http://localhost:3000".to_string(),
        "https://example.test".to_string(),
    ];
    assert!(origin_allowed("HTTP://LOCALHOST:3000", &allowed));
    assert!(origin_allowed("https://example.test", &allowed));
    assert!(!origin_allowed("https://evil.test", &allowed));
}

#[test]
fn referer_reduces_to_its_origin() {
    assert_eq!(
        origin_from_url("https://example.test/a/b?c=d"),
        Some("https://example.test".to_string())
    );
    assert_eq!(
        origin_from_url("http://h:8000"),
        Some("http://h:8000".to_string())
    );
    assert_eq!(origin_from_url("no-scheme-here"), None);
    assert_eq!(origin_from_url("://host"), None);
    assert_eq!(origin_from_url("https:///path"), None);
}

#[test]
fn csrf_rules_follow_the_headers() {
    let allowed = vec!["https://app.test".to_string()];
    // Safe methods always pass.
    assert!(csrf_protect(true, &allowed, Some("https://evil.test"), None));
    // A matching origin passes, a foreign one is refused.
    assert!(csrf_protect(false, &allowed, Some("https://app.test"), None));
    assert!(!csrf_protect(false, &allowed, Some("https://evil.test"), None));
    // Without an origin the referer decides.
    assert!(csrf_protect(
        false,
        &allowed,
        None,
        Some("https://app.test/page")
    ));
    assert!(!csrf_protect(
        false,
        &allowed,
        None,
        Some("https://evil.test/page")
    ));
    // Neither header: allowed through for native clients.
    assert!(csrf_protect(false, &allowed, None, None));
    // An empty allow-list disables the check.
    assert!(csrf_protect(false, &Vec::new(), Some("https://evil.test"), None));
}

#[test]
fn tokens_come_from_bearer_or_cookie() {
    assert_eq!(
        extract_token(Some("Bearer abc.def.ghi"), None),
        Some("abc.def.ghi".to_string())
    );
    assert_eq!(
        extract_token(None, Some("a=1; token=xyz; b=2")),
        Some("xyz".to_string())
    );
    // The bearer header wins over the cookie.
    assert_eq!(
        extract_token(Some("Bearer top"), Some("token=cookie")),
        Some("top".to_string())
    );
    assert_eq!(extract_token(Some("Basic zzz"), None), None);
    assert_eq!(cookie_value("refresh_token=r1; token=t1", "refresh_token"),
        Some("r1".to_string()));
    assert_eq!(cookie_value("tokenx=v", "token"), None);
}

#[test]
fn cookies_carry_the_session_attributes() {
    assert_eq!(
        build_cookie("token", "abc", 3600, true, false, None, false),
        "token=abc; Path=/; SameSite=Lax; Max-Age=3600; HttpOnly"
    );
    assert_eq!(
        build_cookie("token", "", 0, true, true, Some("example.test"), true),
        "token=; Path=/; SameSite=Lax; Max-Age=0; Domain=example.test; HttpOnly; Secure"
    );
    assert_eq!(
        build_cookie("refresh_token", "r", 604_800, true, false, Some("  "), false),
        "refresh_token=r; Path=/; SameSite=Lax; Max-Age=604800; HttpOnly"
    );
}

#[test]
fn mime_types_classify_files() {
    assert_eq!(FileType::from_mime_type("image/png"), FileType::Image);
    assert_eq!(FileType::from_mime_type("video/mp4"), FileType::Video);
    assert_eq!(FileType::from_mime_type("application/pdf"), FileType::Document);
    assert_eq!(
        FileType::from_mime_type("application/vnd.ms-excel"),
        FileType::Document
    );
    assert_eq!(
        FileType::from_mime_type("application/msword"),
        FileType::Document
    );
    assert_eq!(FileType::from_mime_type("text/plain"), FileType::Other);
}

#[test]
fn storage_paths_follow_the_convention() {
    assert_eq!(
        storage_path_for_customer(7, "f.png"),
        "customers/7/f.png"
    );
    assert_eq!(storage_path_for_user(12, "cv.pdf"), "users/12/cv.pdf");
    assert_eq!(file_extension("photo.final.png"), "png");
    assert_eq!(file_extension("noext"), "noext");
}

#[test]
fn configuration_values_fall_back_to_defaults() {
    assert_eq!(jwt_expiration_setting(Some("7200")), 7200);
    assert_eq!(jwt_expiration_setting(Some("oops")), 3600);
    assert_eq!(jwt_expiration_setting(None), 3600);
    assert_eq!(port_setting(Some("8080")), 8080);
    assert_eq!(port_setting(Some("70000")), 8000);
    assert_eq!(port_setting(None), 8000);
    assert_eq!(max_connections_setting(Some("12")), 12);
    assert_eq!(max_connections_setting(Some("0")), 5);
    assert_eq!(max_connections_setting(None), 5);
}

#[test]
fn origin_lists_split_and_trim() {
    let origins = split_origins(" https://a.test , ,https://b.test,");
    assert_eq!(
        origins,
        vec!["https://a.test".to_string(), "https://b.test".to_string()]
    );
}

#[test]
fn health_reports_database_state() {
    let (code, body) = health_check(true, "0.1.0".to_string(), Some(5));
    assert_eq!(code, 200);
    assert_eq!(body.status, "healthy");
    assert!(body.database);
    let (code, body) = health_check(false, "0.1.0".to_string(), None);
    assert_eq!(code, 503);
    assert_eq!(body.status, "degraded");
}

fn customer_named(id: i64, user_id: i64, name: &str, phone: &str) -> Customer {
    Customer {
        id,
        user_id,
        name: name.to_string(),
        birth_date: None,
        phone: phone.to_string(),
        address: None,
        profile_photo_id: None,
        customer_type: CustomerType::Employee,
        created_at: 0,
        updated_at: 0,
        deleted_at: None,
    }
}

#[test]
fn search_matches_name_or_phone_case_insensitively() {
    let rows = vec![
        customer_named(1, 7, "John Smith", "010-1111-2222"),
        customer_named(2, 7, "Jane Doe", "010-3333-4444"),
        customer_named(3, 8, "John Foreign", "010-5555-6666"),
    ];
    let hits = search_customers(&rows, 7, "john", None, None);
    assert_eq!(hits.len(), 1);
    assert_eq!(hits[0].id, 1);
    let hits = search_customers(&rows, 7, "3333", None, None);
    assert_eq!(hits.len(), 1);
    assert_eq!(hits[0].id, 2);
}

fn posting_with(id: i64, favorite: bool, deleted: bool) -> JobPosting {
    JobPosting {
        id,
        customer_id: 100,
        salary: Dec::new(1, 0),
        description: "x".to_string(),
        employer_fee_rate: None,
        settlement_status: SettlementStatus::Unsettled,
        settlement_amount: None,
        settlement_memo: None,
        posting_status: PostingStatus::Published,
        is_favorite: favorite,
        created_at: 0,
        updated_at: 0,
        deleted_at: if deleted { Some(9) } else { None },
    }
}

#[test]
fn list_filters_and_paginates() {
    let customers = vec![customer_named(100, 7, "Owner", "010-0000-0000")];
    let rows = vec![
        posting_with(1, true, false),
        posting_with(2, false, false),
        posting_with(3, true, true),
        posting_with(4, true, false),
    ];
    // Deleted rows never show; the favorite filter applies; newest
    // rows come first.
    let favorites = list_job_postings(&rows, &customers, 7, None, None, Some(true), None, None);
    assert_eq!(favorites.len(), 2);
    assert_eq!(favorites[0].id, 4);
    assert_eq!(favorites[1].id, 1);
    // Favorites lead the unfiltered list, then pagination cuts the
    // window: full order is 4, 1 (favorites) then 2.
    let page = list_job_postings(&rows, &customers, 7, None, None, None, Some(2), Some(1));
    assert_eq!(page.len(), 2);
    assert_eq!(page[0].id, 1);
    assert_eq!(page[1].id, 2);
    // Another user sees none of these postings.
    let foreign = list_job_postings(&rows, &customers, 8, None, None, None, None, None);
    assert!(foreign.is_empty());
}

#[test]
fn matching_list_filters_by_status() {
    let customers = vec![customer_named(100, 7, "Owner", "010-0000-0000")];
    let postings = vec![posting_with(1, false, false)];
    let a = create_matching(
        &CreateMatchingRequest {
            job_posting_id: 1,
            job_seeking_posting_id: 2,
            agreed_salary: Dec::new(100, 0),
            employer_fee_rate: Dec::new(10, 0),
            employee_fee_rate: Dec::new(5, 0),
        },
        1,
        0,
    )
    .unwrap();
    let b = a.complete(10).unwrap();
    let rows = vec![a, b];
    let done = list_matchings(
        &rows,
        &postings,
        &customers,
        7,
        Some(MatchingStatus::Completed),
        None,
        None,
    );
    assert_eq!(done.len(), 1);
    assert_eq!(done[0].matching_status, MatchingStatus::Completed);
    let open = list_matchings(
        &rows,
        &postings,
        &customers,
        7,
        Some(MatchingStatus::InProgress),
        None,
        None,
    );
    assert_eq!(open.len(), 1);
    // The matching list is scoped by the posting's owner: another user
    // sees nothing.
    let foreign = list_matchings(&rows, &postings, &customers, 9, None, None, None);
    assert!(foreign.is_empty());
    // Newest first: the later row leads the unfiltered list.
    let all = list_matchings(&rows, &postings, &customers, 7, None, None, None);
    assert_eq!(all.len(), 2);
    assert_eq!(all[0].matching_status, MatchingStatus::Completed);
}
