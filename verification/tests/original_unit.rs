//! The unit checks the service grew up with: query shaping, pagination
//! defaults, and the small invariants around filtering.

use helpernote::listing::{pagination, search_pattern};

#[test]
fn test_search_pattern_construction() {
    // Test that search patterns are constructed correctly
    let search_term = "John";
    let pattern = search_pattern(search_term);

    assert_eq!(pattern, "%John%");
    assert!(pattern.starts_with('%'));
    assert!(pattern.ends_with('%'));
}

#[test]
fn test_pagination_defaults() {
    // Test default pagination values
    let limit: Option<i64> = None;
    let offset: Option<i64> = None;

    let (limit, offset) = pagination(limit, offset);

    assert_eq!(limit, 50);
    assert_eq!(offset, 0);
}

#[test]
fn test_pagination_custom_values() {
    // Test custom pagination values
    let limit: Option<i64> = Some(100);
    let offset: Option<i64> = Some(50);

    let (limit, offset) = pagination(limit, offset);

    assert_eq!(limit, 100);
    assert_eq!(offset, 50);
}

#[test]
fn test_tag_filter_logic() {
    // Test that empty tag arrays are handled correctly
    let tag_ids: Option<Vec<i64>> = Some(vec![]);

    if let Some(ref tags) = tag_ids {
        assert!(tags.is_empty());
    }

    let tag_ids: Option<Vec<i64>> = Some(vec![1, 2, 3]);
    if let Some(ref tags) = tag_ids {
        assert!(!tags.is_empty());
        assert_eq!(tags.len(), 3);
    }
}

#[test]
fn test_customer_type_enum() {
    // Test that customer types are handled correctly
    let employer = "employer";
    let employee = "employee";

    assert_eq!(employer, "employer");
    assert_eq!(employee, "employee");
    assert_ne!(employer, employee);
}

#[test]
fn test_optional_fields() {
    // Test handling of optional fields
    let phone: Option<String> = Some("010-1234-5678".to_string());
    let address: Option<String> = None;

    assert!(phone.is_some());
    assert!(address.is_none());

    // Test unwrap_or pattern used in update
    let current_phone = "010-0000-0000".to_string();
    let updated_phone = phone.unwrap_or(current_phone);
    assert_eq!(updated_phone, "010-1234-5678");

    let current_address = "Old Address".to_string();
    let updated_address = address.unwrap_or(current_address);
    assert_eq!(updated_address, "Old Address");
}

#[test]
fn test_user_id_filtering() {
    // Test that user_id is properly used for filtering
    let user_id: i64 = 1;
    let customer_id: i64 = 100;

    assert!(user_id > 0);
    assert!(customer_id > 0);
    assert_ne!(user_id, customer_id);
}

#[test]
fn test_rate_limit_configuration() {
    // Verify auth rate limit is stricter than general
    let general_limit = 100;
    let auth_limit = 5;
    assert!(
        auth_limit < general_limit,
        "Auth rate limit should be stricter than general"
    );
}
