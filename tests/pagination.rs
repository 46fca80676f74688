use graphql_api::models::pagination::{has_next_page, has_previous_page, PageError, PageRequest};

#[test]
fn request_from_the_first_row() {
    let r = PageRequest::new(None, 10).unwrap();
    assert_eq!(r.after_key, None);
    assert_eq!(r.limit, 10);
}

#[test]
fn request_after_a_key() {
    let r = PageRequest::new(Some(42), 5).unwrap();
    assert_eq!(r.after_key, Some(42));
    assert_eq!(r.limit, 5);
    assert_eq!(PageRequest::new(Some(1), 0).unwrap().limit, 0);
}

#[test]
fn request_rejects_a_negative_size() {
    assert_eq!(PageRequest::new(None, -1), Err(PageError::NegativePageSize));
    assert_eq!(PageRequest::new(Some(3), i32::MIN), Err(PageError::NegativePageSize));
}

#[test]
fn next_page_flag() {
    assert!(has_next_page(10, 10, 25));
    assert!(!has_next_page(20, 5, 25));
    assert!(!has_next_page(0, 0, 0));
    assert!(has_next_page(0, 0, 1));
    assert!(!has_next_page(i64::MAX, usize::MAX, i64::MAX));
}

#[test]
fn next_page_flag_matches_rows_past_a_full_window() {
    for total in 0i64..40 {
        for before in 0i64..30 {
            let on_page = (total - before).max(0).min(7);
            assert_eq!(has_next_page(before, on_page as usize, total), total > before + 7);
        }
    }
}

#[test]
fn previous_page_flag() {
    assert!(!has_previous_page(0));
    assert!(has_previous_page(1));
    assert!(has_previous_page(20));
}
