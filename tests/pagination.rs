use libsql_orm::pagination::total_pages_for;
use libsql_orm::{render, OrmError, Pagination, SearchFilter, Value};

#[test]
fn five_rows_two_per_page_make_three_pages() {
    assert_eq!(total_pages_for(5, 2), 3);
    let p = Pagination::new(1, 2).with_total(5);
    assert_eq!(p.total, Some(5));
    assert_eq!(p.total_pages, Some(3));
}

#[test]
fn page_counts_round_up() {
    assert_eq!(total_pages_for(0, 3), 0);
    assert_eq!(total_pages_for(6, 3), 2);
    assert_eq!(total_pages_for(7, 3), 3);
    assert_eq!(total_pages_for(u64::MAX, 1), u64::MAX);
    assert_eq!(total_pages_for(u64::MAX, 2), u64::MAX / 2 + 1);
}

#[test]
fn windows_of_pages() {
    assert_eq!(Pagination::new(1, 2).window(), Ok((2, 0)));
    assert_eq!(Pagination::new(3, 2).window(), Ok((2, 4)));
    // page 4 of 5 rows starts at row 6: past the end, so no row
    let (_, offset) = Pagination::new(4, 2).window().unwrap();
    assert!(offset >= 5);
}

#[test]
fn zero_page_or_page_size_is_refused() {
    assert!(matches!(Pagination::new(0, 2).window(), Err(OrmError::Validation(_))));
    assert!(matches!(Pagination::new(1, 0).window(), Err(OrmError::Validation(_))));
    assert!(matches!(Pagination::new(u64::MAX, 2).window(), Err(OrmError::Validation(_))));
}

#[test]
fn search_ors_like_over_columns() {
    let s = SearchFilter::new("needle", vec!["name".to_string(), "email".to_string()]);
    let (sql, params) = render(&s.to_filter_operator());
    assert_eq!(sql, "(name LIKE ?) OR (email LIKE ?)");
    assert_eq!(
        params,
        vec![Value::Text("%needle%".to_string()), Value::Text("%needle%".to_string())]
    );
}

#[test]
fn search_without_columns_matches_nothing() {
    let s = SearchFilter::new("needle", vec![]);
    let (sql, params) = render(&s.to_filter_operator());
    assert_eq!(sql, "1 = 0");
    assert!(params.is_empty());
}
