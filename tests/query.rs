use libsql_orm::query::count_from_row;
use libsql_orm::sql::decimal_text;
use libsql_orm::{Filter, FilterOperator, LibsqlRow, OrmError, QueryBuilder, Sort, SortOrder, Value};

#[test]
fn select_all_columns_without_clauses() {
    let st = QueryBuilder::new("users").select_statement(&vec![]);
    assert_eq!(st.sql, "SELECT * FROM users");
    assert!(st.params.is_empty());
}

#[test]
fn select_with_filter() {
    let q = QueryBuilder::new("users")
        .where_filter(FilterOperator::Single(Filter::gt("age", Value::Integer(30))));
    let st = q.select_statement(&vec!["id".to_string(), "name".to_string()]);
    assert_eq!(st.sql, "SELECT id, name FROM users WHERE age > ?");
    assert_eq!(st.params, vec![Value::Integer(30)]);
}

#[test]
fn select_with_order_limit_offset() {
    let q = QueryBuilder::new("users")
        .order_by(Sort::new("age", SortOrder::Asc))
        .order_by(Sort::new("name", SortOrder::Desc))
        .limit(1)
        .offset(1);
    let st = q.select_statement(&vec![]);
    assert_eq!(st.sql, "SELECT * FROM users ORDER BY age ASC, name DESC LIMIT 1 OFFSET 1");
}

#[test]
fn where_filter_replaces_earlier_filter() {
    let q = QueryBuilder::new("users")
        .where_filter(FilterOperator::Single(Filter::gt("age", Value::Integer(30))))
        .where_filter(FilterOperator::Single(Filter::eq("name", Value::Text("x".to_string()))));
    let st = q.select_statement(&vec![]);
    assert_eq!(st.sql, "SELECT * FROM users WHERE name = ?");
    assert_eq!(st.params, vec![Value::Text("x".to_string())]);
}

#[test]
fn count_ignores_sort_limit_offset() {
    let q = QueryBuilder::new("users")
        .where_filter(FilterOperator::Single(Filter::gt("age", Value::Integer(30))))
        .order_by(Sort::new("age", SortOrder::Asc))
        .limit(10)
        .offset(20);
    let st = q.count_statement();
    assert_eq!(st.sql, "SELECT COUNT(*) FROM users WHERE age > ?");
    assert_eq!(st.params, vec![Value::Integer(30)]);
}

#[test]
fn decimal_text_of_numbers() {
    assert_eq!(decimal_text(0), "0");
    assert_eq!(decimal_text(7), "7");
    assert_eq!(decimal_text(10), "10");
    assert_eq!(decimal_text(1234567890), "1234567890");
    assert_eq!(decimal_text(u64::MAX), u64::MAX.to_string());
}

#[test]
fn count_result_decoding() {
    assert_eq!(count_from_row(&LibsqlRow::from_values(vec![], vec![Value::Integer(3)])), Ok(3));
    assert!(matches!(
        count_from_row(&LibsqlRow::from_values(vec![], vec![Value::Text("3".to_string())])),
        Err(OrmError::Decode(_))
    ));
    assert!(matches!(count_from_row(&LibsqlRow::new()), Err(OrmError::Decode(_))));
    assert!(matches!(
        count_from_row(&LibsqlRow::from_values(vec![], vec![Value::Integer(-1)])),
        Err(OrmError::Decode(_))
    ));
}
