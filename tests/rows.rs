use libsql_orm::{blob_value, integer_value, null_value, LibsqlRow, LibsqlRows, OrmError, Value};

#[test]
fn row_access_by_index() {
    let row = LibsqlRow::from_values(
        vec!["id".to_string(), "data".to_string()],
        vec![integer_value(5), blob_value(vec![1, 2, 3])],
    );
    assert_eq!(row.column_count(), 2);
    assert_eq!(row.get(0), Ok(&Value::Integer(5)));
    assert_eq!(row.get_value(1), Some(Value::Blob(vec![1, 2, 3])));
    assert!(matches!(row.get(2), Err(OrmError::Decode(_))));
    assert_eq!(row.get_value(2), None);
    assert_eq!(row.column_name(1), Some("data"));
    assert_eq!(row.column_name(2), None);
    let empty = LibsqlRow::new();
    assert_eq!(empty.column_count(), 0);
}

#[test]
fn cursor_hands_out_rows_in_order() {
    let rows = vec![
        LibsqlRow::from_values(vec![], vec![integer_value(1)]),
        LibsqlRow::from_values(vec![], vec![null_value()]),
    ];
    let mut cursor = LibsqlRows::new(rows);
    assert_eq!(cursor.next().unwrap().values, vec![Value::Integer(1)]);
    assert_eq!(cursor.next().unwrap().values, vec![Value::Null]);
    assert!(cursor.next().is_none());
    assert!(cursor.next().is_none());
}
