use libsql_orm::model::{paginate, search_query};
use libsql_orm::{
    real_value, text_value, Column, Filter, FilterOperator, OrmError, Pagination, QueryBuilder,
    SearchFilter, TableSchema, Value,
};

fn col(name: &str, sql_type: &str, primary_key: bool, optional: bool) -> Column {
    Column { name: name.to_string(), sql_type: sql_type.to_string(), primary_key, optional }
}

fn users() -> TableSchema {
    TableSchema {
        table: "users".to_string(),
        columns: vec![
            col("id", "INTEGER PRIMARY KEY AUTOINCREMENT", true, true),
            col("name", "TEXT", false, false),
            col("email", "TEXT", false, false),
            col("age", "INTEGER", false, true),
            col("score", "REAL", false, true),
            col("is_active", "INTEGER", false, false),
        ],
    }
}

fn row(id: Option<i64>, name: &str, age: Option<i64>, score: Option<f64>, active: bool) -> Vec<Value> {
    vec![
        id.map(Value::Integer).unwrap_or(Value::Null),
        Value::Text(name.to_string()),
        Value::Text(format!("{}@example.com", name.to_lowercase())),
        age.map(Value::Integer).unwrap_or(Value::Null),
        score.map(|s| Value::Real(s.to_bits())).unwrap_or(Value::Null),
        Value::from_bool(active),
    ]
}

#[test]
fn migration_sql_declares_columns() {
    assert_eq!(
        users().migration_sql(),
        "CREATE TABLE IF NOT EXISTS users (id INTEGER PRIMARY KEY AUTOINCREMENT, name TEXT NOT NULL, \
         email TEXT NOT NULL, age INTEGER, score REAL, is_active INTEGER NOT NULL)"
    );
}

#[test]
fn insert_leaves_out_unset_key() {
    let st = users().insert_statement(&row(None, "Alice", Some(30), Some(98.5), true));
    assert_eq!(
        st.sql,
        "INSERT INTO users (name, email, age, score, is_active) VALUES (?, ?, ?, ?, ?)"
    );
    assert_eq!(st.params.len(), 5);
    assert_eq!(st.params[0], Value::Text("Alice".to_string()));
    assert_eq!(st.params[3], Value::Real(98.5f64.to_bits()));
    assert_eq!(st.params[4], Value::Integer(1));
}

#[test]
fn insert_keeps_set_key() {
    let st = users().insert_statement(&row(Some(7), "Bob", None, None, false));
    assert_eq!(
        st.sql,
        "INSERT INTO users (id, name, email, age, score, is_active) VALUES (?, ?, ?, ?, ?, ?)"
    );
    assert_eq!(st.params[0], Value::Integer(7));
    assert_eq!(st.params[3], Value::Null);
    assert_eq!(st.params[4], Value::Null);
    assert_eq!(st.params[5], Value::Integer(0));
}

#[test]
fn insert_with_only_unset_key_uses_defaults() {
    let schema = TableSchema {
        table: "t".to_string(),
        columns: vec![col("id", "INTEGER PRIMARY KEY", true, true)],
    };
    let st = schema.insert_statement(&vec![Value::Null]);
    assert_eq!(st.sql, "INSERT INTO t DEFAULT VALUES");
    assert!(st.params.is_empty());
}

#[test]
fn update_sets_every_other_column_by_key() {
    let st = users().update_statement(&row(Some(3), "After", Some(19), Some(77.25), true)).unwrap();
    assert_eq!(
        st.sql,
        "UPDATE users SET name = ?, email = ?, age = ?, score = ?, is_active = ? WHERE id = ?"
    );
    assert_eq!(st.params.len(), 6);
    assert_eq!(st.params[0], Value::Text("After".to_string()));
    assert_eq!(st.params[2], Value::Integer(19));
    assert_eq!(st.params[3], Value::Real(77.25f64.to_bits()));
    assert_eq!(st.params[5], Value::Integer(3));
}

#[test]
fn update_without_key_value_is_refused() {
    let r = users().update_statement(&row(None, "X", None, None, true));
    assert!(matches!(r, Err(OrmError::Validation(_))));
}

#[test]
fn table_without_key_refuses_key_operations() {
    let schema = TableSchema { table: "logs".to_string(), columns: vec![col("line", "TEXT", false, false)] };
    assert!(matches!(schema.delete_statement(Value::Integer(1)), Err(OrmError::Validation(_))));
    assert!(matches!(schema.bulk_delete_statement(vec![]), Err(OrmError::Validation(_))));
    assert!(matches!(schema.find_by_id_query(Value::Integer(1)), Err(OrmError::Validation(_))));
    assert!(matches!(
        schema.update_statement(&vec![Value::Text("x".to_string())]),
        Err(OrmError::Validation(_))
    ));
    assert_eq!(schema.primary_key_index(), None);
    assert_eq!(users().primary_key_index(), Some(0));
}

#[test]
fn delete_by_key() {
    let st = users().delete_statement(Value::Integer(123456)).unwrap();
    assert_eq!(st.sql, "DELETE FROM users WHERE id = ?");
    assert_eq!(st.params, vec![Value::Integer(123456)]);
}

#[test]
fn bulk_delete_by_keys() {
    let st = users().bulk_delete_statement(vec![Value::Integer(1), Value::Integer(2)]).unwrap();
    assert_eq!(st.sql, "DELETE FROM users WHERE id IN (?, ?)");
    assert_eq!(st.params, vec![Value::Integer(1), Value::Integer(2)]);
}

#[test]
fn bulk_delete_of_no_keys_deletes_nothing() {
    let st = users().bulk_delete_statement(vec![]).unwrap();
    assert_eq!(st.sql, "DELETE FROM users WHERE 1 = 0");
    assert!(st.params.is_empty());
}

#[test]
fn delete_where_filter() {
    let st = users().delete_where_statement(&FilterOperator::Single(Filter::gt("age", Value::Integer(30))));
    assert_eq!(st.sql, "DELETE FROM users WHERE age > ?");
    assert_eq!(st.params, vec![Value::Integer(30)]);
}

#[test]
fn create_or_update_inserts_without_key_and_updates_with_key() {
    let st = users().create_or_update_statement(&row(None, "COU", Some(44), None, true));
    assert!(st.sql.starts_with("INSERT INTO users (name,"));
    let st = users().create_or_update_statement(&row(Some(5), "New", Some(21), None, true));
    assert!(st.sql.starts_with("UPDATE users SET name = ?"));
    assert_eq!(st.params.last(), Some(&Value::Integer(5)));
}

#[test]
fn find_by_id_reads_at_most_one_row() {
    let schema = users();
    let q = schema.find_by_id_query(Value::Integer(999999)).unwrap();
    let st = q.select_statement(&schema.column_names());
    assert_eq!(
        st.sql,
        "SELECT id, name, email, age, score, is_active FROM users WHERE id = ? LIMIT 1"
    );
    assert_eq!(st.params, vec![Value::Integer(999999)]);
}

#[test]
fn find_where_and_find_all() {
    let schema = users();
    let st = schema.find_all_query().select_statement(&vec![]);
    assert_eq!(st.sql, "SELECT * FROM users");
    let op = FilterOperator::And(vec![
        FilterOperator::Single(Filter::gt("age", Value::Integer(30))),
        FilterOperator::Single(Filter::eq("is_active", Value::from_bool(false))),
    ]);
    let st = schema.find_where_query(op).select_statement(&vec![]);
    assert_eq!(st.sql, "SELECT * FROM users WHERE (age > ?) AND (is_active = ?)");
    assert_eq!(st.params, vec![Value::Integer(30), Value::Integer(0)]);
    let st = schema.find_all_query().count_statement();
    assert_eq!(st.sql, "SELECT COUNT(*) FROM users");
}

#[test]
fn paginated_query_of_third_page() {
    let q = paginate(QueryBuilder::new("users"), &Pagination::new(3, 2)).unwrap();
    assert_eq!(q.select_statement(&vec![]).sql, "SELECT * FROM users LIMIT 2 OFFSET 4");
    assert!(matches!(
        paginate(QueryBuilder::new("users"), &Pagination::new(0, 2)),
        Err(OrmError::Validation(_))
    ));
}

#[test]
fn search_query_over_columns() {
    let s = SearchFilter::new("needle", vec!["name".to_string(), "email".to_string()]);
    let st = search_query("users", &s).select_statement(&vec![]);
    assert_eq!(st.sql, "SELECT * FROM users WHERE (name LIKE ?) OR (email LIKE ?)");
}

#[test]
fn values_pass_through_unchanged() {
    let special = "O'Reilly & Sons (R&D)";
    let unicode = "\u{4f60}\u{597d} \u{4e16}\u{754c}";
    let st = users().insert_statement(&vec![
        Value::Null,
        text_value(special.to_string()),
        text_value(unicode.to_string()),
        Value::Null,
        real_value(42.125f64.to_bits()),
        Value::from_bool(false),
    ]);
    assert_eq!(st.params[0], Value::Text(special.to_string()));
    assert_eq!(st.params[1], Value::Text(unicode.to_string()));
    assert_eq!(st.params[2], Value::Null);
    match &st.params[3] {
        Value::Real(bits) => assert_eq!(f64::from_bits(*bits), 42.125),
        other => panic!("expected a real, got {:?}", other),
    }
    assert_eq!(st.params[4], Value::Integer(0));
}

#[test]
fn well_formedness_allows_at_most_one_key() {
    assert!(users().is_well_formed());
    let none = TableSchema { table: "t".to_string(), columns: vec![col("a", "TEXT", false, false)] };
    assert!(none.is_well_formed());
    let two = TableSchema {
        table: "t".to_string(),
        columns: vec![col("a", "INTEGER", true, false), col("b", "INTEGER", true, false)],
    };
    assert!(!two.is_well_formed());
}

#[test]
fn key_value_of_rows() {
    assert_eq!(users().key_value(&row(Some(9), "K", None, None, true)), Some(Value::Integer(9)));
    assert_eq!(users().key_value(&row(None, "K", None, None, true)), None);
}
