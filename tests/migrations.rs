use libsql_orm::migrations::{
    create_migration, execute_migration_statements, executed_of, generate_migration_name,
    init_statement, migration_from_row, migration_name_from, migration_statements,
    migrations_from_rows, pending_of, rollback_statement, select_migrations_statement,
};
use libsql_orm::templates::{add_column, create_index, create_table, drop_column, drop_index};
use libsql_orm::{Migration, MigrationBuilder, OrmError, Timestamp, Value};

fn text(s: &str) -> Value {
    Value::Text(s.to_string())
}

fn migration(id: &str, executed: bool) -> Migration {
    Migration {
        id: id.to_string(),
        name: format!("m_{id}"),
        sql: "SELECT 1".to_string(),
        created_at: Timestamp { secs: 0, nanos: 0 },
        executed_at: if executed { Some(Timestamp { secs: 60, nanos: 0 }) } else { None },
    }
}

#[test]
fn builder_sets_name_and_sql() {
    let m = MigrationBuilder::new("create_projects")
        .up("CREATE TABLE projects (id INTEGER PRIMARY KEY AUTOINCREMENT, name TEXT NOT NULL)")
        .down("DROP TABLE projects")
        .build();
    assert_eq!(m.name, "create_projects");
    assert_eq!(
        m.sql,
        "CREATE TABLE projects (id INTEGER PRIMARY KEY AUTOINCREMENT, name TEXT NOT NULL)"
    );
    assert_eq!(m.id.len(), 36);
    assert!(m.executed_at.is_none());
}

#[test]
fn builder_keeps_down_script() {
    let b = MigrationBuilder::new("x").down("DROP TABLE x");
    assert_eq!(b.down_sql.as_deref(), Some("DROP TABLE x"));
    assert_eq!(b.up_sql, "");
}

#[test]
fn created_migrations_get_distinct_ids() {
    let a = create_migration("a", "SELECT 1");
    let b = create_migration("a", "SELECT 1");
    assert_ne!(a.id, b.id);
    assert_eq!(a.sql, "SELECT 1");
    assert!(a.created_at.nanos < 2_000_000_000);
}

#[test]
fn init_creates_tracking_table_if_missing() {
    let st = init_statement();
    assert_eq!(
        st.sql,
        "CREATE TABLE IF NOT EXISTS migrations (id TEXT PRIMARY KEY, name TEXT NOT NULL, sql TEXT NOT NULL, created_at TEXT NOT NULL, executed_at TEXT)"
    );
    assert!(st.params.is_empty());
}

#[test]
fn execution_is_begin_sql_record_commit() {
    let m = migration("abc", false);
    let v = migration_statements(&m, "c-time", "e-time");
    assert_eq!(v.len(), 4);
    assert_eq!(v[0].sql, "BEGIN");
    assert_eq!(v[1].sql, "SELECT 1");
    assert_eq!(
        v[2].sql,
        "INSERT INTO migrations (id, name, sql, created_at, executed_at) VALUES (?, ?, ?, ?, ?)"
    );
    assert_eq!(
        v[2].params,
        vec![text("abc"), text("m_abc"), text("SELECT 1"), text("c-time"), text("e-time")]
    );
    assert_eq!(v[3].sql, "COMMIT");
}

#[test]
fn execution_writes_times_in_rfc3339() {
    let m = migration("abc", false);
    let v = execute_migration_statements(&m, Timestamp { secs: 86_400, nanos: 0 }).unwrap();
    assert_eq!(v[2].params[3], text("1970-01-01T00:00:00+00:00"));
    assert_eq!(v[2].params[4], text("1970-01-02T00:00:00+00:00"));
}

#[test]
fn unrepresentable_time_is_a_migration_error() {
    let m = migration("abc", false);
    let r = execute_migration_statements(&m, Timestamp { secs: i64::MAX, nanos: 0 });
    assert!(matches!(r, Err(OrmError::Migration(_))));
}

#[test]
fn rollback_and_select_statements() {
    let st = rollback_statement("abc");
    assert_eq!(st.sql, "DELETE FROM migrations WHERE id = ?");
    assert_eq!(st.params, vec![text("abc")]);
    let st = select_migrations_statement();
    assert_eq!(
        st.sql,
        "SELECT id, name, sql, created_at, executed_at FROM migrations ORDER BY created_at"
    );
}

#[test]
fn tracking_row_decodes() {
    let row = vec![
        text("abc"),
        text("create_projects"),
        text("CREATE TABLE projects (id INTEGER)"),
        text("1970-01-01T00:00:00+00:00"),
        text("1970-01-02T00:00:00.5+00:00"),
    ];
    let m = migration_from_row(&row).unwrap();
    assert_eq!(m.id, "abc");
    assert_eq!(m.name, "create_projects");
    assert_eq!(m.created_at, Timestamp { secs: 0, nanos: 0 });
    assert_eq!(m.executed_at, Some(Timestamp { secs: 86_400, nanos: 500_000_000 }));
}

#[test]
fn null_execution_time_is_pending() {
    let row = vec![text("a"), text("n"), text("s"), text("2024-05-01T10:00:00+02:00"), Value::Null];
    let m = migration_from_row(&row).unwrap();
    assert_eq!(m.created_at.secs, 1_714_550_400);
    assert!(m.executed_at.is_none());
}

#[test]
fn malformed_time_is_a_hard_error() {
    let row = vec![text("a"), text("n"), text("s"), text("yesterday"), Value::Null];
    assert!(matches!(migration_from_row(&row), Err(OrmError::Migration(_))));
    let row = vec![text("a"), text("n"), text("s"), text("1970-01-01T00:00:00Z"), text("soon")];
    assert!(matches!(migration_from_row(&row), Err(OrmError::Migration(_))));
    let good = vec![text("a"), text("n"), text("s"), text("1970-01-01T00:00:00Z"), Value::Null];
    let bad = vec![text("b"), text("n"), text("s"), text("bad"), Value::Null];
    assert!(matches!(migrations_from_rows(&vec![good.clone(), bad]), Err(OrmError::Migration(_))));
    assert_eq!(migrations_from_rows(&vec![good.clone(), good]).unwrap().len(), 2);
}

#[test]
fn non_text_columns_are_decode_errors() {
    let row = vec![Value::Integer(1), text("n"), text("s"), text("1970-01-01T00:00:00Z"), Value::Null];
    assert!(matches!(migration_from_row(&row), Err(OrmError::Decode(_))));
    let short = vec![text("a"), text("n")];
    assert!(matches!(migration_from_row(&short), Err(OrmError::Decode(_))));
}

#[test]
fn pending_and_executed_split_the_list() {
    let all = vec![migration("a", true), migration("b", false), migration("c", true), migration("d", false)];
    let pending = pending_of(&all);
    let executed = executed_of(&all);
    assert_eq!(pending.iter().map(|m| m.id.as_str()).collect::<Vec<_>>(), vec!["b", "d"]);
    assert_eq!(executed.iter().map(|m| m.id.as_str()).collect::<Vec<_>>(), vec!["a", "c"]);
    assert_eq!(pending.len() + executed.len(), all.len());
}

#[test]
fn executed_migration_read_back_is_executed() {
    let m = migration("abc", false);
    let v = execute_migration_statements(&m, Timestamp { secs: 1_000, nanos: 0 }).unwrap();
    let row: Vec<Value> = v[2].params.clone();
    let back = migration_from_row(&row).unwrap();
    let list = vec![back];
    assert_eq!(executed_of(&list).len(), 1);
    assert!(pending_of(&list).is_empty());
    assert_eq!(list[0].executed_at, Some(Timestamp { secs: 1_000, nanos: 0 }));
}

#[test]
fn migration_names_are_sanitized() {
    assert_eq!(
        migration_name_from("20240101_000000", "add users-table! (v2)"),
        "20240101_000000_add_users_table_v2"
    );
    let name = generate_migration_name("Add Users-Table!");
    assert!(name.ends_with("_add_users_table"));
    assert_eq!(name.len(), "YYYYMMDD_HHMMSS".len() + "_add_users_table".len());
}

#[test]
fn templates_write_their_sql() {
    let m = create_table(
        "posts",
        &vec![
            ("id".to_string(), "INTEGER PRIMARY KEY AUTOINCREMENT".to_string()),
            ("title".to_string(), "TEXT NOT NULL".to_string()),
        ],
    );
    assert_eq!(m.name, "create_table_posts");
    assert_eq!(m.sql, "CREATE TABLE posts (id INTEGER PRIMARY KEY AUTOINCREMENT, title TEXT NOT NULL)");
    let m = add_column("posts", "published_at", "TEXT");
    assert_eq!(m.name, "add_column_posts_published_at");
    assert_eq!(m.sql, "ALTER TABLE posts ADD COLUMN published_at TEXT");
    let m = drop_column("posts", "published_at");
    assert_eq!(m.name, "drop_column_posts_published_at");
    assert_eq!(m.sql, "ALTER TABLE posts DROP COLUMN published_at");
    let m = create_index("idx_posts_title", "posts", &vec!["title".to_string(), "id".to_string()]);
    assert_eq!(m.name, "create_index_idx_posts_title");
    assert_eq!(m.sql, "CREATE INDEX idx_posts_title ON posts (title, id)");
    let m = drop_index("idx_posts_title");
    assert_eq!(m.name, "drop_index_idx_posts_title");
    assert_eq!(m.sql, "DROP INDEX idx_posts_title");
}
