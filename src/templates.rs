//! Migrations for common schema changes.
use vstd::prelude::*;

use crate::migrations::{Migration, MigrationBuilder};
use crate::sql::{append_joined, join, texts};

verus! {

/// `name definition`.
pub open spec fn definition_text(c: (String, String)) -> Seq<char> {
    c.0@ + " "@ + c.1@
}

pub open spec fn definition_texts(cs: Seq<(String, String)>) -> Seq<Seq<char>> {
    cs.map_values(|c: (String, String)| definition_text(c))
}

/// A fresh migration with the given name and SQL.
pub open spec fn is_fresh(m: Migration, name: Seq<char>, sql: Seq<char>) -> bool {
    &&& m.name@ == name
    &&& m.sql@ == sql
    &&& m.id@.len() == 36
    &&& m.executed_at is None
}

fn fresh(name: &String, sql: &String) -> (r: Migration)
    ensures
        is_fresh(r, name@, sql@),
{
    MigrationBuilder::new(name.as_str()).up(sql.as_str()).build()
}

/// `CREATE TABLE t (c1 def1, c2 def2, ...)`, named `create_table_t`.
pub fn create_table(table_name: &str, columns: &Vec<(String, String)>) -> (r: Migration)
    ensures
        is_fresh(
            r,
            "create_table_"@ + table_name@,
            "CREATE TABLE "@ + table_name@ + " ("@ + join(definition_texts(columns@), ", "@)
                + ")"@,
        ),
{
    let mut defs: Vec<String> = Vec::new();
    let mut i: usize = 0;
    while i < columns.len()
        invariant
            0 <= i <= columns.len(),
            texts(defs@) == definition_texts(columns@.subrange(0, i as int)),
        decreases columns.len() - i,
    {
        let ghost d0 = defs@;
        let mut d = columns[i].0.clone();
        d.append(" ");
        d.append(columns[i].1.as_str());
        defs.push(d);
        proof {
            assert(definition_texts(columns@.subrange(0, i + 1)) =~= definition_texts(
                columns@.subrange(0, i as int),
            ).push(definition_text(columns@[i as int])));
            assert(texts(defs@) =~= texts(d0).push(definition_text(columns@[i as int])));
        }
        i = i + 1;
    }
    assert(columns@.subrange(0, columns.len() as int) =~= columns@);
    let mut sql = String::from_str("CREATE TABLE ");
    sql.append(table_name);
    sql.append(" (");
    append_joined(&mut sql, &defs, ", ");
    sql.append(")");
    let mut name = String::from_str("create_table_");
    name.append(table_name);
    fresh(&name, &sql)
}

/// `ALTER TABLE t ADD COLUMN c def`, named `add_column_t_c`.
pub fn add_column(table_name: &str, column_name: &str, definition: &str) -> (r: Migration)
    ensures
        is_fresh(
            r,
            "add_column_"@ + table_name@ + "_"@ + column_name@,
            "ALTER TABLE "@ + table_name@ + " ADD COLUMN "@ + column_name@ + " "@ + definition@,
        ),
{
    let mut sql = String::from_str("ALTER TABLE ");
    sql.append(table_name);
    sql.append(" ADD COLUMN ");
    sql.append(column_name);
    sql.append(" ");
    sql.append(definition);
    let mut name = String::from_str("add_column_");
    name.append(table_name);
    name.append("_");
    name.append(column_name);
    fresh(&name, &sql)
}

/// `ALTER TABLE t DROP COLUMN c`, named `drop_column_t_c`.
pub fn drop_column(table_name: &str, column_name: &str) -> (r: Migration)
    ensures
        is_fresh(
            r,
            "drop_column_"@ + table_name@ + "_"@ + column_name@,
            "ALTER TABLE "@ + table_name@ + " DROP COLUMN "@ + column_name@,
        ),
{
    let mut sql = String::from_str("ALTER TABLE ");
    sql.append(table_name);
    sql.append(" DROP COLUMN ");
    sql.append(column_name);
    let mut name = String::from_str("drop_column_");
    name.append(table_name);
    name.append("_");
    name.append(column_name);
    fresh(&name, &sql)
}

/// `CREATE INDEX i ON t (c1, c2, ...)`, named `create_index_i`.
pub fn create_index(index_name: &str, table_name: &str, columns: &Vec<String>) -> (r: Migration)
    ensures
        is_fresh(
            r,
            "create_index_"@ + index_name@,
            "CREATE INDEX "@ + index_name@ + " ON "@ + table_name@ + " ("@ + join(
                texts(columns@),
                ", "@,
            ) + ")"@,
        ),
{
    let mut sql = String::from_str("CREATE INDEX ");
    sql.append(index_name);
    sql.append(" ON ");
    sql.append(table_name);
    sql.append(" (");
    append_joined(&mut sql, columns, ", ");
    sql.append(")");
    let mut name = String::from_str("create_index_");
    name.append(index_name);
    fresh(&name, &sql)
}

/// `DROP INDEX i`, named `drop_index_i`.
pub fn drop_index(index_name: &str) -> (r: Migration)
    ensures
        is_fresh(r, "drop_index_"@ + index_name@, "DROP INDEX "@ + index_name@),
{
    let mut sql = String::from_str("DROP INDEX ");
    sql.append(index_name);
    let mut name = String::from_str("drop_index_");
    name.append(index_name);
    fresh(&name, &sql)
}

} // verus!
