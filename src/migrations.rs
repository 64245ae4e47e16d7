//! Migrations: their construction, the statements that execute, record and
//! forget them, the decoding of the tracking table, and the split into
//! pending and executed.
use vstd::prelude::*;

use crate::clock::{
    alphanumeric_of, format_rfc3339, fresh_id, is_alphanumeric, lower_of, lowercase, now,
    now_compact_stamp, parse_rfc3339, parsed_rfc3339, rfc3339_of,
};
use crate::error::OrmError;
use crate::sql::Statement;
use crate::value::{views, Value, ValueView};

verus! {

/// An instant: seconds since the Unix epoch and nanoseconds past that second.
#[derive(Debug, Clone, Copy, PartialEq, Eq)]
pub struct Timestamp {
    pub secs: i64,
    pub nanos: u32,
}

/// A named unit of schema-change SQL. It is pending while `executed_at` is
/// `None` and executed once that is recorded.
#[derive(Debug, PartialEq, Eq)]
pub struct Migration {
    pub id: String,
    pub name: String,
    pub sql: String,
    pub created_at: Timestamp,
    pub executed_at: Option<Timestamp>,
}

impl Clone for Migration {
    fn clone(&self) -> (r: Self)
        ensures
            r == *self,
    {
        Migration {
            id: self.id.clone(),
            name: self.name.clone(),
            sql: self.sql.clone(),
            created_at: self.created_at,
            executed_at: self.executed_at,
        }
    }
}

impl Migration {
    pub open spec fn is_pending(&self) -> bool {
        self.executed_at is None
    }
}

/// A fresh migration: a new random id, created now, not executed.
pub fn create_migration(name: &str, sql: &str) -> (r: Migration)
    ensures
        r.name@ == name@,
        r.sql@ == sql@,
        r.id@.len() == 36,
        r.executed_at is None,
{
    let (secs, nanos) = now();
    Migration {
        id: fresh_id(),
        name: String::from_str(name),
        sql: String::from_str(sql),
        created_at: Timestamp { secs, nanos },
        executed_at: None,
    }
}

/// Builds a migration from a name, its SQL and an optional down script.
#[derive(Debug)]
pub struct MigrationBuilder {
    pub name: String,
    pub up_sql: String,
    pub down_sql: Option<String>,
}

impl MigrationBuilder {
    pub fn new(name: &str) -> (r: MigrationBuilder)
        ensures
            r.name@ == name@,
            r.up_sql@.len() == 0,
            r.down_sql is None,
    {
        MigrationBuilder { name: String::from_str(name), up_sql: String::new(), down_sql: None }
    }

    /// Sets the SQL the migration runs.
    pub fn up(self, sql: &str) -> (r: MigrationBuilder)
        ensures
            r.name == self.name,
            r.up_sql@ == sql@,
            r.down_sql == self.down_sql,
    {
        MigrationBuilder { up_sql: String::from_str(sql), ..self }
    }

    /// Sets the SQL that would reverse the migration.
    pub fn down(self, sql: &str) -> (r: MigrationBuilder)
        ensures
            r.name == self.name,
            r.up_sql == self.up_sql,
            r.down_sql matches Some(d) && d@ == sql@,
    {
        MigrationBuilder { down_sql: Some(String::from_str(sql)), ..self }
    }

    /// The migration, with a new random id, created now, not executed. The
    /// down script is not part of it.
    pub fn build(self) -> (r: Migration)
        ensures
            r.name == self.name,
            r.sql == self.up_sql,
            r.id@.len() == 36,
            r.executed_at is None,
    {
        let (secs, nanos) = now();
        Migration {
            id: fresh_id(),
            name: self.name,
            sql: self.up_sql,
            created_at: Timestamp { secs, nanos },
            executed_at: None,
        }
    }
}

/// The tracking table's definition.
pub open spec fn tracking_table_sql() -> Seq<char> {
    "CREATE TABLE IF NOT EXISTS migrations (id TEXT PRIMARY KEY, name TEXT NOT NULL, sql TEXT NOT NULL, created_at TEXT NOT NULL, executed_at TEXT)"@
}

/// Creates the tracking table unless it exists; running it again changes nothing.
pub fn init_statement() -> (r: Statement)
    ensures
        r.sql@ == tracking_table_sql(),
        r.params@.len() == 0,
{
    Statement {
        sql: String::from_str(
            "CREATE TABLE IF NOT EXISTS migrations (id TEXT PRIMARY KEY, name TEXT NOT NULL, sql TEXT NOT NULL, created_at TEXT NOT NULL, executed_at TEXT)",
        ),
        params: Vec::new(),
    }
}

pub open spec fn record_sql() -> Seq<char> {
    "INSERT INTO migrations (id, name, sql, created_at, executed_at) VALUES (?, ?, ?, ?, ?)"@
}

fn plain(sql: &str) -> (r: Statement)
    ensures
        r.sql@ == sql@,
        r.params@.len() == 0,
{
    Statement { sql: String::from_str(sql), params: Vec::new() }
}

/// The statements that execute `m` and record it, given the texts of its
/// creation and execution times: BEGIN, the migration's SQL, the tracking
/// row, COMMIT. They run one after another; this layer issues no ROLLBACK
/// when one of them fails.
pub fn migration_statements(m: &Migration, created_text: &str, executed_text: &str) -> (r: Vec<
    Statement,
>)
    ensures
        r@.len() == 4,
        r@[0].sql@ == "BEGIN"@ && r@[0].params@.len() == 0,
        r@[1].sql@ == m.sql@ && r@[1].params@.len() == 0,
        r@[2].sql@ == record_sql() && views(r@[2].params@) == seq![
            ValueView::Text(m.id@),
            ValueView::Text(m.name@),
            ValueView::Text(m.sql@),
            ValueView::Text(created_text@),
            ValueView::Text(executed_text@),
        ],
        r@[3].sql@ == "COMMIT"@ && r@[3].params@.len() == 0,
{
    let mut params: Vec<Value> = Vec::new();
    params.push(Value::Text(m.id.clone()));
    params.push(Value::Text(m.name.clone()));
    params.push(Value::Text(m.sql.clone()));
    params.push(Value::Text(String::from_str(created_text)));
    params.push(Value::Text(String::from_str(executed_text)));
    let mut r: Vec<Statement> = Vec::new();
    r.push(plain("BEGIN"));
    r.push(plain(m.sql.as_str()));
    r.push(
        Statement {
            sql: String::from_str(
                "INSERT INTO migrations (id, name, sql, created_at, executed_at) VALUES (?, ?, ?, ?, ?)",
            ),
            params,
        },
    );
    r.push(plain("COMMIT"));
    assert(views(r@[2].params@) =~= seq![
        ValueView::Text(m.id@),
        ValueView::Text(m.name@),
        ValueView::Text(m.sql@),
        ValueView::Text(created_text@),
        ValueView::Text(executed_text@),
    ]);
    r
}

/// The statements that execute `m` at `executed_at`, both times written in
/// RFC 3339. Refused when either time cannot be written.
pub fn execute_migration_statements(m: &Migration, executed_at: Timestamp) -> (r: Result<
    Vec<Statement>,
    OrmError,
>)
    ensures
        (rfc3339_of(m.created_at.secs, m.created_at.nanos) is Some && rfc3339_of(
            executed_at.secs,
            executed_at.nanos,
        ) is Some) <==> r is Ok,
        r matches Ok(v) ==> v@.len() == 4 && v@[0].sql@ == "BEGIN"@ && v@[1].sql@ == m.sql@
            && v@[2].sql@ == record_sql() && views(v@[2].params@) == seq![
            ValueView::Text(m.id@),
            ValueView::Text(m.name@),
            ValueView::Text(m.sql@),
            ValueView::Text(rfc3339_of(m.created_at.secs, m.created_at.nanos).unwrap()),
            ValueView::Text(rfc3339_of(executed_at.secs, executed_at.nanos).unwrap()),
        ] && v@[3].sql@ == "COMMIT"@,
        r matches Err(e) ==> e is Migration,
{
    let created = match format_rfc3339(m.created_at.secs, m.created_at.nanos) {
        Some(s) => s,
        None => {
            return Err(OrmError::Migration(String::from_str("timestamp out of range")));
        },
    };
    let executed = match format_rfc3339(executed_at.secs, executed_at.nanos) {
        Some(s) => s,
        None => {
            return Err(OrmError::Migration(String::from_str("timestamp out of range")));
        },
    };
    Ok(migration_statements(m, created.as_str(), executed.as_str()))
}

/// The current instant.
pub fn current_time() -> (r: Timestamp)
    ensures
        r.nanos < 2_000_000_000,
{
    let (secs, nanos) = now();
    Timestamp { secs, nanos }
}

/// Forgets that a migration ran by deleting its tracking row; the schema is
/// left as it is.
pub fn rollback_statement(id: &str) -> (r: Statement)
    ensures
        r.sql@ == "DELETE FROM migrations WHERE id = ?"@,
        views(r.params@) == seq![ValueView::Text(id@)],
{
    let mut params: Vec<Value> = Vec::new();
    params.push(Value::Text(String::from_str(id)));
    assert(views(params@) =~= seq![ValueView::Text(id@)]);
    Statement { sql: String::from_str("DELETE FROM migrations WHERE id = ?"), params }
}

/// Reads every tracking row, oldest first.
pub fn select_migrations_statement() -> (r: Statement)
    ensures
        r.sql@
            == "SELECT id, name, sql, created_at, executed_at FROM migrations ORDER BY created_at"@,
        r.params@.len() == 0,
{
    plain("SELECT id, name, sql, created_at, executed_at FROM migrations ORDER BY created_at")
}

/// The text in column `i` of a row, if it holds text.
pub open spec fn text_at(row: Seq<Value>, i: int) -> Option<Seq<char>> {
    if 0 <= i < row.len() && row[i] is Text {
        Some(row[i]->Text_0@)
    } else {
        None
    }
}

/// The creation time a row gives: its text in column 3 (empty when there is
/// none), read as RFC 3339.
pub open spec fn row_created(row: Seq<Value>) -> Option<(i64, u32)> {
    parsed_rfc3339(
        match text_at(row, 3) {
            Some(s) => s,
            None => Seq::<char>::empty(),
        },
    )
}

/// The execution time a row gives: none unless column 4 holds text, which
/// must then read as RFC 3339.
pub open spec fn row_executed_ok(row: Seq<Value>) -> bool {
    text_at(row, 4) is Some ==> parsed_rfc3339(text_at(row, 4).unwrap()) is Some
}

pub open spec fn stamp(t: (i64, u32)) -> Timestamp {
    Timestamp { secs: t.0, nanos: t.1 }
}

/// `m` is what the tracking row `row` records.
pub open spec fn decodes_to(row: Seq<Value>, m: Migration) -> bool {
    &&& text_at(row, 0) == Some(m.id@)
    &&& text_at(row, 1) == Some(m.name@)
    &&& text_at(row, 2) == Some(m.sql@)
    &&& row_created(row) matches Some(c) && m.created_at == stamp(c)
    &&& match text_at(row, 4) {
        Some(s) => parsed_rfc3339(s) matches Some(e) && m.executed_at == Some(stamp(e)),
        None => m.executed_at is None,
    }
}

/// A row decodes when its first three columns hold text and its times read.
pub open spec fn row_decodes(row: Seq<Value>) -> bool {
    &&& text_at(row, 0) is Some
    &&& text_at(row, 1) is Some
    &&& text_at(row, 2) is Some
    &&& row_created(row) is Some
    &&& row_executed_ok(row)
}

fn text_column(row: &Vec<Value>, i: usize) -> (r: Option<String>)
    ensures
        match r {
            Some(s) => text_at(row@, i as int) == Some(s@),
            None => text_at(row@, i as int) is None,
        },
{
    if i < row.len() {
        match &row[i] {
            Value::Text(s) => Some(s.clone()),
            _ => None,
        }
    } else {
        None
    }
}

/// Decodes a tracking row `(id, name, sql, created_at, executed_at)`. A
/// column of the first three that holds no text is a decode error; a time
/// that does not read as RFC 3339 is a migration error.
pub fn migration_from_row(row: &Vec<Value>) -> (r: Result<Migration, OrmError>)
    ensures
        row_decodes(row@) <==> r is Ok,
        r matches Ok(m) ==> decodes_to(row@, m),
        r matches Err(e) ==> if text_at(row@, 0) is Some && text_at(row@, 1) is Some && text_at(
            row@,
            2,
        ) is Some {
            e is Migration
        } else {
            e is Decode
        },
{
    let id = match text_column(row, 0) {
        Some(s) => s,
        None => {
            return Err(OrmError::Decode(String::from_str("id is not text")));
        },
    };
    let name = match text_column(row, 1) {
        Some(s) => s,
        None => {
            return Err(OrmError::Decode(String::from_str("name is not text")));
        },
    };
    let sql = match text_column(row, 2) {
        Some(s) => s,
        None => {
            return Err(OrmError::Decode(String::from_str("sql is not text")));
        },
    };
    let created_text = match text_column(row, 3) {
        Some(s) => s,
        None => String::new(),
    };
    let created_at = match parse_rfc3339(created_text.as_str()) {
        Some((secs, nanos)) => Timestamp { secs, nanos },
        None => {
            return Err(OrmError::Migration(String::from_str("Invalid datetime format")));
        },
    };
    let executed_at = match text_column(row, 4) {
        Some(s) => match parse_rfc3339(s.as_str()) {
            Some((secs, nanos)) => Some(Timestamp { secs, nanos }),
            None => {
                return Err(OrmError::Migration(String::from_str("Invalid datetime format")));
            },
        },
        None => None,
    };
    Ok(Migration { id, name, sql, created_at, executed_at })
}

/// Decodes every tracking row; one row that does not decode fails the whole read.
pub fn migrations_from_rows(rows: &Vec<Vec<Value>>) -> (r: Result<Vec<Migration>, OrmError>)
    ensures
        (forall|i: int| 0 <= i < rows@.len() ==> #[trigger] row_decodes(rows@[i]@)) <==> r is Ok,
        r matches Ok(ms) ==> ms@.len() == rows@.len() && forall|i: int|
            0 <= i < rows@.len() ==> #[trigger] decodes_to(rows@[i]@, ms@[i]),
{
    let mut ms: Vec<Migration> = Vec::new();
    let mut i: usize = 0;
    while i < rows.len()
        invariant
            0 <= i <= rows.len(),
            ms@.len() == i,
            forall|j: int| 0 <= j < i ==> #[trigger] row_decodes(rows@[j]@),
            forall|j: int| 0 <= j < i ==> #[trigger] decodes_to(rows@[j]@, ms@[j]),
        decreases rows.len() - i,
    {
        match migration_from_row(&rows[i]) {
            Ok(m) => ms.push(m),
            Err(e) => {
                return Err(e);
            },
        }
        i = i + 1;
    }
    Ok(ms)
}

pub open spec fn pending_spec(ms: Seq<Migration>) -> Seq<Migration> {
    ms.filter(|m: Migration| m.executed_at is None)
}

pub open spec fn executed_spec(ms: Seq<Migration>) -> Seq<Migration> {
    ms.filter(|m: Migration| m.executed_at is Some)
}

/// The migrations not yet executed, in their order.
pub fn pending_of(ms: &Vec<Migration>) -> (r: Vec<Migration>)
    ensures
        r@ == pending_spec(ms@),
{
    let mut r: Vec<Migration> = Vec::new();
    let mut i: usize = 0;
    while i < ms.len()
        invariant
            0 <= i <= ms.len(),
            r@ == pending_spec(ms@.subrange(0, i as int)),
        decreases ms.len() - i,
    {
        proof {
            reveal(Seq::filter);
            assert(ms@.subrange(0, i + 1).drop_last() =~= ms@.subrange(0, i as int));
        }
        if ms[i].executed_at.is_none() {
            r.push(ms[i].clone());
        }
        i = i + 1;
    }
    assert(ms@.subrange(0, ms.len() as int) =~= ms@);
    r
}

/// The migrations already executed, in their order.
pub fn executed_of(ms: &Vec<Migration>) -> (r: Vec<Migration>)
    ensures
        r@ == executed_spec(ms@),
{
    let mut r: Vec<Migration> = Vec::new();
    let mut i: usize = 0;
    while i < ms.len()
        invariant
            0 <= i <= ms.len(),
            r@ == executed_spec(ms@.subrange(0, i as int)),
        decreases ms.len() - i,
    {
        proof {
            reveal(Seq::filter);
            assert(ms@.subrange(0, i + 1).drop_last() =~= ms@.subrange(0, i as int));
        }
        if ms[i].executed_at.is_some() {
            r.push(ms[i].clone());
        }
        i = i + 1;
    }
    assert(ms@.subrange(0, ms.len() as int) =~= ms@);
    r
}

/// Pending and executed migrations split the whole list: every migration is
/// in exactly one of the two, and together they hold each migration as often
/// as the list does.
pub proof fn lemma_partition(ms: Seq<Migration>)
    ensures
        pending_spec(ms).to_multiset().add(executed_spec(ms).to_multiset()) =~= ms.to_multiset(),
        pending_spec(ms).len() + executed_spec(ms).len() == ms.len(),
        forall|m: Migration| #[trigger] pending_spec(ms).contains(m) ==> m.executed_at is None,
        forall|m: Migration| #[trigger] executed_spec(ms).contains(m) ==> m.executed_at is Some,
    decreases ms.len(),
{
    broadcast use vstd::seq_lib::group_to_multiset_ensures, vstd::seq_lib::group_filter_ensures;

    reveal(Seq::filter);
    if ms.len() == 0 {
        assert(pending_spec(ms) =~= Seq::<Migration>::empty());
        assert(executed_spec(ms) =~= Seq::<Migration>::empty());
    } else {
        let init = ms.drop_last();
        lemma_partition(init);
        assert(init.push(ms.last()) =~= ms);
    }
    assert forall|m: Migration| #[trigger] pending_spec(ms).contains(m) implies m.executed_at
        is None by {
        let i = choose|i: int| 0 <= i < pending_spec(ms).len() && pending_spec(ms)[i] == m;
        assert(pending_spec(ms)[i].executed_at is None);
    }
    assert forall|m: Migration| #[trigger] executed_spec(ms).contains(m) implies m.executed_at
        is Some by {
        let i = choose|i: int| 0 <= i < executed_spec(ms).len() && executed_spec(ms)[i] == m;
        assert(executed_spec(ms)[i].executed_at is Some);
    }
}

/// A tracking row as execution writes it (see `migration_statements`) reads
/// back, when its times read at all, as an executed migration with the same
/// id, name and SQL: it is among the executed migrations and not among the
/// pending ones.
pub proof fn lemma_recorded_migration_is_executed(
    m: Migration,
    created: Seq<char>,
    executed: Seq<char>,
    row: Seq<Value>,
    back: Migration,
)
    requires
        views(row) == seq![
            ValueView::Text(m.id@),
            ValueView::Text(m.name@),
            ValueView::Text(m.sql@),
            ValueView::Text(created),
            ValueView::Text(executed),
        ],
        decodes_to(row, back),
    ensures
        back.id@ == m.id@,
        back.name@ == m.name@,
        back.sql@ == m.sql@,
        back.executed_at is Some,
        executed_spec(seq![back]) == seq![back],
        pending_spec(seq![back]) == Seq::<Migration>::empty(),
{
    reveal(Seq::filter);
    assert(views(row).len() == row.len());
    assert(row.len() == 5);
    assert(views(row)[4] == row[4]@);
    assert(row[4]@ == ValueView::Text(executed));
    assert(row[4] is Text);
    let one = seq![back];
    assert(one.drop_last() =~= Seq::<Migration>::empty());
    assert(back.executed_at is Some);
    assert(pending_spec(Seq::<Migration>::empty()) =~= Seq::<Migration>::empty());
    assert(executed_spec(one) =~= one);
    assert(pending_spec(one) =~= Seq::<Migration>::empty());
}

/// A description character after spaces and hyphens become underscores.
pub open spec fn swapped(c: char) -> char {
    if c == ' ' || c == '-' {
        '_'
    } else {
        c
    }
}

/// The description with spaces and hyphens made underscores and every
/// character dropped that is neither alphanumeric nor an underscore.
pub open spec fn sanitized(s: Seq<char>) -> Seq<char>
    decreases s.len(),
{
    if s.len() == 0 {
        seq![]
    } else {
        let c = swapped(s.last());
        sanitized(s.drop_last()) + if alphanumeric_of(c) || c == '_' {
            seq![c]
        } else {
            Seq::<char>::empty()
        }
    }
}

/// `<stamp>_<sanitized description>`, from a stamp and an already
/// lowercased description.
pub fn migration_name_from(stamp: &str, lowered: &str) -> (r: String)
    ensures
        r@ == stamp@ + "_"@ + sanitized(lowered@),
{
    let mut r = String::from_str(stamp);
    r.append("_");
    let n = lowered.unicode_len();
    let mut i: usize = 0;
    assert(sanitized(lowered@.subrange(0, 0)) =~= Seq::<char>::empty());
    while i < n
        invariant
            n == lowered@.len(),
            0 <= i <= n,
            r@ == stamp@ + "_"@ + sanitized(lowered@.subrange(0, i as int)),
        decreases n - i,
    {
        let c = lowered.get_char(i);
        let ghost prev = sanitized(lowered@.subrange(0, i as int));
        let ghost next = sanitized(lowered@.subrange(0, i + 1));
        proof {
            let sub = lowered@.subrange(0, i + 1);
            assert(sub.drop_last() =~= lowered@.subrange(0, i as int));
            assert(sub.last() == c);
            assert(next == prev + if alphanumeric_of(swapped(c)) || swapped(c) == '_' {
                seq![swapped(c)]
            } else {
                Seq::<char>::empty()
            });
        }
        if c == ' ' || c == '-' {
            r.append("_");
            proof {
                reveal_strlit("_");
            }
            assert(next =~= prev + seq!['_']);
            assert(r@ =~= stamp@ + "_"@ + next);
        } else if c == '_' || is_alphanumeric(c) {
            let one = lowered.substring_char(i, i + 1);
            assert(one@ =~= seq![c]);
            r.append(one);
            assert(r@ =~= stamp@ + "_"@ + next);
        } else {
            assert(!alphanumeric_of(swapped(c)));
            assert(next =~= prev);
            assert(r@ =~= stamp@ + "_"@ + next);
        }
        i = i + 1;
    }
    assert(lowered@.subrange(0, n as int) =~= lowered@);
    r
}

/// A migration name from a description: the current time as
/// `YYYYMMDD_HHMMSS`, an underscore, and the lowercased description with
/// spaces and hyphens made underscores and other punctuation dropped.
pub fn generate_migration_name(description: &str) -> (r: String)
    ensures
        exists|stamp: Seq<char>| r@ == stamp + "_"@ + sanitized(lower_of(description@)),
{
    let stamp = now_compact_stamp();
    let lowered = lowercase(description);
    migration_name_from(stamp.as_str(), lowered.as_str())
}

} // verus!
