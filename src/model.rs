//! A persisted type's table and the statements of its CRUD operations.
use vstd::prelude::*;

use crate::error::OrmError;
use crate::filter::{filter_params, filter_sql, render, Condition, Filter, FilterOperator};
use crate::pagination::{contains_pattern, is_like, offset_of, Pagination, SearchFilter};
use crate::query::QueryBuilder;
use crate::sql::{append_joined, join, texts, Statement};
use crate::value::{views, Value, ValueView};

verus! {

/// Column metadata of a persisted type.
#[derive(Debug)]
pub struct Column {
    pub name: String,
    pub sql_type: String,
    pub primary_key: bool,
    pub optional: bool,
}

/// A persisted type's table: its name and its columns in their fixed order.
/// A row of the table is a list of values in that same order.
#[derive(Debug)]
pub struct TableSchema {
    pub table: String,
    pub columns: Vec<Column>,
}

/// `name TYPE`, with ` NOT NULL` unless the column is optional or the key.
pub open spec fn column_def(c: Column) -> Seq<char> {
    c.name@ + " "@ + c.sql_type@ + if c.primary_key || c.optional {
        Seq::<char>::empty()
    } else {
        " NOT NULL"@
    }
}

pub open spec fn column_defs(cols: Seq<Column>) -> Seq<Seq<char>> {
    cols.map_values(|c: Column| column_def(c))
}

pub open spec fn column_names(cols: Seq<Column>) -> Seq<Seq<char>> {
    cols.map_values(|c: Column| c.name@)
}

/// A primary key whose value is unset is left to the store to generate.
pub open spec fn skipped(c: Column, v: Value) -> bool {
    c.primary_key && v is Null
}

/// The columns an INSERT of the first `n` values of `row` names.
pub open spec fn insert_names(cols: Seq<Column>, row: Seq<Value>, n: nat) -> Seq<Seq<char>>
    decreases n,
{
    if n == 0 {
        seq![]
    } else {
        insert_names(cols, row, (n - 1) as nat) + if skipped(cols[n - 1], row[n - 1]) {
            Seq::<Seq<char>>::empty()
        } else {
            seq![cols[n - 1].name@]
        }
    }
}

/// The values an INSERT of the first `n` values of `row` binds.
pub open spec fn insert_values(cols: Seq<Column>, row: Seq<Value>, n: nat) -> Seq<ValueView>
    decreases n,
{
    if n == 0 {
        seq![]
    } else {
        insert_values(cols, row, (n - 1) as nat) + if skipped(cols[n - 1], row[n - 1]) {
            Seq::<ValueView>::empty()
        } else {
            seq![row[n - 1]@]
        }
    }
}

pub open spec fn mark() -> Seq<char> {
    "?"@
}

/// `k` placeholders.
pub open spec fn marks(k: nat) -> Seq<Seq<char>> {
    Seq::new(k, |i: int| mark())
}

pub open spec fn insert_sql(s: TableSchema, row: Seq<Value>) -> Seq<char> {
    let names = insert_names(s.columns@, row, row.len());
    if names.len() == 0 {
        "INSERT INTO "@ + s.table@ + " DEFAULT VALUES"@
    } else {
        "INSERT INTO "@ + s.table@ + " ("@ + join(names, ", "@) + ") VALUES ("@ + join(
            marks(names.len()),
            ", "@,
        ) + ")"@
    }
}

pub open spec fn insert_params(s: TableSchema, row: Seq<Value>) -> Seq<ValueView> {
    insert_values(s.columns@, row, row.len())
}

/// `name = ?` for each non-key column among the first `n`.
pub open spec fn set_terms(cols: Seq<Column>, n: nat) -> Seq<Seq<char>>
    decreases n,
{
    if n == 0 {
        seq![]
    } else {
        set_terms(cols, (n - 1) as nat) + if cols[n - 1].primary_key {
            Seq::<Seq<char>>::empty()
        } else {
            seq![cols[n - 1].name@ + " = ?"@]
        }
    }
}

/// The values of the non-key columns among the first `n`.
pub open spec fn set_values(cols: Seq<Column>, row: Seq<Value>, n: nat) -> Seq<ValueView>
    decreases n,
{
    if n == 0 {
        seq![]
    } else {
        set_values(cols, row, (n - 1) as nat) + if cols[n - 1].primary_key {
            Seq::<ValueView>::empty()
        } else {
            seq![row[n - 1]@]
        }
    }
}

/// `UPDATE t SET a = ?, b = ? WHERE key = ?`.
pub open spec fn update_sql(s: TableSchema, k: int) -> Seq<char> {
    "UPDATE "@ + s.table@ + " SET "@ + join(set_terms(s.columns@, s.columns@.len()), ", "@)
        + " WHERE "@ + s.columns@[k].name@ + " = ?"@
}

/// The non-key values in column order, then the key.
pub open spec fn update_params(s: TableSchema, row: Seq<Value>, k: int) -> Seq<ValueView> {
    set_values(s.columns@, row, row.len()) + seq![row[k]@]
}

/// An INSERT binds the row's own values, unchanged and in column order, when
/// no value is an unset key.
pub proof fn lemma_insert_binds_row(s: TableSchema, row: Seq<Value>)
    requires
        row.len() == s.columns@.len(),
        forall|i: int| 0 <= i < row.len() ==> !#[trigger] skipped(s.columns@[i], row[i]),
    ensures
        insert_params(s, row) == views(row),
{
    lemma_insert_values_prefix(s.columns@, row, row.len());
    assert(row.subrange(0, row.len() as int) =~= row);
}

proof fn lemma_insert_values_prefix(cols: Seq<Column>, row: Seq<Value>, n: nat)
    requires
        n <= row.len(),
        row.len() == cols.len(),
        forall|i: int| 0 <= i < row.len() ==> !#[trigger] skipped(cols[i], row[i]),
    ensures
        insert_values(cols, row, n) == views(row.subrange(0, n as int)),
    decreases n,
{
    if n == 0 {
        assert(views(row.subrange(0, 0)) =~= Seq::<ValueView>::empty());
    } else {
        lemma_insert_values_prefix(cols, row, (n - 1) as nat);
        assert(!skipped(cols[n - 1], row[n - 1]));
        assert(views(row.subrange(0, n as int)) =~= views(row.subrange(0, n - 1)).push(
            row[n - 1]@,
        ));
    }
}

pub open spec fn key_filter(s: TableSchema, k: int, c: Condition) -> FilterOperator {
    FilterOperator::Single(Filter { column: s.columns@[k].name, condition: c })
}

impl TableSchema {
    /// At most one column is the primary key.
    pub open spec fn wf(&self) -> bool {
        forall|i: int, j: int|
            0 <= i < self.columns@.len() && 0 <= j < self.columns@.len()
                && #[trigger] self.columns@[i].primary_key && #[trigger] self.columns@[j].primary_key
                ==> i == j
    }

    /// `k` is the key column's index.
    pub open spec fn is_key(&self, k: int) -> bool {
        0 <= k < self.columns@.len() && self.columns@[k].primary_key
    }

    pub open spec fn has_key(&self) -> bool {
        exists|k: int| self.is_key(k)
    }

    /// The index of the primary-key column, if there is one.
    pub fn primary_key_index(&self) -> (r: Option<usize>)
        ensures
            r matches Some(k) ==> self.is_key(k as int),
            r is None ==> !self.has_key(),
    {
        let mut i: usize = 0;
        while i < self.columns.len()
            invariant
                0 <= i <= self.columns.len(),
                forall|j: int| 0 <= j < i ==> !#[trigger] self.is_key(j),
            decreases self.columns.len() - i,
        {
            if self.columns[i].primary_key {
                return Some(i);
            }
            i = i + 1;
        }
        None
    }

    /// Whether at most one column is the primary key.
    pub fn is_well_formed(&self) -> (r: bool)
        ensures
            r == self.wf(),
    {
        let mut seen: Option<usize> = None;
        let mut i: usize = 0;
        while i < self.columns.len()
            invariant
                0 <= i <= self.columns.len(),
                forall|a: int, b: int|
                    0 <= a < i && 0 <= b < i && #[trigger] self.is_key(a) && #[trigger] self.is_key(
                        b,
                    ) ==> a == b,
                seen matches Some(k) ==> k < i && self.is_key(k as int),
                seen is None ==> forall|a: int| 0 <= a < i ==> !#[trigger] self.is_key(a),
            decreases self.columns.len() - i,
        {
            if self.columns[i].primary_key {
                if let Some(k) = seen {
                    assert(self.is_key(k as int) && self.is_key(i as int));
                    return false;
                }
                seen = Some(i);
            }
            i = i + 1;
        }
        assert forall|a: int, b: int|
            0 <= a < self.columns@.len() && 0 <= b < self.columns@.len()
                && #[trigger] self.columns@[a].primary_key
                && #[trigger] self.columns@[b].primary_key implies a == b by {
            assert(self.is_key(a) && self.is_key(b));
        }
        true
    }

    /// The row's key value: `None` when the table has no key or the row's key is unset.
    pub fn key_value(&self, row: &Vec<Value>) -> (r: Option<Value>)
        requires
            self.wf(),
            row@.len() == self.columns@.len(),
        ensures
            (exists|k: int| self.is_key(k) && !(row@[k] is Null)) <==> r is Some,
            forall|k: int| self.is_key(k) ==> (r matches Some(v) ==> v@ == row@[k]@),
    {
        match self.primary_key_index() {
            Some(k) => {
                if matches!(row[k], Value::Null) {
                    None
                } else {
                    Some(row[k].clone())
                }
            },
            None => None,
        }
    }

    /// The column names, in order.
    pub fn column_names(&self) -> (r: Vec<String>)
        ensures
            texts(r@) == column_names(self.columns@),
    {
        let mut r: Vec<String> = Vec::new();
        let mut i: usize = 0;
        while i < self.columns.len()
            invariant
                0 <= i <= self.columns.len(),
                texts(r@) == column_names(self.columns@.subrange(0, i as int)),
            decreases self.columns.len() - i,
        {
            let ghost r0 = r@;
            r.push(self.columns[i].name.clone());
            proof {
                let sub = self.columns@.subrange(0, i + 1);
                assert(sub.subrange(0, i as int) =~= self.columns@.subrange(0, i as int));
                assert(column_names(sub) =~= column_names(self.columns@.subrange(0, i as int)).push(
                    self.columns@[i as int].name@,
                ));
                assert(texts(r@) =~= texts(r0).push(self.columns@[i as int].name@));
            }
            i = i + 1;
        }
        assert(self.columns@.subrange(0, self.columns.len() as int) =~= self.columns@);
        r
    }

    /// `CREATE TABLE IF NOT EXISTS t (def1, def2, ...)`.
    pub fn migration_sql(&self) -> (r: String)
        ensures
            r@ == "CREATE TABLE IF NOT EXISTS "@ + self.table@ + " ("@ + join(
                column_defs(self.columns@),
                ", "@,
            ) + ")"@,
    {
        let mut defs: Vec<String> = Vec::new();
        let mut i: usize = 0;
        while i < self.columns.len()
            invariant
                0 <= i <= self.columns.len(),
                texts(defs@) == column_defs(self.columns@.subrange(0, i as int)),
            decreases self.columns.len() - i,
        {
            let c = &self.columns[i];
            let mut d = c.name.clone();
            d.append(" ");
            d.append(c.sql_type.as_str());
            if !c.primary_key && !c.optional {
                d.append(" NOT NULL");
            }
            let ghost d0 = defs@;
            assert(d@ == column_def(self.columns@[i as int]));
            defs.push(d);
            proof {
                let sub = self.columns@.subrange(0, i + 1);
                assert(column_defs(sub) =~= column_defs(self.columns@.subrange(0, i as int)).push(
                    column_def(self.columns@[i as int]),
                ));
                assert(texts(defs@) =~= texts(d0).push(column_def(self.columns@[i as int])));
            }
            i = i + 1;
        }
        assert(self.columns@.subrange(0, self.columns.len() as int) =~= self.columns@);
        let mut sql = String::from_str("CREATE TABLE IF NOT EXISTS ");
        sql.append(self.table.as_str());
        sql.append(" (");
        append_joined(&mut sql, &defs, ", ");
        sql.append(")");
        sql
    }

    /// INSERT of every column but a primary key whose value is unset.
    pub fn insert_statement(&self, row: &Vec<Value>) -> (r: Statement)
        requires
            row@.len() == self.columns@.len(),
        ensures
            r.sql@ == insert_sql(*self, row@),
            views(r.params@) == insert_params(*self, row@),
    {
        let mut names: Vec<String> = Vec::new();
        let mut qs: Vec<String> = Vec::new();
        let mut params: Vec<Value> = Vec::new();
        let mut i: usize = 0;
        while i < row.len()
            invariant
                0 <= i <= row.len(),
                row@.len() == self.columns@.len(),
                texts(names@) == insert_names(self.columns@, row@, i as nat),
                views(params@) == insert_values(self.columns@, row@, i as nat),
                texts(qs@) == marks(names@.len()),
            decreases row.len() - i,
        {
            let c = &self.columns[i];
            let skip = c.primary_key && matches!(row[i], Value::Null);
            let ghost n0 = names@;
            let ghost q0 = qs@;
            let ghost p0 = params@;
            if !skip {
                names.push(c.name.clone());
                params.push(row[i].clone());
                qs.push(String::from_str("?"));
            }
            proof {
                if !skip {
                    assert(texts(names@) =~= texts(n0).push(self.columns@[i as int].name@));
                    assert(views(params@) =~= views(p0).push(row@[i as int]@));
                    assert(texts(qs@) =~= texts(q0).push(mark()));
                    assert(marks(names@.len()) =~= marks(n0.len()).push(mark()));
                }
                assert(texts(names@) =~= insert_names(self.columns@, row@, (i + 1) as nat));
                assert(views(params@) =~= insert_values(self.columns@, row@, (i + 1) as nat));
                assert(texts(qs@) =~= marks(names@.len()));
            }
            i = i + 1;
        }
        let mut sql = String::from_str("INSERT INTO ");
        sql.append(self.table.as_str());
        if names.len() == 0 {
            sql.append(" DEFAULT VALUES");
        } else {
            sql.append(" (");
            append_joined(&mut sql, &names, ", ");
            sql.append(") VALUES (");
            append_joined(&mut sql, &qs, ", ");
            sql.append(")");
        }
        Statement { sql, params }
    }

    /// UPDATE of every non-key column, by primary key. Refused when the table
    /// has no key or the row's key is unset.
    pub fn update_statement(&self, row: &Vec<Value>) -> (r: Result<Statement, OrmError>)
        requires
            self.wf(),
            row@.len() == self.columns@.len(),
        ensures
            (exists|k: int| self.is_key(k) && !(row@[k] is Null)) <==> r is Ok,
            forall|k: int|
                self.is_key(k) ==> (r matches Ok(st) ==> st.sql@ == update_sql(*self, k) && views(
                    st.params@,
                ) == update_params(*self, row@, k)),
            r matches Err(e) ==> e is Validation,
    {
        let k = match self.primary_key_index() {
            Some(k) => k,
            None => {
                return Err(OrmError::Validation(String::from_str("table has no primary key")));
            },
        };
        if matches!(row[k], Value::Null) {
            return Err(OrmError::Validation(String::from_str("primary key is not set")));
        }
        let mut terms: Vec<String> = Vec::new();
        let mut params: Vec<Value> = Vec::new();
        let mut i: usize = 0;
        while i < row.len()
            invariant
                0 <= i <= row.len(),
                row@.len() == self.columns@.len(),
                texts(terms@) == set_terms(self.columns@, i as nat),
                views(params@) == set_values(self.columns@, row@, i as nat),
            decreases row.len() - i,
        {
            let c = &self.columns[i];
            if !c.primary_key {
                let mut t = c.name.clone();
                t.append(" = ?");
                terms.push(t);
                params.push(row[i].clone());
            }
            assert(texts(terms@) =~= set_terms(self.columns@, (i + 1) as nat));
            assert(views(params@) =~= set_values(self.columns@, row@, (i + 1) as nat));
            i = i + 1;
        }
        let ghost before = views(params@);
        params.push(row[k].clone());
        assert(views(params@) =~= before + seq![row@[k as int]@]);
        let mut sql = String::from_str("UPDATE ");
        sql.append(self.table.as_str());
        sql.append(" SET ");
        append_joined(&mut sql, &terms, ", ");
        sql.append(" WHERE ");
        sql.append(self.columns[k].name.as_str());
        sql.append(" = ?");
        Ok(Statement { sql, params })
    }

    /// A statement whose only filter is on the key column.
    fn key_statement(&self, head: &str, c: Condition) -> (r: Result<Statement, OrmError>)
        requires
            self.wf(),
        ensures
            self.has_key() <==> r is Ok,
            forall|k: int|
                self.is_key(k) ==> (r matches Ok(st) ==> st.sql@ == head@ + filter_sql(
                    key_filter(*self, k, c),
                ) && views(st.params@) == filter_params(key_filter(*self, k, c))),
            r matches Err(e) ==> e is Validation,
    {
        let k = match self.primary_key_index() {
            Some(k) => k,
            None => {
                return Err(OrmError::Validation(String::from_str("table has no primary key")));
            },
        };
        let op = FilterOperator::Single(Filter { column: self.columns[k].name.clone(), condition: c });
        let (text, params) = render(&op);
        let mut sql = String::from_str(head);
        sql.append(text.as_str());
        Ok(Statement { sql, params })
    }

    /// DELETE of the row with the given key. Refused when the table has no key.
    pub fn delete_statement(&self, key: Value) -> (r: Result<Statement, OrmError>)
        requires
            self.wf(),
        ensures
            self.has_key() <==> r is Ok,
            forall|k: int|
                self.is_key(k) ==> (r matches Ok(st) ==> st.sql@ == "DELETE FROM "@ + self.table@
                    + " WHERE "@ + filter_sql(key_filter(*self, k, Condition::Eq(key))) && views(
                    st.params@,
                ) == filter_params(key_filter(*self, k, Condition::Eq(key)))),
            r matches Err(e) ==> e is Validation,
    {
        let mut head = String::from_str("DELETE FROM ");
        head.append(self.table.as_str());
        head.append(" WHERE ");
        self.key_statement(head.as_str(), Condition::Eq(key))
    }

    /// DELETE of every row whose key is among `keys`. Refused when the table has no key.
    pub fn bulk_delete_statement(&self, keys: Vec<Value>) -> (r: Result<Statement, OrmError>)
        requires
            self.wf(),
        ensures
            self.has_key() <==> r is Ok,
            forall|k: int|
                self.is_key(k) ==> (r matches Ok(st) ==> st.sql@ == "DELETE FROM "@ + self.table@
                    + " WHERE "@ + filter_sql(key_filter(*self, k, Condition::In(keys))) && views(
                    st.params@,
                ) == filter_params(key_filter(*self, k, Condition::In(keys)))),
            r matches Err(e) ==> e is Validation,
    {
        let mut head = String::from_str("DELETE FROM ");
        head.append(self.table.as_str());
        head.append(" WHERE ");
        self.key_statement(head.as_str(), Condition::In(keys))
    }

    /// DELETE of every row the filter matches.
    pub fn delete_where_statement(&self, op: &FilterOperator) -> (r: Statement)
        ensures
            r.sql@ == "DELETE FROM "@ + self.table@ + " WHERE "@ + filter_sql(*op),
            views(r.params@) == filter_params(*op),
    {
        let (text, params) = render(op);
        let mut sql = String::from_str("DELETE FROM ");
        sql.append(self.table.as_str());
        sql.append(" WHERE ");
        sql.append(text.as_str());
        Statement { sql, params }
    }

    /// Update when the row's key is set, insert otherwise. No existence check
    /// comes first: an update of a key that no row has changes nothing.
    pub fn create_or_update_statement(&self, row: &Vec<Value>) -> (r: Statement)
        requires
            self.wf(),
            row@.len() == self.columns@.len(),
        ensures
            forall|k: int|
                self.is_key(k) && !(row@[k] is Null) ==> r.sql@ == update_sql(*self, k) && views(
                    r.params@,
                ) == update_params(*self, row@, k),
            !(exists|k: int| self.is_key(k) && !(row@[k] is Null)) ==> r.sql@ == insert_sql(
                *self,
                row@,
            ) && views(r.params@) == insert_params(*self, row@),
    {
        match self.update_statement(row) {
            Ok(st) => st,
            Err(_) => self.insert_statement(row),
        }
    }

    /// The query for every row.
    pub fn find_all_query(&self) -> (r: QueryBuilder)
        ensures
            r.table@ == self.table@,
            r.filter is None,
            r.sorts@.len() == 0,
            r.limit is None,
            r.offset is None,
    {
        QueryBuilder::new(self.table.as_str())
    }

    /// The query for the rows the filter matches.
    pub fn find_where_query(&self, op: FilterOperator) -> (r: QueryBuilder)
        ensures
            r.table@ == self.table@,
            r.filter == Some(op),
            r.sorts@.len() == 0,
            r.limit is None,
            r.offset is None,
    {
        QueryBuilder::new(self.table.as_str()).where_filter(op)
    }

    /// The query for the row with the given key, at most one row. Refused
    /// when the table has no key.
    pub fn find_by_id_query(&self, key: Value) -> (r: Result<QueryBuilder, OrmError>)
        requires
            self.wf(),
        ensures
            self.has_key() <==> r is Ok,
            forall|k: int|
                self.is_key(k) ==> (r matches Ok(q) ==> q.table@ == self.table@ && q.filter == Some(
                    key_filter(*self, k, Condition::Eq(key)),
                ) && q.sorts@.len() == 0 && q.limit == Some(1u64) && q.offset is None),
            r matches Err(e) ==> e is Validation,
    {
        let k = match self.primary_key_index() {
            Some(k) => k,
            None => {
                return Err(OrmError::Validation(String::from_str("table has no primary key")));
            },
        };
        let op = FilterOperator::Single(
            Filter { column: self.columns[k].name.clone(), condition: Condition::Eq(key) },
        );
        Ok(QueryBuilder::new(self.table.as_str()).where_filter(op).limit(1))
    }
}

/// The query for one page of `q`'s rows: `q` with the page's LIMIT and
/// OFFSET. Refused, as `Pagination::window` refuses, for a zero page or page size.
pub fn paginate(q: QueryBuilder, p: &Pagination) -> (r: Result<QueryBuilder, OrmError>)
    ensures
        (p.page >= 1 && p.per_page >= 1 && offset_of(p.page as nat, p.per_page as nat)
            <= u64::MAX) <==> r is Ok,
        r matches Ok(r2) ==> r2.table == q.table && r2.filter == q.filter && r2.sorts == q.sorts
            && r2.limit == Some(p.per_page) && r2.offset == Some(
            offset_of(p.page as nat, p.per_page as nat) as u64,
        ),
        r matches Err(e) ==> e is Validation,
{
    match p.window() {
        Ok((limit, offset)) => Ok(q.limit(limit).offset(offset)),
        Err(e) => Err(e),
    }
}

/// The query a search runs: the table's rows on which some column holds the term.
pub fn search_query(table: &str, search: &SearchFilter) -> (r: QueryBuilder)
    ensures
        r.table@ == table@,
        r.filter matches Some(FilterOperator::Or(cs)) && cs@.len() == search.columns@.len()
            && forall|i: int|
            0 <= i < cs@.len() ==> #[trigger] is_like(
                cs@[i],
                search.columns@[i]@,
                contains_pattern(search.term@),
            ),
        r.sorts@.len() == 0,
        r.limit is None,
        r.offset is None,
{
    QueryBuilder::new(table).where_filter(search.to_filter_operator())
}

} // verus!
