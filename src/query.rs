//! The query builder: SELECT and COUNT statements over one table.
use vstd::prelude::*;

use crate::filter::{filter_params, filter_sql, render, FilterOperator};
use crate::sql::{append_joined, decimal, decimal_text, join, texts, Statement};
use crate::error::OrmError;
use crate::rows::LibsqlRow;
use crate::value::{views, Value, ValueView};

verus! {

#[derive(Debug, Clone, Copy, PartialEq, Eq)]
pub enum SortOrder {
    Asc,
    Desc,
}

/// One ORDER BY term.
#[derive(Debug)]
pub struct Sort {
    pub column: String,
    pub order: SortOrder,
}

impl Sort {
    pub fn new(column: &str, order: SortOrder) -> (r: Sort)
        ensures
            r.column@ == column@,
            r.order == order,
    {
        Sort { column: String::from_str(column), order }
    }
}

/// A SELECT under construction: table, optional filter, sort terms in
/// emission order, optional limit and offset.
#[derive(Debug)]
pub struct QueryBuilder {
    pub table: String,
    pub filter: Option<FilterOperator>,
    pub sorts: Vec<Sort>,
    pub limit: Option<u64>,
    pub offset: Option<u64>,
}

pub open spec fn sort_text(s: Sort) -> Seq<char> {
    s.column@ + match s.order {
        SortOrder::Asc => " ASC"@,
        SortOrder::Desc => " DESC"@,
    }
}

pub open spec fn sort_texts(sorts: Seq<Sort>) -> Seq<Seq<char>> {
    sorts.map_values(|s: Sort| sort_text(s))
}

/// ` ORDER BY t1, t2, ...`, one term per sort in the given order; empty without sorts.
pub open spec fn order_text(sorts: Seq<Sort>) -> Seq<char> {
    if sorts.len() == 0 {
        Seq::<char>::empty()
    } else {
        " ORDER BY "@ + join(sort_texts(sorts), ", "@)
    }
}

/// ` WHERE <fragment>`, or nothing without a filter.
pub open spec fn where_text(f: Option<FilterOperator>) -> Seq<char> {
    match f {
        Some(op) => " WHERE "@ + filter_sql(op),
        None => Seq::<char>::empty(),
    }
}

pub open spec fn where_params(f: Option<FilterOperator>) -> Seq<ValueView> {
    match f {
        Some(op) => filter_params(op),
        None => Seq::<ValueView>::empty(),
    }
}

pub open spec fn limit_text(n: Option<u64>) -> Seq<char> {
    match n {
        Some(k) => " LIMIT "@ + decimal(k as nat),
        None => Seq::<char>::empty(),
    }
}

pub open spec fn offset_text(n: Option<u64>) -> Seq<char> {
    match n {
        Some(k) => " OFFSET "@ + decimal(k as nat),
        None => Seq::<char>::empty(),
    }
}

/// The selected columns: `*` when none are named.
pub open spec fn column_list(cols: Seq<Seq<char>>) -> Seq<char> {
    if cols.len() == 0 {
        "*"@
    } else {
        join(cols, ", "@)
    }
}

/// `SELECT <columns> FROM <table> [WHERE ...] [ORDER BY ...] [LIMIT n] [OFFSET m]`.
pub open spec fn select_sql(q: QueryBuilder, cols: Seq<Seq<char>>) -> Seq<char> {
    "SELECT "@ + column_list(cols) + " FROM "@ + q.table@ + where_text(q.filter) + order_text(
        q.sorts@,
    ) + limit_text(q.limit) + offset_text(q.offset)
}

/// `SELECT COUNT(*) FROM <table> [WHERE ...]`: sorts, limit and offset play no part.
pub open spec fn count_sql(q: QueryBuilder) -> Seq<char> {
    "SELECT COUNT(*) FROM "@ + q.table@ + where_text(q.filter)
}

/// Appends the WHERE clause of `f`, giving back its parameters.
fn append_where(out: &mut String, f: &Option<FilterOperator>) -> (params: Vec<Value>)
    ensures
        final(out)@ == old(out)@ + where_text(*f),
        views(params@) == where_params(*f),
{
    match f {
        Some(op) => {
            let (text, params) = render(op);
            out.append(" WHERE ");
            out.append(text.as_str());
            proof {
                assert(" WHERE "@ + filter_sql(*op) == where_text(*f));
            }
            params
        },
        None => {
            let params = Vec::new();
            assert(out@ =~= out@ + Seq::<char>::empty());
            assert(views(params@) =~= Seq::<ValueView>::empty());
            params
        },
    }
}

impl QueryBuilder {
    pub fn new(table: &str) -> (r: QueryBuilder)
        ensures
            r.table@ == table@,
            r.filter.is_none(),
            r.sorts@.len() == 0,
            r.limit.is_none(),
            r.offset.is_none(),
    {
        QueryBuilder {
            table: String::from_str(table),
            filter: None,
            sorts: Vec::new(),
            limit: None,
            offset: None,
        }
    }

    /// Sets the filter, replacing any earlier one.
    pub fn where_filter(self, op: FilterOperator) -> (r: QueryBuilder)
        ensures
            r == (QueryBuilder { filter: Some(op), ..self }),
    {
        QueryBuilder { filter: Some(op), ..self }
    }

    /// Appends a sort term after those already given.
    pub fn order_by(self, sort: Sort) -> (r: QueryBuilder)
        ensures
            r.sorts@ == self.sorts@.push(sort),
            r.table == self.table,
            r.filter == self.filter,
            r.limit == self.limit,
            r.offset == self.offset,
    {
        let mut s = self;
        s.sorts.push(sort);
        s
    }

    pub fn limit(self, n: u64) -> (r: QueryBuilder)
        ensures
            r == (QueryBuilder { limit: Some(n), ..self }),
    {
        QueryBuilder { limit: Some(n), ..self }
    }

    pub fn offset(self, n: u64) -> (r: QueryBuilder)
        ensures
            r == (QueryBuilder { offset: Some(n), ..self }),
    {
        QueryBuilder { offset: Some(n), ..self }
    }

    /// The SELECT statement for the named columns (all columns when none are named).
    pub fn select_statement(&self, columns: &Vec<String>) -> (r: Statement)
        ensures
            r.sql@ == select_sql(*self, texts(columns@)),
            views(r.params@) == where_params(self.filter),
    {
        let mut sql = String::from_str("SELECT ");
        if columns.len() == 0 {
            sql.append("*");
        } else {
            append_joined(&mut sql, columns, ", ");
        }
        sql.append(" FROM ");
        sql.append(self.table.as_str());
        let params = append_where(&mut sql, &self.filter);
        self.append_order(&mut sql);
        match self.limit {
            Some(n) => {
                sql.append(" LIMIT ");
                let d = decimal_text(n);
                sql.append(d.as_str());
            },
            None => {},
        }
        match self.offset {
            Some(n) => {
                sql.append(" OFFSET ");
                let d = decimal_text(n);
                sql.append(d.as_str());
            },
            None => {},
        }
        assert(sql@ =~= select_sql(*self, texts(columns@)));
        Statement { sql, params }
    }

    /// The COUNT statement over the filtered, unpaginated set.
    pub fn count_statement(&self) -> (r: Statement)
        ensures
            r.sql@ == count_sql(*self),
            views(r.params@) == where_params(self.filter),
    {
        let mut sql = String::from_str("SELECT COUNT(*) FROM ");
        sql.append(self.table.as_str());
        let params = append_where(&mut sql, &self.filter);
        assert(sql@ =~= count_sql(*self));
        Statement { sql, params }
    }

    fn append_order(&self, out: &mut String)
        ensures
            final(out)@ == old(out)@ + order_text(self.sorts@),
    {
        let ghost o = out@;
        if self.sorts.len() == 0 {
            assert(out@ =~= o + order_text(self.sorts@));
            return;
        }
        out.append(" ORDER BY ");
        let ghost o1 = out@;
        let mut i: usize = 0;
        assert(sort_texts(self.sorts@.subrange(0, 0)) =~= Seq::<Seq<char>>::empty());
        assert(o1 + join(sort_texts(self.sorts@.subrange(0, 0)), ", "@) =~= o1);
        while i < self.sorts.len()
            invariant
                0 <= i <= self.sorts.len(),
                out@ == o1 + join(sort_texts(self.sorts@.subrange(0, i as int)), ", "@),
            decreases self.sorts.len() - i,
        {
            if i > 0 {
                out.append(", ");
            }
            let s = &self.sorts[i];
            out.append(s.column.as_str());
            match s.order {
                SortOrder::Asc => out.append(" ASC"),
                SortOrder::Desc => out.append(" DESC"),
            }
            proof {
                let t1 = sort_texts(self.sorts@.subrange(0, i + 1));
                assert(t1.drop_last() =~= sort_texts(self.sorts@.subrange(0, i as int)));
                assert(t1.last() == sort_text(self.sorts@[i as int]));
                assert(out@ =~= o1 + join(t1, ", "@));
            }
            i = i + 1;
        }
        assert(self.sorts@.subrange(0, self.sorts.len() as int) =~= self.sorts@);
        assert(out@ =~= o + order_text(self.sorts@));
    }
}

/// The result of a COUNT statement: the non-negative integer in the first
/// column; anything else is a decode error.
pub fn count_from_row(row: &LibsqlRow) -> (r: Result<u64, OrmError>)
    ensures
        (row.values@.len() > 0 && (row.values@[0] matches Value::Integer(n) && n >= 0)) <==> r is Ok,
        r matches Ok(c) ==> row.values@[0] == Value::Integer(c as i64),
        r matches Err(e) ==> e is Decode,
{
    if row.values.len() > 0 {
        if let Value::Integer(n) = row.values[0] {
            if n >= 0 {
                return Ok(n as u64);
            }
        }
    }
    Err(OrmError::Decode(String::from_str("count did not return a non-negative integer")))
}

} // verus!
