//! Page arithmetic and the search filter.
use vstd::prelude::*;

use crate::error::OrmError;
use crate::filter::{Condition, Filter, FilterOperator};
use crate::value::Value;

verus! {

/// A page request (1-indexed page, rows per page) and, once counted, the
/// total number of rows and of pages.
#[derive(Debug, Clone, Copy, PartialEq, Eq)]
pub struct Pagination {
    pub page: u64,
    pub per_page: u64,
    pub total: Option<u64>,
    pub total_pages: Option<u64>,
}

/// One page of rows with the pagination that produced it.
#[derive(Debug)]
pub struct PaginatedResult<T> {
    pub data: Vec<T>,
    pub pagination: Pagination,
}

/// The number of pages that `total` rows fill, `per_page` to a page.
pub open spec fn pages_for(total: nat, per_page: nat) -> nat
    recommends
        per_page > 0,
{
    (total + per_page - 1) as nat / per_page
}

/// The rows skipped before a page.
pub open spec fn offset_of(page: nat, per_page: nat) -> int {
    (page - 1) * per_page
}

impl Pagination {
    /// Stores the raw request; nothing is counted yet.
    pub fn new(page: u64, per_page: u64) -> (r: Pagination)
        ensures
            r == (Pagination { page, per_page, total: None, total_pages: None }),
    {
        Pagination { page, per_page, total: None, total_pages: None }
    }

    /// The LIMIT and OFFSET of the page: `(per_page, (page - 1) * per_page)`.
    /// A zero page or page size is refused, as is an offset past `u64`.
    pub fn window(&self) -> (r: Result<(u64, u64), OrmError>)
        ensures
            (self.page >= 1 && self.per_page >= 1 && offset_of(
                self.page as nat,
                self.per_page as nat,
            ) <= u64::MAX) <==> r is Ok,
            r matches Ok((limit, offset)) ==> limit == self.per_page && offset == offset_of(
                self.page as nat,
                self.per_page as nat,
            ),
            r matches Err(e) ==> e is Validation,
    {
        if self.page == 0 || self.per_page == 0 {
            return Err(OrmError::Validation(String::from_str("page and per_page must be at least 1")));
        }
        let before = self.page - 1;
        if before > u64::MAX / self.per_page {
            proof {
                assert(before * self.per_page > u64::MAX) by (nonlinear_arith)
                    requires
                        before > u64::MAX / self.per_page,
                        self.per_page >= 1,
                ;
            }
            return Err(OrmError::Validation(String::from_str("page offset out of range")));
        }
        proof {
            assert(before * self.per_page <= u64::MAX) by (nonlinear_arith)
                requires
                    before <= u64::MAX / self.per_page,
                    self.per_page >= 1,
            ;
        }
        Ok((self.per_page, before * self.per_page))
    }

    /// The same request with `total` and the page count filled in.
    pub fn with_total(self, total: u64) -> (r: Pagination)
        requires
            self.per_page >= 1,
        ensures
            r == (Pagination {
                total: Some(total),
                total_pages: Some(pages_for(total as nat, self.per_page as nat) as u64),
                ..self
            }),
    {
        let pages = total_pages_for(total, self.per_page);
        Pagination { total: Some(total), total_pages: Some(pages), ..self }
    }
}

/// `ceil(total / per_page)`.
pub fn total_pages_for(total: u64, per_page: u64) -> (r: u64)
    requires
        per_page >= 1,
    ensures
        r == pages_for(total as nat, per_page as nat),
{
    let q = total / per_page;
    let rem = total % per_page;
    proof {
        let t = total as int;
        let p = per_page as int;
        assert(t == (t / p) * p + t % p) by (nonlinear_arith)
            requires
                p >= 1,
        ;
        if rem == 0 {
            assert((t + p - 1) / p == t / p) by (nonlinear_arith)
                requires
                    p >= 1,
                    t == (t / p) * p,
                    t % p == 0,
            ;
        } else {
            assert((t + p - 1) / p == t / p + 1) by (nonlinear_arith)
                requires
                    p >= 1,
                    t == (t / p) * p + t % p,
                    0 < t % p < p,
            ;
        }
    }
    if rem == 0 {
        q
    } else {
        proof {
            assert(q < u64::MAX) by (nonlinear_arith)
                requires
                    total as int == q as int * per_page as int + rem as int,
                    0 < rem < per_page,
                    total <= u64::MAX,
            ;
        }
        q + 1
    }
}

/// A page holds rows exactly when it is within the page count: page `page`
/// starts before the last row if and only if `page <= ceil(total / per_page)`.
/// Every later page starts at or past `total` and so yields no row.
pub proof fn lemma_page_within_total(total: nat, page: nat, per_page: nat)
    requires
        page >= 1,
        per_page >= 1,
    ensures
        offset_of(page, per_page) < total <==> page <= pages_for(total, per_page),
{
    let t = total as int;
    let p = per_page as int;
    let k = page as int;
    assert(t == (t / p) * p + t % p && 0 <= t % p < p) by (nonlinear_arith)
        requires
            p >= 1,
    ;
    if t % p == 0 {
        assert((t + p - 1) / p == t / p) by (nonlinear_arith)
            requires
                p >= 1,
                t == (t / p) * p,
        ;
    } else {
        assert((t + p - 1) / p == t / p + 1) by (nonlinear_arith)
            requires
                p >= 1,
                t == (t / p) * p + t % p,
                0 < t % p < p,
        ;
    }
    let c = pages_for(total, per_page) as int;
    if k <= c {
        assert((k - 1) * p < t) by (nonlinear_arith)
            requires
                k <= c,
                k >= 1,
                p >= 1,
                t == (t / p) * p + t % p,
                0 <= t % p < p,
                (t % p == 0 ==> c == t / p),
                (t % p != 0 ==> c == t / p + 1),
        ;
    } else {
        assert((k - 1) * p >= t) by (nonlinear_arith)
            requires
                k > c,
                p >= 1,
                t == (t / p) * p + t % p,
                0 <= t % p < p,
                (t % p == 0 ==> c == t / p),
                (t % p != 0 ==> c == t / p + 1),
        ;
    }
}

/// A term searched for, as a substring, in each of several columns.
#[derive(Debug)]
pub struct SearchFilter {
    pub term: String,
    pub columns: Vec<String>,
}

/// The LIKE pattern that finds `term` anywhere in a value.
pub open spec fn contains_pattern(term: Seq<char>) -> Seq<char> {
    "%"@ + term + "%"@
}

/// `f` is `column LIKE pattern`.
pub open spec fn is_like(f: FilterOperator, column: Seq<char>, pattern: Seq<char>) -> bool {
    f matches FilterOperator::Single(Filter { column: c, condition: Condition::Like(Value::Text(p)) })
        && c@ == column && p@ == pattern
}

impl SearchFilter {
    pub fn new(term: &str, columns: Vec<String>) -> (r: SearchFilter)
        ensures
            r.term@ == term@,
            r.columns == columns,
    {
        SearchFilter { term: String::from_str(term), columns }
    }

    /// `Or` of `column LIKE %term%` over the columns, in order.
    pub fn to_filter_operator(&self) -> (r: FilterOperator)
        ensures
            r matches FilterOperator::Or(cs) && cs@.len() == self.columns@.len() && forall|i: int|
                0 <= i < cs@.len() ==> #[trigger] is_like(
                    cs@[i],
                    self.columns@[i]@,
                    contains_pattern(self.term@),
                ),
    {
        let mut pattern = String::from_str("%");
        pattern.append(self.term.as_str());
        pattern.append("%");
        let mut cs: Vec<FilterOperator> = Vec::new();
        let mut i: usize = 0;
        while i < self.columns.len()
            invariant
                0 <= i <= self.columns.len(),
                pattern@ == contains_pattern(self.term@),
                cs@.len() == i,
                forall|j: int|
                    0 <= j < i ==> #[trigger] is_like(
                        cs@[j],
                        self.columns@[j]@,
                        contains_pattern(self.term@),
                    ),
            decreases self.columns.len() - i,
        {
            let f = Filter::like(self.columns[i].as_str(), pattern.as_str());
            cs.push(FilterOperator::Single(f));
            i = i + 1;
        }
        FilterOperator::Or(cs)
    }
}

} // verus!
