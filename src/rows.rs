//! Result rows and a forward-only cursor over them.
use vstd::prelude::*;

use crate::error::OrmError;
use crate::value::{views, Value, ValueView};

verus! {

/// One result row: its values in column order and, where known, the column names.
#[derive(Debug)]
pub struct LibsqlRow {
    pub values: Vec<Value>,
    pub names: Vec<String>,
}

impl LibsqlRow {
    pub open spec fn values_view(&self) -> Seq<ValueView> {
        views(self.values@)
    }

    /// A row without columns.
    pub fn new() -> (r: LibsqlRow)
        ensures
            r.values@.len() == 0,
            r.names@.len() == 0,
    {
        LibsqlRow { values: Vec::new(), names: Vec::new() }
    }

    pub fn from_values(names: Vec<String>, values: Vec<Value>) -> (r: LibsqlRow)
        ensures
            r.values == values,
            r.names == names,
    {
        LibsqlRow { values, names }
    }

    /// The value in column `index`; an index past the last column is an error.
    pub fn get(&self, index: usize) -> (r: Result<&Value, OrmError>)
        ensures
            index < self.values@.len() <==> r is Ok,
            r matches Ok(v) ==> *v == self.values@[index as int],
            r matches Err(e) ==> e is Decode,
    {
        if index < self.values.len() {
            Ok(&self.values[index])
        } else {
            Err(OrmError::Decode(String::from_str("column index out of range")))
        }
    }

    /// A copy of the value in column `index`, if there is one.
    pub fn get_value(&self, index: usize) -> (r: Option<Value>)
        ensures
            index < self.values@.len() <==> r is Some,
            r matches Some(v) ==> v@ == self.values@[index as int]@,
    {
        if index < self.values.len() {
            Some(self.values[index].clone())
        } else {
            None
        }
    }

    pub fn column_count(&self) -> (r: usize)
        ensures
            r == self.values@.len(),
    {
        self.values.len()
    }

    /// The name of column `index`, if it is known.
    pub fn column_name(&self, index: usize) -> (r: Option<&str>)
        ensures
            index < self.names@.len() <==> r is Some,
            r matches Some(n) ==> n@ == self.names@[index as int]@,
    {
        if index < self.names.len() {
            Some(self.names[index].as_str())
        } else {
            None
        }
    }
}

impl Clone for LibsqlRow {
    fn clone(&self) -> (r: Self)
        ensures
            r.values_view() == self.values_view(),
            r.names@ == self.names@,
    {
        let mut values: Vec<Value> = Vec::new();
        let mut i: usize = 0;
        while i < self.values.len()
            invariant
                0 <= i <= self.values.len(),
                views(values@) == views(self.values@.subrange(0, i as int)),
            decreases self.values.len() - i,
        {
            let ghost v0 = values@;
            values.push(self.values[i].clone());
            assert(views(values@) =~= views(v0).push(self.values@[i as int]@));
            assert(views(self.values@.subrange(0, i + 1)) =~= views(
                self.values@.subrange(0, i as int),
            ).push(self.values@[i as int]@));
            i = i + 1;
        }
        assert(self.values@.subrange(0, self.values.len() as int) =~= self.values@);
        let mut names: Vec<String> = Vec::new();
        let mut j: usize = 0;
        while j < self.names.len()
            invariant
                0 <= j <= self.names.len(),
                names@ == self.names@.subrange(0, j as int),
            decreases self.names.len() - j,
        {
            names.push(self.names[j].clone());
            assert(names@ =~= self.names@.subrange(0, j + 1));
            j = j + 1;
        }
        assert(self.names@.subrange(0, self.names.len() as int) =~= self.names@);
        LibsqlRow { values, names }
    }
}

/// A forward-only cursor over result rows.
#[derive(Debug)]
pub struct LibsqlRows {
    pub rows: Vec<LibsqlRow>,
    pub index: usize,
}

impl LibsqlRows {
    /// A cursor before the first of `rows`.
    pub fn new(rows: Vec<LibsqlRow>) -> (r: LibsqlRows)
        ensures
            r.rows == rows,
            r.index == 0,
    {
        LibsqlRows { rows, index: 0 }
    }

    /// The next row, in order, or `None` once every row has been handed out.
    pub fn next(&mut self) -> (r: Option<LibsqlRow>)
        ensures
            final(self).rows == old(self).rows,
            old(self).index < old(self).rows@.len() ==> {
                &&& final(self).index == old(self).index + 1
                &&& r matches Some(row) && row.values_view() == old(self).rows@[old(
                    self,
                ).index as int].values_view() && row.names@ == old(self).rows@[old(
                    self,
                ).index as int].names@
            },
            old(self).index >= old(self).rows@.len() ==> final(self).index == old(self).index
                && r is None,
    {
        if self.index < self.rows.len() {
            let row = self.rows[self.index].clone();
            self.index = self.index + 1;
            Some(row)
        } else {
            None
        }
    }
}

} // verus!
