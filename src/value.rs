//! Scalar values as they cross to the driver.
use vstd::prelude::*;

verus! {

/// A database-portable scalar, the unit in which parameters cross to the driver.
///
/// A real number is carried as the IEEE-754 bit pattern of a double: the
/// library never computes with it, it only hands it on.
#[derive(Debug, PartialEq)]
pub enum Value {
    Null,
    Integer(i64),
    Real(u64),
    Text(String),
    Blob(Vec<u8>),
}

/// The driver-facing name of `Value`.
pub type LibsqlValue = Value;

/// The mathematical content of a `Value`.
pub enum ValueView {
    Null,
    Integer(i64),
    Real(u64),
    Text(Seq<char>),
    Blob(Seq<u8>),
}

impl View for Value {
    type V = ValueView;

    open spec fn view(&self) -> ValueView {
        match self {
            Value::Null => ValueView::Null,
            Value::Integer(i) => ValueView::Integer(*i),
            Value::Real(b) => ValueView::Real(*b),
            Value::Text(s) => ValueView::Text(s@),
            Value::Blob(b) => ValueView::Blob(b@),
        }
    }
}

/// The views of a sequence of values, in order.
pub open spec fn views(s: Seq<Value>) -> Seq<ValueView> {
    s.map_values(|v: Value| v@)
}

impl Clone for Value {
    fn clone(&self) -> (r: Self)
        ensures
            r@ == self@,
    {
        match self {
            Value::Null => Value::Null,
            Value::Integer(i) => Value::Integer(*i),
            Value::Real(b) => Value::Real(*b),
            Value::Text(s) => Value::Text(s.clone()),
            Value::Blob(b) => {
                let c = b.clone();
                assert(c@ =~= b@);
                Value::Blob(c)
            },
        }
    }
}

impl Value {
    /// A boolean is stored as the integer 1 (true) or 0 (false).
    pub fn from_bool(b: bool) -> (r: Value)
        ensures
            r@ == ValueView::Integer(if b { 1 } else { 0 }),
    {
        if b {
            Value::Integer(1)
        } else {
            Value::Integer(0)
        }
    }
}

pub fn null_value() -> (r: Value)
    ensures
        r@ == ValueView::Null,
{
    Value::Null
}

pub fn text_value(s: String) -> (r: Value)
    ensures
        r@ == ValueView::Text(s@),
{
    Value::Text(s)
}

pub fn integer_value(i: i64) -> (r: Value)
    ensures
        r@ == ValueView::Integer(i),
{
    Value::Integer(i)
}

/// A real value, given by the bit pattern of the double it stands for.
pub fn real_value(bits: u64) -> (r: Value)
    ensures
        r@ == ValueView::Real(bits),
{
    Value::Real(bits)
}

pub fn blob_value(b: Vec<u8>) -> (r: Value)
    ensures
        r@ == ValueView::Blob(b@),
{
    Value::Blob(b)
}

} // verus!
