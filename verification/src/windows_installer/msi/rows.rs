//! Table rows of the MSI database as plain values.
use vstd::prelude::*;

use crate::text::{int_decimal, owned};

verus! {

/// One cell of an MSI table row.
#[derive(Debug)]
pub enum Value {
    Null,
    Int(i32),
    Str(String),
    /// A binary cell whose data is written as a stream of its own.
    Binary,
}

/// A cell as a plain value.
pub enum ValueView {
    Null,
    Int(int),
    Str(Seq<char>),
    Binary,
}

pub open spec fn value_view(v: Value) -> ValueView {
    match v {
        Value::Null => ValueView::Null,
        Value::Int(i) => ValueView::Int(i as int),
        Value::Str(s) => ValueView::Str(s@),
        Value::Binary => ValueView::Binary,
    }
}

pub open spec fn row_view(r: Vec<Value>) -> Seq<ValueView> {
    r@.map_values(|v: Value| value_view(v))
}

pub open spec fn rows_view(rows: Seq<Vec<Value>>) -> Seq<Seq<ValueView>> {
    rows.map_values(|r: Vec<Value>| row_view(r))
}

/// A text cell, or an empty one.
pub open spec fn opt_cell(o: Option<Seq<char>>) -> ValueView {
    match o {
        Some(s) => ValueView::Str(s),
        None => ValueView::Null,
    }
}

impl Value {
    /// The text of a text cell.
    pub fn as_str(&self) -> (r: Option<&str>)
        ensures
            match self {
                Value::Str(s) => r matches Some(t) && t@ == s@,
                _ => r is None,
            },
    {
        match self {
            Value::Str(s) => Some(s.as_str()),
            _ => None,
        }
    }

    /// The number of an integer cell.
    pub fn as_int(&self) -> (r: Option<i32>)
        ensures
            match self {
                Value::Int(i) => r == Some(*i),
                _ => r is None,
            },
    {
        match self {
            Value::Int(i) => Some(*i),
            _ => None,
        }
    }

    /// Whether the cell is empty.
    pub fn is_null(&self) -> (r: bool)
        ensures
            r == (*self is Null),
    {
        matches!(self, Value::Null)
    }
}

/// A text cell holding `s`.
pub fn text(s: &str) -> (r: Value)
    ensures
        value_view(r) == ValueView::Str(s@),
{
    Value::Str(owned(s))
}

/// A text cell holding `s`, or an empty cell.
pub fn opt_text(s: Option<&str>) -> (r: Value)
    ensures
        value_view(r) == opt_cell(match s {
            Some(t) => Some(t@),
            None => None,
        }),
{
    match s {
        Some(t) => Value::Str(owned(t)),
        None => Value::Null,
    }
}

/// Appends a row to a table.
pub fn push_row(rows: &mut Vec<Vec<Value>>, row: Vec<Value>)
    ensures
        rows_view(final(rows)@) == rows_view(old(rows)@).push(row_view(row)),
{
    let ghost before = rows@;
    rows.push(row);
    assert(rows_view(rows@) =~= rows_view(before).push(row_view(row)));
}

/// Appends the rows of `more` to a table.
pub fn append_rows(rows: &mut Vec<Vec<Value>>, more: Vec<Vec<Value>>)
    ensures
        rows_view(final(rows)@) == rows_view(old(rows)@) + rows_view(more@),
{
    let mut more = more;
    let ghost (a, b) = (rows@, more@);
    rows.append(&mut more);
    assert(rows_view(rows@) =~= rows_view(a) + rows_view(b));
}

} // verus!
