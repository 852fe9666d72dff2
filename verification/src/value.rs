//! Literal values that a statement binds as parameters.

use vstd::prelude::*;

verus! {

/// What a [`Value`] stands for.
pub enum ValueView {
    Null,
    Bool(bool),
    Int(int),
    Text(Seq<char>),
    Bytes(Seq<u8>),
    Date(int),
    Time(int),
    Timestamp(int),
}

/// A literal SQL value. It carries no formatting of its own: how it appears
/// in a statement is decided by the renderer alone.
#[derive(Debug, PartialEq, Eq)]
pub enum Value {
    Null,
    Bool(bool),
    Int(i64),
    String(String),
    Bytes(Vec<u8>),
    /// A calendar date, in days since 1970-01-01.
    Date(i32),
    /// A time of day, in microseconds since midnight.
    Time(u64),
    /// A point in time, in microseconds since 1970-01-01 00:00:00 UTC.
    Timestamp(i64),
}

impl View for Value {
    type V = ValueView;

    open spec fn view(&self) -> ValueView {
        match self {
            Value::Null => ValueView::Null,
            Value::Bool(b) => ValueView::Bool(*b),
            Value::Int(i) => ValueView::Int(*i as int),
            Value::String(s) => ValueView::Text(s@),
            Value::Bytes(b) => ValueView::Bytes(b@),
            Value::Date(days) => ValueView::Date(*days as int),
            Value::Time(micros) => ValueView::Time(*micros as int),
            Value::Timestamp(micros) => ValueView::Timestamp(*micros as int),
        }
    }
}

impl Clone for Value {
    /// A duplicate that stands for the same literal.
    fn clone(&self) -> (copy: Value)
        ensures
            copy@ == self@,
    {
        match self {
            Value::Null => Value::Null,
            Value::Bool(b) => Value::Bool(*b),
            Value::Int(i) => Value::Int(*i),
            Value::String(s) => Value::String(s.clone()),
            Value::Bytes(b) => Value::Bytes(b.clone()),
            Value::Date(days) => Value::Date(*days),
            Value::Time(micros) => Value::Time(*micros),
            Value::Timestamp(micros) => Value::Timestamp(*micros),
        }
    }
}

/// The literals that a sequence of values stands for, in the same order.
pub open spec fn values_view(values: Seq<Value>) -> Seq<ValueView> {
    values.map_values(|v: Value| v@)
}

} // verus!
