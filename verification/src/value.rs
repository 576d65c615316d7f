//! The values a column can hold.

use vstd::prelude::*;

verus! {

/// One column value of a row. A value owns its payload: text and blobs
/// are copies, never borrows of the engine's buffers.
#[derive(Debug, PartialEq, Eq)]
pub enum Value {
    Null,
    Integer(i64),
    /// A 64-bit float, held as its IEEE 754 bit pattern.
    Real(u64),
    Text(String),
    Blob(Vec<u8>),
}

/// The mathematical content of a [`Value`].
pub enum ValueView {
    Null,
    Integer(i64),
    Real(u64),
    Text(Seq<char>),
    Blob(Seq<u8>),
}

impl ValueView {
    /// The name of the value's kind, as failures mention it.
    pub open spec fn kind_name(self) -> Seq<char> {
        match self {
            ValueView::Null => "null"@,
            ValueView::Integer(_) => "integer"@,
            ValueView::Real(_) => "real"@,
            ValueView::Text(_) => "text"@,
            ValueView::Blob(_) => "blob"@,
        }
    }
}

impl View for Value {
    type V = ValueView;

    open spec fn view(&self) -> ValueView {
        match self {
            Value::Null => ValueView::Null,
            Value::Integer(i) => ValueView::Integer(*i),
            Value::Real(bits) => ValueView::Real(*bits),
            Value::Text(s) => ValueView::Text(s@),
            Value::Blob(b) => ValueView::Blob(b@),
        }
    }
}

/// The contents of a sequence of values, element by element.
pub open spec fn views_of(values: Seq<Value>) -> Seq<ValueView> {
    values.map_values(|v: Value| v@)
}

impl Value {
    /// The name of the value's kind, as failures mention it.
    pub fn kind_name(&self) -> (name: &'static str)
        ensures
            name@ == self@.kind_name(),
    {
        match self {
            Value::Null => "null",
            Value::Integer(_) => "integer",
            Value::Real(_) => "real",
            Value::Text(_) => "text",
            Value::Blob(_) => "blob",
        }
    }
}

impl Clone for Value {
    /// A deep copy: the clone has the same kind and the same payload.
    fn clone(&self) -> (r: Self)
        ensures
            r@ == self@,
    {
        match self {
            Value::Null => Value::Null,
            Value::Integer(i) => Value::Integer(*i),
            Value::Real(bits) => Value::Real(*bits),
            Value::Text(s) => Value::Text(s.clone()),
            Value::Blob(b) => Value::Blob(b.clone()),
        }
    }
}

} // verus!
