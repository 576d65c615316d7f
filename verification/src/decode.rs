//! Decoding a stored value as a host type.
//!
//! Decoding never coerces across kinds and never truncates: a value of
//! another kind, a null, or an integer that the requested type cannot hold
//! is a conversion failure.

use vstd::prelude::*;
use turso_core::LimboError;
use crate::engine;
use crate::error::{Error, ErrorView, kind_mismatch_message, out_of_range_message};
use crate::value::{Value, ValueView};

verus! {

/// A host type that a [`Value`] can be decoded as.
pub trait FromValue: Sized {
    /// Whether `val` can be represented as `Self`.
    spec fn accepts(val: ValueView) -> bool;

    /// Whether `out` represents `val`.
    spec fn decodes(val: ValueView, out: Self) -> bool;

    /// Decodes `val`. Succeeds exactly on the values that `Self` accepts,
    /// and every failure is a conversion failure.
    fn from_sql(val: Value) -> (r: Result<Self, Error>)
        ensures
            r is Ok <==> Self::accepts(val@),
            r matches Ok(out) ==> Self::decodes(val@, out),
            r matches Err(e) ==> e is ConversionFailure,
    ;
}

/// Turns the engine's verdict on a decoding into the library's: success is
/// kept, and an engine error becomes a conversion failure that carries the
/// engine's description.
pub fn conversion_result<T>(verdict: Result<T, LimboError>) -> (r: Result<T, Error>)
    ensures
        verdict is Ok ==> r is Ok && r->Ok_0 == verdict->Ok_0,
        verdict is Err ==> r is Err && r->Err_0 is ConversionFailure,
{
    match verdict {
        Ok(x) => Ok(x),
        Err(e) => Err(Error::ConversionFailure(engine::message(&e))),
    }
}

impl FromValue for i64 {
    open spec fn accepts(val: ValueView) -> bool {
        val is Integer
    }

    open spec fn decodes(val: ValueView, out: i64) -> bool {
        val == ValueView::Integer(out)
    }

    fn from_sql(val: Value) -> (r: Result<i64, Error>)
        ensures
            !(val@ is Null) && !(val@ is Integer) ==> r is Err && r->Err_0@
                == ErrorView::ConversionFailure(kind_mismatch_message("integer"@, val@)),
    {
        match val {
            Value::Null => conversion_result(engine::decode_i64(None)),
            Value::Integer(i) => conversion_result(engine::decode_i64(Some(i))),
            other => Err(Error::kind_mismatch("integer", &other)),
        }
    }
}

impl FromValue for i32 {
    open spec fn accepts(val: ValueView) -> bool {
        val matches ValueView::Integer(i) && i32::MIN <= i <= i32::MAX
    }

    open spec fn decodes(val: ValueView, out: i32) -> bool {
        val == ValueView::Integer(out as i64)
    }

    fn from_sql(val: Value) -> (r: Result<i32, Error>)
        ensures
            !(val@ is Null) && !(val@ is Integer) ==> r is Err && r->Err_0@
                == ErrorView::ConversionFailure(kind_mismatch_message("integer"@, val@)),
            val@ is Integer && !Self::accepts(val@) ==> r is Err && r->Err_0@
                == ErrorView::ConversionFailure(out_of_range_message()),
    {
        match val {
            Value::Null => conversion_result(engine::decode_i32(None)),
            Value::Integer(i) => {
                if i32::MIN as i64 <= i && i <= i32::MAX as i64 {
                    conversion_result(engine::decode_i32(Some(i)))
                } else {
                    Err(Error::out_of_range())
                }
            },
            other => Err(Error::kind_mismatch("integer", &other)),
        }
    }
}

impl FromValue for u32 {
    open spec fn accepts(val: ValueView) -> bool {
        val matches ValueView::Integer(i) && 0 <= i <= u32::MAX
    }

    open spec fn decodes(val: ValueView, out: u32) -> bool {
        val == ValueView::Integer(out as i64)
    }

    fn from_sql(val: Value) -> (r: Result<u32, Error>)
        ensures
            !(val@ is Null) && !(val@ is Integer) ==> r is Err && r->Err_0@
                == ErrorView::ConversionFailure(kind_mismatch_message("integer"@, val@)),
            val@ is Integer && !Self::accepts(val@) ==> r is Err && r->Err_0@
                == ErrorView::ConversionFailure(out_of_range_message()),
    {
        match val {
            Value::Null => conversion_result(engine::decode_u32(None)),
            Value::Integer(i) => {
                if 0 <= i && i <= u32::MAX as i64 {
                    conversion_result(engine::decode_u32(Some(i)))
                } else {
                    Err(Error::out_of_range())
                }
            },
            other => Err(Error::kind_mismatch("integer", &other)),
        }
    }
}

impl FromValue for u64 {
    open spec fn accepts(val: ValueView) -> bool {
        val matches ValueView::Integer(i) && 0 <= i
    }

    open spec fn decodes(val: ValueView, out: u64) -> bool {
        val matches ValueView::Integer(i) && i == out
    }

    fn from_sql(val: Value) -> (r: Result<u64, Error>)
        ensures
            !(val@ is Null) && !(val@ is Integer) ==> r is Err && r->Err_0@
                == ErrorView::ConversionFailure(kind_mismatch_message("integer"@, val@)),
            val@ is Integer && !Self::accepts(val@) ==> r is Err && r->Err_0@
                == ErrorView::ConversionFailure(out_of_range_message()),
    {
        match val {
            Value::Null => conversion_result(engine::decode_u64(None)),
            Value::Integer(i) => {
                if 0 <= i {
                    conversion_result(engine::decode_u64(Some(i)))
                } else {
                    Err(Error::out_of_range())
                }
            },
            other => Err(Error::kind_mismatch("integer", &other)),
        }
    }
}

impl FromValue for bool {
    open spec fn accepts(val: ValueView) -> bool {
        val == ValueView::Integer(0) || val == ValueView::Integer(1)
    }

    open spec fn decodes(val: ValueView, out: bool) -> bool {
        val == ValueView::Integer(if out { 1i64 } else { 0i64 })
    }

    fn from_sql(val: Value) -> (r: Result<bool, Error>)
        ensures
            !(val@ is Null) && !(val@ is Integer) ==> r is Err && r->Err_0@
                == ErrorView::ConversionFailure(kind_mismatch_message("integer"@, val@)),
    {
        match val {
            Value::Null => conversion_result(engine::decode_bool(None)),
            Value::Integer(i) => conversion_result(engine::decode_bool(Some(i))),
            other => Err(Error::kind_mismatch("integer", &other)),
        }
    }
}

impl FromValue for String {
    open spec fn accepts(val: ValueView) -> bool {
        val is Text
    }

    open spec fn decodes(val: ValueView, out: String) -> bool {
        val == ValueView::Text(out@)
    }

    fn from_sql(val: Value) -> (r: Result<String, Error>)
        ensures
            !(val@ is Null) && !(val@ is Text) ==> r is Err && r->Err_0@
                == ErrorView::ConversionFailure(kind_mismatch_message("text"@, val@)),
    {
        match val {
            Value::Null => conversion_result(engine::decode_text(None)),
            Value::Text(s) => conversion_result(engine::decode_text(Some(s))),
            other => Err(Error::kind_mismatch("text", &other)),
        }
    }
}

impl FromValue for Vec<u8> {
    open spec fn accepts(val: ValueView) -> bool {
        val is Blob
    }

    open spec fn decodes(val: ValueView, out: Vec<u8>) -> bool {
        val == ValueView::Blob(out@)
    }

    fn from_sql(val: Value) -> (r: Result<Vec<u8>, Error>)
        ensures
            !(val@ is Null) && !(val@ is Blob) ==> r is Err && r->Err_0@
                == ErrorView::ConversionFailure(kind_mismatch_message("blob"@, val@)),
    {
        match val {
            Value::Null => conversion_result(engine::decode_blob(None)),
            Value::Blob(b) => conversion_result(engine::decode_blob(Some(b))),
            other => Err(Error::kind_mismatch("blob", &other)),
        }
    }
}

impl<const N: usize> FromValue for [u8; N] {
    open spec fn accepts(val: ValueView) -> bool {
        val is Blob && val->Blob_0.len() == N
    }

    open spec fn decodes(val: ValueView, out: [u8; N]) -> bool {
        val == ValueView::Blob(out@)
    }

    fn from_sql(val: Value) -> (r: Result<[u8; N], Error>)
        ensures
            !(val@ is Null) && !(val@ is Blob) ==> r is Err && r->Err_0@
                == ErrorView::ConversionFailure(kind_mismatch_message("blob"@, val@)),
    {
        match val {
            Value::Null => conversion_result(engine::decode_array(None)),
            Value::Blob(b) => conversion_result(engine::decode_array(Some(b))),
            other => Err(Error::kind_mismatch("blob", &other)),
        }
    }
}

/// Every value decodes as itself.
impl FromValue for Value {
    open spec fn accepts(val: ValueView) -> bool {
        true
    }

    open spec fn decodes(val: ValueView, out: Value) -> bool {
        out@ == val
    }

    fn from_sql(val: Value) -> (r: Result<Value, Error>) {
        Ok(val)
    }
}

/// A null decodes as `None`; every other value decodes as `T` does.
impl<T: FromValue> FromValue for Option<T> {
    open spec fn accepts(val: ValueView) -> bool {
        val is Null || T::accepts(val)
    }

    open spec fn decodes(val: ValueView, out: Option<T>) -> bool {
        match out {
            None => val is Null,
            Some(x) => !(val is Null) && T::decodes(val, x),
        }
    }

    fn from_sql(val: Value) -> (r: Result<Option<T>, Error>) {
        match val {
            Value::Null => Ok(None),
            other => match T::from_sql(other) {
                Ok(x) => Ok(Some(x)),
                Err(e) => Err(e),
            },
        }
    }
}

} // verus!
