//! The failures a row stream and its rows report.

use vstd::prelude::*;
use vstd::string::StringExecFns;
use crate::value::{Value, ValueView};

verus! {

/// A failure of an advancement or of a row access.
#[derive(Debug, PartialEq, Eq)]
pub enum Error {
    /// The guard around the shared statement is poisoned.
    MutexError(String),
    /// The engine failed, was contended, or was interrupted.
    SqlExecutionFailure(String),
    /// No column of the row has the requested name.
    InvalidColumnName(String),
    /// The requested position lies outside the row.
    InvalidColumnIndex(usize),
    /// The stored value cannot be represented as the requested type.
    ConversionFailure(String),
}

/// The mathematical content of an [`Error`].
pub enum ErrorView {
    MutexError(Seq<char>),
    SqlExecutionFailure(Seq<char>),
    InvalidColumnName(Seq<char>),
    InvalidColumnIndex(int),
    ConversionFailure(Seq<char>),
}

impl View for Error {
    type V = ErrorView;

    open spec fn view(&self) -> ErrorView {
        match self {
            Error::MutexError(m) => ErrorView::MutexError(m@),
            Error::SqlExecutionFailure(m) => ErrorView::SqlExecutionFailure(m@),
            Error::InvalidColumnName(n) => ErrorView::InvalidColumnName(n@),
            Error::InvalidColumnIndex(i) => ErrorView::InvalidColumnIndex(*i as int),
            Error::ConversionFailure(m) => ErrorView::ConversionFailure(m@),
        }
    }
}

/// The message carried by an execution failure caused by contention.
pub open spec fn locked_message() -> Seq<char> {
    "database is locked"@
}

/// The message carried by an execution failure caused by an interrupt.
pub open spec fn interrupted_message() -> Seq<char> {
    "interrupted"@
}

/// The message of a conversion failure caused by a value of another kind
/// than the `expected` one.
pub open spec fn kind_mismatch_message(expected: Seq<char>, found: ValueView) -> Seq<char> {
    "expected "@ + expected + ", found "@ + found.kind_name()
}

/// The message of a conversion failure caused by an integer that the
/// requested type cannot hold.
pub open spec fn out_of_range_message() -> Seq<char> {
    "integer out of range"@
}

impl Error {
    /// The execution failure reported when the engine is contended.
    pub fn locked() -> (e: Error)
        ensures
            e@ == ErrorView::SqlExecutionFailure(locked_message()),
    {
        Error::SqlExecutionFailure("database is locked".to_owned())
    }

    /// The execution failure reported when the engine was interrupted.
    pub fn interrupted() -> (e: Error)
        ensures
            e@ == ErrorView::SqlExecutionFailure(interrupted_message()),
    {
        Error::SqlExecutionFailure("interrupted".to_owned())
    }

    /// The conversion failure reported for `found`, a value of another
    /// kind than the `expected` one. It names both kinds.
    pub fn kind_mismatch(expected: &str, found: &Value) -> (e: Error)
        ensures
            e@ == ErrorView::ConversionFailure(kind_mismatch_message(expected@, found@)),
    {
        let mut message = "expected ".to_owned();
        message.append(expected);
        message.append(", found ");
        message.append(found.kind_name());
        Error::ConversionFailure(message)
    }

    /// The conversion failure reported for an integer outside the range of
    /// the requested type.
    pub fn out_of_range() -> (e: Error)
        ensures
            e@ == ErrorView::ConversionFailure(out_of_range_message()),
    {
        Error::ConversionFailure("integer out of range".to_owned())
    }
}

} // verus!
