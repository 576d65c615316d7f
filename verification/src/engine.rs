//! The boundary to the execution engine and to the guard around it.
//!
//! Everything in this module is trusted: Verus reads the contracts and not
//! the bodies. Each item stands for one function or type of `turso_core` or
//! of `std`, and its doc comment says what is claimed of it.
//!
//! A statement is opaque, but it holds two collections that the library
//! reads: its result columns and the row it has stepped to. Each has a name
//! here, and the functions that read them are specified over these names.

use vstd::prelude::*;
use std::sync::{Arc, Mutex, MutexGuard, PoisonError};
use std::task::Waker;
use turso_core::{LimboError, Statement};
use crate::signal::StepSignal;
use crate::value::{views_of, Value, ValueView};

verus! {

/// `turso_core::Statement`, a prepared statement. Opaque: the library only
/// hands it to the functions below.
#[verifier::external_type_specification]
#[verifier::external_body]
pub struct ExStatement(Statement);

/// `turso_core::LimboError`, the engine's error. Opaque.
#[verifier::external_type_specification]
#[verifier::external_body]
pub struct ExLimboError(LimboError);

/// `std::task::Waker`, the resumption signal. Opaque.
#[verifier::external_type_specification]
#[verifier::external_body]
pub struct ExWaker(Waker);

/// `std::sync::Mutex`. Opaque.
#[verifier::external_type_specification]
#[verifier::external_body]
#[verifier::reject_recursive_types(T)]
pub struct ExMutex<T: ?Sized>(Mutex<T>);

/// `std::sync::MutexGuard`. Opaque.
#[verifier::external_type_specification]
#[verifier::external_body]
#[verifier::reject_recursive_types(T)]
pub struct ExMutexGuard<'a, T: ?Sized + 'a>(MutexGuard<'a, T>);

/// `std::sync::PoisonError`. Opaque.
#[verifier::external_type_specification]
#[verifier::external_body]
#[verifier::reject_recursive_types(T)]
pub struct ExPoisonError<T>(PoisonError<T>);

/// The names of the statement's result columns, in column order.
pub uninterp spec fn statement_columns(stmt: Statement) -> Seq<Seq<char>>;

/// The values of the row that the statement currently holds, in column
/// order, or `None` while it holds no row.
pub uninterp spec fn statement_row(stmt: Statement) -> Option<Seq<ValueView>>;

/// `Statement::step_with_waker`: advances the statement by one step and
/// hands `waker` to the engine. Nothing is claimed of the result: it
/// depends on the database and on pending I/O. Each `StepResult` variant is
/// turned into the `StepSignal` of the same meaning.
#[verifier::external_body]
pub(crate) fn step(stmt: &mut Statement, waker: &Waker) -> (r: Result<StepSignal, LimboError>) {
    Ok(
        match stmt.step_with_waker(waker)? {
            turso_core::StepResult::Row => StepSignal::Row,
            turso_core::StepResult::Done => StepSignal::Done,
            turso_core::StepResult::IO => StepSignal::Io,
            turso_core::StepResult::Busy => StepSignal::Busy,
            turso_core::StepResult::Interrupt => StepSignal::Interrupt,
        },
    )
}

/// `Statement::run_once`: services one unit of pending I/O without
/// blocking. Nothing is claimed of the result.
#[verifier::external_body]
pub(crate) fn run_once(stmt: &Statement) -> (r: Result<(), LimboError>) {
    stmt.run_once()
}

/// `Statement::row` followed by `Row::get_values`: the current row's values
/// as owned copies, each engine value turned into the `Value` of the same
/// kind and payload (a float into its bit pattern). Claimed: the result is
/// `None` exactly when the statement holds no row, and otherwise holds the
/// row's values in column order.
#[verifier::external_body]
pub(crate) fn current_row(stmt: &Statement) -> (r: Option<Vec<Value>>)
    ensures
        r is Some <==> statement_row(*stmt) is Some,
        r matches Some(values) ==> statement_row(*stmt) == Some(views_of(values@)),
{
    let row = stmt.row()?;
    Some(
        row.get_values().map(
            |v| match v {
                turso_core::Value::Null => Value::Null,
                turso_core::Value::Integer(i) => Value::Integer(*i),
                turso_core::Value::Float(f) => Value::Real(f.to_bits()),
                turso_core::Value::Text(t) => Value::Text(t.as_str().to_owned()),
                turso_core::Value::Blob(b) => Value::Blob(b.clone()),
            },
        ).collect(),
    )
}

/// `Statement::num_columns`: the number of result columns.
#[verifier::external_body]
pub(crate) fn column_count(stmt: &Statement) -> (n: usize)
    ensures
        n == statement_columns(*stmt).len(),
{
    stmt.num_columns()
}

/// `Statement::get_column_name`: the name of result column `idx`, as an
/// owned string. The engine panics on a position that is no column, so the
/// position must be one.
#[verifier::external_body]
pub(crate) fn column_name(stmt: &Statement, idx: usize) -> (name: String)
    requires
        idx < statement_columns(*stmt).len(),
    ensures
        name@ == statement_columns(*stmt)[idx as int],
{
    stmt.get_column_name(idx).into_owned()
}

/// `LimboError`'s `Display`: the engine's description of its error.
/// Nothing is claimed of the text.
#[verifier::external_body]
pub(crate) fn message(e: &LimboError) -> (m: String) {
    e.to_string()
}

/// `Mutex::lock`: waits for exclusive access to the statement. Fails when
/// a holder of the guard panicked. Nothing is claimed of the result. A
/// thread that holds the guard already must not call this.
#[verifier::external_body]
pub(crate) fn lock<'a>(handle: &'a Mutex<Statement>) -> (r: Result<
    MutexGuard<'a, Statement>,
    PoisonError<MutexGuard<'a, Statement>>,
>) {
    handle.lock()
}

/// `MutexGuard`'s `DerefMut`: the statement behind the guard.
#[verifier::external_body]
pub(crate) fn guarded<'g, 'a>(guard: &'g mut MutexGuard<'a, Statement>) -> (stmt:
    &'g mut Statement) {
    &mut **guard
}

/// `PoisonError`'s `Display`: the description of a poisoned guard.
/// Nothing is claimed of the text.
#[verifier::external_body]
pub(crate) fn poison_message<'a>(e: &PoisonError<MutexGuard<'a, Statement>>) -> (m: String) {
    e.to_string()
}

/// `Arc::clone`: another handle to the same guarded statement.
#[verifier::external_body]
pub(crate) fn share(handle: &Arc<Mutex<Statement>>) -> (r: Arc<Mutex<Statement>>)
    ensures
        r == *handle,
{
    Arc::clone(handle)
}

/// `<i64 as turso_core::types::FromValue>::from_sql` on an engine integer
/// (`Some`) or on the engine's null (`None`). Claimed: an integer comes
/// back unchanged, null is an error.
#[verifier::external_body]
pub(crate) fn decode_i64(v: Option<i64>) -> (r: Result<i64, LimboError>)
    ensures
        v is Some ==> r is Ok && r->Ok_0 == v->Some_0,
        v is None ==> r is Err,
{
    <i64 as turso_core::types::FromValue>::from_sql(
        match v {
            Some(i) => turso_core::Value::Integer(i),
            None => turso_core::Value::Null,
        },
    )
}

/// `<i32 as turso_core::types::FromValue>::from_sql` on an engine integer
/// or on null. Claimed: an integer that an `i32` can hold comes back with
/// the same value, null is an error. The engine cuts off the high bits of
/// any other integer; nothing is claimed of what is left.
#[verifier::external_body]
pub(crate) fn decode_i32(v: Option<i64>) -> (r: Result<i32, LimboError>)
    ensures
        v is Some && i32::MIN <= v->Some_0 <= i32::MAX ==> r is Ok && r->Ok_0 == v->Some_0,
        v is None ==> r is Err,
{
    <i32 as turso_core::types::FromValue>::from_sql(
        match v {
            Some(i) => turso_core::Value::Integer(i),
            None => turso_core::Value::Null,
        },
    )
}

/// `<u32 as turso_core::types::FromValue>::from_sql` on an engine integer
/// or on null. Claimed: an integer that a `u32` can hold comes back with
/// the same value, null is an error. The engine cuts off the high bits of
/// any other integer; nothing is claimed of what is left.
#[verifier::external_body]
pub(crate) fn decode_u32(v: Option<i64>) -> (r: Result<u32, LimboError>)
    ensures
        v is Some && 0 <= v->Some_0 <= u32::MAX ==> r is Ok && r->Ok_0 == v->Some_0,
        v is None ==> r is Err,
{
    <u32 as turso_core::types::FromValue>::from_sql(
        match v {
            Some(i) => turso_core::Value::Integer(i),
            None => turso_core::Value::Null,
        },
    )
}

/// `<u64 as turso_core::types::FromValue>::from_sql` on an engine integer
/// or on null. Claimed: an integer that is not negative comes back with the
/// same value, null is an error. The engine reads a negative integer as a
/// large positive one; nothing is claimed of it.
#[verifier::external_body]
pub(crate) fn decode_u64(v: Option<i64>) -> (r: Result<u64, LimboError>)
    ensures
        v is Some && 0 <= v->Some_0 ==> r is Ok && r->Ok_0 == v->Some_0,
        v is None ==> r is Err,
{
    <u64 as turso_core::types::FromValue>::from_sql(
        match v {
            Some(i) => turso_core::Value::Integer(i),
            None => turso_core::Value::Null,
        },
    )
}

/// `<bool as turso_core::types::FromValue>::from_sql` on an engine integer
/// or on null. Claimed: 0 is `false`, 1 is `true`, every other integer and
/// null are errors.
#[verifier::external_body]
pub(crate) fn decode_bool(v: Option<i64>) -> (r: Result<bool, LimboError>)
    ensures
        v == Some(0i64) ==> r is Ok && !r->Ok_0,
        v == Some(1i64) ==> r is Ok && r->Ok_0,
        v != Some(0i64) && v != Some(1i64) ==> r is Err,
{
    <bool as turso_core::types::FromValue>::from_sql(
        match v {
            Some(i) => turso_core::Value::Integer(i),
            None => turso_core::Value::Null,
        },
    )
}

/// `<String as turso_core::types::FromValue>::from_sql` on an engine text
/// or on null. Claimed: a text comes back with the same characters, null is
/// an error.
#[verifier::external_body]
pub(crate) fn decode_text(v: Option<String>) -> (r: Result<String, LimboError>)
    ensures
        v is Some ==> r is Ok && r->Ok_0@ == v->Some_0@,
        v is None ==> r is Err,
{
    <String as turso_core::types::FromValue>::from_sql(
        match v {
            Some(s) => turso_core::Value::Text(turso_core::types::Text::new(&s)),
            None => turso_core::Value::Null,
        },
    )
}

/// `<Vec<u8> as turso_core::types::FromValue>::from_sql` on an engine blob
/// or on null. Claimed: a blob comes back with the same bytes, null is an
/// error.
#[verifier::external_body]
pub(crate) fn decode_blob(v: Option<Vec<u8>>) -> (r: Result<Vec<u8>, LimboError>)
    ensures
        v is Some ==> r is Ok && r->Ok_0@ == v->Some_0@,
        v is None ==> r is Err,
{
    <Vec<u8> as turso_core::types::FromValue>::from_sql(
        match v {
            Some(b) => turso_core::Value::Blob(b),
            None => turso_core::Value::Null,
        },
    )
}

/// `<[u8; N] as turso_core::types::FromValue>::from_sql` on an engine blob
/// or on null. Claimed: a blob of exactly `N` bytes comes back with the
/// same bytes, a blob of another length and null are errors.
#[verifier::external_body]
pub(crate) fn decode_array<const N: usize>(v: Option<Vec<u8>>) -> (r: Result<[u8; N], LimboError>)
    ensures
        v is Some && v->Some_0@.len() == N ==> r is Ok && r->Ok_0@ == v->Some_0@,
        v is Some && v->Some_0@.len() != N ==> r is Err,
        v is None ==> r is Err,
{
    <[u8; N] as turso_core::types::FromValue>::from_sql(
        match v {
            Some(b) => turso_core::Value::Blob(b),
            None => turso_core::Value::Null,
        },
    )
}

} // verus!
