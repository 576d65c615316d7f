//! The single-step driver: one stepping call of the engine for each
//! attempt, and what the attempt reports.

use vstd::prelude::*;
use std::task::Waker;
use turso_core::{LimboError, Statement};
use crate::engine;
use crate::engine::{statement_columns, statement_row};
use crate::error::{Error, ErrorView};
use crate::row::{first_unpaired, names_of, Row, RowView};
use crate::signal::{interpret, reaction_of, Reaction, ReactionView, StepSignal};
use crate::value::ValueView;

verus! {

/// What one drive attempt reports.
#[derive(Debug)]
pub enum Progress {
    /// The attempt is complete: with a row, with none because the stream is
    /// exhausted, or with a failure.
    Ready(Result<Option<Row>, Error>),
    /// The engine waits for I/O: the caller suspends and retries when
    /// woken.
    Pending,
}

/// The mathematical content of a [`Progress`].
pub enum ProgressView {
    Ready(Result<Option<RowView>, ErrorView>),
    Pending,
}

impl View for Progress {
    type V = ProgressView;

    open spec fn view(&self) -> ProgressView {
        match self {
            Progress::Ready(Ok(Some(row))) => ProgressView::Ready(Ok(Some(row@))),
            Progress::Ready(Ok(None)) => ProgressView::Ready(Ok(None)),
            Progress::Ready(Err(e)) => ProgressView::Ready(Err(e@)),
            Progress::Pending => ProgressView::Pending,
        }
    }
}

/// The message of the failure reported when the engine announced a row and
/// holds none.
pub open spec fn missing_row_message() -> Seq<char> {
    "no row is available"@
}

/// What reading the current row comes to, for a statement that holds `row`
/// and has the result columns `columns`: the row under the column names,
/// or a failure where there is no row or the two differ in number.
pub open spec fn row_read(row: Option<Seq<ValueView>>, columns: Seq<Seq<char>>) -> Result<
    RowView,
    ErrorView,
> {
    match row {
        None => Err(ErrorView::SqlExecutionFailure(missing_row_message())),
        Some(values) => if values.len() == columns.len() {
            Ok(RowView { values, names: columns })
        } else {
            Err(
                ErrorView::InvalidColumnIndex(
                    first_unpaired(values.len() as int, columns.len() as int),
                ),
            )
        },
    }
}

/// Whether `p` reports an execution failure.
pub open spec fn execution_failed(p: ProgressView) -> bool {
    p is Ready && p->Ready_0 is Err && p->Ready_0->Err_0 is SqlExecutionFailure
}

/// Whether `p` is what an attempt may report after it has carried out
/// `reaction`, where reading the current row comes to `read`.
///
/// All is fixed but the fate of pending I/O: servicing it either goes well,
/// and the attempt suspends, or fails, and the attempt reports an execution
/// failure.
pub open spec fn conforms(
    p: ProgressView,
    reaction: ReactionView,
    read: Result<RowView, ErrorView>,
) -> bool {
    match reaction {
        ReactionView::EmitRow => p == match read {
            Ok(row) => ProgressView::Ready(Ok(Some(row))),
            Err(e) => ProgressView::Ready(Err(e)),
        },
        ReactionView::Finish => p == ProgressView::Ready(Ok(None)),
        ReactionView::ServiceIo => p is Pending || execution_failed(p),
        ReactionView::Fail(e) => p == ProgressView::Ready(Err(e)),
    }
}

/// The execution failure that stands for an error of the engine: it
/// carries the engine's description of the error.
pub fn engine_failure(e: LimboError) -> (failure: Error)
    ensures
        failure is SqlExecutionFailure,
{
    Error::SqlExecutionFailure(engine::message(&e))
}

/// What an attempt reports after pending I/O has been serviced once:
/// suspension if that went well, and an execution failure otherwise.
pub fn after_io(serviced: Result<(), LimboError>) -> (p: Progress)
    ensures
        serviced is Ok ==> p@ == ProgressView::Pending,
        serviced is Err ==> execution_failed(p@),
{
    match serviced {
        Ok(()) => Progress::Pending,
        Err(e) => Progress::Ready(Err(engine_failure(e))),
    }
}

/// The names of the statement's result columns, in column order.
pub fn column_names(stmt: &Statement) -> (names: Vec<String>)
    ensures
        names_of(names@) == statement_columns(*stmt),
{
    let count = engine::column_count(stmt);
    let mut names: Vec<String> = Vec::new();
    let mut idx: usize = 0;
    while idx < count
        invariant
            idx <= count,
            count == statement_columns(*stmt).len(),
            names@.len() == idx,
            forall|j: int| 0 <= j < idx ==> names@[j]@ == statement_columns(*stmt)[j],
        decreases count - idx,
    {
        let name = engine::column_name(stmt, idx);
        names.push(name);
        idx = idx + 1;
    }
    assert(names_of(names@) =~= statement_columns(*stmt));
    names
}

/// Reads the row that the statement holds, under the statement's column
/// names. Fails when the statement holds no row, and when the row and the
/// columns differ in number.
pub fn read_row(stmt: &Statement) -> (r: Result<Row, Error>)
    ensures
        r is Ok <==> row_read(statement_row(*stmt), statement_columns(*stmt)) is Ok,
        r is Ok ==> r->Ok_0@ == row_read(statement_row(*stmt), statement_columns(*stmt))->Ok_0,
        r is Err ==> r->Err_0@ == row_read(statement_row(*stmt), statement_columns(*stmt))->Err_0,
{
    match engine::current_row(stmt) {
        None => Err(Error::SqlExecutionFailure("no row is available".to_owned())),
        Some(values) => Row::new(values, column_names(stmt)),
    }
}

/// Carries out `reaction` on the statement and reports what the attempt
/// came to. Only reading a row and servicing I/O call the engine; the end
/// of the stream and a failure are reported without another call.
pub fn carry_out(reaction: Reaction, stmt: &Statement) -> (p: Progress)
    ensures
        conforms(p@, reaction@, row_read(statement_row(*stmt), statement_columns(*stmt))),
{
    match reaction {
        Reaction::EmitRow => match read_row(stmt) {
            Ok(row) => Progress::Ready(Ok(Some(row))),
            Err(e) => Progress::Ready(Err(e)),
        },
        Reaction::Finish => Progress::Ready(Ok(None)),
        Reaction::ServiceIo => after_io(engine::run_once(stmt)),
        Reaction::Fail(e) => Progress::Ready(Err(e)),
    }
}

/// Drives the statement by exactly one step and reports what came of it.
///
/// Either the step itself fails, which is an execution failure, or the
/// engine reports a signal and the attempt reports what carrying out the
/// reaction to that signal comes to on the statement as the step left it.
/// So a row that is delivered is the row that the statement then holds,
/// under the statement's column names; pending I/O is serviced once before
/// the attempt suspends; contention and interruption fail at once.
pub fn drive(stmt: &mut Statement, waker: &Waker) -> (p: Progress)
    ensures
        execution_failed(p@) || exists|signal: StepSignal|
            conforms(
                p@,
                #[trigger] reaction_of(signal),
                row_read(statement_row(*final(stmt)), statement_columns(*final(stmt))),
            ),
{
    match engine::step(stmt, waker) {
        Err(e) => Progress::Ready(Err(engine_failure(e))),
        Ok(signal) => {
            let p = carry_out(interpret(signal), stmt);
            assert(conforms(
                p@,
                reaction_of(signal),
                row_read(statement_row(*stmt), statement_columns(*stmt)),
            ));
            p
        },
    }
}

} // verus!
