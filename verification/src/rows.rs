//! The row stream: a shareable handle to one statement.

use vstd::prelude::*;
use std::sync::{Arc, Mutex, MutexGuard, PoisonError};
use std::task::Waker;
use turso_core::Statement;
use crate::engine;
use crate::error::Error;
use crate::step::{drive, Progress};

verus! {

/// The lock failure that stands for a poisoned guard: it carries the
/// guard's own description of the poisoning.
pub fn lock_failure<'a>(poisoned: &PoisonError<MutexGuard<'a, Statement>>) -> (failure: Error)
    ensures
        failure is MutexError,
{
    Error::MutexError(engine::poison_message(poisoned))
}

/// The results of a prepared statement, one row at a time.
///
/// A stream does not own a cursor of its own: every clone advances the
/// same statement, and whoever drives it next receives the next row.
pub struct Rows {
    inner: Arc<Mutex<Statement>>,
}

impl Rows {
    /// The guarded statement that this stream advances.
    pub closed spec fn handle(&self) -> Arc<Mutex<Statement>> {
        self.inner
    }

    /// A stream over the statement behind `inner`, which stays shared with
    /// every other holder of it.
    pub fn new(inner: &Arc<Mutex<Statement>>) -> (rows: Rows)
        ensures
            rows.handle() == *inner,
    {
        Rows { inner: engine::share(inner) }
    }

    /// Makes one attempt at fetching the next row: takes the guard, drives
    /// the statement by one step, and releases the guard before it
    /// returns, also where it reports suspension.
    ///
    /// `Ready(Ok(Some(row)))` delivers the next row, `Ready(Ok(None))` says
    /// that the statement has run to its end, and `Pending` asks the caller
    /// to try again once `waker` was woken. After the end, a further
    /// attempt steps the engine again and reports what it answers. A
    /// poisoned guard is a lock failure, now and on every later attempt.
    ///
    /// The caller must not hold the guard of this statement itself while
    /// it calls: the attempt would wait for it without end.
    pub fn next(&mut self, waker: &Waker) -> (p: Progress)
        ensures
            final(self).handle() == old(self).handle(),
            p is Ready && p->Ready_0 is Ok && p->Ready_0->Ok_0 is Some ==> {
                let row = p->Ready_0->Ok_0->Some_0@;
                row.names.len() == row.values.len()
            },
            p is Ready && p->Ready_0 is Err ==> {
                ||| p->Ready_0->Err_0 is MutexError
                ||| p->Ready_0->Err_0 is SqlExecutionFailure
                ||| p->Ready_0->Err_0 is InvalidColumnIndex
            },
    {
        drive_locked(engine::lock(&self.inner), waker)
    }
}

impl Clone for Rows {
    /// Another handle to the same statement.
    fn clone(&self) -> (rows: Self)
        ensures
            rows.handle() == self.handle(),
    {
        Rows { inner: engine::share(&self.inner) }
    }
}

/// Whether `p` reports a lock failure.
pub open spec fn lock_failed(p: crate::step::ProgressView) -> bool {
    p is Ready && p->Ready_0 is Err && p->Ready_0->Err_0 is MutexError
}

/// Whether `p` is what driving a statement by one step may report: an
/// execution failure, or what carrying out the reaction to one of the
/// engine's signals comes to on the statement as the step left it.
pub open spec fn driven(p: crate::step::ProgressView) -> bool {
    ||| crate::step::execution_failed(p)
    ||| exists|signal: crate::signal::StepSignal, stmt: Statement|
        #![trigger crate::signal::reaction_of(signal), engine::statement_row(stmt)]
        crate::step::conforms(
            p,
            crate::signal::reaction_of(signal),
            crate::step::row_read(engine::statement_row(stmt), engine::statement_columns(stmt)),
        )
}

/// Goes on from the answer to the request for the guard. A poisoned guard
/// is a lock failure, and the engine is not called. With the guard, the
/// statement behind it is driven by one step; the guard is given up before
/// the attempt reports, also where it reports suspension.
pub fn drive_locked<'a>(
    locked: Result<MutexGuard<'a, Statement>, PoisonError<MutexGuard<'a, Statement>>>,
    waker: &Waker,
) -> (p: Progress)
    ensures
        locked is Err ==> lock_failed(p@),
        locked is Ok ==> driven(p@),
{
    match locked {
        Err(poisoned) => Progress::Ready(Err(lock_failure(&poisoned))),
        Ok(mut guard) => {
            let stmt = engine::guarded(&mut guard);
            let p = drive(stmt, waker);
            proof {
                if !crate::step::execution_failed(p@) {
                    let signal = choose|signal: crate::signal::StepSignal|
                        crate::step::conforms(
                            p@,
                            #[trigger] crate::signal::reaction_of(signal),
                            crate::step::row_read(
                                engine::statement_row(*stmt),
                                engine::statement_columns(*stmt),
                            ),
                        );
                    assert(crate::step::conforms(
                        p@,
                        crate::signal::reaction_of(signal),
                        crate::step::row_read(
                            engine::statement_row(*stmt),
                            engine::statement_columns(*stmt),
                        ),
                    ));
                }
            }
            p
        },
    }
}

} // verus!
