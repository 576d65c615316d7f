//! What the engine reports after one step, and what the driver owes in
//! return.

use vstd::prelude::*;
use crate::error::{Error, ErrorView, locked_message, interrupted_message};

verus! {

/// The engine's report after one stepping call.
#[derive(Clone, Copy, Debug, PartialEq, Eq, Structural)]
pub enum StepSignal {
    /// A row is ready to be read.
    Row,
    /// The statement has run to its end.
    Done,
    /// The engine cannot go on before pending I/O has been serviced.
    Io,
    /// The resource is contended.
    Busy,
    /// Execution was interrupted.
    Interrupt,
}

/// What one drive attempt does after the engine has reported a signal.
#[derive(Debug, PartialEq, Eq)]
pub enum Reaction {
    /// Read the engine's current row and complete with it.
    EmitRow,
    /// Complete with no row: the stream is exhausted.
    Finish,
    /// Service one unit of pending I/O, then suspend until woken.
    ServiceIo,
    /// Complete with this failure. The engine is not called again.
    Fail(Error),
}

/// The mathematical content of a [`Reaction`].
pub enum ReactionView {
    EmitRow,
    Finish,
    ServiceIo,
    Fail(ErrorView),
}

impl View for Reaction {
    type V = ReactionView;

    open spec fn view(&self) -> ReactionView {
        match self {
            Reaction::EmitRow => ReactionView::EmitRow,
            Reaction::Finish => ReactionView::Finish,
            Reaction::ServiceIo => ReactionView::ServiceIo,
            Reaction::Fail(e) => ReactionView::Fail(e@),
        }
    }
}

/// The reaction that each signal calls for.
pub open spec fn reaction_of(signal: StepSignal) -> ReactionView {
    match signal {
        StepSignal::Row => ReactionView::EmitRow,
        StepSignal::Done => ReactionView::Finish,
        StepSignal::Io => ReactionView::ServiceIo,
        StepSignal::Busy => ReactionView::Fail(ErrorView::SqlExecutionFailure(locked_message())),
        StepSignal::Interrupt => ReactionView::Fail(
            ErrorView::SqlExecutionFailure(interrupted_message()),
        ),
    }
}

/// Decides what a drive attempt does after the engine reported `signal`.
pub fn interpret(signal: StepSignal) -> (reaction: Reaction)
    ensures
        reaction@ == reaction_of(signal),
{
    match signal {
        StepSignal::Row => Reaction::EmitRow,
        StepSignal::Done => Reaction::Finish,
        StepSignal::Io => Reaction::ServiceIo,
        StepSignal::Busy => Reaction::Fail(Error::locked()),
        StepSignal::Interrupt => Reaction::Fail(Error::interrupted()),
    }
}

} // verus!
