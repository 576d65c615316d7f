//! What a run of attempts delivers, stated over the sequence of events
//! that the engine's steps bring.
//!
//! Nothing here is executable: a script stands for the engine, so that
//! what the driver does with any engine can be said and proved.

use vstd::prelude::*;
use crate::error::ErrorView;
use crate::row::RowView;
use crate::signal::{reaction_of, ReactionView, StepSignal};
use crate::step::{conforms, ProgressView};

verus! {

/// What one step of the engine brings: its signal and, with a row signal,
/// the row that the statement then holds.
pub enum Event {
    Row(RowView),
    Done,
    Io,
    Busy,
    Interrupt,
}

/// The end of one advancement: a row, none, or a failure.
pub type Delivery = Result<Option<RowView>, ErrorView>;

impl Event {
    /// The signal that the engine reports for this event.
    pub open spec fn signal(self) -> StepSignal {
        match self {
            Event::Row(_) => StepSignal::Row,
            Event::Done => StepSignal::Done,
            Event::Io => StepSignal::Io,
            Event::Busy => StepSignal::Busy,
            Event::Interrupt => StepSignal::Interrupt,
        }
    }
}

/// What a drive attempt reports when the engine's step brings `event`,
/// where servicing pending I/O does not fail.
pub open spec fn attempt(event: Event) -> ProgressView {
    match reaction_of(event.signal()) {
        ReactionView::EmitRow => ProgressView::Ready(Ok(Some(event->Row_0))),
        ReactionView::Finish => ProgressView::Ready(Ok(None)),
        ReactionView::ServiceIo => ProgressView::Pending,
        ReactionView::Fail(e) => ProgressView::Ready(Err(e)),
    }
}

/// The attempt of this module is an attempt of the driver: what it says of
/// an event is what the driver may report after the reaction to the event's
/// signal, on a statement that holds the event's row.
pub proof fn lemma_attempt_conforms(event: Event, read: Result<RowView, ErrorView>)
    requires
        event is Row ==> read == Ok::<RowView, ErrorView>(event->Row_0),
    ensures
        conforms(attempt(event), reaction_of(event.signal()), read),
{
}

/// What the attempts on `script` deliver, in order: every attempt takes
/// one event, a suspended attempt delivers nothing, and every other
/// attempt ends an advancement.
pub open spec fn delivered(script: Seq<Event>) -> Seq<Delivery>
    decreases script.len(),
{
    if script.len() == 0 {
        Seq::empty()
    } else {
        match attempt(script.first()) {
            ProgressView::Pending => delivered(script.drop_first()),
            ProgressView::Ready(d) => seq![d] + delivered(script.drop_first()),
        }
    }
}

/// The number of suspensions in the attempts on `script`.
pub open spec fn suspensions(script: Seq<Event>) -> nat
    decreases script.len(),
{
    if script.len() == 0 {
        0
    } else if attempt(script.first()) is Pending {
        1 + suspensions(script.drop_first())
    } else {
        suspensions(script.drop_first())
    }
}

/// Whether `script` is a run of a statement that yields exactly `rows`, in
/// this order, and then ends, and that may wait for I/O before any of its
/// steps.
pub open spec fn yields(script: Seq<Event>, rows: Seq<RowView>) -> bool
    decreases script.len(),
{
    if script.len() == 0 {
        false
    } else {
        match script.first() {
            Event::Io => yields(script.drop_first(), rows),
            Event::Row(row) => rows.len() > 0 && rows.first() == row && yields(
                script.drop_first(),
                rows.drop_first(),
            ),
            Event::Done => rows.len() == 0 && script.len() == 1,
            Event::Busy => false,
            Event::Interrupt => false,
        }
    }
}

/// The deliveries of a stream that hands out `rows` and then reports its
/// end.
pub open spec fn rows_then_end(rows: Seq<RowView>) -> Seq<Delivery> {
    rows.map_values(|row: RowView| Ok::<Option<RowView>, ErrorView>(Some(row))).push(Ok(None))
}

/// Rows come in the engine's order: for a statement that yields `rows` and
/// then ends, the attempts deliver exactly these rows, in this order, and
/// then the end of the stream, however often the engine waits for I/O in
/// between.
pub proof fn lemma_rows_in_engine_order(script: Seq<Event>, rows: Seq<RowView>)
    requires
        yields(script, rows),
    ensures
        delivered(script) == rows_then_end(rows),
    decreases script.len(),
{
    let rest = script.drop_first();
    match script.first() {
        Event::Io => {
            lemma_rows_in_engine_order(rest, rows);
        },
        Event::Row(row) => {
            lemma_rows_in_engine_order(rest, rows.drop_first());
            assert(seq![Ok::<Option<RowView>, ErrorView>(Some(row))] + rows_then_end(
                rows.drop_first(),
            ) =~= rows_then_end(rows));
        },
        Event::Done => {
            assert(delivered(rest) =~= Seq::<Delivery>::empty());
            assert(seq![Ok::<Option<RowView>, ErrorView>(None)] + Seq::<Delivery>::empty()
                =~= rows_then_end(rows));
        },
        Event::Busy => {},
        Event::Interrupt => {},
    }
}

/// Only pending I/O suspends: an attempt suspends exactly when the engine
/// reports pending I/O, and every attempt on a script either suspends or
/// ends an advancement.
pub proof fn lemma_suspends_on_io_only(script: Seq<Event>)
    ensures
        forall|e: Event| #[trigger] attempt(e) is Pending <==> e is Io,
        delivered(script).len() + suspensions(script) == script.len(),
    decreases script.len(),
{
    if script.len() > 0 {
        lemma_suspends_on_io_only(script.drop_first());
    }
}

} // verus!
