use turso_rows::{interpret, Error, Reaction, StepSignal};

#[test]
fn each_signal_has_its_reaction() {
    assert_eq!(interpret(StepSignal::Row), Reaction::EmitRow);
    assert_eq!(interpret(StepSignal::Done), Reaction::Finish);
    assert_eq!(interpret(StepSignal::Io), Reaction::ServiceIo);
    assert_eq!(
        interpret(StepSignal::Busy),
        Reaction::Fail(Error::SqlExecutionFailure("database is locked".to_string()))
    );
    assert_eq!(
        interpret(StepSignal::Interrupt),
        Reaction::Fail(Error::SqlExecutionFailure("interrupted".to_string()))
    );
}

/// A scripted engine: it reports the signals of a list, one for each step,
/// and counts the calls that reach it.
struct Scripted {
    script: Vec<StepSignal>,
    steps: usize,
    io_runs: usize,
    rows_read: usize,
}

/// What one attempt on the scripted engine ends in.
#[derive(Debug, PartialEq)]
enum Attempt {
    Row,
    End,
    Suspended,
    Failed(Error),
}

fn attempt(engine: &mut Scripted) -> Attempt {
    let signal = engine.script[engine.steps];
    engine.steps += 1;
    match interpret(signal) {
        Reaction::EmitRow => {
            engine.rows_read += 1;
            Attempt::Row
        }
        Reaction::Finish => Attempt::End,
        Reaction::ServiceIo => {
            engine.io_runs += 1;
            Attempt::Suspended
        }
        Reaction::Fail(e) => Attempt::Failed(e),
    }
}

fn scripted(script: Vec<StepSignal>) -> Scripted {
    Scripted { script, steps: 0, io_runs: 0, rows_read: 0 }
}

#[test]
fn suspend_once_then_row() {
    let mut engine = scripted(vec![StepSignal::Io, StepSignal::Row]);
    assert_eq!(attempt(&mut engine), Attempt::Suspended);
    assert_eq!((engine.steps, engine.io_runs, engine.rows_read), (1, 1, 0));
    assert_eq!(attempt(&mut engine), Attempt::Row);
    assert_eq!((engine.steps, engine.io_runs, engine.rows_read), (2, 1, 1));
}

#[test]
fn busy_is_terminal() {
    let mut engine = scripted(vec![StepSignal::Busy, StepSignal::Row]);
    assert_eq!(
        attempt(&mut engine),
        Attempt::Failed(Error::SqlExecutionFailure("database is locked".to_string()))
    );
    assert_eq!((engine.steps, engine.io_runs, engine.rows_read), (1, 0, 0));
}

#[test]
fn interrupt_is_terminal() {
    let mut engine = scripted(vec![StepSignal::Interrupt, StepSignal::Row]);
    assert_eq!(
        attempt(&mut engine),
        Attempt::Failed(Error::SqlExecutionFailure("interrupted".to_string()))
    );
    assert_eq!((engine.steps, engine.io_runs, engine.rows_read), (1, 0, 0));
}

#[test]
fn done_makes_no_further_engine_call() {
    let mut engine = scripted(vec![StepSignal::Done]);
    assert_eq!(attempt(&mut engine), Attempt::End);
    assert_eq!((engine.steps, engine.io_runs, engine.rows_read), (1, 0, 0));
}
