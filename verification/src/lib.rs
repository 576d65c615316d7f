//! Row-at-a-time results of a prepared statement: a single-step driver over
//! the stepping engine, the rows it delivers, and typed access to their
//! columns by position or by name.

pub mod decode;
pub mod engine;
pub mod error;
pub mod row;
pub mod rows;
pub mod script;
pub mod signal;
pub mod step;
pub mod value;

pub use decode::FromValue;
pub use error::Error;
pub use row::{Row, RowIndex};
pub use rows::{drive_locked, lock_failure, Rows};
pub use signal::{interpret, Reaction, StepSignal};
pub use step::{after_io, carry_out, column_names, drive, engine_failure, read_row, Progress};
pub use value::Value;
