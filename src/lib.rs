//! Driver for the ILI9341 TFT display controller, written without I/O: every
//! operation yields the exact sequence of bus and pin operations to carry out,
//! and a [`Transaction`] decides, operation by operation, when to stop.

pub mod bus;
pub mod command;
pub mod display;
pub mod runs;
pub mod transaction;

pub use bus::{Error, Line, Op, Signal};
pub use command::Command;
pub use display::{Ili9341, Orientation, HEIGHT, WIDTH};
pub use runs::{Pixel, Span, RUN_BYTES};
pub use transaction::Transaction;
