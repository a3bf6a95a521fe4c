//! A sink for command-line log records that shares the terminal between plain
//! lines and one animated progress spinner.
//!
//! The crate decides and does not draw. [`sink::CliLogger`] takes a record and
//! answers with an [`sink::Action`] for the owner of the terminal to carry
//! out; [`producer`] makes the records that begin, pause and end a progress;
//! [`laws`] states what holds of a sink over every sequence of records.

pub mod clock;
pub mod laws;
pub mod level;
pub mod producer;
pub mod record;
pub mod render;
pub mod sink;
pub mod style;
pub mod text;
