//! Core logic of a comic-book-collection manager's startup and command
//! dispatch: the closed set of listable entities, the line printed for each
//! command, and the validation of the settings and secrets the process needs.
//!
//! Everything here works on plain values. Reading the process arguments, the
//! configuration file and the environment is left to the binary around this
//! library, which hands the raw values in and prints the lines handed back.

pub mod dispatch;
pub mod entity;
pub mod report;
pub mod secrets;
pub mod settings;
