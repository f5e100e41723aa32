//! Planning of a remux run: the run configuration, the argument lists of the
//! transcoder and multiplexer invocations, the order of the run's steps, and
//! the report of the configuration.

pub mod arguments;
pub mod commands;
pub mod report;
pub mod run;
pub mod streams;
pub mod text;
