//! Logging setup for a network node: verbosity is resolved into filter
//! directives, compiled once per sink, and the terminal sink is bridged to a
//! display through a bounded channel that never blocks the emitting thread.

pub mod banner;
pub mod channel;
pub mod directive;
pub mod filter;
pub mod level;
pub mod pipeline;
pub mod resolver;
pub mod scope;
pub mod sink;
pub mod startup;
pub mod writer;
