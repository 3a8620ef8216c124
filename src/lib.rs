//! Native side of a bridge between a garbage-collected host and the ngrok
//! tunneling client: handle tables, builder configuration, result mapping and
//! the decisions behind callbacks and logging, all verified.

pub mod builders;
pub mod config;
pub mod contents;
pub mod error;
pub mod logging;
pub mod native;
pub mod outcome;
pub mod registry;
