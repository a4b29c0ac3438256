//! Incremental technical-analysis indicators over a stream of market
//! observations, with exact fixed-point arithmetic.
//!
//! Every scalar is a [`fixed::Fixed`]: an integer count of millionths of a
//! unit. Each indicator consumes one observation per `next` call, updates a
//! bounded amount of state, and returns its current value; `reset` restores
//! the freshly-constructed state exactly, so replaying a sequence after a
//! reset reproduces identical outputs.

pub mod arith;
pub mod data_item;
pub mod errors;
pub mod fixed;
pub mod indicators;
pub mod window;

pub use data_item::{DataItem, DataItemBuilder};
pub use errors::TaError;
pub use fixed::Fixed;
