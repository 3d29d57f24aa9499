//! Tracing support: the selector tally and the formatting helpers.

pub mod config;
pub mod fourbyte;
pub mod hardfork;
pub mod histogram;
pub mod outcome;
pub mod text;
pub mod utils;
