//! Trace aggregation and formatting for an EVM execution engine.
//!
//! Two parts, both independent of the engine's internals: a tally of call
//! fingerprints (function selector and calldata size) with its report, and a
//! set of pure helpers that render execution outcomes, memory and gas for the
//! parity-style and geth-style trace formats.

pub mod tracing;
