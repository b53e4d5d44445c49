//! A cancellable prompt-enhancement client core.
//!
//! The library classifies every outcome of one enhancement call — transport
//! failure, HTTP status, structured service error, malformed body — into a
//! single closed error taxonomy, and drives the call as a state machine whose
//! checkpoints observe an external cancellation signal.

pub mod enhancer;
pub mod footer;
pub mod json;
pub mod key_hint;
pub mod laws;
pub mod text;
