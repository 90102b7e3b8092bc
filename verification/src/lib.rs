//! Sequencing of consensus output for a validator's execution engine.
//!
//! Consensus delivers an ordered stream of opaque payloads, each tagged with
//! its position. [`handler::ConsensusHandler`] makes sure that every position
//! is processed at most once, keeps a running digest of the delivered history,
//! and leads each accepted payload through decoding, validation, execution and
//! notification, strictly one after another. The handler performs none of
//! these itself: it is a state machine that is told what happened and answers
//! with what is to be done next, so that all of its decisions are verified.
//!
//! - [`indices`]: positions in the stream and their order.
//! - [`digest`]: the rolling digest.
//! - [`sequenced`]: transactions before and after validation.
//! - [`machine`]: the handler as a transition function over mathematical
//!   values.
//! - [`handler`]: the executable handler, proved to compute that function.
//! - [`laws`]: what holds of every run: positions only move forward, replays
//!   change nothing, the digest depends on the delivered history alone,
//!   executions never overlap and follow the order of delivery, and a bad
//!   payload does not hold up the next one.

pub mod digest;
pub mod handler;
pub mod indices;
pub mod laws;
pub mod machine;
pub mod sequenced;
