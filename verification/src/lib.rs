//! A bounded single-producer/single-consumer bridge that carries timestamped
//! note events from a latency-critical producer to a slower consumer, which
//! accumulates them into an append-only history.

pub mod event;
pub mod ring;
pub mod channel;
pub mod adapter;
pub mod history;
pub mod laws;
