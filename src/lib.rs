//! A bridge between a UI and a local model-serving backend: named operations are
//! resolved to commands, backend outcomes are normalized into one error shape, and
//! the progress of a model download is turned into an ordered stream of events.

pub mod adapter;
pub mod dispatch;
pub mod error;
pub mod progress;
