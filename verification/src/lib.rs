//! The core of a pluggable inference backend service: one slot that holds at
//! most one model, the lifecycle that guards it, and the operations that a
//! supervising orchestrator calls to load a model, run it, and ask how it
//! stands.
//!
//! - `lifecycle`: the states of the slot and the steps between them.
//! - `slot`: the model slot and its guarded transitions.
//! - `models`: what the service asks of a model runtime; `models::demo` is a
//!   runtime that echoes, `models::llama` the layer dimensions of a
//!   transformer.
//! - `stream`: a streamed prediction with its bounded buffer.
//! - `status`: the state and the memory of the process at one moment.
//! - `backend`: the service itself, with the contract of each operation.
//! - `pb`: the messages, the operations by path, and the dispatch of calls.
//! - `error`: the kinds of failure and their status codes.
//! - `laws`: what holds across calls.

pub mod backend;
pub mod error;
pub mod laws;
pub mod lifecycle;
pub mod models;
pub mod pb;
pub mod slot;
pub mod status;
pub mod stream;
