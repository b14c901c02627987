//! An event-sourced vehicle-rental engine.
//!
//! State is never stored directly: it is derived on demand by replaying a
//! filtered subset of an append-only event log. The crate provides the event
//! model, a stream-query composer, a state hydrator, the decision processors
//! for the rental commands, an optimistic-concurrency writer over an in-memory
//! event log, and an idempotent read-model projector with a checkpointed
//! listener.

pub mod application;
pub mod decision;
pub mod domain;
pub mod laws;
pub mod listener;
pub mod query;
pub mod read_model;
pub mod state;
pub mod store;
