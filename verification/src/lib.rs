//! Control core of a home-heating hub.
//!
//! The hub bridges a pub/sub message bus and a persistence log: inbound
//! bus messages are classified into typed actions, forwarded through a
//! bounded FIFO queue, and consumed by an executor that keeps the control
//! state, derives actuation decisions and describes the persistence and
//! actuation side effects.
//!
//! Everything here is plain computation: the transport and the database
//! live outside this crate and only exchange plain values with it.

pub mod errors;
pub mod executor;
pub mod ingest;
pub mod models;
pub mod numbers;
pub mod queue;
pub mod text;
