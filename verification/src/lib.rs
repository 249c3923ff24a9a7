//! Evelyn: a personal assistant, project manager and calendar.
//!
//! This library is the part of the server that decides: which failure a
//! client is told and under which code, whether a session is let through,
//! which handler a request reaches, and what each operation makes of what
//! the store answered. Reading and writing (the transport, the store, the
//! encodings) is left to the program around it, which hands in plain
//! values and gets plain values back.
//!
//! Failures come in three tiers, each wrapping the one below: what the
//! store reports ([`error_messages::EvelynDatabaseError`]), what an
//! operation reports ([`error_messages::EvelynCoreError`]) and what a
//! client is told ([`error_messages::EvelynServiceError`]). Only the
//! outermost tier decides the code on the wire; the tiers below are for
//! logs.

pub mod data;
pub mod error_messages;
pub mod identifiers;
pub mod logic;
pub mod model;
pub mod processing;
pub mod server;
pub mod session;
