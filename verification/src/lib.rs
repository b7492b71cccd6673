//! A cancellable log-tail trigger engine.
//!
//! The crate follows a growing text log, finds the lines that hold a trigger
//! text among the newly appended ones, and decides for a watching session what
//! to do on each change notification and on each stop request. Reading files,
//! waiting for notifications and the triggered side effect belong to the
//! caller: the engine is handed plain values and answers with plain values.

pub mod bridge;
pub mod cancel;
pub mod event;
pub mod laws;
pub mod lines;
pub mod manager;
pub mod picture;
pub mod session;
pub mod settings;
pub mod tail;
pub mod text;
pub mod trigger;
