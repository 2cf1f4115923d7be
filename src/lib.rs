//! Core of a tool-invocation server: a registry of schema-described tools,
//! argument validation, a dispatcher, the per-connection session lifecycle
//! and the shared counter that the stateful tools act on.

pub mod counter;
pub mod dispatch;
pub mod error;
pub mod registry;
pub mod schema;
pub mod session;
pub mod text;
pub mod tools;
