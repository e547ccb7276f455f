//! Typed, read-only access to the heap of a foreign managed runtime, and the
//! game snapshot and event log built on top of it.

pub mod memory;
pub mod scalar;
pub mod object;
pub mod text;
pub mod containers;
pub mod heap;
pub mod schema;
pub mod log;
pub mod snapshot;
pub mod state;
pub mod game;
pub mod session;
pub mod summary;
