//! Supervision of a single long-running server process.
//!
//! The crate models the lifecycle of one child process (start, stop,
//! restart, path change) together with the command router that serializes
//! operator intents against it.  The operating-system side of spawning and
//! killing processes is represented by an explicit process table
//! ([`world::World`]), so every lifecycle transition is a verified function
//! from the old table to the new one.

pub mod laws;
pub mod manager;
pub mod message;
pub mod piper;
pub mod router;
pub mod style;
pub mod textops;
pub mod world;

pub use style::Color;
pub use style::LogTag;
