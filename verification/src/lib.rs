//! Safe client layer for a read-only, compact key-value dictionary engine.
//!
//! The engine itself (an approximate-matching key-value store reached through
//! a C-style entry-point table) is an external collaborator: this crate owns
//! the boundary around it.  It decides how queries are framed, how the
//! engine's single-pass cursor protocol is driven, how native buffers are
//! turned into owned values, and how the engine's option codes are validated,
//! and it proves those decisions correct.  An unverified shim performs the
//! raw entry-point calls and feeds their replies back into this layer as
//! plain values.

pub mod config;
pub mod dictionary;
pub mod error;
pub mod handle;
pub mod keyvi_match;
pub mod keyvi_match_iterator;
pub mod keyvi_string;

pub use config::Compression;
pub use config::LoadingStrategy;
