//! Core engine of a media-compression tool: it classifies the requested
//! output format, picks a working encoder (probing hardware paths in a fixed
//! priority order), assembles the full command line for the external
//! transcoding engine, and supervises one compression run as an explicit
//! state machine with a guarded cancellation slot.
//!
//! All process spawning and I/O stay with the caller; the library only makes
//! the decisions, so every decision is stated in a contract and verified.

pub mod args;
pub mod encoder;
pub mod format;
pub mod session;
pub mod text;
