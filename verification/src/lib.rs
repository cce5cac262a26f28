//! GlassMarlin launcher logic: where the bundled runtime lives, when it must be
//! (re-)extracted, how the per-installation session secret is kept, how the
//! bundled interpreter is launched and probed, and how the shell reacts to the
//! events of its lifetime.
//!
//! Everything here is pure computation over plain values; reading and writing
//! files, spawning processes, talking HTTP and driving the window are left to
//! the caller.

pub mod errors;
pub mod text;
pub mod paths;
pub mod secrets;
pub mod bundle;
pub mod runtime;
pub mod shell;
