//! Building blocks of a small command gateway that runs the `git` executable
//! and the operating system's `open` launcher on behalf of a graphical
//! front-end.
//!
//! The library decides what to invoke (program and argument list) and turns
//! what came back from the operating system into one of two normalized result
//! shapes. Spawning the processes themselves is left to the caller.
pub mod invocation;
pub mod outcome;
