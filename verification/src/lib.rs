//! Start-up sequencing for a desktop application shell.
//!
//! The library decides, step by step, what the shell has to ask of the
//! window framework while it starts: which plugin to attach, which window to
//! look up, whether to reveal it, and when a failure is fatal. The shell
//! performs each request and reports back what happened; the library never
//! touches the framework itself.

pub mod protocol;
pub mod sequencer;
pub mod trace;
pub mod laws;
