//! Bridges one TCP connection to the standard streams of a freshly spawned
//! program. The library holds the decisions; the caller performs the I/O.
//!
//! - `locate`: picks the one runnable artifact out of a directory listing.
//! - `session`: the per-connection state machine (starting, running, closed).
//! - `trace`: whole runs of a session and the guarantees proved of them.
//! - `listener`: the accept loop's state machine, the one-shot stop latch, and
//!   the proof that stopping the loop spares the sessions it started.
//! - `control`: answers to the host's lifecycle requests and the status reported back.

pub mod locate;
pub mod session;
pub mod trace;
pub mod listener;
pub mod control;
