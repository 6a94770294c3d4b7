//! A library for relaying a traced process's standard-output and
//! standard-error writes onto the observer's own streams.
//!
//! The pieces, leaves first: `classifier` tells system-call entry stops from
//! exit stops; `memory` reconstructs exact byte ranges of the target's address
//! space out of word-sized reads; `mux` forwards a captured buffer to the
//! local stream matching the target's file descriptor; `trace` attaches to the
//! target and drives one tracing step at a time. The caller supplies the
//! unbounded wait loop around [`trace::TraceSession::step`], since the target
//! may run forever.

pub mod classifier;
pub mod errors;
pub mod memory;
pub mod mux;
pub mod trace;
