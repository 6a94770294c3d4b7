//! The fatal errors a tracing run can end with.
//!
//! Every tracing directive that fails aborts the whole run; each variant
//! names the directive that failed. Variants about the traced process carry
//! its process id and the operating-system error number the directive failed
//! with, as plain integers.

use vstd::prelude::*;

verus! {

/// Why a tracing run aborted. Target process exit is not an error and has no
/// variant here.
#[derive(Debug)]
pub enum TraceError {
    /// No target was named: the pid argument is missing or not a decimal
    /// number.
    InvalidArgument,
    /// Attaching to the target failed: it is missing, inaccessible, or
    /// already traced.
    AttachFailed { pid: i32, errno: i32 },
    /// Enabling the option that tags system-call stops failed.
    OptionConfigFailed { pid: i32, errno: i32 },
    /// Reading the stopped target's registers failed.
    RegisterReadFailed { pid: i32, errno: i32 },
    /// Resuming the target up to its next system-call stop failed.
    ResumeFailed { pid: i32, errno: i32 },
    /// Writing the captured bytes to the local stream for descriptor `fd`
    /// failed, or flushing that stream did.
    OutputWriteFailed { fd: u64 },
}

/// Whether `e` is consistent with a run tracing process `pid`: every variant
/// that names a process names that one.
pub open spec fn error_for_pid(e: TraceError, pid: i32) -> bool {
    match e {
        TraceError::InvalidArgument => true,
        TraceError::AttachFailed { pid: p, .. } => p == pid,
        TraceError::OptionConfigFailed { pid: p, .. } => p == pid,
        TraceError::RegisterReadFailed { pid: p, .. } => p == pid,
        TraceError::ResumeFailed { pid: p, .. } => p == pid,
        TraceError::OutputWriteFailed { .. } => true,
    }
}

} // verus!
