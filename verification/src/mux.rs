//! Forwarding a captured buffer to the matching local stream.
//!
//! The target's file descriptor decides where the bytes go: descriptor 1 to
//! the local standard output, descriptor 2 to the local standard error, any
//! other descriptor nowhere (silently ignored, not an error). Every write is
//! followed by a flush before the multiplexer returns, so relayed output
//! stays ordered relative to the tracer's own diagnostics. A failed write or
//! flush is fatal.

use vstd::prelude::*;
use crate::errors::TraceError;

verus! {

/// The descriptor of the target's standard output stream.
pub const STDOUT_FD: u64 = 1;

/// The descriptor of the target's standard error stream.
pub const STDERR_FD: u64 = 2;

/// The two local streams the multiplexer observes.
#[derive(Clone, Copy, PartialEq, Eq, Structural, Debug)]
pub enum Stream {
    Stdout,
    Stderr,
}

/// The local stream matching the target descriptor `fd`, if any.
pub open spec fn stream_for(fd: u64) -> Option<Stream> {
    if fd == STDOUT_FD {
        Some(Stream::Stdout)
    } else if fd == STDERR_FD {
        Some(Stream::Stderr)
    } else {
        None
    }
}

/// One stream operation the multiplexer performs.
pub enum MuxOp {
    WriteAll(Stream),
    Flush(Stream),
}

/// The stream operations the multiplexer performs for descriptor `fd`, in
/// order: one write followed by one flush on the matching stream, or none at
/// all for an unobserved descriptor.
pub open spec fn mux_ops(fd: u64) -> Seq<MuxOp> {
    match stream_for(fd) {
        Some(s) => seq![MuxOp::WriteAll(s), MuxOp::Flush(s)],
        None => Seq::empty(),
    }
}

/// The multiplexer's stream discipline: it touches no stream but the one
/// matching the two observed descriptors, and every write is immediately
/// followed by a flush of the same stream.
pub proof fn lemma_mux_discipline(fd: u64)
    ensures
        stream_for(fd) is Some <==> (fd == STDOUT_FD || fd == STDERR_FD),
        forall|i: int|
            0 <= i < mux_ops(fd).len() ==> ((#[trigger] mux_ops(fd)[i]) matches MuxOp::WriteAll(s)
                ==> stream_for(fd) == Some(s) && i + 1 < mux_ops(fd).len() && mux_ops(fd)[i + 1]
                == MuxOp::Flush(s)),
{
}

/// Relies on std::io::Stdout::write_all: writes the whole buffer to the
/// local standard output; reports whether it succeeded.
#[verifier::external_body]
fn write_stdout(bs: &Vec<u8>) -> (ok: bool) {
    std::io::Write::write_all(&mut std::io::stdout(), bs.as_slice()).is_ok()
}

/// Relies on std::io::Stdout::flush: flushes the local standard output;
/// reports whether it succeeded.
#[verifier::external_body]
fn flush_stdout() -> (ok: bool) {
    std::io::Write::flush(&mut std::io::stdout()).is_ok()
}

/// Relies on std::io::Stderr::write_all: writes the whole buffer to the
/// local standard error; reports whether it succeeded.
#[verifier::external_body]
fn write_stderr(bs: &Vec<u8>) -> (ok: bool) {
    std::io::Write::write_all(&mut std::io::stderr(), bs.as_slice()).is_ok()
}

/// Relies on std::io::Stderr::flush: flushes the local standard error;
/// reports whether it succeeded.
#[verifier::external_body]
fn flush_stderr() -> (ok: bool) {
    std::io::Write::flush(&mut std::io::stderr()).is_ok()
}

/// Forward the captured bytes to the local stream matching the target
/// descriptor `fd` and flush it, performing exactly the operations of
/// `mux_ops(fd)` in order. An unobserved descriptor is silently ignored and
/// never fails; a failed write or flush is reported as fatal, naming the
/// descriptor.
pub fn output(bs: &Vec<u8>, fd: u64) -> (r: Result<(), TraceError>)
    ensures
        stream_for(fd) is None ==> r is Ok,
        r matches Err(e) ==> e == (TraceError::OutputWriteFailed { fd }) && stream_for(
            fd,
        ) is Some,
{
    if fd == STDOUT_FD {
        if !write_stdout(bs) {
            return Err(TraceError::OutputWriteFailed { fd });
        }
        if !flush_stdout() {
            return Err(TraceError::OutputWriteFailed { fd });
        }
        Ok(())
    } else if fd == STDERR_FD {
        if !write_stderr(bs) {
            return Err(TraceError::OutputWriteFailed { fd });
        }
        if !flush_stderr() {
            return Err(TraceError::OutputWriteFailed { fd });
        }
        Ok(())
    } else {
        Ok(())
    }
}

} // verus!
