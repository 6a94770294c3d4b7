//! Driving a tracing session over a running target process.
//!
//! A session attaches to the target and enables the option that tags
//! system-call stops distinguishably from other stop causes. One step then
//! waits for the next stop: on target exit (or a failed wait) the session is
//! over and the run succeeded; on a system-call stop the registers are read,
//! the classifier says whether the stop is a call-entry, and a qualifying
//! entry to the output call has its argument bytes read out of the target and
//! forwarded; finally the target is resumed up to its next system-call
//! boundary. The target may run forever, so the caller loops over
//! [`TraceSession::step`] until it reports the session over; every failing
//! tracing directive is fatal and named by the error.

use vstd::prelude::*;
use crate::classifier::{
    ClassifierState,
    init_state,
    lemma_state_after_push,
    observe_spec,
    state_after,
    stop_is_entry,
};
use crate::errors::{TraceError, error_for_pid};
use crate::memory::{peek_bytes, words_to_bytes};
use crate::mux::{output, stream_for};

verus! {

/// The number of the system call being intercepted: write on x86_64 Linux,
/// the platform whose register layout the register snapshot is read from.
pub const WRITE_CALL: u64 = 1;

/// The register values of the stopped target that the tracer acts on: the
/// system-call number and the output call's three arguments (descriptor,
/// buffer address, byte length).
#[derive(Clone, Copy, PartialEq, Eq, Structural, Debug)]
pub struct RegisterSnapshot {
    pub call: u64,
    pub fd: u64,
    pub addr: u64,
    pub len: u64,
}

/// What the wait for the target's next stop reported.
#[derive(Clone, Copy, PartialEq, Eq, Structural, Debug)]
pub enum WaitOutcome {
    /// The target exited: the normal end of a session.
    Exited,
    /// The wait itself failed; the session ends as on exit.
    WaitFailed,
    /// The target stopped at a system-call boundary.
    SyscallStop,
    /// The target stopped for some other cause.
    OtherStop,
}

/// What one wait outcome asks the session to do next.
#[derive(Clone, Copy, PartialEq, Eq, Structural, Debug)]
pub enum StopDirective {
    /// The session is over; the run ends successfully.
    Finish,
    /// Inspect the stop: read registers, classify, forward if qualifying.
    Inspect,
    /// Not a system-call stop: just resume the target.
    Skip,
}

/// The directive each wait outcome maps to.
pub open spec fn directive_spec(w: WaitOutcome) -> StopDirective {
    match w {
        WaitOutcome::Exited => StopDirective::Finish,
        WaitOutcome::WaitFailed => StopDirective::Finish,
        WaitOutcome::SyscallStop => StopDirective::Inspect,
        WaitOutcome::OtherStop => StopDirective::Skip,
    }
}

/// Decide what to do with one wait outcome: target exit and a failed wait
/// both end the session successfully, a system-call stop is inspected, any
/// other stop is skipped.
pub fn stop_directive(w: &WaitOutcome) -> (r: StopDirective)
    ensures
        r == directive_spec(*w),
{
    match w {
        WaitOutcome::Exited => StopDirective::Finish,
        WaitOutcome::WaitFailed => StopDirective::Finish,
        WaitOutcome::SyscallStop => StopDirective::Inspect,
        WaitOutcome::OtherStop => StopDirective::Skip,
    }
}

/// Relies on nix::sys::ptrace::attach (PTRACE_ATTACH): makes the process a
/// tracee of this one, or reports the OS error number when it is missing,
/// inaccessible or already traced.
#[verifier::external_body]
fn attach_to(pid: i32) -> (r: Result<(), i32>) {
    nix::sys::ptrace::attach(nix::unistd::Pid::from_raw(pid)).map_err(|e| e as i32)
}

/// Relies on nix::sys::ptrace::setoptions with PTRACE_O_TRACESYSGOOD: makes
/// the target's system-call stops distinguishable from other stops, so the
/// wait can report them as such.
#[verifier::external_body]
fn set_syscall_tagging(pid: i32) -> (r: Result<(), i32>) {
    nix::sys::ptrace::setoptions(
        nix::unistd::Pid::from_raw(pid),
        nix::sys::ptrace::Options::PTRACE_O_TRACESYSGOOD,
    ).map_err(|e| e as i32)
}

/// Relies on nix::sys::wait::waitpid: blocks until the target's next stop or
/// exit. Which outcome comes back depends on the target, so nothing is
/// promised of it.
#[verifier::external_body]
fn wait_next(pid: i32) -> (r: WaitOutcome) {
    match nix::sys::wait::waitpid(nix::unistd::Pid::from_raw(pid), None) {
        Err(_) => WaitOutcome::WaitFailed,
        Ok(nix::sys::wait::WaitStatus::Exited(_, _)) => WaitOutcome::Exited,
        Ok(nix::sys::wait::WaitStatus::PtraceSyscall(_)) => WaitOutcome::SyscallStop,
        Ok(_) => WaitOutcome::OtherStop,
    }
}

/// Relies on nix::sys::ptrace::getregs (PTRACE_GETREGS): reads the stopped
/// target's registers; on x86_64 the call number is in orig_rax and the
/// call's first three arguments in rdi, rsi, rdx. The values depend on the
/// target, so nothing is promised of them.
#[verifier::external_body]
fn read_registers(pid: i32) -> (r: Result<RegisterSnapshot, i32>) {
    match nix::sys::ptrace::getregs(nix::unistd::Pid::from_raw(pid)) {
        Ok(regs) => Ok(
            RegisterSnapshot { call: regs.orig_rax, fd: regs.rdi, addr: regs.rsi, len: regs.rdx },
        ),
        Err(e) => Err(e as i32),
    }
}

/// Relies on nix::sys::ptrace::syscall (PTRACE_SYSCALL): resumes the target,
/// arranging for it to stop again at the next system-call boundary, without
/// delivering a signal.
#[verifier::external_body]
fn resume_to_next_syscall(pid: i32) -> (r: Result<(), i32>) {
    nix::sys::ptrace::syscall(nix::unistd::Pid::from_raw(pid), None::<nix::sys::signal::Signal>)
        .map_err(|e| e as i32)
}

/// One tracing session: the target's process id and the classifier state,
/// owned by the session from attach until target exit, together with the
/// (ghost) history of the stop snapshots inspected so far.
pub struct TraceSession {
    pub pid: i32,
    pub cls: ClassifierState,
    pub history: Ghost<Seq<RegisterSnapshot>>,
}

/// Whether a stop with snapshot `s`, arriving with the classifier in state
/// `st`, has its bytes forwarded: it must be a call-entry of the output call
/// on one of the two observed descriptors.
pub open spec fn forwards(st: ClassifierState, s: RegisterSnapshot) -> bool {
    stop_is_entry(st, s.call) && s.call == WRITE_CALL && stream_for(s.fd) is Some
}

impl TraceSession {
    /// The session invariant: the classifier state is exactly what absorbing
    /// the whole observed stop history produces — never stale, never ahead
    /// of the latest stop event.
    pub open spec fn wf(self) -> bool {
        self.cls == state_after(calls_of(self.history@))
    }

    /// Attach to the target and enable system-call stop tagging; the session
    /// starts with a fresh classifier. Both setup directives are fatal on
    /// failure and name the target and the OS error number.
    pub fn start(pid: i32) -> (r: Result<TraceSession, TraceError>)
        ensures
            r matches Ok(s) ==> s.pid == pid && s.cls == init_state() && s.history@
                == Seq::<RegisterSnapshot>::empty() && s.wf(),
            r matches Err(e) ==> error_for_pid(e, pid) && (e matches TraceError::AttachFailed {
                ..
            } || e matches TraceError::OptionConfigFailed { .. }),
    {
        match attach_to(pid) {
            Ok(()) => {},
            Err(en) => {
                return Err(TraceError::AttachFailed { pid, errno: en });
            },
        }
        match set_syscall_tagging(pid) {
            Ok(()) => {},
            Err(en) => {
                return Err(TraceError::OptionConfigFailed { pid, errno: en });
            },
        }
        let session = TraceSession {
            pid,
            cls: ClassifierState::new(),
            history: Ghost(Seq::empty()),
        };
        proof {
            assert(calls_of(session.history@) =~= Seq::<u64>::empty());
        }
        Ok(session)
    }

    /// Act on one system-call stop whose registers read `snap`: the
    /// classifier absorbs the call number, and exactly a qualifying
    /// call-entry of the output call has its `len` argument bytes read at
    /// its buffer address and forwarded to the stream matching its
    /// descriptor. Only that forwarding can fail; a stop that forwards
    /// nothing never does.
    pub fn handle_stop(&mut self, snap: RegisterSnapshot) -> (r: Result<(), TraceError>)
        ensures
            final(self).pid == old(self).pid,
            final(self).cls == observe_spec(old(self).cls, snap.call),
            final(self).history@ == old(self).history@.push(snap),
            old(self).wf() ==> final(self).wf(),
            !forwards(old(self).cls, snap) ==> r is Ok,
            r matches Err(e) ==> e == (TraceError::OutputWriteFailed { fd: snap.fd }) && forwards(
                old(self).cls,
                snap,
            ),
    {
        self.history = Ghost(self.history@.push(snap));
        proof {
            lemma_calls_of_push(old(self).history@, snap);
            lemma_state_after_push(calls_of(old(self).history@), snap.call);
        }
        let entry = self.cls.observe(snap.call);
        if entry && snap.call == WRITE_CALL {
            let bs = peek_bytes(self.pid, snap.addr, snap.len);
            output(&bs, snap.fd)
        } else {
            Ok(())
        }
    }

    /// One iteration of the trace loop: wait for the next stop; on target
    /// exit or a failed wait report the session over; on a system-call stop
    /// read the registers and act on the stop; then resume the target to its
    /// next system-call boundary. The result says whether the session goes
    /// on, and any fatal error names this session's target.
    pub fn step(&mut self) -> (r: Result<bool, TraceError>)
        ensures
            final(self).pid == old(self).pid,
            old(self).wf() ==> final(self).wf(),
            r matches Err(e) ==> error_for_pid(e, old(self).pid) && (e matches
            TraceError::RegisterReadFailed { .. } || e matches TraceError::OutputWriteFailed {
                ..
            } || e matches TraceError::ResumeFailed { .. }),
    {
        let outcome = wait_next(self.pid);
        match stop_directive(&outcome) {
            StopDirective::Finish => {
                return Ok(false);
            },
            StopDirective::Inspect => {
                let snap = match read_registers(self.pid) {
                    Ok(s) => s,
                    Err(en) => {
                        return Err(TraceError::RegisterReadFailed { pid: self.pid, errno: en });
                    },
                };
                match self.handle_stop(snap) {
                    Ok(()) => {},
                    Err(e) => {
                        return Err(e);
                    },
                }
            },
            StopDirective::Skip => {},
        }
        match resume_to_next_syscall(self.pid) {
            Ok(()) => Ok(true),
            Err(en) => Err(TraceError::ResumeFailed { pid: self.pid, errno: en }),
        }
    }
}

/// The call numbers of a sequence of stop snapshots.
pub open spec fn calls_of(stops: Seq<RegisterSnapshot>) -> Seq<u64> {
    stops.map_values(|s: RegisterSnapshot| s.call)
}

/// One more snapshot contributes exactly its call number.
pub proof fn lemma_calls_of_push(stops: Seq<RegisterSnapshot>, s: RegisterSnapshot)
    ensures
        calls_of(stops.push(s)) == calls_of(stops).push(s.call),
{
    assert(calls_of(stops.push(s)) =~= calls_of(stops).push(s.call));
}

/// The bytes forwarded for one qualifying stop, out of the words `words`
/// that its covering memory read returned: their concatenation truncated to
/// the call's byte length.
pub open spec fn payload_of(s: RegisterSnapshot, words: Seq<u64>) -> Seq<u8> {
    words_to_bytes(words).take(
        if s.len as int <= 8 * words.len() as int {
            s.len as int
        } else {
            8 * words.len() as int
        },
    )
}

/// Everything a whole session relays, as (descriptor, bytes) pairs in order,
/// as a function of the observed stop snapshots and of the memory words each
/// stop's covering read returned (`mem[j]` for stop `j`).
pub open spec fn capture_of(stops: Seq<RegisterSnapshot>, mem: Seq<Seq<u64>>) -> Seq<(u64, Seq<u8>)>
    decreases stops.len(),
{
    if stops.len() == 0 {
        Seq::empty()
    } else {
        let pre = capture_of(stops.drop_last(), mem.drop_last());
        let s = stops.last();
        if forwards(state_after(calls_of(stops.drop_last())), s) {
            pre.push((s.fd, payload_of(s, mem.last())))
        } else {
            pre
        }
    }
}

/// Tracing the same deterministic target twice observes the same stop
/// snapshots and the same memory words both times; the relayed output is a
/// function of those alone, so the two runs capture byte-identical output.
pub proof fn lemma_capture_deterministic(
    stops1: Seq<RegisterSnapshot>,
    mem1: Seq<Seq<u64>>,
    stops2: Seq<RegisterSnapshot>,
    mem2: Seq<Seq<u64>>,
)
    requires
        stops1.len() == stops2.len(),
        forall|j: int| 0 <= j < stops1.len() ==> stops1[j] == stops2[j],
        mem1.len() == mem2.len(),
        forall|j: int| 0 <= j < mem1.len() ==> mem1[j] == mem2[j],
    ensures
        capture_of(stops1, mem1) == capture_of(stops2, mem2),
{
    assert(stops1 =~= stops2);
    assert(mem1 =~= mem2);
}

} // verus!
