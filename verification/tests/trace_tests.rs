use procout::classifier::ClassifierState;
use procout::errors::TraceError;
use procout::memory::assemble_bytes;
use procout::mux::output;
use procout::trace::{stop_directive, StopDirective, TraceSession, WaitOutcome, WRITE_CALL};

#[test]
fn attaching_to_a_missing_target_fails() {
    // No process can have this id (Linux pid_max is far smaller).
    let missing: i32 = i32::MAX;
    match TraceSession::start(missing) {
        Err(TraceError::AttachFailed { pid, .. }) => assert_eq!(pid, missing),
        other => panic!("expected AttachFailed, got {:?}", other.is_ok()),
    }
}

#[test]
fn target_exit_ends_the_session_successfully() {
    assert_eq!(stop_directive(&WaitOutcome::Exited), StopDirective::Finish);
    assert_eq!(stop_directive(&WaitOutcome::WaitFailed), StopDirective::Finish);
}

#[test]
fn only_syscall_stops_are_inspected() {
    assert_eq!(stop_directive(&WaitOutcome::SyscallStop), StopDirective::Inspect);
    assert_eq!(stop_directive(&WaitOutcome::OtherStop), StopDirective::Skip);
}

#[test]
fn one_hello_write_is_relayed_byte_for_byte() {
    // The target stops entering `write(1, "hello\n", 6)`: the stop is
    // classified as an entry, the six bytes span one memory word, and they
    // are forwarded to the local standard output unchanged.
    let mut cls = ClassifierState::new();
    let entry = cls.observe(WRITE_CALL);
    assert!(entry);

    let payload = b"hello\n";
    let mut word: u64 = 0;
    for j in 0..6 {
        word |= (payload[j] as u64) << (8 * j);
    }
    let captured = assemble_bytes(&vec![word], 6);
    assert_eq!(captured.as_slice(), payload);
    assert!(matches!(output(&captured, 1), Ok(())));

    // The matching exit stop of the same call forwards nothing.
    assert!(!cls.observe(WRITE_CALL));
}

#[test]
fn tracing_the_same_target_twice_captures_identical_bytes() {
    // The same deterministic target: the same stop trace and the same memory
    // words both times. Run the capture pipeline twice and compare.
    let stops: Vec<(u64, u64)> = vec![(WRITE_CALL, 6), (WRITE_CALL, 6), (0, 4), (0, 4)];
    let word: u64 = 0x0a6f6c6c6568; // "hello\n", least-significant byte first

    let mut runs: Vec<Vec<Vec<u8>>> = Vec::new();
    for _ in 0..2 {
        let mut cls = ClassifierState::new();
        let mut captured: Vec<Vec<u8>> = Vec::new();
        for &(call, len) in &stops {
            let entry = cls.observe(call);
            if entry && call == WRITE_CALL {
                captured.push(assemble_bytes(&vec![word], len as usize));
            }
        }
        runs.push(captured);
    }
    assert_eq!(runs[0], runs[1]);
    assert_eq!(runs[0], vec![b"hello\n".to_vec()]);
}
