use procout::mux::output;

#[test]
fn hello_reaches_local_stdout() {
    let payload: Vec<u8> = b"hello\n".to_vec();
    assert!(matches!(output(&payload, 1), Ok(())));
}

#[test]
fn bytes_reach_local_stderr() {
    let payload: Vec<u8> = b"on stderr\n".to_vec();
    assert!(matches!(output(&payload, 2), Ok(())));
}

#[test]
fn unobserved_descriptors_are_silently_ignored() {
    let payload: Vec<u8> = b"never seen".to_vec();
    assert!(matches!(output(&payload, 0), Ok(())));
    assert!(matches!(output(&payload, 3), Ok(())));
    assert!(matches!(output(&payload, u64::MAX), Ok(())));
}

#[test]
fn empty_payloads_are_fine_on_both_streams() {
    let payload: Vec<u8> = Vec::new();
    assert!(matches!(output(&payload, 1), Ok(())));
    assert!(matches!(output(&payload, 2), Ok(())));
}
