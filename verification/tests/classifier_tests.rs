use procout::classifier::ClassifierState;

#[test]
fn first_stop_is_entry() {
    let mut cls = ClassifierState::new();
    assert!(cls.observe(42));
}

#[test]
fn repeated_call_alternates_entry_exit() {
    let mut cls = ClassifierState::new();
    assert!(cls.observe(0));
    assert!(!cls.observe(0));
    assert!(cls.observe(0));
    assert!(!cls.observe(0));
}

#[test]
fn changed_call_is_a_fresh_entry() {
    let mut cls = ClassifierState::new();
    assert!(cls.observe(1));
    assert!(!cls.observe(1));
    assert!(cls.observe(3));
    assert!(!cls.observe(3));
    assert!(cls.observe(1));
    assert!(!cls.observe(1));
}

#[test]
fn well_formed_trace_yields_one_entry_then_one_exit_per_call() {
    let trace: Vec<u64> = vec![5, 5, 5, 5, 7, 7, 5, 5];
    let mut cls = ClassifierState::new();
    let verdicts: Vec<bool> = trace.iter().map(|&c| cls.observe(c)).collect();
    assert_eq!(verdicts, vec![true, false, true, false, true, false, true, false]);
}
