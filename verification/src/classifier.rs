//! Telling system-call entry stops from exit stops.
//!
//! The tracing protocol reports both stops of a system call — the one just
//! before it runs and the one just after it returns — with the same
//! notification kind. The classifier keeps the call number seen at the
//! previous stop and a flag saying whether a call is currently in its entry
//! phase. A changed call number can only mean a fresh call has begun, so it is
//! always an entry; a repeated call number alternates between the call's own
//! entry and exit.

use vstd::prelude::*;

verus! {

/// The classifier's whole state: the call number observed at the previous
/// stop, if any, and whether the call in progress is in its entry phase.
pub struct ClassifierState {
    pub prev_call: Option<u64>,
    pub in_entry: bool,
}

/// The state a fresh classifier starts in: no stop seen yet.
pub open spec fn init_state() -> ClassifierState {
    ClassifierState { prev_call: None, in_entry: false }
}

/// Whether a stop with call number `call`, arriving in state `st`, is a
/// call-entry stop. A changed (or first) call number is unconditionally an
/// entry; a repeated one toggles the entry-phase flag.
pub open spec fn stop_is_entry(st: ClassifierState, call: u64) -> bool {
    if st.prev_call == Some(call) {
        !st.in_entry
    } else {
        true
    }
}

/// The state after absorbing a stop with call number `call`.
pub open spec fn observe_spec(st: ClassifierState, call: u64) -> ClassifierState {
    ClassifierState { prev_call: Some(call), in_entry: stop_is_entry(st, call) }
}

impl ClassifierState {
    /// A classifier for a fresh tracing session.
    pub fn new() -> (r: ClassifierState)
        ensures
            r == init_state(),
    {
        ClassifierState { prev_call: None, in_entry: false }
    }

    /// Absorb one stop notification; the result says whether it was a
    /// call-entry stop.
    pub fn observe(&mut self, call: u64) -> (entry: bool)
        ensures
            *final(self) == observe_spec(*old(self), call),
            entry == stop_is_entry(*old(self), call),
    {
        let same = match self.prev_call {
            Some(c) => c == call,
            None => false,
        };
        let entry = if same {
            !self.in_entry
        } else {
            true
        };
        self.in_entry = entry;
        self.prev_call = Some(call);
        entry
    }
}

/// The classifier state after absorbing the whole stop trace `calls`,
/// starting from a fresh classifier.
pub open spec fn state_after(calls: Seq<u64>) -> ClassifierState
    decreases calls.len(),
{
    if calls.len() == 0 {
        init_state()
    } else {
        observe_spec(state_after(calls.drop_last()), calls.last())
    }
}

/// The verdicts a fresh classifier hands out along the stop trace `calls`:
/// element `j` is true when stop `j` is classified as a call-entry.
pub open spec fn classify_trace(calls: Seq<u64>) -> Seq<bool>
    decreases calls.len(),
{
    if calls.len() == 0 {
        Seq::empty()
    } else {
        classify_trace(calls.drop_last()).push(
            stop_is_entry(state_after(calls.drop_last()), calls.last()),
        )
    }
}

/// A well-formed stop trace: each call's entry stop is immediately followed
/// by that call's own exit stop, so the trace is a sequence of equal pairs.
pub open spec fn well_formed_trace(calls: Seq<u64>) -> bool {
    &&& calls.len() % 2 == 0
    &&& forall|j: int| 0 <= j < calls.len() && j % 2 == 0 ==> #[trigger] calls[j] == calls[j + 1]
}

/// On a well-formed trace the classifier is exact: every call instance gets
/// exactly one "entry" verdict followed by exactly one "exit" verdict, i.e.
/// the verdicts alternate starting with an entry; and after each completed
/// pair the classifier is out of the entry phase again.
pub proof fn lemma_well_formed_trace_alternates(calls: Seq<u64>)
    requires
        well_formed_trace(calls),
    ensures
        classify_trace(calls).len() == calls.len(),
        forall|j: int| 0 <= j < calls.len() ==> classify_trace(calls)[j] == (j % 2 == 0),
        !state_after(calls).in_entry,
    decreases calls.len(),
{
    lemma_classify_trace_len(calls);
    if calls.len() == 0 {
    } else {
        let n = calls.len() as int;
        let p = calls.take(n - 2);
        let q = calls.take(n - 1);
        assert(calls[n - 2] == calls[n - 1]);
        assert(well_formed_trace(p));
        lemma_well_formed_trace_alternates(p);
        assert(calls.drop_last() =~= q);
        assert(q.drop_last() =~= p);
        let c = calls[n - 2];
        assert(stop_is_entry(state_after(p), c));
        assert(state_after(q) == observe_spec(state_after(p), c));
        assert(state_after(q).in_entry);
        assert(!stop_is_entry(state_after(q), c));
        lemma_classify_trace_len(p);
        lemma_classify_trace_len(q);
        assert forall|j: int| 0 <= j < n implies classify_trace(calls)[j] == (j % 2 == 0) by {
            if j < n - 2 {
                assert(classify_trace(calls)[j] == classify_trace(p)[j]);
            } else if j == n - 2 {
                assert(classify_trace(calls)[j] == stop_is_entry(state_after(p), c));
            } else {
                assert(classify_trace(calls)[j] == stop_is_entry(state_after(q), calls.last()));
            }
        }
    }
}

/// Absorbing one more stop takes the state one observation further.
pub proof fn lemma_state_after_push(calls: Seq<u64>, call: u64)
    ensures
        state_after(calls.push(call)) == observe_spec(state_after(calls), call),
{
    assert(calls.push(call).drop_last() =~= calls);
}

/// There is one verdict per stop.
pub proof fn lemma_classify_trace_len(calls: Seq<u64>)
    ensures
        classify_trace(calls).len() == calls.len(),
    decreases calls.len(),
{
    if calls.len() > 0 {
        lemma_classify_trace_len(calls.drop_last());
    }
}

} // verus!
