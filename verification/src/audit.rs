//! Audit events: what a service reports to the tamper-evident audit chain.
use vstd::prelude::*;
use crate::text::{owned, str_eq};

verus! {

/// One audit record: an event type and its payload.
pub struct AuditEvent {
    pub event_type: String,
    pub payload: String,
}

impl View for AuditEvent {
    type V = (Seq<char>, Seq<char>);

    open spec fn view(&self) -> (Seq<char>, Seq<char>) {
        (self.event_type@, self.payload@)
    }
}

/// The event types and payloads of a list of events.
pub open spec fn audit_view(log: Seq<AuditEvent>) -> Seq<(Seq<char>, Seq<char>)> {
    log.map_values(|e: AuditEvent| e@)
}

/// Appends the event `(event_type, payload)` to `log`.
pub fn record(log: &mut Vec<AuditEvent>, event_type: &str, payload: String)
    ensures
        audit_view(final(log)@) == audit_view(old(log)@).push((event_type@, payload@)),
{
    let ghost before = log@;
    let ghost p = payload@;
    log.push(AuditEvent { event_type: owned(event_type), payload });
    proof {
        assert(audit_view(log@) =~= audit_view(before).push((event_type@, p)));
    }
}

/// What replaying the audit chain found: an intact chain, a chain whose
/// hashes or signatures do not hold (with the integrity error's message), or
/// a failure to read the store (with its message).
pub enum ChainCheck {
    Intact,
    Tampered(String),
    Unreadable(String),
}

/// Whether the audit chain verified, and why not when it did not.
#[derive(Debug, Clone, PartialEq, Eq)]
pub struct VerifyChainResult {
    pub valid: bool,
    pub reason: Option<String>,
}

/// The verification result for what a replay found: a tampered chain is an
/// answer (invalid, with the reason), an unreadable store is an error.
pub fn chain_report(check: ChainCheck) -> (r: Result<VerifyChainResult, String>)
    ensures
        match check {
            ChainCheck::Intact => r matches Ok(v) && v.valid && v.reason is None,
            ChainCheck::Tampered(m) => r matches Ok(v) && !v.valid && v.reason == Some(m),
            ChainCheck::Unreadable(m) => r == Err::<VerifyChainResult, String>(m),
        },
{
    match check {
        ChainCheck::Intact => Ok(VerifyChainResult { valid: true, reason: None }),
        ChainCheck::Tampered(m) => Ok(VerifyChainResult { valid: false, reason: Some(m) }),
        ChainCheck::Unreadable(m) => Err(m),
    }
}

/// The first sequence number a query from `from_sequence` returns: events are
/// numbered from one, so zero means from the start.
pub fn query_lower_bound(from_sequence: u64) -> (r: u64)
    ensures
        r == if from_sequence < 1 { 1 } else { from_sequence },
{
    if from_sequence < 1 { 1 } else { from_sequence }
}

/// The positions of the events a query from `from_sequence` returns, given
/// the events' sequence numbers in chain order: those numbered at or after
/// the lower bound, in order.
pub fn select_from_sequence(sequences: &Vec<u64>, from_sequence: u64) -> (r: Vec<usize>)
    ensures
        r@.len() <= sequences@.len(),
        forall|i: int| 0 <= i < r@.len() ==> #[trigger] r@[i] < sequences@.len()
            && sequences@[r@[i] as int] >= query_bound(from_sequence),
        forall|i: int, j: int| 0 <= i < j < r@.len() ==> #[trigger] r@[i] < #[trigger] r@[j],
        forall|k: int| 0 <= k < sequences@.len() && #[trigger] sequences@[k] >= query_bound(from_sequence)
            ==> r@.contains(k as usize),
{
    let bound = query_lower_bound(from_sequence);
    let mut r: Vec<usize> = Vec::new();
    let mut k: usize = 0;
    while k < sequences.len()
        invariant
            k <= sequences@.len(),
            bound == query_bound(from_sequence),
            r@.len() <= k,
            forall|i: int| 0 <= i < r@.len() ==> #[trigger] r@[i] < k && sequences@[r@[i] as int] >= bound,
            forall|i: int, j: int| 0 <= i < j < r@.len() ==> #[trigger] r@[i] < #[trigger] r@[j],
            forall|q: int| 0 <= q < k && #[trigger] sequences@[q] >= bound ==> r@.contains(q as usize),
        decreases sequences@.len() - k,
    {
        if sequences[k] >= bound {
            let ghost before = r@;
            r.push(k);
            proof {
                assert forall|q: int| 0 <= q < k + 1 && #[trigger] sequences@[q] >= bound implies r@.contains(q as usize) by {
                    if q < k {
                        let w = choose|w: int| 0 <= w < before.len() && before[w] == q as usize;
                        assert(r@[w] == q as usize);
                    } else {
                        assert(r@[before.len() as int] == k);
                    }
                }
            }
        } else {
            proof {
                assert forall|q: int| 0 <= q < k + 1 && #[trigger] sequences@[q] >= bound implies r@.contains(q as usize) by {
                    assert(q < k);
                }
            }
        }
        k = k + 1;
    }
    r
}

/// The lower bound of a query, as a value.
pub open spec fn query_bound(from_sequence: u64) -> u64 {
    if from_sequence < 1 { 1 } else { from_sequence }
}

/// Appends an event to the audit store.
pub struct AppendEventPayload {
    pub event_type: String,
    pub payload: String,
}

/// The sequence number an appended event got.
pub struct AppendEventResponse {
    pub sequence: u64,
}

/// Asks for the events from a sequence number on.
pub struct QueryEventsPayload {
    pub from_sequence: u64,
}

/// The role a caller needs for each audit method; `None` for an unknown method.
pub open spec fn audit_role_of(method: Seq<char>) -> Option<Seq<char>> {
    if method == "AppendEvent"@ {
        Some("audit-write"@)
    } else if method == "VerifyChain"@ || method == "QueryEvents"@ {
        Some("audit-read"@)
    } else {
        None
    }
}

/// The role a caller needs to call `method`, or `None` when there is no such method.
pub fn audit_method_role(method: &str) -> (r: Option<&'static str>)
    ensures
        match r {
            Some(role) => audit_role_of(method@) == Some(role@),
            None => audit_role_of(method@) is None,
        },
{
    if str_eq(method, "AppendEvent") {
        Some("audit-write")
    } else if str_eq(method, "VerifyChain") || str_eq(method, "QueryEvents") {
        Some("audit-read")
    } else {
        None
    }
}

} // verus!
