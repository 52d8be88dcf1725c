//! Emergency modes: panic (kill the network, lock the persona shards),
//! mask (switch to a decoy workspace) and travel mode.
use vstd::prelude::*;
use crate::audit::{audit_view, record, AuditEvent};
use crate::net::backend::NetworkBackend;
use crate::shard::manager::{
    shard_error_debug, transition_payload, NamespaceBoundary, ShardError, ShardManager, ShardManagerView, ShardState,
    TransitionView,
};
use crate::text::{cat, cat3, owned, quoted_debug};

verus! {

/// Why an emergency action failed.
#[derive(Debug)]
pub enum GuardianError {
    NetworkOperationFailed(String),
    ShardOperationFailed(String, String),
    ServiceError(String),
}

/// The text of a guardian error.
pub open spec fn guardian_error_text(e: GuardianError) -> Seq<char> {
    match e {
        GuardianError::NetworkOperationFailed(m) => "Network operation failed: "@ + m@,
        GuardianError::ShardOperationFailed(shard, m) => "Shard operation failed for "@ + shard@ + ": "@ + m@,
        GuardianError::ServiceError(m) => "Guardian service error: "@ + m@,
    }
}

impl GuardianError {
    /// The human-readable text of this error.
    pub fn message(&self) -> (r: String)
        ensures
            r@ == guardian_error_text(*self),
    {
        match self {
            GuardianError::NetworkOperationFailed(m) => cat("Network operation failed: ", m.as_str()),
            GuardianError::ShardOperationFailed(shard, m) => {
                let a = cat3("Shard operation failed for ", shard.as_str(), ": ");
                cat(a.as_str(), m.as_str())
            },
            GuardianError::ServiceError(m) => cat("Guardian service error: ", m.as_str()),
        }
    }
}

/// The persona shards panic mode locks, in the order it locks them.
pub open spec fn persona_shards() -> Seq<Seq<char>> {
    seq!["work"@, "anon"@, "burner"@, "lab"@]
}

/// The shard states after locking (stopping) each running shard of `names`.
pub open spec fn locked_states(states: Map<Seq<char>, ShardState>, names: Seq<Seq<char>>) -> Map<Seq<char>, ShardState>
    decreases names.len(),
{
    if names.len() == 0 {
        states
    } else {
        let before = locked_states(states, names.drop_last());
        let n = names.last();
        if before.contains_key(n) && before[n] == ShardState::Running {
            before.insert(n, ShardState::Stopped)
        } else {
            before
        }
    }
}

/// The transitions recorded while locking each running shard of `names`.
pub open spec fn lock_transitions(states: Map<Seq<char>, ShardState>, names: Seq<Seq<char>>) -> Seq<TransitionView>
    decreases names.len(),
{
    if names.len() == 0 {
        Seq::empty()
    } else {
        let before = locked_states(states, names.drop_last());
        let n = names.last();
        let prev = lock_transitions(states, names.drop_last());
        if before.contains_key(n) && before[n] == ShardState::Running {
            prev.push(TransitionView {
                shard_name: n,
                from: Some(ShardState::Running),
                to: Some(ShardState::Stopped),
                at_epoch_s: 0,
            })
        } else {
            prev
        }
    }
}

/// The audit events of locking each running shard of `names`: the shard's
/// transition, then the lock itself.
pub open spec fn lock_events(states: Map<Seq<char>, ShardState>, names: Seq<Seq<char>>) -> Seq<(Seq<char>, Seq<char>)>
    decreases names.len(),
{
    if names.len() == 0 {
        Seq::empty()
    } else {
        let before = locked_states(states, names.drop_last());
        let n = names.last();
        let prev = lock_events(states, names.drop_last());
        if before.contains_key(n) && before[n] == ShardState::Running {
            prev.push(("shardd.transition"@, transition_payload(n, Some(ShardState::Running), Some(ShardState::Stopped))))
                .push(("guardian.panic.shard_locked"@, n))
        } else {
            prev
        }
    }
}

/// The shard `names[j]` is still running when its turn to be locked comes.
pub open spec fn running_at(states: Map<Seq<char>, ShardState>, names: Seq<Seq<char>>, j: int) -> bool {
    let before = locked_states(states, names.take(j));
    before.contains_key(names[j]) && before[names[j]] == ShardState::Running
}

/// The platform may stop every shard of `names` that is running at its turn.
pub open spec fn locks_permitted<P: NamespaceBoundary>(states: Map<Seq<char>, ShardState>, platform: P, names: Seq<Seq<char>>) -> bool {
    forall|j: int| 0 <= j < names.len() && running_at(states, names, j) ==> #[trigger] platform.stop_answer(names[j], Ok(()))
}

/// The platform may refuse to stop `names[i]`, which is running at its turn.
pub open spec fn lock_refused_at<P: NamespaceBoundary>(states: Map<Seq<char>, ShardState>, platform: P, names: Seq<Seq<char>>, i: int) -> bool {
    &&& 0 <= i < names.len()
    &&& running_at(states, names, i)
    &&& exists|e: ShardError| #[trigger] platform.stop_answer(names[i], Err(e))
}

proof fn lemma_permitted_extends<P: NamespaceBoundary>(
    states: Map<Seq<char>, ShardState>,
    platform: P,
    names: Seq<Seq<char>>,
    i: int,
)
    requires
        0 <= i < names.len(),
        locks_permitted(states, platform, names.take(i)),
        running_at(states, names, i) ==> platform.stop_answer(names[i], Ok(())),
    ensures
        locks_permitted(states, platform, names.take(i + 1)),
{
    let next = names.take(i + 1);
    assert forall|j: int| 0 <= j < next.len() && running_at(states, next, j) implies #[trigger] platform.stop_answer(
        next[j],
        Ok(()),
    ) by {
        assert(next.take(j) =~= names.take(j));
        if j < i {
            assert(names.take(i).take(j) =~= names.take(j));
            assert(names.take(i)[j] == next[j]);
            assert(running_at(states, names.take(i), j));
        }
    }
}

/// The decoy shard exists and is not running, so mask mode starts it.
pub open spec fn decoy_startable(states: Map<Seq<char>, ShardState>, decoy: Seq<char>) -> bool {
    states.contains_key(decoy) && states[decoy] != ShardState::Running
}

/// The audit log after mask mode announces the decoy workspace.
pub open spec fn mask_opened(log: Seq<AuditEvent>, decoy: Seq<char>) -> Seq<(Seq<char>, Seq<char>)> {
    audit_view(log).push(("guardian.mask.activated"@, "workspace:"@ + decoy))
}

/// After locking the first `i` persona shards: the manager and the audit
/// log hold exactly what those locks produce.
pub open spec fn locking_progress(
    states: Map<Seq<char>, ShardState>,
    transitions: Seq<TransitionView>,
    log: Seq<(Seq<char>, Seq<char>)>,
    now: ShardManagerView,
    now_log: Seq<AuditEvent>,
    i: int,
) -> bool {
    &&& now.states == locked_states(states, persona_shards().take(i))
    &&& now.transitions == transitions + lock_transitions(states, persona_shards().take(i))
    &&& audit_view(now_log) == log + lock_events(states, persona_shards().take(i))
}

/// The emergency-mode service.
pub struct GuardianService<B: NetworkBackend, P: NamespaceBoundary> {
    network_backend: B,
    shard_manager: ShardManager<P>,
    travel_mode_enabled: bool,
}

impl<B: NetworkBackend, P: NamespaceBoundary> GuardianService<B, P> {
    /// The shard manager this service drives.
    pub closed spec fn shards(&self) -> ShardManagerView {
        self.shard_manager@
    }

    /// Whether travel mode is on.
    pub closed spec fn travel_mode(&self) -> bool {
        self.travel_mode_enabled
    }

    /// The network backend this service drives.
    pub closed spec fn network(&self) -> B {
        self.network_backend
    }

    /// The platform boundary under the shard manager.
    pub closed spec fn boundary(&self) -> P {
        self.shard_manager.boundary()
    }

    /// A service over a network backend and a shard manager, travel mode off.
    pub fn new(network_backend: B, shard_manager: ShardManager<P>) -> (r: Self)
        ensures
            r.shards() == shard_manager@,
            !r.travel_mode(),
    {
        GuardianService { network_backend, shard_manager, travel_mode_enabled: false }
    }

    /// Panic mode: turns the kill switch on before touching any shard, locks
    /// every running persona shard (work, anon, burner, lab, in that order),
    /// clears volatile secrets and records the activation. It stops at the
    /// first refusal: of the backend, with no shard touched, or of the
    /// platform, naming the shard.
    pub fn panic(&mut self, audit: &mut Vec<AuditEvent>) -> (r: Result<(), GuardianError>)
        ensures
            final(self).travel_mode() == old(self).travel_mode(),
            final(self).boundary() == old(self).boundary(),
            match r {
                Err(GuardianError::NetworkOperationFailed(m)) => {
                    &&& exists|msg: Seq<char>| #[trigger] old(self).network().kill_switch_step(final(self).network(), true, Err(msg))
                        && m@ == "NetworkBackendError { message: "@ + quoted_debug(msg) + " }"@
                    &&& final(self).shards() == old(self).shards()
                    &&& audit_view(final(audit)@) == audit_view(old(audit)@)
                },
                Err(GuardianError::ShardOperationFailed(s, _)) => {
                    &&& old(self).network().kill_switch_step(final(self).network(), true, Ok(()))
                    &&& exists|i: int| #[trigger] lock_refused_at(old(self).shards().states, old(self).boundary(), persona_shards(), i)
                        && s@ == persona_shards()[i]
                        && locks_permitted(old(self).shards().states, old(self).boundary(), persona_shards().take(i))
                },
                Err(_) => false,
                Ok(_) => {
                    &&& old(self).network().kill_switch_step(final(self).network(), true, Ok(()))
                    &&& locks_permitted(old(self).shards().states, old(self).boundary(), persona_shards())
                },
            },
            r is Ok ==> {
                &&& final(self).shards().states == locked_states(old(self).shards().states, persona_shards())
                &&& final(self).shards().transitions == old(self).shards().transitions
                    + lock_transitions(old(self).shards().states, persona_shards())
                &&& audit_view(final(audit)@) == audit_view(old(audit)@)
                    .push(("guardian.panic.network_killed"@, "all_interfaces"@))
                    + lock_events(old(self).shards().states, persona_shards())
                    + seq![("guardian.panic.secrets_cleared"@, "volatile_memory"@),
                        ("guardian.panic.activated"@, "emergency_containment"@)]
            },
    {
        match self.network_backend.set_kill_switch(true) {
            Ok(()) => {},
            Err(e) => {
                let m = e.debug_text();
                proof {
                    assert(old(self).network().kill_switch_step(self.network(), true, Err(e.message@)));
                }
                return Err(GuardianError::NetworkOperationFailed(m));
            },
        }
        record(audit, "guardian.panic.network_killed", owned("all_interfaces"));
        let ghost start_states = self.shard_manager@.states;
        let ghost start_transitions = self.shard_manager@.transitions;
        let ghost start_audit = audit_view(audit@);
        let names: Vec<&str> = vec!["work", "anon", "burner", "lab"];
        proof {
            assert(names@.map_values(|n: &str| n@) =~= persona_shards());
        }
        let mut i: usize = 0;
        while i < 4
            invariant
                i <= 4,
                names@.len() == 4,
                names@.map_values(|n: &str| n@) == persona_shards(),
                self.travel_mode_enabled == old(self).travel_mode_enabled,
                self.shard_manager.boundary() == old(self).shard_manager.boundary(),
                old(self).network_backend.kill_switch_step(self.network_backend, true, Ok(())),
                start_states == old(self).shard_manager@.states,
                locks_permitted(start_states, self.shard_manager.boundary(), persona_shards().take(i as int)),
                locking_progress(start_states, start_transitions, start_audit, self.shard_manager@, audit@, i as int),
            decreases 4 - i,
        {
            let name = names[i];
            proof {
                assert(persona_shards().take(i + 1).drop_last() =~= persona_shards().take(i as int));
                assert(persona_shards().take(i + 1).last() == name@);
            }
            proof {
                assert(persona_shards()[i as int] == name@);
            }
            let current = self.shard_manager.state_of(name);
            match current {
                Some(ShardState::Running) => {
                    let answer = self.shard_manager.stop_shard(name, 0, audit);
                    let ghost a = answer;
                    match answer {
                        Ok(()) => {
                            proof {
                                assert(a->Ok_0 == ());
                                assert(a == Ok::<(), ShardError>(()));
                                lemma_permitted_extends(start_states, self.shard_manager.boundary(), persona_shards(), i as int);
                            }
                        },
                        Err(e) => {
                            proof {
                                assert(self.shard_manager.boundary().stop_answer(persona_shards()[i as int], Err(e)));
                                assert(lock_refused_at(old(self).shards().states, old(self).boundary(), persona_shards(), i as int));
                            }
                            return Err(GuardianError::ShardOperationFailed(owned(name), e.debug_text()));
                        },
                    }
                    record(audit, "guardian.panic.shard_locked", owned(name));
                },
                _ => {
                    proof {
                        lemma_permitted_extends(start_states, self.shard_manager.boundary(), persona_shards(), i as int);
                    }
                },
            }
            proof {
                assert(audit_view(audit@) =~= start_audit + lock_events(start_states, persona_shards().take(i + 1)));
                assert(self.shard_manager@.transitions =~= start_transitions + lock_transitions(start_states, persona_shards().take(i + 1)));
            }
            i = i + 1;
        }
        proof {
            assert(persona_shards().take(4) =~= persona_shards());
        }
        self.clear_volatile_secrets();
        record(audit, "guardian.panic.secrets_cleared", owned("volatile_memory"));
        record(audit, "guardian.panic.activated", owned("emergency_containment"));
        proof {
            assert(audit_view(audit@) =~= audit_view(old(audit)@)
                .push(("guardian.panic.network_killed"@, "all_interfaces"@))
                + lock_events(start_states, persona_shards())
                + seq![("guardian.panic.secrets_cleared"@, "volatile_memory"@),
                    ("guardian.panic.activated"@, "emergency_containment"@)]);
        }
        Ok(())
    }

    /// Wipes secrets held in memory. Nothing is held in memory yet, so
    /// there is nothing to wipe.
    fn clear_volatile_secrets(&self) {
    }

    /// Mask mode: records the switch to the decoy workspace and starts the
    /// decoy shard when it exists and is not running; it fails only when the
    /// platform refuses to start it.
    pub fn mask(&mut self, decoy_workspace: &str, audit: &mut Vec<AuditEvent>) -> (r: Result<(), GuardianError>)
        ensures
            final(self).travel_mode() == old(self).travel_mode(),
            final(self).boundary() == old(self).boundary(),
            decoy_startable(old(self).shards().states, decoy_workspace@) && r is Ok
                ==> old(self).boundary().start_answer(decoy_workspace@, Ok(())),
            decoy_startable(old(self).shards().states, decoy_workspace@) && r is Err
                ==> exists|e: ShardError| #[trigger] old(self).boundary().start_answer(decoy_workspace@, Err(e)),
            !decoy_startable(old(self).shards().states, decoy_workspace@) ==> r is Ok
                && final(self).shards() == old(self).shards()
                && audit_view(final(audit)@) == mask_opened(old(audit)@, decoy_workspace@),
            decoy_startable(old(self).shards().states, decoy_workspace@) && r is Ok
                ==> final(self).shards().states == old(self).shards().states.insert(decoy_workspace@, ShardState::Running)
                && audit_view(final(audit)@) == mask_opened(old(audit)@, decoy_workspace@).push((
                    "shardd.transition"@,
                    transition_payload(decoy_workspace@, Some(old(self).shards().states[decoy_workspace@]),
                        Some(ShardState::Running)),
                )),
            r is Err ==> (r matches Err(GuardianError::ShardOperationFailed(s, _)) && s@ == decoy_workspace@)
                && final(self).shards() == old(self).shards()
                && audit_view(final(audit)@) == mask_opened(old(audit)@, decoy_workspace@),
    {
        record(audit, "guardian.mask.activated", cat("workspace:", decoy_workspace));
        match self.shard_manager.state_of(decoy_workspace) {
            Some(current) => {
                if current != ShardState::Running {
                    let answer = self.shard_manager.start_shard(decoy_workspace, 0, audit);
                    let ghost a = answer;
                    match answer {
                        Ok(()) => {
                            proof {
                                assert(a->Ok_0 == ());
                                assert(a == Ok::<(), ShardError>(()));
                            }
                        },
                        Err(e) => {
                            proof {
                                assert(old(self).boundary().start_answer(decoy_workspace@, Err(e)));
                            }
                            return Err(GuardianError::ShardOperationFailed(owned(decoy_workspace), e.debug_text()));
                        },
                    }
                }
            },
            None => {},
        }
        Ok(())
    }

    /// Turns travel mode on or off.
    pub fn set_travel_mode(&mut self, enabled: bool, audit: &mut Vec<AuditEvent>)
        ensures
            final(self).travel_mode() == enabled,
            final(self).shards() == old(self).shards(),
            audit_view(final(audit)@) == audit_view(old(audit)@).push((
                "guardian.travel_mode"@,
                if enabled { "enabled"@ } else { "disabled"@ },
            )),
    {
        self.travel_mode_enabled = enabled;
        let state = if enabled { "enabled" } else { "disabled" };
        record(audit, "guardian.travel_mode", owned(state));
    }

    /// Whether travel mode is on.
    pub fn is_travel_mode_enabled(&self) -> (r: bool)
        ensures
            r == self.travel_mode(),
    {
        self.travel_mode_enabled
    }
}

/// Locking the shards of `names` leaves none of them running, and leaves
/// every other shard as it was.
pub proof fn lemma_locking_stops_named_shards(states: Map<Seq<char>, ShardState>, names: Seq<Seq<char>>)
    ensures
        forall|j: int| 0 <= j < names.len() && #[trigger] locked_states(states, names).contains_key(names[j])
            ==> locked_states(states, names)[names[j]] != ShardState::Running,
        forall|k: Seq<char>| !names.contains(k) ==> #[trigger] locked_states(states, names).contains_key(k)
            == states.contains_key(k) && (states.contains_key(k) ==> locked_states(states, names)[k] == states[k]),
        locked_states(states, names).dom() == states.dom(),
    decreases names.len(),
{
    if names.len() > 0 {
        let d = names.drop_last();
        lemma_locking_stops_named_shards(states, d);
        let before = locked_states(states, d);
        let n = names.last();
        assert forall|j: int| 0 <= j < names.len() && #[trigger] locked_states(states, names).contains_key(names[j])
            implies locked_states(states, names)[names[j]] != ShardState::Running by {
            if j < d.len() {
                assert(names[j] == d[j]);
            }
        }
        assert forall|k: Seq<char>| !names.contains(k) implies #[trigger] locked_states(states, names).contains_key(k)
            == states.contains_key(k) && (states.contains_key(k) ==> locked_states(states, names)[k] == states[k]) by {
            assert(!d.contains(k)) by {
                if d.contains(k) {
                    let j = choose|j: int| 0 <= j < d.len() && d[j] == k;
                    assert(names[j] == k);
                }
            }
            assert(k != n) by {
                if k == n {
                    assert(names[names.len() - 1] == k);
                }
            }
        }
        assert(locked_states(states, names).dom() =~= states.dom());
    }
}

/// After a successful panic no persona shard is running, and shards that are
/// not persona shards are untouched.
pub proof fn lemma_panic_leaves_no_persona_shard_running(states: Map<Seq<char>, ShardState>, k: Seq<char>)
    ensures
        persona_shards().contains(k) && locked_states(states, persona_shards()).contains_key(k)
            ==> locked_states(states, persona_shards())[k] != ShardState::Running,
        !persona_shards().contains(k) && states.contains_key(k) ==> locked_states(states, persona_shards()).contains_key(k)
            && locked_states(states, persona_shards())[k] == states[k],
{
    lemma_locking_stops_named_shards(states, persona_shards());
    if persona_shards().contains(k) {
        let j = choose|j: int| 0 <= j < persona_shards().len() && persona_shards()[j] == k;
    }
}

} // verus!
