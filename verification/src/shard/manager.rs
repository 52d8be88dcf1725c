//! The shard lifecycle: created, running, stopped, destroyed, each change
//! made at the platform boundary first and then recorded.
use vstd::prelude::*;
use crate::audit::{audit_view, record, AuditEvent};
use crate::collections::StrMap;
use crate::text::{cat, cat3, debug_quoted, owned, quoted_debug};

verus! {

/// Where a shard stands.
#[derive(Debug, Clone, Copy, PartialEq, Eq, Structural)]
pub enum ShardState {
    Created,
    Running,
    Stopped,
}

/// The name of a shard state.
pub open spec fn shard_state_name(s: ShardState) -> Seq<char> {
    match s {
        ShardState::Created => "Created"@,
        ShardState::Running => "Running"@,
        ShardState::Stopped => "Stopped"@,
    }
}

impl ShardState {
    /// The name of this state.
    pub fn name(&self) -> (r: &'static str)
        ensures
            r@ == shard_state_name(*self),
    {
        match self {
            ShardState::Created => "Created",
            ShardState::Running => "Running",
            ShardState::Stopped => "Stopped",
        }
    }
}

/// One change of a shard's state; `None` stands for "does not exist".
pub struct ShardTransitionRecord {
    pub shard_name: String,
    pub from: Option<ShardState>,
    pub to: Option<ShardState>,
    pub at_epoch_s: u64,
}

/// The mathematical content of a transition record.
pub struct TransitionView {
    pub shard_name: Seq<char>,
    pub from: Option<ShardState>,
    pub to: Option<ShardState>,
    pub at_epoch_s: u64,
}

impl View for ShardTransitionRecord {
    type V = TransitionView;

    open spec fn view(&self) -> TransitionView {
        TransitionView { shard_name: self.shard_name@, from: self.from, to: self.to, at_epoch_s: self.at_epoch_s }
    }
}

/// The views of a list of transition records.
pub open spec fn transitions_view(s: Seq<ShardTransitionRecord>) -> Seq<TransitionView> {
    s.map_values(|t: ShardTransitionRecord| t@)
}

/// A transition the lifecycle allows: create into Created, start from
/// Created or Stopped into Running, stop from Running into Stopped, destroy
/// from Stopped.
pub open spec fn legal_transition(from: Option<ShardState>, to: Option<ShardState>) -> bool {
    match (from, to) {
        (None, Some(ShardState::Created)) => true,
        (Some(ShardState::Created), Some(ShardState::Running)) => true,
        (Some(ShardState::Stopped), Some(ShardState::Running)) => true,
        (Some(ShardState::Running), Some(ShardState::Stopped)) => true,
        (Some(ShardState::Stopped), None) => true,
        _ => false,
    }
}

/// Everything a shard manager keeps between restarts.
pub struct ShardRuntimeState {
    pub shard_states: StrMap<ShardState>,
    pub transitions: Vec<ShardTransitionRecord>,
}

/// Why a shard operation failed.
#[derive(Debug)]
pub enum ShardError {
    AlreadyExists,
    NotFound,
    InvalidTransition { from: Option<ShardState>, attempted: &'static str },
    PlatformFailure(String),
    PersistenceFailure(String),
}

/// The `Debug` rendering of an optional shard state.
pub open spec fn opt_state_debug(s: Option<ShardState>) -> Seq<char> {
    match s {
        Some(x) => "Some("@ + shard_state_name(x) + ")"@,
        None => "None"@,
    }
}

/// Renders an optional shard state as `Debug` does.
pub fn opt_state_text(s: Option<ShardState>) -> (r: String)
    ensures
        r@ == opt_state_debug(s),
{
    match s {
        Some(x) => cat3("Some(", x.name(), ")"),
        None => owned("None"),
    }
}

/// The text of a shard error.
pub open spec fn shard_error_text(e: ShardError) -> Seq<char> {
    match e {
        ShardError::AlreadyExists => "shard already exists"@,
        ShardError::NotFound => "shard not found"@,
        ShardError::InvalidTransition { from, attempted } => "invalid transition from "@
            + opt_state_debug(from) + " via "@ + attempted@,
        ShardError::PlatformFailure(message) => "platform boundary failed: "@ + message@,
        ShardError::PersistenceFailure(message) => "persistence failure: "@ + message@,
    }
}

/// What `{:?}` writes for a shard error.
pub open spec fn shard_error_debug(e: ShardError) -> Seq<char> {
    match e {
        ShardError::AlreadyExists => "AlreadyExists"@,
        ShardError::NotFound => "NotFound"@,
        ShardError::InvalidTransition { from, attempted } => "InvalidTransition { from: "@
            + opt_state_debug(from) + ", attempted: "@ + quoted_debug(attempted@) + " }"@,
        ShardError::PlatformFailure(message) => "PlatformFailure("@ + quoted_debug(message@) + ")"@,
        ShardError::PersistenceFailure(message) => "PersistenceFailure("@ + quoted_debug(message@) + ")"@,
    }
}

impl ShardError {
    /// The `Debug` rendering of this error.
    pub fn debug_text(&self) -> (r: String)
        ensures
            r@ == shard_error_debug(*self),
    {
        match self {
            ShardError::AlreadyExists => owned("AlreadyExists"),
            ShardError::NotFound => owned("NotFound"),
            ShardError::InvalidTransition { from, attempted } => {
                let a = cat("InvalidTransition { from: ", opt_state_text(*from).as_str());
                let b = cat3(a.as_str(), ", attempted: ", debug_quoted(attempted).as_str());
                cat(b.as_str(), " }")
            },
            ShardError::PlatformFailure(message) => cat3("PlatformFailure(", debug_quoted(message.as_str()).as_str(), ")"),
            ShardError::PersistenceFailure(message) => cat3("PersistenceFailure(", debug_quoted(message.as_str()).as_str(), ")"),
        }
    }

    /// The human-readable text of this error.
    pub fn message(&self) -> (r: String)
        ensures
            r@ == shard_error_text(*self),
    {
        match self {
            ShardError::AlreadyExists => owned("shard already exists"),
            ShardError::NotFound => owned("shard not found"),
            ShardError::InvalidTransition { from, attempted } => {
                let a = cat("invalid transition from ", opt_state_text(*from).as_str());
                cat3(a.as_str(), " via ", attempted)
            },
            ShardError::PlatformFailure(message) => cat("platform boundary failed: ", message.as_str()),
            ShardError::PersistenceFailure(message) => cat("persistence failure: ", message.as_str()),
        }
    }
}

/// The operating-system side of shard isolation. What the platform answers
/// depends on the system, so each request's possible answers are named by a
/// spec function of the platform and the shard; a platform that does not
/// name them may answer anything.
pub trait NamespaceBoundary {
    /// Whether this platform may answer `answer` when asked to create the namespace of `shard_name`.
    open spec fn create_answer(&self, shard_name: Seq<char>, answer: Result<(), ShardError>) -> bool {
        true
    }

    /// Whether this platform may answer `answer` when asked to start the namespace of `shard_name`.
    open spec fn start_answer(&self, shard_name: Seq<char>, answer: Result<(), ShardError>) -> bool {
        true
    }

    /// Whether this platform may answer `answer` when asked to stop the namespace of `shard_name`.
    open spec fn stop_answer(&self, shard_name: Seq<char>, answer: Result<(), ShardError>) -> bool {
        true
    }

    /// Whether this platform may answer `answer` when asked to tear down the namespace of `shard_name`.
    open spec fn destroy_answer(&self, shard_name: Seq<char>, answer: Result<(), ShardError>) -> bool {
        true
    }

    /// Creates the namespace of `shard_name`.
    fn create_namespace(&self, shard_name: &str) -> (r: Result<(), ShardError>)
        ensures
            self.create_answer(shard_name@, r);

    /// Starts the namespace of `shard_name`.
    fn start_namespace(&self, shard_name: &str) -> (r: Result<(), ShardError>)
        ensures
            self.start_answer(shard_name@, r);

    /// Stops the namespace of `shard_name`.
    fn stop_namespace(&self, shard_name: &str) -> (r: Result<(), ShardError>)
        ensures
            self.stop_answer(shard_name@, r);

    /// Tears down the namespace of `shard_name`.
    fn destroy_namespace(&self, shard_name: &str) -> (r: Result<(), ShardError>)
        ensures
            self.destroy_answer(shard_name@, r);
}

/// A boundary that accepts every request without doing anything.
#[derive(Debug, Default, Clone, Copy)]
pub struct LinuxNamespaceStub;

impl NamespaceBoundary for LinuxNamespaceStub {
    open spec fn create_answer(&self, shard_name: Seq<char>, answer: Result<(), ShardError>) -> bool {
        answer is Ok
    }

    open spec fn start_answer(&self, shard_name: Seq<char>, answer: Result<(), ShardError>) -> bool {
        answer is Ok
    }

    open spec fn stop_answer(&self, shard_name: Seq<char>, answer: Result<(), ShardError>) -> bool {
        answer is Ok
    }

    open spec fn destroy_answer(&self, shard_name: Seq<char>, answer: Result<(), ShardError>) -> bool {
        answer is Ok
    }

    fn create_namespace(&self, _shard_name: &str) -> (r: Result<(), ShardError>)
        ensures
            r is Ok,
    {
        Ok(())
    }

    fn start_namespace(&self, _shard_name: &str) -> (r: Result<(), ShardError>)
        ensures
            r is Ok,
    {
        Ok(())
    }

    fn stop_namespace(&self, _shard_name: &str) -> (r: Result<(), ShardError>)
        ensures
            r is Ok,
    {
        Ok(())
    }

    fn destroy_namespace(&self, _shard_name: &str) -> (r: Result<(), ShardError>)
        ensures
            r is Ok,
    {
        Ok(())
    }
}

/// The mathematical state of a shard manager.
pub struct ShardManagerView {
    pub states: Map<Seq<char>, ShardState>,
    pub transitions: Seq<TransitionView>,
}

/// The shard manager: the state of each shard and the history of changes.
pub struct ShardManager<P: NamespaceBoundary> {
    platform: P,
    shard_states: StrMap<ShardState>,
    transitions: Vec<ShardTransitionRecord>,
}

impl<P: NamespaceBoundary> View for ShardManager<P> {
    type V = ShardManagerView;

    closed spec fn view(&self) -> ShardManagerView {
        ShardManagerView { states: self.shard_states@, transitions: transitions_view(self.transitions@) }
    }
}

/// The audit payload of a change of `name` from `from` to `to`.
pub open spec fn transition_payload(name: Seq<char>, from: Option<ShardState>, to: Option<ShardState>) -> Seq<char> {
    name + ":"@ + (match from { Some(s) => shard_state_name(s), None => "None"@ }) + "->"@
        + (match to { Some(s) => shard_state_name(s), None => "None"@ })
}

impl<P: NamespaceBoundary> ShardManager<P> {
    /// The platform boundary this manager drives.
    pub closed spec fn boundary(&self) -> P {
        self.platform
    }

    /// The platform boundary this manager drives.
    pub fn platform(&self) -> (r: &P)
        ensures
            *r == self.boundary(),
    {
        &self.platform
    }

    /// A manager over `platform` with no shards and no history.
    pub fn new(platform: P) -> (r: Self)
        ensures
            r@.states == Map::<Seq<char>, ShardState>::empty(),
            r@.transitions == Seq::<TransitionView>::empty(),
            r.boundary() == platform,
    {
        let r = ShardManager { platform, shard_states: StrMap::new(), transitions: Vec::new() };
        proof { assert(transitions_view(r.transitions@) =~= Seq::<TransitionView>::empty()); }
        r
    }

    fn record_transition(&mut self, shard_name: &str, from: Option<ShardState>, to: Option<ShardState>, at_epoch_s: u64)
        ensures
            final(self)@ == (ShardManagerView {
                transitions: old(self)@.transitions.push(TransitionView {
                    shard_name: shard_name@,
                    from,
                    to,
                    at_epoch_s,
                }),
                ..old(self)@
            }),
            final(self).boundary() == old(self).boundary(),
    {
        let ghost before = self.transitions@;
        self.transitions.push(ShardTransitionRecord { shard_name: owned(shard_name), from, to, at_epoch_s });
        proof {
            assert(transitions_view(self.transitions@) =~= transitions_view(before).push(TransitionView {
                shard_name: shard_name@,
                from,
                to,
                at_epoch_s,
            }));
        }
    }

    fn finish(&mut self, shard_name: &str, from: Option<ShardState>, to: Option<ShardState>, now_epoch_s: u64, audit: &mut Vec<AuditEvent>)
        ensures
            final(self)@ == (ShardManagerView {
                states: match to {
                    Some(s) => old(self)@.states.insert(shard_name@, s),
                    None => old(self)@.states.remove(shard_name@),
                },
                transitions: old(self)@.transitions.push(TransitionView {
                    shard_name: shard_name@,
                    from,
                    to,
                    at_epoch_s: now_epoch_s,
                }),
            }),
            final(self).boundary() == old(self).boundary(),
            audit_view(final(audit)@) == audit_view(old(audit)@).push((
                "shardd.transition"@,
                transition_payload(shard_name@, from, to),
            )),
    {
        match to {
            Some(s) => self.shard_states.insert(owned(shard_name), s),
            None => {
                self.shard_states.remove(shard_name);
            },
        }
        self.record_transition(shard_name, from, to, now_epoch_s);
        let from_text = match from {
            Some(s) => s.name(),
            None => "None",
        };
        let to_text = match to {
            Some(s) => s.name(),
            None => "None",
        };
        let a = cat3(shard_name, ":", from_text);
        let payload = cat3(a.as_str(), "->", to_text);
        record(audit, "shardd.transition", payload);
    }

    /// Creates a shard that does not exist yet. The platform is asked first;
    /// its answer is handed back, and on a refusal nothing changes.
    pub fn create_shard(&mut self, shard_name: &str, now_epoch_s: u64, audit: &mut Vec<AuditEvent>) -> (r: Result<(), ShardError>)
        ensures
            final(self).boundary() == old(self).boundary(),
            if old(self)@.states.contains_key(shard_name@) {
                r matches Err(ShardError::AlreadyExists)
            } else {
                old(self).boundary().create_answer(shard_name@, r)
            },
            r is Ok ==> {
                &&& final(self)@.states == old(self)@.states.insert(shard_name@, ShardState::Created)
                &&& final(self)@.transitions == old(self)@.transitions.push(TransitionView {
                    shard_name: shard_name@,
                    from: None,
                    to: Some(ShardState::Created),
                    at_epoch_s: now_epoch_s,
                })
                &&& audit_view(final(audit)@) == audit_view(old(audit)@).push((
                    "shardd.transition"@,
                    transition_payload(shard_name@, None, Some(ShardState::Created)),
                ))
            },
            r is Err ==> final(self)@ == old(self)@ && audit_view(final(audit)@) == audit_view(old(audit)@),
    {
        if self.shard_states.contains_key(shard_name) {
            return Err(ShardError::AlreadyExists);
        }
        let answer = self.platform.create_namespace(shard_name);
        if answer.is_err() {
            return answer;
        }
        self.finish(shard_name, None, Some(ShardState::Created), now_epoch_s, audit);
        answer
    }

    /// Starts a created or stopped shard. The platform is asked first; its
    /// answer is handed back, and on a refusal nothing changes.
    pub fn start_shard(&mut self, shard_name: &str, now_epoch_s: u64, audit: &mut Vec<AuditEvent>) -> (r: Result<(), ShardError>)
        ensures
            final(self).boundary() == old(self).boundary(),
            if !old(self)@.states.contains_key(shard_name@) {
                r matches Err(ShardError::NotFound)
            } else if old(self)@.states[shard_name@] == ShardState::Running {
                r matches Err(ShardError::InvalidTransition { from, attempted })
                    && from == Some(ShardState::Running) && attempted@ == "start"@
            } else {
                old(self).boundary().start_answer(shard_name@, r)
            },
            r is Ok ==> {
                let from = old(self)@.states[shard_name@];
                &&& final(self)@.states == old(self)@.states.insert(shard_name@, ShardState::Running)
                &&& final(self)@.transitions == old(self)@.transitions.push(TransitionView {
                    shard_name: shard_name@,
                    from: Some(from),
                    to: Some(ShardState::Running),
                    at_epoch_s: now_epoch_s,
                })
                &&& audit_view(final(audit)@) == audit_view(old(audit)@).push((
                    "shardd.transition"@,
                    transition_payload(shard_name@, Some(from), Some(ShardState::Running)),
                ))
            },
            r is Err ==> final(self)@ == old(self)@ && audit_view(final(audit)@) == audit_view(old(audit)@),
    {
        let current = match self.shard_states.get(shard_name) {
            Some(s) => *s,
            None => {
                return Err(ShardError::NotFound);
            },
        };
        match current {
            ShardState::Created | ShardState::Stopped => {
                let answer = self.platform.start_namespace(shard_name);
                if answer.is_err() {
                    return answer;
                }
                self.finish(shard_name, Some(current), Some(ShardState::Running), now_epoch_s, audit);
                answer
            },
            ShardState::Running => Err(ShardError::InvalidTransition { from: Some(current), attempted: "start" }),
        }
    }

    /// Stops a running shard. The platform is asked first; its answer is
    /// handed back, and on a refusal nothing changes.
    pub fn stop_shard(&mut self, shard_name: &str, now_epoch_s: u64, audit: &mut Vec<AuditEvent>) -> (r: Result<(), ShardError>)
        ensures
            final(self).boundary() == old(self).boundary(),
            if !old(self)@.states.contains_key(shard_name@) {
                r matches Err(ShardError::NotFound)
            } else if old(self)@.states[shard_name@] != ShardState::Running {
                r matches Err(ShardError::InvalidTransition { from, attempted })
                    && from == Some(old(self)@.states[shard_name@]) && attempted@ == "stop"@
            } else {
                old(self).boundary().stop_answer(shard_name@, r)
            },
            r is Ok ==> {
                &&& final(self)@.states == old(self)@.states.insert(shard_name@, ShardState::Stopped)
                &&& final(self)@.transitions == old(self)@.transitions.push(TransitionView {
                    shard_name: shard_name@,
                    from: Some(ShardState::Running),
                    to: Some(ShardState::Stopped),
                    at_epoch_s: now_epoch_s,
                })
                &&& audit_view(final(audit)@) == audit_view(old(audit)@).push((
                    "shardd.transition"@,
                    transition_payload(shard_name@, Some(ShardState::Running), Some(ShardState::Stopped)),
                ))
            },
            r is Err ==> final(self)@ == old(self)@ && audit_view(final(audit)@) == audit_view(old(audit)@),
    {
        let current = match self.shard_states.get(shard_name) {
            Some(s) => *s,
            None => {
                return Err(ShardError::NotFound);
            },
        };
        if current != ShardState::Running {
            return Err(ShardError::InvalidTransition { from: Some(current), attempted: "stop" });
        }
        let answer = self.platform.stop_namespace(shard_name);
        if answer.is_err() {
            return answer;
        }
        self.finish(shard_name, Some(current), Some(ShardState::Stopped), now_epoch_s, audit);
        answer
    }

    /// Destroys a stopped shard. The platform is asked first; its answer is
    /// handed back, and on a refusal nothing changes.
    pub fn destroy_shard(&mut self, shard_name: &str, now_epoch_s: u64, audit: &mut Vec<AuditEvent>) -> (r: Result<(), ShardError>)
        ensures
            final(self).boundary() == old(self).boundary(),
            if !old(self)@.states.contains_key(shard_name@) {
                r matches Err(ShardError::NotFound)
            } else if old(self)@.states[shard_name@] != ShardState::Stopped {
                r matches Err(ShardError::InvalidTransition { from, attempted })
                    && from == Some(old(self)@.states[shard_name@]) && attempted@ == "destroy"@
            } else {
                old(self).boundary().destroy_answer(shard_name@, r)
            },
            r is Ok ==> {
                &&& final(self)@.states == old(self)@.states.remove(shard_name@)
                &&& final(self)@.transitions == old(self)@.transitions.push(TransitionView {
                    shard_name: shard_name@,
                    from: Some(ShardState::Stopped),
                    to: None,
                    at_epoch_s: now_epoch_s,
                })
                &&& audit_view(final(audit)@) == audit_view(old(audit)@).push((
                    "shardd.transition"@,
                    transition_payload(shard_name@, Some(ShardState::Stopped), None),
                ))
            },
            r is Err ==> final(self)@ == old(self)@ && audit_view(final(audit)@) == audit_view(old(audit)@),
    {
        let current = match self.shard_states.get(shard_name) {
            Some(s) => *s,
            None => {
                return Err(ShardError::NotFound);
            },
        };
        if current != ShardState::Stopped {
            return Err(ShardError::InvalidTransition { from: Some(current), attempted: "destroy" });
        }
        let answer = self.platform.destroy_namespace(shard_name);
        if answer.is_err() {
            return answer;
        }
        self.finish(shard_name, Some(current), None, now_epoch_s, audit);
        answer
    }

    /// The state of a shard, if it exists.
    pub fn state_of(&self, shard_name: &str) -> (r: Option<ShardState>)
        ensures
            r == (if self@.states.contains_key(shard_name@) { Some(self@.states[shard_name@]) } else { None }),
    {
        match self.shard_states.get(shard_name) {
            Some(s) => Some(*s),
            None => None,
        }
    }

    /// The recorded history of changes, oldest first.
    pub fn transitions(&self) -> (r: &[ShardTransitionRecord])
        ensures
            transitions_view(r@) == self@.transitions,
    {
        self.transitions.as_slice()
    }

    /// A copy of everything this manager keeps between restarts.
    pub fn runtime_state(&self) -> (r: ShardRuntimeState)
        ensures
            r.shard_states@ == self@.states,
            transitions_view(r.transitions@) == self@.transitions,
    {
        let mut states: StrMap<ShardState> = StrMap::new();
        let entries = self.shard_states.entries();
        let mut i: usize = 0;
        while i < entries.len()
            invariant
                i <= entries@.len(),
                forall|j: int| #![trigger entries@[j]] 0 <= j < entries@.len() ==> self.shard_states@.contains_key(entries@[j].0@)
                    && self.shard_states@[entries@[j].0@] == entries@[j].1,
                forall|k: Seq<char>| #[trigger] self.shard_states@.contains_key(k) ==> exists|j: int|
                    0 <= j < entries@.len() && #[trigger] entries@[j].0@ == k,
                forall|a: int, b: int| 0 <= a < entries@.len() && 0 <= b < entries@.len() && a != b
                    ==> #[trigger] entries@[a].0@ != #[trigger] entries@[b].0@,
                forall|j: int| #![trigger entries@[j]] 0 <= j < i ==> states@.contains_key(entries@[j].0@)
                    && states@[entries@[j].0@] == entries@[j].1,
                forall|k: Seq<char>| #[trigger] states@.contains_key(k) ==> exists|j: int|
                    0 <= j < i && #[trigger] entries@[j].0@ == k,
            decreases entries@.len() - i,
        {
            states.insert(owned(entries[i].0.as_str()), entries[i].1);
            proof {
                assert forall|j: int| #![trigger entries@[j]] 0 <= j < i + 1 implies states@.contains_key(entries@[j].0@)
                    && states@[entries@[j].0@] == entries@[j].1 by {
                    if j < i {
                        assert(entries@[j].0@ != entries@[i as int].0@);
                    }
                }
                assert forall|k: Seq<char>| #[trigger] states@.contains_key(k) implies exists|j: int|
                    0 <= j < i + 1 && #[trigger] entries@[j].0@ == k by {
                    if k != entries@[i as int].0@ {
                        let j = choose|j: int| 0 <= j < i && #[trigger] entries@[j].0@ == k;
                    }
                }
            }
            i = i + 1;
        }
        proof {
            assert forall|k: Seq<char>| #[trigger] self.shard_states@.contains_key(k) implies states@.contains_key(k) by {
                let j = choose|j: int| 0 <= j < entries@.len() && #[trigger] entries@[j].0@ == k;
            }
            assert forall|k: Seq<char>| #[trigger] states@.contains_key(k) implies self.shard_states@.contains_key(k)
                && states@[k] == self.shard_states@[k] by {
                let j = choose|j: int| 0 <= j < i && #[trigger] entries@[j].0@ == k;
            }
            assert(states@ =~= self.shard_states@);
        }
        let mut transitions: Vec<ShardTransitionRecord> = Vec::new();
        let mut t: usize = 0;
        while t < self.transitions.len()
            invariant
                t <= self.transitions@.len(),
                transitions_view(transitions@) =~= transitions_view(self.transitions@.subrange(0, t as int)),
            decreases self.transitions@.len() - t,
        {
            let rec = &self.transitions[t];
            let ghost before = transitions@;
            transitions.push(ShardTransitionRecord {
                shard_name: owned(rec.shard_name.as_str()),
                from: rec.from,
                to: rec.to,
                at_epoch_s: rec.at_epoch_s,
            });
            proof {
                assert(transitions_view(transitions@) =~= transitions_view(before).push(self.transitions@[t as int]@));
                assert(transitions_view(self.transitions@.subrange(0, t + 1)) =~= transitions_view(
                    self.transitions@.subrange(0, t as int),
                ).push(self.transitions@[t as int]@));
            }
            t = t + 1;
        }
        proof { assert(self.transitions@.subrange(0, self.transitions@.len() as int) =~= self.transitions@); }
        ShardRuntimeState { shard_states: states, transitions }
    }

    /// Replaces the shard states and history by those of `state`.
    pub fn apply_runtime_state(&mut self, state: ShardRuntimeState)
        ensures
            final(self)@.states == state.shard_states@,
            final(self)@.transitions == transitions_view(state.transitions@),
            final(self).boundary() == old(self).boundary(),
    {
        self.shard_states = state.shard_states;
        self.transitions = state.transitions;
    }
}

/// Every step the lifecycle operations take is legal: create from nothing,
/// start from created or stopped, stop from running, destroy from stopped;
/// and destroying a shard that is not stopped, or starting a running one, is not.
pub proof fn lemma_lifecycle_steps_are_legal(s: ShardState)
    ensures
        legal_transition(None, Some(ShardState::Created)),
        s != ShardState::Running ==> legal_transition(Some(s), Some(ShardState::Running)),
        legal_transition(Some(ShardState::Running), Some(ShardState::Stopped)),
        legal_transition(Some(ShardState::Stopped), None),
        s != ShardState::Stopped ==> !legal_transition(Some(s), None),
        !legal_transition(Some(ShardState::Running), Some(ShardState::Running)),
{
}

} // verus!
