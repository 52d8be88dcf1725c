//! The network policy service: which profile each shard routes through,
//! the kill switch that overrides them all, and fail-closed handling of
//! backend failures.
use vstd::prelude::*;
use crate::audit::{audit_view, record, AuditEvent};
use crate::collections::StrMap;
use crate::net::backend::{answer_of, NetworkBackend};
use crate::net::profile::{profile_name, LeakCheckReport, LeakChecker, LeakReportView, NetworkPolicyError, RouteProfile};
use crate::text::{bool_str, bool_text, cat, cat3, dec_digits, decimal, owned};

verus! {

/// Everything the network service keeps between restarts.
pub struct NetworkRuntimeState {
    pub kill_switch_enabled: bool,
    pub route_profiles: StrMap<RouteProfile>,
}

/// The mathematical state of the network service.
pub struct NetworkView {
    pub kill_switch_enabled: bool,
    pub route_profiles: Map<Seq<char>, RouteProfile>,
}

/// The network policy service.
pub struct NetworkPolicyService<L: LeakChecker, B: NetworkBackend> {
    kill_switch_enabled: bool,
    route_profiles: StrMap<RouteProfile>,
    leak_checker: L,
    backend: B,
}

/// The report of a leak check on `shard_name`: clean while the kill switch
/// is on, failing closed without a profile, the checker's verdict otherwise.
pub open spec fn leak_report<L: LeakChecker>(checker: L, v: NetworkView, shard_name: Seq<char>) -> LeakReportView {
    if v.kill_switch_enabled {
        LeakReportView { clean: true, risk_score: 0, summary: shard_name + ":kill-switch-active"@ }
    } else if v.route_profiles.contains_key(shard_name) {
        checker.report_for(shard_name, v.route_profiles[shard_name])
    } else {
        LeakReportView { clean: false, risk_score: 100, summary: shard_name + ":fail-closed-no-profile"@ }
    }
}

/// What putting `shard_name` on `profile` did to the backend, from `before`
/// to `after`, given the service's answer `r`: a success is the backend's
/// success; a failure carries the backend's message, after which the
/// backend was asked to turn its kill switch on, whatever it answered.
pub open spec fn profile_call<B: NetworkBackend>(
    before: B,
    after: B,
    shard_name: Seq<char>,
    profile: RouteProfile,
    r: Result<(), NetworkPolicyError>,
) -> bool {
    match r {
        Ok(_) => before.profile_step(after, shard_name, profile, Ok(())),
        Err(NetworkPolicyError::BackendFailure(m)) => exists|mid: B, k: Result<(), Seq<char>>|
            #[trigger] before.profile_step(mid, shard_name, profile, Err(m@)) && #[trigger] mid.kill_switch_step(after, true, k),
        Err(_) => false,
    }
}

/// What turning the kill switch to `enabled` did to the backend, from
/// `before` to `after`, given the service's answer `r`: the backend's own
/// answer, a failure carrying its message.
pub open spec fn kill_switch_call<B: NetworkBackend>(before: B, after: B, enabled: bool, r: Result<(), NetworkPolicyError>) -> bool {
    match r {
        Ok(_) => before.kill_switch_step(after, enabled, Ok(())),
        Err(NetworkPolicyError::BackendFailure(m)) => before.kill_switch_step(after, enabled, Err(m@)),
        Err(_) => false,
    }
}

impl<L: LeakChecker, B: NetworkBackend> View for NetworkPolicyService<L, B> {
    type V = NetworkView;

    closed spec fn view(&self) -> NetworkView {
        NetworkView { kill_switch_enabled: self.kill_switch_enabled, route_profiles: self.route_profiles@ }
    }
}

impl<L: LeakChecker, B: NetworkBackend> NetworkPolicyService<L, B> {
    /// The leak checker in use.
    pub closed spec fn checker(&self) -> L {
        self.leak_checker
    }

    /// The backend in use.
    pub closed spec fn backend_state(&self) -> B {
        self.backend
    }

    /// A service with the kill switch off and no profiles.
    pub fn new(leak_checker: L, backend: B) -> (r: Self)
        ensures
            r@ == (NetworkView { kill_switch_enabled: false, route_profiles: Map::empty() }),
            r.checker() == leak_checker,
            r.backend_state() == backend,
    {
        NetworkPolicyService { kill_switch_enabled: false, route_profiles: StrMap::new(), leak_checker, backend }
    }

    /// Puts `shard_name` on `profile`, as the backend does. When the backend
    /// fails the service fails closed: the kill switch is turned on.
    pub fn apply_profile(&mut self, shard_name: &str, profile: RouteProfile, audit: &mut Vec<AuditEvent>)
        -> (r: Result<(), NetworkPolicyError>)
        ensures
            final(self).checker() == old(self).checker(),
            profile_call(old(self).backend_state(), final(self).backend_state(), shard_name@, profile, r),
            r is Ok ==> {
                &&& final(self)@ == (NetworkView {
                    route_profiles: old(self)@.route_profiles.insert(shard_name@, profile),
                    ..old(self)@
                })
                &&& audit_view(final(audit)@) == audit_view(old(audit)@).push((
                    "netd.profile.applied"@,
                    shard_name@ + ":"@ + profile_name(profile),
                ))
            },
            r is Err ==> {
                &&& r matches Err(NetworkPolicyError::BackendFailure(m))
                &&& final(self)@ == (NetworkView { kill_switch_enabled: true, ..old(self)@ })
                &&& audit_view(final(audit)@) == audit_view(old(audit)@).push(("netd.backend.failure"@, m@))
            },
    {
        match self.backend.apply_profile(shard_name, profile) {
            Ok(()) => {},
            Err(error) => {
                self.kill_switch_enabled = true;
                let ghost mid = self.backend;
                let killed = self.backend.set_kill_switch(true);
                proof {
                    assert(old(self).backend.profile_step(mid, shard_name@, profile, Err(error.message@)));
                    assert(mid.kill_switch_step(self.backend, true, answer_of(killed)));
                }
                record(audit, "netd.backend.failure", owned(error.message.as_str()));
                return Err(NetworkPolicyError::BackendFailure(error.message));
            },
        }
        self.route_profiles.insert(owned(shard_name), profile);
        record(audit, "netd.profile.applied", cat3(shard_name, ":", profile.as_str()));
        Ok(())
    }

    /// Turns the kill switch on or off, as the backend does. When the
    /// backend fails the kill switch is left on.
    pub fn set_kill_switch(&mut self, enabled: bool, audit: &mut Vec<AuditEvent>) -> (r: Result<(), NetworkPolicyError>)
        ensures
            final(self).checker() == old(self).checker(),
            kill_switch_call(old(self).backend_state(), final(self).backend_state(), enabled, r),
            final(self)@.route_profiles == old(self)@.route_profiles,
            r is Ok ==> {
                &&& final(self)@.kill_switch_enabled == enabled
                &&& audit_view(final(audit)@) == audit_view(old(audit)@).push((
                    "netd.kill-switch"@,
                    "enabled="@ + bool_text(enabled),
                ))
            },
            r is Err ==> {
                &&& r matches Err(NetworkPolicyError::BackendFailure(m))
                &&& final(self)@.kill_switch_enabled
                &&& audit_view(final(audit)@) == audit_view(old(audit)@).push(("netd.backend.failure"@, m@))
            },
    {
        match self.backend.set_kill_switch(enabled) {
            Ok(()) => {},
            Err(error) => {
                self.kill_switch_enabled = true;
                record(audit, "netd.backend.failure", owned(error.message.as_str()));
                return Err(NetworkPolicyError::BackendFailure(error.message));
            },
        }
        self.kill_switch_enabled = enabled;
        record(audit, "netd.kill-switch", cat("enabled=", bool_str(enabled)));
        Ok(())
    }

    /// The profile `shard_name` may route through: refused while the kill
    /// switch is on, without a profile, on Offline, and when the backend
    /// blocks egress.
    pub fn can_route(&self, shard_name: &str, audit: &mut Vec<AuditEvent>) -> (r: Result<RouteProfile, NetworkPolicyError>)
        ensures
            self@.kill_switch_enabled ==> {
                &&& r matches Err(NetworkPolicyError::KillSwitchEnabled)
                &&& audit_view(final(audit)@) == audit_view(old(audit)@).push(("netd.route.denied"@, "kill-switch-enabled"@))
            },
            !self@.kill_switch_enabled && !self@.route_profiles.contains_key(shard_name@) ==> {
                &&& r matches Err(NetworkPolicyError::NoProfile)
                &&& audit_view(final(audit)@) == audit_view(old(audit)@)
            },
            !self@.kill_switch_enabled && self@.route_profiles.contains_key(shard_name@) ==> {
                let p = self@.route_profiles[shard_name@];
                if p == RouteProfile::Offline {
                    &&& r matches Err(NetworkPolicyError::OfflineProfileBlocked)
                    &&& audit_view(final(audit)@) == audit_view(old(audit)@).push(("netd.route.denied"@, "offline-profile"@))
                } else if !self.backend_state().allows_egress(shard_name@, p, false) {
                    &&& r matches Err(NetworkPolicyError::EgressBlocked)
                    &&& audit_view(final(audit)@) == audit_view(old(audit)@).push(("netd.route.denied"@, "backend-egress-blocked"@))
                } else {
                    &&& r matches Ok(q)
                    &&& q == p
                    &&& audit_view(final(audit)@) == audit_view(old(audit)@).push((
                        "netd.route.allowed"@,
                        shard_name@ + ":"@ + profile_name(p),
                    ))
                }
            },
    {
        if self.kill_switch_enabled {
            record(audit, "netd.route.denied", owned("kill-switch-enabled"));
            return Err(NetworkPolicyError::KillSwitchEnabled);
        }
        let profile = match self.route_profiles.get(shard_name) {
            Some(p) => *p,
            None => {
                return Err(NetworkPolicyError::NoProfile);
            },
        };
        if profile == RouteProfile::Offline {
            record(audit, "netd.route.denied", owned("offline-profile"));
            return Err(NetworkPolicyError::OfflineProfileBlocked);
        }
        if !self.backend.can_egress(shard_name, profile, self.kill_switch_enabled) {
            record(audit, "netd.route.denied", owned("backend-egress-blocked"));
            return Err(NetworkPolicyError::EgressBlocked);
        }
        record(audit, "netd.route.allowed", cat3(shard_name, ":", profile.as_str()));
        Ok(profile)
    }

    /// Checks `shard_name` for leaks.
    pub fn run_leak_check(&self, shard_name: &str, audit: &mut Vec<AuditEvent>) -> (r: LeakCheckReport)
        ensures
            r@ == leak_report(self.checker(), self@, shard_name@),
            audit_view(final(audit)@) == audit_view(old(audit)@).push((
                "netd.leak-check"@,
                shard_name@ + ":clean="@ + bool_text(r.clean) + " score="@ + dec_digits(r.risk_score as nat),
            )),
    {
        let report = if self.kill_switch_enabled {
            LeakCheckReport { clean: true, risk_score: 0, summary: cat(shard_name, ":kill-switch-active") }
        } else {
            match self.route_profiles.get(shard_name) {
                Some(p) => self.leak_checker.run_check(shard_name, *p),
                None => LeakCheckReport { clean: false, risk_score: 100, summary: cat(shard_name, ":fail-closed-no-profile") },
            }
        };
        let a = cat3(shard_name, ":clean=", bool_str(report.clean));
        let payload = cat3(a.as_str(), " score=", decimal(report.risk_score as u64).as_str());
        record(audit, "netd.leak-check", payload);
        report
    }

    /// A copy of everything this service keeps between restarts.
    pub fn runtime_state(&self) -> (r: NetworkRuntimeState)
        ensures
            r.kill_switch_enabled == self@.kill_switch_enabled,
            r.route_profiles@ == self@.route_profiles,
    {
        let mut profiles: StrMap<RouteProfile> = StrMap::new();
        let entries = self.route_profiles.entries();
        let mut i: usize = 0;
        while i < entries.len()
            invariant
                i <= entries@.len(),
                forall|j: int| #![trigger entries@[j]] 0 <= j < entries@.len() ==> self.route_profiles@.contains_key(entries@[j].0@)
                    && self.route_profiles@[entries@[j].0@] == entries@[j].1,
                forall|k: Seq<char>| #[trigger] self.route_profiles@.contains_key(k) ==> exists|j: int|
                    0 <= j < entries@.len() && #[trigger] entries@[j].0@ == k,
                forall|a: int, b: int| 0 <= a < entries@.len() && 0 <= b < entries@.len() && a != b
                    ==> #[trigger] entries@[a].0@ != #[trigger] entries@[b].0@,
                forall|j: int| #![trigger entries@[j]] 0 <= j < i ==> profiles@.contains_key(entries@[j].0@)
                    && profiles@[entries@[j].0@] == entries@[j].1,
                forall|k: Seq<char>| #[trigger] profiles@.contains_key(k) ==> exists|j: int|
                    0 <= j < i && #[trigger] entries@[j].0@ == k,
            decreases entries@.len() - i,
        {
            profiles.insert(owned(entries[i].0.as_str()), entries[i].1);
            proof {
                assert forall|j: int| #![trigger entries@[j]] 0 <= j < i + 1 implies profiles@.contains_key(entries@[j].0@)
                    && profiles@[entries@[j].0@] == entries@[j].1 by {
                    if j < i {
                        assert(entries@[j].0@ != entries@[i as int].0@);
                    }
                }
                assert forall|k: Seq<char>| #[trigger] profiles@.contains_key(k) implies exists|j: int|
                    0 <= j < i + 1 && #[trigger] entries@[j].0@ == k by {
                    if k != entries@[i as int].0@ {
                        let j = choose|j: int| 0 <= j < i && #[trigger] entries@[j].0@ == k;
                    }
                }
            }
            i = i + 1;
        }
        proof {
            assert forall|k: Seq<char>| #[trigger] self.route_profiles@.contains_key(k) implies profiles@.contains_key(k) by {
                let j = choose|j: int| 0 <= j < entries@.len() && #[trigger] entries@[j].0@ == k;
            }
            assert forall|k: Seq<char>| #[trigger] profiles@.contains_key(k) implies self.route_profiles@.contains_key(k)
                && profiles@[k] == self.route_profiles@[k] by {
                let j = choose|j: int| 0 <= j < i && #[trigger] entries@[j].0@ == k;
            }
            assert(profiles@ =~= self.route_profiles@);
        }
        NetworkRuntimeState { kill_switch_enabled: self.kill_switch_enabled, route_profiles: profiles }
    }

    /// Restores the profiles and kill switch of `state`, first bringing the
    /// backend in line. When the backend fails the service fails closed.
    pub fn apply_runtime_state(&mut self, state: NetworkRuntimeState, audit: &mut Vec<AuditEvent>)
        -> (r: Result<(), NetworkPolicyError>)
        ensures
            final(self).checker() == old(self).checker(),
            r is Ok ==> {
                &&& final(self)@ == (NetworkView {
                    kill_switch_enabled: state.kill_switch_enabled,
                    route_profiles: state.route_profiles@,
                })
                &&& audit_view(final(audit)@) == audit_view(old(audit)@).push((
                    "netd.state.recovered"@,
                    "profiles="@ + dec_digits(state.route_profiles@.len()) + " kill_switch="@
                        + bool_text(state.kill_switch_enabled),
                ))
            },
            r is Err ==> {
                &&& r matches Err(NetworkPolicyError::BackendFailure(m))
                &&& final(self)@ == (NetworkView { kill_switch_enabled: true, ..old(self)@ })
                &&& audit_view(final(audit)@) == audit_view(old(audit)@).push(("netd.backend.failure"@, m@))
            },
    {
        let NetworkRuntimeState { kill_switch_enabled, route_profiles } = state;
        match self.backend.sync_state(&route_profiles, kill_switch_enabled) {
            Ok(()) => {},
            Err(error) => {
                self.kill_switch_enabled = true;
                let _ = self.backend.set_kill_switch(true);
                record(audit, "netd.backend.failure", owned(error.message.as_str()));
                return Err(NetworkPolicyError::BackendFailure(error.message));
            },
        }
        self.route_profiles = route_profiles;
        self.kill_switch_enabled = kill_switch_enabled;
        let count = self.route_profiles.len();
        let a = cat3("profiles=", decimal(count as u64).as_str(), " kill_switch=");
        record(audit, "netd.state.recovered", cat(a.as_str(), bool_str(self.kill_switch_enabled)));
        Ok(())
    }

    /// The profile of `shard_name`, if it has one.
    pub fn profile_of(&self, shard_name: &str) -> (r: Option<RouteProfile>)
        ensures
            r == (if self@.route_profiles.contains_key(shard_name@) {
                Some(self@.route_profiles[shard_name@])
            } else {
                None
            }),
    {
        match self.route_profiles.get(shard_name) {
            Some(p) => Some(*p),
            None => None,
        }
    }

    /// Whether the kill switch is on.
    pub fn kill_switch_enabled(&self) -> (r: bool)
        ensures
            r == self@.kill_switch_enabled,
    {
        self.kill_switch_enabled
    }

    /// The backend in use.
    pub fn backend(&self) -> (r: &B)
        ensures
            *r == self.backend_state(),
    {
        &self.backend
    }
}

} // verus!
