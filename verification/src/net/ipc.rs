//! The network service's request interface.
use vstd::prelude::*;
use crate::audit::{audit_view, AuditEvent};
use crate::ipc::{has_role, require_role, AuthContext, IpcError};
use crate::net::backend::NetworkBackend;
use crate::net::profile::{
    network_error_text, profile_name, profile_named, LeakCheckReport, LeakChecker, NetworkPolicyError, RouteProfile,
};
use crate::net::service::{kill_switch_call, leak_report, profile_call, NetworkPolicyService, NetworkView};
use crate::text::{bool_text, cat, owned, str_eq};

verus! {

/// Puts a shard on a profile, named as text.
pub struct ApplyRouteProfilePayload {
    pub shard_name: String,
    pub profile: String,
}

/// Turns the kill switch on or off.
pub struct SetKillSwitchPayload {
    pub enabled: bool,
}

/// Names a shard to check for leaks.
pub struct LeakCheckPayload {
    pub shard_name: String,
}

/// Names a shard whose route is asked for.
pub struct RouteStatePayload {
    pub shard_name: String,
}

/// A shard's profile, by name, and the kill switch.
pub struct RouteStateResponse {
    pub profile: Option<String>,
    pub kill_switch_enabled: bool,
}

/// A decoded network request.
pub enum NetworkRequest {
    ApplyRouteProfile(ApplyRouteProfilePayload),
    SetKillSwitch(SetKillSwitchPayload),
    RunLeakCheck(LeakCheckPayload),
    GetRouteState(RouteStatePayload),
}

/// The answer to a successful network request.
pub enum NetworkResponse {
    Applied,
    KillSwitch { enabled: bool },
    LeakCheck(LeakCheckReport),
    RouteState(RouteStateResponse),
}

/// The role a caller needs for each network method; `None` for an unknown method.
pub open spec fn network_role_of(method: Seq<char>) -> Option<Seq<char>> {
    if method == "ApplyRouteProfile"@ || method == "SetKillSwitch"@ {
        Some("network-admin"@)
    } else if method == "RunLeakCheck"@ || method == "GetRouteState"@ {
        Some("network-read"@)
    } else {
        None
    }
}

/// The role a caller needs for a decoded network request.
pub open spec fn network_request_role(request: NetworkRequest) -> Seq<char> {
    match request {
        NetworkRequest::ApplyRouteProfile(_) => "network-admin"@,
        NetworkRequest::SetKillSwitch(_) => "network-admin"@,
        NetworkRequest::RunLeakCheck(_) => "network-read"@,
        NetworkRequest::GetRouteState(_) => "network-read"@,
    }
}

impl NetworkRequest {
    /// The role a caller needs for this request.
    pub fn required_role(&self) -> (r: &'static str)
        ensures
            r@ == network_request_role(*self),
    {
        match self {
            NetworkRequest::ApplyRouteProfile(_) => "network-admin",
            NetworkRequest::SetKillSwitch(_) => "network-admin",
            NetworkRequest::RunLeakCheck(_) => "network-read",
            NetworkRequest::GetRouteState(_) => "network-read",
        }
    }
}

/// The role a caller needs to call `method`, or `None` when there is no such method.
pub fn network_method_role(method: &str) -> (r: Option<&'static str>)
    ensures
        match r {
            Some(role) => network_role_of(method@) == Some(role@),
            None => network_role_of(method@) is None,
        },
{
    if str_eq(method, "ApplyRouteProfile") || str_eq(method, "SetKillSwitch") {
        Some("network-admin")
    } else if str_eq(method, "RunLeakCheck") || str_eq(method, "GetRouteState") {
        Some("network-read")
    } else {
        None
    }
}

/// The network service together with the audit events it has produced.
pub struct NetworkIpcHandler<L: LeakChecker, B: NetworkBackend> {
    pub service: NetworkPolicyService<L, B>,
    pub audit_log: Vec<AuditEvent>,
}

impl<L: LeakChecker, B: NetworkBackend> NetworkIpcHandler<L, B> {
    /// A handler over `service`, with no audit events yet.
    pub fn new(service: NetworkPolicyService<L, B>) -> (r: Self)
        ensures
            r.service == service,
            r.audit_log@ == Seq::<AuditEvent>::empty(),
    {
        NetworkIpcHandler { service, audit_log: Vec::new() }
    }

    /// Carries out a decoded request for a caller that holds the role the
    /// request needs; any other caller is refused as unauthorized and nothing
    /// changes. A profile or kill-switch request succeeds exactly when the
    /// backend does; when it fails the kill switch is left on.
    pub fn handle(&mut self, auth: &AuthContext, request: NetworkRequest) -> (r: Result<NetworkResponse, IpcError>)
        ensures
            final(self).service.checker() == old(self).service.checker(),
            !has_role(*auth, network_request_role(request)) ==> {
                &&& r matches Err(IpcError::Unauthorized { caller_id, required_role })
                &&& caller_id@ == auth.caller_id@ && required_role@ == network_request_role(request)
                &&& final(self).service@ == old(self).service@
                &&& final(self).audit_log@ == old(self).audit_log@
            },
            has_role(*auth, network_request_role(request)) ==> match request {
                NetworkRequest::ApplyRouteProfile(p) => match profile_named(p.profile@) {
                    None => {
                        &&& r matches Err(IpcError::InvalidPayload(m))
                        &&& m@ == "failed to parse route profile: "@ + "backend failure: "@
                            + "unsupported profile: "@ + p.profile@
                        &&& final(self).service@ == old(self).service@
                    },
                    Some(profile) => {
                        &&& r is Ok ==> profile_call(old(self).service.backend_state(), final(self).service.backend_state(),
                            p.shard_name@, profile, Ok(()))
                        &&& r matches Err(IpcError::Internal(m)) ==> exists|e: NetworkPolicyError| #[trigger] profile_call(
                            old(self).service.backend_state(), final(self).service.backend_state(), p.shard_name@, profile,
                            Err(e)) && m@ == network_error_text(e)
                        &&& r is Ok ==> (r matches Ok(NetworkResponse::Applied) && final(self).service@ == (NetworkView {
                            route_profiles: old(self).service@.route_profiles.insert(p.shard_name@, profile),
                            ..old(self).service@
                        }))
                        &&& r is Err ==> (r matches Err(IpcError::Internal(_))
                            && final(self).service@ == (NetworkView { kill_switch_enabled: true, ..old(self).service@ }))
                    },
                },
                NetworkRequest::SetKillSwitch(p) => {
                    &&& r is Ok ==> kill_switch_call(old(self).service.backend_state(), final(self).service.backend_state(),
                        p.enabled, Ok(()))
                    &&& r matches Err(IpcError::Internal(m)) ==> exists|e: NetworkPolicyError| #[trigger] kill_switch_call(
                        old(self).service.backend_state(), final(self).service.backend_state(), p.enabled, Err(e))
                        && m@ == network_error_text(e)
                    &&& r is Ok ==> (r matches Ok(NetworkResponse::KillSwitch { enabled })
                        && enabled == p.enabled && final(self).service@.kill_switch_enabled == p.enabled)
                    &&& r is Err ==> (r matches Err(IpcError::Internal(_)) && final(self).service@.kill_switch_enabled)
                    &&& final(self).service@.route_profiles == old(self).service@.route_profiles
                },
                NetworkRequest::RunLeakCheck(p) => {
                    &&& r matches Ok(NetworkResponse::LeakCheck(report))
                    &&& report@ == leak_report(old(self).service.checker(), old(self).service@, p.shard_name@)
                    &&& final(self).service@ == old(self).service@
                },
                NetworkRequest::GetRouteState(p) => {
                    let v = old(self).service@;
                    &&& r matches Ok(NetworkResponse::RouteState(resp))
                    &&& resp.kill_switch_enabled == v.kill_switch_enabled
                    &&& if v.route_profiles.contains_key(p.shard_name@) {
                        resp.profile matches Some(name) && name@ == profile_name(v.route_profiles[p.shard_name@])
                    } else {
                        resp.profile is None
                    }
                    &&& final(self).service@ == v
                    &&& audit_view(final(self).audit_log@) == audit_view(old(self).audit_log@)
                },
            },
    {
        match require_role(auth, request.required_role()) {
            Ok(()) => {},
            Err(e) => {
                return Err(e);
            },
        }
        match request {
            NetworkRequest::ApplyRouteProfile(p) => {
                let profile = match RouteProfile::parse(p.profile.as_str()) {
                    Ok(profile) => profile,
                    Err(error) => {
                        return Err(IpcError::InvalidPayload(cat(
                            "failed to parse route profile: ",
                            error.message().as_str(),
                        )));
                    },
                };
                let answer = self.service.apply_profile(p.shard_name.as_str(), profile, &mut self.audit_log);
                let ghost a = answer;
                match answer {
                    Ok(()) => {
                        proof {
                            assert(a->Ok_0 == ());
                            assert(a == Ok::<(), NetworkPolicyError>(()));
                        }
                        Ok(NetworkResponse::Applied)
                    },
                    Err(e) => {
                        proof {
                            assert(a == Err::<(), NetworkPolicyError>(e));
                            assert(profile_call(old(self).service.backend_state(), self.service.backend_state(), p.shard_name@, profile, Err(e)));
                        }
                        Err(IpcError::Internal(e.message()))
                    },
                }
            },
            NetworkRequest::SetKillSwitch(p) => {
                let answer = self.service.set_kill_switch(p.enabled, &mut self.audit_log);
                let ghost a = answer;
                match answer {
                    Ok(()) => {
                        proof {
                            assert(a->Ok_0 == ());
                            assert(a == Ok::<(), NetworkPolicyError>(()));
                        }
                        Ok(NetworkResponse::KillSwitch { enabled: p.enabled })
                    },
                    Err(e) => {
                        proof {
                            assert(a == Err::<(), NetworkPolicyError>(e));
                        }
                        Err(IpcError::Internal(e.message()))
                    },
                }
            },
            NetworkRequest::RunLeakCheck(p) => {
                let report = self.service.run_leak_check(p.shard_name.as_str(), &mut self.audit_log);
                Ok(NetworkResponse::LeakCheck(report))
            },
            NetworkRequest::GetRouteState(p) => {
                let profile = match self.service.profile_of(p.shard_name.as_str()) {
                    Some(profile) => Some(owned(profile.as_str())),
                    None => None,
                };
                let kill_switch_enabled = self.service.kill_switch_enabled();
                Ok(NetworkResponse::RouteState(RouteStateResponse { profile, kill_switch_enabled }))
            },
        }
    }
}

} // verus!
