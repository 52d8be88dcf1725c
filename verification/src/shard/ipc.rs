//! The shard manager's request interface.
use vstd::prelude::*;
use crate::audit::{audit_view, AuditEvent};
use crate::ipc::{has_role, require_role, AuthContext, IpcError};
use crate::shard::manager::{
    opt_state_debug, shard_error_text, shard_state_name, NamespaceBoundary, ShardError, ShardManager, ShardManagerView, ShardState, TransitionView,
};
use crate::text::{owned, str_eq};

verus! {

/// Names a shard and the time of a lifecycle request.
pub struct ShardLifecyclePayload {
    pub shard_name: String,
    pub now_epoch_s: u64,
}

/// Names a shard.
pub struct ShardStatePayload {
    pub shard_name: String,
}

/// The state of a shard, by name, if the shard exists.
pub struct ShardStateResponse {
    pub state: Option<String>,
}

/// A decoded shard request.
pub enum ShardRequest {
    CreateShard(ShardLifecyclePayload),
    StartShard(ShardLifecyclePayload),
    StopShard(ShardLifecyclePayload),
    DestroyShard(ShardLifecyclePayload),
    GetShardState(ShardStatePayload),
}

/// The answer to a successful shard request.
pub enum ShardResponse {
    Created,
    Started,
    Stopped,
    Destroyed,
    State(ShardStateResponse),
}

/// The role a caller needs for each shard method; `None` for an unknown method.
pub open spec fn shard_role_of(method: Seq<char>) -> Option<Seq<char>> {
    if method == "CreateShard"@ || method == "StartShard"@ || method == "StopShard"@ || method == "DestroyShard"@ {
        Some("shard-admin"@)
    } else if method == "GetShardState"@ {
        Some("shard-read"@)
    } else {
        None
    }
}

/// The role a caller needs for a decoded shard request.
pub open spec fn shard_request_role(request: ShardRequest) -> Seq<char> {
    match request {
        ShardRequest::GetShardState(_) => "shard-read"@,
        _ => "shard-admin"@,
    }
}

impl ShardRequest {
    /// The role a caller needs for this request.
    pub fn required_role(&self) -> (r: &'static str)
        ensures
            r@ == shard_request_role(*self),
    {
        match self {
            ShardRequest::GetShardState(_) => "shard-read",
            _ => "shard-admin",
        }
    }
}

/// Whether `r` refuses a request with a failure whose text is `text`.
pub open spec fn failed_with(r: Result<ShardResponse, IpcError>, text: Seq<char>) -> bool {
    r matches Err(IpcError::Internal(m)) && m@ == text
}

/// The role a caller needs to call `method`, or `None` when there is no such method.
pub fn shard_method_role(method: &str) -> (r: Option<&'static str>)
    ensures
        match r {
            Some(role) => shard_role_of(method@) == Some(role@),
            None => shard_role_of(method@) is None,
        },
{
    if str_eq(method, "CreateShard") || str_eq(method, "StartShard") || str_eq(method, "StopShard")
        || str_eq(method, "DestroyShard") {
        Some("shard-admin")
    } else if str_eq(method, "GetShardState") {
        Some("shard-read")
    } else {
        None
    }
}

/// The shard manager together with the audit events it has produced.
pub struct ShardIpcHandler<P: NamespaceBoundary> {
    pub manager: ShardManager<P>,
    pub audit_log: Vec<AuditEvent>,
}

/// A lifecycle step from `from` to `to` of `name` at `at`.
pub open spec fn stepped(v: ShardManagerView, name: Seq<char>, from: Option<ShardState>, to: Option<ShardState>, at: u64) -> ShardManagerView {
    ShardManagerView {
        states: match to {
            Some(s) => v.states.insert(name, s),
            None => v.states.remove(name),
        },
        transitions: v.transitions.push(TransitionView { shard_name: name, from, to, at_epoch_s: at }),
    }
}

impl<P: NamespaceBoundary> ShardIpcHandler<P> {
    /// A handler over `manager`, with no audit events yet.
    pub fn new(manager: ShardManager<P>) -> (r: Self)
        ensures
            r.manager == manager,
            r.audit_log@ == Seq::<AuditEvent>::empty(),
    {
        ShardIpcHandler { manager, audit_log: Vec::new() }
    }

    /// Carries out a decoded request for a caller that holds the role the
    /// request needs; any other caller is refused as unauthorized and nothing
    /// changes. A lifecycle step the manager allows is asked of the platform
    /// first; a failure is answered with the text of the manager's error.
    pub fn handle(&mut self, auth: &AuthContext, request: ShardRequest) -> (r: Result<ShardResponse, IpcError>)
        ensures
            final(self).manager.boundary() == old(self).manager.boundary(),
            r is Err ==> final(self).manager@ == old(self).manager@
                && audit_view(final(self).audit_log@) == audit_view(old(self).audit_log@),
            !has_role(*auth, shard_request_role(request)) ==> {
                &&& r matches Err(IpcError::Unauthorized { caller_id, required_role })
                &&& caller_id@ == auth.caller_id@ && required_role@ == shard_request_role(request)
                &&& final(self).audit_log@ == old(self).audit_log@
            },
            has_role(*auth, shard_request_role(request)) ==> match request {
                ShardRequest::CreateShard(p) => {
                    let v = old(self).manager@;
                    let n = p.shard_name@;
                    if v.states.contains_key(n) {
                        failed_with(r, "shard already exists"@)
                    } else {
                        match r {
                            Ok(_) => r matches Ok(ShardResponse::Created)
                                && old(self).manager.boundary().create_answer(n, Ok(()))
                                && final(self).manager@ == stepped(v, n, None, Some(ShardState::Created), p.now_epoch_s),
                            Err(IpcError::Internal(m)) => exists|e: ShardError| #[trigger] old(self).manager.boundary().create_answer(n, Err(e))
                                && m@ == shard_error_text(e),
                            _ => false,
                        }
                    }
                },
                ShardRequest::StartShard(p) => {
                    let v = old(self).manager@;
                    let n = p.shard_name@;
                    if !v.states.contains_key(n) {
                        failed_with(r, "shard not found"@)
                    } else if v.states[n] == ShardState::Running {
                        failed_with(r, "invalid transition from "@ + opt_state_debug(Some(ShardState::Running)) + " via "@ + "start"@)
                    } else {
                        match r {
                            Ok(_) => r matches Ok(ShardResponse::Started)
                                && old(self).manager.boundary().start_answer(n, Ok(()))
                                && final(self).manager@ == stepped(v, n, Some(v.states[n]), Some(ShardState::Running), p.now_epoch_s),
                            Err(IpcError::Internal(m)) => exists|e: ShardError| #[trigger] old(self).manager.boundary().start_answer(n, Err(e))
                                && m@ == shard_error_text(e),
                            _ => false,
                        }
                    }
                },
                ShardRequest::StopShard(p) => {
                    let v = old(self).manager@;
                    let n = p.shard_name@;
                    if !v.states.contains_key(n) {
                        failed_with(r, "shard not found"@)
                    } else if v.states[n] != ShardState::Running {
                        failed_with(r, "invalid transition from "@ + opt_state_debug(Some(v.states[n])) + " via "@ + "stop"@)
                    } else {
                        match r {
                            Ok(_) => r matches Ok(ShardResponse::Stopped)
                                && old(self).manager.boundary().stop_answer(n, Ok(()))
                                && final(self).manager@ == stepped(v, n, Some(ShardState::Running), Some(ShardState::Stopped), p.now_epoch_s),
                            Err(IpcError::Internal(m)) => exists|e: ShardError| #[trigger] old(self).manager.boundary().stop_answer(n, Err(e))
                                && m@ == shard_error_text(e),
                            _ => false,
                        }
                    }
                },
                ShardRequest::DestroyShard(p) => {
                    let v = old(self).manager@;
                    let n = p.shard_name@;
                    if !v.states.contains_key(n) {
                        failed_with(r, "shard not found"@)
                    } else if v.states[n] != ShardState::Stopped {
                        failed_with(r, "invalid transition from "@ + opt_state_debug(Some(v.states[n])) + " via "@ + "destroy"@)
                    } else {
                        match r {
                            Ok(_) => r matches Ok(ShardResponse::Destroyed)
                                && old(self).manager.boundary().destroy_answer(n, Ok(()))
                                && final(self).manager@ == stepped(v, n, Some(ShardState::Stopped), None, p.now_epoch_s),
                            Err(IpcError::Internal(m)) => exists|e: ShardError| #[trigger] old(self).manager.boundary().destroy_answer(n, Err(e))
                                && m@ == shard_error_text(e),
                            _ => false,
                        }
                    }
                },
                ShardRequest::GetShardState(p) => {
                    let v = old(self).manager@;
                    &&& final(self).manager@ == v
                    &&& r matches Ok(ShardResponse::State(resp))
                    &&& if v.states.contains_key(p.shard_name@) {
                        resp.state matches Some(name) && name@ == shard_state_name(v.states[p.shard_name@])
                    } else {
                        resp.state is None
                    }
                },
            },
    {
        match require_role(auth, request.required_role()) {
            Ok(()) => {},
            Err(e) => {
                return Err(e);
            },
        }
        match request {
            ShardRequest::CreateShard(p) => {
                let answer = self.manager.create_shard(p.shard_name.as_str(), p.now_epoch_s, &mut self.audit_log);
                let ghost a = answer;
                match answer {
                    Ok(()) => {
                        proof {
                            assert(a->Ok_0 == ());
                            assert(a == Ok::<(), ShardError>(()));
                        }
                        Ok(ShardResponse::Created)
                    },
                    Err(e) => {
                        proof {
                            assert(a == Err::<(), ShardError>(e));
                        }
                        Err(IpcError::Internal(e.message()))
                    },
                }
            },
            ShardRequest::StartShard(p) => {
                let answer = self.manager.start_shard(p.shard_name.as_str(), p.now_epoch_s, &mut self.audit_log);
                let ghost a = answer;
                match answer {
                    Ok(()) => {
                        proof {
                            assert(a->Ok_0 == ());
                            assert(a == Ok::<(), ShardError>(()));
                        }
                        Ok(ShardResponse::Started)
                    },
                    Err(e) => {
                        proof {
                            assert(a == Err::<(), ShardError>(e));
                        }
                        Err(IpcError::Internal(e.message()))
                    },
                }
            },
            ShardRequest::StopShard(p) => {
                let answer = self.manager.stop_shard(p.shard_name.as_str(), p.now_epoch_s, &mut self.audit_log);
                let ghost a = answer;
                match answer {
                    Ok(()) => {
                        proof {
                            assert(a->Ok_0 == ());
                            assert(a == Ok::<(), ShardError>(()));
                        }
                        Ok(ShardResponse::Stopped)
                    },
                    Err(e) => {
                        proof {
                            assert(a == Err::<(), ShardError>(e));
                        }
                        Err(IpcError::Internal(e.message()))
                    },
                }
            },
            ShardRequest::DestroyShard(p) => {
                let answer = self.manager.destroy_shard(p.shard_name.as_str(), p.now_epoch_s, &mut self.audit_log);
                let ghost a = answer;
                match answer {
                    Ok(()) => {
                        proof {
                            assert(a->Ok_0 == ());
                            assert(a == Ok::<(), ShardError>(()));
                        }
                        Ok(ShardResponse::Destroyed)
                    },
                    Err(e) => {
                        proof {
                            assert(a == Err::<(), ShardError>(e));
                        }
                        Err(IpcError::Internal(e.message()))
                    },
                }
            },
            ShardRequest::GetShardState(p) => {
                let state = match self.manager.state_of(p.shard_name.as_str()) {
                    Some(s) => Some(owned(s.name())),
                    None => None,
                };
                Ok(ShardResponse::State(ShardStateResponse { state }))
            },
        }
    }
}

} // verus!
