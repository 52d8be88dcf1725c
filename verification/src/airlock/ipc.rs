//! The airlock's request interface: which role each method needs, and how a
//! decoded request is carried out on the service.
use vstd::prelude::*;
use crate::airlock::mime::{mime_name, sniffed, SniffedMime};
use crate::airlock::pipeline::{ArtifactDescriptor, ReportView, SanitizerPipeline, SanitizerReport, HIGH_RISK_THRESHOLD};
use crate::airlock::service::{
    airlock_error_text, session_id_of, state_name, transfer_key_of, with_state, AirlockError,
    AirlockService, AirlockView, SessionView, TransferSessionState,
};
use crate::audit::{audit_view, AuditEvent};
use crate::ipc::{has_role, require_role, AuthContext, IpcError};
use crate::text::{owned, str_eq};

verus! {

/// Opens a session.
pub struct OpenTransferSessionPayload {
    pub source_shard: String,
    pub target_shard: String,
}

/// The session an open request created.
pub struct OpenTransferSessionResponse {
    pub session_id: String,
}

/// Scans an artifact in a session.
pub struct ScanTransferPayload {
    pub session_id: String,
    pub artifact: ArtifactDescriptor,
}

/// Names a session.
pub struct SessionPayload {
    pub session_id: String,
}

/// Rejects a session, with a reason.
pub struct RejectTransferPayload {
    pub session_id: String,
    pub reason: String,
}

/// Asks for a direct transfer.
pub struct DirectTransferPayload {
    pub source_shard: String,
    pub target_shard: String,
    pub artifact_id: String,
}

/// The state of a session, by name, if the session exists.
pub struct SessionStateResponse {
    pub state: Option<String>,
}

/// A decoded airlock request.
pub enum AirlockRequest {
    OpenTransferSession(OpenTransferSessionPayload),
    ScanArtifact(ScanTransferPayload),
    ApproveTransfer(SessionPayload),
    RejectTransfer(RejectTransferPayload),
    CommitTransfer(SessionPayload),
    RequestDirectTransfer(DirectTransferPayload),
    GetSessionState(SessionPayload),
}

/// The answer to a successful airlock request.
pub enum AirlockResponse {
    Opened(OpenTransferSessionResponse),
    Report(SanitizerReport),
    Approved,
    Rejected,
    Committed,
    Allowed,
    SessionState(SessionStateResponse),
}

/// The role a caller needs for each airlock method; `None` for an unknown method.
pub open spec fn airlock_role_of(method: Seq<char>) -> Option<Seq<char>> {
    if method == "OpenTransferSession"@ || method == "RequestDirectTransfer"@ {
        Some("airlock-submit"@)
    } else if method == "ScanArtifact"@ {
        Some("airlock-scan"@)
    } else if method == "ApproveTransfer"@ || method == "RejectTransfer"@ || method == "CommitTransfer"@ {
        Some("airlock-approve"@)
    } else if method == "GetSessionState"@ {
        Some("airlock-read"@)
    } else {
        None
    }
}

/// The role a caller needs for a decoded airlock request.
pub open spec fn airlock_request_role(request: AirlockRequest) -> Seq<char> {
    match request {
        AirlockRequest::OpenTransferSession(_) => "airlock-submit"@,
        AirlockRequest::RequestDirectTransfer(_) => "airlock-submit"@,
        AirlockRequest::ScanArtifact(_) => "airlock-scan"@,
        AirlockRequest::ApproveTransfer(_) => "airlock-approve"@,
        AirlockRequest::RejectTransfer(_) => "airlock-approve"@,
        AirlockRequest::CommitTransfer(_) => "airlock-approve"@,
        AirlockRequest::GetSessionState(_) => "airlock-read"@,
    }
}

impl AirlockRequest {
    /// The role a caller needs for this request.
    pub fn required_role(&self) -> (r: &'static str)
        ensures
            r@ == airlock_request_role(*self),
    {
        match self {
            AirlockRequest::OpenTransferSession(_) => "airlock-submit",
            AirlockRequest::RequestDirectTransfer(_) => "airlock-submit",
            AirlockRequest::ScanArtifact(_) => "airlock-scan",
            AirlockRequest::ApproveTransfer(_) => "airlock-approve",
            AirlockRequest::RejectTransfer(_) => "airlock-approve",
            AirlockRequest::CommitTransfer(_) => "airlock-approve",
            AirlockRequest::GetSessionState(_) => "airlock-read",
        }
    }
}

/// The role a caller needs to call `method`, or `None` when there is no such method.
pub fn airlock_method_role(method: &str) -> (r: Option<&'static str>)
    ensures
        match r {
            Some(role) => airlock_role_of(method@) == Some(role@),
            None => airlock_role_of(method@) is None,
        },
{
    if str_eq(method, "OpenTransferSession") || str_eq(method, "RequestDirectTransfer") {
        Some("airlock-submit")
    } else if str_eq(method, "ScanArtifact") {
        Some("airlock-scan")
    } else if str_eq(method, "ApproveTransfer") || str_eq(method, "RejectTransfer") || str_eq(method, "CommitTransfer") {
        Some("airlock-approve")
    } else if str_eq(method, "GetSessionState") {
        Some("airlock-read")
    } else {
        None
    }
}

/// The text of the error a missing or wrongly placed session gives, with the
/// state it was expected in.
pub open spec fn session_error_text(v: AirlockView, id: Seq<char>, expected: TransferSessionState) -> Seq<char> {
    if !v.sessions.contains_key(id) {
        "transfer session not found"@
    } else {
        "invalid session state: expected "@ + state_name(expected) + ", actual "@ + state_name(v.sessions[id].state)
    }
}

/// The airlock service together with the audit events it has produced.
pub struct AirlockIpcHandler<S: SanitizerPipeline> {
    pub service: AirlockService<S>,
    pub audit_log: Vec<AuditEvent>,
}

impl<S: SanitizerPipeline> AirlockIpcHandler<S> {
    /// A handler over `service`, with no audit events yet.
    pub fn new(service: AirlockService<S>) -> (r: Self)
        ensures
            r.service == service,
            r.audit_log@ == Seq::<AuditEvent>::empty(),
    {
        AirlockIpcHandler { service, audit_log: Vec::new() }
    }

    /// Carries out a decoded request for a caller that holds the role the
    /// request needs; any other caller is refused as unauthorized and nothing
    /// changes. A failure of the service is answered with its text.
    pub fn handle(&mut self, auth: &AuthContext, request: AirlockRequest) -> (r: Result<AirlockResponse, IpcError>)
        ensures
            final(self).service.pipeline() == old(self).service.pipeline(),
            !has_role(*auth, airlock_request_role(request)) ==> {
                &&& r matches Err(IpcError::Unauthorized { caller_id, required_role })
                &&& caller_id@ == auth.caller_id@ && required_role@ == airlock_request_role(request)
                &&& final(self).service@ == old(self).service@
                &&& final(self).audit_log@ == old(self).audit_log@
            },
            has_role(*auth, airlock_request_role(request)) ==> match request {
                AirlockRequest::OpenTransferSession(p) => {
                    &&& r matches Ok(AirlockResponse::Opened(resp))
                    &&& resp.session_id@ == session_id_of(old(self).service@.next_session_nonce)
                    &&& final(self).service@.sessions == old(self).service@.sessions.insert(resp.session_id@, SessionView {
                        session_id: resp.session_id@,
                        source_shard: p.source_shard@,
                        target_shard: p.target_shard@,
                        state: TransferSessionState::Open,
                        artifact: None,
                        scan_report: None,
                    })
                    &&& final(self).service@.approved_transfers == old(self).service@.approved_transfers
                    &&& final(self).service@.next_session_nonce == (if old(self).service@.next_session_nonce == u64::MAX {
                        u64::MAX
                    } else {
                        (old(self).service@.next_session_nonce + 1) as u64
                    })
                    &&& audit_view(final(self).audit_log@) == audit_view(old(self).audit_log@).push((
                        "airlockd.session.opened"@,
                        resp.session_id@ + ":"@ + p.source_shard@ + "->"@ + p.target_shard@,
                    ))
                },
                AirlockRequest::ScanArtifact(p) => {
                    let v = old(self).service@;
                    let id = p.session_id@;
                    let kind = sniffed(p.artifact@.content);
                    let out = old(self).service.pipeline().outcome(p.artifact@);
                    &&& final(self).service@.approved_transfers == v.approved_transfers
                    &&& final(self).service@.next_session_nonce == v.next_session_nonce
                    &&& if !v.sessions.contains_key(id) || v.sessions[id].state != TransferSessionState::Open {
                        &&& r matches Err(IpcError::Internal(m))
                        &&& m@ == session_error_text(v, id, TransferSessionState::Open)
                        &&& final(self).service@ == v
                        &&& audit_view(final(self).audit_log@) == audit_view(old(self).audit_log@)
                    } else if kind == SniffedMime::Unknown || kind == SniffedMime::Executable {
                        &&& r matches Err(IpcError::Internal(m))
                        &&& m@ == "unknown or unsafe MIME rejected: "@ + mime_name(kind)
                        &&& final(self).service@.sessions == v.sessions.insert(id, with_state(v.sessions[id], TransferSessionState::Rejected))
                        &&& audit_view(final(self).audit_log@) == audit_view(old(self).audit_log@).push((
                            "airlockd.session.rejected"@,
                            id + ":unknown-mime:"@ + mime_name(kind),
                        ))
                    } else if out.1.risk_score >= HIGH_RISK_THRESHOLD {
                        &&& r matches Err(IpcError::Internal(m))
                        &&& m@ == airlock_error_text(AirlockError::HighRiskRejected { risk_score: out.1.risk_score })
                        &&& final(self).service@.sessions == v.sessions.insert(id, SessionView {
                            state: TransferSessionState::Rejected,
                            artifact: Some(out.0),
                            scan_report: Some(out.1),
                            ..v.sessions[id]
                        })
                        &&& audit_view(final(self).audit_log@) == audit_view(old(self).audit_log@).push((
                            "airlockd.session.rejected"@,
                            id,
                        ))
                    } else {
                        &&& r matches Ok(AirlockResponse::Report(rep))
                        &&& rep@ == out.1
                        &&& final(self).service@.sessions == v.sessions.insert(id, SessionView {
                            state: TransferSessionState::Scanned,
                            artifact: Some(out.0),
                            scan_report: Some(out.1),
                            ..v.sessions[id]
                        })
                        &&& audit_view(final(self).audit_log@) == audit_view(old(self).audit_log@).push((
                            "airlockd.session.scanned"@,
                            id,
                        ))
                    }
                },
                AirlockRequest::ApproveTransfer(p) => {
                    let v = old(self).service@;
                    let id = p.session_id@;
                    if v.sessions.contains_key(id) && v.sessions[id].state == TransferSessionState::Scanned {
                        &&& r matches Ok(AirlockResponse::Approved)
                        &&& final(self).service@ == (AirlockView {
                            sessions: v.sessions.insert(id, with_state(v.sessions[id], TransferSessionState::Approved)),
                            ..v
                        })
                        &&& audit_view(final(self).audit_log@) == audit_view(old(self).audit_log@).push((
                            "airlockd.session.approved"@,
                            id,
                        ))
                    } else {
                        &&& r matches Err(IpcError::Internal(m))
                        &&& m@ == session_error_text(v, id, TransferSessionState::Scanned)
                        &&& final(self).service@ == v
                        &&& audit_view(final(self).audit_log@) == audit_view(old(self).audit_log@)
                    }
                },
                AirlockRequest::RejectTransfer(p) => {
                    let v = old(self).service@;
                    let id = p.session_id@;
                    if v.sessions.contains_key(id) && v.sessions[id].state != TransferSessionState::Committed
                        && v.sessions[id].state != TransferSessionState::Rejected {
                        &&& r matches Ok(AirlockResponse::Rejected)
                        &&& final(self).service@ == (AirlockView {
                            sessions: v.sessions.insert(id, with_state(v.sessions[id], TransferSessionState::Rejected)),
                            ..v
                        })
                        &&& audit_view(final(self).audit_log@) == audit_view(old(self).audit_log@).push((
                            "airlockd.session.rejected"@,
                            id + ":"@ + p.reason@,
                        ))
                    } else {
                        &&& r matches Err(IpcError::Internal(m))
                        &&& m@ == session_error_text(v, id, TransferSessionState::Open)
                        &&& final(self).service@ == v
                        &&& audit_view(final(self).audit_log@) == audit_view(old(self).audit_log@)
                    }
                },
                AirlockRequest::CommitTransfer(p) => {
                    let v = old(self).service@;
                    let id = p.session_id@;
                    if !v.sessions.contains_key(id) || v.sessions[id].state != TransferSessionState::Approved {
                        &&& r matches Err(IpcError::Internal(m))
                        &&& m@ == session_error_text(v, id, TransferSessionState::Approved)
                        &&& final(self).service@ == v
                        &&& audit_view(final(self).audit_log@) == audit_view(old(self).audit_log@)
                    } else if v.sessions[id].artifact is None {
                        &&& r matches Err(IpcError::Internal(m))
                        &&& m@ == "invalid session state: expected "@ + state_name(TransferSessionState::Scanned)
                            + ", actual "@ + state_name(TransferSessionState::Approved)
                        &&& final(self).service@ == v
                        &&& audit_view(final(self).audit_log@) == audit_view(old(self).audit_log@)
                    } else {
                        let s = v.sessions[id];
                        &&& r matches Ok(AirlockResponse::Committed)
                        &&& final(self).service@.sessions == v.sessions.insert(id, with_state(s, TransferSessionState::Committed))
                        &&& final(self).service@.approved_transfers == v.approved_transfers.insert(
                            transfer_key_of(s.source_shard, s.target_shard, s.artifact->Some_0.artifact_id))
                        &&& final(self).service@.next_session_nonce == v.next_session_nonce
                        &&& audit_view(final(self).audit_log@) == audit_view(old(self).audit_log@).push((
                            "airlockd.session.committed"@,
                            id,
                        ))
                    }
                },
                AirlockRequest::RequestDirectTransfer(p) => {
                    let key = transfer_key_of(p.source_shard@, p.target_shard@, p.artifact_id@);
                    &&& final(self).service@ == old(self).service@
                    &&& if old(self).service@.approved_transfers.contains(key) {
                        &&& r matches Ok(AirlockResponse::Allowed)
                        &&& audit_view(final(self).audit_log@) == audit_view(old(self).audit_log@).push((
                            "airlockd.transfer.allowed"@,
                            key,
                        ))
                    } else {
                        &&& r matches Err(IpcError::Internal(m)) && m@ == "direct cross-shard transfer denied"@
                        &&& audit_view(final(self).audit_log@) == audit_view(old(self).audit_log@).push((
                            "airlockd.transfer.denied"@,
                            key,
                        ))
                    }
                },
                AirlockRequest::GetSessionState(p) => {
                    let v = old(self).service@;
                    &&& final(self).service@ == v
                    &&& audit_view(final(self).audit_log@) == audit_view(old(self).audit_log@)
                    &&& r matches Ok(AirlockResponse::SessionState(resp))
                    &&& if v.sessions.contains_key(p.session_id@) {
                        resp.state matches Some(name) && name@ == state_name(v.sessions[p.session_id@].state)
                    } else {
                        resp.state is None
                    }
                },
            },
    {
        match require_role(auth, request.required_role()) {
            Ok(()) => {},
            Err(e) => {
                return Err(e);
            },
        }
        match request {
            AirlockRequest::OpenTransferSession(p) => {
                let session_id = self.service.open_session(
                    p.source_shard.as_str(),
                    p.target_shard.as_str(),
                    &mut self.audit_log,
                );
                Ok(AirlockResponse::Opened(OpenTransferSessionResponse { session_id }))
            },
            AirlockRequest::ScanArtifact(p) => {
                let ScanTransferPayload { session_id, artifact } = p;
                match self.service.scan_session(session_id.as_str(), artifact, &mut self.audit_log) {
                    Ok(report) => Ok(AirlockResponse::Report(report)),
                    Err(e) => Err(IpcError::Internal(e.message())),
                }
            },
            AirlockRequest::ApproveTransfer(p) => {
                match self.service.approve_session(p.session_id.as_str(), &mut self.audit_log) {
                    Ok(()) => Ok(AirlockResponse::Approved),
                    Err(e) => Err(IpcError::Internal(e.message())),
                }
            },
            AirlockRequest::RejectTransfer(p) => {
                match self.service.reject_session(p.session_id.as_str(), p.reason.as_str(), &mut self.audit_log) {
                    Ok(()) => Ok(AirlockResponse::Rejected),
                    Err(e) => Err(IpcError::Internal(e.message())),
                }
            },
            AirlockRequest::CommitTransfer(p) => {
                match self.service.commit_session(p.session_id.as_str(), &mut self.audit_log) {
                    Ok(()) => Ok(AirlockResponse::Committed),
                    Err(e) => Err(IpcError::Internal(e.message())),
                }
            },
            AirlockRequest::RequestDirectTransfer(p) => {
                match self.service.request_direct_transfer(
                    p.source_shard.as_str(),
                    p.target_shard.as_str(),
                    p.artifact_id.as_str(),
                    &mut self.audit_log,
                ) {
                    Ok(()) => Ok(AirlockResponse::Allowed),
                    Err(e) => Err(IpcError::Internal(e.message())),
                }
            },
            AirlockRequest::GetSessionState(p) => {
                let state = match self.service.session_state(p.session_id.as_str()) {
                    Some(s) => Some(owned(s.name())),
                    None => None,
                };
                Ok(AirlockResponse::SessionState(SessionStateResponse { state }))
            },
        }
    }
}

} // verus!
