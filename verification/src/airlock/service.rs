//! Transfer sessions: open, scan, approve or reject, commit; and the rule
//! that a direct cross-shard transfer needs a committed session.
use vstd::prelude::*;
use crate::airlock::mime::{mime_name, sniff_mime, sniffed, SniffedMime};
use crate::airlock::pipeline::{
    ArtifactDescriptor, ArtifactView, ReportView, SanitizerPipeline, SanitizerReport,
    HIGH_RISK_THRESHOLD,
};
use crate::audit::{audit_view, record, AuditEvent};
use crate::collections::{StrMap, StrSet};
use crate::text::{cat, cat3, dec_digits, decimal, hex16, hex_digits, owned};

verus! {

/// Where a transfer session stands.
#[derive(Debug, Clone, Copy, PartialEq, Eq, Structural)]
pub enum TransferSessionState {
    Open,
    Scanned,
    Approved,
    Rejected,
    Committed,
}

/// One transfer of an artifact from a source shard to a target shard.
pub struct TransferSession {
    pub session_id: String,
    pub source_shard: String,
    pub target_shard: String,
    pub state: TransferSessionState,
    pub artifact: Option<ArtifactDescriptor>,
    pub scan_report: Option<SanitizerReport>,
}

/// The mathematical content of a session.
pub struct SessionView {
    pub session_id: Seq<char>,
    pub source_shard: Seq<char>,
    pub target_shard: Seq<char>,
    pub state: TransferSessionState,
    pub artifact: Option<ArtifactView>,
    pub scan_report: Option<ReportView>,
}

/// The view of an optional artifact.
pub open spec fn opt_artifact_view(a: Option<ArtifactDescriptor>) -> Option<ArtifactView> {
    match a {
        Some(x) => Some(x@),
        None => None,
    }
}

/// The view of an optional report.
pub open spec fn opt_report_view(r: Option<SanitizerReport>) -> Option<ReportView> {
    match r {
        Some(x) => Some(x@),
        None => None,
    }
}

impl View for TransferSession {
    type V = SessionView;

    open spec fn view(&self) -> SessionView {
        SessionView {
            session_id: self.session_id@,
            source_shard: self.source_shard@,
            target_shard: self.target_shard@,
            state: self.state,
            artifact: opt_artifact_view(self.artifact),
            scan_report: opt_report_view(self.scan_report),
        }
    }
}

impl TransferSession {
    /// A field-by-field copy.
    pub fn duplicate(&self) -> (r: Self)
        ensures
            r@ == self@,
    {
        TransferSession {
            session_id: owned(self.session_id.as_str()),
            source_shard: owned(self.source_shard.as_str()),
            target_shard: owned(self.target_shard.as_str()),
            state: self.state,
            artifact: match &self.artifact {
                Some(a) => Some(a.duplicate()),
                None => None,
            },
            scan_report: match &self.scan_report {
                Some(r) => Some(r.duplicate()),
                None => None,
            },
        }
    }
}

/// The views of the sessions of a map.
pub open spec fn sessions_view(m: Map<Seq<char>, TransferSession>) -> Map<Seq<char>, SessionView> {
    m.map_values(|s: TransferSession| s@)
}

/// Everything an airlock keeps between restarts.
pub struct AirlockRuntimeState {
    pub sessions: StrMap<TransferSession>,
    pub approved_transfers: StrSet,
    pub next_session_nonce: u64,
}

/// Why an airlock operation failed.
#[derive(Debug)]
pub enum AirlockError {
    SessionNotFound,
    InvalidState { expected: TransferSessionState, actual: TransferSessionState },
    UnknownMimeRejected { sniffed_mime: String },
    HighRiskRejected { risk_score: u8 },
    DirectTransferDenied,
    PersistenceFailure(String),
}

/// The text of an airlock error.
pub open spec fn airlock_error_text(e: AirlockError) -> Seq<char> {
    match e {
        AirlockError::SessionNotFound => "transfer session not found"@,
        AirlockError::InvalidState { expected, actual } => "invalid session state: expected "@
            + state_name(expected) + ", actual "@ + state_name(actual),
        AirlockError::UnknownMimeRejected { sniffed_mime } => "unknown or unsafe MIME rejected: "@
            + sniffed_mime@,
        AirlockError::HighRiskRejected { risk_score } => "artifact rejected for high risk score "@
            + dec_digits(risk_score as nat),
        AirlockError::DirectTransferDenied => "direct cross-shard transfer denied"@,
        AirlockError::PersistenceFailure(message) => "persistence failure: "@ + message@,
    }
}

impl AirlockError {
    /// The human-readable text of this error.
    pub fn message(&self) -> (r: String)
        ensures
            r@ == airlock_error_text(*self),
    {
        match self {
            AirlockError::SessionNotFound => owned("transfer session not found"),
            AirlockError::InvalidState { expected, actual } => {
                let a = cat3("invalid session state: expected ", expected.name(), ", actual ");
                cat(a.as_str(), actual.name())
            },
            AirlockError::UnknownMimeRejected { sniffed_mime } => cat(
                "unknown or unsafe MIME rejected: ",
                sniffed_mime.as_str(),
            ),
            AirlockError::HighRiskRejected { risk_score } => cat(
                "artifact rejected for high risk score ",
                decimal(*risk_score as u64).as_str(),
            ),
            AirlockError::DirectTransferDenied => owned("direct cross-shard transfer denied"),
            AirlockError::PersistenceFailure(message) => cat("persistence failure: ", message.as_str()),
        }
    }
}

/// The name of a session state.
pub open spec fn state_name(s: TransferSessionState) -> Seq<char> {
    match s {
        TransferSessionState::Open => "Open"@,
        TransferSessionState::Scanned => "Scanned"@,
        TransferSessionState::Approved => "Approved"@,
        TransferSessionState::Rejected => "Rejected"@,
        TransferSessionState::Committed => "Committed"@,
    }
}

impl TransferSessionState {
    /// The name of this state.
    pub fn name(&self) -> (r: &'static str)
        ensures
            r@ == state_name(*self),
    {
        match self {
            TransferSessionState::Open => "Open",
            TransferSessionState::Scanned => "Scanned",
            TransferSessionState::Approved => "Approved",
            TransferSessionState::Rejected => "Rejected",
            TransferSessionState::Committed => "Committed",
        }
    }
}

/// The key under which a committed transfer is remembered.
pub open spec fn transfer_key_of(source: Seq<char>, target: Seq<char>, artifact_id: Seq<char>) -> Seq<char> {
    source + "->"@ + target + ":"@ + artifact_id
}

/// The identifier given to the session opened with `nonce`.
pub open spec fn session_id_of(nonce: u64) -> Seq<char> {
    "airlock-"@ + hex_digits(nonce as nat, 16)
}

/// The mathematical state of an airlock.
pub struct AirlockView {
    pub sessions: Map<Seq<char>, SessionView>,
    pub approved_transfers: Set<Seq<char>>,
    pub next_session_nonce: u64,
}

/// The airlock service: transfer sessions and the transfers they committed.
pub struct AirlockService<S: SanitizerPipeline> {
    sanitizer: S,
    sessions: StrMap<TransferSession>,
    approved_transfers: StrSet,
    next_session_nonce: u64,
}

impl<S: SanitizerPipeline> View for AirlockService<S> {
    type V = AirlockView;

    closed spec fn view(&self) -> AirlockView {
        AirlockView {
            sessions: sessions_view(self.sessions@),
            approved_transfers: self.approved_transfers@,
            next_session_nonce: self.next_session_nonce,
        }
    }
}

/// The view of a session after its state changes to `s`.
pub open spec fn with_state(v: SessionView, s: TransferSessionState) -> SessionView {
    SessionView { state: s, ..v }
}

impl<S: SanitizerPipeline> AirlockService<S> {
    /// The sanitizer this airlock scans with.
    pub closed spec fn pipeline(&self) -> S {
        self.sanitizer
    }

    /// A new airlock with no sessions and no committed transfers; the first
    /// session gets nonce 1.
    pub fn new(sanitizer: S) -> (r: Self)
        ensures
            r@.sessions == Map::<Seq<char>, SessionView>::empty(),
            r@.approved_transfers == Set::<Seq<char>>::empty(),
            r@.next_session_nonce == 1,
            r.pipeline() == sanitizer,
    {
        let r = AirlockService {
            sanitizer,
            sessions: StrMap::new(),
            approved_transfers: StrSet::new(),
            next_session_nonce: 1,
        };
        proof { assert(sessions_view(r.sessions@) =~= Map::<Seq<char>, SessionView>::empty()); }
        r
    }

    fn put_session(&mut self, key: &str, session: TransferSession)
        ensures
            final(self)@ == (AirlockView {
                sessions: old(self)@.sessions.insert(key@, session@),
                ..old(self)@
            }),
            final(self).pipeline() == old(self).pipeline(),
    {
        let ghost before = self.sessions@;
        let ghost v = session@;
        self.sessions.insert(owned(key), session);
        proof {
            assert(sessions_view(self.sessions@) =~= sessions_view(before).insert(key@, v));
        }
    }

    fn take_session(&mut self, session_id: &str) -> (r: Option<TransferSession>)
        ensures
            match r {
                Some(s) => old(self)@.sessions.contains_key(session_id@)
                    && s@ == old(self)@.sessions[session_id@],
                None => !old(self)@.sessions.contains_key(session_id@) && final(self)@ == old(self)@,
            },
            final(self)@ == (AirlockView { sessions: old(self)@.sessions.remove(session_id@), ..old(self)@ }),
            final(self).pipeline() == old(self).pipeline(),
    {
        let ghost before = self.sessions@;
        let r = self.sessions.remove(session_id);
        proof {
            assert(sessions_view(self.sessions@) =~= sessions_view(before).remove(session_id@));
            if r is None {
                assert(sessions_view(before).remove(session_id@) =~= sessions_view(before));
            }
        }
        r
    }

    /// Opens a session for a transfer from `source_shard` to `target_shard`.
    /// Its identifier is "airlock-" and the nonce in sixteen hex digits; the
    /// nonce then advances (saturating).
    pub fn open_session(&mut self, source_shard: &str, target_shard: &str, audit: &mut Vec<AuditEvent>) -> (id: String)
        ensures
            id@ == session_id_of(old(self)@.next_session_nonce),
            final(self)@.next_session_nonce == (if old(self)@.next_session_nonce == u64::MAX {
                u64::MAX
            } else {
                (old(self)@.next_session_nonce + 1) as u64
            }),
            final(self)@.sessions == old(self)@.sessions.insert(id@, SessionView {
                session_id: id@,
                source_shard: source_shard@,
                target_shard: target_shard@,
                state: TransferSessionState::Open,
                artifact: None,
                scan_report: None,
            }),
            final(self)@.approved_transfers == old(self)@.approved_transfers,
            final(self).pipeline() == old(self).pipeline(),
            audit_view(final(audit)@) == audit_view(old(audit)@).push((
                "airlockd.session.opened"@,
                id@ + ":"@ + source_shard@ + "->"@ + target_shard@,
            )),
    {
        let session_id = cat("airlock-", hex16(self.next_session_nonce).as_str());
        self.next_session_nonce = if self.next_session_nonce == u64::MAX {
            u64::MAX
        } else {
            self.next_session_nonce + 1
        };
        self.put_session(session_id.as_str(), TransferSession {
            session_id: owned(session_id.as_str()),
            source_shard: owned(source_shard),
            target_shard: owned(target_shard),
            state: TransferSessionState::Open,
            artifact: None,
            scan_report: None,
        });
        let head = cat3(session_id.as_str(), ":", source_shard);
        let payload = cat3(head.as_str(), "->", target_shard);
        record(audit, "airlockd.session.opened", payload);
        session_id
    }

    /// Scans the artifact of an open session. Unknown and executable content
    /// is rejected before sanitizing; otherwise the sanitizer runs, the
    /// scrubbed artifact and its report are kept, and the session is
    /// rejected when the risk score reaches the high-risk threshold and
    /// marked scanned below it.
    pub fn scan_session(&mut self, session_id: &str, artifact: ArtifactDescriptor, audit: &mut Vec<AuditEvent>)
        -> (r: Result<SanitizerReport, AirlockError>)
        ensures
            final(self).pipeline() == old(self).pipeline(),
            final(self)@.approved_transfers == old(self)@.approved_transfers,
            final(self)@.next_session_nonce == old(self)@.next_session_nonce,
            !old(self)@.sessions.contains_key(session_id@) ==> {
                &&& r matches Err(AirlockError::SessionNotFound)
                &&& final(self)@ == old(self)@
                &&& audit_view(final(audit)@) == audit_view(old(audit)@)
            },
            old(self)@.sessions.contains_key(session_id@) ==> {
                let s = old(self)@.sessions[session_id@];
                let kind = sniffed(artifact@.content);
                let out = old(self).pipeline().outcome(artifact@);
                if s.state != TransferSessionState::Open {
                    &&& r matches Err(AirlockError::InvalidState { expected, actual })
                    &&& expected == TransferSessionState::Open && actual == s.state
                    &&& final(self)@ == old(self)@
                    &&& audit_view(final(audit)@) == audit_view(old(audit)@)
                } else if kind == SniffedMime::Unknown || kind == SniffedMime::Executable {
                    &&& r matches Err(AirlockError::UnknownMimeRejected { sniffed_mime })
                    &&& sniffed_mime@ == mime_name(kind)
                    &&& final(self)@.sessions == old(self)@.sessions.insert(session_id@,
                        with_state(s, TransferSessionState::Rejected))
                    &&& audit_view(final(audit)@) == audit_view(old(audit)@).push((
                        "airlockd.session.rejected"@,
                        session_id@ + ":unknown-mime:"@ + mime_name(kind),
                    ))
                } else if out.1.risk_score >= HIGH_RISK_THRESHOLD {
                    &&& r matches Err(AirlockError::HighRiskRejected { risk_score })
                    &&& risk_score == out.1.risk_score
                    &&& final(self)@.sessions == old(self)@.sessions.insert(session_id@, SessionView {
                        state: TransferSessionState::Rejected,
                        artifact: Some(out.0),
                        scan_report: Some(out.1),
                        ..s
                    })
                    &&& audit_view(final(audit)@) == audit_view(old(audit)@).push((
                        "airlockd.session.rejected"@,
                        session_id@,
                    ))
                } else {
                    &&& r matches Ok(report)
                    &&& report@ == out.1
                    &&& final(self)@.sessions == old(self)@.sessions.insert(session_id@, SessionView {
                        state: TransferSessionState::Scanned,
                        artifact: Some(out.0),
                        scan_report: Some(out.1),
                        ..s
                    })
                    &&& audit_view(final(audit)@) == audit_view(old(audit)@).push((
                        "airlockd.session.scanned"@,
                        session_id@,
                    ))
                }
            },
    {
        let mut artifact = artifact;
        let mut session = match self.take_session(session_id) {
            Some(s) => s,
            None => {
                return Err(AirlockError::SessionNotFound);
            },
        };
        if session.state != TransferSessionState::Open {
            let actual = session.state;
            self.put_session(session_id, session);
            proof { assert(self@.sessions =~= old(self)@.sessions); }
            return Err(AirlockError::InvalidState { expected: TransferSessionState::Open, actual });
        }
        let sniffed_kind = sniff_mime(artifact.content_bytes.as_slice());
        if sniffed_kind == SniffedMime::Unknown || sniffed_kind == SniffedMime::Executable {
            session.state = TransferSessionState::Rejected;
            self.put_session(session_id, session);
            let payload = cat3(session_id, ":unknown-mime:", sniffed_kind.as_str());
            record(audit, "airlockd.session.rejected", payload);
            return Err(AirlockError::UnknownMimeRejected { sniffed_mime: owned(sniffed_kind.as_str()) });
        }
        let report = self.sanitizer.sanitize(&mut artifact);
        session.artifact = Some(artifact);
        session.scan_report = Some(report.duplicate());
        if report.risk_score >= HIGH_RISK_THRESHOLD {
            session.state = TransferSessionState::Rejected;
            self.put_session(session_id, session);
            record(audit, "airlockd.session.rejected", owned(session_id));
            return Err(AirlockError::HighRiskRejected { risk_score: report.risk_score });
        }
        session.state = TransferSessionState::Scanned;
        self.put_session(session_id, session);
        record(audit, "airlockd.session.scanned", owned(session_id));
        Ok(report)
    }

    /// Approves a scanned session.
    pub fn approve_session(&mut self, session_id: &str, audit: &mut Vec<AuditEvent>) -> (r: Result<(), AirlockError>)
        ensures
            final(self).pipeline() == old(self).pipeline(),
            !old(self)@.sessions.contains_key(session_id@) ==> {
                &&& r matches Err(AirlockError::SessionNotFound)
                &&& final(self)@ == old(self)@
                &&& audit_view(final(audit)@) == audit_view(old(audit)@)
            },
            old(self)@.sessions.contains_key(session_id@) ==> {
                let s = old(self)@.sessions[session_id@];
                if s.state == TransferSessionState::Scanned {
                    &&& r is Ok
                    &&& final(self)@ == (AirlockView {
                        sessions: old(self)@.sessions.insert(session_id@,
                            with_state(s, TransferSessionState::Approved)),
                        ..old(self)@
                    })
                    &&& audit_view(final(audit)@) == audit_view(old(audit)@).push((
                        "airlockd.session.approved"@,
                        session_id@,
                    ))
                } else {
                    &&& r matches Err(AirlockError::InvalidState { expected, actual })
                    &&& expected == TransferSessionState::Scanned && actual == s.state
                    &&& final(self)@ == old(self)@
                    &&& audit_view(final(audit)@) == audit_view(old(audit)@)
                }
            },
    {
        let mut session = match self.take_session(session_id) {
            Some(s) => s,
            None => {
                return Err(AirlockError::SessionNotFound);
            },
        };
        if session.state != TransferSessionState::Scanned {
            let actual = session.state;
            self.put_session(session_id, session);
            proof { assert(self@.sessions =~= old(self)@.sessions); }
            return Err(AirlockError::InvalidState { expected: TransferSessionState::Scanned, actual });
        }
        session.state = TransferSessionState::Approved;
        self.put_session(session_id, session);
        proof { assert(self@.sessions =~= old(self)@.sessions.insert(session_id@, with_state(old(self)@.sessions[session_id@], TransferSessionState::Approved))); }
        record(audit, "airlockd.session.approved", owned(session_id));
        Ok(())
    }

    /// Rejects a session that is neither committed nor already rejected.
    pub fn reject_session(&mut self, session_id: &str, reason: &str, audit: &mut Vec<AuditEvent>)
        -> (r: Result<(), AirlockError>)
        ensures
            final(self).pipeline() == old(self).pipeline(),
            !old(self)@.sessions.contains_key(session_id@) ==> {
                &&& r matches Err(AirlockError::SessionNotFound)
                &&& final(self)@ == old(self)@
                &&& audit_view(final(audit)@) == audit_view(old(audit)@)
            },
            old(self)@.sessions.contains_key(session_id@) ==> {
                let s = old(self)@.sessions[session_id@];
                if s.state == TransferSessionState::Committed || s.state == TransferSessionState::Rejected {
                    &&& r matches Err(AirlockError::InvalidState { expected, actual })
                    &&& expected == TransferSessionState::Open && actual == s.state
                    &&& final(self)@ == old(self)@
                    &&& audit_view(final(audit)@) == audit_view(old(audit)@)
                } else {
                    &&& r is Ok
                    &&& final(self)@ == (AirlockView {
                        sessions: old(self)@.sessions.insert(session_id@,
                            with_state(s, TransferSessionState::Rejected)),
                        ..old(self)@
                    })
                    &&& audit_view(final(audit)@) == audit_view(old(audit)@).push((
                        "airlockd.session.rejected"@,
                        session_id@ + ":"@ + reason@,
                    ))
                }
            },
    {
        let mut session = match self.take_session(session_id) {
            Some(s) => s,
            None => {
                return Err(AirlockError::SessionNotFound);
            },
        };
        if session.state == TransferSessionState::Committed || session.state == TransferSessionState::Rejected {
            let actual = session.state;
            self.put_session(session_id, session);
            proof { assert(self@.sessions =~= old(self)@.sessions); }
            return Err(AirlockError::InvalidState { expected: TransferSessionState::Open, actual });
        }
        session.state = TransferSessionState::Rejected;
        self.put_session(session_id, session);
        proof { assert(self@.sessions =~= old(self)@.sessions.insert(session_id@, with_state(old(self)@.sessions[session_id@], TransferSessionState::Rejected))); }
        record(audit, "airlockd.session.rejected", cat3(session_id, ":", reason));
        Ok(())
    }

    /// Commits an approved session: its transfer (source, target, artifact)
    /// is remembered as allowed.
    pub fn commit_session(&mut self, session_id: &str, audit: &mut Vec<AuditEvent>) -> (r: Result<(), AirlockError>)
        ensures
            final(self).pipeline() == old(self).pipeline(),
            final(self)@.next_session_nonce == old(self)@.next_session_nonce,
            !old(self)@.sessions.contains_key(session_id@) ==> {
                &&& r matches Err(AirlockError::SessionNotFound)
                &&& final(self)@ == old(self)@
                &&& audit_view(final(audit)@) == audit_view(old(audit)@)
            },
            old(self)@.sessions.contains_key(session_id@) ==> {
                let s = old(self)@.sessions[session_id@];
                if s.state != TransferSessionState::Approved {
                    &&& r matches Err(AirlockError::InvalidState { expected, actual })
                    &&& expected == TransferSessionState::Approved && actual == s.state
                    &&& final(self)@ == old(self)@
                    &&& audit_view(final(audit)@) == audit_view(old(audit)@)
                } else if s.artifact is None {
                    &&& r matches Err(AirlockError::InvalidState { expected, actual })
                    &&& expected == TransferSessionState::Scanned && actual == s.state
                    &&& final(self)@ == old(self)@
                    &&& audit_view(final(audit)@) == audit_view(old(audit)@)
                } else {
                    &&& r is Ok
                    &&& final(self)@.sessions == old(self)@.sessions.insert(session_id@,
                        with_state(s, TransferSessionState::Committed))
                    &&& final(self)@.approved_transfers == old(self)@.approved_transfers.insert(
                        transfer_key_of(s.source_shard, s.target_shard, s.artifact->Some_0.artifact_id))
                    &&& audit_view(final(audit)@) == audit_view(old(audit)@).push((
                        "airlockd.session.committed"@,
                        session_id@,
                    ))
                }
            },
    {
        let mut session = match self.take_session(session_id) {
            Some(s) => s,
            None => {
                return Err(AirlockError::SessionNotFound);
            },
        };
        if session.state != TransferSessionState::Approved {
            let actual = session.state;
            self.put_session(session_id, session);
            proof { assert(self@.sessions =~= old(self)@.sessions); }
            return Err(AirlockError::InvalidState { expected: TransferSessionState::Approved, actual });
        }
        let key = match &session.artifact {
            Some(artifact) => Self::transfer_key(
                session.source_shard.as_str(),
                session.target_shard.as_str(),
                artifact.artifact_id.as_str(),
            ),
            None => {
                let actual = session.state;
                self.put_session(session_id, session);
                proof { assert(self@.sessions =~= old(self)@.sessions); }
                return Err(AirlockError::InvalidState { expected: TransferSessionState::Scanned, actual });
            },
        };
        self.approved_transfers.insert(key);
        session.state = TransferSessionState::Committed;
        self.put_session(session_id, session);
        proof { assert(self@.sessions =~= old(self)@.sessions.insert(session_id@, with_state(old(self)@.sessions[session_id@], TransferSessionState::Committed))); }
        record(audit, "airlockd.session.committed", owned(session_id));
        Ok(())
    }

    /// Asks to move an artifact directly between shards: allowed exactly when
    /// a committed session remembered that transfer.
    pub fn request_direct_transfer(
        &self,
        source_shard: &str,
        target_shard: &str,
        artifact_id: &str,
        audit: &mut Vec<AuditEvent>,
    ) -> (r: Result<(), AirlockError>)
        ensures
            r is Ok <==> self@.approved_transfers.contains(transfer_key_of(source_shard@, target_shard@, artifact_id@)),
            r is Err ==> r matches Err(AirlockError::DirectTransferDenied),
            audit_view(final(audit)@) == audit_view(old(audit)@).push((
                if r is Ok { "airlockd.transfer.allowed"@ } else { "airlockd.transfer.denied"@ },
                transfer_key_of(source_shard@, target_shard@, artifact_id@),
            )),
    {
        let key = Self::transfer_key(source_shard, target_shard, artifact_id);
        if self.approved_transfers.contains(key.as_str()) {
            record(audit, "airlockd.transfer.allowed", key);
            return Ok(());
        }
        record(audit, "airlockd.transfer.denied", key);
        Err(AirlockError::DirectTransferDenied)
    }

    /// A copy of everything this airlock keeps between restarts.
    pub fn runtime_state(&self) -> (r: AirlockRuntimeState)
        ensures
            sessions_view(r.sessions@) == self@.sessions,
            r.approved_transfers@ == self@.approved_transfers,
            r.next_session_nonce == self@.next_session_nonce,
    {
        let mut sessions: StrMap<TransferSession> = StrMap::new();
        let entries = self.sessions.entries();
        let mut i: usize = 0;
        while i < entries.len()
            invariant
                i <= entries@.len(),
                entries@.len() == self.sessions@.len(),
                forall|j: int| #![trigger entries@[j]] 0 <= j < entries@.len() ==> self.sessions@.contains_key(entries@[j].0@)
                    && self.sessions@[entries@[j].0@] == entries@[j].1,
                forall|k: Seq<char>| #[trigger] self.sessions@.contains_key(k) ==> exists|j: int|
                    0 <= j < entries@.len() && #[trigger] entries@[j].0@ == k,
                forall|a: int, b: int| 0 <= a < entries@.len() && 0 <= b < entries@.len() && a != b
                    ==> #[trigger] entries@[a].0@ != #[trigger] entries@[b].0@,
                forall|j: int| #![trigger entries@[j]] 0 <= j < i ==> sessions@.contains_key(entries@[j].0@)
                    && sessions@[entries@[j].0@]@ == entries@[j].1@,
                forall|k: Seq<char>| #[trigger] sessions@.contains_key(k) ==> exists|j: int|
                    0 <= j < i && #[trigger] entries@[j].0@ == k,
            decreases entries@.len() - i,
        {
            let key = owned(entries[i].0.as_str());
            sessions.insert(key, entries[i].1.duplicate());
            proof {
                assert forall|j: int| #![trigger entries@[j]] 0 <= j < i + 1 implies sessions@.contains_key(entries@[j].0@)
                    && sessions@[entries@[j].0@]@ == entries@[j].1@ by {
                    if j < i {
                        assert(entries@[j].0@ != entries@[i as int].0@);
                    }
                }
                assert forall|k: Seq<char>| #[trigger] sessions@.contains_key(k) implies exists|j: int|
                    0 <= j < i + 1 && #[trigger] entries@[j].0@ == k by {
                    if k != entries@[i as int].0@ {
                        let j = choose|j: int| 0 <= j < i && #[trigger] entries@[j].0@ == k;
                    }
                }
            }
            i = i + 1;
        }
        proof {
            assert forall|k: Seq<char>| #[trigger] self.sessions@.contains_key(k) implies sessions@.contains_key(k) by {
                let j = choose|j: int| 0 <= j < entries@.len() && #[trigger] entries@[j].0@ == k;
            }
            assert forall|k: Seq<char>| #[trigger] sessions@.contains_key(k) implies self.sessions@.contains_key(k)
                && sessions@[k]@ == self.sessions@[k]@ by {
                let j = choose|j: int| 0 <= j < i && #[trigger] entries@[j].0@ == k;
            }
            assert(sessions_view(sessions@) =~= sessions_view(self.sessions@));
        }
        let mut approved = StrSet::new();
        let items = self.approved_transfers.items();
        let mut i: usize = 0;
        while i < items.len()
            invariant
                i <= items@.len(),
                forall|j: int| #![trigger items@[j]] 0 <= j < items@.len() ==> self.approved_transfers@.contains(items@[j]@),
                forall|k: Seq<char>| #[trigger] self.approved_transfers@.contains(k) ==> exists|j: int|
                    0 <= j < items@.len() && #[trigger] items@[j]@ == k,
                forall|j: int| #![trigger items@[j]] 0 <= j < i ==> approved@.contains(items@[j]@),
                forall|k: Seq<char>| #[trigger] approved@.contains(k) ==> exists|j: int|
                    0 <= j < i && #[trigger] items@[j]@ == k,
            decreases items@.len() - i,
        {
            approved.insert(owned(items[i].as_str()));
            proof {
                assert forall|k: Seq<char>| #[trigger] approved@.contains(k) implies exists|j: int|
                    0 <= j < i + 1 && #[trigger] items@[j]@ == k by {
                    if k != items@[i as int]@ {
                        let j = choose|j: int| 0 <= j < i && #[trigger] items@[j]@ == k;
                    }
                }
            }
            i = i + 1;
        }
        proof {
            assert forall|k: Seq<char>| #[trigger] self.approved_transfers@.contains(k) implies approved@.contains(k) by {
                let j = choose|j: int| 0 <= j < items@.len() && #[trigger] items@[j]@ == k;
            }
            assert(approved@ =~= self.approved_transfers@);
        }
        AirlockRuntimeState { sessions, approved_transfers: approved, next_session_nonce: self.next_session_nonce }
    }

    /// Replaces the sessions, committed transfers and nonce by those of `state`.
    pub fn apply_runtime_state(&mut self, state: AirlockRuntimeState)
        ensures
            final(self)@ == (AirlockView {
                sessions: sessions_view(state.sessions@),
                approved_transfers: state.approved_transfers@,
                next_session_nonce: state.next_session_nonce,
            }),
            final(self).pipeline() == old(self).pipeline(),
    {
        self.sessions = state.sessions;
        self.approved_transfers = state.approved_transfers;
        self.next_session_nonce = state.next_session_nonce;
    }

    /// The state of a session, if it exists.
    pub fn session_state(&self, session_id: &str) -> (r: Option<TransferSessionState>)
        ensures
            r == (if self@.sessions.contains_key(session_id@) {
                Some(self@.sessions[session_id@].state)
            } else {
                None
            }),
    {
        match self.sessions.get(session_id) {
            Some(s) => Some(s.state),
            None => None,
        }
    }

    /// The key "source->target:artifact" of a transfer.
    pub fn transfer_key(source_shard: &str, target_shard: &str, artifact_id: &str) -> (r: String)
        ensures
            r@ == transfer_key_of(source_shard@, target_shard@, artifact_id@),
    {
        let a = cat3(source_shard, "->", target_shard);
        cat3(a.as_str(), ":", artifact_id)
    }
}

/// A new airlock allows no direct transfer at all.
pub proof fn lemma_new_airlock_denies_transfers(key: Seq<char>)
    ensures
        !Set::<Seq<char>>::empty().contains(key),
{
}

/// Committing an approved session that holds an artifact makes exactly that
/// transfer allowed from then on, and keeps every transfer allowed before.
pub proof fn lemma_commit_allows_its_transfer(v: AirlockView, id: Seq<char>, other: Seq<char>)
    requires
        v.sessions.contains_key(id),
        v.sessions[id].state == TransferSessionState::Approved,
        v.sessions[id].artifact is Some,
    ensures
        ({
            let s = v.sessions[id];
            let key = transfer_key_of(s.source_shard, s.target_shard, s.artifact->Some_0.artifact_id);
            &&& v.approved_transfers.insert(key).contains(key)
            &&& v.approved_transfers.contains(other) ==> v.approved_transfers.insert(key).contains(other)
        }),
{
}

} // verus!
