use specteros::airlock::ipc::{
    AirlockIpcHandler, AirlockRequest, AirlockResponse, DirectTransferPayload,
    OpenTransferSessionPayload, ScanTransferPayload, SessionPayload, airlock_method_role,
};
use specteros::airlock::mime::{sniff_mime, SniffedMime};
use specteros::airlock::pipeline::{
    record_library_sanitizer_result, ArtifactDescriptor, LibrarySanitizeResult, PluggableSanitizerChain,
    SanitizationContext, SanitizerPipeline, SanitizerStep, HIGH_RISK_THRESHOLD,
};
use specteros::airlock::scrub::{strip_jpeg_exif, strip_metadata_markers, strip_png_chunks};
use specteros::airlock::service::{AirlockError, AirlockService, TransferSessionState};
use specteros::audit::AuditEvent;
use specteros::ipc::{AuthContext, IpcError};

fn pdf_artifact(artifact_id: &str) -> ArtifactDescriptor {
    ArtifactDescriptor {
        artifact_id: artifact_id.to_string(),
        path: format!("/tmp/{artifact_id}.pdf"),
        metadata_entries: 2,
        declared_mime: "application/pdf".to_string(),
        content_bytes: b"%PDF-1.7\nEXIFpayload".to_vec(),
    }
}

fn unknown_artifact() -> ArtifactDescriptor {
    ArtifactDescriptor {
        artifact_id: "artifact-unknown".to_string(),
        path: "/tmp/blob.bin".to_string(),
        metadata_entries: 1,
        declared_mime: "application/octet-stream".to_string(),
        content_bytes: vec![0x00, 0x01, 0x02, 0x03, 0x04],
    }
}

fn high_risk_artifact() -> ArtifactDescriptor {
    ArtifactDescriptor {
        artifact_id: "artifact-elf".to_string(),
        path: "/tmp/dropper".to_string(),
        metadata_entries: 5,
        declared_mime: "application/pdf".to_string(),
        content_bytes: b"\x7fELFbinary".to_vec(),
    }
}

fn mismatch_high_risk_artifact() -> ArtifactDescriptor {
    ArtifactDescriptor {
        artifact_id: "artifact-risk".to_string(),
        path: "/tmp/risk.zip".to_string(),
        metadata_entries: 20,
        declared_mime: "application/pdf".to_string(),
        content_bytes: b"PK\x03\x04\x14\x00\x00\x00\x08\x00test.zip content data here".to_vec(),
    }
}

fn new_service() -> AirlockService<PluggableSanitizerChain> {
    AirlockService::new(PluggableSanitizerChain::default_chain())
}

#[test]
fn bypass_is_denied_without_approval() {
    let service = new_service();
    let mut audit_chain: Vec<AuditEvent> = Vec::new();

    let result = service.request_direct_transfer("work", "anon", "artifact-1", &mut audit_chain);
    assert!(matches!(result, Err(AirlockError::DirectTransferDenied)));
}

#[test]
fn unknown_mime_is_rejected_by_default() {
    let mut service = new_service();
    let mut audit_chain: Vec<AuditEvent> = Vec::new();
    let session_id = service.open_session("work", "anon", &mut audit_chain);

    let scan_result = service.scan_session(&session_id, unknown_artifact(), &mut audit_chain);
    assert!(matches!(scan_result, Err(AirlockError::UnknownMimeRejected { .. })));
    assert!(matches!(service.session_state(&session_id), Some(TransferSessionState::Rejected)));
}

#[test]
fn high_risk_artifacts_are_rejected() {
    let mut service = new_service();
    let mut audit_chain: Vec<AuditEvent> = Vec::new();
    let session_id = service.open_session("work", "anon", &mut audit_chain);

    let scan_result = service.scan_session(&session_id, high_risk_artifact(), &mut audit_chain);
    assert!(matches!(scan_result, Err(AirlockError::UnknownMimeRejected { .. })));
}

#[test]
fn high_risk_score_artifacts_are_rejected() {
    let mut service = new_service();
    let mut audit_chain: Vec<AuditEvent> = Vec::new();
    let session_id = service.open_session("work", "anon", &mut audit_chain);

    let scan_result = service.scan_session(&session_id, mismatch_high_risk_artifact(), &mut audit_chain);
    assert!(matches!(scan_result, Err(AirlockError::HighRiskRejected { .. })));
}

#[test]
fn approved_commit_allows_transfer() {
    let mut service = new_service();
    let mut audit_chain: Vec<AuditEvent> = Vec::new();
    let session_id = service.open_session("work", "anon", &mut audit_chain);

    let report = service
        .scan_session(&session_id, pdf_artifact("artifact-1"), &mut audit_chain)
        .expect("pdf artifact should pass scan");
    assert_eq!(report.sniffed_mime, "application/pdf");
    assert!(report.metadata_stripped);
    assert!(report.applied_steps.contains(&"document-flatten".to_string()));

    assert!(service.approve_session(&session_id, &mut audit_chain).is_ok());
    assert!(service.commit_session(&session_id, &mut audit_chain).is_ok());

    let transfer_result = service.request_direct_transfer("work", "anon", "artifact-1", &mut audit_chain);
    assert!(transfer_result.is_ok());
}

#[test]
fn lib_ipc_handler_enforces_authz_boundary() {
    let service = AirlockService::new(PluggableSanitizerChain::default_chain());
    let mut handler = AirlockIpcHandler::new(service);
    let auth_context = AuthContext {
        caller_id: "app://client".to_string(),
        roles: vec!["airlock-read".to_string()],
    };
    assert_eq!(airlock_method_role("ApproveTransfer"), Some("airlock-approve"));

    let response = handler.handle(
        &auth_context,
        AirlockRequest::ApproveTransfer(SessionPayload { session_id: "airlock-1".to_string() }),
    );
    assert!(matches!(response, Err(IpcError::Unauthorized { .. })));
    if let Err(IpcError::Unauthorized { caller_id, required_role }) = response {
        assert_eq!(caller_id, "app://client");
        assert_eq!(required_role, "airlock-approve");
    }
    assert!(handler.audit_log.is_empty());
}

#[test]
fn unauthorized_open_leaves_airlock_untouched() {
    let mut handler = AirlockIpcHandler::new(new_service());
    let reader = AuthContext { caller_id: "app://reader".to_string(), roles: vec!["airlock-read".to_string()] };
    let response = handler.handle(
        &reader,
        AirlockRequest::OpenTransferSession(OpenTransferSessionPayload {
            source_shard: "work".to_string(),
            target_shard: "anon".to_string(),
        }),
    );
    assert!(matches!(response, Err(IpcError::Unauthorized { .. })));
    assert!(handler.audit_log.is_empty());
    assert!(handler.service.session_state("airlock-1").is_none());

    let state = handler
        .handle(&reader, AirlockRequest::GetSessionState(SessionPayload { session_id: "airlock-1".to_string() }))
        .expect("a reader may ask for session state");
    match state {
        AirlockResponse::SessionState(response) => assert!(response.state.is_none()),
        _ => panic!("state request should answer with a state"),
    }
}

#[test]
fn authorized_approval_of_missing_session_is_internal_error() {
    let mut handler = AirlockIpcHandler::new(new_service());
    let approver = AuthContext { caller_id: "app://ops".to_string(), roles: vec!["airlock-approve".to_string()] };
    let response = handler.handle(
        &approver,
        AirlockRequest::ApproveTransfer(SessionPayload { session_id: "airlock-1".to_string() }),
    );
    match response {
        Err(IpcError::Internal(message)) => assert_eq!(message, "transfer session not found"),
        _ => panic!("a missing session should be an internal error"),
    }
}

#[test]
fn ipc_handler_routes_approved_transfer_flow() {
    let mut handler = AirlockIpcHandler::new(new_service());
    let auth_context = AuthContext {
        caller_id: "daemon://workflow".to_string(),
        roles: vec![
            "airlock-submit".to_string(),
            "airlock-scan".to_string(),
            "airlock-approve".to_string(),
            "airlock-read".to_string(),
        ],
    };
    let roles = auth_context.roles.clone();
    for method in [
        "OpenTransferSession",
        "ScanArtifact",
        "ApproveTransfer",
        "CommitTransfer",
        "RequestDirectTransfer",
    ] {
        let needed = airlock_method_role(method).expect("method should exist");
        assert!(roles.iter().any(|role| role == needed));
    }

    let open = handler
        .handle(&auth_context, AirlockRequest::OpenTransferSession(OpenTransferSessionPayload {
            source_shard: "work".to_string(),
            target_shard: "anon".to_string(),
        }))
        .expect("open should succeed");
    let session_id = match open {
        AirlockResponse::Opened(response) => response.session_id,
        _ => panic!("open should answer with a session"),
    };

    let scan = handler
        .handle(&auth_context, AirlockRequest::ScanArtifact(ScanTransferPayload {
            session_id: session_id.clone(),
            artifact: pdf_artifact("artifact-ipc"),
        }))
        .expect("scan should succeed");
    match scan {
        AirlockResponse::Report(report) => assert!(report.risk_score < HIGH_RISK_THRESHOLD),
        _ => panic!("scan should answer with a report"),
    }

    assert!(handler
        .handle(&auth_context, AirlockRequest::ApproveTransfer(SessionPayload { session_id: session_id.clone() }))
        .is_ok());
    assert!(handler
        .handle(&auth_context, AirlockRequest::CommitTransfer(SessionPayload { session_id: session_id.clone() }))
        .is_ok());

    let transfer = handler
        .handle(&auth_context, AirlockRequest::RequestDirectTransfer(DirectTransferPayload {
            source_shard: "work".to_string(),
            target_shard: "anon".to_string(),
            artifact_id: "artifact-ipc".to_string(),
        }))
        .expect("approved direct transfer should succeed");
    assert!(matches!(transfer, AirlockResponse::Allowed));
}

#[test]
fn lib_runtime_state_recovers_after_crash_artifact() {
    let mut service = new_service();
    let mut audit_chain: Vec<AuditEvent> = Vec::new();

    let session_id = service.open_session("work", "anon", &mut audit_chain);
    let _ = service.scan_session(&session_id, pdf_artifact("artifact-2"), &mut audit_chain);
    let _ = service.approve_session(&session_id, &mut audit_chain);
    let _ = service.commit_session(&session_id, &mut audit_chain);
    let state = service.runtime_state();

    let mut recovered = new_service();
    recovered.apply_runtime_state(state);

    let transfer_result = recovered.request_direct_transfer("work", "anon", "artifact-2", &mut audit_chain);
    assert!(transfer_result.is_ok());
}

#[test]
fn strip_jpeg_exif_removes_app1_segment() {
    let jpeg_with_exif = vec![
        0xff, 0xd8, 0xff, 0xe1, 0x00, 0x08, b'E', b'X', b'I', b'F', 0x00, 0x00, 0xff, 0xdb, 0x00,
        0x04, 0x00, 0x00, 0xff, 0xd9,
    ];

    let stripped = strip_jpeg_exif(&jpeg_with_exif);

    assert!(!stripped.windows(2).any(|w| w == [0xff, 0xe1]));
    assert!(stripped.starts_with(&[0xff, 0xd8]));
    assert!(stripped.ends_with(&[0xff, 0xd9]));
    assert!(stripped.len() < jpeg_with_exif.len());
}

#[test]
fn strip_png_chunks_removes_metadata() {
    let png_with_text = vec![
        0x89, 0x50, 0x4e, 0x47, 0x0d, 0x0a, 0x1a, 0x0a, 0x00, 0x00, 0x00, 0x0d, b'I', b'H', b'D',
        b'R', 0x00, 0x00, 0x00, 0x01, 0x00, 0x00, 0x00, 0x01, 0x08, 0x02, 0x00, 0x00, 0x00, 0x90,
        0x77, 0x53, 0xde, 0x00, 0x00, 0x00, 0x04, b't', b'E', b'X', b't', 0x00, 0x00, 0x00, 0x00,
        0x00, 0x00, 0x00, 0x00, 0x00, 0x00, 0x00, 0x00, b'I', b'E', b'N', b'D', 0xae, 0x42, 0x60,
        0x82,
    ];

    let stripped = strip_png_chunks(&png_with_text);

    assert!(!stripped.windows(4).any(|w| w == b"tEXt"));
    assert!(stripped.windows(4).any(|w| w == b"IHDR"));
    assert!(stripped.windows(4).any(|w| w == b"IEND"));
}

#[test]
fn strip_metadata_markers_handles_generic_exif() {
    let data_with_exif = b"headerEXIF\x00\x04data";
    let stripped = strip_metadata_markers(data_with_exif);

    assert!(!stripped.windows(4).any(|w| w == b"EXIF"));
}

#[test]
fn sanitizer_pipeline_strips_image_metadata() {
    let chain = PluggableSanitizerChain::default_chain();

    let mut artifact = ArtifactDescriptor {
        artifact_id: "test-jpeg".to_string(),
        path: "/tmp/test.jpg".to_string(),
        metadata_entries: 5,
        declared_mime: "image/jpeg".to_string(),
        content_bytes: vec![0xff, 0xd8, 0xff, 0xe1, 0x00, 0x04, b'E', b'X', b'I', b'F', 0xff, 0xd9],
    };

    let report = chain.sanitize(&mut artifact);

    assert!(report.metadata_stripped);
    assert!(!artifact.content_bytes.windows(2).any(|w| w == [0xff, 0xe1]));
}

#[test]
fn jpeg_without_metadata_is_kept_whole() {
    let plain = vec![0xff, 0xd8, 0xff, 0xdb, 0x00, 0x04, 0x00, 0x00, 0xff, 0xd9];
    assert_eq!(strip_jpeg_exif(&plain), plain);
}

#[test]
fn sniffing_recognises_magic_numbers() {
    assert!(matches!(sniff_mime(b"%PDF-1.4"), SniffedMime::Pdf));
    assert!(matches!(sniff_mime(b"\x7fELF"), SniffedMime::Executable));
    assert!(matches!(sniff_mime(&[0x00, 0x01, 0x02]), SniffedMime::Unknown));
}

#[test]
fn approving_an_unscanned_session_is_refused() {
    let mut service = new_service();
    let mut audit_chain: Vec<AuditEvent> = Vec::new();
    let session_id = service.open_session("work", "anon", &mut audit_chain);
    let result = service.approve_session(&session_id, &mut audit_chain);
    assert!(matches!(result, Err(AirlockError::InvalidState { .. })));
    assert!(matches!(
        service.approve_session("airlock-missing", &mut audit_chain),
        Err(AirlockError::SessionNotFound)
    ));
}

#[test]
fn library_sanitizer_results_are_taken_in() {
    let mut artifact = pdf_artifact("artifact-lib");
    let mut context = SanitizationContext::new(SniffedMime::Pdf);
    record_library_sanitizer_result(
        &mut artifact,
        &mut context,
        LibrarySanitizeResult {
            sanitized: b"%PDF-1.7\nclean".to_vec(),
            metadata_removed: true,
            operations: vec!["removed xmp".to_string()],
            warnings: vec!["font kept".to_string()],
        },
    );
    assert!(context.metadata_stripped);
    assert_eq!(context.notes, vec!["removed xmp".to_string(), "font kept".to_string()]);
    assert_eq!(artifact.content_bytes, b"%PDF-1.7\nclean".to_vec());
    assert_eq!(artifact.metadata_entries, 0);
}

#[test]
fn chain_runs_its_stages_in_the_order_given() {
    let chain = PluggableSanitizerChain::new(vec![SanitizerStep::RiskScoring, SanitizerStep::MetadataStrip]);
    let mut artifact = pdf_artifact("artifact-order");
    let report = chain.sanitize(&mut artifact);
    assert_eq!(report.applied_steps, vec!["risk-scoring".to_string(), "metadata-strip".to_string()]);
    assert_eq!(report.sniffed_mime, "application/pdf");

    let mut again = pdf_artifact("artifact-order");
    let default_report = PluggableSanitizerChain::default_chain().sanitize(&mut again);
    assert_eq!(
        default_report.applied_steps,
        vec!["metadata-strip".to_string(), "document-flatten".to_string(), "risk-scoring".to_string()]
    );
    assert_ne!(report.risk_score, default_report.risk_score);
}

#[test]
fn handler_audits_each_step_and_advances_session_ids() {
    let mut handler = AirlockIpcHandler::new(new_service());
    let auth_context = AuthContext {
        caller_id: "daemon://workflow".to_string(),
        roles: vec!["airlock-submit".to_string(), "airlock-scan".to_string(), "airlock-approve".to_string()],
    };
    let mut ids = Vec::new();
    for _ in 0..2 {
        match handler.handle(
            &auth_context,
            AirlockRequest::OpenTransferSession(OpenTransferSessionPayload {
                source_shard: "work".to_string(),
                target_shard: "anon".to_string(),
            }),
        ) {
            Ok(AirlockResponse::Opened(response)) => ids.push(response.session_id),
            _ => panic!("open should succeed"),
        }
    }
    assert_eq!(ids, vec!["airlock-0000000000000001".to_string(), "airlock-0000000000000002".to_string()]);

    let session_id = ids[0].clone();
    assert!(handler
        .handle(&auth_context, AirlockRequest::ScanArtifact(ScanTransferPayload {
            session_id: session_id.clone(),
            artifact: pdf_artifact("artifact-audit"),
        }))
        .is_ok());
    assert!(handler.handle(&auth_context, AirlockRequest::ApproveTransfer(SessionPayload { session_id: session_id.clone() })).is_ok());
    assert!(handler.handle(&auth_context, AirlockRequest::CommitTransfer(SessionPayload { session_id: session_id.clone() })).is_ok());
    let denied = handler.handle(
        &auth_context,
        AirlockRequest::RequestDirectTransfer(DirectTransferPayload {
            source_shard: "anon".to_string(),
            target_shard: "work".to_string(),
            artifact_id: "artifact-audit".to_string(),
        }),
    );
    assert!(matches!(denied, Err(IpcError::Internal(_))));
    let events: Vec<(String, String)> =
        handler.audit_log.iter().map(|event| (event.event_type.clone(), event.payload.clone())).collect();
    assert_eq!(events[2], ("airlockd.session.scanned".to_string(), session_id.clone()));
    assert_eq!(events[3], ("airlockd.session.approved".to_string(), session_id.clone()));
    assert_eq!(events[4], ("airlockd.session.committed".to_string(), session_id.clone()));
    assert_eq!(events[5], ("airlockd.transfer.denied".to_string(), "anon->work:artifact-audit".to_string()));
}
