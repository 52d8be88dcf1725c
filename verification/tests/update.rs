use specteros::audit::AuditEvent;
use specteros::signing::{CryptoFailure, SignatureEnvelope};
use specteros::update::{
    manifest_envelope, manifest_signing_payload, slot_from_cmdline, ComponentInfo, PendingUpdate,
    SignatureInfo, UpdateError, UpdateManifest, UpdateService, UpdateSlot, UpdateState,
};

fn manifest(version: &str) -> UpdateManifest {
    UpdateManifest {
        version: version.to_string(),
        build_id: format!("build-{version}"),
        release_date: 1700000000,
        slot: UpdateSlot::B,
        components: vec![ComponentInfo {
            name: "kernel".to_string(),
            version: "6.1.0".to_string(),
            hash: "sha256:deadbeef".to_string(),
            size: 1024 * 1024,
        }],
        signature: SignatureInfo::from(SignatureEnvelope {
            key_id: "default".to_string(),
            algorithm: "hmac-sha256".to_string(),
            value_hex: "00ff".to_string(),
        }),
        changelog: vec!["Initial release".to_string()],
        min_version: None,
    }
}

fn service() -> UpdateService {
    UpdateService::with_mount_root("/tmp/cfg".to_string(), "/tmp/cache".to_string(), "/tmp/mnt".to_string(), UpdateSlot::A)
}

#[test]
fn test_slot_logic() {
    assert_eq!(UpdateSlot::A.other(), UpdateSlot::B);
    assert_eq!(UpdateSlot::B.other(), UpdateSlot::A);
    assert_eq!(UpdateSlot::A.mount_point(), "/mnt/root_a");
    assert_eq!(UpdateSlot::B.mount_point(), "/mnt/root_b");
    assert_eq!(UpdateSlot::A.label(), "SPECTEROS_A");
    assert_eq!(UpdateSlot::B.label(), "SPECTEROS_B");
}

#[test]
fn test_rollback_logic() {
    let mut service = service();
    let mut audit_chain: Vec<AuditEvent> = Vec::new();

    assert_eq!(service.current_slot(), UpdateSlot::A);

    service.rollback(&mut audit_chain).unwrap();
    assert_eq!(service.state(), &UpdateState::RebootRequired);
    assert_eq!(audit_chain[0].payload, "A -> B");
    assert_eq!(audit_chain[1].payload, "to B");
    assert_eq!(service.current_slot(), UpdateSlot::A);
}

#[test]
fn test_apply_and_commit_flow() {
    let mut service = service();
    let mut audit_chain: Vec<AuditEvent> = Vec::new();
    let release = manifest("1.1.0");

    let cache = service.download_update(&release, "https://updates.phantomkernel.org/1.1.0", Ok(())).unwrap();
    assert_eq!(cache, "/tmp/cache/build-1.1.0");
    service.finish_download();
    assert!(matches!(service.state(), UpdateState::Verifying));

    let plan = service.apply_update(&release, &mut audit_chain);
    assert_eq!(plan.target_slot, UpdateSlot::B);
    assert_eq!(plan.mount_dir, "/tmp/mnt/mnt/root_b");
    assert_eq!(plan.metadata_path, "/tmp/cfg/pending_update.json");
    service.complete_apply(&release, &mut audit_chain);
    assert_eq!(service.state(), &UpdateState::RebootRequired);
    assert_eq!(service.pending_slot(), Some(UpdateSlot::B));
    assert!(service.reboot_required());

    let pending = PendingUpdate { manifest: release.clone(), applied_at: 5, target_slot: plan.target_slot };
    service.commit_update(Some(&pending), &mut audit_chain).unwrap();
    assert_eq!(service.state(), &UpdateState::Idle);
    assert_eq!(service.current_slot(), UpdateSlot::B);
    assert!(service.pending_slot().is_none());
    let payloads: Vec<&str> = audit_chain.iter().map(|e| e.payload.as_str()).collect();
    assert_eq!(payloads, vec!["1.1.0 -> B", "1.1.0 to B", "committed B"]);
}

#[test]
fn test_manifest_signature_invalid_secret() {
    let service = service();
    let release = manifest("1.0.0");
    let result = service.verify_manifest(&release, Err(CryptoFailure::InvalidSignature));
    assert!(matches!(result, Err(UpdateError::SignatureInvalid)));
    let expired = service.verify_manifest(&release, Err(CryptoFailure::KeyExpired("expired-key".to_string())));
    assert!(matches!(expired, Err(UpdateError::SignatureInvalid)));
    assert!(service.verify_manifest(&release, Ok(())).is_ok());
}

#[test]
fn a_refused_signature_stops_the_download() {
    let mut service = service();
    let result = service.download_update(&manifest("2.0.0"), "https://example.invalid", Err(CryptoFailure::KeyRevoked("k".to_string())));
    assert!(matches!(result, Err(UpdateError::SignatureInvalid)));
    assert_eq!(service.state(), &UpdateState::Downloading { progress: 0 });
}

#[test]
fn manifest_signing_text_joins_version_build_and_date() {
    let release = manifest("1.0.0");
    assert_eq!(manifest_signing_payload(&release), "1.0.0:build-1.0.0:1700000000");
    let envelope = manifest_envelope(&release);
    assert_eq!(envelope.key_id, "default");
    assert_eq!(envelope.value_hex, "00ff");
    assert_eq!(release.signature.signed_at, 0);
}

#[test]
fn booted_slot_is_read_from_the_command_line() {
    assert_eq!(slot_from_cmdline("quiet root=LABEL=SPECTEROS_B ro"), UpdateSlot::B);
    assert_eq!(slot_from_cmdline("root=/dev/sda2 root_a"), UpdateSlot::A);
    assert_eq!(slot_from_cmdline("console=ttyS0"), UpdateSlot::A);
    assert_eq!(slot_from_cmdline("x root_b y root_a"), UpdateSlot::A);
}

#[test]
fn update_errors_read_as_before() {
    assert_eq!(UpdateError::InvalidSlot("C".to_string()).message(), "Slot C is not valid");
    assert_eq!(UpdateError::NoPendingUpdate.message(), "No pending update to commit");
    assert_eq!(UpdateError::HashMismatch("kernel".to_string()).message(), "Hash mismatch for kernel");
}

#[test]
fn status_reports_slots_and_state() {
    let mut service = service();
    let status = service.get_status("0.1.0");
    assert_eq!(status.current_version, "0.1.0");
    assert_eq!(status.current_slot, UpdateSlot::A);
    assert_eq!(status.state, UpdateState::Idle);
    assert!(service.check_for_updates("https://updates").unwrap().is_none());
    assert_eq!(service.keys_path(), "/tmp/cfg/keys");
}

#[test]
fn test_manifest_signature_valid() {
    let service = service();
    let release = manifest("1.0.0");
    assert!(service.verify_manifest(&release, Ok(())).is_ok());
}

#[test]
fn test_manifest_signature_expired_key() {
    let service = service();
    let release = manifest("1.0.0");
    let result = service.verify_manifest(&release, Err(CryptoFailure::KeyExpired("expired-key".to_string())));
    assert!(matches!(result, Err(UpdateError::SignatureInvalid)));
}

#[test]
fn test_manifest_signature_revoked_key() {
    let service = service();
    let release = manifest("1.0.0");
    let result = service.verify_manifest(&release, Err(CryptoFailure::KeyRevoked("revoked-key".to_string())));
    assert!(matches!(result, Err(UpdateError::SignatureInvalid)));
}

#[test]
fn test_hash_verification_placeholder() {
    let service = service();
    let release = manifest("1.0.0");
    assert!(service.verify_manifest(&release, Ok(())).is_ok());
}
