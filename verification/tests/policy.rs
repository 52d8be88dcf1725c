use specteros::audit::AuditEvent;
use specteros::ipc::{AuthContext, IpcError};
use specteros::keys::SigningKeypair;
use specteros::policy::{
    policy_method_role, signature_payload, CapabilityRequest, CapabilityRule, CapabilityToken,
    EvaluateCapabilityPayload, PolicyError, PolicyIpcHandler, PolicyRequest, PolicyResponse, PolicyService,
    RevokeCapabilityPayload, ValidateCapabilityPayload,
};
use specteros::signing::{CryptoFailure, SignatureEnvelope};

fn to_hex(bytes: &[u8]) -> String {
    bytes.iter().map(|b| format!("{b:02x}")).collect()
}

fn from_hex(text: &str) -> Option<[u8; 64]> {
    if text.len() != 128 {
        return None;
    }
    let mut out = [0u8; 64];
    for (i, slot) in out.iter_mut().enumerate() {
        *slot = u8::from_str_radix(&text[2 * i..2 * i + 2], 16).ok()?;
    }
    Some(out)
}

/// Stands in for the key ring: signs with an Ed25519 key and checks
/// signatures against it.
struct TestSigner {
    key_id: String,
    keypair: SigningKeypair,
}

impl TestSigner {
    fn new(key_id: &str) -> Self {
        Self { key_id: key_id.to_string(), keypair: SigningKeypair::generate() }
    }

    fn sign(&self, token: &CapabilityToken) -> Result<SignatureEnvelope, CryptoFailure> {
        let payload = signature_payload(token);
        Ok(SignatureEnvelope {
            key_id: self.key_id.clone(),
            algorithm: "ed25519".to_string(),
            value_hex: to_hex(&self.keypair.sign(payload.as_bytes())),
        })
    }

    fn verify(&self, token: &CapabilityToken) -> Result<(), CryptoFailure> {
        if token.signature.key_id != self.key_id {
            return Err(CryptoFailure::KeyNotFound(token.signature.key_id.clone()));
        }
        let Some(signature) = from_hex(&token.signature.value_hex) else {
            return Err(CryptoFailure::InvalidSignatureEncoding);
        };
        if self.keypair.verify(signature_payload(token).as_bytes(), &signature) {
            Ok(())
        } else {
            Err(CryptoFailure::InvalidSignature)
        }
    }
}

fn allow_network_rule(service: &mut PolicyService) {
    let inserted = service.allow_rule(CapabilityRule::new("app://mail", "work", "network", "connect"));
    assert!(inserted);
}

fn network_request(ttl_seconds: u64) -> CapabilityRequest {
    CapabilityRequest {
        subject: "app://mail".to_string(),
        shard: "work".to_string(),
        resource: "network".to_string(),
        action: "connect".to_string(),
        ttl_seconds,
    }
}

fn issue_test_token(service: &mut PolicyService, signer: &TestSigner, audit_chain: &mut Vec<AuditEvent>) -> CapabilityToken {
    allow_network_rule(service);
    let draft = service.draft_token(&network_request(30), 10, audit_chain).expect("request should be allowed");
    let signed = signer.sign(&draft);
    match service.issue_token(draft, signed, audit_chain) {
        Ok(token) => token,
        Err(error) => panic!("failed to issue token in test: {}", error.message()),
    }
}

fn client() -> AuthContext {
    AuthContext { caller_id: "app://client".to_string(), roles: vec!["policy-client".to_string()] }
}

fn validate(service: &PolicyService, signer: &TestSigner, token: &CapabilityToken, shard: &str, now: u64, audit_chain: &mut Vec<AuditEvent>) -> Result<(), PolicyError> {
    service.validate_token(token, shard, now, signer.verify(token), audit_chain)
}

#[test]
fn deny_by_default_without_allow_rule() {
    let mut service = PolicyService::new();
    let mut audit_chain: Vec<AuditEvent> = Vec::new();
    let request = CapabilityRequest {
        subject: "app://mail".to_string(),
        shard: "work".to_string(),
        resource: "network".to_string(),
        action: "connect".to_string(),
        ttl_seconds: 30,
    };

    let result = service.draft_token(&request, 100, &mut audit_chain);
    assert!(matches!(result, Err(PolicyError::DenyByDefault)));
    assert_eq!(audit_chain[0].event_type, "policyd.request.denied");
    assert_eq!(audit_chain[0].payload, "subject=app://mail shard=work resource=network action=connect");
}

#[test]
fn expiry_is_enforced() {
    let mut service = PolicyService::new();
    let signer = TestSigner::new("test-key");
    let mut audit_chain: Vec<AuditEvent> = Vec::new();
    let token = issue_test_token(&mut service, &signer, &mut audit_chain);

    let result = validate(&service, &signer, &token, "work", 40, &mut audit_chain);
    assert!(matches!(result, Err(PolicyError::ExpiredToken)));
}

#[test]
fn tamper_detection_rejects_modified_tokens() {
    let mut service = PolicyService::new();
    let signer = TestSigner::new("test-key");
    let mut audit_chain: Vec<AuditEvent> = Vec::new();
    let mut token = issue_test_token(&mut service, &signer, &mut audit_chain);
    token.resource = "filesystem".to_string();

    let result = validate(&service, &signer, &token, "work", 20, &mut audit_chain);
    assert!(matches!(result, Err(PolicyError::InvalidSignature)));
}

#[test]
fn shard_mismatch_is_rejected() {
    let mut service = PolicyService::new();
    let signer = TestSigner::new("test-key");
    let mut audit_chain: Vec<AuditEvent> = Vec::new();
    let token = issue_test_token(&mut service, &signer, &mut audit_chain);

    let result = validate(&service, &signer, &token, "anon", 20, &mut audit_chain);
    assert!(matches!(result, Err(PolicyError::ShardMismatch { .. })));
    if let Err(error) = result {
        assert_eq!(error.message(), "token shard mismatch: expected 'anon', actual 'work'");
    }
}

#[test]
fn revoked_tokens_are_rejected() {
    let mut service = PolicyService::new();
    let signer = TestSigner::new("test-key");
    let mut audit_chain: Vec<AuditEvent> = Vec::new();
    let token = issue_test_token(&mut service, &signer, &mut audit_chain);

    assert!(service.revoke_token(&token.token_id, &mut audit_chain));
    let result = validate(&service, &signer, &token, "work", 20, &mut audit_chain);
    assert!(matches!(result, Err(PolicyError::RevokedToken)));
}

#[test]
fn ipc_handler_routes_issue_and_validate() {
    let mut service = PolicyService::new();
    allow_network_rule(&mut service);
    let signer = TestSigner::new("test-key");
    let mut handler = PolicyIpcHandler::new(service);
    assert_eq!(policy_method_role("EvaluateCapability"), Some("policy-client"));
    assert_eq!(policy_method_role("ValidateCapability"), Some("policy-client"));

    let drafted = handler
        .handle(&client(), PolicyRequest::EvaluateCapability(EvaluateCapabilityPayload {
            request: network_request(30),
            now_epoch_s: 10,
        }))
        .expect("issue should succeed");
    let draft = match drafted {
        PolicyResponse::Drafted(token) => token,
        _ => panic!("evaluation should answer with a draft"),
    };
    let signed = signer.sign(&draft);
    let token = match handler.handle(&client(), PolicyRequest::IssueCapability(draft, signed)).expect("issue should succeed") {
        PolicyResponse::Issued(token) => token,
        _ => panic!("issuing should answer with a token"),
    };

    let check = signer.verify(&token);
    let response = handler
        .handle(&client(), PolicyRequest::ValidateCapability(
            ValidateCapabilityPayload { token, expected_shard: "work".to_string(), now_epoch_s: 11 },
            check,
        ))
        .expect("validate should respond");
    match response {
        PolicyResponse::Validation(result) => {
            assert!(result.valid);
            assert!(result.reason.is_none());
        }
        _ => panic!("validation should answer with a result"),
    }
}

#[test]
fn handler_reports_why_a_token_is_invalid() {
    let mut service = PolicyService::new();
    let signer = TestSigner::new("test-key");
    let mut audit_chain: Vec<AuditEvent> = Vec::new();
    let token = issue_test_token(&mut service, &signer, &mut audit_chain);
    let mut handler = PolicyIpcHandler::new(service);
    let check = signer.verify(&token);
    let response = handler
        .handle(&client(), PolicyRequest::ValidateCapability(
            ValidateCapabilityPayload { token, expected_shard: "work".to_string(), now_epoch_s: 100 },
            check,
        ))
        .unwrap();
    match response {
        PolicyResponse::Validation(result) => {
            assert!(!result.valid);
            assert_eq!(result.reason.as_deref(), Some("token has expired"));
        }
        _ => panic!("validation should answer with a result"),
    }
    assert_eq!(handler.audit_log.last().unwrap().payload, "expired");
}

#[test]
fn policyd_ipc_handler_enforces_authz_boundary() {
    let mut service = PolicyService::new();
    let signer = TestSigner::new("test-key");
    let mut audit_chain: Vec<AuditEvent> = Vec::new();
    let token = issue_test_token(&mut service, &signer, &mut audit_chain);
    let mut handler = PolicyIpcHandler::new(service);
    assert_eq!(policy_method_role("RevokeCapability"), Some("policy-admin"));

    let response = handler.handle(
        &client(),
        PolicyRequest::RevokeCapability(RevokeCapabilityPayload { token_id: token.token_id.clone() }),
    );
    assert!(matches!(response, Err(IpcError::Unauthorized { .. })));
    assert!(handler.audit_log.is_empty());
    assert!(validate(&handler.service, &signer, &token, "work", 20, &mut audit_chain).is_ok());
}

#[test]
fn issuing_a_token_no_rule_covers_is_denied() {
    let mut service = PolicyService::new();
    let signer = TestSigner::new("test-key");
    let mut audit_chain: Vec<AuditEvent> = Vec::new();
    allow_network_rule(&mut service);
    let draft = service.draft_token(&network_request(30), 10, &mut audit_chain).unwrap();

    let mut forged = draft.duplicate();
    forged.resource = "filesystem".to_string();
    let signed = signer.sign(&forged);
    let refused = service.issue_token(forged, signed, &mut audit_chain);
    assert!(matches!(refused, Err(PolicyError::DenyByDefault)));
    assert_eq!(audit_chain[0].event_type, "policyd.request.denied");
    assert_eq!(audit_chain[0].payload, "subject=app://mail shard=work resource=filesystem action=connect");

    let mut stretched = draft.duplicate();
    stretched.expires_at_epoch_s = u64::MAX;
    let signed = signer.sign(&stretched);
    assert!(matches!(service.issue_token(stretched, signed, &mut audit_chain), Err(PolicyError::DenyByDefault)));

    let signed = signer.sign(&draft);
    let token = service.issue_token(draft.duplicate(), signed, &mut audit_chain).expect("the draft itself is issued");
    assert_eq!(token.token_id, "tok-0000000000000001");
    let signed_again = signer.sign(&draft);
    assert!(matches!(service.issue_token(draft, signed_again, &mut audit_chain), Err(PolicyError::DenyByDefault)));
}

#[test]
fn policyd_runtime_state_survives_restart() {
    let mut service = PolicyService::new();
    let signer = TestSigner::new("test-key");
    let mut audit_chain: Vec<AuditEvent> = Vec::new();
    let token = issue_test_token(&mut service, &signer, &mut audit_chain);
    let state = service.runtime_state();

    let mut recovered = PolicyService::new();
    recovered.apply_runtime_state(state);
    assert!(validate(&recovered, &signer, &token, "work", 20, &mut audit_chain).is_ok());
}

#[test]
fn token_ids_count_up_in_hexadecimal() {
    let mut service = PolicyService::new();
    let mut audit_chain: Vec<AuditEvent> = Vec::new();
    allow_network_rule(&mut service);
    let first = service.draft_token(&network_request(5), 1, &mut audit_chain).unwrap();
    let second = service.draft_token(&network_request(u64::MAX), 1, &mut audit_chain).unwrap();
    assert_eq!(first.token_id, "tok-0000000000000001");
    assert_eq!(second.token_id, "tok-0000000000000002");
    assert_eq!(first.expires_at_epoch_s, 6);
    assert_eq!(second.expires_at_epoch_s, u64::MAX);
    assert_eq!(signature_payload(&first), "tok-0000000000000001|app://mail|work|network|connect|1|6");
}

#[test]
fn refused_signatures_map_to_policy_errors() {
    let mut service = PolicyService::new();
    let mut audit_chain: Vec<AuditEvent> = Vec::new();
    allow_network_rule(&mut service);
    let draft = service.draft_token(&network_request(5), 1, &mut audit_chain).unwrap();
    let refused = service.issue_token(draft, Err(CryptoFailure::KeyExpired("k".to_string())), &mut audit_chain);
    assert!(matches!(refused, Err(PolicyError::SigningKeyExpired)));
    assert!(audit_chain.is_empty());
}

#[test]
fn revoking_an_unknown_token_is_audited() {
    let mut service = PolicyService::new();
    let mut audit_chain: Vec<AuditEvent> = Vec::new();
    assert!(!service.revoke_token("tok-1", &mut audit_chain));
    assert_eq!(audit_chain[0].event_type, "policyd.token.revoke-missing");
}

#[test]
fn key_rotation_is_audited() {
    let mut service = PolicyService::new();
    let mut audit_chain: Vec<AuditEvent> = Vec::new();
    service.rotate_signing_key("key-next", true, &mut audit_chain);
    assert_eq!(audit_chain[0].payload, "key_id=key-next active=true");
    assert!(!service.revoke_signing_key("key-next", false, &mut audit_chain));
    assert_eq!(audit_chain.len(), 1);
}
