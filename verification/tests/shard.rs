use std::cell::RefCell;

use specteros::audit::AuditEvent;
use specteros::ipc::{AuthContext, IpcError};
use specteros::shard::ipc::{shard_method_role, ShardIpcHandler, ShardLifecyclePayload, ShardRequest, ShardResponse, ShardStatePayload};
use specteros::shard::manager::{NamespaceBoundary, ShardError, ShardManager, ShardState};

#[derive(Default)]
struct RecordingPlatform {
    calls: RefCell<Vec<String>>,
}

impl RecordingPlatform {
    fn calls(&self) -> Vec<String> {
        self.calls.borrow().clone()
    }
}

impl NamespaceBoundary for RecordingPlatform {
    fn create_namespace(&self, shard_name: &str) -> Result<(), ShardError> {
        self.calls.borrow_mut().push(format!("create:{shard_name}"));
        Ok(())
    }

    fn start_namespace(&self, shard_name: &str) -> Result<(), ShardError> {
        self.calls.borrow_mut().push(format!("start:{shard_name}"));
        Ok(())
    }

    fn stop_namespace(&self, shard_name: &str) -> Result<(), ShardError> {
        self.calls.borrow_mut().push(format!("stop:{shard_name}"));
        Ok(())
    }

    fn destroy_namespace(&self, shard_name: &str) -> Result<(), ShardError> {
        self.calls.borrow_mut().push(format!("destroy:{shard_name}"));
        Ok(())
    }
}

#[test]
fn lifecycle_create_start_stop_destroy_succeeds() {
    let mut manager = ShardManager::new(RecordingPlatform::default());
    let mut audit_chain: Vec<AuditEvent> = Vec::new();

    assert!(manager.create_shard("work", 1, &mut audit_chain).is_ok());
    assert!(manager.start_shard("work", 2, &mut audit_chain).is_ok());
    assert!(manager.stop_shard("work", 3, &mut audit_chain).is_ok());
    assert!(manager.destroy_shard("work", 4, &mut audit_chain).is_ok());
    assert!(manager.state_of("work").is_none());
    assert_eq!(manager.transitions().len(), 4);
}

#[test]
fn invalid_transition_is_rejected() {
    let mut manager = ShardManager::new(RecordingPlatform::default());
    let mut audit_chain: Vec<AuditEvent> = Vec::new();

    assert!(matches!(manager.start_shard("work", 1, &mut audit_chain), Err(ShardError::NotFound)));

    assert!(manager.create_shard("work", 2, &mut audit_chain).is_ok());
    assert!(matches!(
        manager.destroy_shard("work", 3, &mut audit_chain),
        Err(ShardError::InvalidTransition { .. })
    ));
}

#[test]
fn namespace_boundary_calls_are_recorded() {
    let mut manager = ShardManager::new(RecordingPlatform::default());
    let mut audit_chain: Vec<AuditEvent> = Vec::new();

    assert!(manager.create_shard("anon", 10, &mut audit_chain).is_ok());
    assert!(manager.start_shard("anon", 11, &mut audit_chain).is_ok());
    assert!(manager.stop_shard("anon", 12, &mut audit_chain).is_ok());
    assert!(manager.destroy_shard("anon", 13, &mut audit_chain).is_ok());

    let calls = manager.platform().calls();
    assert_eq!(calls, vec!["create:anon", "start:anon", "stop:anon", "destroy:anon"]);
}

#[test]
fn shardd_runtime_state_recovers_after_restart() {
    let mut manager = ShardManager::new(RecordingPlatform::default());
    let mut audit_chain: Vec<AuditEvent> = Vec::new();

    assert!(manager.create_shard("work", 1, &mut audit_chain).is_ok());
    assert!(manager.start_shard("work", 2, &mut audit_chain).is_ok());
    let state = manager.runtime_state();

    let mut recovered = ShardManager::new(RecordingPlatform::default());
    recovered.apply_runtime_state(state);

    assert_eq!(recovered.state_of("work"), Some(ShardState::Running));
    assert_eq!(recovered.transitions().len(), 2);
}

/// A platform that refuses to start any namespace.
struct RefusingPlatform;

impl NamespaceBoundary for RefusingPlatform {
    fn create_namespace(&self, _shard_name: &str) -> Result<(), ShardError> {
        Ok(())
    }

    fn start_namespace(&self, _shard_name: &str) -> Result<(), ShardError> {
        Err(ShardError::PlatformFailure("no namespaces".to_string()))
    }

    fn stop_namespace(&self, _shard_name: &str) -> Result<(), ShardError> {
        Ok(())
    }

    fn destroy_namespace(&self, _shard_name: &str) -> Result<(), ShardError> {
        Ok(())
    }
}

fn admin() -> AuthContext {
    AuthContext {
        caller_id: "app://ops".to_string(),
        roles: vec!["shard-admin".to_string(), "shard-read".to_string()],
    }
}

#[test]
fn shardd_ipc_handler_enforces_authz_boundary() {
    let manager = ShardManager::new(RecordingPlatform::default());
    let mut handler = ShardIpcHandler::new(manager);
    let auth_context = AuthContext {
        caller_id: "app://client".to_string(),
        roles: vec!["shard-read".to_string()],
    };
    assert_eq!(shard_method_role("CreateShard"), Some("shard-admin"));

    let response = handler.handle(
        &auth_context,
        ShardRequest::CreateShard(ShardLifecyclePayload { shard_name: "work".to_string(), now_epoch_s: 1 }),
    );
    assert!(matches!(response, Err(IpcError::Unauthorized { .. })));
    assert!(handler.manager.state_of("work").is_none());
    assert!(handler.manager.platform().calls().is_empty());
    assert!(handler.audit_log.is_empty());
}

#[test]
fn platform_refusal_is_handed_back() {
    let mut manager = ShardManager::new(RefusingPlatform);
    let mut audit_chain: Vec<AuditEvent> = Vec::new();
    assert!(manager.create_shard("work", 1, &mut audit_chain).is_ok());
    let refused = manager.start_shard("work", 2, &mut audit_chain);
    assert!(matches!(refused, Err(ShardError::PlatformFailure(ref m)) if m == "no namespaces"));
    assert_eq!(manager.state_of("work"), Some(ShardState::Created));
    assert_eq!(manager.transitions().len(), 1);
    assert_eq!(audit_chain.len(), 1);

    let mut handler = ShardIpcHandler::new(manager);
    let response = handler.handle(
        &admin(),
        ShardRequest::StartShard(ShardLifecyclePayload { shard_name: "work".to_string(), now_epoch_s: 3 }),
    );
    match response {
        Err(IpcError::Internal(message)) => assert_eq!(message, "platform boundary failed: no namespaces"),
        _ => panic!("the platform's refusal should be answered"),
    }
}

#[test]
fn invalid_transition_is_answered_with_its_text() {
    let mut handler = ShardIpcHandler::new(ShardManager::new(RecordingPlatform::default()));
    assert!(handler
        .handle(&admin(), ShardRequest::CreateShard(ShardLifecyclePayload { shard_name: "work".to_string(), now_epoch_s: 1 }))
        .is_ok());
    let response = handler.handle(
        &admin(),
        ShardRequest::StopShard(ShardLifecyclePayload { shard_name: "work".to_string(), now_epoch_s: 2 }),
    );
    match response {
        Err(IpcError::Internal(message)) => assert_eq!(message, "invalid transition from Some(Created) via stop"),
        _ => panic!("stopping a created shard should be refused"),
    }
}

#[test]
fn ipc_handler_routes_lifecycle_calls() {
    let manager = ShardManager::new(RecordingPlatform::default());
    let mut handler = ShardIpcHandler::new(manager);
    let auth_context = admin();
    let roles = auth_context.roles.clone();
    for method in ["CreateShard", "GetShardState"] {
        let needed = shard_method_role(method).expect("method should exist");
        assert!(roles.iter().any(|role| role == needed));
    }

    let created = handler.handle(&auth_context, ShardRequest::CreateShard(ShardLifecyclePayload {
        shard_name: "work".to_string(),
        now_epoch_s: 1,
    }));
    assert!(created.is_ok());

    let response = handler
        .handle(&auth_context, ShardRequest::GetShardState(ShardStatePayload { shard_name: "work".to_string() }))
        .expect("state query should succeed");
    match response {
        ShardResponse::State(state) => assert_eq!(state.state.as_deref(), Some("Created")),
        _ => panic!("state query should answer with a state"),
    }
}

#[test]
fn creating_a_shard_twice_is_refused() {
    let mut manager = ShardManager::new(RecordingPlatform::default());
    let mut audit_chain: Vec<AuditEvent> = Vec::new();
    assert!(manager.create_shard("work", 1, &mut audit_chain).is_ok());
    assert!(matches!(manager.create_shard("work", 2, &mut audit_chain), Err(ShardError::AlreadyExists)));
    assert_eq!(manager.state_of("work"), Some(ShardState::Created));
}
