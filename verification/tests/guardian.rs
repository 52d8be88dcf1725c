use specteros::audit::AuditEvent;
use specteros::guardian::{GuardianError, GuardianService};
use specteros::net::backend::{CommandExecutor, NetworkBackendError, NetworkBackendMode, NftablesRouteBackend};
use specteros::shard::manager::{LinuxNamespaceStub, NamespaceBoundary, ShardError, ShardManager, ShardState};

struct QuietExecutor;

impl CommandExecutor for QuietExecutor {
    fn run(&self, _program: &str, _args: &[String]) -> Result<String, NetworkBackendError> {
        Ok("ok".to_string())
    }
}

fn create_mock_shard_manager() -> ShardManager<LinuxNamespaceStub> {
    let mut manager = ShardManager::new(LinuxNamespaceStub);
    let mut audit_chain: Vec<AuditEvent> = Vec::new();

    manager.create_shard("work", 0, &mut audit_chain).unwrap();
    manager.start_shard("work", 0, &mut audit_chain).unwrap();
    manager.create_shard("anon", 0, &mut audit_chain).unwrap();
    manager.start_shard("anon", 0, &mut audit_chain).unwrap();
    manager.create_shard("burner", 0, &mut audit_chain).unwrap();
    manager.create_shard("lab", 0, &mut audit_chain).unwrap();

    manager
}

fn new_guardian() -> GuardianService<NftablesRouteBackend<QuietExecutor>, LinuxNamespaceStub> {
    let network_backend = NftablesRouteBackend::with_executor(NetworkBackendMode::Staged, QuietExecutor);
    GuardianService::new(network_backend, create_mock_shard_manager())
}

#[test]
fn test_panic_mode() {
    let mut service = new_guardian();
    let mut audit_chain: Vec<AuditEvent> = Vec::new();

    let result = service.panic(&mut audit_chain);
    assert!(result.is_ok());
    assert!(audit_chain.len() >= 5);
}

#[test]
fn test_mask_mode() {
    let mut service = new_guardian();
    let mut audit_chain: Vec<AuditEvent> = Vec::new();

    let result = service.mask("decoy", &mut audit_chain);
    assert!(result.is_ok());
    assert_eq!(audit_chain.len(), 1);
}

#[test]
fn test_travel_mode() {
    let mut service = new_guardian();
    let mut audit_chain: Vec<AuditEvent> = Vec::new();

    assert!(!service.is_travel_mode_enabled());

    service.set_travel_mode(true, &mut audit_chain);
    assert!(service.is_travel_mode_enabled());
    assert_eq!(audit_chain.len(), 1);

    service.set_travel_mode(false, &mut audit_chain);
    assert!(!service.is_travel_mode_enabled());
    assert_eq!(audit_chain.len(), 2);
}

#[test]
fn running_shards_are_stopped_by_panic() {
    let mut manager = create_mock_shard_manager();
    let mut audit_chain: Vec<AuditEvent> = Vec::new();
    assert_eq!(manager.state_of("work"), Some(ShardState::Running));
    assert!(manager.stop_shard("work", 1, &mut audit_chain).is_ok());
    assert_eq!(manager.state_of("work"), Some(ShardState::Stopped));
}

struct BrokenExecutor;

impl CommandExecutor for BrokenExecutor {
    fn run(&self, _program: &str, _args: &[String]) -> Result<String, NetworkBackendError> {
        Err(NetworkBackendError { message: "nft missing".to_string() })
    }
}

/// A platform that starts and creates namespaces but cannot stop them.
struct StuckPlatform;

impl NamespaceBoundary for StuckPlatform {
    fn create_namespace(&self, _shard_name: &str) -> Result<(), ShardError> {
        Ok(())
    }

    fn start_namespace(&self, _shard_name: &str) -> Result<(), ShardError> {
        Ok(())
    }

    fn stop_namespace(&self, _shard_name: &str) -> Result<(), ShardError> {
        Err(ShardError::PlatformFailure("busy".to_string()))
    }

    fn destroy_namespace(&self, _shard_name: &str) -> Result<(), ShardError> {
        Ok(())
    }
}

#[test]
fn panic_stops_before_any_shard_when_the_kill_switch_fails() {
    let network_backend = NftablesRouteBackend::with_executor(NetworkBackendMode::Enforcing, BrokenExecutor);
    let mut service = GuardianService::new(network_backend, create_mock_shard_manager());
    let mut audit_chain: Vec<AuditEvent> = Vec::new();

    let result = service.panic(&mut audit_chain);
    assert!(matches!(result, Err(GuardianError::NetworkOperationFailed(_))));
    assert!(audit_chain.is_empty());
}

#[test]
fn panic_names_the_first_shard_that_will_not_lock() {
    let mut manager = ShardManager::new(StuckPlatform);
    let mut setup: Vec<AuditEvent> = Vec::new();
    manager.create_shard("anon", 0, &mut setup).unwrap();
    manager.start_shard("anon", 0, &mut setup).unwrap();
    manager.create_shard("lab", 0, &mut setup).unwrap();
    manager.start_shard("lab", 0, &mut setup).unwrap();
    let network_backend = NftablesRouteBackend::with_executor(NetworkBackendMode::Staged, QuietExecutor);
    let mut service = GuardianService::new(network_backend, manager);
    let mut audit_chain: Vec<AuditEvent> = Vec::new();

    let result = service.panic(&mut audit_chain);
    match result {
        Err(GuardianError::ShardOperationFailed(shard, _)) => assert_eq!(shard, "anon"),
        _ => panic!("the stuck shard should be named"),
    }
    assert_eq!(audit_chain[0].event_type, "guardian.panic.network_killed");
    assert_eq!(audit_chain.len(), 1);
}
