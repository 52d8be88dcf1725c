use std::cell::RefCell;

use specteros::audit::AuditEvent;
use specteros::net::backend::{CommandExecutor, NetworkBackendError, NetworkBackendMode, NftablesRouteBackend};
use specteros::ipc::{AuthContext, IpcError};
use specteros::net::ipc::{network_method_role, NetworkIpcHandler, NetworkRequest, NetworkResponse, SetKillSwitchPayload};
use specteros::net::profile::{DeterministicLeakChecker, NetworkPolicyError, RouteProfile};
use specteros::net::service::NetworkPolicyService;

struct MockExecutor {
    should_fail: bool,
    calls: RefCell<Vec<String>>,
}

impl MockExecutor {
    fn successful() -> Self {
        Self { should_fail: false, calls: RefCell::new(Vec::new()) }
    }

    fn failing() -> Self {
        Self { should_fail: true, calls: RefCell::new(Vec::new()) }
    }
}

impl CommandExecutor for MockExecutor {
    fn run(&self, program: &str, args: &[String]) -> Result<String, NetworkBackendError> {
        self.calls.borrow_mut().push(format!("{program} {}", args.join(" ")));
        if self.should_fail {
            return Err(NetworkBackendError { message: "mock execution failure".to_string() });
        }
        Ok("ok".to_string())
    }
}

fn staged_service() -> NetworkPolicyService<DeterministicLeakChecker, NftablesRouteBackend<MockExecutor>> {
    let backend = NftablesRouteBackend::with_executor(NetworkBackendMode::Staged, MockExecutor::successful());
    NetworkPolicyService::new(DeterministicLeakChecker, backend)
}

#[test]
fn profile_apply_is_persisted() {
    let mut service = staged_service();
    let mut audit_chain: Vec<AuditEvent> = Vec::new();
    assert!(service.apply_profile("work", RouteProfile::Tor, &mut audit_chain).is_ok());

    assert_eq!(service.profile_of("work"), Some(RouteProfile::Tor));
}

#[test]
fn kill_switch_has_priority() {
    let mut service = staged_service();
    let mut audit_chain: Vec<AuditEvent> = Vec::new();

    assert!(service.apply_profile("work", RouteProfile::Direct, &mut audit_chain).is_ok());
    assert!(service.set_kill_switch(true, &mut audit_chain).is_ok());

    let route_result = service.can_route("work", &mut audit_chain);
    assert!(matches!(route_result, Err(NetworkPolicyError::KillSwitchEnabled)));
}

#[test]
fn fail_closed_without_profile() {
    let service = staged_service();
    let mut audit_chain: Vec<AuditEvent> = Vec::new();

    let route_result = service.can_route("anon", &mut audit_chain);
    assert!(matches!(route_result, Err(NetworkPolicyError::NoProfile)));
}

#[test]
fn deterministic_leak_reports_are_stable() {
    let mut service = staged_service();
    let mut audit_chain: Vec<AuditEvent> = Vec::new();

    assert!(service.apply_profile("anon", RouteProfile::Direct, &mut audit_chain).is_ok());
    let report_one = service.run_leak_check("anon", &mut audit_chain);
    let report_two = service.run_leak_check("anon", &mut audit_chain);

    assert_eq!(report_one.clean, report_two.clean);
    assert_eq!(report_one.risk_score, report_two.risk_score);
    assert_eq!(report_one.summary, report_two.summary);
    assert!(!report_one.clean);
}

#[test]
fn backend_failure_forces_fail_closed_kill_switch() {
    let backend = NftablesRouteBackend::with_executor(NetworkBackendMode::Enforcing, MockExecutor::failing());
    let mut service = NetworkPolicyService::new(DeterministicLeakChecker, backend);
    let mut audit_chain: Vec<AuditEvent> = Vec::new();

    let outcome = service.apply_profile("work", RouteProfile::Tor, &mut audit_chain);
    assert!(matches!(outcome, Err(NetworkPolicyError::BackendFailure(_))));
    assert!(service.kill_switch_enabled());

    let route_result = service.can_route("work", &mut audit_chain);
    assert!(matches!(route_result, Err(NetworkPolicyError::KillSwitchEnabled)));
}

#[test]
fn no_egress_when_kill_switch_is_active() {
    let mut service = staged_service();
    let mut audit_chain: Vec<AuditEvent> = Vec::new();

    assert!(service.apply_profile("work", RouteProfile::Vpn, &mut audit_chain).is_ok());
    assert!(service.set_kill_switch(true, &mut audit_chain).is_ok());

    let route_result = service.can_route("work", &mut audit_chain);
    assert!(matches!(route_result, Err(NetworkPolicyError::KillSwitchEnabled)));
    let report = service.run_leak_check("work", &mut audit_chain);
    assert!(report.clean);
}

#[test]
fn netd_runtime_state_recovers_after_restart() {
    let mut service = staged_service();
    let mut audit_chain: Vec<AuditEvent> = Vec::new();
    assert!(service.apply_profile("work", RouteProfile::Tor, &mut audit_chain).is_ok());
    assert!(service.set_kill_switch(true, &mut audit_chain).is_ok());
    let state = service.runtime_state();

    let mut recovered = staged_service();
    recovered.apply_runtime_state(state, &mut audit_chain);
    assert_eq!(recovered.profile_of("work"), Some(RouteProfile::Tor));
    assert!(recovered.kill_switch_enabled());
}

#[test]
fn netd_ipc_handler_enforces_authz_boundary() {
    let mut handler = NetworkIpcHandler::new(staged_service());
    let auth_context = AuthContext {
        caller_id: "app://observer".to_string(),
        roles: vec!["network-read".to_string()],
    };
    assert_eq!(network_method_role("SetKillSwitch"), Some("network-admin"));

    let response = handler.handle(&auth_context, NetworkRequest::SetKillSwitch(SetKillSwitchPayload { enabled: true }));
    assert!(matches!(response, Err(IpcError::Unauthorized { .. })));
    assert!(!handler.service.kill_switch_enabled());
    assert!(handler.audit_log.is_empty());
}

#[test]
fn admin_kill_switch_follows_the_backend() {
    let admin = AuthContext { caller_id: "app://ops".to_string(), roles: vec!["network-admin".to_string()] };

    let mut handler = NetworkIpcHandler::new(staged_service());
    let response = handler.handle(&admin, NetworkRequest::SetKillSwitch(SetKillSwitchPayload { enabled: true }));
    assert!(matches!(response, Ok(NetworkResponse::KillSwitch { enabled: true })));
    assert!(handler.service.kill_switch_enabled());

    let backend = NftablesRouteBackend::with_executor(NetworkBackendMode::Enforcing, MockExecutor::failing());
    let mut failing = NetworkIpcHandler::new(NetworkPolicyService::new(DeterministicLeakChecker, backend));
    let response = failing.handle(&admin, NetworkRequest::SetKillSwitch(SetKillSwitchPayload { enabled: false }));
    assert!(matches!(response, Err(IpcError::Internal(_))));
    assert!(failing.service.kill_switch_enabled());
}

#[test]
fn route_profiles_parse_their_names() {
    for profile in [RouteProfile::Offline, RouteProfile::Direct, RouteProfile::Tor, RouteProfile::Vpn] {
        assert_eq!(RouteProfile::parse(profile.as_str()).ok(), Some(profile));
    }
    assert!(matches!(RouteProfile::parse("carrier-pigeon"), Err(_)));
}

#[test]
fn offline_profile_blocks_routing() {
    let mut service = staged_service();
    let mut audit_chain: Vec<AuditEvent> = Vec::new();
    assert!(service.apply_profile("lab", RouteProfile::Offline, &mut audit_chain).is_ok());
    assert!(matches!(
        service.can_route("lab", &mut audit_chain),
        Err(NetworkPolicyError::OfflineProfileBlocked)
    ));
}

#[test]
fn failed_profile_asks_the_backend_to_kill_egress() {
    let backend = NftablesRouteBackend::with_executor(NetworkBackendMode::Enforcing, MockExecutor::failing());
    let mut service = NetworkPolicyService::new(DeterministicLeakChecker, backend);
    let mut audit_chain: Vec<AuditEvent> = Vec::new();

    let outcome = service.apply_profile("work", RouteProfile::Tor, &mut audit_chain);
    match outcome {
        Err(NetworkPolicyError::BackendFailure(message)) => assert_eq!(message, "mock execution failure"),
        _ => panic!("the backend's failure should be handed back"),
    }
    assert_eq!(
        service.backend().operations().to_vec(),
        vec![
            "ip route replace default via 127.0.0.1".to_string(),
            "nft add rule inet phantomkernel output drop".to_string(),
        ]
    );
    assert!(service.profile_of("work").is_none());
    assert_eq!(audit_chain[0].event_type, "netd.backend.failure");
    assert_eq!(audit_chain[0].payload, "mock execution failure");
}
