use specteros::airlock::ipc::airlock_method_role;
use specteros::ipc::{admit_method, require_role, AuthContext, IpcError};

fn reader() -> AuthContext {
    AuthContext { caller_id: "app://reader".to_string(), roles: vec!["airlock-read".to_string(), "network-read".to_string()] }
}

#[test]
fn a_held_role_is_admitted() {
    assert!(require_role(&reader(), "network-read").is_ok());
    assert!(admit_method(&reader(), "GetSessionState", airlock_method_role("GetSessionState")).is_ok());
}

#[test]
fn a_missing_role_is_refused_with_caller_and_role() {
    match require_role(&reader(), "airlock-approve") {
        Err(IpcError::Unauthorized { caller_id, required_role }) => {
            assert_eq!(caller_id, "app://reader");
            assert_eq!(required_role, "airlock-approve");
        }
        _ => panic!("a caller without the role should be refused"),
    }
    let nobody = AuthContext { caller_id: "app://nobody".to_string(), roles: Vec::new() };
    assert!(matches!(require_role(&nobody, "airlock-read"), Err(IpcError::Unauthorized { .. })));
}

#[test]
fn an_unknown_method_is_refused_as_such() {
    match admit_method(&reader(), "DropTables", airlock_method_role("DropTables")) {
        Err(IpcError::UnknownMethod(method)) => assert_eq!(method, "DropTables"),
        _ => panic!("an unknown method should be refused"),
    }
    assert!(matches!(
        admit_method(&reader(), "ApproveTransfer", airlock_method_role("ApproveTransfer")),
        Err(IpcError::Unauthorized { .. })
    ));
}
