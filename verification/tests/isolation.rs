use specteros::audit::{chain_report, query_lower_bound, select_from_sequence, ChainCheck, VerifyChainResult};
use specteros::isolation::ShardIsolation;

#[test]
fn test_shard_isolation() {
    let isolation = ShardIsolation::new("work");
    assert!(isolation.can_access("work"));
    assert!(!isolation.can_access("anon"));
}

#[test]
fn allowed_shards_are_added_once() {
    let mut isolation = ShardIsolation::new("work");
    isolation.add_allowed_shard("anon");
    isolation.add_allowed_shard("anon");
    assert!(isolation.can_access("anon"));
    assert!(isolation.can_access("work"));
    assert!(!isolation.can_access("lab"));
}

#[test]
fn audit_queries_start_at_sequence_one() {
    assert_eq!(query_lower_bound(0), 1);
    assert_eq!(query_lower_bound(5), 5);
    assert_eq!(select_from_sequence(&vec![1, 2, 3], 0), vec![0, 1, 2]);
    assert_eq!(select_from_sequence(&vec![1, 2, 3], 2), vec![1, 2]);
}

#[test]
fn chain_reports_tell_tampering_from_failure() {
    assert_eq!(chain_report(ChainCheck::Intact), Ok(VerifyChainResult { valid: true, reason: None }));
    let tampered = chain_report(ChainCheck::Tampered("hash mismatch at 2".to_string())).unwrap();
    assert!(!tampered.valid);
    assert_eq!(tampered.reason.as_deref(), Some("hash mismatch at 2"));
    assert_eq!(chain_report(ChainCheck::Unreadable("io".to_string())), Err("io".to_string()));
}
