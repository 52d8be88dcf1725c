use specteros::keys::{EncryptionKeypair, KeyId, SigningKeypair};

#[test]
fn test_key_id_generation() {
    let id1 = KeyId::new();
    let id2 = KeyId::new();
    assert_ne!(id1, id2);

    let shard_id = KeyId::for_shard("work");
    assert!(shard_id.0.starts_with("shard-"));
}

#[test]
fn test_signing_keypair_sign_verify() {
    let keypair = SigningKeypair::generate();
    let data = b"test capability token";
    let signature = keypair.sign(data);

    assert!(keypair.verify(data, &signature));
}

#[test]
fn test_signing_keypair_serialization() {
    let keypair = SigningKeypair::generate();
    let bytes = keypair.to_bytes();
    let restored = SigningKeypair::from_bytes(bytes);

    let data = b"test after serialization";
    assert!(restored.verify(data, &restored.sign(data)));
    assert_eq!(restored.public(), keypair.public());
}

#[test]
fn test_encryption_keypair_dh() {
    let alice = EncryptionKeypair::generate();
    let bob = EncryptionKeypair::generate();

    let shared_alice = alice.derive_shared(&bob.public());
    let shared_bob = bob.derive_shared(&alice.public());

    assert_eq!(shared_alice, shared_bob);
}

#[test]
fn key_ids_for_services_and_shards() {
    assert_eq!(KeyId::for_service("policyd").0, "svc-policyd");
    assert_eq!(KeyId::for_shard("anon").0, "shard-anon");
    assert_eq!(KeyId::default().0.len(), 36);
}

#[test]
fn keypair_bytes_hold_secret_then_public() {
    let keypair = SigningKeypair::generate();
    let bytes = keypair.to_bytes();
    assert_eq!(&bytes[32..], &keypair.public()[..]);
    let other = SigningKeypair::generate();
    assert!(!keypair.verify(b"message", &other.sign(b"message")));
}
