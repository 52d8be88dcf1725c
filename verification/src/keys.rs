//! Keys: Ed25519 signing keypairs, X25519 encryption keypairs, and key
//! identifiers. The keys are held as bytes; the curve arithmetic is done by
//! `ed25519-dalek` and `x25519-dalek`.
use vstd::prelude::*;
use ed25519_dalek::{Signer, Verifier};
use rand::rngs::OsRng;
use crate::text::{cat, owned};

verus! {

/// The Ed25519 public key of a 32-byte secret key.
pub uninterp spec fn ed25519_public(secret: Seq<u8>) -> Seq<u8>;

/// The Ed25519 signature of a message under a 32-byte secret key.
pub uninterp spec fn ed25519_signature(secret: Seq<u8>, message: Seq<u8>) -> Seq<u8>;

/// Whether an Ed25519 public key accepts a signature of a message.
pub uninterp spec fn ed25519_accepts(public: Seq<u8>, message: Seq<u8>, signature: Seq<u8>) -> bool;

/// The X25519 public key of a 32-byte secret.
pub uninterp spec fn x25519_public(secret: Seq<u8>) -> Seq<u8>;

/// The X25519 shared secret of a 32-byte secret and a peer's public key.
pub uninterp spec fn x25519_shared(secret: Seq<u8>, peer: Seq<u8>) -> Seq<u8>;

/// A fresh random Ed25519 secret key (`SigningKey::generate` with the
/// operating system's generator). Nothing is promised of its bytes.
#[verifier::external_body]
fn random_ed25519_secret() -> (r: [u8; 32]) {
    ed25519_dalek::SigningKey::generate(&mut OsRng).to_bytes()
}

/// The public key of `secret` (`SigningKey::verifying_key`).
#[verifier::external_body]
fn ed25519_public_of(secret: &[u8; 32]) -> (r: [u8; 32])
    ensures
        r@ == ed25519_public(secret@),
{
    ed25519_dalek::SigningKey::from_bytes(secret).verifying_key().to_bytes()
}

/// The signature of `message` under `secret` (`SigningKey::sign`; Ed25519
/// signing is deterministic).
#[verifier::external_body]
fn ed25519_sign(secret: &[u8; 32], message: &[u8]) -> (r: [u8; 64])
    ensures
        r@ == ed25519_signature(secret@, message@),
{
    ed25519_dalek::SigningKey::from_bytes(secret).sign(message).to_bytes()
}

/// Whether `public` accepts `signature` of `message` (`VerifyingKey::verify`;
/// bytes that are no valid public key accept nothing). A signature made with
/// a secret key is accepted by that key's public key.
#[verifier::external_body]
fn ed25519_verify(public: &[u8; 32], message: &[u8], signature: &[u8; 64]) -> (r: bool)
    ensures
        r == ed25519_accepts(public@, message@, signature@),
        forall|s: Seq<u8>|
            s.len() == 32 && public@ == ed25519_public(s) && signature@ == #[trigger] ed25519_signature(s, message@)
                ==> r,
{
    match ed25519_dalek::VerifyingKey::from_bytes(public) {
        Ok(key) => key.verify(message, &ed25519_dalek::Signature::from_bytes(signature)).is_ok(),
        Err(_) => false,
    }
}

/// A fresh random X25519 secret (`StaticSecret::random_from_rng` with the
/// operating system's generator). Nothing is promised of its bytes.
#[verifier::external_body]
fn random_x25519_secret() -> (r: [u8; 32]) {
    x25519_dalek::StaticSecret::random_from_rng(OsRng).to_bytes()
}

/// The public key of an X25519 secret (`PublicKey::from`).
#[verifier::external_body]
fn x25519_public_of(secret: &[u8; 32]) -> (r: [u8; 32])
    ensures
        r@ == x25519_public(secret@),
{
    x25519_dalek::PublicKey::from(&x25519_dalek::StaticSecret::from(*secret)).to_bytes()
}

/// The Diffie-Hellman shared secret of `secret` and `peer`
/// (`StaticSecret::diffie_hellman`). Both sides of an exchange get the same
/// value: the secret of a peer whose public key is `peer` with this side's
/// public key.
#[verifier::external_body]
fn x25519_agree(secret: &[u8; 32], peer: &[u8; 32]) -> (r: [u8; 32])
    ensures
        r@ == x25519_shared(secret@, peer@),
        forall|b: Seq<u8>|
            b.len() == 32 && peer@ == #[trigger] x25519_public(b) ==> r@ == x25519_shared(b, x25519_public(secret@)),
{
    x25519_dalek::StaticSecret::from(*secret).diffie_hellman(&x25519_dalek::PublicKey::from(*peer)).to_bytes()
}

/// A keypair for signing capability tokens.
pub struct SigningKeypair {
    secret: [u8; 32],
    public: [u8; 32],
}

impl SigningKeypair {
    #[verifier::type_invariant]
    closed spec fn matches(self) -> bool {
        self.public@ == ed25519_public(self.secret@)
    }

    /// The secret key's bytes.
    pub closed spec fn secret_bytes(&self) -> Seq<u8> {
        self.secret@
    }

    /// A new random keypair.
    pub fn generate() -> (r: Self)
        ensures
            r.secret_bytes().len() == 32,
    {
        let secret = random_ed25519_secret();
        let public = ed25519_public_of(&secret);
        SigningKeypair { secret, public }
    }

    /// The signature of `data`.
    pub fn sign(&self, data: &[u8]) -> (r: [u8; 64])
        ensures
            r@ == ed25519_signature(self.secret_bytes(), data@),
    {
        ed25519_sign(&self.secret, data)
    }

    /// The public key.
    pub fn public(&self) -> (r: [u8; 32])
        ensures
            r@ == ed25519_public(self.secret_bytes()),
    {
        proof { use_type_invariant(self); }
        self.public
    }

    /// Whether this keypair's public key accepts `signature` of `data`.
    pub fn verify(&self, data: &[u8], signature: &[u8; 64]) -> (r: bool)
        ensures
            r == ed25519_accepts(ed25519_public(self.secret_bytes()), data@, signature@),
            signature@ == ed25519_signature(self.secret_bytes(), data@) ==> r,
    {
        proof { use_type_invariant(self); }
        ed25519_verify(&self.public, data, signature)
    }

    /// The secret key followed by the public key.
    pub fn to_bytes(&self) -> (r: [u8; 64])
        ensures
            r@ == self.secret_bytes() + ed25519_public(self.secret_bytes()),
    {
        proof { use_type_invariant(self); }
        let mut out = [0u8; 64];
        let mut i: usize = 0;
        while i < 32
            invariant
                i <= 32,
                out@.len() == 64,
                self.secret@.len() == 32,
                self.public@.len() == 32,
                forall|j: int| 0 <= j < i ==> out@[j] == self.secret@[j],
                forall|j: int| 0 <= j < i ==> out@[32 + j] == self.public@[j],
            decreases 32 - i,
        {
            out[i] = self.secret[i];
            out[32 + i] = self.public[i];
            i = i + 1;
        }
        proof {
            assert(out@ =~= self.secret@ + self.public@);
        }
        out
    }

    /// The keypair whose secret key is the first half of `bytes`.
    pub fn from_bytes(bytes: [u8; 64]) -> (r: Self)
        ensures
            r.secret_bytes() == bytes@.subrange(0, 32),
    {
        let mut secret = [0u8; 32];
        let mut i: usize = 0;
        while i < 32
            invariant
                i <= 32,
                secret@.len() == 32,
                bytes@.len() == 64,
                forall|j: int| 0 <= j < i ==> secret@[j] == bytes@[j],
            decreases 32 - i,
        {
            secret[i] = bytes[i];
            i = i + 1;
        }
        proof {
            assert(secret@ =~= bytes@.subrange(0, 32));
        }
        let public = ed25519_public_of(&secret);
        SigningKeypair { secret, public }
    }
}

/// Reading a keypair back from its bytes gives the same secret key, so the
/// same public key and the same signatures.
pub proof fn lemma_keypair_bytes_roundtrip(secret: Seq<u8>)
    requires
        secret.len() == 32,
    ensures
        (secret + ed25519_public(secret)).subrange(0, 32) == secret,
{
    assert((secret + ed25519_public(secret)).subrange(0, 32) =~= secret);
}

/// A keypair for encrypting to a shard.
pub struct EncryptionKeypair {
    secret: [u8; 32],
    public: [u8; 32],
}

impl EncryptionKeypair {
    #[verifier::type_invariant]
    closed spec fn matches(self) -> bool {
        self.public@ == x25519_public(self.secret@)
    }

    /// The secret's bytes.
    pub closed spec fn secret_bytes(&self) -> Seq<u8> {
        self.secret@
    }

    /// A new random keypair.
    pub fn generate() -> (r: Self)
        ensures
            r.secret_bytes().len() == 32,
    {
        let secret = random_x25519_secret();
        let public = x25519_public_of(&secret);
        EncryptionKeypair { secret, public }
    }

    /// The public key.
    pub fn public(&self) -> (r: [u8; 32])
        ensures
            r@ == x25519_public(self.secret_bytes()),
    {
        proof { use_type_invariant(self); }
        self.public
    }

    /// The secret shared with the owner of `peer_public`.
    pub fn derive_shared(&self, peer_public: &[u8; 32]) -> (r: [u8; 32])
        ensures
            r@ == x25519_shared(self.secret_bytes(), peer_public@),
            forall|b: Seq<u8>|
                b.len() == 32 && peer_public@ == #[trigger] x25519_public(b) ==> r@ == x25519_shared(
                    b,
                    x25519_public(self.secret_bytes()),
                ),
    {
        x25519_agree(&self.secret, peer_public)
    }
}

/// Two parties that exchange public keys derive the same shared secret.
pub proof fn lemma_exchange_agrees(alice: Seq<u8>, bob: Seq<u8>, at_alice: Seq<u8>, at_bob: Seq<u8>)
    requires
        alice.len() == 32,
        bob.len() == 32,
        at_alice == x25519_shared(alice, x25519_public(bob)),
        forall|b: Seq<u8>|
            b.len() == 32 && x25519_public(bob) == #[trigger] x25519_public(b) ==> at_alice == x25519_shared(
                b,
                x25519_public(alice),
            ),
        at_bob == x25519_shared(bob, x25519_public(alice)),
    ensures
        at_alice == at_bob,
{
    assert(x25519_public(bob) == x25519_public(bob));
}

/// A key's identifier.
#[derive(Debug, Clone, PartialEq, Eq, Hash)]
pub struct KeyId(pub String);

/// A fresh random identifier: a version-4 UUID in its 36-character hyphenated
/// form (`Uuid::new_v4` written with `Display`). Nothing more is promised of
/// its characters.
#[verifier::external_body]
fn fresh_uuid_text() -> (r: String)
    ensures
        r@.len() == 36,
{
    uuid::Uuid::new_v4().to_string()
}

impl KeyId {
    /// A fresh random identifier.
    pub fn new() -> (r: Self)
        ensures
            r.0@.len() == 36,
    {
        KeyId(fresh_uuid_text())
    }

    /// The identifier of a shard's key: `shard-` and the shard.
    pub fn for_shard(shard_id: &str) -> (r: Self)
        ensures
            r.0@ == "shard-"@ + shard_id@,
    {
        KeyId(cat("shard-", shard_id))
    }

    /// The identifier of a service's key: `svc-` and the service.
    pub fn for_service(service: &str) -> (r: Self)
        ensures
            r.0@ == "svc-"@ + service@,
    {
        KeyId(cat("svc-", service))
    }
}

impl Default for KeyId {
    fn default() -> (r: Self)
        ensures
            r.0@.len() == 36,
    {
        KeyId::new()
    }
}

} // verus!
