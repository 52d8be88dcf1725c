//! Signatures as the key ring hands them out, and the ways a key ring can
//! refuse to sign or to accept a signature.
use vstd::prelude::*;
use crate::text::{cat, owned};

verus! {

/// A detached signature: the key that made it, the algorithm, and the value
/// in hexadecimal.
#[derive(Debug, Clone)]
pub struct SignatureEnvelope {
    pub key_id: String,
    pub algorithm: String,
    pub value_hex: String,
}

/// The key, algorithm and value of a signature.
pub struct EnvelopeView {
    pub key_id: Seq<char>,
    pub algorithm: Seq<char>,
    pub value_hex: Seq<char>,
}

impl View for SignatureEnvelope {
    type V = EnvelopeView;

    open spec fn view(&self) -> EnvelopeView {
        EnvelopeView { key_id: self.key_id@, algorithm: self.algorithm@, value_hex: self.value_hex@ }
    }
}

impl SignatureEnvelope {
    /// A copy of the envelope.
    pub fn duplicate(&self) -> (r: SignatureEnvelope)
        ensures
            r@ == self@,
    {
        SignatureEnvelope {
            key_id: self.key_id.clone(),
            algorithm: self.algorithm.clone(),
            value_hex: self.value_hex.clone(),
        }
    }

    /// An envelope with every field empty, for a token not signed yet.
    pub fn empty() -> (r: SignatureEnvelope)
        ensures
            r@ == (EnvelopeView { key_id: Seq::empty(), algorithm: Seq::empty(), value_hex: Seq::empty() }),
    {
        SignatureEnvelope { key_id: String::new(), algorithm: String::new(), value_hex: String::new() }
    }
}

/// Why a key ring refused to sign, or refused a signature.
#[derive(Debug, Clone, PartialEq, Eq)]
pub enum CryptoFailure {
    KeyExpired(String),
    KeyRevoked(String),
    KeyNotFound(String),
    InvalidSignature,
    InvalidSignatureEncoding,
    Other(String),
}

} // verus!
