//! Capability policy: deny-by-default allow rules, signed capability tokens
//! with expiry, revocation, and the audit events each decision leaves.
//!
//! The key ring that signs and checks tokens is the caller's: a token is
//! drafted here, signed by the key ring, and then recorded as issued; a
//! token is checked here against what the key ring said of its signature.
use vstd::prelude::*;
use crate::audit::{audit_view, record, AuditEvent};
use crate::collections::{StrMap, StrSet};
use crate::ipc::{has_role, require_role, AuthContext, IpcError};
use crate::signing::{CryptoFailure, EnvelopeView, SignatureEnvelope};
use crate::text::{bool_str, bool_text, cat, cat3, dec_digits, decimal, hex16, hex_digits, owned, str_eq};

verus! {

/// Who may do what, where: a subject, a shard, a resource and an action.
#[derive(Debug, Clone)]
pub struct CapabilityRule {
    pub subject: String,
    pub shard: String,
    pub resource: String,
    pub action: String,
}

/// A rule as four character sequences.
pub type RuleView = (Seq<char>, Seq<char>, Seq<char>, Seq<char>);

impl View for CapabilityRule {
    type V = RuleView;

    open spec fn view(&self) -> RuleView {
        (self.subject@, self.shard@, self.resource@, self.action@)
    }
}

impl CapabilityRule {
    /// The rule that lets `subject` do `action` on `resource` in `shard`.
    pub fn new(subject: &str, shard: &str, resource: &str, action: &str) -> (r: Self)
        ensures
            r@ == (subject@, shard@, resource@, action@),
    {
        CapabilityRule { subject: owned(subject), shard: owned(shard), resource: owned(resource), action: owned(action) }
    }

    /// A copy of the rule.
    pub fn duplicate(&self) -> (r: Self)
        ensures
            r@ == self@,
    {
        CapabilityRule::new(self.subject.as_str(), self.shard.as_str(), self.resource.as_str(), self.action.as_str())
    }

    /// Whether two rules name the same subject, shard, resource and action.
    pub fn same_as(&self, other: &CapabilityRule) -> (r: bool)
        ensures
            r == (self@ == other@),
    {
        str_eq(self.subject.as_str(), other.subject.as_str()) && str_eq(self.shard.as_str(), other.shard.as_str())
            && str_eq(self.resource.as_str(), other.resource.as_str()) && str_eq(
            self.action.as_str(),
            other.action.as_str(),
        )
    }
}

/// A request for a capability, with how long the token should live.
#[derive(Debug, Clone)]
pub struct CapabilityRequest {
    pub subject: String,
    pub shard: String,
    pub resource: String,
    pub action: String,
    pub ttl_seconds: u64,
}

impl CapabilityRequest {
    /// The rule that would allow this request.
    pub fn rule_key(&self) -> (r: CapabilityRule)
        ensures
            r@ == (self.subject@, self.shard@, self.resource@, self.action@),
    {
        CapabilityRule::new(self.subject.as_str(), self.shard.as_str(), self.resource.as_str(), self.action.as_str())
    }
}

/// A set of allow rules.
pub struct RuleSet {
    rules: Vec<CapabilityRule>,
}

impl View for RuleSet {
    type V = Set<RuleView>;

    closed spec fn view(&self) -> Set<RuleView> {
        Set::new(|r: RuleView| exists|i: int| 0 <= i < self.rules@.len() && #[trigger] self.rules@[i]@ == r)
    }
}

impl RuleSet {
    /// No rules.
    pub fn new() -> (r: Self)
        ensures
            r@ == Set::<RuleView>::empty(),
    {
        let r = RuleSet { rules: Vec::new() };
        proof {
            assert(r@ =~= Set::<RuleView>::empty());
        }
        r
    }

    /// Whether `rule` is in the set.
    pub fn contains(&self, rule: &CapabilityRule) -> (r: bool)
        ensures
            r == self@.contains(rule@),
    {
        let mut i: usize = 0;
        while i < self.rules.len()
            invariant
                i <= self.rules@.len(),
                forall|j: int| 0 <= j < i ==> #[trigger] self.rules@[j]@ != rule@,
            decreases self.rules@.len() - i,
        {
            if self.rules[i].same_as(rule) {
                return true;
            }
            i = i + 1;
        }
        false
    }

    /// Adds `rule`; `true` when it was not in the set before.
    pub fn insert(&mut self, rule: CapabilityRule) -> (r: bool)
        ensures
            final(self)@ == old(self)@.insert(rule@),
            r == !old(self)@.contains(rule@),
    {
        if self.contains(&rule) {
            proof {
                assert(self@.insert(rule@) =~= self@);
            }
            return false;
        }
        let ghost before = self@;
        let ghost old_rules = self.rules@;
        let ghost rv = rule@;
        self.rules.push(rule);
        proof {
            assert(self@ =~= before.insert(rv)) by {
                assert forall|r: RuleView| #[trigger] self@.contains(r) implies before.insert(rv).contains(r) by {
                    let i = choose|i: int| 0 <= i < self.rules@.len() && #[trigger] self.rules@[i]@ == r;
                    if i < old_rules.len() {
                        assert(old_rules[i]@ == r);
                    }
                }
                assert forall|r: RuleView| before.insert(rv).contains(r) implies #[trigger] self@.contains(r) by {
                    if r == rv {
                        assert(self.rules@[old_rules.len() as int]@ == r);
                    } else {
                        let i = choose|i: int| 0 <= i < old_rules.len() && #[trigger] old_rules[i]@ == r;
                        assert(self.rules@[i]@ == r);
                    }
                }
            }
        }
        true
    }

    /// A copy of the set.
    pub fn duplicate(&self) -> (r: Self)
        ensures
            r@ == self@,
    {
        let mut rules: Vec<CapabilityRule> = Vec::new();
        let mut i: usize = 0;
        while i < self.rules.len()
            invariant
                i <= self.rules@.len(),
                rules@.len() == i,
                forall|j: int| 0 <= j < i ==> #[trigger] rules@[j]@ == self.rules@[j]@,
            decreases self.rules@.len() - i,
        {
            rules.push(self.rules[i].duplicate());
            i = i + 1;
        }
        let r = RuleSet { rules };
        proof {
            assert(r@ =~= self@) by {
                assert forall|x: RuleView| self@.contains(x) implies #[trigger] r@.contains(x) by {
                    let j = choose|j: int| 0 <= j < self.rules@.len() && #[trigger] self.rules@[j]@ == x;
                    assert(r.rules@[j]@ == x);
                }
                assert forall|x: RuleView| r@.contains(x) implies #[trigger] self@.contains(x) by {
                    let j = choose|j: int| 0 <= j < r.rules@.len() && #[trigger] r.rules@[j]@ == x;
                    assert(self.rules@[j]@ == x);
                }
            }
        }
        r
    }
}

/// A signed permission for one subject to do one action on one resource in
/// one shard, valid until its expiry.
#[derive(Debug, Clone)]
pub struct CapabilityToken {
    pub token_id: String,
    pub subject: String,
    pub shard: String,
    pub resource: String,
    pub action: String,
    pub issued_at_epoch_s: u64,
    pub expires_at_epoch_s: u64,
    pub signature: SignatureEnvelope,
}

/// A token's fields as values.
pub struct TokenView {
    pub token_id: Seq<char>,
    pub subject: Seq<char>,
    pub shard: Seq<char>,
    pub resource: Seq<char>,
    pub action: Seq<char>,
    pub issued_at_epoch_s: u64,
    pub expires_at_epoch_s: u64,
    pub signature: EnvelopeView,
}

impl View for CapabilityToken {
    type V = TokenView;

    open spec fn view(&self) -> TokenView {
        TokenView {
            token_id: self.token_id@,
            subject: self.subject@,
            shard: self.shard@,
            resource: self.resource@,
            action: self.action@,
            issued_at_epoch_s: self.issued_at_epoch_s,
            expires_at_epoch_s: self.expires_at_epoch_s,
            signature: self.signature@,
        }
    }
}

impl CapabilityToken {
    /// A copy of the token.
    pub fn duplicate(&self) -> (r: Self)
        ensures
            r@ == self@,
    {
        CapabilityToken {
            token_id: self.token_id.clone(),
            subject: self.subject.clone(),
            shard: self.shard.clone(),
            resource: self.resource.clone(),
            action: self.action.clone(),
            issued_at_epoch_s: self.issued_at_epoch_s,
            expires_at_epoch_s: self.expires_at_epoch_s,
            signature: self.signature.duplicate(),
        }
    }

    /// Whether two tokens agree in every field, signature included.
    pub fn same_as(&self, other: &CapabilityToken) -> (r: bool)
        ensures
            r == (self@ == other@),
    {
        str_eq(self.token_id.as_str(), other.token_id.as_str()) && str_eq(self.subject.as_str(), other.subject.as_str())
            && str_eq(self.shard.as_str(), other.shard.as_str()) && str_eq(
            self.resource.as_str(),
            other.resource.as_str(),
        ) && str_eq(self.action.as_str(), other.action.as_str()) && self.issued_at_epoch_s
            == other.issued_at_epoch_s && self.expires_at_epoch_s == other.expires_at_epoch_s && str_eq(
            self.signature.key_id.as_str(),
            other.signature.key_id.as_str(),
        ) && str_eq(self.signature.algorithm.as_str(), other.signature.algorithm.as_str()) && str_eq(
            self.signature.value_hex.as_str(),
            other.signature.value_hex.as_str(),
        )
    }
}

/// Why a capability was refused or a token rejected.
#[derive(Debug, Clone)]
pub enum PolicyError {
    DenyByDefault,
    ExpiredToken,
    InvalidSignature,
    SigningKeyExpired,
    SigningKeyRevoked,
    ShardMismatch { expected: String, actual: String },
    RevokedToken,
    UnknownToken,
    CryptoFailure(String),
    PersistenceFailure(String),
}

/// The message of a policy error.
pub open spec fn policy_error_text(e: PolicyError) -> Seq<char> {
    match e {
        PolicyError::DenyByDefault => "request denied by default policy"@,
        PolicyError::ExpiredToken => "token has expired"@,
        PolicyError::InvalidSignature => "token signature is invalid"@,
        PolicyError::SigningKeyExpired => "signing key for token has expired"@,
        PolicyError::SigningKeyRevoked => "signing key for token has been revoked"@,
        PolicyError::ShardMismatch { expected, actual } => "token shard mismatch: expected '"@ + expected@
            + "', actual '"@ + actual@ + "'"@,
        PolicyError::RevokedToken => "token has been revoked"@,
        PolicyError::UnknownToken => "token was not issued by this service"@,
        PolicyError::CryptoFailure(m) => "crypto failure: "@ + m@,
        PolicyError::PersistenceFailure(m) => "persistence failure: "@ + m@,
    }
}

impl PolicyError {
    /// The error's message.
    pub fn message(&self) -> (r: String)
        ensures
            r@ == policy_error_text(*self),
    {
        match self {
            PolicyError::DenyByDefault => owned("request denied by default policy"),
            PolicyError::ExpiredToken => owned("token has expired"),
            PolicyError::InvalidSignature => owned("token signature is invalid"),
            PolicyError::SigningKeyExpired => owned("signing key for token has expired"),
            PolicyError::SigningKeyRevoked => owned("signing key for token has been revoked"),
            PolicyError::ShardMismatch { expected, actual } => {
                let mut r = cat3("token shard mismatch: expected '", expected.as_str(), "', actual '");
                r.append(actual.as_str());
                r.append("'");
                r
            },
            PolicyError::RevokedToken => owned("token has been revoked"),
            PolicyError::UnknownToken => owned("token was not issued by this service"),
            PolicyError::CryptoFailure(m) => cat("crypto failure: ", m.as_str()),
            PolicyError::PersistenceFailure(m) => cat("persistence failure: ", m.as_str()),
        }
    }
}

/// The policy error a key ring's refusal stands for.
pub open spec fn crypto_policy_error(e: CryptoFailure) -> PolicyError {
    match e {
        CryptoFailure::KeyExpired(_) => PolicyError::SigningKeyExpired,
        CryptoFailure::KeyRevoked(_) => PolicyError::SigningKeyRevoked,
        CryptoFailure::InvalidSignature => PolicyError::InvalidSignature,
        CryptoFailure::KeyNotFound(_) => PolicyError::InvalidSignature,
        CryptoFailure::InvalidSignatureEncoding => PolicyError::InvalidSignature,
        CryptoFailure::Other(m) => PolicyError::CryptoFailure(m),
    }
}

/// The policy error for a key ring's refusal: an expired or revoked key
/// keeps its reason, an unknown key or a malformed or wrong signature is an
/// invalid signature, anything else is a crypto failure with its message.
pub fn map_crypto_error(error: CryptoFailure) -> (r: PolicyError)
    ensures
        r == crypto_policy_error(error),
{
    match error {
        CryptoFailure::KeyExpired(_) => PolicyError::SigningKeyExpired,
        CryptoFailure::KeyRevoked(_) => PolicyError::SigningKeyRevoked,
        CryptoFailure::InvalidSignature => PolicyError::InvalidSignature,
        CryptoFailure::KeyNotFound(_) => PolicyError::InvalidSignature,
        CryptoFailure::InvalidSignatureEncoding => PolicyError::InvalidSignature,
        CryptoFailure::Other(m) => PolicyError::CryptoFailure(m),
    }
}

/// The identifier of the token issued with nonce `n`.
pub open spec fn token_id_of(n: u64) -> Seq<char> {
    "tok-"@ + hex_digits(n as nat, 16)
}

/// The text a token's signature covers: its identifier, subject, shard,
/// resource, action, issue time and expiry, separated by `|`.
pub open spec fn token_payload(t: TokenView) -> Seq<char> {
    t.token_id + "|"@ + t.subject + "|"@ + t.shard + "|"@ + t.resource + "|"@ + t.action + "|"@ + dec_digits(
        t.issued_at_epoch_s as nat,
    ) + "|"@ + dec_digits(t.expires_at_epoch_s as nat)
}

/// The text the signature of `token` covers.
pub fn signature_payload(token: &CapabilityToken) -> (r: String)
    ensures
        r@ == token_payload(token@),
{
    let mut r = cat3(token.token_id.as_str(), "|", token.subject.as_str());
    r.append("|");
    r.append(token.shard.as_str());
    r.append("|");
    r.append(token.resource.as_str());
    r.append("|");
    r.append(token.action.as_str());
    r.append("|");
    r.append(decimal(token.issued_at_epoch_s).as_str());
    r.append("|");
    r.append(decimal(token.expires_at_epoch_s).as_str());
    r
}

/// The policy service's state: allow rules, drafted tokens waiting for
/// their signature and issued tokens, each by identifier, revoked token
/// identifiers, and the nonce of the next token.
pub struct PolicyView {
    pub rules: Set<RuleView>,
    pub pending: Map<Seq<char>, TokenView>,
    pub issued: Map<Seq<char>, TokenView>,
    pub revoked: Set<Seq<char>>,
    pub next_nonce: u64,
}

/// The issued tokens by identifier, as values.
pub open spec fn tokens_view(m: Map<Seq<char>, CapabilityToken>) -> Map<Seq<char>, TokenView> {
    m.map_values(|t: CapabilityToken| t@)
}

/// What the policy service keeps across restarts.
pub struct PolicyRuntimeState {
    pub allow_rules: RuleSet,
    pub issued_tokens: StrMap<CapabilityToken>,
    pub revoked_tokens: StrSet,
    pub next_token_nonce: u64,
}

/// Decides capability requests and checks tokens, deny by default.
pub struct PolicyService {
    allow_rules: RuleSet,
    pending_drafts: StrMap<CapabilityToken>,
    issued_tokens: StrMap<CapabilityToken>,
    revoked_tokens: StrSet,
    next_token_nonce: u64,
}

impl View for PolicyService {
    type V = PolicyView;

    closed spec fn view(&self) -> PolicyView {
        PolicyView {
            rules: self.allow_rules@,
            pending: tokens_view(self.pending_drafts@),
            issued: tokens_view(self.issued_tokens@),
            revoked: self.revoked_tokens@,
            next_nonce: self.next_token_nonce,
        }
    }
}

/// The request's fields as the payload of a denial event.
pub open spec fn denial_payload(r: CapabilityRequest) -> Seq<char> {
    "subject="@ + r.subject@ + " shard="@ + r.shard@ + " resource="@ + r.resource@ + " action="@ + r.action@
}

/// The token drafted for an allowed request: the next identifier, the
/// request's fields, issued now, expiring `ttl` later (at most `u64::MAX`),
/// not signed yet.
pub open spec fn drafted(n: u64, req: CapabilityRequest, now: u64) -> TokenView {
    TokenView {
        token_id: token_id_of(n),
        subject: req.subject@,
        shard: req.shard@,
        resource: req.resource@,
        action: req.action@,
        issued_at_epoch_s: now,
        expires_at_epoch_s: if now + req.ttl_seconds <= u64::MAX { (now + req.ttl_seconds) as u64 } else { u64::MAX },
        signature: EnvelopeView { key_id: Seq::empty(), algorithm: Seq::empty(), value_hex: Seq::empty() },
    }
}

/// Why a token is rejected before its signature is looked at.
pub enum Rejection {
    Revoked,
    ShardMismatch,
    Expired,
    UnknownToken,
    Tampered,
}

/// The reason a rejection is audited with.
pub open spec fn rejection_reason(k: Rejection) -> Seq<char> {
    match k {
        Rejection::Revoked => "revoked"@,
        Rejection::ShardMismatch => "shard-mismatch"@,
        Rejection::Expired => "expired"@,
        Rejection::UnknownToken => "unknown-token"@,
        Rejection::Tampered => "tamper-detected"@,
    }
}

/// Why a token is rejected, if it is, before its signature is looked at: a
/// revoked token, another shard, an expired token, a token never issued, or
/// one that differs from the token issued, in that order.
pub open spec fn precheck(v: PolicyView, t: TokenView, expected: Seq<char>, now: u64) -> Option<Rejection> {
    if v.revoked.contains(t.token_id) {
        Some(Rejection::Revoked)
    } else if t.shard != expected {
        Some(Rejection::ShardMismatch)
    } else if now >= t.expires_at_epoch_s {
        Some(Rejection::Expired)
    } else if !v.issued.contains_key(t.token_id) {
        Some(Rejection::UnknownToken)
    } else if v.issued[t.token_id] != t {
        Some(Rejection::Tampered)
    } else {
        None
    }
}

/// Whether `r` is the error for rejection `k` of a token for shard `actual`
/// checked for shard `expected`.
pub open spec fn rejected_as(r: Result<(), PolicyError>, k: Rejection, expected: Seq<char>, actual: Seq<char>) -> bool {
    match k {
        Rejection::Revoked => r matches Err(PolicyError::RevokedToken),
        Rejection::ShardMismatch => r matches Err(PolicyError::ShardMismatch { expected: e, actual: a })
            && e@ == expected && a@ == actual,
        Rejection::Expired => r matches Err(PolicyError::ExpiredToken),
        Rejection::UnknownToken => r matches Err(PolicyError::UnknownToken),
        Rejection::Tampered => r matches Err(PolicyError::InvalidSignature),
    }
}

/// The counter after taking nonce `n`: one more, stopping at the maximum.
pub open spec fn bumped(n: u64) -> u64 {
    if n < u64::MAX { (n + 1) as u64 } else { u64::MAX }
}

/// What deciding `req` at `now` does, from state `v` and audit events `log`
/// to answer `r`, state `v2` and events `log2`: without an allow rule it is
/// denied and the denial audited; otherwise the next token is drafted and
/// the nonce taken.
pub open spec fn draft_step(
    v: PolicyView,
    log: Seq<(Seq<char>, Seq<char>)>,
    req: CapabilityRequest,
    now: u64,
    r: Result<CapabilityToken, PolicyError>,
    v2: PolicyView,
    log2: Seq<(Seq<char>, Seq<char>)>,
) -> bool {
    if !v.rules.contains(req.rule_key_view()) {
        &&& r matches Err(PolicyError::DenyByDefault)
        &&& v2 == v
        &&& log2 == log.push(("policyd.request.denied"@, denial_payload(req)))
    } else {
        &&& r matches Ok(t) && t@ == drafted(v.next_nonce, req, now)
        &&& v2 == (PolicyView {
            next_nonce: bumped(v.next_nonce),
            pending: v.pending.insert(token_id_of(v.next_nonce), drafted(v.next_nonce, req, now)),
            ..v
        })
        &&& log2 == log
    }
}

/// The rule a token stands on.
pub open spec fn token_rule(t: TokenView) -> RuleView {
    (t.subject, t.shard, t.resource, t.action)
}

/// The payload of the denial event of a token that may not be issued.
pub open spec fn token_denial_payload(t: TokenView) -> Seq<char> {
    "subject="@ + t.subject + " shard="@ + t.shard + " resource="@ + t.resource + " action="@ + t.action
}

/// Whether `token` may be issued: it is the draft waiting under its
/// identifier, and an allow rule still covers it.
pub open spec fn issuable(v: PolicyView, token: TokenView) -> bool {
    &&& v.rules.contains(token_rule(token))
    &&& v.pending.contains_key(token.token_id)
    &&& v.pending[token.token_id] == token
}

/// What issuing `token` with the key ring's answer `signed` does: a token
/// that is not a waiting draft, or that no allow rule covers any more, is
/// denied by default and the denial audited; otherwise a signature makes the
/// signed token issued, no longer waiting, and audited, and a refusal gives
/// the matching error and changes nothing.
pub open spec fn issue_step(
    v: PolicyView,
    log: Seq<(Seq<char>, Seq<char>)>,
    token: TokenView,
    signed: Result<SignatureEnvelope, CryptoFailure>,
    r: Result<CapabilityToken, PolicyError>,
    v2: PolicyView,
    log2: Seq<(Seq<char>, Seq<char>)>,
) -> bool {
    if !issuable(v, token) {
        &&& r matches Err(PolicyError::DenyByDefault)
        &&& v2 == v
        &&& log2 == log.push(("policyd.request.denied"@, token_denial_payload(token)))
    } else {
        match signed {
            Ok(sig) => {
                &&& r matches Ok(t) && t@ == (TokenView { signature: sig@, ..token })
                &&& v2 == (PolicyView {
                    issued: v.issued.insert(token.token_id, TokenView { signature: sig@, ..token }),
                    pending: v.pending.remove(token.token_id),
                    ..v
                })
                &&& log2 == log.push(("policyd.token.issued"@, token.token_id))
            },
            Err(e) => {
                &&& r matches Err(pe) && pe == crypto_policy_error(e)
                &&& v2 == v
                &&& log2 == log
            },
        }
    }
}

/// What checking `token` for shard `expected` at `now`, with the key ring's
/// verdict on its signature, answers and audits; the state does not change.
pub open spec fn validate_step(
    v: PolicyView,
    log: Seq<(Seq<char>, Seq<char>)>,
    token: TokenView,
    expected: Seq<char>,
    now: u64,
    signature_check: Result<(), CryptoFailure>,
    r: Result<(), PolicyError>,
    log2: Seq<(Seq<char>, Seq<char>)>,
) -> bool {
    match precheck(v, token, expected, now) {
        Some(k) => {
            &&& rejected_as(r, k, expected, token.shard)
            &&& log2 == log.push(("policyd.token.rejected"@, rejection_reason(k)))
        },
        None => match signature_check {
            Ok(()) => {
                &&& r is Ok
                &&& log2 == log.push(("policyd.token.validated"@, token.token_id))
            },
            Err(e) => {
                &&& r matches Err(pe) && pe == crypto_policy_error(e)
                &&& log2 == log.push(("policyd.token.rejected"@, "invalid-signature"@))
            },
        },
    }
}

/// What revoking `id` does: a token never issued is not revoked and that is
/// audited; an issued one joins the revoked set, audited when it is new
/// there; the answer says whether it was new.
pub open spec fn revoke_step(
    v: PolicyView,
    log: Seq<(Seq<char>, Seq<char>)>,
    id: Seq<char>,
    r: bool,
    v2: PolicyView,
    log2: Seq<(Seq<char>, Seq<char>)>,
) -> bool {
    if !v.issued.contains_key(id) {
        &&& !r
        &&& v2 == v
        &&& log2 == log.push(("policyd.token.revoke-missing"@, id))
    } else {
        &&& r == !v.revoked.contains(id)
        &&& v2 == (PolicyView { revoked: v.revoked.insert(id), ..v })
        &&& log2 == if r { log.push(("policyd.token.revoked"@, id)) } else { log }
    }
}

impl PolicyService {
    /// A service with no rules, no tokens, and the first nonce one.
    pub fn new() -> (r: Self)
        ensures
            r@ == (PolicyView {
                rules: Set::empty(),
                pending: Map::empty(),
                issued: Map::empty(),
                revoked: Set::empty(),
                next_nonce: 1,
            }),
    {
        let r = PolicyService {
            allow_rules: RuleSet::new(),
            pending_drafts: StrMap::new(),
            issued_tokens: StrMap::new(),
            revoked_tokens: StrSet::new(),
            next_token_nonce: 1,
        };
        proof {
            assert(tokens_view(r.issued_tokens@) =~= Map::<Seq<char>, TokenView>::empty());
            assert(tokens_view(r.pending_drafts@) =~= Map::<Seq<char>, TokenView>::empty());
        }
        r
    }

    /// Allows `rule`; `true` when it was not allowed before.
    pub fn allow_rule(&mut self, rule: CapabilityRule) -> (r: bool)
        ensures
            final(self)@ == (PolicyView { rules: old(self)@.rules.insert(rule@), ..old(self)@ }),
            r == !old(self)@.rules.contains(rule@),
    {
        self.allow_rules.insert(rule)
    }

    /// Records that the key ring rotated to `key_id`, active or not.
    pub fn rotate_signing_key(&mut self, key_id: &str, activate: bool, audit_log: &mut Vec<AuditEvent>)
        ensures
            final(self)@ == old(self)@,
            audit_view(final(audit_log)@) == audit_view(old(audit_log)@).push((
                "policyd.key.rotated"@,
                "key_id="@ + key_id@ + " active="@ + bool_text(activate),
            )),
    {
        let mut payload = cat3("key_id=", key_id, " active=");
        payload.append(bool_str(activate));
        record(audit_log, "policyd.key.rotated", payload);
    }

    /// Records the key ring's revocation of `key_id`; audited only when the
    /// key ring did revoke it. Gives whether it did.
    pub fn revoke_signing_key(&mut self, key_id: &str, revoked: bool, audit_log: &mut Vec<AuditEvent>) -> (r: bool)
        ensures
            r == revoked,
            final(self)@ == old(self)@,
            audit_view(final(audit_log)@) == if revoked {
                audit_view(old(audit_log)@).push(("policyd.key.revoked"@, key_id@))
            } else {
                audit_view(old(audit_log)@)
            },
    {
        if revoked {
            record(audit_log, "policyd.key.revoked", owned(key_id));
        }
        revoked
    }

    /// Decides `request` at `now`: without an allow rule it is denied and the
    /// denial audited; otherwise the next nonce is taken (the counter stops at
    /// its maximum) and the unsigned token is drafted for the key ring to sign.
    pub fn draft_token(&mut self, request: &CapabilityRequest, now_epoch_s: u64, audit_log: &mut Vec<AuditEvent>) -> (r: Result<CapabilityToken, PolicyError>)
        ensures
            draft_step(old(self)@, audit_view(old(audit_log)@), *request, now_epoch_s, r, final(self)@, audit_view(final(audit_log)@)),
    {
        if !self.allow_rules.contains(&request.rule_key()) {
            let mut payload = cat("subject=", request.subject.as_str());
            payload.append(" shard=");
            payload.append(request.shard.as_str());
            payload.append(" resource=");
            payload.append(request.resource.as_str());
            payload.append(" action=");
            payload.append(request.action.as_str());
            record(audit_log, "policyd.request.denied", payload);
            return Err(PolicyError::DenyByDefault);
        }
        let token_id = cat("tok-", hex16(self.next_token_nonce).as_str());
        self.next_token_nonce = self.next_token_nonce.saturating_add(1);
        let expires_at_epoch_s = now_epoch_s.saturating_add(request.ttl_seconds);
        let token = CapabilityToken {
            token_id,
            subject: request.subject.clone(),
            shard: request.shard.clone(),
            resource: request.resource.clone(),
            action: request.action.clone(),
            issued_at_epoch_s: now_epoch_s,
            expires_at_epoch_s,
            signature: SignatureEnvelope::empty(),
        };
        let ghost before = self.pending_drafts@;
        self.pending_drafts.insert(token.token_id.clone(), token.duplicate());
        proof {
            assert(tokens_view(self.pending_drafts@) =~= tokens_view(before).insert(token.token_id@, token@));
        }
        Ok(token)
    }

    /// Issues a drafted token with the key ring's signature of its payload:
    /// the signed token is recorded and audited. Only the draft waiting under
    /// the token's identifier, still covered by an allow rule, is issued; any
    /// other token is denied by default and the denial audited. A key ring
    /// that refused to sign gives the matching error and nothing is recorded.
    pub fn issue_token(&mut self, token: CapabilityToken, signed: Result<SignatureEnvelope, CryptoFailure>, audit_log: &mut Vec<AuditEvent>) -> (r: Result<CapabilityToken, PolicyError>)
        ensures
            issue_step(old(self)@, audit_view(old(audit_log)@), token@, signed, r, final(self)@, audit_view(final(audit_log)@)),
    {
        let rule = CapabilityRule::new(token.subject.as_str(), token.shard.as_str(), token.resource.as_str(), token.action.as_str());
        let waiting = match self.pending_drafts.get(token.token_id.as_str()) {
            Some(draft) => draft.same_as(&token),
            None => false,
        };
        if !waiting || !self.allow_rules.contains(&rule) {
            let mut payload = cat("subject=", token.subject.as_str());
            payload.append(" shard=");
            payload.append(token.shard.as_str());
            payload.append(" resource=");
            payload.append(token.resource.as_str());
            payload.append(" action=");
            payload.append(token.action.as_str());
            record(audit_log, "policyd.request.denied", payload);
            return Err(PolicyError::DenyByDefault);
        }
        match signed {
            Ok(sig) => {
                let mut token = token;
                let ghost unsigned = token@;
                token.signature = sig;
                let id = token.token_id.clone();
                let ghost before = self.issued_tokens@;
                let ghost before_pending = self.pending_drafts@;
                self.issued_tokens.insert(token.token_id.clone(), token.duplicate());
                let _ = self.pending_drafts.remove(id.as_str());
                proof {
                    assert(tokens_view(self.issued_tokens@) =~= tokens_view(before).insert(id@, token@));
                    assert(tokens_view(self.pending_drafts@) =~= tokens_view(before_pending).remove(id@));
                }
                record(audit_log, "policyd.token.issued", id);
                Ok(token)
            },
            Err(e) => Err(map_crypto_error(e)),
        }
    }

    /// Checks `token` for `expected_shard` at `now`, with what the key ring
    /// said of its signature. In order: a revoked token, another shard, an
    /// expired token, a token never issued, a token that differs from the one
    /// issued, and a signature the key ring refused are each rejected and the
    /// rejection audited; a token that passes all is validated and audited.
    pub fn validate_token(
        &self,
        token: &CapabilityToken,
        expected_shard: &str,
        now_epoch_s: u64,
        signature_check: Result<(), CryptoFailure>,
        audit_log: &mut Vec<AuditEvent>,
    ) -> (r: Result<(), PolicyError>)
        ensures
            validate_step(self@, audit_view(old(audit_log)@), token@, expected_shard@, now_epoch_s, signature_check, r, audit_view(final(audit_log)@)),
    {
        if self.revoked_tokens.contains(token.token_id.as_str()) {
            record(audit_log, "policyd.token.rejected", owned("revoked"));
            return Err(PolicyError::RevokedToken);
        }
        if !str_eq(token.shard.as_str(), expected_shard) {
            record(audit_log, "policyd.token.rejected", owned("shard-mismatch"));
            return Err(PolicyError::ShardMismatch { expected: owned(expected_shard), actual: token.shard.clone() });
        }
        if now_epoch_s >= token.expires_at_epoch_s {
            record(audit_log, "policyd.token.rejected", owned("expired"));
            return Err(PolicyError::ExpiredToken);
        }
        match self.issued_tokens.get(token.token_id.as_str()) {
            None => {
                record(audit_log, "policyd.token.rejected", owned("unknown-token"));
                return Err(PolicyError::UnknownToken);
            },
            Some(issued) => {
                if !token.same_as(issued) {
                    record(audit_log, "policyd.token.rejected", owned("tamper-detected"));
                    return Err(PolicyError::InvalidSignature);
                }
            },
        }
        match signature_check {
            Ok(()) => {
                record(audit_log, "policyd.token.validated", token.token_id.clone());
                Ok(())
            },
            Err(e) => {
                record(audit_log, "policyd.token.rejected", owned("invalid-signature"));
                Err(map_crypto_error(e))
            },
        }
    }

    /// Revokes an issued token; `true` when it was not revoked before. A
    /// token never issued is not revoked, and that is audited too.
    pub fn revoke_token(&mut self, token_id: &str, audit_log: &mut Vec<AuditEvent>) -> (r: bool)
        ensures
            revoke_step(old(self)@, audit_view(old(audit_log)@), token_id@, r, final(self)@, audit_view(final(audit_log)@)),
    {
        if !self.issued_tokens.contains_key(token_id) {
            record(audit_log, "policyd.token.revoke-missing", owned(token_id));
            return false;
        }
        let inserted = self.revoked_tokens.insert(owned(token_id));
        if inserted {
            record(audit_log, "policyd.token.revoked", owned(token_id));
        }
        inserted
    }

    /// What the service keeps across restarts.
    pub fn runtime_state(&self) -> (r: PolicyRuntimeState)
        ensures
            r.allow_rules@ == self@.rules,
            tokens_view(r.issued_tokens@) == self@.issued,
            r.revoked_tokens@ == self@.revoked,
            r.next_token_nonce == self@.next_nonce,
    {
        PolicyRuntimeState {
            allow_rules: self.allow_rules.duplicate(),
            issued_tokens: copy_tokens(&self.issued_tokens),
            revoked_tokens: self.revoked_tokens.duplicate(),
            next_token_nonce: self.next_token_nonce,
        }
    }

    /// Takes on a kept state in full.
    pub fn apply_runtime_state(&mut self, state: PolicyRuntimeState)
        ensures
            final(self)@ == (PolicyView {
                rules: state.allow_rules@,
                pending: Map::empty(),
                issued: tokens_view(state.issued_tokens@),
                revoked: state.revoked_tokens@,
                next_nonce: state.next_token_nonce,
            }),
    {
        self.allow_rules = state.allow_rules;
        self.pending_drafts = StrMap::new();
        proof {
            assert(tokens_view(self.pending_drafts@) =~= Map::<Seq<char>, TokenView>::empty());
        }
        self.issued_tokens = state.issued_tokens;
        self.revoked_tokens = state.revoked_tokens;
        self.next_token_nonce = state.next_token_nonce;
    }
}

impl CapabilityRequest {
    /// The rule that would allow this request, as values.
    pub open spec fn rule_key_view(&self) -> RuleView {
        (self.subject@, self.shard@, self.resource@, self.action@)
    }
}

/// A copy of a map of tokens.
fn copy_tokens(m: &StrMap<CapabilityToken>) -> (r: StrMap<CapabilityToken>)
    ensures
        tokens_view(r@) == tokens_view(m@),
{
    let mut out: StrMap<CapabilityToken> = StrMap::new();
    let entries = m.entries();
    let mut i: usize = 0;
    while i < entries.len()
        invariant
            i <= entries@.len(),
            entries@.len() == m@.len(),
            forall|j: int| #![trigger entries@[j]] 0 <= j < entries@.len() ==> m@.contains_key(entries@[j].0@)
                && m@[entries@[j].0@] == entries@[j].1,
            forall|k: Seq<char>| #[trigger] m@.contains_key(k) ==> exists|j: int|
                0 <= j < entries@.len() && #[trigger] entries@[j].0@ == k,
            forall|j: int| #![trigger entries@[j]] 0 <= j < i ==> out@.contains_key(entries@[j].0@)
                && out@[entries@[j].0@]@ == entries@[j].1@,
            forall|k: Seq<char>| #[trigger] out@.contains_key(k) ==> exists|j: int|
                0 <= j < i && #[trigger] entries@[j].0@ == k,
        decreases entries@.len() - i,
    {
        let ghost before = out@;
        out.insert(entries[i].0.clone(), entries[i].1.duplicate());
        proof {
            assert forall|j: int| #![trigger entries@[j]] 0 <= j < i + 1 implies out@.contains_key(entries@[j].0@)
                && out@[entries@[j].0@]@ == entries@[j].1@ by {
                if j < i && entries@[j].0@ != entries@[i as int].0@ {
                    assert(before.contains_key(entries@[j].0@));
                } else if j < i {
                    assert(m@[entries@[j].0@] == entries@[j].1);
                    assert(m@[entries@[i as int].0@] == entries@[i as int].1);
                }
            }
            assert forall|k: Seq<char>| #[trigger] out@.contains_key(k) implies exists|j: int|
                0 <= j < i + 1 && #[trigger] entries@[j].0@ == k by {
                if k != entries@[i as int].0@ {
                    assert(before.contains_key(k));
                    let j = choose|j: int| 0 <= j < i && #[trigger] entries@[j].0@ == k;
                    assert(entries@[j].0@ == k);
                } else {
                    assert(entries@[i as int].0@ == k);
                }
            }
        }
        i = i + 1;
    }
    proof {
        assert(tokens_view(out@) =~= tokens_view(m@)) by {
            assert forall|k: Seq<char>| #[trigger] m@.contains_key(k) implies out@.contains_key(k) && out@[k]@ == m@[k]@ by {
                let j = choose|j: int| 0 <= j < entries@.len() && #[trigger] entries@[j].0@ == k;
            }
            assert forall|k: Seq<char>| #[trigger] out@.contains_key(k) implies m@.contains_key(k) by {
                let j = choose|j: int| 0 <= j < entries@.len() && #[trigger] entries@[j].0@ == k;
            }
        }
    }
    out
}

/// The outcome of checking a token, as a validity flag and a reason.
pub struct ValidationResult {
    pub valid: bool,
    pub reason: Option<String>,
}

/// The validation result for the outcome of a token check: valid with no
/// reason, or invalid with the error's message.
pub fn validation_result(outcome: &Result<(), PolicyError>) -> (r: ValidationResult)
    ensures
        match outcome {
            Ok(()) => {
            &&& r.valid
            &&& r.reason is None
        },
            Err(e) => {
            &&& !r.valid
            &&& r.reason matches Some(m) && m@ == policy_error_text(*e)
        },
        },
{
    match outcome {
        Ok(()) => ValidationResult { valid: true, reason: None },
        Err(e) => ValidationResult { valid: false, reason: Some(e.message()) },
    }
}

/// The role a caller needs for each policy method; `None` for an unknown method.
pub open spec fn policy_role_of(method: Seq<char>) -> Option<Seq<char>> {
    if method == "EvaluateCapability"@ || method == "ValidateCapability"@ {
        Some("policy-client"@)
    } else if method == "RevokeCapability"@ || method == "RotateSigningKey"@ {
        Some("policy-admin"@)
    } else {
        None
    }
}

/// The role a caller needs to call `method`, or `None` when there is no such method.
pub fn policy_method_role(method: &str) -> (r: Option<&'static str>)
    ensures
        match r {
            Some(role) => policy_role_of(method@) == Some(role@),
            None => policy_role_of(method@) is None,
        },
{
    if str_eq(method, "EvaluateCapability") || str_eq(method, "ValidateCapability") {
        Some("policy-client")
    } else if str_eq(method, "RevokeCapability") || str_eq(method, "RotateSigningKey") {
        Some("policy-admin")
    } else {
        None
    }
}

/// Asks for a capability at a given time.
pub struct EvaluateCapabilityPayload {
    pub request: CapabilityRequest,
    pub now_epoch_s: u64,
}

/// Asks for a token to be checked for a shard at a given time.
pub struct ValidateCapabilityPayload {
    pub token: CapabilityToken,
    pub expected_shard: String,
    pub now_epoch_s: u64,
}

/// Names a token to revoke.
pub struct RevokeCapabilityPayload {
    pub token_id: String,
}

/// A new signing key for the key ring.
pub struct RotateSigningKeyPayload {
    pub key_id: String,
    pub secret: String,
    pub not_after_epoch_s: Option<u64>,
    pub activate: bool,
}

/// The key ring's active key after a rotation.
pub struct RotateSigningKeyResponse {
    pub active_key_id: String,
}

/// Deny by default: a request that no allow rule covers is refused, and
/// the service is left as it was.
pub proof fn lemma_uncovered_request_is_denied(
    v: PolicyView,
    log: Seq<(Seq<char>, Seq<char>)>,
    req: CapabilityRequest,
    now: u64,
    r: Result<CapabilityToken, PolicyError>,
    v2: PolicyView,
    log2: Seq<(Seq<char>, Seq<char>)>,
)
    requires
        draft_step(v, log, req, now, r, v2, log2),
        !v.rules.contains(req.rule_key_view()),
    ensures
        r matches Err(PolicyError::DenyByDefault),
        v2 == v,
{
}

/// Every issued token is covered by an allow rule.
pub open spec fn issued_covered(v: PolicyView) -> bool {
    forall|id: Seq<char>| #[trigger] v.issued.contains_key(id) ==> v.rules.contains(token_rule(v.issued[id]))
}

/// Deny by default across drafting and issuing: a token is issued only as
/// the draft waiting under its identifier and while an allow rule covers
/// it, so issuing never makes a token issued that no rule covers.
pub proof fn lemma_issuing_keeps_tokens_covered(
    v: PolicyView,
    log: Seq<(Seq<char>, Seq<char>)>,
    token: TokenView,
    signed: Result<SignatureEnvelope, CryptoFailure>,
    r: Result<CapabilityToken, PolicyError>,
    v2: PolicyView,
    log2: Seq<(Seq<char>, Seq<char>)>,
)
    requires
        issued_covered(v),
        issue_step(v, log, token, signed, r, v2, log2),
    ensures
        issued_covered(v2),
        r is Ok ==> issuable(v, token),
        !v.rules.contains(token_rule(token)) ==> (r matches Err(PolicyError::DenyByDefault) && v2 == v),
{
    if issuable(v, token) {
        if let Ok(sig) = signed {
            let t2 = TokenView { signature: sig@, ..token };
            assert(token_rule(t2) == token_rule(token));
            assert forall|id: Seq<char>| #[trigger] v2.issued.contains_key(id) implies v2.rules.contains(
                token_rule(v2.issued[id]),
            ) by {
                if id != token.token_id {
                    assert(v.issued.contains_key(id));
                }
            }
        }
    }
}

/// Drafting a token, revoking one and adding a rule keep every issued token
/// covered by an allow rule.
pub proof fn lemma_other_steps_keep_tokens_covered(
    v: PolicyView,
    log: Seq<(Seq<char>, Seq<char>)>,
    req: CapabilityRequest,
    now: u64,
    r: Result<CapabilityToken, PolicyError>,
    v2: PolicyView,
    log2: Seq<(Seq<char>, Seq<char>)>,
    id: Seq<char>,
    revoked: bool,
    v3: PolicyView,
    log3: Seq<(Seq<char>, Seq<char>)>,
    rule: RuleView,
)
    requires
        issued_covered(v),
    ensures
        draft_step(v, log, req, now, r, v2, log2) ==> issued_covered(v2),
        revoke_step(v, log, id, revoked, v3, log3) ==> issued_covered(v3),
        issued_covered(PolicyView { rules: v.rules.insert(rule), ..v }),
{
    let v4 = PolicyView { rules: v.rules.insert(rule), ..v };
    assert forall|k: Seq<char>| #[trigger] v4.issued.contains_key(k) implies v4.rules.contains(token_rule(v4.issued[k])) by {
        assert(v.rules.contains(token_rule(v.issued[k])));
    }
}

/// A revoked token is rejected as revoked, whatever else holds of it.
pub proof fn lemma_revoked_token_is_rejected(v: PolicyView, t: TokenView, expected: Seq<char>, now: u64)
    requires
        v.revoked.contains(t.token_id),
    ensures
        precheck(v, t, expected, now) == Some(Rejection::Revoked),
{
}

/// A token exactly as issued, not revoked, checked for its own shard before
/// it expires, is rejected for nothing but its signature.
pub proof fn lemma_issued_token_passes_checks(v: PolicyView, t: TokenView, now: u64)
    requires
        v.issued.contains_key(t.token_id),
        v.issued[t.token_id] == t,
        !v.revoked.contains(t.token_id),
        now < t.expires_at_epoch_s,
    ensures
        precheck(v, t, t.shard, now) is None,
{
}

/// A token that differs in any field from the token issued under its
/// identifier is rejected as tampered, if nothing earlier rejects it.
pub proof fn lemma_altered_token_is_rejected(v: PolicyView, t: TokenView, now: u64)
    requires
        v.issued.contains_key(t.token_id),
        v.issued[t.token_id] != t,
        !v.revoked.contains(t.token_id),
        now < t.expires_at_epoch_s,
    ensures
        precheck(v, t, t.shard, now) == Some(Rejection::Tampered),
{
}

/// A token is expired from its expiry time on: checked at or after it, a
/// token not revoked and for the expected shard is rejected as expired.
pub proof fn lemma_expired_token_is_rejected(v: PolicyView, t: TokenView, now: u64)
    requires
        !v.revoked.contains(t.token_id),
        now >= t.expires_at_epoch_s,
    ensures
        precheck(v, t, t.shard, now) == Some(Rejection::Expired),
{
}

/// A decoded policy request. The key ring's part is carried in: the
/// signature it made for a drafted token, its verdict on a token's
/// signature, and its active key after a rotation.
pub enum PolicyRequest {
    EvaluateCapability(EvaluateCapabilityPayload),
    IssueCapability(CapabilityToken, Result<SignatureEnvelope, CryptoFailure>),
    ValidateCapability(ValidateCapabilityPayload, Result<(), CryptoFailure>),
    RevokeCapability(RevokeCapabilityPayload),
    RotateSigningKey(RotateSigningKeyPayload, String),
}

/// The role a caller needs for a decoded policy request.
pub open spec fn policy_request_role(request: PolicyRequest) -> Seq<char> {
    match request {
        PolicyRequest::EvaluateCapability(_) => "policy-client"@,
        PolicyRequest::IssueCapability(_, _) => "policy-client"@,
        PolicyRequest::ValidateCapability(_, _) => "policy-client"@,
        PolicyRequest::RevokeCapability(_) => "policy-admin"@,
        PolicyRequest::RotateSigningKey(_, _) => "policy-admin"@,
    }
}

impl PolicyRequest {
    /// The role a caller needs for this request.
    pub fn required_role(&self) -> (r: &'static str)
        ensures
            r@ == policy_request_role(*self),
    {
        match self {
            PolicyRequest::EvaluateCapability(_) => "policy-client",
            PolicyRequest::IssueCapability(_, _) => "policy-client",
            PolicyRequest::ValidateCapability(_, _) => "policy-client",
            PolicyRequest::RevokeCapability(_) => "policy-admin",
            PolicyRequest::RotateSigningKey(_, _) => "policy-admin",
        }
    }
}

/// The answer to a policy request.
pub enum PolicyResponse {
    Drafted(CapabilityToken),
    Issued(CapabilityToken),
    Validation(ValidationResult),
    Revoked(bool),
    Rotated(RotateSigningKeyResponse),
}

/// The policy service together with the audit events it has produced.
pub struct PolicyIpcHandler {
    pub service: PolicyService,
    pub audit_log: Vec<AuditEvent>,
}

/// The message of rejection `k` of a token for shard `actual` checked for
/// shard `expected`.
pub open spec fn rejection_text(k: Rejection, expected: Seq<char>, actual: Seq<char>) -> Seq<char> {
    match k {
        Rejection::Revoked => "token has been revoked"@,
        Rejection::ShardMismatch => "token shard mismatch: expected '"@ + expected + "', actual '"@ + actual + "'"@,
        Rejection::Expired => "token has expired"@,
        Rejection::UnknownToken => "token was not issued by this service"@,
        Rejection::Tampered => "token signature is invalid"@,
    }
}

/// Why a token check fails, as a message; `None` when the token is valid.
pub open spec fn validation_text(v: PolicyView, t: TokenView, expected: Seq<char>, now: u64, check: Result<(), CryptoFailure>) -> Option<Seq<char>> {
    match precheck(v, t, expected, now) {
        Some(k) => Some(rejection_text(k, expected, t.shard)),
        None => match check {
            Ok(()) => None,
            Err(e) => Some(policy_error_text(crypto_policy_error(e))),
        },
    }
}

/// The audit event a token check leaves.
pub open spec fn validation_event(v: PolicyView, t: TokenView, expected: Seq<char>, now: u64, check: Result<(), CryptoFailure>) -> (Seq<char>, Seq<char>) {
    match precheck(v, t, expected, now) {
        Some(k) => ("policyd.token.rejected"@, rejection_reason(k)),
        None => match check {
            Ok(()) => ("policyd.token.validated"@, t.token_id),
            Err(_) => ("policyd.token.rejected"@, "invalid-signature"@),
        },
    }
}

proof fn lemma_validate_step_facts(
    v: PolicyView,
    log: Seq<(Seq<char>, Seq<char>)>,
    t: TokenView,
    expected: Seq<char>,
    now: u64,
    check: Result<(), CryptoFailure>,
    o: Result<(), PolicyError>,
    log2: Seq<(Seq<char>, Seq<char>)>,
)
    requires
        validate_step(v, log, t, expected, now, check, o, log2),
    ensures
        log2 == log.push(validation_event(v, t, expected, now, check)),
        (o is Ok) == (validation_text(v, t, expected, now, check) is None),
        o matches Err(e) ==> validation_text(v, t, expected, now, check) == Some(policy_error_text(e)),
{
}

impl PolicyIpcHandler {
    /// A handler over `service`, with no audit events yet.
    pub fn new(service: PolicyService) -> (r: Self)
        ensures
            r.service@ == service@,
            r.audit_log@ == Seq::<AuditEvent>::empty(),
    {
        PolicyIpcHandler { service, audit_log: Vec::new() }
    }

    /// Carries out a decoded request for a caller that holds the role the
    /// request needs; any other caller is refused as unauthorized and nothing
    /// changes. A refused capability or token to issue is answered with the
    /// error's message; a token check is always answered, with whether the
    /// token is valid and why not.
    pub fn handle(&mut self, auth: &AuthContext, request: PolicyRequest) -> (r: Result<PolicyResponse, IpcError>)
        ensures
            !has_role(*auth, policy_request_role(request)) ==> {
                &&& r matches Err(IpcError::Unauthorized { caller_id, required_role })
                &&& caller_id@ == auth.caller_id@ && required_role@ == policy_request_role(request)
                &&& final(self).service@ == old(self).service@
                &&& final(self).audit_log@ == old(self).audit_log@
            },
            has_role(*auth, policy_request_role(request)) ==> match request {
                PolicyRequest::EvaluateCapability(ep) => match r {
                    Ok(PolicyResponse::Drafted(x)) => draft_step(old(self).service@, audit_view(old(self).audit_log@), ep.request,
                        ep.now_epoch_s, Ok(x), final(self).service@, audit_view(final(self).audit_log@)),
                    Err(IpcError::Internal(m)) => m@ == policy_error_text(PolicyError::DenyByDefault) && draft_step(old(self).service@,
                        audit_view(old(self).audit_log@), ep.request, ep.now_epoch_s, Err(PolicyError::DenyByDefault),
                        final(self).service@, audit_view(final(self).audit_log@)),
                    _ => false,
                },
                PolicyRequest::IssueCapability(token, signed) => {
                    let v = old(self).service@;
                    let log = audit_view(old(self).audit_log@);
                    let v2 = final(self).service@;
                    let log2 = audit_view(final(self).audit_log@);
                    if !issuable(v, token@) {
                        r matches Err(IpcError::Internal(m)) && m@ == policy_error_text(PolicyError::DenyByDefault)
                            && issue_step(v, log, token@, signed, Err(PolicyError::DenyByDefault), v2, log2)
                    } else {
                        match signed {
                            Ok(_) => r matches Ok(PolicyResponse::Issued(x)) && issue_step(v, log, token@, signed, Ok(x), v2, log2),
                            Err(e) => r matches Err(IpcError::Internal(m)) && m@ == policy_error_text(crypto_policy_error(e))
                                && issue_step(v, log, token@, signed, Err(crypto_policy_error(e)), v2, log2),
                        }
                    }
                },
                PolicyRequest::ValidateCapability(vp, check) => {
                    let text = validation_text(old(self).service@, vp.token@, vp.expected_shard@, vp.now_epoch_s, check);
                    &&& final(self).service@ == old(self).service@
                    &&& audit_view(final(self).audit_log@) == audit_view(old(self).audit_log@).push(validation_event(
                        old(self).service@, vp.token@, vp.expected_shard@, vp.now_epoch_s, check))
                    &&& r matches Ok(PolicyResponse::Validation(res)) && res.valid == (text is None) && match res.reason {
                        Some(m) => text == Some(m@),
                        None => text is None,
                    }
                },
                PolicyRequest::RevokeCapability(rp) => r matches Ok(PolicyResponse::Revoked(b)) && revoke_step(
                    old(self).service@,
                    audit_view(old(self).audit_log@),
                    rp.token_id@,
                    b,
                    final(self).service@,
                    audit_view(final(self).audit_log@),
                ),
                PolicyRequest::RotateSigningKey(kp, active) => {
                    &&& r matches Ok(PolicyResponse::Rotated(resp)) && resp.active_key_id@ == active@
                    &&& final(self).service@ == old(self).service@
                    &&& audit_view(final(self).audit_log@) == audit_view(old(self).audit_log@).push((
                        "policyd.key.rotated"@,
                        "key_id="@ + kp.key_id@ + " active="@ + bool_text(kp.activate),
                    ))
                },
            },
    {
        match require_role(auth, request.required_role()) {
            Ok(()) => {},
            Err(e) => {
                return Err(e);
            },
        }
        match request {
            PolicyRequest::EvaluateCapability(p) => {
                match self.service.draft_token(&p.request, p.now_epoch_s, &mut self.audit_log) {
                    Ok(tok) => Ok(PolicyResponse::Drafted(tok)),
                    Err(e) => Err(IpcError::Internal(e.message())),
                }
            },
            PolicyRequest::IssueCapability(token, signed) => {
                match self.service.issue_token(token, signed, &mut self.audit_log) {
                    Ok(tok) => Ok(PolicyResponse::Issued(tok)),
                    Err(e) => Err(IpcError::Internal(e.message())),
                }
            },
            PolicyRequest::ValidateCapability(p, check) => {
                let ghost before = audit_view(self.audit_log@);
                let ghost chk = check;
                let o = self.service.validate_token(&p.token, p.expected_shard.as_str(), p.now_epoch_s, check, &mut self.audit_log);
                proof {
                    lemma_validate_step_facts(self.service@, before, p.token@, p.expected_shard@, p.now_epoch_s, chk, o,
                        audit_view(self.audit_log@));
                }
                Ok(PolicyResponse::Validation(validation_result(&o)))
            },
            PolicyRequest::RevokeCapability(p) => {
                let b = self.service.revoke_token(p.token_id.as_str(), &mut self.audit_log);
                Ok(PolicyResponse::Revoked(b))
            },
            PolicyRequest::RotateSigningKey(p, active) => {
                self.service.rotate_signing_key(p.key_id.as_str(), p.activate, &mut self.audit_log);
                Ok(PolicyResponse::Rotated(RotateSigningKeyResponse { active_key_id: active }))
            },
        }
    }
}

} // verus!
