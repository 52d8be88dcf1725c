//! A/B system updates: the two root slots, release manifests, and the update
//! state machine that downloads, applies, commits and rolls back.
use vstd::prelude::*;
use crate::audit::{audit_view, record, AuditEvent};
use crate::paths::{join_path, joined_path, trim_leading_slashes};
use crate::signing::{CryptoFailure, EnvelopeView, SignatureEnvelope};
use crate::text::{cat, cat3, contains_text, dec_digits, decimal, has_text, owned};

verus! {

/// One of the two root partitions.
#[derive(Debug, Clone, Copy, PartialEq, Eq, Structural)]
pub enum UpdateSlot {
    A,
    B,
}

/// Where a slot is mounted.
pub open spec fn slot_mount_point(s: UpdateSlot) -> Seq<char> {
    match s {
        UpdateSlot::A => "/mnt/root_a"@,
        UpdateSlot::B => "/mnt/root_b"@,
    }
}

/// The file-system label of a slot.
pub open spec fn slot_label(s: UpdateSlot) -> Seq<char> {
    match s {
        UpdateSlot::A => "SPECTEROS_A"@,
        UpdateSlot::B => "SPECTEROS_B"@,
    }
}

/// The slot that is not `s`.
pub open spec fn slot_other(s: UpdateSlot) -> UpdateSlot {
    match s {
        UpdateSlot::A => UpdateSlot::B,
        UpdateSlot::B => UpdateSlot::A,
    }
}

/// How a slot is written in messages (as `{:?}` writes it).
pub open spec fn slot_name(s: UpdateSlot) -> Seq<char> {
    match s {
        UpdateSlot::A => "A"@,
        UpdateSlot::B => "B"@,
    }
}

impl UpdateSlot {
    /// Where this slot is mounted.
    pub fn mount_point(&self) -> (r: &'static str)
        ensures
            r@ == slot_mount_point(*self),
    {
        match self {
            UpdateSlot::A => "/mnt/root_a",
            UpdateSlot::B => "/mnt/root_b",
        }
    }

    /// The file-system label of this slot.
    pub fn label(&self) -> (r: &'static str)
        ensures
            r@ == slot_label(*self),
    {
        match self {
            UpdateSlot::A => "SPECTEROS_A",
            UpdateSlot::B => "SPECTEROS_B",
        }
    }

    /// The other slot.
    pub fn other(&self) -> (r: UpdateSlot)
        ensures
            r == slot_other(*self),
            r != *self,
    {
        match self {
            UpdateSlot::A => UpdateSlot::B,
            UpdateSlot::B => UpdateSlot::A,
        }
    }

    /// The slot's name in messages.
    pub fn name(&self) -> (r: &'static str)
        ensures
            r@ == slot_name(*self),
    {
        match self {
            UpdateSlot::A => "A",
            UpdateSlot::B => "B",
        }
    }
}

/// Switching slots twice comes back to the first slot, and never stays put.
pub proof fn lemma_other_slot_involutive(s: UpdateSlot)
    ensures
        slot_other(slot_other(s)) == s,
        slot_other(s) != s,
{
}

/// Two slots mount at different places and carry different labels.
pub proof fn lemma_slots_are_distinct()
    ensures
        slot_mount_point(UpdateSlot::A) != slot_mount_point(UpdateSlot::B),
        slot_label(UpdateSlot::A) != slot_label(UpdateSlot::B),
{
    reveal_strlit("/mnt/root_a");
    reveal_strlit("/mnt/root_b");
    reveal_strlit("SPECTEROS_A");
    reveal_strlit("SPECTEROS_B");
    assert(slot_mount_point(UpdateSlot::A)[10] != slot_mount_point(UpdateSlot::B)[10]);
    assert(slot_label(UpdateSlot::A)[10] != slot_label(UpdateSlot::B)[10]);
}

/// The slot a kernel command line boots: `B` when it names the B root and not
/// the A root, else `A`.
pub open spec fn slot_of_cmdline(cmdline: Seq<char>) -> UpdateSlot {
    if has_text(cmdline, "root=LABEL=SPECTEROS_A"@) || has_text(cmdline, "root_a"@) {
        UpdateSlot::A
    } else if has_text(cmdline, "root=LABEL=SPECTEROS_B"@) || has_text(cmdline, "root_b"@) {
        UpdateSlot::B
    } else {
        UpdateSlot::A
    }
}

/// The slot that the kernel command line `cmdline` booted from.
pub fn slot_from_cmdline(cmdline: &str) -> (r: UpdateSlot)
    ensures
        r == slot_of_cmdline(cmdline@),
{
    if contains_text(cmdline, "root=LABEL=SPECTEROS_A") || contains_text(cmdline, "root_a") {
        UpdateSlot::A
    } else if contains_text(cmdline, "root=LABEL=SPECTEROS_B") || contains_text(cmdline, "root_b") {
        UpdateSlot::B
    } else {
        UpdateSlot::A
    }
}

/// One component of a release.
#[derive(Debug, Clone)]
pub struct ComponentInfo {
    pub name: String,
    pub version: String,
    pub hash: String,
    pub size: u64,
}

/// How a release manifest is signed.
#[derive(Debug, Clone)]
pub struct SignatureInfo {
    pub algorithm: String,
    pub key_id: String,
    pub signature: String,
    pub signed_at: u64,
}

impl From<SignatureEnvelope> for SignatureInfo {
    fn from(envelope: SignatureEnvelope) -> (r: SignatureInfo) {
        SignatureInfo {
            algorithm: envelope.algorithm,
            key_id: envelope.key_id,
            signature: envelope.value_hex,
            signed_at: 0,
        }
    }
}

impl vstd::std_specs::convert::FromSpecImpl<SignatureEnvelope> for SignatureInfo {
    open spec fn obeys_from_spec() -> bool {
        true
    }

    open spec fn from_spec(envelope: SignatureEnvelope) -> SignatureInfo {
        SignatureInfo {
            algorithm: envelope.algorithm,
            key_id: envelope.key_id,
            signature: envelope.value_hex,
            signed_at: 0,
        }
    }
}

/// A release: its version, build, date, target slot, components, signature
/// and notes.
#[derive(Debug, Clone)]
pub struct UpdateManifest {
    pub version: String,
    pub build_id: String,
    pub release_date: u64,
    pub slot: UpdateSlot,
    pub components: Vec<ComponentInfo>,
    pub signature: SignatureInfo,
    pub changelog: Vec<String>,
    pub min_version: Option<String>,
}

/// The text a manifest's signature covers: version, build and release date,
/// separated by colons.
pub open spec fn signing_payload(version: Seq<char>, build_id: Seq<char>, release_date: u64) -> Seq<char> {
    version + ":"@ + build_id + ":"@ + dec_digits(release_date as nat)
}

/// The text the signature of `manifest` covers.
pub fn manifest_signing_payload(manifest: &UpdateManifest) -> (r: String)
    ensures
        r@ == signing_payload(manifest.version@, manifest.build_id@, manifest.release_date),
{
    let mut r = cat3(manifest.version.as_str(), ":", manifest.build_id.as_str());
    r.append(":");
    r.append(decimal(manifest.release_date).as_str());
    r
}

/// The signature of `manifest` as an envelope for the key ring.
pub fn manifest_envelope(manifest: &UpdateManifest) -> (r: SignatureEnvelope)
    ensures
        r@ == (EnvelopeView {
            key_id: manifest.signature.key_id@,
            algorithm: manifest.signature.algorithm@,
            value_hex: manifest.signature.signature@,
        }),
{
    SignatureEnvelope {
        algorithm: manifest.signature.algorithm.clone(),
        key_id: manifest.signature.key_id.clone(),
        value_hex: manifest.signature.signature.clone(),
    }
}

/// Where the update service is in its work.
#[derive(Debug, Clone, PartialEq, Eq)]
pub enum UpdateState {
    Idle,
    Checking,
    Downloading { progress: u8 },
    Verifying,
    Applying,
    RebootRequired,
    RollingBack,
    Failed { reason: String },
}

/// Why an update step failed.
#[derive(Debug, Clone)]
pub enum UpdateError {
    Io(String),
    Json(String),
    SignatureInvalid,
    Crypto(String),
    HashMismatch(String),
    InvalidSlot(String),
    NoPendingUpdate,
    UpdateInProgress,
}

/// The message of an update error.
pub open spec fn update_error_text(e: UpdateError) -> Seq<char> {
    match e {
        UpdateError::Io(m) => "IO error: "@ + m@,
        UpdateError::Json(m) => "JSON error: "@ + m@,
        UpdateError::SignatureInvalid => "Signature invalid"@,
        UpdateError::Crypto(m) => "Crypto error: "@ + m@,
        UpdateError::HashMismatch(m) => "Hash mismatch for "@ + m@,
        UpdateError::InvalidSlot(m) => "Slot "@ + m@ + " is not valid"@,
        UpdateError::NoPendingUpdate => "No pending update to commit"@,
        UpdateError::UpdateInProgress => "Update already in progress"@,
    }
}

impl UpdateError {
    /// The error's message.
    pub fn message(&self) -> (r: String)
        ensures
            r@ == update_error_text(*self),
    {
        match self {
            UpdateError::Io(m) => cat("IO error: ", m.as_str()),
            UpdateError::Json(m) => cat("JSON error: ", m.as_str()),
            UpdateError::SignatureInvalid => owned("Signature invalid"),
            UpdateError::Crypto(m) => cat("Crypto error: ", m.as_str()),
            UpdateError::HashMismatch(m) => cat("Hash mismatch for ", m.as_str()),
            UpdateError::InvalidSlot(m) => cat3("Slot ", m.as_str(), " is not valid"),
            UpdateError::NoPendingUpdate => owned("No pending update to commit"),
            UpdateError::UpdateInProgress => owned("Update already in progress"),
        }
    }
}

/// An applied update that waits for a reboot and a commit.
#[derive(Debug, Clone)]
pub struct PendingUpdate {
    pub manifest: UpdateManifest,
    pub applied_at: u64,
    pub target_slot: UpdateSlot,
}

/// What the update service reports about the system.
#[derive(Debug, Clone)]
pub struct UpdateStatus {
    pub current_version: String,
    pub current_slot: UpdateSlot,
    pub pending_version: Option<String>,
    pub pending_slot: Option<UpdateSlot>,
    pub state: UpdateState,
    pub last_check: Option<u64>,
}

/// The files an update is written to once it has started: the slot it goes
/// to, where that slot is mounted, and where the pending update is recorded.
pub struct ApplyPlan {
    pub target_slot: UpdateSlot,
    pub mount_dir: String,
    pub metadata_path: String,
}

/// The update service's state, with its directories as text.
pub struct UpdateView {
    pub state: UpdateState,
    pub current_slot: UpdateSlot,
    pub pending_slot: Option<UpdateSlot>,
    pub config_dir: Seq<char>,
    pub cache_dir: Seq<char>,
    pub mount_root: Seq<char>,
}

/// The A/B update state machine. Reading the key ring, the kernel command
/// line and the disk is left to its caller, which hands in what it found.
pub struct UpdateService {
    state: UpdateState,
    current_slot: UpdateSlot,
    pending_slot: Option<UpdateSlot>,
    config_dir: String,
    cache_dir: String,
    mount_root: String,
}

impl View for UpdateService {
    type V = UpdateView;

    closed spec fn view(&self) -> UpdateView {
        UpdateView {
            state: self.state,
            current_slot: self.current_slot,
            pending_slot: self.pending_slot,
            config_dir: self.config_dir@,
            cache_dir: self.cache_dir@,
            mount_root: self.mount_root@,
        }
    }
}

/// The path, below `mount_root`, where `slot` is mounted during an update.
pub open spec fn slot_mount_dir(mount_root: Seq<char>, slot: UpdateSlot) -> Seq<char> {
    joined_path(mount_root, slot_mount_point(slot).skip(1))
}

impl UpdateService {
    /// A service booted from `current_slot`, with updates mounted below `/`.
    pub fn new(config_dir: String, cache_dir: String, current_slot: UpdateSlot) -> (r: Self)
        ensures
            r@ == (UpdateView {
                state: UpdateState::Idle,
                current_slot,
                pending_slot: None,
                config_dir: config_dir@,
                cache_dir: cache_dir@,
                mount_root: "/"@,
            }),
    {
        Self::with_mount_root(config_dir, cache_dir, owned("/"), current_slot)
    }

    /// A service booted from `current_slot`, with updates mounted below `mount_root`.
    pub fn with_mount_root(config_dir: String, cache_dir: String, mount_root: String, current_slot: UpdateSlot) -> (r: Self)
        ensures
            r@ == (UpdateView {
                state: UpdateState::Idle,
                current_slot,
                pending_slot: None,
                config_dir: config_dir@,
                cache_dir: cache_dir@,
                mount_root: mount_root@,
            }),
    {
        UpdateService { state: UpdateState::Idle, current_slot, pending_slot: None, config_dir, cache_dir, mount_root }
    }

    /// Where the key ring is kept.
    pub fn keys_path(&self) -> (r: String)
        ensures
            r@ == joined_path(self@.config_dir, "keys"@),
    {
        join_path(self.config_dir.as_str(), "keys")
    }

    /// Where an applied update is recorded until it is committed.
    pub fn metadata_path(&self) -> (r: String)
        ensures
            r@ == joined_path(self@.config_dir, "pending_update.json"@),
    {
        join_path(self.config_dir.as_str(), "pending_update.json")
    }

    /// Looks for an update; none is offered, and the service is idle after.
    pub fn check_for_updates(&mut self, update_server: &str) -> (r: Result<Option<UpdateManifest>, UpdateError>)
        ensures
            r matches Ok(None),
            final(self)@ == (UpdateView { state: UpdateState::Idle, ..old(self)@ }),
    {
        self.state = UpdateState::Checking;
        self.state = UpdateState::Idle;
        Ok(None)
    }

    /// Checks a manifest against what the key ring said of its signature: any
    /// refusal is an invalid signature.
    pub fn verify_manifest(&self, manifest: &UpdateManifest, signature_check: Result<(), CryptoFailure>) -> (r: Result<(), UpdateError>)
        ensures
            match signature_check {
                Ok(()) => r is Ok,
                Err(_) => r matches Err(UpdateError::SignatureInvalid),
            },
    {
        match signature_check {
            Ok(()) => Ok(()),
            Err(_) => Err(UpdateError::SignatureInvalid),
        }
    }

    /// Starts downloading `manifest`: the service is downloading, and the
    /// manifest's signature, as the key ring judged it, must hold. Gives the
    /// cache directory for the download.
    pub fn download_update(
        &mut self,
        manifest: &UpdateManifest,
        download_url: &str,
        signature_check: Result<(), CryptoFailure>,
    ) -> (r: Result<String, UpdateError>)
        ensures
            final(self)@ == (UpdateView { state: UpdateState::Downloading { progress: 0 }, ..old(self)@ }),
            match signature_check {
                Ok(()) => r matches Ok(dir) && dir@ == joined_path(old(self)@.cache_dir, manifest.build_id@),
                Err(_) => r matches Err(UpdateError::SignatureInvalid),
            },
    {
        self.state = UpdateState::Downloading { progress: 0 };
        match self.verify_manifest(manifest, signature_check) {
            Ok(()) => Ok(join_path(self.cache_dir.as_str(), manifest.build_id.as_str())),
            Err(e) => Err(e),
        }
    }

    /// Finishes a download: progress runs to one hundred per cent and the
    /// service goes on to verifying.
    pub fn finish_download(&mut self)
        ensures
            final(self)@ == (UpdateView { state: UpdateState::Verifying, ..old(self)@ }),
    {
        let mut progress: u8 = 10;
        while progress <= 100
            invariant
                10 <= progress <= 110,
                self@ == (UpdateView { state: self@.state, ..old(self)@ }),
            decreases 110 - progress,
        {
            self.state = UpdateState::Downloading { progress };
            progress = progress + 10;
        }
        self.state = UpdateState::Verifying;
    }

    /// Starts applying `manifest` to the slot not booted: the service is
    /// applying, that slot is pending, and the start is audited. Gives where
    /// the slot is mounted and where the pending update is to be recorded.
    pub fn apply_update(&mut self, manifest: &UpdateManifest, audit_log: &mut Vec<AuditEvent>) -> (r: ApplyPlan)
        ensures
            r.target_slot == slot_other(old(self)@.current_slot),
            r.mount_dir@ == slot_mount_dir(old(self)@.mount_root, r.target_slot),
            r.metadata_path@ == joined_path(old(self)@.config_dir, "pending_update.json"@),
            final(self)@ == (UpdateView {
                state: UpdateState::Applying,
                pending_slot: Some(r.target_slot),
                ..old(self)@
            }),
            audit_view(final(audit_log)@) == audit_view(old(audit_log)@).push((
                "updated.apply.started"@,
                manifest.version@ + " -> "@ + slot_name(r.target_slot),
            )),
    {
        self.state = UpdateState::Applying;
        let target = self.current_slot.other();
        self.pending_slot = Some(target);
        record(audit_log, "updated.apply.started", cat3(manifest.version.as_str(), " -> ", target.name()));
        let rel = trim_leading_slashes(target.mount_point());
        proof {
            reveal_strlit("/mnt/root_a");
            reveal_strlit("/mnt/root_b");
            let k = choose|k: int| #![trigger slot_mount_point(target).skip(k)]
                0 <= k <= slot_mount_point(target).len() && rel@ == slot_mount_point(target).skip(k)
                && (forall|j: int| 0 <= j < k ==> slot_mount_point(target)[j] == '/')
                && (k == slot_mount_point(target).len() || slot_mount_point(target)[k] != '/');
            assert(slot_mount_point(target)[0] == '/');
            assert(slot_mount_point(target)[1] == 'm');
            assert(k == 1);
        }
        let mount_dir = join_path(self.mount_root.as_str(), rel);
        let metadata_path = self.metadata_path();
        ApplyPlan { target_slot: target, mount_dir, metadata_path }
    }

    /// Finishes applying `manifest` once it is on disk: the completion is
    /// audited and a reboot is required.
    pub fn complete_apply(&mut self, manifest: &UpdateManifest, audit_log: &mut Vec<AuditEvent>)
        ensures
            final(self)@ == (UpdateView { state: UpdateState::RebootRequired, ..old(self)@ }),
            audit_view(final(audit_log)@) == audit_view(old(audit_log)@).push((
                "updated.apply.completed"@,
                manifest.version@ + " to "@ + slot_name(slot_other(old(self)@.current_slot)),
            )),
    {
        let target = self.current_slot.other();
        record(audit_log, "updated.apply.completed", cat3(manifest.version.as_str(), " to ", target.name()));
        self.state = UpdateState::RebootRequired;
    }

    /// Commits the recorded pending update, if there is one: its slot becomes
    /// the current slot, nothing is pending, the service is idle, and the
    /// commit is audited. Without one nothing changes.
    pub fn commit_update(&mut self, pending: Option<&PendingUpdate>, audit_log: &mut Vec<AuditEvent>) -> (r: Result<(), UpdateError>)
        ensures
            r is Ok,
            match pending {
                Some(p) => {
                    &&& final(self)@ == (UpdateView {
                        state: UpdateState::Idle,
                        current_slot: p.target_slot,
                        pending_slot: None,
                        ..old(self)@
                    })
                    &&& audit_view(final(audit_log)@) == audit_view(old(audit_log)@).push((
                        "updated.commit"@,
                        "committed "@ + slot_name(p.target_slot),
                    ))
                },
                None => final(self)@ == old(self)@ && final(audit_log)@ == old(audit_log)@,
            },
    {
        match pending {
            Some(p) => {
                let target = p.target_slot;
                self.current_slot = target;
                self.pending_slot = None;
                self.state = UpdateState::Idle;
                record(audit_log, "updated.commit", cat("committed ", target.name()));
            },
            None => {},
        }
        Ok(())
    }

    /// Rolls back to the other slot: both steps are audited and a reboot is
    /// required; the current slot stays as it is until the reboot.
    pub fn rollback(&mut self, audit_log: &mut Vec<AuditEvent>) -> (r: Result<(), UpdateError>)
        ensures
            r is Ok,
            final(self)@ == (UpdateView { state: UpdateState::RebootRequired, ..old(self)@ }),
            audit_view(final(audit_log)@) == audit_view(old(audit_log)@).push((
                "updated.rollback.started"@,
                slot_name(old(self)@.current_slot) + " -> "@ + slot_name(slot_other(old(self)@.current_slot)),
            )).push(("updated.rollback.completed"@, "to "@ + slot_name(slot_other(old(self)@.current_slot)))),
    {
        self.state = UpdateState::RollingBack;
        let target = self.current_slot.other();
        record(audit_log, "updated.rollback.started", cat3(self.current_slot.name(), " -> ", target.name()));
        record(audit_log, "updated.rollback.completed", cat("to ", target.name()));
        self.state = UpdateState::RebootRequired;
        Ok(())
    }

    /// Where the service is in its work.
    pub fn state(&self) -> (r: &UpdateState)
        ensures
            *r == self@.state,
    {
        &self.state
    }

    /// The slot booted now.
    pub fn current_slot(&self) -> (r: UpdateSlot)
        ensures
            r == self@.current_slot,
    {
        self.current_slot
    }

    /// The slot an applied update waits in, if any.
    pub fn pending_slot(&self) -> (r: Option<UpdateSlot>)
        ensures
            r == self@.pending_slot,
    {
        self.pending_slot
    }

    /// Whether a reboot is needed to finish the work.
    pub fn reboot_required(&self) -> (r: bool)
        ensures
            r == (self@.state is RebootRequired),
    {
        match self.state {
            UpdateState::RebootRequired => true,
            _ => false,
        }
    }

    /// The system's update status, for a system running `current_version`.
    pub fn get_status(&self, current_version: &str) -> (r: UpdateStatus)
        ensures
            r.current_version@ == current_version@,
            r.current_slot == self@.current_slot,
            r.pending_version is None,
            r.pending_slot == self@.pending_slot,
            r.state == self@.state,
            r.last_check is None,
    {
        let state = match &self.state {
            UpdateState::Idle => UpdateState::Idle,
            UpdateState::Checking => UpdateState::Checking,
            UpdateState::Downloading { progress } => UpdateState::Downloading { progress: *progress },
            UpdateState::Verifying => UpdateState::Verifying,
            UpdateState::Applying => UpdateState::Applying,
            UpdateState::RebootRequired => UpdateState::RebootRequired,
            UpdateState::RollingBack => UpdateState::RollingBack,
            UpdateState::Failed { reason } => UpdateState::Failed { reason: reason.clone() },
        };
        UpdateStatus {
            current_version: owned(current_version),
            current_slot: self.current_slot,
            pending_version: None,
            pending_slot: self.pending_slot,
            state,
            last_check: None,
        }
    }
}

/// The booted slot follows the root named on the kernel command line: a
/// line that names slot B's root (its label or a "root_b" partition) and
/// does not name slot A's is slot B; a line that names slot A's root is
/// slot A; a line that names neither is taken as slot A.
pub proof fn lemma_slot_follows_root(cmdline: Seq<char>)
    ensures
        (has_text(cmdline, "root_b"@) || has_text(cmdline, "root=LABEL=SPECTEROS_B"@)) && !has_text(cmdline, "root_a"@)
            && !has_text(cmdline, "root=LABEL=SPECTEROS_A"@) ==> slot_of_cmdline(cmdline) == UpdateSlot::B,
        has_text(cmdline, "root_a"@) || has_text(cmdline, "root=LABEL=SPECTEROS_A"@)
            ==> slot_of_cmdline(cmdline) == UpdateSlot::A,
        !has_text(cmdline, "root_a"@) && !has_text(cmdline, "root=LABEL=SPECTEROS_A"@) && !has_text(cmdline, "root_b"@)
            && !has_text(cmdline, "root=LABEL=SPECTEROS_B"@) ==> slot_of_cmdline(cmdline) == UpdateSlot::A,
{
}

} // verus!
