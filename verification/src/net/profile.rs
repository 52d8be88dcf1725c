//! Route profiles, leak-check reports and the errors of the network service.
use vstd::prelude::*;
use crate::text::{cat, owned, str_eq};

verus! {

/// How a shard's traffic leaves the machine, if at all.
#[derive(Debug, Clone, Copy, PartialEq, Eq, Structural)]
pub enum RouteProfile {
    Offline,
    Direct,
    Tor,
    Vpn,
}

/// The name of a route profile.
pub open spec fn profile_name(p: RouteProfile) -> Seq<char> {
    match p {
        RouteProfile::Offline => "Offline"@,
        RouteProfile::Direct => "Direct"@,
        RouteProfile::Tor => "Tor"@,
        RouteProfile::Vpn => "Vpn"@,
    }
}

/// Why a network operation failed.
#[derive(Debug)]
pub enum NetworkPolicyError {
    KillSwitchEnabled,
    NoProfile,
    OfflineProfileBlocked,
    EgressBlocked,
    BackendFailure(String),
    PersistenceFailure(String),
}

/// The text of a network error.
pub open spec fn network_error_text(e: NetworkPolicyError) -> Seq<char> {
    match e {
        NetworkPolicyError::KillSwitchEnabled => "kill-switch is active"@,
        NetworkPolicyError::NoProfile => "no route profile assigned"@,
        NetworkPolicyError::OfflineProfileBlocked => "offline profile blocks network operations"@,
        NetworkPolicyError::EgressBlocked => "backend reports egress is blocked"@,
        NetworkPolicyError::BackendFailure(message) => "backend failure: "@ + message@,
        NetworkPolicyError::PersistenceFailure(message) => "persistence failure: "@ + message@,
    }
}

impl NetworkPolicyError {
    /// The human-readable text of this error.
    pub fn message(&self) -> (r: String)
        ensures
            r@ == network_error_text(*self),
    {
        match self {
            NetworkPolicyError::KillSwitchEnabled => owned("kill-switch is active"),
            NetworkPolicyError::NoProfile => owned("no route profile assigned"),
            NetworkPolicyError::OfflineProfileBlocked => owned("offline profile blocks network operations"),
            NetworkPolicyError::EgressBlocked => owned("backend reports egress is blocked"),
            NetworkPolicyError::BackendFailure(message) => cat("backend failure: ", message.as_str()),
            NetworkPolicyError::PersistenceFailure(message) => cat("persistence failure: ", message.as_str()),
        }
    }
}

/// The profile a name stands for, if any.
pub open spec fn profile_named(value: Seq<char>) -> Option<RouteProfile> {
    if value == "Offline"@ {
        Some(RouteProfile::Offline)
    } else if value == "Direct"@ {
        Some(RouteProfile::Direct)
    } else if value == "Tor"@ {
        Some(RouteProfile::Tor)
    } else if value == "Vpn"@ {
        Some(RouteProfile::Vpn)
    } else {
        None
    }
}

impl RouteProfile {
    /// The name of this profile.
    pub fn as_str(&self) -> (r: &'static str)
        ensures
            r@ == profile_name(*self),
    {
        match self {
            RouteProfile::Offline => "Offline",
            RouteProfile::Direct => "Direct",
            RouteProfile::Tor => "Tor",
            RouteProfile::Vpn => "Vpn",
        }
    }

    /// The profile with the given name; any other name is refused as an
    /// unsupported profile.
    pub fn parse(value: &str) -> (r: Result<RouteProfile, NetworkPolicyError>)
        ensures
            match profile_named(value@) {
                Some(p) => r matches Ok(q) && q == p,
                None => r matches Err(NetworkPolicyError::BackendFailure(m))
                    && m@ == "unsupported profile: "@ + value@,
            },
    {
        if str_eq(value, "Offline") {
            Ok(RouteProfile::Offline)
        } else if str_eq(value, "Direct") {
            Ok(RouteProfile::Direct)
        } else if str_eq(value, "Tor") {
            Ok(RouteProfile::Tor)
        } else if str_eq(value, "Vpn") {
            Ok(RouteProfile::Vpn)
        } else {
            Err(NetworkPolicyError::BackendFailure(cat("unsupported profile: ", value)))
        }
    }
}

impl std::str::FromStr for RouteProfile {
    type Err = NetworkPolicyError;

    fn from_str(value: &str) -> (r: Result<Self, Self::Err>)
        ensures
            match profile_named(value@) {
                Some(p) => r matches Ok(q) && q == p,
                None => r matches Err(NetworkPolicyError::BackendFailure(m))
                    && m@ == "unsupported profile: "@ + value@,
            },
    {
        RouteProfile::parse(value)
    }
}

/// The outcome of a leak check.
pub struct LeakCheckReport {
    pub clean: bool,
    pub risk_score: u8,
    pub summary: String,
}

/// The mathematical content of a leak-check report.
pub struct LeakReportView {
    pub clean: bool,
    pub risk_score: u8,
    pub summary: Seq<char>,
}

impl View for LeakCheckReport {
    type V = LeakReportView;

    open spec fn view(&self) -> LeakReportView {
        LeakReportView { clean: self.clean, risk_score: self.risk_score, summary: self.summary@ }
    }
}

/// Checks a shard's route for leaks.
pub trait LeakChecker {
    /// The report this checker gives for a shard on a profile.
    spec fn report_for(&self, shard_name: Seq<char>, profile: RouteProfile) -> LeakReportView;

    /// Checks the route of `shard_name` under `profile`.
    fn run_check(&self, shard_name: &str, profile: RouteProfile) -> (r: LeakCheckReport)
        ensures
            r@ == self.report_for(shard_name@, profile);
}

/// A leak checker that judges by the profile alone.
#[derive(Debug, Default, Clone, Copy)]
pub struct DeterministicLeakChecker;

/// The report of the deterministic checker.
pub open spec fn deterministic_report(shard_name: Seq<char>, profile: RouteProfile) -> LeakReportView {
    match profile {
        RouteProfile::Offline => LeakReportView { clean: true, risk_score: 0, summary: shard_name + ":offline-no-egress"@ },
        RouteProfile::Direct => LeakReportView { clean: false, risk_score: 85, summary: shard_name + ":direct-egress-detected"@ },
        RouteProfile::Tor => LeakReportView { clean: true, risk_score: 15, summary: shard_name + ":tor-route-isolated"@ },
        RouteProfile::Vpn => LeakReportView { clean: true, risk_score: 20, summary: shard_name + ":vpn-route-isolated"@ },
    }
}

impl LeakChecker for DeterministicLeakChecker {
    open spec fn report_for(&self, shard_name: Seq<char>, profile: RouteProfile) -> LeakReportView {
        deterministic_report(shard_name, profile)
    }

    fn run_check(&self, shard_name: &str, profile: RouteProfile) -> (r: LeakCheckReport) {
        match profile {
            RouteProfile::Offline => LeakCheckReport { clean: true, risk_score: 0, summary: cat(shard_name, ":offline-no-egress") },
            RouteProfile::Direct => LeakCheckReport { clean: false, risk_score: 85, summary: cat(shard_name, ":direct-egress-detected") },
            RouteProfile::Tor => LeakCheckReport { clean: true, risk_score: 15, summary: cat(shard_name, ":tor-route-isolated") },
            RouteProfile::Vpn => LeakCheckReport { clean: true, risk_score: 20, summary: cat(shard_name, ":vpn-route-isolated") },
        }
    }
}

/// Each profile's name reads back as that profile.
pub proof fn lemma_profile_names_read_back(p: RouteProfile)
    ensures
        profile_named(profile_name(p)) == Some(p),
{
    reveal_strlit("Offline");
    reveal_strlit("Direct");
    reveal_strlit("Tor");
    reveal_strlit("Vpn");
    assert("Offline"@.len() != "Direct"@.len() && "Offline"@.len() != "Tor"@.len() && "Offline"@.len() != "Vpn"@.len());
    assert("Direct"@.len() != "Tor"@.len() && "Direct"@.len() != "Vpn"@.len());
    assert("Tor"@[0] != "Vpn"@[0]);
}

} // verus!
