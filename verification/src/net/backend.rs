//! The firewall and routing backend: the commands each profile and the kill
//! switch take, and which shards may send traffic.
use vstd::prelude::*;
use vstd::string::*;
use crate::collections::StrMap;
use crate::net::profile::RouteProfile;
use crate::text::{cat3, debug_quoted, owned, quoted_debug, words};

verus! {

/// Whether backend commands are only recorded or also run.
#[derive(Debug, Clone, Copy, PartialEq, Eq, Structural)]
pub enum NetworkBackendMode {
    Staged,
    Enforcing,
}

/// A failure reported by the backend.
#[derive(Debug)]
pub struct NetworkBackendError {
    pub message: String,
}

impl NetworkBackendError {
    /// The `Debug` rendering of this error.
    pub fn debug_text(&self) -> (r: String)
        ensures
            r@ == "NetworkBackendError { message: "@ + quoted_debug(self.message@) + " }"@,
    {
        cat3("NetworkBackendError { message: ", debug_quoted(self.message.as_str()).as_str(), " }")
    }
}

/// Runs system commands. What a command answers depends on the system it
/// runs on, so nothing is promised of it.
pub trait CommandExecutor {
    /// Runs `program` with `args`, handing back its output.
    fn run(&self, program: &str, args: &[String]) -> Result<String, NetworkBackendError>;
}

/// A backend's answer, with an error taken by its message.
pub open spec fn answer_of(r: Result<(), NetworkBackendError>) -> Result<(), Seq<char>> {
    match r {
        Ok(_) => Ok(()),
        Err(e) => Err(e.message@),
    }
}

/// Enforces route profiles and the kill switch.
pub trait NetworkBackend: Sized {
    /// Whether this backend lets `shard_name` send traffic on `profile`.
    spec fn allows_egress(&self, shard_name: Seq<char>, profile: RouteProfile, kill_switch_enabled: bool) -> bool;

    /// Whether this backend, asked to put `shard_name` on `profile`, may
    /// become `after` and answer `answer`.
    spec fn profile_step(&self, after: Self, shard_name: Seq<char>, profile: RouteProfile, answer: Result<(), Seq<char>>) -> bool;

    /// Whether this backend, asked to turn the kill switch to `enabled`, may
    /// become `after` and answer `answer`.
    spec fn kill_switch_step(&self, after: Self, enabled: bool, answer: Result<(), Seq<char>>) -> bool;

    /// Puts `shard_name` on `profile`.
    fn apply_profile(&mut self, shard_name: &str, profile: RouteProfile) -> (r: Result<(), NetworkBackendError>)
        ensures
            old(self).profile_step(*final(self), shard_name@, profile, answer_of(r));

    /// Turns the kill switch on or off.
    fn set_kill_switch(&mut self, enabled: bool) -> (r: Result<(), NetworkBackendError>)
        ensures
            old(self).kill_switch_step(*final(self), enabled, answer_of(r));

    /// Whether `shard_name` may send traffic on `profile`.
    fn can_egress(&self, shard_name: &str, profile: RouteProfile, kill_switch_enabled: bool) -> (r: bool)
        ensures
            r == self.allows_egress(shard_name@, profile, kill_switch_enabled);

    /// Replaces all profiles and the kill switch.
    fn sync_state(&mut self, route_profiles: &StrMap<RouteProfile>, kill_switch_enabled: bool) -> Result<(), NetworkBackendError>;
}

/// Words joined by `sep`.
pub open spec fn joined(parts: Seq<Seq<char>>, sep: Seq<char>) -> Seq<char>
    decreases parts.len(),
{
    if parts.len() == 0 {
        Seq::empty()
    } else if parts.len() == 1 {
        parts[0]
    } else {
        joined(parts.drop_last(), sep) + sep + parts.last()
    }
}

/// The words of a command joined by single spaces.
pub fn join_words(parts: &[String]) -> (r: String)
    ensures
        r@ == joined(words(parts@), " "@),
{
    let mut r = String::new();
    let mut i: usize = 0;
    while i < parts.len()
        invariant
            i <= parts@.len(),
            r@ == joined(words(parts@.subrange(0, i as int)), " "@),
        decreases parts@.len() - i,
    {
        proof {
            assert(words(parts@.subrange(0, i + 1)).drop_last() =~= words(parts@.subrange(0, i as int)));
            assert(words(parts@.subrange(0, i + 1)).last() == parts@[i as int]@);
        }
        if i > 0 {
            r.append(" ");
        }
        r.append(parts[i].as_str());
        i = i + 1;
    }
    proof { assert(parts@.subrange(0, parts@.len() as int) =~= parts@); }
    r
}

fn words_of(ws: &[&str]) -> (r: Vec<String>)
    ensures
        words(r@) == ws@.map_values(|w: &str| w@),
{
    let mut r: Vec<String> = Vec::new();
    let mut i: usize = 0;
    while i < ws.len()
        invariant
            i <= ws@.len(),
            words(r@) =~= ws@.subrange(0, i as int).map_values(|w: &str| w@),
        decreases ws@.len() - i,
    {
        let ghost before = r@;
        r.push(owned(ws[i]));
        proof {
            assert(words(r@) =~= words(before).push(ws@[i as int]@));
            assert(ws@.subrange(0, i + 1).map_values(|w: &str| w@) =~= ws@.subrange(0, i as int).map_values(|w: &str| w@).push(ws@[i as int]@));
        }
        i = i + 1;
    }
    proof { assert(ws@.subrange(0, ws@.len() as int) =~= ws@); }
    r
}

/// The command that puts a shard on a profile.
pub open spec fn profile_command(profile: RouteProfile) -> Seq<Seq<char>> {
    match profile {
        RouteProfile::Offline => seq!["nft"@, "add"@, "rule"@, "inet"@, "phantomkernel"@, "output"@, "drop"@],
        RouteProfile::Direct => seq!["ip"@, "route"@, "replace"@, "default"@, "dev"@, "eth0"@],
        RouteProfile::Tor => seq!["ip"@, "route"@, "replace"@, "default"@, "via"@, "127.0.0.1"@],
        RouteProfile::Vpn => seq!["ip"@, "route"@, "replace"@, "default"@, "dev"@, "tun0"@],
    }
}

/// The command that turns the kill switch on or off.
pub open spec fn kill_switch_command(enabled: bool) -> Seq<Seq<char>> {
    if enabled {
        seq!["nft"@, "add"@, "rule"@, "inet"@, "phantomkernel"@, "output"@, "drop"@]
    } else {
        seq!["nft"@, "flush"@, "chain"@, "inet"@, "phantomkernel"@, "output"@]
    }
}

/// A backend that drives nftables and the routing table, recording every
/// command it issues.
pub struct NftablesRouteBackend<E: CommandExecutor> {
    mode: NetworkBackendMode,
    executor: E,
    profiles: StrMap<RouteProfile>,
    kill_switch_enabled: bool,
    operations: Vec<String>,
}

/// The mathematical state of an nftables backend.
pub struct BackendView {
    pub mode: NetworkBackendMode,
    pub profiles: Map<Seq<char>, RouteProfile>,
    pub kill_switch_enabled: bool,
    pub operations: Seq<Seq<char>>,
}

/// Whether the nftables backend lets `shard_name` send traffic: never while
/// a kill switch is on, never on Offline or without a profile, and only on
/// the profile it was given.
pub open spec fn nft_allows(v: BackendView, shard_name: Seq<char>, profile: RouteProfile, kill_switch_enabled: bool) -> bool {
    if kill_switch_enabled || v.kill_switch_enabled {
        false
    } else if !v.profiles.contains_key(shard_name) || v.profiles[shard_name] == RouteProfile::Offline {
        false
    } else {
        v.profiles[shard_name] == profile && profile != RouteProfile::Offline
    }
}

impl<E: CommandExecutor> View for NftablesRouteBackend<E> {
    type V = BackendView;

    closed spec fn view(&self) -> BackendView {
        BackendView {
            mode: self.mode,
            profiles: self.profiles@,
            kill_switch_enabled: self.kill_switch_enabled,
            operations: words(self.operations@),
        }
    }
}

impl<E: CommandExecutor> NftablesRouteBackend<E> {
    /// A backend in `mode` over `executor`, with no profiles, the kill
    /// switch off and no commands issued.
    pub fn with_executor(mode: NetworkBackendMode, executor: E) -> (r: Self)
        ensures
            r@ == (BackendView {
                mode,
                profiles: Map::empty(),
                kill_switch_enabled: false,
                operations: Seq::empty(),
            }),
    {
        let r = NftablesRouteBackend {
            mode,
            executor,
            profiles: StrMap::new(),
            kill_switch_enabled: false,
            operations: Vec::new(),
        };
        proof { assert(words(r.operations@) =~= Seq::<Seq<char>>::empty()); }
        r
    }

    /// The commands issued so far, each as its words joined by spaces.
    pub fn operations(&self) -> (r: &[String])
        ensures
            words(r@) == self@.operations,
    {
        self.operations.as_slice()
    }

    /// Records a command and, when enforcing, runs it.
    fn execute_command(&mut self, command: &Vec<String>) -> (r: Result<(), NetworkBackendError>)
        ensures
            command@.len() == 0 ==> final(self)@ == old(self)@ && r is Ok,
            command@.len() > 0 ==> final(self)@ == (BackendView {
                operations: old(self)@.operations.push(joined(words(command@), " "@)),
                ..old(self)@
            }),
            old(self)@.mode == NetworkBackendMode::Staged ==> r is Ok,
    {
        if command.len() == 0 {
            return Ok(());
        }
        let ghost before = self.operations@;
        let line = join_words(command.as_slice());
        self.operations.push(line);
        proof {
            assert(words(self.operations@) =~= words(before).push(joined(words(command@), " "@)));
        }
        if self.mode == NetworkBackendMode::Staged {
            return Ok(());
        }
        let program = command[0].as_str();
        let args = slice_from(command.as_slice(), 1);
        match self.executor.run(program, args) {
            Ok(_) => Ok(()),
            Err(e) => Err(e),
        }
    }

    /// The commands that put a shard on `profile`.
    pub fn profile_commands(profile: RouteProfile) -> (r: Vec<Vec<String>>)
        ensures
            r@.len() == 1,
            words(r@[0]@) == profile_command(profile),
    {
        let cmd = match profile {
            RouteProfile::Offline => words_of(&["nft", "add", "rule", "inet", "phantomkernel", "output", "drop"]),
            RouteProfile::Direct => words_of(&["ip", "route", "replace", "default", "dev", "eth0"]),
            RouteProfile::Tor => words_of(&["ip", "route", "replace", "default", "via", "127.0.0.1"]),
            RouteProfile::Vpn => words_of(&["ip", "route", "replace", "default", "dev", "tun0"]),
        };
        proof {
            assert(words(cmd@) =~= profile_command(profile));
        }
        let mut r: Vec<Vec<String>> = Vec::new();
        r.push(cmd);
        r
    }

    /// The commands that turn the kill switch on or off.
    pub fn kill_switch_commands(enabled: bool) -> (r: Vec<Vec<String>>)
        ensures
            r@.len() == 1,
            words(r@[0]@) == kill_switch_command(enabled),
    {
        let cmd = if enabled {
            words_of(&["nft", "add", "rule", "inet", "phantomkernel", "output", "drop"])
        } else {
            words_of(&["nft", "flush", "chain", "inet", "phantomkernel", "output"])
        };
        proof {
            assert(words(cmd@) =~= kill_switch_command(enabled));
        }
        let mut r: Vec<Vec<String>> = Vec::new();
        r.push(cmd);
        r
    }
}

impl<E: CommandExecutor> NetworkBackend for NftablesRouteBackend<E> {
    open spec fn allows_egress(&self, shard_name: Seq<char>, profile: RouteProfile, kill_switch_enabled: bool) -> bool {
        nft_allows(self@, shard_name, profile, kill_switch_enabled)
    }

    /// The profile command is recorded; the shard's profile changes only on
    /// success; a staged backend always succeeds.
    open spec fn profile_step(&self, after: Self, shard_name: Seq<char>, profile: RouteProfile, answer: Result<(), Seq<char>>) -> bool {
        &&& after@ == (BackendView {
            profiles: if answer is Ok { self@.profiles.insert(shard_name, profile) } else { self@.profiles },
            operations: self@.operations.push(joined(profile_command(profile), " "@)),
            ..self@
        })
        &&& self@.mode == NetworkBackendMode::Staged ==> answer is Ok
    }

    /// The kill-switch command is recorded; the switch changes only on
    /// success; a staged backend always succeeds.
    open spec fn kill_switch_step(&self, after: Self, enabled: bool, answer: Result<(), Seq<char>>) -> bool {
        &&& after@ == (BackendView {
            kill_switch_enabled: if answer is Ok { enabled } else { self@.kill_switch_enabled },
            operations: self@.operations.push(joined(kill_switch_command(enabled), " "@)),
            ..self@
        })
        &&& self@.mode == NetworkBackendMode::Staged ==> answer is Ok
    }

    fn apply_profile(&mut self, shard_name: &str, profile: RouteProfile) -> (r: Result<(), NetworkBackendError>)
        ensures
            final(self)@.mode == old(self)@.mode,
            final(self)@.kill_switch_enabled == old(self)@.kill_switch_enabled,
            final(self)@.operations == old(self)@.operations.push(joined(profile_command(profile), " "@)),
            r is Ok ==> final(self)@.profiles == old(self)@.profiles.insert(shard_name@, profile),
            r is Err ==> final(self)@.profiles == old(self)@.profiles,
            old(self)@.mode == NetworkBackendMode::Staged ==> r is Ok,
    {
        let commands = Self::profile_commands(profile);
        self.execute_command(&commands[0])?;
        self.profiles.insert(owned(shard_name), profile);
        Ok(())
    }

    fn set_kill_switch(&mut self, enabled: bool) -> (r: Result<(), NetworkBackendError>)
        ensures
            final(self)@.mode == old(self)@.mode,
            final(self)@.profiles == old(self)@.profiles,
            final(self)@.operations == old(self)@.operations.push(joined(kill_switch_command(enabled), " "@)),
            r is Ok ==> final(self)@.kill_switch_enabled == enabled,
            r is Err ==> final(self)@.kill_switch_enabled == old(self)@.kill_switch_enabled,
            old(self)@.mode == NetworkBackendMode::Staged ==> r is Ok,
    {
        let commands = Self::kill_switch_commands(enabled);
        self.execute_command(&commands[0])?;
        self.kill_switch_enabled = enabled;
        Ok(())
    }

    fn can_egress(&self, shard_name: &str, profile: RouteProfile, kill_switch_enabled: bool) -> (r: bool) {
        if kill_switch_enabled || self.kill_switch_enabled {
            return false;
        }
        match self.profiles.get(shard_name) {
            None => false,
            Some(configured) => {
                let configured = *configured;
                if configured == RouteProfile::Offline {
                    false
                } else {
                    configured == profile && profile != RouteProfile::Offline
                }
            },
        }
    }

    fn sync_state(&mut self, route_profiles: &StrMap<RouteProfile>, kill_switch_enabled: bool) -> (r: Result<(), NetworkBackendError>)
        ensures
            final(self)@.mode == old(self)@.mode,
            r is Ok ==> final(self)@.profiles == route_profiles@ && final(self)@.kill_switch_enabled == kill_switch_enabled,
            old(self)@.mode == NetworkBackendMode::Staged ==> r is Ok,
    {
        self.profiles = StrMap::new();
        let entries = route_profiles.entries();
        let mut i: usize = 0;
        while i < entries.len()
            invariant
                i <= entries@.len(),
                self@.mode == old(self)@.mode,
                forall|j: int| #![trigger entries@[j]] 0 <= j < entries@.len() ==> route_profiles@.contains_key(entries@[j].0@)
                    && route_profiles@[entries@[j].0@] == entries@[j].1,
                forall|k: Seq<char>| #[trigger] route_profiles@.contains_key(k) ==> exists|j: int|
                    0 <= j < entries@.len() && #[trigger] entries@[j].0@ == k,
                forall|a: int, b: int| 0 <= a < entries@.len() && 0 <= b < entries@.len() && a != b
                    ==> #[trigger] entries@[a].0@ != #[trigger] entries@[b].0@,
                forall|j: int| #![trigger entries@[j]] 0 <= j < i ==> self@.profiles.contains_key(entries@[j].0@)
                    && self@.profiles[entries@[j].0@] == entries@[j].1,
                forall|k: Seq<char>| #[trigger] self@.profiles.contains_key(k) ==> exists|j: int|
                    0 <= j < i && #[trigger] entries@[j].0@ == k,
            decreases entries@.len() - i,
        {
            self.apply_profile(entries[i].0.as_str(), entries[i].1)?;
            proof {
                assert forall|j: int| #![trigger entries@[j]] 0 <= j < i + 1 implies self@.profiles.contains_key(entries@[j].0@)
                    && self@.profiles[entries@[j].0@] == entries@[j].1 by {
                    if j < i {
                        assert(entries@[j].0@ != entries@[i as int].0@);
                    }
                }
                assert forall|k: Seq<char>| #[trigger] self@.profiles.contains_key(k) implies exists|j: int|
                    0 <= j < i + 1 && #[trigger] entries@[j].0@ == k by {
                    if k != entries@[i as int].0@ {
                        let j = choose|j: int| 0 <= j < i && #[trigger] entries@[j].0@ == k;
                    }
                }
            }
            i = i + 1;
        }
        proof {
            assert forall|k: Seq<char>| #[trigger] route_profiles@.contains_key(k) implies self@.profiles.contains_key(k) by {
                let j = choose|j: int| 0 <= j < entries@.len() && #[trigger] entries@[j].0@ == k;
            }
            assert forall|k: Seq<char>| #[trigger] self@.profiles.contains_key(k) implies route_profiles@.contains_key(k)
                && self@.profiles[k] == route_profiles@[k] by {
                let j = choose|j: int| 0 <= j < i && #[trigger] entries@[j].0@ == k;
            }
            assert(self@.profiles =~= route_profiles@);
        }
        self.set_kill_switch(kill_switch_enabled)
    }
}

/// The slice of `s` from index `from` on.
fn slice_from(s: &[String], from: usize) -> (r: &[String])
    requires
        from <= s@.len(),
    ensures
        r@ == s@.skip(from as int),
{
    let (_, tail) = s.split_at(from);
    tail
}

/// The command replaces the default route, through the device named last.
pub open spec fn replaces_default_route(cmd: Seq<Seq<char>>) -> bool {
    cmd.len() == 6 && cmd.take(4) == seq!["ip"@, "route"@, "replace"@, "default"@]
}

/// The command routes the default route through a tunnel device ("tun...").
pub open spec fn routes_through_tunnel(cmd: Seq<Seq<char>>) -> bool {
    replaces_default_route(cmd) && cmd[4] == "dev"@ && cmd[5].len() >= 3 && cmd[5].take(3) == "tun"@
}

/// What each profile asks of the system: every profile that lets traffic
/// out replaces the default route, and only Offline does not, blocking all
/// output exactly as the kill switch does; only the VPN profile routes
/// through a tunnel device, only Tor through the local proxy at 127.0.0.1,
/// only Direct straight out of eth0; and no two profiles issue the same
/// command, so none is routed as another.
pub proof fn lemma_profiles_route_differently(p: RouteProfile, q: RouteProfile)
    ensures
        replaces_default_route(profile_command(p)) <==> p != RouteProfile::Offline,
        p == RouteProfile::Offline ==> profile_command(p) == kill_switch_command(true),
        routes_through_tunnel(profile_command(p)) <==> p == RouteProfile::Vpn,
        (replaces_default_route(profile_command(p)) && profile_command(p)[4] == "via"@
            && profile_command(p)[5] == "127.0.0.1"@) <==> p == RouteProfile::Tor,
        (replaces_default_route(profile_command(p)) && profile_command(p)[4] == "dev"@
            && profile_command(p)[5] == "eth0"@) <==> p == RouteProfile::Direct,
        profile_command(p) == profile_command(q) ==> p == q,
{
    reveal_strlit("ip");
    reveal_strlit("nft");
    reveal_strlit("dev");
    reveal_strlit("via");
    reveal_strlit("eth0");
    reveal_strlit("tun0");
    reveal_strlit("tun");
    reveal_strlit("127.0.0.1");
    let ip = seq!["ip"@, "route"@, "replace"@, "default"@];
    assert(profile_command(RouteProfile::Direct).take(4) =~= ip);
    assert(profile_command(RouteProfile::Tor).take(4) =~= ip);
    assert(profile_command(RouteProfile::Vpn).take(4) =~= ip);
    assert(profile_command(RouteProfile::Vpn)[5].take(3) =~= "tun"@);
    assert(profile_command(RouteProfile::Direct)[5].take(3) != "tun"@) by {
        assert(profile_command(RouteProfile::Direct)[5].take(3)[0] == 'e');
    }
    assert(profile_command(RouteProfile::Offline).len() == 7);
    assert("via"@ != "dev"@) by {
        assert("via"@[0] != "dev"@[0]);
    }
    assert("eth0"@ != "tun0"@) by {
        assert("eth0"@[0] != "tun0"@[0]);
    }
    assert("127.0.0.1"@ != "tun0"@) by {
        assert("127.0.0.1"@.len() != "tun0"@.len());
    }
    assert("127.0.0.1"@ != "eth0"@) by {
        assert("127.0.0.1"@.len() != "eth0"@.len());
    }
    if profile_command(p) == profile_command(q) && p != q {
        assert(profile_command(p).len() == profile_command(q).len());
        assert(profile_command(p)[4] == profile_command(q)[4]);
        assert(profile_command(p)[5] == profile_command(q)[5]);
    }
}

} // verus!
