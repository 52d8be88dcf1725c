//! Executing control-shell commands against the shell's own record of the
//! persona shards and its audit events.
use vstd::prelude::*;
use crate::audit::{audit_view, record, AuditEvent};
use crate::collections::StrMap;
use crate::shell::input::{pad4, padded4, parse_usize, parsed_usize, split_words, tokens};
use crate::shell::theme::{
    error_prefix, error_suffix, info_prefix, info_suffix, success_prefix, success_suffix,
    warning_prefix, warning_suffix, Theme,
};
use crate::text::{cat, cat3, dec_digits, decimal, owned, str_eq};

verus! {

/// The state and network profile the shell shows for a shard.
#[derive(Debug, Clone)]
pub struct ShardStatus {
    pub state: String,
    pub network_profile: String,
}

impl View for ShardStatus {
    type V = (Seq<char>, Seq<char>);

    open spec fn view(&self) -> (Seq<char>, Seq<char>) {
        (self.state@, self.network_profile@)
    }
}

/// What the shell knows: the shard in use, its audit events and its shards.
pub struct CommandContext {
    pub current_shard: Option<String>,
    pub audit_log: Vec<AuditEvent>,
    pub shards: StrMap<ShardStatus>,
}

/// The shell's state as values: the shard in use, each shard's state and
/// profile, the order in which the shards are listed, and the audit events.
pub struct ShellView {
    pub current: Option<Seq<char>>,
    pub shards: Map<Seq<char>, (Seq<char>, Seq<char>)>,
    pub order: Seq<Seq<char>>,
    pub log: Seq<(Seq<char>, Seq<char>)>,
}

impl View for CommandContext {
    type V = ShellView;

    open spec fn view(&self) -> ShellView {
        ShellView {
            current: match self.current_shard {
                Some(s) => Some(s@),
                None => None,
            },
            shards: self.shards@.map_values(|s: ShardStatus| s@),
            order: self.shards.key_order(),
            log: audit_view(self.audit_log@),
        }
    }
}

/// The characters of each string of a sequence of string slices.
pub open spec fn strs(s: Seq<&str>) -> Seq<Seq<char>> {
    s.map_values(|w: &str| w@)
}

/// A result of strings, taken by the characters of each side.
pub open spec fn result_text(r: Result<String, String>) -> Result<Seq<char>, Seq<char>> {
    match r {
        Ok(s) => Ok(s@),
        Err(e) => Err(e@),
    }
}

/// The answer and the state that follow a command.
pub type Outcome = (Result<Seq<char>, Seq<char>>, ShellView);

/// `x` in the theme's success colours.
pub open spec fn success(t: Theme, x: Seq<char>) -> Seq<char> {
    success_prefix(t) + x + success_suffix(t)
}

/// `x` in the theme's warning colours.
pub open spec fn warning(t: Theme, x: Seq<char>) -> Seq<char> {
    warning_prefix(t) + x + warning_suffix(t)
}

/// `x` in the theme's information colours.
pub open spec fn info(t: Theme, x: Seq<char>) -> Seq<char> {
    info_prefix(t) + x + info_suffix(t)
}

/// `x` in the theme's error colours.
pub open spec fn alarm(t: Theme, x: Seq<char>) -> Seq<char> {
    error_prefix(t) + x + error_suffix(t)
}

/// The shards the shell starts with, all stopped on the default profile.
pub open spec fn initial_shards() -> Seq<Seq<char>> {
    seq!["work"@, "anon"@, "burner"@, "lab"@]
}

/// `v` with one more audit event.
pub open spec fn logged(v: ShellView, event_type: Seq<char>, payload: Seq<char>) -> ShellView {
    ShellView { log: v.log.push((event_type, payload)), ..v }
}

/// `v` with shard `name` in `state`, on the profile it had.
pub open spec fn with_shard_state(v: ShellView, name: Seq<char>, state: Seq<char>) -> ShellView {
    ShellView { shards: v.shards.insert(name, (state, v.shards[name].1)), ..v }
}

/// The mark in front of a shard in a listing.
pub open spec fn indicator(t: Theme, state: Seq<char>) -> Seq<char> {
    if state == "running"@ {
        success(t, "●"@)
    } else if state == "stopped"@ {
        info(t, "○"@)
    } else {
        "○"@
    }
}

/// One line of the shard listing.
pub open spec fn shard_line(t: Theme, name: Seq<char>, status: (Seq<char>, Seq<char>)) -> Seq<char> {
    "  "@ + indicator(t, status.0) + " "@ + name + " - network: "@ + status.1 + "\n"@
}

/// The lines of the shard listing for the shards of `order`, in that order.
pub open spec fn shard_lines(
    t: Theme,
    shards: Map<Seq<char>, (Seq<char>, Seq<char>)>,
    order: Seq<Seq<char>>,
) -> Seq<char>
    decreases order.len(),
{
    if order.len() == 0 {
        Seq::empty()
    } else {
        shard_lines(t, shards, order.drop_last()) + shard_line(t, order.last(), shards[order.last()])
    }
}

/// What `shard ...` answers, and the state after it.
pub open spec fn shard_outcome(v: ShellView, t: Theme, args: Seq<Seq<char>>) -> Outcome {
    if args.len() == 0 {
        (Err("Usage: shard <ls|create|start|stop|status> [name]"@), v)
    } else if args[0] == "ls"@ || args[0] == "list"@ {
        (Ok("Persona Shards:\n"@ + shard_lines(t, v.shards, v.order)), v)
    } else if args[0] == "create"@ {
        if args.len() < 2 {
            (Err("Usage: shard create <name>"@), v)
        } else if v.shards.contains_key(args[1]) {
            (Err("Shard '"@ + args[1] + "' already exists"@), v)
        } else {
            (
                Ok(success(t, "Shard '"@ + args[1] + "' created"@)),
                ShellView {
                    shards: v.shards.insert(args[1], ("stopped"@, "default"@)),
                    order: v.order.push(args[1]),
                    log: v.log.push(("shell.shard.created"@, args[1])),
                    ..v
                },
            )
        }
    } else if args[0] == "start"@ {
        if args.len() < 2 {
            (Err("Usage: shard start <name>"@), v)
        } else if !v.shards.contains_key(args[1]) {
            (Err("Shard '"@ + args[1] + "' not found"@), v)
        } else {
            (
                Ok(success(t, "Shard '"@ + args[1] + "' started"@)),
                logged(with_shard_state(v, args[1], "running"@), "shell.shard.started"@, args[1]),
            )
        }
    } else if args[0] == "stop"@ {
        if args.len() < 2 {
            (Err("Usage: shard stop <name>"@), v)
        } else if !v.shards.contains_key(args[1]) {
            (Err("Shard '"@ + args[1] + "' not found"@), v)
        } else {
            (
                Ok(warning(t, "Shard '"@ + args[1] + "' stopped"@)),
                logged(with_shard_state(v, args[1], "stopped"@), "shell.shard.stopped"@, args[1]),
            )
        }
    } else if args[0] == "status"@ {
        if args.len() < 2 {
            (Err("Usage: shard status <name>"@), v)
        } else if !v.shards.contains_key(args[1]) {
            (Err("Shard '"@ + args[1] + "' not found"@), v)
        } else {
            (
                Ok("Shard: "@ + args[1] + "\n  State: "@ + v.shards[args[1]].0 + "\n  Network: "@
                    + v.shards[args[1]].1 + "\n  Policy: active"@),
                v,
            )
        }
    } else {
        (Err("Unknown shard command: '"@ + args[0] + "'. Use: ls, create, start, stop, status"@), v)
    }
}

/// The policy rules the shell lists.
pub open spec fn policy_listing() -> Seq<char> {
    "Policy Rules:\n  [work]\n    - filesystem: ~/work/* (read/write)\n    - network: direct (allowed)\n    - camera: denied\n    - microphone: 15min sessions\n    \n  [anon]\n    - filesystem: ~/anon/* (read/write)\n    - network: tor-only\n    - camera: denied\n    - microphone: denied\n    \n  [burner]\n    - filesystem: tmpfs only\n    - network: tor + rotation\n    - camera: denied\n    - microphone: denied\n    \n  [lab]\n    - filesystem: ~/lab/* (read/write)\n    - network: isolated vlan\n    - camera: allowed\n    - microphone: allowed\n"@
}

/// What `policy ...` answers; it changes nothing.
pub open spec fn policy_outcome(t: Theme, args: Seq<Seq<char>>) -> Result<Seq<char>, Seq<char>> {
    if args.len() == 0 {
        Err("Usage: policy <ls|grant|revoke|check>"@)
    } else if args[0] == "ls"@ || args[0] == "list"@ {
        Ok(policy_listing())
    } else if args[0] == "grant"@ {
        if args.len() < 3 {
            Err("Usage: policy grant <shard> <resource> [duration]"@)
        } else {
            let duration = if args.len() > 3 { args[3] } else { "1h"@ };
            Ok(success(t, "Granted '"@ + args[2] + "' access to shard '"@ + args[1] + "' for "@ + duration))
        }
    } else if args[0] == "revoke"@ {
        if args.len() < 3 {
            Err("Usage: policy revoke <shard> <resource>"@)
        } else {
            Ok(warning(t, "Revoked '"@ + args[2] + "' access from shard '"@ + args[1] + "'"@))
        }
    } else if args[0] == "check"@ {
        if args.len() < 3 {
            Err("Usage: policy check <shard> <resource>"@)
        } else {
            Ok(info(t, "Policy check: ALLOWED (simulated)"@))
        }
    } else {
        Err("Unknown policy command: '"@ + args[0] + "'. Use: ls, grant, revoke, check"@)
    }
}

/// The network summary the shell shows.
pub open spec fn network_summary() -> Seq<char> {
    "Network Status:\n  Kill Switch: inactive\n  DNS Leak Check: passed\n  IPv6 Policy: disabled\n  Active Routes:\n    - work: direct (eth0)\n    - anon: tor (tun0)\n    - burner: tor + rotate (tun1)\n    - lab: isolated (vlan100)\n"@
}

/// What `net ...` answers, and the state after it.
pub open spec fn net_outcome(v: ShellView, t: Theme, args: Seq<Seq<char>>) -> Outcome {
    if args.len() == 0 {
        (Err("Usage: net <status|profile|kill|restore>"@), v)
    } else if args[0] == "status"@ {
        (Ok(network_summary()), v)
    } else if args[0] == "profile"@ {
        if args.len() < 2 {
            (Err("Usage: net profile <shard>"@), v)
        } else if !v.shards.contains_key(args[1]) {
            (Err("Shard '"@ + args[1] + "' not found"@), v)
        } else {
            (Ok("Shard '"@ + args[1] + "' network profile: "@ + v.shards[args[1]].1), v)
        }
    } else if args[0] == "kill"@ {
        (
            Ok(warning(t, "⚠ KILL SWITCH ACTIVATED - All network interfaces disabled"@)),
            logged(v, "shell.net.kill_switch"@, "activated"@),
        )
    } else if args[0] == "restore"@ {
        (
            Ok(success(t, "Network interfaces restored"@)),
            logged(v, "shell.net.kill_switch"@, "deactivated"@),
        )
    } else {
        (Err("Unknown net command: '"@ + args[0] + "'. Use: status, profile, kill, restore"@), v)
    }
}

/// The airlock summary the shell shows.
pub open spec fn airlock_summary() -> Seq<char> {
    "Airlock Status:\n  Active Sessions: 0\n  Pending Transfers: 0\n  Last Transfer: none\n"@
}

/// What `airlock ...` answers; it changes nothing.
pub open spec fn airlock_outcome(t: Theme, args: Seq<Seq<char>>) -> Result<Seq<char>, Seq<char>> {
    if args.len() == 0 {
        Err("Usage: airlock <send|status|approve|reject>"@)
    } else if args[0] == "send"@ {
        if args.len() < 4 {
            Err("Usage: airlock send <from_shard> <to_shard> <file>"@)
        } else {
            Ok(info(t, "Initiating airlock transfer: "@ + args[1] + " → "@ + args[2] + " (file: "@ + args[3] + ")"@))
        }
    } else if args[0] == "status"@ {
        Ok(airlock_summary())
    } else {
        Err("Unknown airlock command: '"@ + args[0] + "'. Use: send, status"@)
    }
}

/// Every shard locked, on the profile it had.
pub open spec fn all_locked(shards: Map<Seq<char>, (Seq<char>, Seq<char>)>) -> Map<Seq<char>, (Seq<char>, Seq<char>)> {
    shards.map_values(|s: (Seq<char>, Seq<char>)| ("locked"@, s.1))
}

/// What `panic` answers, and the state after it: every shard locked.
pub open spec fn panic_outcome(v: ShellView, t: Theme) -> Outcome {
    (
        Ok(warning(t, "⚠ PANIC MODE ACTIVATED ⚠"@) + "\n"@ + alarm(t, "Network kill switch: ENGAGED"@)
            + "\n"@ + alarm(t, "All shards: LOCKED"@)),
        ShellView { shards: all_locked(v.shards), ..logged(v, "shell.panic"@, "activated"@) },
    )
}

/// What `mask [workspace]` answers, and the state after it.
pub open spec fn mask_outcome(v: ShellView, t: Theme, args: Seq<Seq<char>>) -> Outcome {
    let w = if args.len() > 0 { args[0] } else { "decoy"@ };
    (Ok(info(t, "Mask mode: Switched to '"@ + w + "' workspace"@)), logged(v, "shell.mask"@, w))
}

/// The words that switch travel mode on.
pub open spec fn is_on_word(w: Seq<char>) -> bool {
    w == "on"@ || w == "enable"@ || w == "true"@
}

/// The words that switch travel mode off.
pub open spec fn is_off_word(w: Seq<char>) -> bool {
    w == "off"@ || w == "disable"@ || w == "false"@
}

/// What `travel on|off` answers, and the state after it.
pub open spec fn travel_outcome(v: ShellView, t: Theme, args: Seq<Seq<char>>) -> Outcome {
    if args.len() == 0 || !(is_on_word(args[0]) || is_off_word(args[0])) {
        (Err("Usage: travel <on|off>"@), v)
    } else if is_on_word(args[0]) {
        (
            Ok(warning(t, "Travel mode: ENABLED (ephemeral sessions, strict policy)"@)),
            logged(v, "shell.travel"@, "enabled"@),
        )
    } else {
        (Ok(success(t, "Travel mode: DISABLED"@)), logged(v, "shell.travel"@, "disabled"@))
    }
}

/// One line of the audit listing; events are numbered from one.
pub open spec fn audit_line(sequence: nat, event: (Seq<char>, Seq<char>)) -> Seq<char> {
    "  [#"@ + pad4(sequence) + "] "@ + event.0 + " -> "@ + event.1 + "\n"@
}

/// The lines for at most `count` events, newest first, starting with the
/// event numbered `newest`.
pub open spec fn recent_lines(log: Seq<(Seq<char>, Seq<char>)>, newest: nat, count: nat) -> Seq<char>
    decreases count,
{
    if count == 0 || newest == 0 {
        Seq::empty()
    } else {
        audit_line(newest, log[newest - 1]) + recent_lines(log, (newest - 1) as nat, (count - 1) as nat)
    }
}

/// How many events `audit ls [n]` shows: `n` when it reads as a number, else ten.
pub open spec fn listing_limit(args: Seq<Seq<char>>) -> nat {
    if args.len() > 1 && parsed_usize(args[1]) is Some {
        parsed_usize(args[1])->0 as nat
    } else {
        10
    }
}

/// What `audit ...` answers, and the state after it.
pub open spec fn audit_outcome(v: ShellView, t: Theme, args: Seq<Seq<char>>) -> Outcome {
    if args.len() == 0 {
        (Err("Usage: audit <ls|verify>"@), v)
    } else if args[0] == "ls"@ || args[0] == "list"@ {
        if v.log.len() == 0 {
            (Ok("No audit events recorded."@), v)
        } else {
            (Ok("Recent Audit Events:\n"@ + recent_lines(v.log, v.log.len(), listing_limit(args))), v)
        }
    } else if args[0] == "verify"@ {
        (Ok(success(t, "Audit chain integrity: VERIFIED"@)), logged(v, "shell.audit.verify"@, "requested"@))
    } else {
        (Err("Unknown audit command: '"@ + args[0] + "'. Use: ls, verify"@), v)
    }
}

/// How many of the shards of `order` are running.
pub open spec fn running_count(shards: Map<Seq<char>, (Seq<char>, Seq<char>)>, order: Seq<Seq<char>>) -> nat
    decreases order.len(),
{
    if order.len() == 0 {
        0
    } else {
        running_count(shards, order.drop_last()) + if shards[order.last()].0 == "running"@ { 1nat } else { 0nat }
    }
}

/// The system summary for `v`.
pub open spec fn status_text(v: ShellView) -> Seq<char> {
    "\nSystem Status:\n  Shards: "@ + dec_digits(running_count(v.shards, v.order)) + "/"@ + dec_digits(
        v.shards.len(),
    ) + " running\n  Network: operational\n  Audit Chain: active ("@ + dec_digits(v.log.len())
        + " events)\n  Security Mode: normal\n  Theme: active\n"@
}

/// What `use <shard>` answers, and the state after it.
pub open spec fn use_outcome(v: ShellView, t: Theme, args: Seq<Seq<char>>) -> Outcome {
    if args.len() == 0 {
        (Err("Usage: use <shard_name>"@), v)
    } else if !v.shards.contains_key(args[0]) {
        (Err("Shard '"@ + args[0] + "' not found. Use 'shard ls' to list shards."@), v)
    } else {
        (Ok(success(t, "Switched to shard: '"@ + args[0] + "'"@)), ShellView { current: Some(args[0]), ..v })
    }
}

/// What a command line answers, and the state after it.
pub open spec fn command_outcome(v: ShellView, t: Theme, input: Seq<char>) -> Outcome {
    let w = tokens(input);
    if w.len() == 0 {
        (Ok(Seq::empty()), v)
    } else {
        let args = w.drop_first();
        if w[0] == "shard"@ {
            shard_outcome(v, t, args)
        } else if w[0] == "policy"@ {
            (policy_outcome(t, args), v)
        } else if w[0] == "net"@ {
            net_outcome(v, t, args)
        } else if w[0] == "airlock"@ {
            (airlock_outcome(t, args), v)
        } else if w[0] == "panic"@ {
            panic_outcome(v, t)
        } else if w[0] == "mask"@ {
            mask_outcome(v, t, args)
        } else if w[0] == "travel"@ {
            travel_outcome(v, t, args)
        } else if w[0] == "audit"@ {
            audit_outcome(v, t, args)
        } else if w[0] == "status"@ {
            (Ok(status_text(v)), v)
        } else if w[0] == "use"@ {
            use_outcome(v, t, args)
        } else {
            (Err("Unknown command: '"@ + w[0] + "'. Type 'help' for available commands."@), v)
        }
    }
}

/// The answer of a successful command as a `Result`.
fn answer(text: String) -> (r: Result<String, String>)
    ensures
        result_text(r) == Ok::<Seq<char>, Seq<char>>(text@),
{
    Ok(text)
}

/// A refused command's message as a `Result`.
fn refusal(text: String) -> (r: Result<String, String>)
    ensures
        result_text(r) == Err::<Seq<char>, Seq<char>>(text@),
{
    Err(text)
}

/// The mark in front of a shard in a listing.
fn indicator_text(theme: &Theme, state: &str) -> (r: String)
    ensures
        r@ == indicator(*theme, state@),
{
    if str_eq(state, "running") {
        theme.style_success(owned("●"))
    } else if str_eq(state, "stopped") {
        theme.style_info(owned("○"))
    } else {
        owned("○")
    }
}

/// The listing of the shards, one line each, in the order they were added.
fn shard_listing(shards: &StrMap<ShardStatus>, theme: &Theme) -> (r: String)
    ensures
        r@ == shard_lines(*theme, shards@.map_values(|s: ShardStatus| s@), shards.key_order()),
{
    let entries = shards.entries();
    let ghost m = shards@.map_values(|s: ShardStatus| s@);
    let ghost order = shards.key_order();
    let mut out = String::new();
    let mut i: usize = 0;
    while i < entries.len()
        invariant
            i <= entries@.len(),
            m == shards@.map_values(|s: ShardStatus| s@),
            order == shards.key_order(),
            entries@.map_values(|e: (String, ShardStatus)| e.0@) == order,
            forall|j: int|
                #![trigger entries@[j]]
                0 <= j < entries@.len() ==> shards@.contains_key(entries@[j].0@)
                    && shards@[entries@[j].0@] == entries@[j].1,
            out@ == shard_lines(*theme, m, order.subrange(0, i as int)),
        decreases entries@.len() - i,
    {
        let name = entries[i].0.as_str();
        let status = &entries[i].1;
        let ind = indicator_text(theme, status.state.as_str());
        out.append("  ");
        out.append(ind.as_str());
        out.append(" ");
        out.append(name);
        out.append(" - network: ");
        out.append(status.network_profile.as_str());
        out.append("\n");
        proof {
            let o = order.subrange(0, i + 1);
            assert(o.drop_last() =~= order.subrange(0, i as int));
            assert(o.last() == order[i as int]);
            assert(order[i as int] == entries@[i as int].0@);
            assert(m[name@] == status@);
        }
        i = i + 1;
    }
    proof {
        assert(order.subrange(0, entries@.len() as int) =~= order);
    }
    out
}

/// Puts shard `name` in `state`, keeping its profile.
fn set_shard_state(ctx: &mut CommandContext, name: &str, state: &str)
    requires
        old(ctx)@.shards.contains_key(name@),
    ensures
        final(ctx)@ == with_shard_state(old(ctx)@, name@, state@),
{
    let profile = match ctx.shards.get(name) {
        Some(s) => s.network_profile.clone(),
        None => String::new(),
    };
    let ghost before = ctx.shards@;
    ctx.shards.insert(owned(name), ShardStatus { state: owned(state), network_profile: profile });
    proof {
        assert(ctx.shards@.map_values(|s: ShardStatus| s@) =~= before.map_values(|s: ShardStatus| s@).insert(
            name@,
            (state@, before[name@].network_profile@),
        ));
    }
}

/// Carries out `shard ...`.
fn shard_command(args: &[&str], ctx: &mut CommandContext, theme: &Theme) -> (r: Result<String, String>)
    ensures
        (result_text(r), final(ctx)@) == shard_outcome(old(ctx)@, *theme, strs(args@)),
{
    if args.len() == 0 {
        return refusal(owned("Usage: shard <ls|create|start|stop|status> [name]"));
    }
    let sub = args[0];
    if str_eq(sub, "ls") || str_eq(sub, "list") {
        let listing = shard_listing(&ctx.shards, theme);
        return answer(cat("Persona Shards:\n", listing.as_str()));
    }
    if str_eq(sub, "create") {
        if args.len() < 2 {
            return refusal(owned("Usage: shard create <name>"));
        }
        let name = args[1];
        if ctx.shards.contains_key(name) {
            return refusal(cat3("Shard '", name, "' already exists"));
        }
        let ghost before = ctx.shards@;
        ctx.shards.insert(owned(name), ShardStatus { state: owned("stopped"), network_profile: owned("default") });
        record(&mut ctx.audit_log, "shell.shard.created", owned(name));
        proof {
            assert(ctx.shards@.map_values(|s: ShardStatus| s@) =~= before.map_values(|s: ShardStatus| s@).insert(
                name@,
                ("stopped"@, "default"@),
            ));
        }
        return answer(theme.style_success(cat3("Shard '", name, "' created")));
    }
    if str_eq(sub, "start") || str_eq(sub, "stop") {
        let starting = str_eq(sub, "start");
        if args.len() < 2 {
            if starting {
                return refusal(owned("Usage: shard start <name>"));
            } else {
                return refusal(owned("Usage: shard stop <name>"));
            }
        }
        let name = args[1];
        if !ctx.shards.contains_key(name) {
            return refusal(cat3("Shard '", name, "' not found"));
        }
        if starting {
            set_shard_state(ctx, name, "running");
            record(&mut ctx.audit_log, "shell.shard.started", owned(name));
            return answer(theme.style_success(cat3("Shard '", name, "' started")));
        } else {
            set_shard_state(ctx, name, "stopped");
            record(&mut ctx.audit_log, "shell.shard.stopped", owned(name));
            return answer(theme.style_warning(cat3("Shard '", name, "' stopped")));
        }
    }
    if str_eq(sub, "status") {
        if args.len() < 2 {
            return refusal(owned("Usage: shard status <name>"));
        }
        let name = args[1];
        match ctx.shards.get(name) {
            Some(status) => {
                let mut out = cat("Shard: ", name);
                out.append("\n  State: ");
                out.append(status.state.as_str());
                out.append("\n  Network: ");
                out.append(status.network_profile.as_str());
                out.append("\n  Policy: active");
                return answer(out);
            },
            None => {
                return refusal(cat3("Shard '", name, "' not found"));
            },
        }
    }
    refusal(cat3("Unknown shard command: '", sub, "'. Use: ls, create, start, stop, status"))
}

/// The policy rules the shell lists.
fn policy_listing_text() -> (r: &'static str)
    ensures
        r@ == policy_listing(),
{
    "Policy Rules:\n  [work]\n    - filesystem: ~/work/* (read/write)\n    - network: direct (allowed)\n    - camera: denied\n    - microphone: 15min sessions\n    \n  [anon]\n    - filesystem: ~/anon/* (read/write)\n    - network: tor-only\n    - camera: denied\n    - microphone: denied\n    \n  [burner]\n    - filesystem: tmpfs only\n    - network: tor + rotation\n    - camera: denied\n    - microphone: denied\n    \n  [lab]\n    - filesystem: ~/lab/* (read/write)\n    - network: isolated vlan\n    - camera: allowed\n    - microphone: allowed\n"
}

/// Carries out `policy ...`; it changes nothing.
fn policy_command(args: &[&str], theme: &Theme) -> (r: Result<String, String>)
    ensures
        result_text(r) == policy_outcome(*theme, strs(args@)),
{
    if args.len() == 0 {
        return refusal(owned("Usage: policy <ls|grant|revoke|check>"));
    }
    let sub = args[0];
    if str_eq(sub, "ls") || str_eq(sub, "list") {
        return answer(owned(policy_listing_text()));
    }
    if str_eq(sub, "grant") {
        if args.len() < 3 {
            return refusal(owned("Usage: policy grant <shard> <resource> [duration]"));
        }
        let duration: &str = if args.len() > 3 { args[3] } else { "1h" };
        let mut out = cat3("Granted '", args[2], "' access to shard '");
        out.append(args[1]);
        out.append("' for ");
        out.append(duration);
        return answer(theme.style_success(out));
    }
    if str_eq(sub, "revoke") {
        if args.len() < 3 {
            return refusal(owned("Usage: policy revoke <shard> <resource>"));
        }
        let mut out = cat3("Revoked '", args[2], "' access from shard '");
        out.append(args[1]);
        out.append("'");
        return answer(theme.style_warning(out));
    }
    if str_eq(sub, "check") {
        if args.len() < 3 {
            return refusal(owned("Usage: policy check <shard> <resource>"));
        }
        return answer(theme.style_info(owned("Policy check: ALLOWED (simulated)")));
    }
    refusal(cat3("Unknown policy command: '", sub, "'. Use: ls, grant, revoke, check"))
}

/// The network summary the shell shows.
fn network_summary_text() -> (r: &'static str)
    ensures
        r@ == network_summary(),
{
    "Network Status:\n  Kill Switch: inactive\n  DNS Leak Check: passed\n  IPv6 Policy: disabled\n  Active Routes:\n    - work: direct (eth0)\n    - anon: tor (tun0)\n    - burner: tor + rotate (tun1)\n    - lab: isolated (vlan100)\n"
}

/// Carries out `net ...`.
fn net_command(args: &[&str], ctx: &mut CommandContext, theme: &Theme) -> (r: Result<String, String>)
    ensures
        (result_text(r), final(ctx)@) == net_outcome(old(ctx)@, *theme, strs(args@)),
{
    if args.len() == 0 {
        return refusal(owned("Usage: net <status|profile|kill|restore>"));
    }
    let sub = args[0];
    if str_eq(sub, "status") {
        return answer(owned(network_summary_text()));
    }
    if str_eq(sub, "profile") {
        if args.len() < 2 {
            return refusal(owned("Usage: net profile <shard>"));
        }
        let shard = args[1];
        match ctx.shards.get(shard) {
            Some(status) => {
                let mut out = cat3("Shard '", shard, "' network profile: ");
                out.append(status.network_profile.as_str());
                return answer(out);
            },
            None => {
                return refusal(cat3("Shard '", shard, "' not found"));
            },
        }
    }
    if str_eq(sub, "kill") {
        record(&mut ctx.audit_log, "shell.net.kill_switch", owned("activated"));
        return answer(theme.style_warning(owned("⚠ KILL SWITCH ACTIVATED - All network interfaces disabled")));
    }
    if str_eq(sub, "restore") {
        record(&mut ctx.audit_log, "shell.net.kill_switch", owned("deactivated"));
        return answer(theme.style_success(owned("Network interfaces restored")));
    }
    refusal(cat3("Unknown net command: '", sub, "'. Use: status, profile, kill, restore"))
}

/// The airlock summary the shell shows.
fn airlock_summary_text() -> (r: &'static str)
    ensures
        r@ == airlock_summary(),
{
    "Airlock Status:\n  Active Sessions: 0\n  Pending Transfers: 0\n  Last Transfer: none\n"
}

/// Carries out `airlock ...`; it changes nothing.
fn airlock_command(args: &[&str], theme: &Theme) -> (r: Result<String, String>)
    ensures
        result_text(r) == airlock_outcome(*theme, strs(args@)),
{
    if args.len() == 0 {
        return refusal(owned("Usage: airlock <send|status|approve|reject>"));
    }
    let sub = args[0];
    if str_eq(sub, "send") {
        if args.len() < 4 {
            return refusal(owned("Usage: airlock send <from_shard> <to_shard> <file>"));
        }
        let mut out = cat3("Initiating airlock transfer: ", args[1], " → ");
        out.append(args[2]);
        out.append(" (file: ");
        out.append(args[3]);
        out.append(")");
        return answer(theme.style_info(out));
    }
    if str_eq(sub, "status") {
        return answer(owned(airlock_summary_text()));
    }
    refusal(cat3("Unknown airlock command: '", sub, "'. Use: send, status"))
}

/// Locks every shard, keeping each one's profile.
fn lock_all(shards: &mut StrMap<ShardStatus>)
    ensures
        final(shards)@.map_values(|s: ShardStatus| s@) == all_locked(old(shards)@.map_values(|s: ShardStatus| s@)),
        final(shards).key_order() == old(shards).key_order(),
{
    let ghost start = shards@;
    let ghost order = shards.key_order();
    let n: usize = shards.len();
    let mut i: usize = 0;
    let first = shards.entries();
    proof {
        assert forall|a: int, b: int| 0 <= a < b < n implies #[trigger] order[a] != #[trigger] order[b] by {
            assert(order[a] == first@[a].0@);
            assert(order[b] == first@[b].0@);
        }
        assert forall|k: Seq<char>| #[trigger] start.contains_key(k) <==> order.contains(k) by {
            if start.contains_key(k) {
                let j = choose|j: int| 0 <= j < first@.len() && #[trigger] first@[j].0@ == k;
                assert(order[j] == k);
            }
            if order.contains(k) {
                let j = choose|j: int| 0 <= j < order.len() && order[j] == k;
                assert(first@[j].0@ == k);
            }
        }
    }
    while i < n
        invariant
            n == start.len(),
            i <= n,
            shards.key_order() == order,
            shards@.dom() == start.dom(),
            order.len() == n,
            forall|a: int, b: int| 0 <= a < b < n ==> #[trigger] order[a] != #[trigger] order[b],
            forall|k: Seq<char>| #[trigger] start.contains_key(k) <==> order.contains(k),
            forall|j: int|
                #![trigger order[j]]
                0 <= j < n ==> if j < i {
                    shards@[order[j]]@ == ("locked"@, start[order[j]].network_profile@)
                } else {
                    shards@[order[j]] == start[order[j]]
                },
        decreases n - i,
    {
        let entries = shards.entries();
        let name = entries[i].0.clone();
        let profile = entries[i].1.network_profile.clone();
        proof {
            assert(entries@.map_values(|e: (String, ShardStatus)| e.0@)[i as int] == order[i as int]);
        }
        shards.insert(name, ShardStatus { state: owned("locked"), network_profile: profile });
        i = i + 1;
    }
    proof {
        assert(shards@.map_values(|s: ShardStatus| s@) =~= all_locked(start.map_values(|s: ShardStatus| s@))) by {
            assert forall|k: Seq<char>| #[trigger] shards@.contains_key(k) implies shards@[k]@ == (
                "locked"@,
                start[k].network_profile@,
            ) by {
                assert(order.contains(k));
                let j = choose|j: int| 0 <= j < order.len() && order[j] == k;
                assert(shards@[order[j]]@ == ("locked"@, start[order[j]].network_profile@));
            }
        }
    }
}

/// Carries out `panic`: every shard is locked.
fn panic_command(ctx: &mut CommandContext, theme: &Theme) -> (r: Result<String, String>)
    ensures
        (result_text(r), final(ctx)@) == panic_outcome(old(ctx)@, *theme),
{
    record(&mut ctx.audit_log, "shell.panic", owned("activated"));
    lock_all(&mut ctx.shards);
    let mut out = theme.style_warning(owned("⚠ PANIC MODE ACTIVATED ⚠"));
    out.append("\n");
    let kill = theme.style_error(owned("Network kill switch: ENGAGED"));
    out.append(kill.as_str());
    out.append("\n");
    let locked = theme.style_error(owned("All shards: LOCKED"));
    out.append(locked.as_str());
    answer(out)
}

/// Carries out `mask [workspace]`.
fn mask_command(args: &[&str], ctx: &mut CommandContext, theme: &Theme) -> (r: Result<String, String>)
    ensures
        (result_text(r), final(ctx)@) == mask_outcome(old(ctx)@, *theme, strs(args@)),
{
    let workspace: &str = if args.len() > 0 { args[0] } else { "decoy" };
    record(&mut ctx.audit_log, "shell.mask", owned(workspace));
    answer(theme.style_info(cat3("Mask mode: Switched to '", workspace, "' workspace")))
}

/// Carries out `travel on|off`.
fn travel_command(args: &[&str], ctx: &mut CommandContext, theme: &Theme) -> (r: Result<String, String>)
    ensures
        (result_text(r), final(ctx)@) == travel_outcome(old(ctx)@, *theme, strs(args@)),
{
    if args.len() == 0 {
        return refusal(owned("Usage: travel <on|off>"));
    }
    let word = args[0];
    let enabled: bool = if str_eq(word, "on") || str_eq(word, "enable") || str_eq(word, "true") {
        true
    } else if str_eq(word, "off") || str_eq(word, "disable") || str_eq(word, "false") {
        false
    } else {
        return refusal(owned("Usage: travel <on|off>"));
    };
    if enabled {
        record(&mut ctx.audit_log, "shell.travel", owned("enabled"));
        answer(theme.style_warning(owned("Travel mode: ENABLED (ephemeral sessions, strict policy)")))
    } else {
        record(&mut ctx.audit_log, "shell.travel", owned("disabled"));
        answer(theme.style_success(owned("Travel mode: DISABLED")))
    }
}

/// The lines for at most `limit` of the events of `log`, newest first.
fn audit_listing(log: &Vec<AuditEvent>, limit: usize) -> (r: String)
    ensures
        r@ == recent_lines(audit_view(log@), log@.len(), limit as nat),
{
    let ghost all = audit_view(log@);
    let mut out = String::new();
    let mut newest: usize = log.len();
    let mut count: usize = limit;
    while count > 0 && newest > 0
        invariant
            newest <= log@.len(),
            all == audit_view(log@),
            recent_lines(all, log@.len(), limit as nat) =~= out@ + recent_lines(all, newest as nat, count as nat),
        decreases count,
    {
        let event = &log[newest - 1];
        let number = padded4(newest as u64);
        let ghost before = out@;
        out.append("  [#");
        out.append(number.as_str());
        out.append("] ");
        out.append(event.event_type.as_str());
        out.append(" -> ");
        out.append(event.payload.as_str());
        out.append("\n");
        proof {
            let line = audit_line(newest as nat, all[newest - 1]);
            assert(all[newest - 1] == event@);
            assert(out@ =~= before + line);
            let rest = recent_lines(all, (newest - 1) as nat, (count - 1) as nat);
            assert(recent_lines(all, newest as nat, count as nat) == line + rest);
            assert(before + (line + rest) =~= (before + line) + rest);
        }
        newest = newest - 1;
        count = count - 1;
    }
    proof {
        assert(out@ + Seq::<char>::empty() =~= out@);
    }
    out
}

/// Carries out `audit ...`.
fn audit_command(args: &[&str], ctx: &mut CommandContext, theme: &Theme) -> (r: Result<String, String>)
    ensures
        (result_text(r), final(ctx)@) == audit_outcome(old(ctx)@, *theme, strs(args@)),
{
    if args.len() == 0 {
        return refusal(owned("Usage: audit <ls|verify>"));
    }
    let sub = args[0];
    if str_eq(sub, "ls") || str_eq(sub, "list") {
        let limit: usize = if args.len() > 1 {
            match parse_usize(args[1]) {
                Some(n) => n,
                None => 10,
            }
        } else {
            10
        };
        if ctx.audit_log.len() == 0 {
            return answer(owned("No audit events recorded."));
        }
        let lines = audit_listing(&ctx.audit_log, limit);
        return answer(cat("Recent Audit Events:\n", lines.as_str()));
    }
    if str_eq(sub, "verify") {
        record(&mut ctx.audit_log, "shell.audit.verify", owned("requested"));
        return answer(theme.style_success(owned("Audit chain integrity: VERIFIED")));
    }
    refusal(cat3("Unknown audit command: '", sub, "'. Use: ls, verify"))
}

/// How many shards are running.
fn running_shards(shards: &StrMap<ShardStatus>) -> (r: usize)
    ensures
        r == running_count(shards@.map_values(|s: ShardStatus| s@), shards.key_order()),
{
    let entries = shards.entries();
    let ghost m = shards@.map_values(|s: ShardStatus| s@);
    let ghost order = shards.key_order();
    let mut count: usize = 0;
    let mut i: usize = 0;
    while i < entries.len()
        invariant
            i <= entries@.len(),
            count <= i,
            m == shards@.map_values(|s: ShardStatus| s@),
            order == shards.key_order(),
            entries@.map_values(|e: (String, ShardStatus)| e.0@) == order,
            forall|j: int|
                #![trigger entries@[j]]
                0 <= j < entries@.len() ==> shards@.contains_key(entries@[j].0@)
                    && shards@[entries@[j].0@] == entries@[j].1,
            count == running_count(m, order.subrange(0, i as int)),
        decreases entries@.len() - i,
    {
        proof {
            let o = order.subrange(0, i + 1);
            assert(o.drop_last() =~= order.subrange(0, i as int));
            assert(o.last() == order[i as int]);
            assert(order[i as int] == entries@[i as int].0@);
            assert(m[entries@[i as int].0@] == entries@[i as int].1@);
        }
        if str_eq(entries[i].1.state.as_str(), "running") {
            count = count + 1;
        }
        i = i + 1;
    }
    proof {
        assert(order.subrange(0, entries@.len() as int) =~= order);
    }
    count
}

/// The system summary.
fn status_command(ctx: &CommandContext) -> (r: Result<String, String>)
    ensures
        result_text(r) == Ok::<Seq<char>, Seq<char>>(status_text(ctx@)),
{
    let running = running_shards(&ctx.shards);
    let total = ctx.shards.len();
    let events = ctx.audit_log.len();
    let mut out = owned("\nSystem Status:\n  Shards: ");
    out.append(decimal(running as u64).as_str());
    out.append("/");
    out.append(decimal(total as u64).as_str());
    out.append(" running\n  Network: operational\n  Audit Chain: active (");
    out.append(decimal(events as u64).as_str());
    out.append(" events)\n  Security Mode: normal\n  Theme: active\n");
    proof {
        assert(ctx@.shards.len() == ctx.shards@.len()) by {
            assert(ctx@.shards.dom() =~= ctx.shards@.dom());
        }
    }
    answer(out)
}

/// Carries out `use <shard>`.
fn use_command(args: &[&str], ctx: &mut CommandContext, theme: &Theme) -> (r: Result<String, String>)
    ensures
        (result_text(r), final(ctx)@) == use_outcome(old(ctx)@, *theme, strs(args@)),
{
    if args.len() == 0 {
        return refusal(owned("Usage: use <shard_name>"));
    }
    let name = args[0];
    if ctx.shards.contains_key(name) {
        ctx.current_shard = Some(owned(name));
        answer(theme.style_success(cat3("Switched to shard: '", name, "'")))
    } else {
        refusal(cat3("Shard '", name, "' not found. Use 'shard ls' to list shards."))
    }
}

impl CommandContext {
    /// A shell with no shard in use, no audit events, and the shards `work`,
    /// `anon`, `burner` and `lab`, stopped on the default profile.
    pub fn new() -> (r: Self)
        ensures
            r@.current is None,
            r@.log == Seq::<(Seq<char>, Seq<char>)>::empty(),
            r@.order == initial_shards(),
            r@.shards == Map::new(
                |k: Seq<char>| initial_shards().contains(k),
                |k: Seq<char>| ("stopped"@, "default"@),
            ),
    {
        proof {
            reveal_strlit("work");
            reveal_strlit("anon");
            reveal_strlit("burner");
            reveal_strlit("lab");
            assert("anon"@[0] != "work"@[0]);
            assert("burner"@.len() != "work"@.len() && "burner"@.len() != "anon"@.len());
            assert("lab"@.len() != "work"@.len() && "lab"@.len() != "burner"@.len());
        }
        let mut shards: StrMap<ShardStatus> = StrMap::new();
        shards.insert(owned("work"), ShardStatus { state: owned("stopped"), network_profile: owned("default") });
        shards.insert(owned("anon"), ShardStatus { state: owned("stopped"), network_profile: owned("default") });
        shards.insert(owned("burner"), ShardStatus { state: owned("stopped"), network_profile: owned("default") });
        shards.insert(owned("lab"), ShardStatus { state: owned("stopped"), network_profile: owned("default") });
        let r = CommandContext { current_shard: None, audit_log: Vec::new(), shards };
        proof {
            assert(r@.log =~= Seq::<(Seq<char>, Seq<char>)>::empty());
            assert(r@.order =~= initial_shards());
            assert(r@.shards =~= Map::new(
                |k: Seq<char>| initial_shards().contains(k),
                |k: Seq<char>| ("stopped"@, "default"@),
            )) by {
                assert forall|k: Seq<char>| initial_shards().contains(k) implies r@.shards.contains_key(k) by {
                    let j = choose|j: int| 0 <= j < 4 && initial_shards()[j] == k;
                }
            }
        }
        r
    }
}

/// Carries out one command line and answers it: the text to show, or the
/// message of a refused command.
pub fn execute_command(input: &str, context: &mut CommandContext, theme: &Theme) -> (r: Result<String, String>)
    ensures
        (result_text(r), final(context)@) == command_outcome(old(context)@, *theme, input@),
{
    let parts = split_words(input);
    if parts.len() == 0 {
        return answer(String::new());
    }
    let (head, args) = parts.as_slice().split_at(1);
    let cmd = head[0];
    proof {
        assert(strs(args@) =~= tokens(input@).drop_first());
        assert(cmd@ == tokens(input@)[0]);
    }
    if str_eq(cmd, "shard") {
        shard_command(args, context, theme)
    } else if str_eq(cmd, "policy") {
        policy_command(args, theme)
    } else if str_eq(cmd, "net") {
        net_command(args, context, theme)
    } else if str_eq(cmd, "airlock") {
        airlock_command(args, theme)
    } else if str_eq(cmd, "panic") {
        panic_command(context, theme)
    } else if str_eq(cmd, "mask") {
        mask_command(args, context, theme)
    } else if str_eq(cmd, "travel") {
        travel_command(args, context, theme)
    } else if str_eq(cmd, "audit") {
        audit_command(args, context, theme)
    } else if str_eq(cmd, "status") {
        status_command(context)
    } else if str_eq(cmd, "use") {
        use_command(args, context, theme)
    } else {
        refusal(cat3("Unknown command: '", cmd, "'. Type 'help' for available commands."))
    }
}

} // verus!
