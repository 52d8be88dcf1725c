//! The shell's help screen.
use vstd::prelude::*;
use crate::shell::theme::{section_prefix, section_suffix, Theme};
use crate::text::owned;

verus! {

/// A section title styled as a heading in theme `t`.
pub open spec fn heading(t: Theme, title: Seq<char>) -> Seq<char> {
    section_prefix(t) + title + section_suffix(t)
}

/// The help screen in theme `t`: a blank line, then each group of commands
/// under its styled heading, each group followed by a blank line.
pub open spec fn help_screen(t: Theme) -> Seq<char> {
    "\n"@
        + heading(t, "Shard Management"@) + ":\n"@
        + "  shard ls              List all persona shards\n"@
        + "  shard create <name>   Create a new shard\n"@
        + "  shard start <name>    Start a shard\n"@
        + "  shard stop <name>     Stop a shard\n"@
        + "  shard status <name>   Show shard status\n"@
        + "\n"@
        + heading(t, "Policy Control"@) + ":\n"@
        + "  policy ls             List policy rules\n"@
        + "  policy grant <shard> <resource> [duration]\n"@
        + "  policy revoke <shard> <resource>\n"@
        + "  policy check <shard> <resource>\n"@
        + "\n"@
        + heading(t, "Network Control"@) + ":\n"@
        + "  net status            Show network status\n"@
        + "  net profile <shard>   Show shard network profile\n"@
        + "  net kill              Enable network kill switch\n"@
        + "  net restore           Disable kill switch\n"@
        + "\n"@
        + heading(t, "Airlock Transfer"@) + ":\n"@
        + "  airlock send <from> <to> <file>\n"@
        + "  airlock status        Show airlock session status\n"@
        + "\n"@
        + heading(t, "Emergency Modes"@) + ":\n"@
        + "  panic                 Activate panic mode (kill network, lock shards)\n"@
        + "  mask <workspace>      Switch to decoy workspace\n"@
        + "  travel on|off         Toggle travel mode\n"@
        + "\n"@
        + heading(t, "Audit & System"@) + ":\n"@
        + "  audit ls [limit]      List recent audit events\n"@
        + "  audit verify          Verify audit chain integrity\n"@
        + "  status                Show system status\n"@
        + "  theme ls              List available themes\n"@
        + "  help                  Show this help\n"@
        + "  clear                 Clear screen\n"@
        + "  exit                  Exit shell\n"@
        + "\n"@
}

/// The help screen, styled by `theme`.
pub fn help_text(theme: &Theme) -> (r: String)
    ensures
        r@ == help_screen(*theme),
{
    let mut r = owned("\n");
    r.append(theme.style_section("Shard Management").as_str());
    r.append(":\n");
    r.append("  shard ls              List all persona shards\n");
    r.append("  shard create <name>   Create a new shard\n");
    r.append("  shard start <name>    Start a shard\n");
    r.append("  shard stop <name>     Stop a shard\n");
    r.append("  shard status <name>   Show shard status\n");
    r.append("\n");
    r.append(theme.style_section("Policy Control").as_str());
    r.append(":\n");
    r.append("  policy ls             List policy rules\n");
    r.append("  policy grant <shard> <resource> [duration]\n");
    r.append("  policy revoke <shard> <resource>\n");
    r.append("  policy check <shard> <resource>\n");
    r.append("\n");
    r.append(theme.style_section("Network Control").as_str());
    r.append(":\n");
    r.append("  net status            Show network status\n");
    r.append("  net profile <shard>   Show shard network profile\n");
    r.append("  net kill              Enable network kill switch\n");
    r.append("  net restore           Disable kill switch\n");
    r.append("\n");
    r.append(theme.style_section("Airlock Transfer").as_str());
    r.append(":\n");
    r.append("  airlock send <from> <to> <file>\n");
    r.append("  airlock status        Show airlock session status\n");
    r.append("\n");
    r.append(theme.style_section("Emergency Modes").as_str());
    r.append(":\n");
    r.append("  panic                 Activate panic mode (kill network, lock shards)\n");
    r.append("  mask <workspace>      Switch to decoy workspace\n");
    r.append("  travel on|off         Toggle travel mode\n");
    r.append("\n");
    r.append(theme.style_section("Audit & System").as_str());
    r.append(":\n");
    r.append("  audit ls [limit]      List recent audit events\n");
    r.append("  audit verify          Verify audit chain integrity\n");
    r.append("  status                Show system status\n");
    r.append("  theme ls              List available themes\n");
    r.append("  help                  Show this help\n");
    r.append("  clear                 Clear screen\n");
    r.append("  exit                  Exit shell\n");
    r.append("\n");
    r
}

} // verus!
