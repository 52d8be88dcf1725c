use specteros::shell::commands::{execute_command, CommandContext};
use specteros::shell::help::help_text;
use specteros::shell::input::{padded4, parse_usize, split_words};
use specteros::shell::theme::Theme;

#[test]
fn new_context_has_four_stopped_shards() {
    let context = CommandContext::new();
    assert!(context.current_shard.is_none());
    assert!(context.audit_log.is_empty());
    assert_eq!(context.shards.len(), 4);
    let status = context.shards.get("lab").expect("lab should exist");
    assert_eq!(status.state, "stopped");
    assert_eq!(status.network_profile, "default");
}

#[test]
fn words_are_split_at_any_whitespace() {
    let words = split_words("  shard\tstart   work \n");
    assert_eq!(words, vec!["shard", "start", "work"]);
    assert!(split_words("   ").is_empty());
    assert_eq!(split_words("a\u{3000}b"), vec!["a", "b"]);
}

#[test]
fn numbers_parse_as_std_does() {
    assert_eq!(parse_usize("42"), Some(42));
    assert_eq!(parse_usize("+7"), Some(7));
    assert_eq!(parse_usize("007"), Some(7));
    assert_eq!(parse_usize("+"), None);
    assert_eq!(parse_usize(""), None);
    assert_eq!(parse_usize("-1"), None);
    assert_eq!(parse_usize("12a"), None);
    assert_eq!(parse_usize("99999999999999999999999999"), None);
    for text in ["0", "18446744073709551615", "4294967296", "+0001"] {
        assert_eq!(parse_usize(text), text.parse::<usize>().ok());
    }
}

#[test]
fn numbers_are_zero_padded_to_four_digits() {
    assert_eq!(padded4(7), "0007");
    assert_eq!(padded4(123), "0123");
    assert_eq!(padded4(12345), "12345");
    assert_eq!(padded4(7), format!("{:04}", 7));
}

#[test]
fn empty_input_answers_nothing() {
    let mut context = CommandContext::new();
    assert_eq!(execute_command("   ", &mut context, &Theme::Default), Ok(String::new()));
}

#[test]
fn unknown_commands_are_refused() {
    let mut context = CommandContext::new();
    assert_eq!(
        execute_command("frobnicate now", &mut context, &Theme::Default),
        Err("Unknown command: 'frobnicate'. Type 'help' for available commands.".to_string())
    );
}

#[test]
fn shard_lifecycle_through_the_shell() {
    let mut context = CommandContext::new();
    let theme = Theme::Default;
    assert_eq!(
        execute_command("shard create vault", &mut context, &theme),
        Ok(theme.style_success("Shard 'vault' created".to_string()))
    );
    assert_eq!(
        execute_command("shard create vault", &mut context, &theme),
        Err("Shard 'vault' already exists".to_string())
    );
    assert_eq!(
        execute_command("shard start vault", &mut context, &theme),
        Ok(theme.style_success("Shard 'vault' started".to_string()))
    );
    assert_eq!(
        execute_command("shard status vault", &mut context, &theme),
        Ok("Shard: vault\n  State: running\n  Network: default\n  Policy: active".to_string())
    );
    assert_eq!(
        execute_command("shard stop ghost", &mut context, &theme),
        Err("Shard 'ghost' not found".to_string())
    );
    assert_eq!(context.audit_log.len(), 2);
    assert_eq!(context.audit_log[0].event_type, "shell.shard.created");
    assert_eq!(context.audit_log[1].payload, "vault");
}

#[test]
fn shard_listing_follows_insertion_order() {
    let mut context = CommandContext::new();
    let theme = Theme::Default;
    execute_command("shard start anon", &mut context, &theme).unwrap();
    let listing = execute_command("shard ls", &mut context, &theme).unwrap();
    let stopped = theme.style_info("○".to_string());
    let running = theme.style_success("●".to_string());
    let expected = format!(
        "Persona Shards:\n  {stopped} work - network: default\n  {running} anon - network: default\n  {stopped} burner - network: default\n  {stopped} lab - network: default\n"
    );
    assert_eq!(listing, expected);
}

#[test]
fn panic_locks_every_shard() {
    let mut context = CommandContext::new();
    let theme = Theme::Fsociety;
    let answer = execute_command("panic", &mut context, &theme).unwrap();
    assert_eq!(
        answer,
        format!(
            "{}\n{}\n{}",
            theme.style_warning("⚠ PANIC MODE ACTIVATED ⚠".to_string()),
            theme.style_error("Network kill switch: ENGAGED".to_string()),
            theme.style_error("All shards: LOCKED".to_string())
        )
    );
    for name in ["work", "anon", "burner", "lab"] {
        assert_eq!(context.shards.get(name).unwrap().state, "locked");
    }
}

#[test]
fn audit_listing_shows_newest_first() {
    let mut context = CommandContext::new();
    let theme = Theme::Default;
    execute_command("mask", &mut context, &theme).unwrap();
    execute_command("travel on", &mut context, &theme).unwrap();
    execute_command("net kill", &mut context, &theme).unwrap();
    assert_eq!(
        execute_command("audit ls 2", &mut context, &theme),
        Ok("Recent Audit Events:\n  [#0003] shell.net.kill_switch -> activated\n  [#0002] shell.travel -> enabled\n".to_string())
    );
    assert_eq!(
        execute_command("audit ls nonsense", &mut context, &theme).unwrap().lines().count(),
        4
    );
}

#[test]
fn empty_audit_log_is_reported() {
    let mut context = CommandContext::new();
    assert_eq!(
        execute_command("audit ls", &mut context, &Theme::Default),
        Ok("No audit events recorded.".to_string())
    );
}

#[test]
fn status_counts_running_shards_and_events() {
    let mut context = CommandContext::new();
    let theme = Theme::Default;
    execute_command("shard start work", &mut context, &theme).unwrap();
    let status = execute_command("status", &mut context, &theme).unwrap();
    assert_eq!(
        status,
        "\nSystem Status:\n  Shards: 1/4 running\n  Network: operational\n  Audit Chain: active (1 events)\n  Security Mode: normal\n  Theme: active\n"
    );
}

#[test]
fn use_switches_the_current_shard() {
    let mut context = CommandContext::new();
    let theme = Theme::Default;
    assert_eq!(
        execute_command("use anon", &mut context, &theme),
        Ok(theme.style_success("Switched to shard: 'anon'".to_string()))
    );
    assert_eq!(context.current_shard.as_deref(), Some("anon"));
    assert_eq!(
        execute_command("use nowhere", &mut context, &theme),
        Err("Shard 'nowhere' not found. Use 'shard ls' to list shards.".to_string())
    );
    assert_eq!(context.current_shard.as_deref(), Some("anon"));
}

#[test]
fn travel_needs_a_switch_word() {
    let mut context = CommandContext::new();
    let theme = Theme::Default;
    assert_eq!(execute_command("travel maybe", &mut context, &theme), Err("Usage: travel <on|off>".to_string()));
    assert_eq!(
        execute_command("travel disable", &mut context, &theme),
        Ok(theme.style_success("Travel mode: DISABLED".to_string()))
    );
    assert_eq!(context.audit_log[0].payload, "disabled");
}

#[test]
fn policy_and_airlock_commands_answer_without_state() {
    let mut context = CommandContext::new();
    let theme = Theme::Default;
    assert_eq!(
        execute_command("policy grant work camera", &mut context, &theme),
        Ok(theme.style_success("Granted 'camera' access to shard 'work' for 1h".to_string()))
    );
    assert_eq!(
        execute_command("airlock send work anon notes.txt", &mut context, &theme),
        Ok(theme.style_info("Initiating airlock transfer: work → anon (file: notes.txt)".to_string()))
    );
    assert_eq!(
        execute_command("airlock approve", &mut context, &theme),
        Err("Unknown airlock command: 'approve'. Use: send, status".to_string())
    );
    assert!(execute_command("policy ls", &mut context, &theme).unwrap().starts_with("Policy Rules:\n  [work]"));
    assert_eq!(
        execute_command("net profile burner", &mut context, &theme),
        Ok("Shard 'burner' network profile: default".to_string())
    );
    assert!(context.audit_log.is_empty());
}

#[test]
fn help_screen_lists_every_group_under_styled_headings() {
    let text = help_text(&Theme::Default);
    assert!(text.starts_with("\n\x1b[1mShard Management\x1b[0m:\n  shard ls              List all persona shards\n"));
    assert!(text.contains("\n\x1b[1mAudit & System\x1b[0m:\n"));
    assert!(text.ends_with("  exit                  Exit shell\n\n"));
    assert_eq!(text.matches(":\n").count(), 6);
    let army = help_text(&Theme::DarkArmy);
    assert!(army.contains("\x1b[1;33m[Emergency Modes]\x1b[0m:\n  panic "));
}
