use specteros::config::{bootstrap_report, default_layer_paths, layout_problem, toml_layers, RuntimePaths, SpecterosConfig};

#[test]
fn default_layer_paths_include_runtime_override() {
    let paths = default_layer_paths(Vec::new());
    assert!(paths.iter().any(|path| path == "/run/specteros/override.toml"));
    assert_eq!(paths.len(), 4);
}

#[test]
fn drop_in_layers_are_filtered_and_sorted() {
    let entries = vec![
        "/etc/specteros/config.d/20-net.toml".to_string(),
        "/etc/specteros/config.d/notes.txt".to_string(),
        "/etc/specteros/config.d/.toml".to_string(),
        "/etc/specteros/config.d/10-base.toml".to_string(),
    ];
    let paths = default_layer_paths(entries);
    assert_eq!(
        paths,
        vec![
            "/usr/lib/specteros/default.toml",
            "/usr/lib/specteros/edition.toml",
            "/etc/specteros/config.toml",
            "/etc/specteros/config.d/10-base.toml",
            "/etc/specteros/config.d/20-net.toml",
            "/run/specteros/override.toml",
        ]
    );
    assert_eq!(toml_layers(vec!["a.toml.bak".to_string(), "b.TOML".to_string()]), Vec::<String>::new());
}

#[test]
fn defaults_match_the_documented_values() {
    let config = SpecterosConfig::default();
    assert_eq!(config.schema_version, 1);
    assert_eq!(config.core.data_dir, "/var/lib/specteros");
    assert!(config.security.deny_by_default);
    assert_eq!(config.policy.token_ttl_seconds, 900);
    assert_eq!(config.update.channel, "stable");
    assert_eq!(config.edition.name, "shared");
    assert!(config.edition.debian.is_none());
}

#[test]
fn runtime_paths_live_below_a_root() {
    let paths = RuntimePaths::from_root("/tmp/root");
    assert_eq!(paths.config_dir, "/tmp/root/etc/specteros");
    assert_eq!(paths.data_dir, "/tmp/root/var/lib/specteros");
    assert_eq!(paths.log_dir, "/tmp/root/var/log/specteros");
    assert_eq!(RuntimePaths::from_root("/tmp/root/").log_dir, "/tmp/root/var/log/specteros");
    assert_eq!(RuntimePaths::system_defaults().config_dir, "/etc/specteros");
}

#[test]
fn runtime_layout_report_lists_created_and_checked_dirs() {
    let paths = RuntimePaths::from_root("/r");
    let report = bootstrap_report(&paths, (false, true, false));
    assert_eq!(report.created_paths, vec!["/r/var/lib/specteros".to_string()]);
    assert!(report.validated_paths.contains(&paths.config_dir));
    assert!(report.validated_paths.contains(&paths.data_dir));
    assert!(report.validated_paths.contains(&paths.log_dir));
    assert_eq!(layout_problem("/r/etc", false, false), Some("required runtime path is missing: /r/etc".to_string()));
    assert_eq!(layout_problem("/r/etc", true, false), Some("required runtime path is not a directory: /r/etc".to_string()));
    assert_eq!(layout_problem("/r/etc", true, true), None);
}
