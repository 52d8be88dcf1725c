use specteros::layers::{deep_merge, is_empty_table, merge_layers, ConfigTree};

fn entry<'a>(tree: &'a ConfigTree, key: &str) -> Option<&'a ConfigTree> {
    match tree {
        ConfigTree::Table(entries) => entries.iter().find(|(k, _)| k == key).map(|(_, v)| v),
        ConfigTree::Leaf(_) => None,
    }
}

fn leaf(tree: &ConfigTree) -> Option<&toml::Value> {
    match tree {
        ConfigTree::Leaf(value) => Some(value),
        ConfigTree::Table(_) => None,
    }
}

#[test]
fn layered_loader_applies_overrides() {
    let base = "\nschema_version = 1\n[core]\ndata_dir = \"/var/lib/specteros\"\n[security]\ndeny_by_default = true\n";
    let override_layer = "\n[core]\ndata_dir = \"/tmp/specteros\"\n";
    let layers = vec![
        ("base.toml".to_string(), base.to_string()),
        ("override.toml".to_string(), override_layer.to_string()),
    ];

    let loaded = merge_layers(&layers).expect("config should load");
    let data_dir = entry(&loaded, "core").and_then(|core| entry(core, "data_dir")).and_then(leaf);
    assert_eq!(data_dir.and_then(|v| v.as_str()), Some("/tmp/specteros"));
    let deny = entry(&loaded, "security").and_then(|s| entry(s, "deny_by_default")).and_then(leaf);
    assert_eq!(deny.and_then(|v| v.as_bool()), Some(true));
    assert_eq!(entry(&loaded, "schema_version").and_then(leaf).and_then(|v| v.as_integer()), Some(1));
}

#[test]
fn invalid_layers_name_their_path() {
    let layers = vec![
        ("good.toml".to_string(), "a = 1".to_string()),
        ("bad.toml".to_string(), "a = = 1".to_string()),
        ("later.toml".to_string(), "b = 2".to_string()),
    ];
    assert!(matches!(merge_layers(&layers), Err(message) if message == "invalid TOML in bad.toml"));
}

#[test]
fn no_layers_give_an_empty_table() {
    let merged = merge_layers(&Vec::new()).unwrap();
    assert!(is_empty_table(&merged));
    let blank = merge_layers(&vec![("blank.toml".to_string(), String::new())]).unwrap();
    assert!(is_empty_table(&blank));
}

#[test]
fn overlay_values_replace_tables_and_new_keys_are_added() {
    let mut base = ConfigTree::Table(vec![
        ("a".to_string(), ConfigTree::Table(vec![("x".to_string(), ConfigTree::Leaf(toml::Value::Integer(1)))])),
        ("b".to_string(), ConfigTree::Leaf(toml::Value::Boolean(false))),
    ]);
    let overlay = ConfigTree::Table(vec![
        ("a".to_string(), ConfigTree::Leaf(toml::Value::Integer(5))),
        ("c".to_string(), ConfigTree::Leaf(toml::Value::String("new".to_string()))),
    ]);
    deep_merge(&mut base, overlay);
    assert_eq!(entry(&base, "a").and_then(leaf), Some(&toml::Value::Integer(5)));
    assert_eq!(entry(&base, "b").and_then(leaf), Some(&toml::Value::Boolean(false)));
    assert_eq!(entry(&base, "c").and_then(leaf).and_then(|v| v.as_str()), Some("new"));
}
