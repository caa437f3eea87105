use launch_config::config_types::McpServerConfig;
use launch_config::config_types::RawMcpServerConfig;
use launch_config::config_types::ResolveError;
use launch_config::env_map::EnvMap;
use launch_config::mcp_presets::builtin_mcp_server_presets;
use launch_config::mcp_presets::find_mcp_server_preset;
use launch_config::mcp_presets::McpServerPreset;
use launch_config::timeout::Timeout;

fn env_of(pairs: &[(&str, &str)]) -> EnvMap {
    EnvMap::from_pairs(
        pairs
            .iter()
            .map(|(k, v)| (k.to_string(), v.to_string()))
            .collect(),
    )
}

fn sample_preset() -> McpServerPreset {
    McpServerPreset {
        id: "sample".to_string(),
        label: "Sample".to_string(),
        description: "A preset with an environment.".to_string(),
        command: "run-sample".to_string(),
        args: vec!["--serve".to_string()],
        env: vec![
            ("A".to_string(), "1".to_string()),
            ("B".to_string(), "2".to_string()),
        ],
        startup_timeout: Some(Timeout::from_secs(10)),
        tool_timeout: None,
    }
}

#[test]
fn preset_expands_defaults() {
    let mut raw = RawMcpServerConfig::new();
    raw.preset = Some("chrome_devtools".to_string());
    let cfg = McpServerConfig::resolve(raw).expect("valid preset config");

    assert_eq!(cfg.preset.as_deref(), Some("chrome_devtools"));
    assert_eq!(cfg.command, "npx");
    assert_eq!(
        cfg.args,
        vec![
            "chrome-devtools-mcp@latest".to_string(),
            "--stdio".to_string()
        ]
    );
    assert_eq!(cfg.startup_timeout_sec, Some(Timeout::from_secs(45)));
    assert_eq!(cfg.tool_timeout_sec, Some(Timeout::from_secs(120)));
}

#[test]
fn preset_respects_overrides() {
    let mut raw = RawMcpServerConfig::new();
    raw.preset = Some("chrome_devtools".to_string());
    raw.command = Some("/custom/bin".to_string());
    raw.args = vec!["--foo".to_string()];
    raw.env = Some(env_of(&[("CUSTOM", "1")]));
    raw.startup_timeout_sec = Some(Timeout::from_secs(5));
    raw.tool_timeout_sec = Some(Timeout::from_secs(7));
    let cfg = McpServerConfig::resolve(raw).expect("valid override config");

    assert_eq!(cfg.preset.as_deref(), Some("chrome_devtools"));
    assert_eq!(cfg.command, "/custom/bin");
    assert_eq!(cfg.args, vec!["--foo".to_string()]);
    let mut expected_env = EnvMap::new();
    expected_env.insert("CUSTOM".to_string(), "1".to_string());
    assert_eq!(cfg.env, Some(expected_env));
    assert_eq!(cfg.startup_timeout_sec, Some(Timeout::from_secs(5)));
    assert_eq!(cfg.tool_timeout_sec, Some(Timeout::from_secs(7)));
}

#[test]
fn every_builtin_preset_resolves_to_itself() {
    let presets = builtin_mcp_server_presets();
    assert_eq!(presets.len(), 1);
    for preset in presets.iter() {
        let mut raw = RawMcpServerConfig::new();
        raw.preset = Some(preset.id.clone());
        let cfg = McpServerConfig::resolve(raw).expect("preset resolves");
        assert_eq!(cfg, preset.to_config());
        assert_eq!(cfg.command, preset.command);
        assert_eq!(cfg.args, preset.args);
        assert_eq!(cfg.env, None);
        assert_eq!(cfg.startup_timeout_sec, preset.startup_timeout);
        assert_eq!(cfg.tool_timeout_sec, preset.tool_timeout);
    }
}

#[test]
fn builtin_presets_list_chrome_devtools() {
    let presets = builtin_mcp_server_presets();
    assert_eq!(presets[0].id, "chrome_devtools");
    assert_eq!(presets[0].label, "Chrome DevTools");
    assert_eq!(
        presets[0].description,
        "Launch the Chrome DevTools MCP server via npx for debugging frontends."
    );
    assert_eq!(presets[0].command, "npx");
    assert!(presets[0].env.is_empty());
}

#[test]
fn find_preset_is_exact_and_case_sensitive() {
    let found = find_mcp_server_preset("chrome_devtools").expect("known preset");
    assert_eq!(found.id, "chrome_devtools");
    assert_eq!(found.command, "npx");
    assert!(find_mcp_server_preset("Chrome_DevTools").is_none());
    assert!(find_mcp_server_preset("chrome_devtools ").is_none());
    assert!(find_mcp_server_preset("").is_none());
    assert!(find_mcp_server_preset("bogus").is_none());
}

#[test]
fn preset_to_config_builds_environment_map() {
    let cfg = sample_preset().to_config();
    assert_eq!(cfg.preset.as_deref(), Some("sample"));
    assert_eq!(cfg.command, "run-sample");
    assert_eq!(cfg.args, vec!["--serve".to_string()]);
    assert_eq!(cfg.env, Some(env_of(&[("B", "2"), ("A", "1")])));
    assert_eq!(cfg.startup_timeout_sec, Some(Timeout::from_secs(10)));
    assert_eq!(cfg.tool_timeout_sec, None);
}

#[test]
fn preset_to_config_later_pair_wins() {
    let mut preset = sample_preset();
    preset.env.push(("A".to_string(), "7".to_string()));
    let cfg = preset.to_config();
    assert_eq!(cfg.env, Some(env_of(&[("A", "7"), ("B", "2")])));
}

#[test]
fn explicit_command_without_preset_is_kept() {
    let mut raw = RawMcpServerConfig::new();
    raw.command = Some("python".to_string());
    raw.args = vec!["server.py".to_string()];
    let cfg = McpServerConfig::resolve(raw).expect("explicit command resolves");
    assert_eq!(cfg.preset, None);
    assert_eq!(cfg.command, "python");
    assert_eq!(cfg.args, vec!["server.py".to_string()]);
    assert_eq!(cfg.env, None);
    assert_eq!(cfg.startup_timeout_sec, None);
    assert_eq!(cfg.tool_timeout_sec, None);
}

#[test]
fn env_override_merges_key_by_key() {
    let mut raw = RawMcpServerConfig::new();
    raw.preset = Some("sample".to_string());
    raw.env = Some(env_of(&[("B", "9"), ("C", "3")]));
    let cfg = McpServerConfig::merge_with_preset(raw, Some(sample_preset().to_config()))
        .expect("merge succeeds");
    assert_eq!(cfg.env, Some(env_of(&[("A", "1"), ("B", "9"), ("C", "3")])));
    assert_eq!(cfg.command, "run-sample");
    assert_eq!(cfg.args, vec!["--serve".to_string()]);
    assert_eq!(cfg.preset.as_deref(), Some("sample"));
    assert_eq!(cfg.startup_timeout_sec, Some(Timeout::from_secs(10)));
}

#[test]
fn env_override_replaces_empty_preset_environment() {
    let mut raw = RawMcpServerConfig::new();
    raw.preset = Some("chrome_devtools".to_string());
    raw.env = Some(env_of(&[("X", "y")]));
    let cfg = McpServerConfig::resolve(raw).expect("resolves");
    assert_eq!(cfg.env, Some(env_of(&[("X", "y")])));
}

#[test]
fn empty_environment_is_omitted() {
    let mut raw = RawMcpServerConfig::new();
    raw.command = Some("echo".to_string());
    raw.env = Some(EnvMap::new());
    let cfg = McpServerConfig::resolve(raw).expect("resolves");
    assert_eq!(cfg.env, None);
}

#[test]
fn missing_command_without_preset_fails() {
    let raw = RawMcpServerConfig::new();
    assert_eq!(
        McpServerConfig::resolve(raw),
        Err(ResolveError::MissingCommand)
    );
    let mut raw = RawMcpServerConfig::new();
    raw.args = vec!["--flag".to_string()];
    raw.env = Some(env_of(&[("A", "1")]));
    assert_eq!(
        McpServerConfig::merge_with_preset(raw, None),
        Err(ResolveError::MissingCommand)
    );
}

#[test]
fn unknown_preset_fails_with_its_identifier() {
    let mut raw = RawMcpServerConfig::new();
    raw.preset = Some("bogus".to_string());
    assert_eq!(
        McpServerConfig::resolve(raw),
        Err(ResolveError::UnknownPreset("bogus".to_string()))
    );
    let mut raw = RawMcpServerConfig::new();
    raw.preset = Some("bogus".to_string());
    raw.command = Some("echo".to_string());
    assert_eq!(
        McpServerConfig::resolve(raw),
        Err(ResolveError::UnknownPreset("bogus".to_string()))
    );
}

#[test]
fn empty_args_fall_back_to_preset_args() {
    let mut raw = RawMcpServerConfig::new();
    raw.preset = Some("chrome_devtools".to_string());
    raw.command = Some("/custom/bin".to_string());
    let cfg = McpServerConfig::resolve(raw).expect("resolves");
    assert_eq!(cfg.command, "/custom/bin");
    assert_eq!(
        cfg.args,
        vec![
            "chrome-devtools-mcp@latest".to_string(),
            "--stdio".to_string()
        ]
    );
}

#[test]
fn startup_timeout_seconds_win_over_milliseconds() {
    let mut raw = RawMcpServerConfig::new();
    raw.command = Some("echo".to_string());
    raw.startup_timeout_sec = Some(Timeout::from_secs(3));
    raw.startup_timeout_ms = Some(2500);
    let cfg = McpServerConfig::resolve(raw).expect("resolves");
    assert_eq!(cfg.startup_timeout_sec, Some(Timeout::from_secs(3)));
}

#[test]
fn startup_timeout_milliseconds_are_converted() {
    let mut raw = RawMcpServerConfig::new();
    raw.preset = Some("chrome_devtools".to_string());
    raw.startup_timeout_ms = Some(2500);
    let cfg = McpServerConfig::resolve(raw).expect("resolves");
    assert_eq!(
        cfg.startup_timeout_sec,
        Some(Timeout {
            secs: 2,
            nanos: 500_000_000
        })
    );
    assert_eq!(cfg.tool_timeout_sec, Some(Timeout::from_secs(120)));
}

#[test]
fn resolving_a_resolved_spec_again_changes_nothing() {
    let mut raw = RawMcpServerConfig::new();
    raw.command = Some("python".to_string());
    raw.args = vec!["server.py".to_string()];
    raw.env = Some(env_of(&[("FOO", "bar"), ("ALPHA", "beta")]));
    raw.startup_timeout_ms = Some(1500);
    raw.tool_timeout_sec = Some(Timeout::from_secs(9));
    let first = McpServerConfig::resolve(raw).expect("resolves");
    let second = McpServerConfig::resolve(first.to_raw()).expect("resolves again");
    assert_eq!(second, first);

    let mut raw = RawMcpServerConfig::new();
    raw.preset = Some("chrome_devtools".to_string());
    let first = McpServerConfig::resolve(raw).expect("resolves");
    let second = McpServerConfig::resolve(first.to_raw()).expect("resolves again");
    assert_eq!(second.preset, None);
    assert_eq!(second.command, first.command);
    assert_eq!(second.args, first.args);
    assert_eq!(second.env, first.env);
    assert_eq!(second.startup_timeout_sec, first.startup_timeout_sec);
    assert_eq!(second.tool_timeout_sec, first.tool_timeout_sec);
}

#[test]
fn timeout_constructors_give_exact_parts() {
    assert_eq!(Timeout::from_secs(45), Timeout { secs: 45, nanos: 0 });
    assert_eq!(
        Timeout::from_millis(1),
        Timeout {
            secs: 0,
            nanos: 1_000_000
        }
    );
    assert_eq!(
        Timeout::from_millis(u64::MAX),
        Timeout {
            secs: 18_446_744_073_709_551,
            nanos: 615_000_000
        }
    );
    assert_eq!(Timeout::from_millis(0), Timeout::from_secs(0));
    assert_eq!(Timeout::new(1, 999_999_999).map(|t| t.subsec_nanos()), Some(999_999_999));
    assert_eq!(Timeout::new(1, 1_000_000_000), None);
    assert_eq!(Timeout::from_millis(61_001).as_secs(), 61);
}

#[test]
fn env_map_behaves_as_a_map() {
    let mut m = EnvMap::new();
    assert!(m.is_empty());
    assert_eq!(m.len(), 0);
    m.insert("A".to_string(), "1".to_string());
    m.insert("B".to_string(), "2".to_string());
    m.insert("A".to_string(), "3".to_string());
    assert_eq!(m.len(), 2);
    assert!(!m.is_empty());
    assert_eq!(m.get("A"), Some(&"3".to_string()));
    assert_eq!(m.get("B"), Some(&"2".to_string()));
    assert_eq!(m.get("a"), None);
    assert!(m.contains_key("B"));
    assert!(!m.contains_key("C"));
    assert_eq!(m, env_of(&[("B", "2"), ("A", "3")]));
    assert_ne!(m, env_of(&[("B", "2"), ("A", "1")]));
    assert_ne!(m, env_of(&[("B", "2")]));
    assert_ne!(env_of(&[("B", "2")]), m);
    assert_eq!(m.clone(), m);
    let mut pairs = m.to_pairs();
    pairs.sort();
    assert_eq!(
        pairs,
        vec![
            ("A".to_string(), "3".to_string()),
            ("B".to_string(), "2".to_string())
        ]
    );
    let mut base = env_of(&[("A", "1"), ("B", "2")]);
    base.extend_from(&env_of(&[("B", "9"), ("C", "3")]));
    assert_eq!(base, env_of(&[("A", "1"), ("B", "9"), ("C", "3")]));
}
