use launch_config::config_types::History;
use launch_config::config_types::HistoryPersistence;
use launch_config::config_types::Notifications;
use launch_config::config_types::ReasoningSummaryFormat;
use launch_config::config_types::SandboxSettings;
use launch_config::config_types::SandboxWorkspaceWrite;
use launch_config::config_types::Tui;
use launch_config::config_types::UriBasedFileOpener;
use launch_config::env_map::EnvMap;
use launch_config::exec_env::core_variable_names;
use launch_config::exec_env::matches_any_pattern;
use launch_config::exec_env::only_matching;
use launch_config::exec_env::populate_env;
use launch_config::exec_env::seed_env;
use launch_config::exec_env::without_matching;
use launch_config::exec_env::EnvironmentVariablePattern;
use launch_config::exec_env::ShellEnvironmentPolicy;
use launch_config::exec_env::ShellEnvironmentPolicyInherit;
use launch_config::exec_env::ShellEnvironmentPolicyToml;
use std::path::PathBuf;

fn map_of(pairs: &[(&str, &str)]) -> EnvMap {
    EnvMap::from_pairs(
        pairs
            .iter()
            .map(|(k, v)| (k.to_string(), v.to_string()))
            .collect(),
    )
}

fn patterns(texts: &[&str]) -> Vec<EnvironmentVariablePattern> {
    texts
        .iter()
        .map(|t| EnvironmentVariablePattern::new_case_insensitive(t))
        .collect()
}

fn ambient() -> EnvMap {
    map_of(&[("PATH", "/bin"), ("API_KEY", "secret"), ("HOME", "/u")])
}

#[test]
fn default_policy_drops_credential_shaped_names() {
    let policy = ShellEnvironmentPolicy::default();
    assert_eq!(policy.inherit, ShellEnvironmentPolicyInherit::All);
    assert!(!policy.ignore_default_excludes);
    let env = populate_env(&ambient(), &policy);
    assert_eq!(env, map_of(&[("PATH", "/bin"), ("HOME", "/u")]));
}

#[test]
fn explicit_set_survives_exclude() {
    let mut toml = ShellEnvironmentPolicyToml::default();
    toml.exclude = Some(vec!["HOME".to_string()]);
    toml.set = Some(map_of(&[("HOME", "/override")]));
    let policy = ShellEnvironmentPolicy::from_toml(toml);
    let env = populate_env(&ambient(), &policy);
    assert_eq!(env.get("HOME"), Some(&"/override".to_string()));
    assert_eq!(env, map_of(&[("PATH", "/bin"), ("HOME", "/override")]));
}

#[test]
fn include_only_keeps_matches_and_sets() {
    let mut toml = ShellEnvironmentPolicyToml::default();
    toml.include_only = Some(vec!["PATH".to_string()]);
    toml.set = Some(map_of(&[("EXTRA", "1")]));
    let policy = ShellEnvironmentPolicy::from(toml);
    let env = populate_env(&map_of(&[("PATH", "/bin"), ("HOME", "/u")]), &policy);
    assert_eq!(env, map_of(&[("PATH", "/bin"), ("EXTRA", "1")]));
}

#[test]
fn set_overwrites_inherited_value() {
    let mut toml = ShellEnvironmentPolicyToml::default();
    toml.set = Some(map_of(&[("PATH", "/opt/bin"), ("MY_TOKEN", "t")]));
    let policy = ShellEnvironmentPolicy::from_toml(toml);
    let env = populate_env(&ambient(), &policy);
    assert_eq!(
        env,
        map_of(&[("PATH", "/opt/bin"), ("HOME", "/u"), ("MY_TOKEN", "t")])
    );
}

#[test]
fn ignore_default_excludes_keeps_credentials() {
    let mut toml = ShellEnvironmentPolicyToml::default();
    toml.ignore_default_excludes = Some(true);
    let policy = ShellEnvironmentPolicy::from_toml(toml);
    let env = populate_env(&ambient(), &policy);
    assert_eq!(env, ambient());
}

#[test]
fn default_excludes_ignore_case() {
    let policy = ShellEnvironmentPolicy::default();
    let env = populate_env(
        &map_of(&[("api_key", "a"), ("GitHub_Token", "b"), ("KEYBOARD", "c"), ("TOK", "d")]),
        &policy,
    );
    assert_eq!(env, map_of(&[("TOK", "d")]));
}

#[test]
fn inherit_none_starts_empty() {
    let mut toml = ShellEnvironmentPolicyToml::default();
    toml.inherit = Some(ShellEnvironmentPolicyInherit::Nothing);
    toml.set = Some(map_of(&[("ONLY", "1")]));
    let policy = ShellEnvironmentPolicy::from_toml(toml);
    assert_eq!(populate_env(&ambient(), &policy), map_of(&[("ONLY", "1")]));

    let mut toml = ShellEnvironmentPolicyToml::default();
    toml.inherit = Some(ShellEnvironmentPolicyInherit::Nothing);
    let policy = ShellEnvironmentPolicy::from_toml(toml);
    assert!(populate_env(&ambient(), &policy).is_empty());
}

#[test]
fn inherit_core_keeps_core_names_only() {
    let mut toml = ShellEnvironmentPolicyToml::default();
    toml.inherit = Some(ShellEnvironmentPolicyInherit::Core);
    let policy = ShellEnvironmentPolicy::from_toml(toml);
    let env = populate_env(
        &map_of(&[
            ("PATH", "/bin"),
            ("HOME", "/u"),
            ("EDITOR", "vi"),
            ("path", "lower"),
            ("TMPDIR", "/tmp"),
        ]),
        &policy,
    );
    assert_eq!(
        env,
        map_of(&[("PATH", "/bin"), ("HOME", "/u"), ("TMPDIR", "/tmp")])
    );
    assert_eq!(
        core_variable_names(),
        vec!["HOME", "LOGNAME", "PATH", "SHELL", "USER", "USERNAME", "TMPDIR", "TEMP", "TMP"]
    );
}

#[test]
fn exclude_patterns_use_wildcards() {
    let mut toml = ShellEnvironmentPolicyToml::default();
    toml.exclude = Some(vec!["AWS_*".to_string(), "L?NG".to_string()]);
    let policy = ShellEnvironmentPolicy::from_toml(toml);
    let env = populate_env(
        &map_of(&[
            ("AWS_REGION", "eu"),
            ("aws_profile", "dev"),
            ("LANG", "C"),
            ("LONG", "x"),
            ("LANGUAGE", "en"),
            ("PATH", "/bin"),
        ]),
        &policy,
    );
    assert_eq!(env, map_of(&[("LANGUAGE", "en"), ("PATH", "/bin")]));
}

#[test]
fn pattern_matches_whole_name_without_case() {
    let p = EnvironmentVariablePattern::new_case_insensitive("*KEY*");
    assert_eq!(p.text(), "*KEY*");
    assert!(p.matches("API_KEY"));
    assert!(p.matches("key"));
    assert!(p.matches("monkeys"));
    assert!(!p.matches("PATH"));
    let q = EnvironmentVariablePattern::new_case_insensitive("PATH");
    assert!(q.matches("PATH"));
    assert!(q.matches("Path"));
    assert!(!q.matches("PATHS"));
    assert!(!q.matches(""));
    let single = EnvironmentVariablePattern::new_case_insensitive("T?P");
    assert!(single.matches("TMP"));
    assert!(!single.matches("TP"));
    let empty = EnvironmentVariablePattern::new_case_insensitive("");
    assert!(empty.matches(""));
    assert!(!empty.matches("A"));
    assert!(matches_any_pattern("HOME", &patterns(&["PATH", "H*"])));
    assert!(!matches_any_pattern("HOME", &patterns(&["PATH", "X*"])));
    assert!(!matches_any_pattern("HOME", &patterns(&[])));
}

#[test]
fn pipeline_stages_filter_as_stated() {
    let amb = ambient();
    assert_eq!(seed_env(&amb, ShellEnvironmentPolicyInherit::All), amb);
    assert_eq!(
        seed_env(&amb, ShellEnvironmentPolicyInherit::Core),
        map_of(&[("PATH", "/bin"), ("HOME", "/u")])
    );
    assert!(seed_env(&amb, ShellEnvironmentPolicyInherit::Nothing).is_empty());
    assert_eq!(
        without_matching(&amb, &patterns(&["*A*"])),
        map_of(&[("HOME", "/u")])
    );
    assert_eq!(without_matching(&amb, &patterns(&[])), amb);
    assert_eq!(
        only_matching(&amb, &patterns(&["P*"]), &map_of(&[("HOME", "x")])),
        map_of(&[("PATH", "/bin"), ("HOME", "/u")])
    );
}

#[test]
fn policy_from_written_policy_fills_defaults() {
    let policy = ShellEnvironmentPolicy::from_toml(ShellEnvironmentPolicyToml::default());
    assert_eq!(policy.inherit, ShellEnvironmentPolicyInherit::All);
    assert!(!policy.ignore_default_excludes);
    assert!(policy.exclude.is_empty());
    assert!(policy.set.is_empty());
    assert!(policy.include_only.is_empty());
    assert!(!policy.use_profile);
    assert_eq!(policy, ShellEnvironmentPolicy::default());

    let mut toml = ShellEnvironmentPolicyToml::default();
    toml.inherit = Some(ShellEnvironmentPolicyInherit::Core);
    toml.ignore_default_excludes = Some(true);
    toml.exclude = Some(vec!["A*".to_string(), "B".to_string()]);
    toml.include_only = Some(vec!["C?".to_string()]);
    toml.set = Some(map_of(&[("K", "v")]));
    toml.experimental_use_profile = Some(true);
    let policy = ShellEnvironmentPolicy::from_toml(toml);
    assert_eq!(policy.inherit, ShellEnvironmentPolicyInherit::Core);
    assert!(policy.ignore_default_excludes);
    assert_eq!(policy.exclude, patterns(&["A*", "B"]));
    assert_eq!(policy.include_only, patterns(&["C?"]));
    assert_eq!(policy.set, map_of(&[("K", "v")]));
    assert!(policy.use_profile);
    assert_eq!(
        ShellEnvironmentPolicyInherit::default(),
        ShellEnvironmentPolicyInherit::All
    );
}

#[test]
fn file_opener_schemes() {
    assert_eq!(UriBasedFileOpener::VsCode.get_scheme(), Some("vscode"));
    assert_eq!(
        UriBasedFileOpener::VsCodeInsiders.get_scheme(),
        Some("vscode-insiders")
    );
    assert_eq!(UriBasedFileOpener::Windsurf.get_scheme(), Some("windsurf"));
    assert_eq!(UriBasedFileOpener::Cursor.get_scheme(), Some("cursor"));
    assert_eq!(UriBasedFileOpener::Disabled.get_scheme(), None);
}

#[test]
fn settings_defaults() {
    assert_eq!(Notifications::default(), Notifications::Enabled(false));
    assert_eq!(Tui::default().notifications, Notifications::Enabled(false));
    assert_eq!(HistoryPersistence::default(), HistoryPersistence::SaveAll);
    assert_eq!(
        History::default(),
        History {
            persistence: HistoryPersistence::SaveAll,
            max_bytes: None
        }
    );
    assert_eq!(ReasoningSummaryFormat::default(), ReasoningSummaryFormat::Off);
    let sandbox = SandboxWorkspaceWrite::default();
    assert!(sandbox.writable_roots.is_empty());
    assert!(!sandbox.network_access);
    assert!(!sandbox.exclude_tmpdir_env_var);
    assert!(!sandbox.exclude_slash_tmp);
}

#[test]
fn sandbox_settings_carry_every_switch() {
    let write = SandboxWorkspaceWrite {
        writable_roots: vec![PathBuf::from("/work"), PathBuf::from("/cache")],
        network_access: true,
        exclude_tmpdir_env_var: false,
        exclude_slash_tmp: true,
    };
    let settings = SandboxSettings::from(write);
    assert_eq!(
        settings,
        SandboxSettings {
            writable_roots: vec![PathBuf::from("/work"), PathBuf::from("/cache")],
            network_access: Some(true),
            exclude_tmpdir_env_var: Some(false),
            exclude_slash_tmp: Some(true),
        }
    );
}
