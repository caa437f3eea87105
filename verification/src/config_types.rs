//! Launch specifications, raw launch declarations and how the second
//! resolves to the first; beside them the plain settings types.

use crate::env_map::fold_entries;
use crate::env_map::EnvMap;
pub use crate::exec_env::EnvironmentVariablePattern;
pub use crate::exec_env::ShellEnvironmentPolicy;
pub use crate::exec_env::ShellEnvironmentPolicyInherit;
pub use crate::exec_env::ShellEnvironmentPolicyToml;
use crate::mcp_presets::builtin_presets;
use crate::mcp_presets::copy_strings;
use crate::mcp_presets::find_mcp_server_preset;
use crate::mcp_presets::find_preset;
use crate::mcp_presets::lemma_builtin_ids_unique;
use crate::mcp_presets::preset_config;
use crate::mcp_presets::McpServerPresetView;
use crate::timeout::Timeout;
use vstd::prelude::*;
use vstd::std_specs::convert::FromSpecImpl;

verus! {

/// The contents of a list of strings.
pub open spec fn strs_view(s: Seq<String>) -> Seq<Seq<char>> {
    Seq::new(s.len(), |i: int| s[i]@)
}

/// The contents of an optional string.
pub open spec fn opt_str_view(s: Option<String>) -> Option<Seq<char>> {
    match s {
        Some(s) => Some(s@),
        None => None,
    }
}

/// The contents of an optional map.
pub open spec fn opt_env_view(e: Option<EnvMap>) -> Option<Map<Seq<char>, Seq<char>>> {
    match e {
        Some(e) => Some(e@),
        None => None,
    }
}

/// A resolved launch specification: everything needed to start a server.
#[derive(Debug, Clone, PartialEq)]
pub struct McpServerConfig {
    /// The preset that the declaration named, kept as provenance only.
    pub preset: Option<String>,
    pub command: String,
    pub args: Vec<String>,
    /// Absent where no variable is set.
    pub env: Option<EnvMap>,
    /// Startup timeout for initializing the server and first listing tools.
    pub startup_timeout_sec: Option<Timeout>,
    /// Default timeout for tool calls made through this server.
    pub tool_timeout_sec: Option<Timeout>,
}

/// What a launch specification holds, as mathematical values.
pub ghost struct McpServerConfigView {
    pub preset: Option<Seq<char>>,
    pub command: Seq<char>,
    pub args: Seq<Seq<char>>,
    pub env: Option<Map<Seq<char>, Seq<char>>>,
    pub startup_timeout_sec: Option<Timeout>,
    pub tool_timeout_sec: Option<Timeout>,
}

impl View for McpServerConfig {
    type V = McpServerConfigView;

    open spec fn view(&self) -> McpServerConfigView {
        McpServerConfigView {
            preset: opt_str_view(self.preset),
            command: self.command@,
            args: strs_view(self.args@),
            env: opt_env_view(self.env),
            startup_timeout_sec: self.startup_timeout_sec,
            tool_timeout_sec: self.tool_timeout_sec,
        }
    }
}

/// A launch declaration as a user wrote it: every field may be left out.
/// An empty argument list counts as left out.
#[derive(Debug, Clone, PartialEq)]
pub struct RawMcpServerConfig {
    pub preset: Option<String>,
    pub command: Option<String>,
    pub args: Vec<String>,
    pub env: Option<EnvMap>,
    /// Startup timeout given in seconds.
    pub startup_timeout_sec: Option<Timeout>,
    /// Startup timeout given in milliseconds; consulted only where the one in
    /// seconds is absent.
    pub startup_timeout_ms: Option<u64>,
    pub tool_timeout_sec: Option<Timeout>,
}

/// What a launch declaration holds, as mathematical values.
pub ghost struct RawMcpServerConfigView {
    pub preset: Option<Seq<char>>,
    pub command: Option<Seq<char>>,
    pub args: Seq<Seq<char>>,
    pub env: Option<Map<Seq<char>, Seq<char>>>,
    pub startup_timeout_sec: Option<Timeout>,
    pub startup_timeout_ms: Option<u64>,
    pub tool_timeout_sec: Option<Timeout>,
}

impl View for RawMcpServerConfig {
    type V = RawMcpServerConfigView;

    open spec fn view(&self) -> RawMcpServerConfigView {
        RawMcpServerConfigView {
            preset: opt_str_view(self.preset),
            command: opt_str_view(self.command),
            args: strs_view(self.args@),
            env: opt_env_view(self.env),
            startup_timeout_sec: self.startup_timeout_sec,
            startup_timeout_ms: self.startup_timeout_ms,
            tool_timeout_sec: self.tool_timeout_sec,
        }
    }
}

/// Why a launch declaration does not resolve.
#[derive(Debug, Clone, PartialEq, Eq)]
pub enum ResolveError {
    /// The declaration names a preset that the catalogue does not hold.
    UnknownPreset(String),
    /// Neither the declaration nor a preset supplies a command.
    MissingCommand,
}

/// A resolution failure, as a mathematical value.
pub ghost enum ResolveErrorView {
    UnknownPreset(Seq<char>),
    MissingCommand,
}

impl View for ResolveError {
    type V = ResolveErrorView;

    open spec fn view(&self) -> ResolveErrorView {
        match self {
            ResolveError::UnknownPreset(id) => ResolveErrorView::UnknownPreset(id@),
            ResolveError::MissingCommand => ResolveErrorView::MissingCommand,
        }
    }
}

/// The view of the outcome of a resolution.
pub open spec fn outcome_view(r: Result<McpServerConfig, ResolveError>) -> Result<
    McpServerConfigView,
    ResolveErrorView,
> {
    match r {
        Ok(c) => Ok(c@),
        Err(e) => Err(e@),
    }
}

/// The view of an optional launch specification.
pub open spec fn opt_config_view(c: Option<McpServerConfig>) -> Option<McpServerConfigView> {
    match c {
        Some(c) => Some(c@),
        None => None,
    }
}

/// `explicit` where it is present, else `fallback`.
pub open spec fn or_else<T>(explicit: Option<T>, fallback: Option<T>) -> Option<T> {
    match explicit {
        Some(_) => explicit,
        None => fallback,
    }
}

/// The startup timeout that a declaration states: the one in seconds, else
/// the one in milliseconds, else none.
pub open spec fn startup_override(raw: RawMcpServerConfigView) -> Option<Timeout> {
    match raw.startup_timeout_ms {
        Some(ms) => or_else(raw.startup_timeout_sec, Some(Timeout::spec_from_millis(ms))),
        None => raw.startup_timeout_sec,
    }
}

/// The environment of a preset's specification, empty where there is none.
pub open spec fn base_env(preset: Option<McpServerConfigView>) -> Map<Seq<char>, Seq<char>> {
    match preset {
        Some(p) => match p.env {
            Some(e) => e,
            None => Map::empty(),
        },
        None => Map::empty(),
    }
}

/// The preset's environment with the declared one laid over it: a declared
/// variable replaces the preset's of the same name, every other variable of
/// either side stays.
pub open spec fn merged_env(
    preset: Option<McpServerConfigView>,
    declared: Option<Map<Seq<char>, Seq<char>>>,
) -> Map<Seq<char>, Seq<char>> {
    match declared {
        Some(d) => base_env(preset).union_prefer_right(d),
        None => base_env(preset),
    }
}

/// A map as an optional field: absent where it is empty.
pub open spec fn non_empty(m: Map<Seq<char>, Seq<char>>) -> Option<Map<Seq<char>, Seq<char>>> {
    if m == Map::<Seq<char>, Seq<char>>::empty() {
        None
    } else {
        Some(m)
    }
}

/// A declaration resolved against the specification of the preset it names
/// (`None` where it names none). Each field is decided on its own: what the
/// declaration states wins, what it leaves out comes from the preset.
pub open spec fn resolve_with(
    raw: RawMcpServerConfigView,
    preset: Option<McpServerConfigView>,
) -> Result<McpServerConfigView, ResolveErrorView> {
    if raw.command is None && preset is None {
        Err(ResolveErrorView::MissingCommand)
    } else {
        Ok(
            McpServerConfigView {
                preset: raw.preset,
                command: match raw.command {
                    Some(c) => c,
                    None => preset->Some_0.command,
                },
                args: if raw.args.len() > 0 {
                    raw.args
                } else {
                    match preset {
                        Some(p) => p.args,
                        None => Seq::empty(),
                    }
                },
                env: non_empty(merged_env(preset, raw.env)),
                startup_timeout_sec: or_else(
                    startup_override(raw),
                    match preset {
                        Some(p) => p.startup_timeout_sec,
                        None => None,
                    },
                ),
                tool_timeout_sec: or_else(
                    raw.tool_timeout_sec,
                    match preset {
                        Some(p) => p.tool_timeout_sec,
                        None => None,
                    },
                ),
            },
        )
    }
}

/// A declaration resolved against the built-in catalogue.
pub open spec fn resolve_spec(raw: RawMcpServerConfigView) -> Result<
    McpServerConfigView,
    ResolveErrorView,
> {
    match raw.preset {
        Some(id) => match find_preset(id) {
            Some(p) => resolve_with(raw, Some(preset_config(p))),
            None => Err(ResolveErrorView::UnknownPreset(id)),
        },
        None => resolve_with(raw, None),
    }
}

impl RawMcpServerConfig {
    /// The declaration that states nothing.
    pub fn new() -> (r: RawMcpServerConfig)
        ensures
            r@ == (RawMcpServerConfigView {
                preset: None,
                command: None,
                args: Seq::empty(),
                env: None,
                startup_timeout_sec: None,
                startup_timeout_ms: None,
                tool_timeout_sec: None,
            }),
    {
        let r = RawMcpServerConfig {
            preset: None,
            command: None,
            args: Vec::new(),
            env: None,
            startup_timeout_sec: None,
            startup_timeout_ms: None,
            tool_timeout_sec: None,
        };
        assert(r@.args =~= Seq::empty());
        r
    }
}

impl McpServerConfig {
    /// A specification is settled when its environment is absent rather than
    /// empty. Every resolved specification is.
    pub open spec fn settled(v: McpServerConfigView) -> bool {
        v.env != Some(Map::<Seq<char>, Seq<char>>::empty())
    }

    /// Resolves a declaration against the specification of the preset it
    /// names, handed in by the caller. Fails with `MissingCommand` exactly
    /// when neither states a command.
    pub fn merge_with_preset(raw: RawMcpServerConfig, preset_config: Option<McpServerConfig>) -> (r:
        Result<McpServerConfig, ResolveError>)
        ensures
            outcome_view(r) == resolve_with(raw@, opt_config_view(preset_config)),
            r matches Ok(c) ==> McpServerConfig::settled(c@),
    {
        let ghost rawv = raw@;
        let ghost pv = opt_config_view(preset_config);
        let RawMcpServerConfig {
            preset,
            command,
            args,
            env,
            startup_timeout_sec,
            startup_timeout_ms,
            tool_timeout_sec,
        } = raw;

        let startup_timeout_override = match startup_timeout_sec {
            Some(d) => Some(d),
            None => match startup_timeout_ms {
                Some(ms) => Some(Timeout::from_millis(ms)),
                None => None,
            },
        };

        let (preset_command, preset_args, preset_env, preset_startup, preset_tool) =
            match preset_config {
            Some(cfg) => (
                Some(cfg.command),
                cfg.args,
                cfg.env,
                cfg.startup_timeout_sec,
                cfg.tool_timeout_sec,
            ),
            None => (None, Vec::new(), None, None, None),
        };

        let command_value = match command {
            Some(cmd) => cmd,
            None => match preset_command {
                Some(cmd) => cmd,
                None => {
                    return Err(ResolveError::MissingCommand);
                },
            },
        };

        let args_value = if args.len() > 0 {
            args
        } else {
            preset_args
        };

        let mut env_value = match preset_env {
            Some(e) => e,
            None => EnvMap::new(),
        };
        if let Some(env_override) = env {
            if env_value.is_empty() {
                assert(env_override@ =~= env_value@.union_prefer_right(env_override@));
                env_value = env_override;
            } else {
                env_value.extend_from(&env_override);
            }
        }
        assert(env_value@ == merged_env(pv, rawv.env));

        let startup_timeout_value = match startup_timeout_override {
            Some(d) => Some(d),
            None => preset_startup,
        };
        let tool_timeout_value = match tool_timeout_sec {
            Some(d) => Some(d),
            None => preset_tool,
        };
        let env_field = if env_value.is_empty() {
            None
        } else {
            Some(env_value)
        };
        let out = McpServerConfig {
            preset,
            command: command_value,
            args: args_value,
            env: env_field,
            startup_timeout_sec: startup_timeout_value,
            tool_timeout_sec: tool_timeout_value,
        };
        assert(out@.args =~= resolve_with(rawv, pv)->Ok_0.args);
        Ok(out)
    }

    /// Resolves a declaration against the built-in catalogue. Fails with
    /// `UnknownPreset`, carrying the identifier, exactly when the declaration
    /// names a preset that the catalogue lacks; otherwise with
    /// `MissingCommand` exactly when it names no preset and states no command.
    pub fn resolve(raw: RawMcpServerConfig) -> (r: Result<McpServerConfig, ResolveError>)
        ensures
            outcome_view(r) == resolve_spec(raw@),
            r matches Ok(c) ==> McpServerConfig::settled(c@),
    {
        let preset_config = match &raw.preset {
            Some(preset_id) => {
                match find_mcp_server_preset(preset_id.as_str()) {
                    Some(preset) => Some(preset.to_config()),
                    None => {
                        return Err(ResolveError::UnknownPreset(preset_id.clone()));
                    },
                }
            },
            None => None,
        };
        McpServerConfig::merge_with_preset(raw, preset_config)
    }

    /// This specification written as a declaration that names no preset and
    /// states every field.
    pub fn to_raw(&self) -> (r: RawMcpServerConfig)
        ensures
            r@ == McpServerConfig::as_raw(self@),
    {
        RawMcpServerConfig {
            preset: None,
            command: Some(self.command.clone()),
            args: copy_strings(&self.args),
            env: match &self.env {
                Some(e) => Some(e.clone()),
                None => None,
            },
            startup_timeout_sec: self.startup_timeout_sec,
            startup_timeout_ms: None,
            tool_timeout_sec: self.tool_timeout_sec,
        }
    }

    /// A specification as a declaration without a preset.
    pub open spec fn as_raw(v: McpServerConfigView) -> RawMcpServerConfigView {
        RawMcpServerConfigView {
            preset: None,
            command: Some(v.command),
            args: v.args,
            env: v.env,
            startup_timeout_sec: v.startup_timeout_sec,
            startup_timeout_ms: None,
            tool_timeout_sec: v.tool_timeout_sec,
        }
    }
}

/// The declaration that names the preset `id` and states nothing else.
pub open spec fn naming_only(id: Seq<char>) -> RawMcpServerConfigView {
    RawMcpServerConfigView {
        preset: Some(id),
        command: None,
        args: Seq::empty(),
        env: None,
        startup_timeout_sec: None,
        startup_timeout_ms: None,
        tool_timeout_sec: None,
    }
}

/// A list of entries that is not empty folds to a map that is not empty.
pub proof fn lemma_fold_entries_non_empty(s: Seq<(Seq<char>, Seq<char>)>)
    requires
        s.len() > 0,
    ensures
        fold_entries(s) != Map::<Seq<char>, Seq<char>>::empty(),
{
    assert(fold_entries(s).contains_key(s.last().0));
}

/// A declaration that only names a preset resolves to that preset's own
/// specification: its command, arguments and timeouts, and its environment,
/// absent where the preset lists no variable. This holds of every preset,
/// whatever it holds.
pub proof fn lemma_preset_alone(p: McpServerPresetView)
    ensures
        resolve_with(naming_only(p.id), Some(preset_config(p))) == Ok::<
            McpServerConfigView,
            ResolveErrorView,
        >(preset_config(p)),
{
    if p.env.len() > 0 {
        lemma_fold_entries_non_empty(p.env);
    }
    let got = resolve_with(naming_only(p.id), Some(preset_config(p)))->Ok_0;
    assert(got.env == preset_config(p).env);
}

/// A declaration that only names an entry of the built-in catalogue resolves
/// to that entry's command, arguments, environment and timeouts.
pub proof fn lemma_builtin_preset_alone(i: int)
    requires
        0 <= i < builtin_presets().len(),
    ensures
        resolve_spec(naming_only(builtin_presets()[i].id)) == Ok::<
            McpServerConfigView,
            ResolveErrorView,
        >(preset_config(builtin_presets()[i])),
{
    lemma_builtin_ids_unique(i);
    lemma_preset_alone(builtin_presets()[i]);
}

/// A declaration that names no preset and states a command always resolves,
/// to that very command, its own arguments and timeouts, and its own
/// environment where that is not empty.
pub proof fn lemma_explicit_command(raw: RawMcpServerConfigView)
    requires
        raw.preset is None,
        raw.command is Some,
    ensures
        resolve_spec(raw) is Ok,
        resolve_spec(raw)->Ok_0.command == raw.command->Some_0,
        resolve_spec(raw)->Ok_0.preset is None,
        resolve_spec(raw)->Ok_0.args == raw.args,
        resolve_spec(raw)->Ok_0.startup_timeout_sec == startup_override(raw),
        resolve_spec(raw)->Ok_0.tool_timeout_sec == raw.tool_timeout_sec,
        resolve_spec(raw)->Ok_0.env == match raw.env {
            Some(e) => non_empty(e),
            None => None,
        },
{
    assert(resolve_spec(raw)->Ok_0.args =~= raw.args);
    match raw.env {
        Some(e) => {
            assert(Map::<Seq<char>, Seq<char>>::empty().union_prefer_right(e) =~= e);
        },
        None => {},
    }
}

/// When resolution fails: for the missing command exactly when the
/// declaration names no preset and states no command, and for an unknown
/// preset, carrying the identifier, exactly when it names one that the
/// catalogue lacks.
pub proof fn lemma_failures(raw: RawMcpServerConfigView)
    ensures
        resolve_spec(raw) == Err::<McpServerConfigView, ResolveErrorView>(
            ResolveErrorView::MissingCommand,
        ) <==> raw.preset is None && raw.command is None,
        resolve_spec(raw) matches Err(ResolveErrorView::UnknownPreset(id)) ==> raw.preset == Some(
            id,
        ) && find_preset(id) is None,
        raw.preset is Some && find_preset(raw.preset->Some_0) is None ==> resolve_spec(raw)
            == Err::<McpServerConfigView, ResolveErrorView>(
            ResolveErrorView::UnknownPreset(raw.preset->Some_0),
        ),
{
}

/// Where a declaration names a preset and declares variables of its own, the
/// resolved environment holds every declared variable with its declared
/// value, every other variable of the preset with the preset's value, and
/// nothing else.
pub proof fn lemma_env_override_wins(
    raw: RawMcpServerConfigView,
    preset: McpServerConfigView,
    name: Seq<char>,
)
    requires
        raw.env is Some,
    ensures
        resolve_with(raw, Some(preset)) is Ok,
        ({
            let declared = raw.env->Some_0;
            let base = base_env(Some(preset));
            let env = resolve_with(raw, Some(preset))->Ok_0.env;
            let held = env is Some && env->Some_0.contains_key(name);
            &&& held <==> declared.contains_key(name) || base.contains_key(name)
            &&& declared.contains_key(name) ==> env->Some_0[name] == declared[name]
            &&& !declared.contains_key(name) && base.contains_key(name) ==> env->Some_0[name]
                == base[name]
        }),
{
    let declared = raw.env->Some_0;
    let base = base_env(Some(preset));
    let merged = base.union_prefer_right(declared);
    if declared.contains_key(name) || base.contains_key(name) {
        assert(merged.contains_key(name));
        assert(merged != Map::<Seq<char>, Seq<char>>::empty());
    }
}

/// Resolving a settled specification again, written as a declaration
/// without a preset, gives the same specification back; only the name of the
/// preset, which such a declaration does not carry, is gone.
pub proof fn lemma_resolve_idempotent(c: McpServerConfigView)
    requires
        McpServerConfig::settled(c),
    ensures
        resolve_spec(McpServerConfig::as_raw(c)) == Ok::<McpServerConfigView, ResolveErrorView>(
            McpServerConfigView { preset: None, ..c },
        ),
{
    let raw = McpServerConfig::as_raw(c);
    let got = resolve_spec(raw)->Ok_0;
    assert(got.args =~= c.args);
    match c.env {
        Some(e) => {
            assert(Map::<Seq<char>, Seq<char>>::empty().union_prefer_right(e) =~= e);
        },
        None => {},
    }
}

/// Whatever a declaration resolves to is settled, so resolving it a second
/// time changes nothing but the name of the preset.
pub proof fn lemma_resolve_twice(raw: RawMcpServerConfigView)
    requires
        resolve_spec(raw) is Ok,
    ensures
        McpServerConfig::settled(resolve_spec(raw)->Ok_0),
        resolve_spec(McpServerConfig::as_raw(resolve_spec(raw)->Ok_0)) == Ok::<
            McpServerConfigView,
            ResolveErrorView,
        >(McpServerConfigView { preset: None, ..resolve_spec(raw)->Ok_0 }),
{
    lemma_resolve_idempotent(resolve_spec(raw)->Ok_0);
}

/// An editor that opens files through a URI scheme.
#[derive(Debug, Clone, Copy, PartialEq, Eq, Structural)]
pub enum UriBasedFileOpener {
    VsCode,
    VsCodeInsiders,
    Windsurf,
    Cursor,
    /// Files are not opened through a URI.
    Disabled,
}

impl UriBasedFileOpener {
    /// The URI scheme of the editor, where there is one.
    pub open spec fn scheme(self) -> Option<Seq<char>> {
        match self {
            UriBasedFileOpener::VsCode => Some("vscode"@),
            UriBasedFileOpener::VsCodeInsiders => Some("vscode-insiders"@),
            UriBasedFileOpener::Windsurf => Some("windsurf"@),
            UriBasedFileOpener::Cursor => Some("cursor"@),
            UriBasedFileOpener::Disabled => None,
        }
    }

    /// The URI scheme of the editor, where there is one.
    pub fn get_scheme(&self) -> (r: Option<&'static str>)
        ensures
            match r {
                Some(s) => self.scheme() == Some(s@),
                None => self.scheme() is None,
            },
    {
        match self {
            UriBasedFileOpener::VsCode => Some("vscode"),
            UriBasedFileOpener::VsCodeInsiders => Some("vscode-insiders"),
            UriBasedFileOpener::Windsurf => Some("windsurf"),
            UriBasedFileOpener::Cursor => Some("cursor"),
            UriBasedFileOpener::Disabled => None,
        }
    }
}

/// Whether history entries are written to disk.
#[derive(Debug, Clone, Copy, PartialEq, Eq, Structural)]
pub enum HistoryPersistence {
    /// Save all history entries to disk.
    SaveAll,
    /// Do not write history to disk.
    Off,
}

impl Default for HistoryPersistence {
    fn default() -> (r: HistoryPersistence)
        ensures
            r == HistoryPersistence::SaveAll,
    {
        HistoryPersistence::SaveAll
    }
}

/// Settings that govern if and what is written to the history file.
#[derive(Debug, Clone, Copy, PartialEq, Eq, Structural)]
pub struct History {
    pub persistence: HistoryPersistence,
    /// If set, the maximum size of the history file in bytes.
    pub max_bytes: Option<usize>,
}

impl Default for History {
    fn default() -> (r: History)
        ensures
            r == (History { persistence: HistoryPersistence::SaveAll, max_bytes: None }),
    {
        History { persistence: HistoryPersistence::SaveAll, max_bytes: None }
    }
}

/// Desktop notifications: switched on or off as a whole, or limited to the
/// listed kinds.
#[derive(Debug, Clone, PartialEq, Eq)]
pub enum Notifications {
    Enabled(bool),
    Custom(Vec<String>),
}

impl Default for Notifications {
    fn default() -> (r: Notifications)
        ensures
            r == Notifications::Enabled(false),
    {
        Notifications::Enabled(false)
    }
}

/// Settings of the terminal interface.
#[derive(Debug, Clone, PartialEq)]
pub struct Tui {
    /// Desktop notifications while the terminal is unfocused. Off by default.
    pub notifications: Notifications,
}

impl Default for Tui {
    fn default() -> (r: Tui)
        ensures
            r.notifications == Notifications::Enabled(false),
    {
        Tui { notifications: Notifications::Enabled(false) }
    }
}

/// `std::path::PathBuf`, carried through as an opaque value.
#[verifier::external_type_specification]
#[verifier::external_body]
pub struct ExPathBuf(std::path::PathBuf);

/// What a sandboxed command may write and reach.
#[derive(Debug, Clone, PartialEq)]
pub struct SandboxWorkspaceWrite {
    pub writable_roots: Vec<std::path::PathBuf>,
    pub network_access: bool,
    pub exclude_tmpdir_env_var: bool,
    pub exclude_slash_tmp: bool,
}

impl Default for SandboxWorkspaceWrite {
    fn default() -> (r: SandboxWorkspaceWrite)
        ensures
            r.writable_roots@ == Seq::<std::path::PathBuf>::empty(),
            !r.network_access,
            !r.exclude_tmpdir_env_var,
            !r.exclude_slash_tmp,
    {
        SandboxWorkspaceWrite {
            writable_roots: Vec::new(),
            network_access: false,
            exclude_tmpdir_env_var: false,
            exclude_slash_tmp: false,
        }
    }
}

/// Sandbox settings as they go over the wire: every switch may be absent.
#[derive(Debug, Clone, PartialEq)]
pub struct SandboxSettings {
    pub writable_roots: Vec<std::path::PathBuf>,
    pub network_access: Option<bool>,
    pub exclude_tmpdir_env_var: Option<bool>,
    pub exclude_slash_tmp: Option<bool>,
}

impl From<SandboxWorkspaceWrite> for SandboxSettings {
    fn from(sandbox_workspace_write: SandboxWorkspaceWrite) -> (r: SandboxSettings) {
        SandboxSettings {
            writable_roots: sandbox_workspace_write.writable_roots,
            network_access: Some(sandbox_workspace_write.network_access),
            exclude_tmpdir_env_var: Some(sandbox_workspace_write.exclude_tmpdir_env_var),
            exclude_slash_tmp: Some(sandbox_workspace_write.exclude_slash_tmp),
        }
    }
}

impl FromSpecImpl<SandboxWorkspaceWrite> for SandboxSettings {
    open spec fn obeys_from_spec() -> bool {
        true
    }

    /// The same roots, and every switch present with its value.
    open spec fn from_spec(w: SandboxWorkspaceWrite) -> SandboxSettings {
        SandboxSettings {
            writable_roots: w.writable_roots,
            network_access: Some(w.network_access),
            exclude_tmpdir_env_var: Some(w.exclude_tmpdir_env_var),
            exclude_slash_tmp: Some(w.exclude_slash_tmp),
        }
    }
}

/// How summaries of reasoning are laid out.
#[derive(Debug, Clone, Copy, PartialEq, Eq, Hash, Structural)]
pub enum ReasoningSummaryFormat {
    Off,
    Experimental,
}

impl Default for ReasoningSummaryFormat {
    fn default() -> (r: ReasoningSummaryFormat)
        ensures
            r == ReasoningSummaryFormat::Off,
    {
        ReasoningSummaryFormat::Off
    }
}

} // verus!
