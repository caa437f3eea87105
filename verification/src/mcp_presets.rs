//! The built-in catalogue of launch presets.

use crate::config_types::strs_view;
use crate::config_types::McpServerConfig;
use crate::config_types::McpServerConfigView;
use crate::env_map::fold_entries;
use crate::env_map::pairs_view;
use crate::env_map::EnvMap;
use crate::timeout::Timeout;
use vstd::prelude::*;

verus! {

/// A named template for a launch specification.
#[derive(Debug, Clone)]
pub struct McpServerPreset {
    /// Stable identifier used from configuration files and command lines.
    pub id: String,
    /// Short human readable label for help text.
    pub label: String,
    /// Single line description explaining what the preset does.
    pub description: String,
    /// Command to launch the server.
    pub command: String,
    /// Arguments appended to the command.
    pub args: Vec<String>,
    /// Environment variables exported when launching the server.
    pub env: Vec<(String, String)>,
    /// Startup timeout applied while the server initializes and reports tools.
    pub startup_timeout: Option<Timeout>,
    /// Default timeout for each tool call dispatched to this server.
    pub tool_timeout: Option<Timeout>,
}

/// What a preset holds, as mathematical values.
pub ghost struct McpServerPresetView {
    pub id: Seq<char>,
    pub label: Seq<char>,
    pub description: Seq<char>,
    pub command: Seq<char>,
    pub args: Seq<Seq<char>>,
    pub env: Seq<(Seq<char>, Seq<char>)>,
    pub startup_timeout: Option<Timeout>,
    pub tool_timeout: Option<Timeout>,
}

impl View for McpServerPreset {
    type V = McpServerPresetView;

    open spec fn view(&self) -> McpServerPresetView {
        McpServerPresetView {
            id: self.id@,
            label: self.label@,
            description: self.description@,
            command: self.command@,
            args: strs_view(self.args@),
            env: pairs_view(self.env@),
            startup_timeout: self.startup_timeout,
            tool_timeout: self.tool_timeout,
        }
    }
}

/// The launch specification that a preset stands for: its command, arguments
/// and timeouts, its environment as a map (absent where the preset lists no
/// variable), and its own identifier as provenance.
pub open spec fn preset_config(p: McpServerPresetView) -> McpServerConfigView {
    McpServerConfigView {
        preset: Some(p.id),
        command: p.command,
        args: p.args,
        env: if p.env.len() == 0 {
            None
        } else {
            Some(fold_entries(p.env))
        },
        startup_timeout_sec: p.startup_timeout,
        tool_timeout_sec: p.tool_timeout,
    }
}

/// The preset that launches the Chrome DevTools server.
pub open spec fn chrome_devtools() -> McpServerPresetView {
    McpServerPresetView {
        id: "chrome_devtools"@,
        label: "Chrome DevTools"@,
        description: "Launch the Chrome DevTools MCP server via npx for debugging frontends."@,
        command: "npx"@,
        args: seq!["chrome-devtools-mcp@latest"@, "--stdio"@],
        env: Seq::empty(),
        startup_timeout: Some(Timeout { secs: 45, nanos: 0 }),
        tool_timeout: Some(Timeout { secs: 120, nanos: 0 }),
    }
}

/// The catalogue, in declaration order.
pub open spec fn builtin_presets() -> Seq<McpServerPresetView> {
    seq![chrome_devtools()]
}

/// The views of a list of presets.
pub open spec fn presets_view(s: Seq<McpServerPreset>) -> Seq<McpServerPresetView> {
    Seq::new(s.len(), |i: int| s[i]@)
}

/// The first preset of `presets` whose identifier is exactly `id`.
pub open spec fn find_in(presets: Seq<McpServerPresetView>, id: Seq<char>) -> Option<
    McpServerPresetView,
>
    decreases presets.len(),
{
    if presets.len() == 0 {
        None
    } else if presets[0].id == id {
        Some(presets[0])
    } else {
        find_in(presets.drop_first(), id)
    }
}

/// The catalogue entry whose identifier is exactly `id`.
pub open spec fn find_preset(id: Seq<char>) -> Option<McpServerPresetView> {
    find_in(builtin_presets(), id)
}

/// The view of an optional preset.
pub open spec fn preset_option_view(p: Option<McpServerPreset>) -> Option<McpServerPresetView> {
    match p {
        Some(p) => Some(p@),
        None => None,
    }
}

/// A lookup finds a preset exactly when some catalogue entry carries the
/// identifier, and what it finds is an entry with that identifier.
pub proof fn lemma_find_in(presets: Seq<McpServerPresetView>, id: Seq<char>)
    ensures
        match find_in(presets, id) {
            Some(p) => p.id == id && presets.contains(p),
            None => forall|i: int| 0 <= i < presets.len() ==> (#[trigger] presets[i]).id != id,
        },
    decreases presets.len(),
{
    if presets.len() == 0 {
    } else if presets[0].id == id {
        assert(presets.contains(presets[0]));
    } else {
        let rest = presets.drop_first();
        lemma_find_in(rest, id);
        match find_in(rest, id) {
            Some(p) => {
                let j = choose|j: int| 0 <= j < rest.len() && rest[j] == p;
                assert(presets[j + 1] == p);
            },
            None => {
                assert forall|i: int| 0 <= i < presets.len() implies (#[trigger] presets[i]).id
                    != id by {
                    if i > 0 {
                        assert(rest[i - 1] == presets[i]);
                    }
                }
            },
        }
    }
}

/// Every catalogue entry is found under its own identifier: no two entries
/// share one.
pub proof fn lemma_builtin_ids_unique(i: int)
    requires
        0 <= i < builtin_presets().len(),
    ensures
        find_preset(builtin_presets()[i].id) == Some(builtin_presets()[i]),
{
}

/// A lookup in the catalogue finds the Chrome DevTools preset under its own
/// identifier and nothing under any other.
pub proof fn lemma_find_preset(id: Seq<char>)
    ensures
        find_preset(id) == if id == chrome_devtools().id {
            Some(chrome_devtools())
        } else {
            None
        },
{
    reveal_with_fuel(find_in, 3);
    assert(builtin_presets().drop_first().len() == 0);
}

impl McpServerPreset {
    /// The launch specification that this preset stands for.
    pub fn to_config(&self) -> (r: McpServerConfig)
        ensures
            r@ == preset_config(self@),
    {
        let env_map = if self.env.len() == 0 {
            None
        } else {
            Some(EnvMap::from_pairs(copy_pairs(&self.env)))
        };
        McpServerConfig {
            preset: Some(self.id.clone()),
            command: self.command.clone(),
            args: copy_strings(&self.args),
            env: env_map,
            startup_timeout_sec: self.startup_timeout,
            tool_timeout_sec: self.tool_timeout,
        }
    }
}

/// A copy of a list of strings.
pub(crate) fn copy_strings(v: &Vec<String>) -> (r: Vec<String>)
    ensures
        r@ == v@,
{
    let mut out: Vec<String> = Vec::new();
    let mut i: usize = 0;
    while i < v.len()
        invariant
            i <= v@.len(),
            out@ == v@.take(i as int),
        decreases v@.len() - i,
    {
        out.push(v[i].clone());
        assert(out@ =~= v@.take(i + 1));
        i += 1;
    }
    assert(out@ =~= v@);
    out
}

/// A copy of a list of pairs of strings.
pub(crate) fn copy_pairs(v: &Vec<(String, String)>) -> (r: Vec<(String, String)>)
    ensures
        r@ == v@,
{
    let mut out: Vec<(String, String)> = Vec::new();
    let mut i: usize = 0;
    while i < v.len()
        invariant
            i <= v@.len(),
            out@ == v@.take(i as int),
        decreases v@.len() - i,
    {
        out.push((v[i].0.clone(), v[i].1.clone()));
        assert(out@ =~= v@.take(i + 1));
        i += 1;
    }
    assert(out@ =~= v@);
    out
}

/// The built-in presets, in declaration order.
pub fn builtin_mcp_server_presets() -> (r: Vec<McpServerPreset>)
    ensures
        presets_view(r@) == builtin_presets(),
{
    let mut args: Vec<String> = Vec::new();
    args.push("chrome-devtools-mcp@latest".to_owned());
    args.push("--stdio".to_owned());
    let chrome = McpServerPreset {
        id: "chrome_devtools".to_owned(),
        label: "Chrome DevTools".to_owned(),
        description: "Launch the Chrome DevTools MCP server via npx for debugging frontends.".to_owned(),
        command: "npx".to_owned(),
        args,
        env: Vec::new(),
        startup_timeout: Some(Timeout::from_secs(45)),
        tool_timeout: Some(Timeout::from_secs(120)),
    };
    assert(chrome@.args =~= chrome_devtools().args);
    assert(chrome@.env =~= chrome_devtools().env);
    let mut out: Vec<McpServerPreset> = Vec::new();
    out.push(chrome);
    assert(presets_view(out@) =~= builtin_presets());
    out
}

/// Looks a preset up by its identifier, compared exactly and with case.
/// Unknown identifiers give `None`.
pub fn find_mcp_server_preset(id: &str) -> (r: Option<McpServerPreset>)
    ensures
        preset_option_view(r) == find_preset(id@),
{
    let mut presets = builtin_mcp_server_presets();
    let wanted = id.to_owned();
    let mut i: usize = 0;
    assert(presets_view(presets@).skip(0) =~= presets_view(presets@));
    while i < presets.len()
        invariant
            i <= presets@.len(),
            wanted@ == id@,
            find_in(presets_view(presets@), id@) == find_in(
                presets_view(presets@).skip(i as int),
                id@,
            ),
            find_in(presets_view(presets@), id@) == find_preset(id@),
        decreases presets@.len() - i,
    {
        let ghost all = presets_view(presets@);
        let ghost rest = all.skip(i as int);
        assert(rest[0] == presets@[i as int]@);
        if presets[i].id == wanted {
            let found = presets.remove(i);
            return Some(found);
        }
        assert(rest.drop_first() =~= all.skip(i + 1));
        i += 1;
    }
    assert(presets_view(presets@).skip(i as int).len() == 0);
    None
}

} // verus!
