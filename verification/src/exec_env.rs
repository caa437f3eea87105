//! The environment handed to a spawned process, derived from a policy and
//! the variables of the spawning process.

use crate::config_types::strs_view;
use crate::env_map::has_key;
use crate::env_map::index_of;
use crate::env_map::keys_distinct;
use crate::env_map::lemma_pairs_map;
use crate::env_map::pairs_map;
use crate::env_map::EnvMap;
use vstd::prelude::*;
use vstd::std_specs::convert::FromSpecImpl;

verus! {

/// Whether the wildcard pattern `pattern` applies to the whole of `name`:
/// `*` stands for any run of characters, `?` for any single character, and
/// letters are compared without regard to case.
pub uninterp spec fn wildcard_matches(pattern: Seq<char>, name: Seq<char>) -> bool;

/// Calls `wildmatch::WildMatchPattern::<'*', '?'>::new_case_insensitive` on
/// `pattern` and `matches` on the result with `name`. The answer depends on
/// the two strings alone; it is taken on trust and named, not spelled out.
#[verifier::external_body]
fn wild_match(pattern: &str, name: &str) -> (r: bool)
    ensures
        r == wildcard_matches(pattern@, name@),
{
    wildmatch::WildMatchPattern::<'*', '?'>::new_case_insensitive(pattern).matches(name)
}

/// A case-insensitive wildcard pattern for variable names.
#[derive(Debug, Clone, PartialEq, Eq)]
pub struct EnvironmentVariablePattern {
    pattern: String,
}

impl View for EnvironmentVariablePattern {
    type V = Seq<char>;

    closed spec fn view(&self) -> Seq<char> {
        self.pattern@
    }
}

impl EnvironmentVariablePattern {
    /// The pattern written as `pattern`.
    pub fn new_case_insensitive(pattern: &str) -> (r: EnvironmentVariablePattern)
        ensures
            r@ == pattern@,
    {
        EnvironmentVariablePattern { pattern: pattern.to_owned() }
    }

    /// Whether the pattern applies to `name`.
    pub fn matches(&self, name: &str) -> (r: bool)
        ensures
            r == wildcard_matches(self@, name@),
    {
        wild_match(self.pattern.as_str(), name)
    }

    /// The pattern as it was written.
    pub fn text(&self) -> (r: String)
        ensures
            r@ == self@,
    {
        self.pattern.clone()
    }
}

/// The texts of a list of patterns.
pub open spec fn patterns_view(s: Seq<EnvironmentVariablePattern>) -> Seq<Seq<char>> {
    Seq::new(s.len(), |i: int| s[i]@)
}

/// Whether at least one of `patterns` applies to `name`.
pub open spec fn matches_any(patterns: Seq<Seq<char>>, name: Seq<char>) -> bool {
    exists|i: int| 0 <= i < patterns.len() && wildcard_matches(#[trigger] patterns[i], name)
}

/// Where the environment of a spawned process starts from.
#[derive(Debug, Clone, Copy, PartialEq, Eq, Structural)]
pub enum ShellEnvironmentPolicyInherit {
    /// Only the core variables of the platform: home, login, path, shell,
    /// user and temporary directories.
    Core,
    /// Every variable of the spawning process.
    All,
    /// No variable of the spawning process.
    Nothing,
}

impl Default for ShellEnvironmentPolicyInherit {
    fn default() -> (r: ShellEnvironmentPolicyInherit)
        ensures
            r == ShellEnvironmentPolicyInherit::All,
    {
        ShellEnvironmentPolicyInherit::All
    }
}

/// A policy as a user wrote it: every field may be left out.
#[derive(Debug, Clone, PartialEq)]
pub struct ShellEnvironmentPolicyToml {
    pub inherit: Option<ShellEnvironmentPolicyInherit>,
    pub ignore_default_excludes: Option<bool>,
    /// Wildcard patterns of names to leave out.
    pub exclude: Option<Vec<String>>,
    /// Variables to set whatever the patterns say.
    pub set: Option<EnvMap>,
    /// Wildcard patterns of the only inherited names to keep.
    pub include_only: Option<Vec<String>>,
    pub experimental_use_profile: Option<bool>,
}

/// What a written policy holds, as mathematical values.
pub ghost struct ShellEnvironmentPolicyTomlView {
    pub inherit: Option<ShellEnvironmentPolicyInherit>,
    pub ignore_default_excludes: Option<bool>,
    pub exclude: Option<Seq<Seq<char>>>,
    pub set: Option<Map<Seq<char>, Seq<char>>>,
    pub include_only: Option<Seq<Seq<char>>>,
    pub experimental_use_profile: Option<bool>,
}

impl View for ShellEnvironmentPolicyToml {
    type V = ShellEnvironmentPolicyTomlView;

    open spec fn view(&self) -> ShellEnvironmentPolicyTomlView {
        ShellEnvironmentPolicyTomlView {
            inherit: self.inherit,
            ignore_default_excludes: self.ignore_default_excludes,
            exclude: match self.exclude {
                Some(e) => Some(strs_view(e@)),
                None => None,
            },
            set: match self.set {
                Some(m) => Some(m@),
                None => None,
            },
            include_only: match self.include_only {
                Some(e) => Some(strs_view(e@)),
                None => None,
            },
            experimental_use_profile: self.experimental_use_profile,
        }
    }
}

impl Default for ShellEnvironmentPolicyToml {
    fn default() -> (r: ShellEnvironmentPolicyToml)
        ensures
            r@ == (ShellEnvironmentPolicyTomlView {
                inherit: None,
                ignore_default_excludes: None,
                exclude: None,
                set: None,
                include_only: None,
                experimental_use_profile: None,
            }),
    {
        ShellEnvironmentPolicyToml {
            inherit: None,
            ignore_default_excludes: None,
            exclude: None,
            set: None,
            include_only: None,
            experimental_use_profile: None,
        }
    }
}

/// How the environment of a spawned process is derived:
/// 1. start from the variables that `inherit` selects;
/// 2. unless `ignore_default_excludes`, drop the names that look like
///    credentials;
/// 3. drop the names that a pattern of `exclude` applies to;
/// 4. set every variable of `set`;
/// 5. where `include_only` is not empty, keep of the inherited variables
///    only those that one of its patterns applies to.
#[derive(Debug, Clone, PartialEq)]
pub struct ShellEnvironmentPolicy {
    /// Starting point when building the environment.
    pub inherit: ShellEnvironmentPolicyInherit,
    /// True to keep variables whose names look like credentials.
    pub ignore_default_excludes: bool,
    /// Names to leave out of the environment.
    pub exclude: Vec<EnvironmentVariablePattern>,
    /// Variables to set in the environment.
    pub set: EnvMap,
    /// Names to retain in the environment.
    pub include_only: Vec<EnvironmentVariablePattern>,
    /// If true, the shell profile is used to run the command.
    pub use_profile: bool,
}

/// What a policy holds, as mathematical values.
pub ghost struct ShellEnvironmentPolicyView {
    pub inherit: ShellEnvironmentPolicyInherit,
    pub ignore_default_excludes: bool,
    pub exclude: Seq<Seq<char>>,
    pub set: Map<Seq<char>, Seq<char>>,
    pub include_only: Seq<Seq<char>>,
    pub use_profile: bool,
}

impl View for ShellEnvironmentPolicy {
    type V = ShellEnvironmentPolicyView;

    open spec fn view(&self) -> ShellEnvironmentPolicyView {
        ShellEnvironmentPolicyView {
            inherit: self.inherit,
            ignore_default_excludes: self.ignore_default_excludes,
            exclude: patterns_view(self.exclude@),
            set: self.set@,
            include_only: patterns_view(self.include_only@),
            use_profile: self.use_profile,
        }
    }
}

/// The policy that a written policy stands for: what is left out inherits
/// everything, keeps the default exclusions, has no patterns, sets nothing
/// and does not use the profile.
pub open spec fn policy_of(t: ShellEnvironmentPolicyTomlView) -> ShellEnvironmentPolicyView {
    ShellEnvironmentPolicyView {
        inherit: match t.inherit {
            Some(i) => i,
            None => ShellEnvironmentPolicyInherit::All,
        },
        ignore_default_excludes: match t.ignore_default_excludes {
            Some(b) => b,
            None => false,
        },
        exclude: match t.exclude {
            Some(e) => e,
            None => Seq::empty(),
        },
        set: match t.set {
            Some(m) => m,
            None => Map::empty(),
        },
        include_only: match t.include_only {
            Some(e) => e,
            None => Seq::empty(),
        },
        use_profile: match t.experimental_use_profile {
            Some(b) => b,
            None => false,
        },
    }
}

/// One pattern for each of `texts`, in order.
fn compile_patterns(texts: &Vec<String>) -> (r: Vec<EnvironmentVariablePattern>)
    ensures
        patterns_view(r@) == strs_view(texts@),
{
    let mut out: Vec<EnvironmentVariablePattern> = Vec::new();
    let mut i: usize = 0;
    while i < texts.len()
        invariant
            i <= texts@.len(),
            out@.len() == i,
            patterns_view(out@) == strs_view(texts@.take(i as int)),
        decreases texts@.len() - i,
    {
        let ghost prev = out@;
        out.push(EnvironmentVariablePattern::new_case_insensitive(texts[i].as_str()));
        assert(patterns_view(out@) =~= strs_view(texts@.take(i + 1))) by {
            assert forall|j: int| 0 <= j < i + 1 implies patterns_view(out@)[j] == strs_view(
                texts@.take(i + 1),
            )[j] by {
                if j < i {
                    assert(patterns_view(prev)[j] == strs_view(texts@.take(i as int))[j]);
                }
            }
        }
        i += 1;
    }
    assert(texts@.take(texts@.len() as int) =~= texts@);
    out
}

impl ShellEnvironmentPolicy {
    /// The policy that the written policy `toml` stands for.
    pub fn from_toml(toml: ShellEnvironmentPolicyToml) -> (r: ShellEnvironmentPolicy)
        ensures
            r@ == policy_of(toml@),
    {
        let inherit = match toml.inherit {
            Some(i) => i,
            None => ShellEnvironmentPolicyInherit::All,
        };
        let ignore_default_excludes = match toml.ignore_default_excludes {
            Some(b) => b,
            None => false,
        };
        let exclude = match &toml.exclude {
            Some(e) => compile_patterns(e),
            None => Vec::new(),
        };
        let include_only = match &toml.include_only {
            Some(e) => compile_patterns(e),
            None => Vec::new(),
        };
        let set = match toml.set {
            Some(m) => m,
            None => EnvMap::new(),
        };
        let use_profile = match toml.experimental_use_profile {
            Some(b) => b,
            None => false,
        };
        let r = ShellEnvironmentPolicy {
            inherit,
            ignore_default_excludes,
            exclude,
            set,
            include_only,
            use_profile,
        };
        assert(r@.exclude =~= policy_of(toml@).exclude);
        assert(r@.include_only =~= policy_of(toml@).include_only);
        r
    }
}

impl From<ShellEnvironmentPolicyToml> for ShellEnvironmentPolicy {
    fn from(toml: ShellEnvironmentPolicyToml) -> (r: ShellEnvironmentPolicy)
        ensures
            r@ == policy_of(toml@),
    {
        ShellEnvironmentPolicy::from_toml(toml)
    }
}

impl FromSpecImpl<ShellEnvironmentPolicyToml> for ShellEnvironmentPolicy {
    /// The conversion is stated over views, by the contract of `from`: the
    /// patterns are built anew, so no policy is named as the result.
    open spec fn obeys_from_spec() -> bool {
        false
    }

    open spec fn from_spec(toml: ShellEnvironmentPolicyToml) -> ShellEnvironmentPolicy {
        choose|p: ShellEnvironmentPolicy| p@ == policy_of(toml@)
    }
}

impl Default for ShellEnvironmentPolicy {
    fn default() -> (r: ShellEnvironmentPolicy)
        ensures
            r@ == policy_of(
                ShellEnvironmentPolicyTomlView {
                    inherit: None,
                    ignore_default_excludes: None,
                    exclude: None,
                    set: None,
                    include_only: None,
                    experimental_use_profile: None,
                },
            ),
    {
        ShellEnvironmentPolicy::from_toml(ShellEnvironmentPolicyToml::default())
    }
}

/// The names of the core variables of the platform.
pub open spec fn core_names() -> Seq<Seq<char>> {
    seq![
        "HOME"@,
        "LOGNAME"@,
        "PATH"@,
        "SHELL"@,
        "USER"@,
        "USERNAME"@,
        "TMPDIR"@,
        "TEMP"@,
        "TMP"@,
    ]
}

/// The patterns of names that look like credentials.
pub open spec fn default_excludes() -> Seq<Seq<char>> {
    seq!["*KEY*"@, "*TOKEN*"@]
}

/// Whether an inherit mode lets the variable `name` of the spawning process
/// in.
pub open spec fn seeded(inherit: ShellEnvironmentPolicyInherit, name: Seq<char>) -> bool {
    match inherit {
        ShellEnvironmentPolicyInherit::All => true,
        ShellEnvironmentPolicyInherit::Core => core_names().contains(name),
        ShellEnvironmentPolicyInherit::Nothing => false,
    }
}

/// Whether a variable `name` of the spawning process passes the policy: it
/// is let in, no exclusion in force applies to it, and the allowlist, where
/// there is one, names it.
pub open spec fn inherited(p: ShellEnvironmentPolicyView, name: Seq<char>) -> bool {
    &&& seeded(p.inherit, name)
    &&& p.ignore_default_excludes || !matches_any(default_excludes(), name)
    &&& !matches_any(p.exclude, name)
    &&& p.include_only.len() == 0 || matches_any(p.include_only, name)
}

/// The environment that a policy derives from the variables `ambient` of the
/// spawning process: every variable that the policy sets, with the value it
/// sets, and every other variable of `ambient` that passes the policy, with
/// its own value.
pub open spec fn resolved_env(
    p: ShellEnvironmentPolicyView,
    ambient: Map<Seq<char>, Seq<char>>,
) -> Map<Seq<char>, Seq<char>> {
    Map::new(
        |k: Seq<char>| p.set.contains_key(k) || (ambient.contains_key(k) && inherited(p, k)),
        |k: Seq<char>|
            if p.set.contains_key(k) {
                p.set[k]
            } else {
                ambient[k]
            },
    )
}

/// The entries of `m` whose names satisfy `f`.
pub open spec fn keep_where(
    m: Map<Seq<char>, Seq<char>>,
    f: spec_fn(Seq<char>) -> bool,
) -> Map<Seq<char>, Seq<char>> {
    Map::new(|k: Seq<char>| m.contains_key(k) && f(k), |k: Seq<char>| m[k])
}

/// The entries of `pairs` at the positions below `n` that `keep` marks.
spec fn selected(pairs: Seq<(String, String)>, keep: Seq<bool>, n: int) -> Map<
    Seq<char>,
    Seq<char>,
> {
    Map::new(
        |k: Seq<char>| has_key(pairs, k) && index_of(pairs, k) < n && keep[index_of(pairs, k)],
        |k: Seq<char>| pairs[index_of(pairs, k)].1@,
    )
}

/// The map of the entries of `pairs` that `keep` marks.
fn select(pairs: &Vec<(String, String)>, keep: &Vec<bool>) -> (r: EnvMap)
    requires
        keys_distinct(pairs@),
        keep@.len() == pairs@.len(),
    ensures
        r@ == selected(pairs@, keep@, pairs@.len() as int),
{
    let mut out = EnvMap::new();
    let mut i: usize = 0;
    assert(out@ =~= selected(pairs@, keep@, 0));
    while i < pairs.len()
        invariant
            i <= pairs@.len(),
            keys_distinct(pairs@),
            keep@.len() == pairs@.len(),
            out@ == selected(pairs@, keep@, i as int),
        decreases pairs@.len() - i,
    {
        proof {
            lemma_pairs_map(pairs@);
            assert(index_of(pairs@, pairs@[i as int].0@) == i);
        }
        if keep[i] {
            out.insert(pairs[i].0.clone(), pairs[i].1.clone());
        }
        assert(out@ =~= selected(pairs@, keep@, i + 1));
        i += 1;
    }
    out
}

/// Selecting the entries whose names satisfy `f` gives the part of the map
/// under those names.
proof fn lemma_selected(
    pairs: Seq<(String, String)>,
    keep: Seq<bool>,
    m: Map<Seq<char>, Seq<char>>,
    f: spec_fn(Seq<char>) -> bool,
)
    requires
        keys_distinct(pairs),
        pairs_map(pairs) == m,
        keep.len() == pairs.len(),
        forall|i: int| 0 <= i < pairs.len() ==> keep[i] == f((#[trigger] pairs[i]).0@),
    ensures
        selected(pairs, keep, pairs.len() as int) == keep_where(m, f),
{
    lemma_pairs_map(pairs);
    assert forall|k: Seq<char>| has_key(pairs, k) implies keep[index_of(pairs, k)] == f(k) by {
        let j = index_of(pairs, k);
        assert(pairs[j].0@ == k);
    }
    assert(selected(pairs, keep, pairs.len() as int) =~= keep_where(m, f));
}

/// Whether `name` is one of `names`.
fn is_one_of(name: &String, names: &Vec<String>) -> (r: bool)
    ensures
        r == strs_view(names@).contains(name@),
{
    let mut i: usize = 0;
    while i < names.len()
        invariant
            i <= names@.len(),
            forall|j: int| 0 <= j < i ==> (#[trigger] strs_view(names@)[j]) != name@,
        decreases names@.len() - i,
    {
        if names[i] == *name {
            assert(strs_view(names@)[i as int] == name@);
            return true;
        }
        i += 1;
    }
    false
}

/// The names of the core variables of the platform.
pub fn core_variable_names() -> (r: Vec<String>)
    ensures
        strs_view(r@) == core_names(),
{
    let mut out: Vec<String> = Vec::new();
    out.push("HOME".to_owned());
    out.push("LOGNAME".to_owned());
    out.push("PATH".to_owned());
    out.push("SHELL".to_owned());
    out.push("USER".to_owned());
    out.push("USERNAME".to_owned());
    out.push("TMPDIR".to_owned());
    out.push("TEMP".to_owned());
    out.push("TMP".to_owned());
    assert(strs_view(out@) =~= core_names());
    out
}

/// The patterns of names that look like credentials.
pub fn default_exclude_patterns() -> (r: Vec<EnvironmentVariablePattern>)
    ensures
        patterns_view(r@) == default_excludes(),
{
    let mut out: Vec<EnvironmentVariablePattern> = Vec::new();
    out.push(EnvironmentVariablePattern::new_case_insensitive("*KEY*"));
    out.push(EnvironmentVariablePattern::new_case_insensitive("*TOKEN*"));
    assert(patterns_view(out@) =~= default_excludes());
    out
}

/// Whether at least one of `patterns` applies to `name`.
pub fn matches_any_pattern(name: &str, patterns: &Vec<EnvironmentVariablePattern>) -> (r: bool)
    ensures
        r == matches_any(patterns_view(patterns@), name@),
{
    let mut i: usize = 0;
    while i < patterns.len()
        invariant
            i <= patterns@.len(),
            forall|j: int|
                0 <= j < i ==> !wildcard_matches(#[trigger] patterns_view(patterns@)[j], name@),
        decreases patterns@.len() - i,
    {
        if patterns[i].matches(name) {
            assert(wildcard_matches(patterns_view(patterns@)[i as int], name@));
            return true;
        }
        i += 1;
    }
    false
}

/// The variables of `ambient` that the inherit mode lets in.
pub fn seed_env(ambient: &EnvMap, inherit: ShellEnvironmentPolicyInherit) -> (r: EnvMap)
    ensures
        r@ == keep_where(ambient@, |k: Seq<char>| seeded(inherit, k)),
{
    let pairs = ambient.to_pairs();
    let core = core_variable_names();
    let mut keep: Vec<bool> = Vec::new();
    let mut i: usize = 0;
    while i < pairs.len()
        invariant
            i <= pairs@.len(),
            keep@.len() == i,
            strs_view(core@) == core_names(),
            forall|j: int| 0 <= j < i ==> keep@[j] == seeded(inherit, (#[trigger] pairs@[j]).0@),
        decreases pairs@.len() - i,
    {
        let flag = match inherit {
            ShellEnvironmentPolicyInherit::All => true,
            ShellEnvironmentPolicyInherit::Core => is_one_of(&pairs[i].0, &core),
            ShellEnvironmentPolicyInherit::Nothing => false,
        };
        keep.push(flag);
        i += 1;
    }
    proof {
        lemma_selected(pairs@, keep@, ambient@, |k: Seq<char>| seeded(inherit, k));
    }
    select(&pairs, &keep)
}

/// The variables of `env` that none of `patterns` applies to.
pub fn without_matching(env: &EnvMap, patterns: &Vec<EnvironmentVariablePattern>) -> (r: EnvMap)
    ensures
        r@ == keep_where(env@, |k: Seq<char>| !matches_any(patterns_view(patterns@), k)),
{
    let pairs = env.to_pairs();
    let mut keep: Vec<bool> = Vec::new();
    let mut i: usize = 0;
    while i < pairs.len()
        invariant
            i <= pairs@.len(),
            keep@.len() == i,
            forall|j: int|
                0 <= j < i ==> keep@[j] == !matches_any(
                    patterns_view(patterns@),
                    (#[trigger] pairs@[j]).0@,
                ),
        decreases pairs@.len() - i,
    {
        let hit = matches_any_pattern(pairs[i].0.as_str(), patterns);
        keep.push(!hit);
        i += 1;
    }
    proof {
        lemma_selected(
            pairs@,
            keep@,
            env@,
            |k: Seq<char>| !matches_any(patterns_view(patterns@), k),
        );
    }
    select(&pairs, &keep)
}

/// The variables of `env` that `exempt` names or that one of `patterns`
/// applies to.
pub fn only_matching(
    env: &EnvMap,
    patterns: &Vec<EnvironmentVariablePattern>,
    exempt: &EnvMap,
) -> (r: EnvMap)
    ensures
        r@ == keep_where(
            env@,
            |k: Seq<char>| exempt@.contains_key(k) || matches_any(patterns_view(patterns@), k),
        ),
{
    let pairs = env.to_pairs();
    let mut keep: Vec<bool> = Vec::new();
    let mut i: usize = 0;
    while i < pairs.len()
        invariant
            i <= pairs@.len(),
            keep@.len() == i,
            forall|j: int|
                0 <= j < i ==> keep@[j] == (exempt@.contains_key((#[trigger] pairs@[j]).0@)
                    || matches_any(patterns_view(patterns@), pairs@[j].0@)),
        decreases pairs@.len() - i,
    {
        let flag = exempt.contains_key(pairs[i].0.as_str()) || matches_any_pattern(
            pairs[i].0.as_str(),
            patterns,
        );
        keep.push(flag);
        i += 1;
    }
    proof {
        lemma_selected(
            pairs@,
            keep@,
            env@,
            |k: Seq<char>| exempt@.contains_key(k) || matches_any(patterns_view(patterns@), k),
        );
    }
    select(&pairs, &keep)
}

/// The environment that `policy` derives from the variables `ambient` of the
/// spawning process.
pub fn populate_env(ambient: &EnvMap, policy: &ShellEnvironmentPolicy) -> (r: EnvMap)
    ensures
        r@ == resolved_env(policy@, ambient@),
{
    let mut env = seed_env(ambient, policy.inherit);
    if !policy.ignore_default_excludes {
        let defaults = default_exclude_patterns();
        env = without_matching(&env, &defaults);
    }
    if policy.exclude.len() > 0 {
        env = without_matching(&env, &policy.exclude);
    }
    env.extend_from(&policy.set);
    if policy.include_only.len() > 0 {
        env = only_matching(&env, &policy.include_only, &policy.set);
    }
    assert(env@ =~= resolved_env(policy@, ambient@));
    env
}

/// The environment derived stage by stage: seed, default exclusions,
/// explicit exclusions, explicit sets, allowlist.
pub open spec fn staged_env(
    p: ShellEnvironmentPolicyView,
    ambient: Map<Seq<char>, Seq<char>>,
) -> Map<Seq<char>, Seq<char>> {
    let seed = keep_where(ambient, |k: Seq<char>| seeded(p.inherit, k));
    let safe = if p.ignore_default_excludes {
        seed
    } else {
        keep_where(seed, |k: Seq<char>| !matches_any(default_excludes(), k))
    };
    let kept = keep_where(safe, |k: Seq<char>| !matches_any(p.exclude, k));
    let with_sets = kept.union_prefer_right(p.set);
    if p.include_only.len() == 0 {
        with_sets
    } else {
        keep_where(
            with_sets,
            |k: Seq<char>| p.set.contains_key(k) || matches_any(p.include_only, k),
        )
    }
}

/// Running the five stages in order gives the derived environment.
pub proof fn lemma_staged_env(p: ShellEnvironmentPolicyView, ambient: Map<Seq<char>, Seq<char>>)
    ensures
        staged_env(p, ambient) == resolved_env(p, ambient),
{
    assert(staged_env(p, ambient) =~= resolved_env(p, ambient));
}

/// A variable that the policy sets is in the derived environment with the
/// value that the policy gives it, whatever the patterns say.
pub proof fn lemma_set_is_kept(
    p: ShellEnvironmentPolicyView,
    ambient: Map<Seq<char>, Seq<char>>,
    name: Seq<char>,
)
    requires
        p.set.contains_key(name),
    ensures
        resolved_env(p, ambient).contains_key(name),
        resolved_env(p, ambient)[name] == p.set[name],
{
}

/// A variable that the policy does not set reaches the derived environment
/// only from the spawning process, with its value there, and only where no
/// exclusion in force applies to its name.
pub proof fn lemma_inherited_only_if_not_excluded(
    p: ShellEnvironmentPolicyView,
    ambient: Map<Seq<char>, Seq<char>>,
    name: Seq<char>,
)
    requires
        !p.set.contains_key(name),
        resolved_env(p, ambient).contains_key(name),
    ensures
        ambient.contains_key(name),
        resolved_env(p, ambient)[name] == ambient[name],
        seeded(p.inherit, name),
        !matches_any(p.exclude, name),
        p.ignore_default_excludes || !matches_any(default_excludes(), name),
        p.include_only.len() > 0 ==> matches_any(p.include_only, name),
{
}

/// A policy that leaves everything out passes on exactly the variables of
/// the spawning process whose names do not look like credentials.
pub proof fn lemma_default_policy(ambient: Map<Seq<char>, Seq<char>>)
    ensures
        resolved_env(
            policy_of(
                ShellEnvironmentPolicyTomlView {
                    inherit: None,
                    ignore_default_excludes: None,
                    exclude: None,
                    set: None,
                    include_only: None,
                    experimental_use_profile: None,
                },
            ),
            ambient,
        ) == keep_where(ambient, |k: Seq<char>| !matches_any(default_excludes(), k)),
{
    let p = policy_of(
        ShellEnvironmentPolicyTomlView {
            inherit: None,
            ignore_default_excludes: None,
            exclude: None,
            set: None,
            include_only: None,
            experimental_use_profile: None,
        },
    );
    assert(resolved_env(p, ambient) =~= keep_where(
        ambient,
        |k: Seq<char>| !matches_any(default_excludes(), k),
    ));
}

} // verus!
