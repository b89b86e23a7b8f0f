//! Final argument resolution: merging command line, process environment
//! and traversed configuration into the values a run or a secret lookup
//! uses, with strict precedence.
//!
//! Precedence is command line over environment over configuration,
//! computed as `config.merge(env.merge(cli))` where the replacing side's
//! set fields win.  Environment lists merge key-wise across all three
//! sources with the same precedence.

use vstd::prelude::*;
use vstd::string::StrSliceExecFns;
use vstd::string::StringExecFns;

use crate::next::config::opt_str_view;
use crate::next::config::vars_views;
use crate::next::config::ArgumentConfig;
use crate::next::config::ArgumentConfigV;
use crate::next::config::Config;
use crate::next::config::ConfigScope;
use crate::next::config::ConfigScopeV;
use crate::next::config::ConfigV;
use crate::next::config::ConfigVar;
use crate::next::config::ConfigVarV;
use crate::next::config::spec_merge_opt;
use crate::next::config::spec_merge_vars;
use crate::next::config::spec_overwrite;
use crate::next::config::spec_overwrite_arguments;
use crate::next::state::spec_local_root;
use crate::next::state::ResolveState;
use crate::paths::AbsPath;
use crate::strutil::str_eq;

verus! {

/// One environment variable of the calling process.
pub struct EnvPair {
    pub key: String,
    pub value: String,
}

pub ghost struct EnvPairV {
    pub key: Seq<char>,
    pub value: Seq<char>,
}

impl View for EnvPair {
    type V = EnvPairV;

    open spec fn view(&self) -> EnvPairV {
        EnvPairV { key: self.key@, value: self.value@ }
    }
}

pub open spec fn env_views(v: Seq<EnvPair>) -> Seq<EnvPairV> {
    v.map_values(|p: EnvPair| p@)
}

/// Scope arguments as one source supplies them.
pub struct SecretScopeArguments {
    pub name: Option<String>,
    pub sub: Option<String>,
    pub service: Option<String>,
    pub require_hash: Option<bool>,
}

#[verifier::ext_equal]
pub ghost struct SecretScopeArgumentsV {
    pub name: Option<Seq<char>>,
    pub sub: Option<Seq<char>>,
    pub service: Option<Seq<char>>,
    pub require_hash: Option<bool>,
}

impl View for SecretScopeArguments {
    type V = SecretScopeArgumentsV;

    open spec fn view(&self) -> SecretScopeArgumentsV {
        SecretScopeArgumentsV {
            name: opt_str_view(self.name),
            sub: opt_str_view(self.sub),
            service: opt_str_view(self.service),
            require_hash: self.require_hash,
        }
    }
}

/// The scope arguments no source has set yet.
pub open spec fn spec_scope_args_default() -> SecretScopeArgumentsV {
    SecretScopeArgumentsV { name: None, sub: None, service: None, require_hash: None }
}

/// Merge of scope arguments: each field the replacing side sets wins.
pub open spec fn spec_scope_merge(a: SecretScopeArgumentsV, b: SecretScopeArgumentsV)
    -> SecretScopeArgumentsV {
    SecretScopeArgumentsV {
        name: spec_overwrite(a.name, b.name),
        sub: spec_overwrite(a.sub, b.sub),
        service: spec_overwrite(a.service, b.service),
        require_hash: spec_overwrite(a.require_hash, b.require_hash),
    }
}

/// The scope arguments a configured scope supplies.
pub open spec fn spec_scope_args_from(v: ConfigScopeV) -> SecretScopeArgumentsV {
    SecretScopeArgumentsV {
        name: v.name,
        sub: v.sub,
        service: v.service,
        require_hash: v.require_hash,
    }
}

impl SecretScopeArguments {
    /// Scope arguments with nothing set.
    pub fn new_default() -> (r: SecretScopeArguments)
        ensures
            r@ == spec_scope_args_default(),
    {
        SecretScopeArguments { name: None, sub: None, service: None, require_hash: None }
    }

    /// Merges another source over this one; the other side's set fields
    /// win.
    pub fn merge(self, other: SecretScopeArguments) -> (r: SecretScopeArguments)
        ensures
            r@ == spec_scope_merge(self@, other@),
    {
        SecretScopeArguments {
            name: crate::next::config::overwrite_option(self.name, other.name),
            sub: crate::next::config::overwrite_option(self.sub, other.sub),
            service: crate::next::config::overwrite_option(self.service, other.service),
            require_hash: crate::next::config::overwrite_option(
                self.require_hash,
                other.require_hash,
            ),
        }
    }

    /// The scope arguments a configured scope supplies.
    pub fn from_scope(value: ConfigScope) -> (r: SecretScopeArguments)
        ensures
            r@ == spec_scope_args_from(value@),
    {
        SecretScopeArguments {
            name: value.name,
            sub: value.sub,
            service: value.service,
            require_hash: value.require_hash,
        }
    }
}

/// Run arguments as one source supplies them; paths are already resolved
/// against the directory the source belongs to.
pub struct RunArguments {
    pub executable: Option<AbsPath>,
    pub execution_path: Option<AbsPath>,
    pub envs: Vec<ConfigVar>,
    pub scope_args: SecretScopeArguments,
}

#[verifier::ext_equal]
pub ghost struct RunArgumentsV {
    pub executable: Option<Seq<Seq<char>>>,
    pub execution_path: Option<Seq<Seq<char>>>,
    pub envs: Seq<ConfigVarV>,
    pub scope_args: SecretScopeArgumentsV,
}

pub open spec fn opt_path_view(o: Option<AbsPath>) -> Option<Seq<Seq<char>>> {
    match o {
        Some(p) => Some(p@),
        None => None,
    }
}

impl View for RunArguments {
    type V = RunArgumentsV;

    open spec fn view(&self) -> RunArgumentsV {
        RunArgumentsV {
            executable: opt_path_view(self.executable),
            execution_path: opt_path_view(self.execution_path),
            envs: vars_views(self.envs@),
            scope_args: self.scope_args@,
        }
    }
}

/// The run arguments no source has set yet.
pub open spec fn spec_run_args_default() -> RunArgumentsV {
    RunArgumentsV {
        executable: None,
        execution_path: None,
        envs: Seq::empty(),
        scope_args: spec_scope_args_default(),
    }
}

/// Merge of run arguments: set scalar fields of the replacing side win,
/// environment lists merge key-wise, scopes merge field-wise.
pub open spec fn spec_run_merge(a: RunArgumentsV, b: RunArgumentsV) -> RunArgumentsV {
    RunArgumentsV {
        executable: spec_overwrite(a.executable, b.executable),
        execution_path: spec_overwrite(a.execution_path, b.execution_path),
        envs: spec_merge_vars(a.envs, b.envs),
        scope_args: spec_scope_merge(a.scope_args, b.scope_args),
    }
}

/// A configured path resolved against the directory it was found in:
/// absolute stays, relative joins.
pub open spec fn spec_resolved_path(s: Seq<char>, root: Seq<Seq<char>>) -> Seq<Seq<char>> {
    spec_local_root(s, root)
}

/// The run arguments one configuration's `argument` section supplies,
/// its paths resolved against the directory it was found in.
pub open spec fn spec_run_args_from(v: ArgumentConfigV, root: Seq<Seq<char>>) -> RunArgumentsV {
    RunArgumentsV {
        executable: match v.executable {
            Some(s) => Some(spec_resolved_path(s, root)),
            None => None,
        },
        execution_path: match v.execution_path {
            Some(s) => Some(spec_resolved_path(s, root)),
            None => None,
        },
        envs: match v.envs {
            Some(e) => e,
            None => Seq::empty(),
        },
        scope_args: match v.scope {
            Some(s) => spec_scope_args_from(s),
            None => spec_scope_args_default(),
        },
    }
}

impl RunArguments {
    /// Run arguments with nothing set.
    pub fn new_default() -> (r: RunArguments)
        ensures
            r@ == spec_run_args_default(),
    {
        let r = RunArguments {
            executable: None,
            execution_path: None,
            envs: Vec::new(),
            scope_args: SecretScopeArguments::new_default(),
        };
        proof {
            assert(vars_views(r.envs@) =~= Seq::<ConfigVarV>::empty());
        }
        r
    }

    /// Merges another source over this one; the other side's set fields
    /// win, environment lists merge key-wise.
    pub fn merge(self, other: RunArguments) -> (r: RunArguments)
        ensures
            r@ == spec_run_merge(self@, other@),
    {
        RunArguments {
            executable: crate::next::config::overwrite_option(self.executable, other.executable),
            execution_path: crate::next::config::overwrite_option(
                self.execution_path,
                other.execution_path,
            ),
            envs: crate::next::config::merge_vars(self.envs, other.envs),
            scope_args: self.scope_args.merge(other.scope_args),
        }
    }

    /// The run arguments one configuration supplies, paths resolved
    /// against the directory it was found in.
    pub fn from_config(value: ArgumentConfig, resolve_root: &AbsPath) -> (r: RunArguments)
        ensures
            r@ == spec_run_args_from(value@, resolve_root@),
    {
        let ArgumentConfig { scope, executable, execution_path, envs } = value;
        RunArguments {
            executable: match executable {
                Some(s) => Some(resolved_path(s.as_str(), resolve_root)),
                None => None,
            },
            execution_path: match execution_path {
                Some(s) => Some(resolved_path(s.as_str(), resolve_root)),
                None => None,
            },
            envs: match envs {
                Some(e) => e,
                None => {
                    let e: Vec<ConfigVar> = Vec::new();
                    proof {
                        assert(vars_views(e@) =~= Seq::<ConfigVarV>::empty());
                    }
                    e
                },
            },
            scope_args: match scope {
                Some(s) => SecretScopeArguments::from_scope(s),
                None => SecretScopeArguments::new_default(),
            },
        }
    }
}

/// Resolves a configured path string against a root directory.
pub fn resolved_path(s: &str, root: &AbsPath) -> (r: AbsPath)
    ensures
        r@ == spec_resolved_path(s@, root@),
{
    match AbsPath::parse_path(s) {
        crate::paths::ParsedPath::Absolute(a) => a,
        crate::paths::ParsedPath::Relative(rel) => root.join_rel(&rel),
    }
}

/// Secret arguments as one source supplies them.
pub struct SecretArguments {
    pub key: String,
    pub scope_args: SecretScopeArguments,
}

pub ghost struct SecretArgumentsV {
    pub key: Seq<char>,
    pub scope_args: SecretScopeArgumentsV,
}

impl View for SecretArguments {
    type V = SecretArgumentsV;

    open spec fn view(&self) -> SecretArgumentsV {
        SecretArgumentsV { key: self.key@, scope_args: self.scope_args@ }
    }
}

/// The fully resolved scope a secret lives in.
#[derive(Debug)]
pub struct SecretScope {
    pub service: String,
    pub name: String,
    pub sub: String,
    pub hash: String,
}

pub ghost struct SecretScopeV {
    pub service: Seq<char>,
    pub name: Seq<char>,
    pub sub: Seq<char>,
    pub hash: Seq<char>,
}

impl View for SecretScope {
    type V = SecretScopeV;

    open spec fn view(&self) -> SecretScopeV {
        SecretScopeV { service: self.service@, name: self.name@, sub: self.sub@, hash: self.hash@ }
    }
}

/// The fully resolved values a run uses.
#[derive(Debug)]
pub struct RunResolved {
    pub executable: AbsPath,
    pub execution_path: AbsPath,
    pub envs: Vec<ConfigVar>,
    pub scope: SecretScope,
}

#[verifier::ext_equal]
pub ghost struct RunResolvedV {
    pub executable: Seq<Seq<char>>,
    pub execution_path: Seq<Seq<char>>,
    pub envs: Seq<ConfigVarV>,
    pub scope: SecretScopeV,
}

impl View for RunResolved {
    type V = RunResolvedV;

    open spec fn view(&self) -> RunResolvedV {
        RunResolvedV {
            executable: self.executable@,
            execution_path: self.execution_path@,
            envs: vars_views(self.envs@),
            scope: self.scope@,
        }
    }
}

/// The fully resolved values a secret lookup uses.
#[derive(Debug)]
pub struct SecretResolved {
    pub key: String,
    pub scope: SecretScope,
}

pub ghost struct SecretResolvedV {
    pub key: Seq<char>,
    pub scope: SecretScopeV,
}

impl View for SecretResolved {
    type V = SecretResolvedV;

    open spec fn view(&self) -> SecretResolvedV {
        SecretResolvedV { key: self.key@, scope: self.scope@ }
    }
}

/// The scope arguments the process environment supplies: the last value
/// of each `TIDPLOY_SECRET_*` variable, a nonempty `REQUIRE_HASH` value
/// standing for true.
pub open spec fn spec_env_scope(vars: Seq<EnvPairV>) -> SecretScopeArgumentsV
    decreases vars.len(),
{
    if vars.len() == 0 {
        spec_scope_args_default()
    } else {
        let prev = spec_env_scope(vars.drop_last());
        let p = vars.last();
        if p.key == "TIDPLOY_SECRET_SCOPE_NAME"@ {
            SecretScopeArgumentsV { name: Some(p.value), ..prev }
        } else if p.key == "TIDPLOY_SECRET_SCOPE_SUB"@ {
            SecretScopeArgumentsV { sub: Some(p.value), ..prev }
        } else if p.key == "TIDPLOY_SECRET_SERVICE"@ {
            SecretScopeArgumentsV { service: Some(p.value), ..prev }
        } else if p.key == "TIDPLOY_SECRET_REQUIRE_HASH"@ {
            SecretScopeArgumentsV { require_hash: Some(p.value.len() > 0), ..prev }
        } else {
            prev
        }
    }
}

/// Reads the secret-scope variables out of the process environment,
/// handed in as plain pairs.
pub fn env_scope_args(vars: &Vec<EnvPair>) -> (r: SecretScopeArguments)
    ensures
        r@ == spec_env_scope(env_views(vars@)),
{
    let mut r = SecretScopeArguments::new_default();
    let mut i: usize = 0;
    proof {
        assert(env_views(vars@).take(0) =~= Seq::<EnvPairV>::empty());
    }
    while i < vars.len()
        invariant
            i <= vars@.len(),
            r@ == spec_env_scope(env_views(vars@).take(i as int)),
        decreases vars@.len() - i,
    {
        proof {
            assert(env_views(vars@).take(i as int + 1).drop_last() =~= env_views(vars@).take(
                i as int,
            ));
            assert(env_views(vars@).take(i as int + 1).last() == vars@[i as int]@);
        }
        let p = &vars[i];
        if str_eq(p.key.as_str(), "TIDPLOY_SECRET_SCOPE_NAME") {
            r.name = Some(p.value.clone());
        } else if str_eq(p.key.as_str(), "TIDPLOY_SECRET_SCOPE_SUB") {
            r.sub = Some(p.value.clone());
        } else if str_eq(p.key.as_str(), "TIDPLOY_SECRET_SERVICE") {
            r.service = Some(p.value.clone());
        } else if str_eq(p.key.as_str(), "TIDPLOY_SECRET_REQUIRE_HASH") {
            r.require_hash = Some(p.value.as_str().unicode_len() > 0);
        }
        i = i + 1;
    }
    proof {
        assert(env_views(vars@).take(vars@.len() as int) =~= env_views(vars@));
    }
    r
}

/// The secret arguments the environment supplies.  The key cannot be set
/// from the environment, so it starts empty and a later source always
/// replaces it.
pub fn env_secret_args(vars: &Vec<EnvPair>) -> (r: SecretArguments)
    ensures
        r@.key == Seq::<char>::empty(),
        r@.scope_args == spec_env_scope(env_views(vars@)),
{
    let key = String::new();
    proof {
        assert(key@ =~= Seq::<char>::empty());
    }
    SecretArguments { key, scope_args: env_scope_args(vars) }
}

/// The last value of the named environment variable, if any.
pub open spec fn spec_env_last(vars: Seq<EnvPairV>, key: Seq<char>) -> Option<Seq<char>>
    decreases vars.len(),
{
    if vars.len() == 0 {
        None
    } else if vars.last().key == key {
        Some(vars.last().value)
    } else {
        spec_env_last(vars.drop_last(), key)
    }
}

/// The view of a resolved optional path string.
pub open spec fn spec_opt_resolved(o: Option<Seq<char>>, root: Seq<Seq<char>>) -> Option<
    Seq<Seq<char>>,
> {
    match o {
        Some(s) => Some(spec_resolved_path(s, root)),
        None => None,
    }
}

/// The run arguments the environment supplies: the last value of each
/// `TIDPLOY_RUN_*` variable, resolved against the resolution root, plus
/// the environment's scope arguments; no secret variables.
pub open spec fn spec_env_run(vars: Seq<EnvPairV>, root: Seq<Seq<char>>) -> RunArgumentsV {
    RunArgumentsV {
        executable: spec_opt_resolved(spec_env_last(vars, "TIDPLOY_RUN_EXECUTABLE"@), root),
        execution_path: spec_opt_resolved(
            spec_env_last(vars, "TIDPLOY_RUN_EXECUTION_PATH"@),
            root,
        ),
        envs: Seq::empty(),
        scope_args: spec_env_scope(vars),
    }
}

/// Reads the run variables out of the process environment.  The
/// environment cannot supply secret variables, so the list stays empty
/// and a later source always replaces it.
pub fn env_run_args(resolve_root: &AbsPath, vars: &Vec<EnvPair>) -> (r: RunArguments)
    ensures
        r@ == spec_env_run(env_views(vars@), resolve_root@),
{
    let scope_args = env_scope_args(vars);
    let mut r = RunArguments {
        executable: None,
        execution_path: None,
        envs: Vec::new(),
        scope_args,
    };
    let mut i: usize = 0;
    proof {
        assert(env_views(vars@).take(0) =~= Seq::<EnvPairV>::empty());
        assert(vars_views(r.envs@) =~= Seq::<ConfigVarV>::empty());
        assert(env_views(vars@).take(vars@.len() as int) =~= env_views(vars@));
    }
    while i < vars.len()
        invariant
            i <= vars@.len(),
            r@.scope_args == spec_env_scope(env_views(vars@)),
            r@.envs == Seq::<ConfigVarV>::empty(),
            r@.executable == spec_opt_resolved(
                spec_env_last(env_views(vars@).take(i as int), "TIDPLOY_RUN_EXECUTABLE"@),
                resolve_root@,
            ),
            r@.execution_path == spec_opt_resolved(
                spec_env_last(env_views(vars@).take(i as int), "TIDPLOY_RUN_EXECUTION_PATH"@),
                resolve_root@,
            ),
        decreases vars@.len() - i,
    {
        proof {
            reveal_strlit("TIDPLOY_RUN_EXECUTABLE");
            reveal_strlit("TIDPLOY_RUN_EXECUTION_PATH");
            assert("TIDPLOY_RUN_EXECUTABLE"@.len() != "TIDPLOY_RUN_EXECUTION_PATH"@.len());
            assert(env_views(vars@).take(i as int + 1).drop_last() =~= env_views(vars@).take(
                i as int,
            ));
            assert(env_views(vars@).take(i as int + 1).last() == vars@[i as int]@);
        }
        let p = &vars[i];
        if str_eq(p.key.as_str(), "TIDPLOY_RUN_EXECUTABLE") {
            r.executable = Some(resolved_path(p.value.as_str(), resolve_root));
        } else if str_eq(p.key.as_str(), "TIDPLOY_RUN_EXECUTION_PATH") {
            r.execution_path = Some(resolved_path(p.value.as_str(), resolve_root));
        }
        i = i + 1;
    }
    proof {
        let full = spec_env_run(env_views(vars@), resolve_root@);
        assert(r@ =~~= full);
    }
    r
}

/// The fully resolved scope: explicit values win, the state's derived
/// name and sub fill the gaps, the service defaults, and the hash is the
/// resolved commit only when the scope demands it.
pub open spec fn spec_resolve_scope(
    s: SecretScopeArgumentsV,
    name: Seq<char>,
    sub: Seq<char>,
    hash: Seq<char>,
) -> SecretScopeV {
    SecretScopeV {
        service: match s.service {
            Some(v) => v,
            None => "tidploy"@,
        },
        name: match s.name {
            Some(v) => v,
            None => name,
        },
        sub: match s.sub {
            Some(v) => v,
            None => sub,
        },
        hash: if s.require_hash == Some(true) {
            hash
        } else {
            "tidploy_default_hash"@
        },
    }
}

/// Resolves scope arguments to a concrete scope, defaulting name and sub
/// from the resolved state and pinning the hash only when required.
pub fn resolve_scope(scope_args: SecretScopeArguments, name: &str, sub: &str, hash: &str) -> (r:
    SecretScope)
    ensures
        r@ == spec_resolve_scope(scope_args@, name@, sub@, hash@),
{
    SecretScope {
        service: match scope_args.service {
            Some(v) => v,
            None => String::from_str("tidploy"),
        },
        name: match scope_args.name {
            Some(v) => v,
            None => name.to_owned(),
        },
        sub: match scope_args.sub {
            Some(v) => v,
            None => sub.to_owned(),
        },
        hash: match scope_args.require_hash {
            Some(true) => hash.to_owned(),
            _ => String::from_str("tidploy_default_hash"),
        },
    }
}

/// The chain of `argument` sections merged deepest-last.
pub open spec fn spec_arg_chain(cs: Seq<ConfigV>) -> Option<ArgumentConfigV>
    decreases cs.len(),
{
    if cs.len() == 0 {
        None
    } else {
        spec_merge_opt(
            spec_arg_chain(cs.drop_last()),
            cs.last().argument,
            |a: ArgumentConfigV, b: ArgumentConfigV| spec_overwrite_arguments(a, b),
        )
    }
}

/// Merges the `argument` sections of a configuration chain, the deepest
/// one last and winning.
pub fn traverse_arg_configs(configs: &Vec<Config>) -> (r: Option<ArgumentConfig>)
    ensures
        crate::next::config::opt_arg_view(r) == spec_arg_chain(
            crate::next::config::configs_views(configs@),
        ),
{
    let ghost cvs = crate::next::config::configs_views(configs@);
    let mut acc: Option<ArgumentConfig> = None;
    let mut i: usize = 0;
    proof {
        assert(cvs.take(0) =~= Seq::<ConfigV>::empty());
    }
    while i < configs.len()
        invariant
            i <= configs@.len(),
            cvs == crate::next::config::configs_views(configs@),
            crate::next::config::opt_arg_view(acc) == spec_arg_chain(cvs.take(i as int)),
        decreases configs@.len() - i,
    {
        proof {
            assert(cvs.take(i as int + 1).drop_last() =~= cvs.take(i as int));
            assert(cvs.take(i as int + 1).last() == configs@[i as int]@);
        }
        let c = configs[i].dup();
        acc = crate::next::config::overwrite_arg_config(acc, c.argument);
        i = i + 1;
    }
    proof {
        assert(cvs.take(configs@.len() as int) =~= cvs);
    }
    acc
}

pub open spec fn opt_run_view(o: Option<RunArguments>) -> Option<RunArgumentsV> {
    match o {
        Some(r) => Some(r@),
        None => None,
    }
}

/// The chain of per-directory run arguments merged deepest-last, each
/// configuration's paths resolved against its own directory.
pub open spec fn spec_run_chain(dirs: Seq<Seq<Seq<char>>>, cs: Seq<ConfigV>) -> Option<
    RunArgumentsV,
>
    decreases cs.len(),
{
    if cs.len() == 0 {
        None
    } else {
        spec_merge_opt(
            spec_run_chain(dirs.drop_last(), cs.drop_last()),
            match cs.last().argument {
                Some(a) => Some(spec_run_args_from(a, dirs.last())),
                None => None,
            },
            |a: RunArgumentsV, b: RunArgumentsV| spec_run_merge(a, b),
        )
    }
}

/// Merges the run arguments of a configuration chain, the deepest one
/// last and winning; each configuration's paths resolve against the
/// directory it was read from.
pub fn traverse_args(dirs: &Vec<AbsPath>, configs: &Vec<Config>) -> (r: Option<RunArguments>)
    requires
        dirs@.len() == configs@.len(),
    ensures
        opt_run_view(r) == spec_run_chain(
            crate::next::state::abs_views(dirs@),
            crate::next::config::configs_views(configs@),
        ),
{
    let ghost cvs = crate::next::config::configs_views(configs@);
    let ghost dvs = crate::next::state::abs_views(dirs@);
    let mut acc: Option<RunArguments> = None;
    let mut i: usize = 0;
    proof {
        assert(cvs.take(0) =~= Seq::<ConfigV>::empty());
    }
    while i < configs.len()
        invariant
            i <= configs@.len(),
            dirs@.len() == configs@.len(),
            cvs == crate::next::config::configs_views(configs@),
            dvs == crate::next::state::abs_views(dirs@),
            opt_run_view(acc) == spec_run_chain(dvs.take(i as int), cvs.take(i as int)),
        decreases configs@.len() - i,
    {
        proof {
            assert(cvs.take(i as int + 1).drop_last() =~= cvs.take(i as int));
            assert(cvs.take(i as int + 1).last() == configs@[i as int]@);
            assert(dvs.take(i as int + 1).drop_last() =~= dvs.take(i as int));
            assert(dvs.take(i as int + 1).last() == dirs@[i as int]@);
        }
        let c = configs[i].dup();
        let here: Option<RunArguments> = match c.argument {
            Some(a) => Some(RunArguments::from_config(a, &dirs[i])),
            None => None,
        };
        let merge_fn = |a: RunArguments, b: RunArguments| -> (m: RunArguments)
            ensures
                m@ == spec_run_merge(a@, b@),
            { a.merge(b) };
        acc = crate::next::config::merge_option(acc, here, merge_fn);
        i = i + 1;
    }
    proof {
        assert(cvs.take(configs@.len() as int) =~= cvs);
        assert(dvs.take(dirs@.len() as int) =~= dvs);
    }
    acc
}

/// The directories argument resolution traverses: the resolution root,
/// followed by one directory per segment of the state path.
pub open spec fn spec_run_dirs(rs: crate::next::state::ResolveStateV) -> Seq<Seq<Seq<char>>> {
    seq![rs.resolve_root] + Seq::new(rs.state_path.len() as nat, |i: int|
        crate::paths::spec_fold_abs(rs.resolve_root, rs.state_path.take(i + 1)))
}

/// The fully resolved run values: configuration merged below environment
/// merged below the command line, the execution path defaulting to the
/// resolution root, and the executable defaulting to `entrypoint.sh` in
/// the execution path.
pub open spec fn spec_resolve_run(
    rs: crate::next::state::ResolveStateV,
    cli: RunArgumentsV,
    env: Seq<EnvPairV>,
    cs: Seq<ConfigV>,
) -> RunResolvedV {
    let merged = spec_run_merge(spec_env_run(env, rs.resolve_root), cli);
    let config_args = match spec_run_chain(spec_run_dirs(rs), cs) {
        Some(c) => c,
        None => spec_run_args_default(),
    };
    let fin = spec_run_merge(config_args, merged);
    let scope = spec_resolve_scope(fin.scope_args, rs.name, rs.sub, rs.hash);
    let execution_path = match fin.execution_path {
        Some(p) => p,
        None => rs.resolve_root,
    };
    RunResolvedV {
        executable: match fin.executable {
            Some(e) => e,
            None => execution_path.push("entrypoint.sh"@),
        },
        execution_path,
        envs: fin.envs,
        scope,
    }
}

/// What resolving run arguments yields: the resolved values, or the
/// rendered path of a directory whose configuration is still needed.
pub enum RunResolution {
    Done(RunResolved),
    NeedConfig(String),
}

/// Resolves the final run values for a converged state: command line
/// wins over environment wins over traversed configuration, with the
/// documented defaults.
pub fn resolve_run(
    resolve_state: &ResolveState,
    cli_args: RunArguments,
    env_vars: &Vec<EnvPair>,
    cfgs: &crate::next::state::ConfigLookup,
) -> (r: RunResolution)
    ensures
        ({
            let dirs = spec_run_dirs(resolve_state@);
            match crate::next::state::spec_first_missing(dirs, cfgs@) {
                Some(d) => r matches RunResolution::NeedConfig(ds) && ds@
                    == crate::paths::spec_abs_str(d),
                None => r matches RunResolution::Done(rr) && rr@ == spec_resolve_run(
                    resolve_state@,
                    cli_args@,
                    env_views(env_vars@),
                    crate::next::state::spec_dir_configs(dirs, cfgs@),
                ),
            }
        }),
{
    let mut dirs: Vec<AbsPath> = Vec::new();
    dirs.push(resolve_state.resolve_root.dup());
    let mut comps = resolve_state.resolve_root.component_paths(&resolve_state.state_path);
    dirs.append(&mut comps);
    proof {
        assert(crate::next::state::abs_views(dirs@) =~= spec_run_dirs(resolve_state@));
    }
    let configs = match crate::next::state::gather_configs(&dirs, cfgs) {
        Err(d) => {
            return RunResolution::NeedConfig(d);
        },
        Ok(c) => c,
    };
    proof {
        assert(crate::next::config::configs_views(configs@).len() == configs@.len());
        assert(crate::next::state::abs_views(dirs@).len() == dirs@.len());
    }
    let run_args_env = env_run_args(&resolve_state.resolve_root, env_vars);
    let merged_args = run_args_env.merge(cli_args);
    let config_args = match traverse_args(&dirs, &configs) {
        Some(c) => c,
        None => RunArguments::new_default(),
    };
    let final_args = config_args.merge(merged_args);
    let scope = resolve_scope(
        final_args.scope_args,
        resolve_state.name.as_str(),
        resolve_state.sub.as_str(),
        resolve_state.hash.as_str(),
    );
    let execution_path = match final_args.execution_path {
        Some(p) => p,
        None => resolve_state.resolve_root.dup(),
    };
    let executable = match final_args.executable {
        Some(e) => e,
        None => execution_path.child("entrypoint.sh"),
    };
    RunResolution::Done(
        RunResolved { executable, execution_path, envs: final_args.envs, scope },
    )
}

/// The secret arguments after environment and configuration are folded
/// in: explicit arguments win over the environment, both win over the
/// traversed configuration's scope.
pub open spec fn spec_merge_env_config(
    sa: SecretArgumentsV,
    env: Seq<EnvPairV>,
    cs: Seq<ConfigV>,
) -> SecretArgumentsV {
    let merged_scope = spec_scope_merge(spec_env_scope(env), sa.scope_args);
    let config_scope = match spec_arg_chain(cs) {
        Some(a) => match a.scope {
            Some(s) => spec_scope_args_from(s),
            None => spec_scope_args_default(),
        },
        None => spec_scope_args_default(),
    };
    SecretArgumentsV { key: sa.key, scope_args: spec_scope_merge(config_scope, merged_scope) }
}

/// What merging secret arguments yields: the merged arguments, or the
/// rendered path of a directory whose configuration is still needed.
pub enum SecretArgsResolution {
    Done(SecretArguments),
    NeedConfig(String),
}

impl SecretArguments {
    /// Folds the environment and the traversed configuration into these
    /// arguments with command line over environment over configuration
    /// precedence.
    pub fn merge_env_config(
        self,
        resolve_root: &AbsPath,
        state_path: &crate::paths::RelPath,
        env_vars: &Vec<EnvPair>,
        cfgs: &crate::next::state::ConfigLookup,
    ) -> (r: SecretArgsResolution)
        ensures
            ({
                let dirs = spec_run_dirs(
                    crate::next::state::ResolveStateV {
                        state_root: resolve_root@,
                        state_path: state_path@,
                        resolve_root: resolve_root@,
                        name: Seq::empty(),
                        sub: Seq::empty(),
                        hash: Seq::empty(),
                    },
                );
                match crate::next::state::spec_first_missing(dirs, cfgs@) {
                    Some(d) => r matches SecretArgsResolution::NeedConfig(ds) && ds@
                        == crate::paths::spec_abs_str(d),
                    None => r matches SecretArgsResolution::Done(sa) && sa@
                        == spec_merge_env_config(
                        self@,
                        env_views(env_vars@),
                        crate::next::state::spec_dir_configs(dirs, cfgs@),
                    ),
                }
            }),
    {
        let mut dirs: Vec<AbsPath> = Vec::new();
        dirs.push(resolve_root.dup());
        let mut comps = resolve_root.component_paths(state_path);
        dirs.append(&mut comps);
        proof {
            assert(crate::next::state::abs_views(dirs@) =~= spec_run_dirs(
                crate::next::state::ResolveStateV {
                    state_root: resolve_root@,
                    state_path: state_path@,
                    resolve_root: resolve_root@,
                    name: Seq::empty(),
                    sub: Seq::empty(),
                    hash: Seq::empty(),
                },
            ));
        }
        let configs = match crate::next::state::gather_configs(&dirs, cfgs) {
            Err(d) => {
                return SecretArgsResolution::NeedConfig(d);
            },
            Ok(c) => c,
        };
        let env_args = env_scope_args(env_vars);
        let merged_scope = env_args.merge(self.scope_args);
        let config_scope = match traverse_arg_configs(&configs) {
            Some(a) => match a.scope {
                Some(s) => SecretScopeArguments::from_scope(s),
                None => SecretScopeArguments::new_default(),
            },
            None => SecretScopeArguments::new_default(),
        };
        SecretArgsResolution::Done(
            SecretArguments { key: self.key, scope_args: config_scope.merge(merged_scope) },
        )
    }

    /// Resolves these arguments to the final secret lookup values.
    pub fn resolve(self, name: &str, sub: &str, hash: &str) -> (r: SecretResolved)
        ensures
            r@.key == self@.key,
            r@.scope == spec_resolve_scope(self@.scope_args, name@, sub@, hash@),
    {
        let SecretArguments { key, scope_args } = self;
        SecretResolved { key, scope: resolve_scope(scope_args, name, sub, hash) }
    }
}

/// Merge precedence (law): with precedence computed as
/// `config.merge(env.merge(cli))`, every scalar field takes the command
/// line's value when the command line sets it, else the environment's
/// when the environment sets it, else the configuration's.
pub proof fn lemma_merge_precedence(cfg: RunArgumentsV, env: RunArgumentsV, cli: RunArgumentsV)
    ensures
        ({
            let m = spec_run_merge(cfg, spec_run_merge(env, cli));
            &&& m.executable == (if cli.executable is Some {
                cli.executable
            } else if env.executable is Some {
                env.executable
            } else {
                cfg.executable
            })
            &&& m.execution_path == (if cli.execution_path is Some {
                cli.execution_path
            } else if env.execution_path is Some {
                env.execution_path
            } else {
                cfg.execution_path
            })
            &&& m.scope_args.name == (if cli.scope_args.name is Some {
                cli.scope_args.name
            } else if env.scope_args.name is Some {
                env.scope_args.name
            } else {
                cfg.scope_args.name
            })
            &&& m.scope_args.sub == (if cli.scope_args.sub is Some {
                cli.scope_args.sub
            } else if env.scope_args.sub is Some {
                env.scope_args.sub
            } else {
                cfg.scope_args.sub
            })
            &&& m.scope_args.service == (if cli.scope_args.service is Some {
                cli.scope_args.service
            } else if env.scope_args.service is Some {
                env.scope_args.service
            } else {
                cfg.scope_args.service
            })
            &&& m.scope_args.require_hash == (if cli.scope_args.require_hash is Some {
                cli.scope_args.require_hash
            } else if env.scope_args.require_hash is Some {
                env.scope_args.require_hash
            } else {
                cfg.scope_args.require_hash
            })
        }),
{
}

/// The deepest set value of a chain of optional values.
pub open spec fn spec_last_set<T>(vals: Seq<Option<T>>) -> Option<T>
    decreases vals.len(),
{
    if vals.len() == 0 {
        None
    } else if vals.last() is Some {
        vals.last()
    } else {
        spec_last_set(vals.drop_last())
    }
}

/// Deepest wins (law): over any chain of configurations, the merged
/// `argument` section carries, for the executable and the execution
/// path, exactly the deepest value any configuration in the chain set;
/// when none sets a field it stays unset.
pub proof fn lemma_deepest_wins(cs: Seq<ConfigV>)
    ensures
        ({
            let r = spec_arg_chain(cs);
            let exes = cs.map_values(
                |c: ConfigV|
                    match c.argument {
                        Some(a) => a.executable,
                        None => None,
                    },
            );
            let exns = cs.map_values(
                |c: ConfigV|
                    match c.argument {
                        Some(a) => a.execution_path,
                        None => None,
                    },
            );
            &&& (r matches Some(a) ==> a.executable == spec_last_set(exes) && a.execution_path
                == spec_last_set(exns))
            &&& (r is None ==> spec_last_set(exes) is None && spec_last_set(exns) is None)
        }),
    decreases cs.len(),
{
    let exes = cs.map_values(
        |c: ConfigV|
            match c.argument {
                Some(a) => a.executable,
                None => None,
            },
    );
    let exns = cs.map_values(
        |c: ConfigV|
            match c.argument {
                Some(a) => a.execution_path,
                None => None,
            },
    );
    if cs.len() == 0 {
        assert(exes.len() == 0);
        assert(exns.len() == 0);
    } else {
        lemma_deepest_wins(cs.drop_last());
        assert(cs.drop_last().map_values(
            |c: ConfigV|
                match c.argument {
                    Some(a) => a.executable,
                    None => None,
                },
        ) =~= exes.drop_last());
        assert(cs.drop_last().map_values(
            |c: ConfigV|
                match c.argument {
                    Some(a) => a.execution_path,
                    None => None,
                },
        ) =~= exns.drop_last());
        assert(exes.last() == (match cs.last().argument {
            Some(a) => a.executable,
            None => None,
        }));
        assert(exns.last() == (match cs.last().argument {
            Some(a) => a.execution_path,
            None => None,
        }));
    }
}

} // verus!
