//! The flat resolution state of the original command set: its context,
//! the inputs the command line and the environment supply, and the merge
//! precedence between them and configuration.

use vstd::prelude::*;
use vstd::string::StrSliceExecFns;

use crate::config::DployConfig;
use crate::next::config::opt_str_view;
use crate::next::config::opt_str_dup;
use crate::next::config::vars_views;
use crate::next::config::ConfigVar;
use crate::next::config::ConfigVarV;
use crate::next::config::spec_merge_vars;
use crate::next::resolve::env_views;
use crate::next::resolve::spec_env_last;
use crate::next::resolve::EnvPair;
use crate::next::resolve::EnvPairV;
use crate::strutil::str_eq;
use crate::strutil::strip_prefix_str;

verus! {

/// The context resolution starts from: no enclosing project, the remote
/// of the enclosing Git repository, or that repository itself.
#[derive(Debug, Clone, Copy, PartialEq, Eq)]
pub enum StateContext {
    NoContext,
    GitRemote,
    GitLocal,
}

/// The context a name stands for, if any.
pub open spec fn spec_context_of(s: Seq<char>) -> Option<StateContext> {
    if s == "none"@ {
        Some(StateContext::NoContext)
    } else if s == "git_local"@ {
        Some(StateContext::GitLocal)
    } else if s == "git_remote"@ {
        Some(StateContext::GitRemote)
    } else {
        None
    }
}

impl StateContext {
    /// Parses a context name.
    pub fn from_str(s: &str) -> (r: Option<StateContext>)
        ensures
            r == spec_context_of(s@),
    {
        if str_eq(s, "none") {
            Some(StateContext::NoContext)
        } else if str_eq(s, "git_local") {
            Some(StateContext::GitLocal)
        } else if str_eq(s, "git_remote") {
            Some(StateContext::GitRemote)
        } else {
            None
        }
    }
}

/// The state inputs one source (command line or environment) supplies.
#[derive(Debug)]
pub struct CliEnvState {
    pub context: Option<StateContext>,
    pub repo_url: Option<String>,
    pub deploy_path: Option<String>,
    pub tag: Option<String>,
}

#[verifier::ext_equal]
pub ghost struct CliEnvStateV {
    pub context: Option<StateContext>,
    pub repo_url: Option<Seq<char>>,
    pub deploy_path: Option<Seq<char>>,
    pub tag: Option<Seq<char>>,
}

impl View for CliEnvState {
    type V = CliEnvStateV;

    open spec fn view(&self) -> CliEnvStateV {
        CliEnvStateV {
            context: self.context,
            repo_url: opt_str_view(self.repo_url),
            deploy_path: opt_str_view(self.deploy_path),
            tag: opt_str_view(self.tag),
        }
    }
}

/// The run inputs one source supplies.
#[derive(Debug)]
pub struct CliEnvRunState {
    pub envs: Vec<ConfigVar>,
    pub exe_name: Option<String>,
}

#[verifier::ext_equal]
pub ghost struct CliEnvRunStateV {
    pub envs: Seq<ConfigVarV>,
    pub exe_name: Option<Seq<char>>,
}

impl View for CliEnvRunState {
    type V = CliEnvRunStateV;

    open spec fn view(&self) -> CliEnvRunStateV {
        CliEnvRunStateV { envs: vars_views(self.envs@), exe_name: opt_str_view(self.exe_name) }
    }
}

/// The state inputs the environment supplies: the last value of each of
/// `TIDPLOY_REPO`, `TIDPLOY_TAG` and `TIDPLOY_PTH`; the context is read
/// separately.
pub fn load_state_vars(vars: &Vec<EnvPair>) -> (r: CliEnvState)
    ensures
        r@ == (CliEnvStateV {
            context: None,
            repo_url: spec_env_last(env_views(vars@), "TIDPLOY_REPO"@),
            deploy_path: spec_env_last(env_views(vars@), "TIDPLOY_PTH"@),
            tag: spec_env_last(env_views(vars@), "TIDPLOY_TAG"@),
        }),
{
    let mut r = CliEnvState { context: None, repo_url: None, deploy_path: None, tag: None };
    let mut i: usize = 0;
    proof {
        assert(env_views(vars@).take(0) =~= Seq::<EnvPairV>::empty());
    }
    while i < vars.len()
        invariant
            i <= vars@.len(),
            r@.context is None,
            r@.repo_url == spec_env_last(env_views(vars@).take(i as int), "TIDPLOY_REPO"@),
            r@.deploy_path == spec_env_last(env_views(vars@).take(i as int), "TIDPLOY_PTH"@),
            r@.tag == spec_env_last(env_views(vars@).take(i as int), "TIDPLOY_TAG"@),
        decreases vars@.len() - i,
    {
        proof {
            reveal_strlit("TIDPLOY_REPO");
            reveal_strlit("TIDPLOY_PTH");
            reveal_strlit("TIDPLOY_TAG");
            assert("TIDPLOY_REPO"@.len() != "TIDPLOY_PTH"@.len());
            assert("TIDPLOY_REPO"@.len() != "TIDPLOY_TAG"@.len());
            assert("TIDPLOY_TAG"@[8] != "TIDPLOY_PTH"@[8]);
            assert(env_views(vars@).take(i as int + 1).drop_last() =~= env_views(vars@).take(
                i as int,
            ));
            assert(env_views(vars@).take(i as int + 1).last() == vars@[i as int]@);
        }
        let p = &vars[i];
        if str_eq(p.key.as_str(), "TIDPLOY_REPO") {
            r.repo_url = Some(p.value.clone());
        } else if str_eq(p.key.as_str(), "TIDPLOY_TAG") {
            r.tag = Some(p.value.clone());
        } else if str_eq(p.key.as_str(), "TIDPLOY_PTH") {
            r.deploy_path = Some(p.value.clone());
        }
        i = i + 1;
    }
    proof {
        assert(env_views(vars@).take(vars@.len() as int) =~= env_views(vars@));
    }
    r
}

/// The run variables the environment supplies: each `TIDPLOY_VAR_<name>`
/// variable asks for the secret stored under the variable's value to be
/// put into the environment variable `<name>`.
pub open spec fn spec_env_run_vars(vars: Seq<EnvPairV>) -> Seq<ConfigVarV>
    decreases vars.len(),
{
    if vars.len() == 0 {
        Seq::empty()
    } else {
        let prev = spec_env_run_vars(vars.drop_last());
        let p = vars.last();
        if "TIDPLOY_VAR_"@.is_prefix_of(p.key) {
            prev.push(ConfigVarV { key: p.value, env_name: p.key.skip(12) })
        } else {
            prev
        }
    }
}

/// The run inputs the environment supplies.
pub fn load_state_run_vars(vars: &Vec<EnvPair>) -> (r: CliEnvRunState)
    ensures
        r@ == (CliEnvRunStateV {
            envs: spec_env_run_vars(env_views(vars@)),
            exe_name: spec_env_last(env_views(vars@), "TIDPLOY_EXE"@),
        }),
{
    let mut envs_vec: Vec<ConfigVar> = Vec::new();
    let mut exe_name: Option<String> = None;
    let mut i: usize = 0;
    proof {
        assert(env_views(vars@).take(0) =~= Seq::<EnvPairV>::empty());
        assert(vars_views(envs_vec@) =~= Seq::<ConfigVarV>::empty());
    }
    while i < vars.len()
        invariant
            i <= vars@.len(),
            vars_views(envs_vec@) == spec_env_run_vars(env_views(vars@).take(i as int)),
            opt_str_view(exe_name) == spec_env_last(
                env_views(vars@).take(i as int),
                "TIDPLOY_EXE"@,
            ),
        decreases vars@.len() - i,
    {
        proof {
            reveal_strlit("TIDPLOY_EXE");
            reveal_strlit("TIDPLOY_VAR_");
            assert(!"TIDPLOY_VAR_"@.is_prefix_of("TIDPLOY_EXE"@));
            assert(env_views(vars@).take(i as int + 1).drop_last() =~= env_views(vars@).take(
                i as int,
            ));
            assert(env_views(vars@).take(i as int + 1).last() == vars@[i as int]@);
        }
        let p = &vars[i];
        if str_eq(p.key.as_str(), "TIDPLOY_EXE") {
            exe_name = Some(p.value.clone());
        } else {
            match strip_prefix_str(p.key.as_str(), "TIDPLOY_VAR_") {
                Some(env_name) => {
                    proof {
                        assert(env_name@ =~= vars@[i as int]@.key.skip(12));
                    }
                    envs_vec.push(ConfigVar { env_name, key: p.value.clone() });
                    proof {
                        assert(vars_views(envs_vec@) =~= spec_env_run_vars(
                            env_views(vars@).take(i as int),
                        ).push(envs_vec@.last()@));
                    }
                },
                None => {},
            }
        }
        i = i + 1;
    }
    proof {
        assert(env_views(vars@).take(vars@.len() as int) =~= env_views(vars@));
    }
    CliEnvRunState { envs: envs_vec, exe_name }
}

/// How the repository URL is to be read: a given value, the enclosing
/// repository's root directory, its `origin` remote, or the default
/// sentinel.
#[derive(Debug, Clone, PartialEq, Eq)]
pub enum ReadRepoMethod {
    Value(String),
    GitRoot,
    GitRootRemote,
    UseDefault,
}

/// Decides how the repository URL is read: the remote and local
/// sentinels ask the enclosing repository, any other value stands for
/// itself, and an unset URL falls back to what the context implies.
pub fn read_repo_url_method(repo_url: Option<String>, context: StateContext) -> (r:
    ReadRepoMethod)
    ensures
        match opt_str_view(repo_url) {
            Some(v) => if v == "tidploy_default_git_remote"@ {
                r == ReadRepoMethod::GitRootRemote
            } else if v == "tidploy_default_git_local"@ {
                r == ReadRepoMethod::GitRoot
            } else {
                r matches ReadRepoMethod::Value(u) && u@ == v
            },
            None => r == match context {
                StateContext::NoContext => ReadRepoMethod::UseDefault,
                StateContext::GitRemote => ReadRepoMethod::GitRootRemote,
                StateContext::GitLocal => ReadRepoMethod::GitRoot,
            },
        },
{
    match repo_url {
        Some(value) => {
            if str_eq(value.as_str(), "tidploy_default_git_remote") {
                ReadRepoMethod::GitRootRemote
            } else if str_eq(value.as_str(), "tidploy_default_git_local") {
                ReadRepoMethod::GitRoot
            } else {
                ReadRepoMethod::Value(value)
            }
        },
        None => match context {
            StateContext::NoContext => ReadRepoMethod::UseDefault,
            StateContext::GitRemote => ReadRepoMethod::GitRootRemote,
            StateContext::GitLocal => ReadRepoMethod::GitRoot,
        },
    }
}

/// The most preferred set value of three sources, the original least
/// preferred.
pub fn merge_options<T>(original: Option<T>, preferred: Option<T>, most_preferred: Option<T>)
    -> (r: Option<T>)
    ensures
        most_preferred is Some ==> r == most_preferred,
        most_preferred is None && preferred is Some ==> r == preferred,
        most_preferred is None && preferred is None ==> r == original,
{
    if most_preferred.is_some() {
        return most_preferred;
    }
    if preferred.is_some() {
        return preferred;
    }
    original
}

/// The most preferred set value of three optional string views.
pub open spec fn spec_merge3(
    original: Option<Seq<char>>,
    preferred: Option<Seq<char>>,
    most: Option<Seq<char>>,
) -> Option<Seq<char>> {
    if most is Some {
        most
    } else if preferred is Some {
        preferred
    } else {
        original
    }
}

/// Merges the state inputs of configuration, environment and command
/// line with command line over environment over configuration
/// precedence; the context is settled separately and stays unset.
pub fn merge_state(config: &DployConfig, envs: CliEnvState, cli: CliEnvState) -> (r: CliEnvState)
    ensures
        r@ == (CliEnvStateV {
            context: None,
            repo_url: spec_merge3(config@.repo_url, envs@.repo_url, cli@.repo_url),
            deploy_path: spec_merge3(config@.deploy_path, envs@.deploy_path, cli@.deploy_path),
            tag: spec_merge3(config@.tag, envs@.tag, cli@.tag),
        }),
{
    CliEnvState {
        context: None,
        repo_url: merge_options(opt_str_dup(&config.repo_url), envs.repo_url, cli.repo_url),
        deploy_path: merge_options(
            opt_str_dup(&config.deploy_path),
            envs.deploy_path,
            cli.deploy_path,
        ),
        tag: merge_options(opt_str_dup(&config.tag), envs.tag, cli.tag),
    }
}

/// Merges the run inputs of configuration, environment and command line:
/// the executable name takes the most preferred set value, variables
/// merge key-wise with the same precedence.
pub fn merge_run_state(config: &DployConfig, envs: CliEnvRunState, cli: CliEnvRunState) -> (r:
    CliEnvRunState)
    ensures
        r@.exe_name == spec_merge3(config@.exe_name, envs@.exe_name, cli@.exe_name),
        r@.envs == spec_merge_vars(
            spec_merge_vars(
                match config@.vars {
                    Some(v) => v,
                    None => Seq::empty(),
                },
                envs@.envs,
            ),
            cli@.envs,
        ),
{
    let config_vars = match &config.vars {
        Some(v) => crate::next::config::dup_vars(v),
        None => {
            let v: Vec<ConfigVar> = Vec::new();
            proof {
                assert(vars_views(v@) =~= Seq::<ConfigVarV>::empty());
            }
            v
        },
    };
    let envs_overwrite_config = crate::next::config::merge_vars(config_vars, envs.envs);
    let cli_overwrite_envs = crate::next::config::merge_vars(envs_overwrite_config, cli.envs);
    CliEnvRunState {
        exe_name: merge_options(opt_str_dup(&config.exe_name), envs.exe_name, cli.exe_name),
        envs: cli_overwrite_envs,
    }
}

/// Interprets the list as pairs of secret key and target environment
/// variable name.
pub fn parse_cli_envs(envs: Vec<String>) -> (r: Vec<ConfigVar>)
    ensures
        vars_views(r@) == crate::next::state::spec_pairs(crate::strutil::seq_views(envs@)),
{
    crate::next::state::parse_cli_vars(envs)
}

} // verus!
