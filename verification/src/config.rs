//! The flat, single-section configuration shape of the original command
//! set, and its merge rules.

use vstd::prelude::*;

use crate::next::config::opt_str_dup;
use crate::next::config::opt_str_view;
use crate::next::config::opt_vars_view;
use crate::next::config::spec_merge_opt;
use crate::next::config::spec_merge_vars;
use crate::next::config::spec_overwrite;
use crate::next::config::ConfigVar;
use crate::next::config::ConfigVarV;
use crate::next::config::dup_vars;

verus! {

/// One directory's flat configuration.
#[derive(Debug)]
pub struct DployConfig {
    pub repo_url: Option<String>,
    pub deploy_path: Option<String>,
    pub tag: Option<String>,
    pub vars: Option<Vec<ConfigVar>>,
    pub exe_name: Option<String>,
}

#[verifier::ext_equal]
pub ghost struct DployConfigV {
    pub repo_url: Option<Seq<char>>,
    pub deploy_path: Option<Seq<char>>,
    pub tag: Option<Seq<char>>,
    pub vars: Option<Seq<ConfigVarV>>,
    pub exe_name: Option<Seq<char>>,
}

impl View for DployConfig {
    type V = DployConfigV;

    open spec fn view(&self) -> DployConfigV {
        DployConfigV {
            repo_url: opt_str_view(self.repo_url),
            deploy_path: opt_str_view(self.deploy_path),
            tag: opt_str_view(self.tag),
            vars: opt_vars_view(self.vars),
            exe_name: opt_str_view(self.exe_name),
        }
    }
}

impl DployConfig {
    /// The configuration an absent file stands for: nothing set.
    pub fn empty() -> (r: DployConfig)
        ensures
            r@ == (DployConfigV {
                repo_url: None,
                deploy_path: None,
                tag: None,
                vars: None,
                exe_name: None,
            }),
    {
        DployConfig { repo_url: None, deploy_path: None, tag: None, vars: None, exe_name: None }
    }

    pub fn dup(&self) -> (r: DployConfig)
        ensures
            r@ == self@,
    {
        DployConfig {
            repo_url: opt_str_dup(&self.repo_url),
            deploy_path: opt_str_dup(&self.deploy_path),
            tag: opt_str_dup(&self.tag),
            vars: match &self.vars {
                Some(v) => Some(dup_vars(v)),
                None => None,
            },
            exe_name: opt_str_dup(&self.exe_name),
        }
    }
}

/// The replacing value when it is set, else the original.
pub fn overwrite_option<T>(original: Option<T>, replacing: Option<T>) -> (r: Option<T>)
    ensures
        r == spec_overwrite(original, replacing),
{
    if replacing.is_some() {
        return replacing;
    }
    original
}

/// Merge of optional variable lists: both present merge key-wise, one
/// alone is kept.
pub open spec fn spec_merge_opt_vars(
    root: Option<Seq<ConfigVarV>>,
    over: Option<Seq<ConfigVarV>>,
) -> Option<Seq<ConfigVarV>> {
    spec_merge_opt(root, over, |a: Seq<ConfigVarV>, b: Seq<ConfigVarV>| spec_merge_vars(a, b))
}

/// Merges two optional variable lists key-wise.
pub fn merge_vars(root_vars: Option<Vec<ConfigVar>>, overwrite_vars: Option<Vec<ConfigVar>>)
    -> (r: Option<Vec<ConfigVar>>)
    ensures
        opt_vars_view(r) == spec_merge_opt_vars(
            opt_vars_view(root_vars),
            opt_vars_view(overwrite_vars),
        ),
{
    match root_vars {
        Some(root) => match overwrite_vars {
            Some(over) => Some(crate::next::config::merge_vars(root, over)),
            None => Some(root),
        },
        None => overwrite_vars,
    }
}

/// Field-wise right-biased merge of two flat configurations, variables
/// merging key-wise.
pub open spec fn spec_overwrite_dploy(a: DployConfigV, b: DployConfigV) -> DployConfigV {
    DployConfigV {
        repo_url: spec_overwrite(a.repo_url, b.repo_url),
        deploy_path: spec_overwrite(a.deploy_path, b.deploy_path),
        tag: spec_overwrite(a.tag, b.tag),
        vars: spec_merge_opt_vars(a.vars, b.vars),
        exe_name: spec_overwrite(a.exe_name, b.exe_name),
    }
}

/// Merges two flat configurations, the replacing one winning per field.
pub fn overwrite_config(root_config: DployConfig, replacing_config: DployConfig) -> (r:
    DployConfig)
    ensures
        r@ == spec_overwrite_dploy(root_config@, replacing_config@),
{
    DployConfig {
        repo_url: overwrite_option(root_config.repo_url, replacing_config.repo_url),
        deploy_path: overwrite_option(root_config.deploy_path, replacing_config.deploy_path),
        tag: overwrite_option(root_config.tag, replacing_config.tag),
        vars: merge_vars(root_config.vars, replacing_config.vars),
        exe_name: overwrite_option(root_config.exe_name, replacing_config.exe_name),
    }
}

/// The views of a sequence of flat configurations.
pub open spec fn dploys_views(s: Seq<DployConfig>) -> Seq<DployConfigV> {
    s.map_values(|c: DployConfig| c@)
}

/// A root configuration with a chain of deeper configurations merged
/// over it, deepest last and winning.
pub open spec fn spec_dploy_chain(root: DployConfigV, rest: Seq<DployConfigV>) -> DployConfigV
    decreases rest.len(),
{
    if rest.len() == 0 {
        root
    } else {
        spec_overwrite_dploy(spec_dploy_chain(root, rest.drop_last()), rest.last())
    }
}

/// Merges the configurations found along a traversal, the deepest one
/// last and winning.
pub fn traverse_configs(root_config: DployConfig, rest: Vec<DployConfig>) -> (r: DployConfig)
    ensures
        r@ == spec_dploy_chain(root_config@, dploys_views(rest@)),
{
    let ghost root0 = root_config@;
    let mut acc = root_config;
    let mut i: usize = 0;
    proof {
        assert(dploys_views(rest@).take(0) =~= Seq::<DployConfigV>::empty());
    }
    while i < rest.len()
        invariant
            i <= rest@.len(),
            acc@ == spec_dploy_chain(root0, dploys_views(rest@).take(i as int)),
        decreases rest@.len() - i,
    {
        proof {
            assert(dploys_views(rest@).take(i as int + 1).drop_last() =~= dploys_views(
                rest@,
            ).take(i as int));
            assert(dploys_views(rest@).take(i as int + 1).last() == rest@[i as int]@);
        }
        acc = overwrite_config(acc, rest[i].dup());
        i = i + 1;
    }
    proof {
        assert(dploys_views(rest@).take(rest@.len() as int) =~= dploys_views(rest@));
    }
    acc
}

} // verus!
