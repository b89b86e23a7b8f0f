//! Deployment environments and stages, and how an environment is guessed
//! from a directory name.

use vstd::prelude::*;

use crate::strutil::contains_sub;
use crate::strutil::spec_contains_sub;

verus! {

/// A deployment environment.
#[derive(Debug, Clone, Copy, PartialEq, Eq)]
pub enum Environment {
    /// Local development environment.
    Localdev,
    /// Staging environment.
    Staging,
    /// Production environment.
    Production,
}

/// The name an environment goes by.
pub open spec fn spec_env_str(e: Environment) -> Seq<char> {
    match e {
        Environment::Localdev => "localdev"@,
        Environment::Staging => "staging"@,
        Environment::Production => "production"@,
    }
}

impl Environment {
    /// The environment's name.
    pub fn to_string(self) -> (r: &'static str)
        ensures
            r@ == spec_env_str(self),
    {
        match self {
            Self::Localdev => "localdev",
            Self::Staging => "staging",
            Self::Production => "production",
        }
    }
}

/// Every environment, in the order they are guessed in.
pub fn possible_env_strings() -> (r: Vec<Environment>)
    ensures
        r@ == seq![Environment::Localdev, Environment::Staging, Environment::Production],
{
    let mut r: Vec<Environment> = Vec::new();
    r.push(Environment::Localdev);
    r.push(Environment::Staging);
    r.push(Environment::Production);
    proof {
        assert(r@ =~= seq![
            Environment::Localdev,
            Environment::Staging,
            Environment::Production,
        ]);
    }
    r
}

/// A deployment stage.
#[derive(Debug, Clone, Copy, PartialEq, Eq)]
pub enum Stage {
    /// Download stage.
    Download,
    /// Deploy stage.
    Deploy,
}

/// The name a stage goes by.
pub open spec fn spec_stage_str(s: Stage) -> Seq<char> {
    match s {
        Stage::Download => "download"@,
        Stage::Deploy => "deploy"@,
    }
}

impl Stage {
    /// The stage's name.
    pub fn to_string(self) -> (r: &'static str)
        ensures
            r@ == spec_stage_str(self),
    {
        match self {
            Self::Download => "download",
            Self::Deploy => "deploy",
        }
    }
}

/// The environment a directory name points at: the first environment, in
/// order, whose name occurs in it.
pub open spec fn spec_guess_env(dir: Seq<char>) -> Option<Environment> {
    if spec_contains_sub(dir, "localdev"@) {
        Some(Environment::Localdev)
    } else if spec_contains_sub(dir, "staging"@) {
        Some(Environment::Staging)
    } else if spec_contains_sub(dir, "production"@) {
        Some(Environment::Production)
    } else {
        None
    }
}

/// Guesses the environment a directory name stands for.
pub fn guess_env(dir_name: &str) -> (r: Option<Environment>)
    ensures
        r == spec_guess_env(dir_name@),
{
    if contains_sub(dir_name, "localdev") {
        Some(Environment::Localdev)
    } else if contains_sub(dir_name, "staging") {
        Some(Environment::Staging)
    } else if contains_sub(dir_name, "production") {
        Some(Environment::Production)
    } else {
        None
    }
}

/// The tag a Git ref stands for, `latest` when none was given.
pub fn tag_from_git_ref(git_ref: Option<String>) -> (r: String)
    ensures
        r@ == match crate::next::config::opt_str_view(git_ref) {
            Some(s) => s,
            None => "latest"@,
        },
{
    match git_ref {
        Some(git_ref) => git_ref,
        None => {
            let r: &str = "latest";
            r.to_owned()
        },
    }
}

} // verus!
