//! The command set of the current generation, as plain data, and the
//! mapping from a parsed command to the resolution it asks for.

use vstd::prelude::*;

use crate::next::config::opt_str_view;
use crate::next::state::AddressIn;
use crate::strutil::seq_views;

verus! {

/// The subcommands of the current generation.
#[derive(Debug)]
pub enum NextCommands {
    /// Save a secret with a key until reboot.
    Secret { key: String, cwd_infer: bool, state_path: Option<String> },
    /// Run an entrypoint and load secrets.
    Run {
        executable: Option<String>,
        state_path: Option<String>,
        execution_path: Option<String>,
        variables: Vec<String>,
        git_infer: bool,
    },
    /// Materialize a Git ref and run its entrypoint.
    Deploy {
        git_ref: Option<String>,
        state_path: Option<String>,
        executable: Option<String>,
        execution_path: Option<String>,
        variables: Vec<String>,
        cwd_infer: bool,
        repo: Option<String>,
        local: bool,
    },
}

/// One parsed invocation: the subcommand and the shared resolution root.
#[derive(Debug)]
pub struct NextSub {
    pub subcommand: NextCommands,
    /// Directory to start resolving from: absolute, or relative to the
    /// current directory or the Git root.
    pub resolve_root: Option<String>,
}

/// An address given directly on the command line.
#[derive(Debug)]
pub enum AddressSubCommands {
    Git { url: String, git_ref: String, target_path: Option<String> },
    Local { path: String },
}

/// What a parsed command asks for: the initial address, how to infer
/// anchors, and the arguments the run or secret resolution takes.
#[derive(Debug)]
pub enum CommandAction {
    RunAction {
        address_in: AddressIn,
        git_infer: bool,
        executable: Option<String>,
        execution_path: Option<String>,
        variables: Vec<String>,
    },
    SecretAction { address_in: AddressIn, cwd_infer: bool, key: String },
}

/// Maps a parsed command to the resolution it asks for: secret and run
/// commands resolve locally from the shared resolution root, deploy
/// commands resolve a Git address built from their repository arguments.
pub fn plan_command(next_sub: NextSub) -> (r: CommandAction)
    ensures
        next_sub.subcommand matches NextCommands::Secret { key, cwd_infer, state_path } ==> ({
            &&& r matches CommandAction::SecretAction { address_in, cwd_infer: ci, key: k }
            &&& ci == cwd_infer
            &&& k@ == key@
            &&& address_in matches AddressIn::Local(l)
            &&& opt_str_view(l.resolve_root) == opt_str_view(next_sub.resolve_root)
            &&& opt_str_view(l.state_path) == opt_str_view(state_path)
            &&& l.state_root is None
        }),
        next_sub.subcommand matches NextCommands::Run {
            executable,
            state_path,
            execution_path,
            variables,
            git_infer,
        } ==> ({
            &&& r matches CommandAction::RunAction {
                address_in,
                git_infer: gi,
                executable: exe,
                execution_path: exn,
                variables: vs,
            }
            &&& gi == git_infer
            &&& opt_str_view(exe) == opt_str_view(executable)
            &&& opt_str_view(exn) == opt_str_view(execution_path)
            &&& seq_views(vs@) == seq_views(variables@)
            &&& address_in matches AddressIn::Local(l)
            &&& opt_str_view(l.resolve_root) == opt_str_view(next_sub.resolve_root)
            &&& opt_str_view(l.state_path) == opt_str_view(state_path)
            &&& l.state_root is None
        }),
        next_sub.subcommand matches NextCommands::Deploy {
            git_ref,
            state_path,
            executable,
            execution_path,
            variables,
            cwd_infer,
            repo,
            local,
        } ==> ({
            &&& r matches CommandAction::RunAction {
                address_in,
                git_infer: gi,
                executable: exe,
                execution_path: exn,
                variables: vs,
            }
            &&& gi == !cwd_infer
            &&& opt_str_view(exe) == opt_str_view(executable)
            &&& opt_str_view(exn) == opt_str_view(execution_path)
            &&& seq_views(vs@) == seq_views(variables@)
            &&& address_in matches AddressIn::Git(g)
            &&& opt_str_view(g.url) == opt_str_view(repo)
            &&& g.local == local
            &&& opt_str_view(g.git_ref) == opt_str_view(git_ref)
            &&& opt_str_view(g.target_resolve_root) == opt_str_view(next_sub.resolve_root)
            &&& opt_str_view(g.state_path) == opt_str_view(state_path)
            &&& g.state_root is None
        }),
{
    let NextSub { subcommand, resolve_root } = next_sub;
    match subcommand {
        NextCommands::Secret { key, cwd_infer, state_path } => CommandAction::SecretAction {
            address_in: AddressIn::from_secret(resolve_root, state_path, None),
            cwd_infer,
            key,
        },
        NextCommands::Run { executable, state_path, execution_path, variables, git_infer } => {
            CommandAction::RunAction {
                address_in: AddressIn::from_run(resolve_root, state_path, None),
                git_infer,
                executable,
                execution_path,
                variables,
            }
        },
        NextCommands::Deploy {
            git_ref,
            state_path,
            executable,
            execution_path,
            variables,
            cwd_infer,
            repo,
            local,
        } => CommandAction::RunAction {
            address_in: AddressIn::from_deploy(
                repo,
                local,
                git_ref,
                resolve_root,
                state_path,
                None,
            ),
            git_infer: !cwd_infer,
            executable,
            execution_path,
            variables,
        },
    }
}

} // verus!
