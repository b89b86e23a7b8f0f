use tidploy::cli::guess_env;
use tidploy::cli::possible_env_strings;
use tidploy::cli::tag_from_git_ref;
use tidploy::cli::Environment;
use tidploy::cli::Stage;
use tidploy::config::merge_vars;
use tidploy::config::overwrite_config;
use tidploy::config::overwrite_option;
use tidploy::config::traverse_configs;
use tidploy::config::DployConfig;
use tidploy::errors::ProcessError;
use tidploy::next::config::ConfigVar;
use tidploy::next::resolve::EnvPair;
use tidploy::process::process_out;
use tidploy::state::load_state_run_vars;
use tidploy::state::load_state_vars;
use tidploy::state::merge_options;
use tidploy::state::merge_run_state;
use tidploy::state::merge_state;
use tidploy::state::parse_cli_envs;
use tidploy::state::read_repo_url_method;
use tidploy::state::ReadRepoMethod;
use tidploy::state::StateContext;
use tidploy::state::CliEnvRunState;
use tidploy::state::CliEnvState;
use tidploy::next::commands::plan_command;
use tidploy::next::commands::CommandAction;
use tidploy::next::commands::NextCommands;
use tidploy::next::commands::NextSub;
use tidploy::next::state::AddressIn;

fn env(key: &str, value: &str) -> EnvPair {
    EnvPair { key: key.to_owned(), value: value.to_owned() }
}

#[test]
fn environment_and_stage_names() {
    assert_eq!(Environment::Localdev.to_string(), "localdev");
    assert_eq!(Environment::Staging.to_string(), "staging");
    assert_eq!(Environment::Production.to_string(), "production");
    assert_eq!(Stage::Download.to_string(), "download");
    assert_eq!(Stage::Deploy.to_string(), "deploy");
    assert_eq!(possible_env_strings().len(), 3);
}

#[test]
fn guess_env_finds_first_match() {
    assert_eq!(guess_env("my-staging-dir"), Some(Environment::Staging));
    assert_eq!(guess_env("production"), Some(Environment::Production));
    assert_eq!(guess_env("localdev-production"), Some(Environment::Localdev));
    assert_eq!(guess_env("nothing"), None);
}

#[test]
fn tag_defaults_to_latest() {
    assert_eq!(tag_from_git_ref(Some("v1".to_owned())), "v1");
    assert_eq!(tag_from_git_ref(None), "latest");
}

#[test]
fn process_out_trims_and_reports_decode_failures() {
    let out = process_out(b"hello world \n".to_vec(), "stdout".to_owned()).unwrap();
    assert_eq!(out, "hello world");
    match process_out(vec![0xff, 0xfe], "stdout".to_owned()) {
        Err(ProcessError::Decode(m)) => assert_eq!(m, "stdout"),
        other => panic!("a decode failure was expected, got {:?}", other),
    }
}

#[test]
fn flat_config_merges() {
    assert_eq!(overwrite_option(Some(1), Some(2)), Some(2));
    let root = DployConfig {
        repo_url: Some("r1".to_owned()),
        deploy_path: None,
        tag: Some("t1".to_owned()),
        vars: Some(vec![ConfigVar { key: "k".to_owned(), env_name: "OLD".to_owned() }]),
        exe_name: None,
    };
    let over = DployConfig {
        repo_url: None,
        deploy_path: Some("d2".to_owned()),
        tag: Some("t2".to_owned()),
        vars: Some(vec![ConfigVar { key: "k".to_owned(), env_name: "NEW".to_owned() }]),
        exe_name: None,
    };
    let merged = overwrite_config(root, over);
    assert_eq!(merged.repo_url, Some("r1".to_owned()));
    assert_eq!(merged.deploy_path, Some("d2".to_owned()));
    assert_eq!(merged.tag, Some("t2".to_owned()));
    let vars = merged.vars.unwrap();
    assert_eq!(vars.len(), 1);
    assert_eq!(vars[0].env_name, "NEW");

    assert!(merge_vars(None, None).is_none());
    let only = merge_vars(
        None,
        Some(vec![ConfigVar { key: "a".to_owned(), env_name: "A".to_owned() }]),
    )
    .unwrap();
    assert_eq!(only.len(), 1);
}

#[test]
fn flat_traversal_deepest_wins() {
    let mk = |tag: &str| DployConfig {
        repo_url: None,
        deploy_path: None,
        tag: Some(tag.to_owned()),
        vars: None,
        exe_name: None,
    };
    let merged = traverse_configs(mk("root"), vec![mk("mid"), mk("deep")]);
    assert_eq!(merged.tag, Some("deep".to_owned()));
}

#[test]
fn state_env_vars_are_read() {
    let envs = vec![
        env("TIDPLOY_REPO", "the-repo"),
        env("TIDPLOY_PTH", "a/b"),
        env("HOME", "/home/u"),
    ];
    let st = load_state_vars(&envs);
    assert_eq!(st.repo_url, Some("the-repo".to_owned()));
    assert_eq!(st.deploy_path, Some("a/b".to_owned()));
    assert_eq!(st.tag, None);
    assert!(st.context.is_none());
}

#[test]
fn run_env_vars_are_read() {
    let envs = vec![
        env("TIDPLOY_EXE", "run.sh"),
        env("TIDPLOY_VAR_MY_SECRET", "secretkey"),
        env("OTHER", "x"),
    ];
    let st = load_state_run_vars(&envs);
    assert_eq!(st.exe_name, Some("run.sh".to_owned()));
    assert_eq!(st.envs.len(), 1);
    assert_eq!(st.envs[0].env_name, "MY_SECRET");
    assert_eq!(st.envs[0].key, "secretkey");
}

#[test]
fn merge_state_precedence() {
    assert_eq!(merge_options(Some(1), Some(2), Some(3)), Some(3));
    assert_eq!(merge_options(Some(1), Some(2), None), Some(2));
    assert_eq!(merge_options(Some(1), None, None), Some(1));
    assert_eq!(merge_options(None::<u32>, None, None), None);

    let config = DployConfig {
        repo_url: Some("cfg".to_owned()),
        deploy_path: Some("cfgpath".to_owned()),
        tag: Some("cfgtag".to_owned()),
        vars: None,
        exe_name: None,
    };
    let envs = CliEnvState {
        context: None,
        repo_url: Some("env".to_owned()),
        deploy_path: None,
        tag: None,
    };
    let cli = CliEnvState {
        context: None,
        repo_url: Some("cli".to_owned()),
        deploy_path: None,
        tag: Some("clitag".to_owned()),
    };
    let merged = merge_state(&config, envs, cli);
    assert_eq!(merged.repo_url, Some("cli".to_owned()));
    assert_eq!(merged.deploy_path, Some("cfgpath".to_owned()));
    assert_eq!(merged.tag, Some("clitag".to_owned()));
}

#[test]
fn merge_run_state_precedence() {
    let config = DployConfig {
        repo_url: None,
        deploy_path: None,
        tag: None,
        vars: Some(vec![ConfigVar { key: "k".to_owned(), env_name: "CFG".to_owned() }]),
        exe_name: Some("cfg.sh".to_owned()),
    };
    let envs = CliEnvRunState {
        envs: vec![ConfigVar { key: "k".to_owned(), env_name: "ENV".to_owned() }],
        exe_name: None,
    };
    let cli = CliEnvRunState { envs: Vec::new(), exe_name: Some("cli.sh".to_owned()) };
    let merged = merge_run_state(&config, envs, cli);
    assert_eq!(merged.exe_name, Some("cli.sh".to_owned()));
    assert_eq!(merged.envs.len(), 1);
    assert_eq!(merged.envs[0].env_name, "ENV");
}

#[test]
fn repo_url_method_sentinels() {
    assert_eq!(
        read_repo_url_method(Some("tidploy_default_git_remote".to_owned()), StateContext::NoContext),
        ReadRepoMethod::GitRootRemote
    );
    assert_eq!(
        read_repo_url_method(Some("tidploy_default_git_local".to_owned()), StateContext::NoContext),
        ReadRepoMethod::GitRoot
    );
    assert_eq!(
        read_repo_url_method(Some("https://x/y.git".to_owned()), StateContext::GitLocal),
        ReadRepoMethod::Value("https://x/y.git".to_owned())
    );
    assert_eq!(
        read_repo_url_method(None, StateContext::NoContext),
        ReadRepoMethod::UseDefault
    );
    assert_eq!(
        read_repo_url_method(None, StateContext::GitRemote),
        ReadRepoMethod::GitRootRemote
    );
}

#[test]
fn parse_cli_envs_pairs() {
    let vars = parse_cli_envs(vec!["a".to_owned(), "A".to_owned()]);
    assert_eq!(vars.len(), 1);
    assert_eq!(vars[0].key, "a");
    assert_eq!(vars[0].env_name, "A");
}

#[test]
fn plan_command_maps_deploy_to_git_address() {
    let sub = NextSub {
        subcommand: NextCommands::Deploy {
            git_ref: Some("v1".to_owned()),
            state_path: None,
            executable: None,
            execution_path: None,
            variables: Vec::new(),
            cwd_infer: false,
            repo: Some("u".to_owned()),
            local: false,
        },
        resolve_root: Some("sub".to_owned()),
    };
    match plan_command(sub) {
        CommandAction::RunAction { address_in, git_infer, .. } => {
            assert!(git_infer);
            match address_in {
                AddressIn::Git(g) => {
                    assert_eq!(g.url, Some("u".to_owned()));
                    assert_eq!(g.git_ref, Some("v1".to_owned()));
                    assert_eq!(g.target_resolve_root, Some("sub".to_owned()));
                },
                AddressIn::Local(_) => panic!("a git address was expected"),
            }
        },
        CommandAction::SecretAction { .. } => panic!("a run action was expected"),
    }
}
