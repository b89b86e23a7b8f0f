use tidploy::next::config::ArgumentConfig;
use tidploy::next::config::Config;
use tidploy::next::resolve::env_run_args;
use tidploy::next::resolve::env_scope_args;
use tidploy::next::resolve::resolve_run;
use tidploy::next::resolve::resolve_scope;
use tidploy::next::resolve::EnvPair;
use tidploy::next::resolve::RunArguments;
use tidploy::next::resolve::RunResolution;
use tidploy::next::resolve::SecretScopeArguments;
use tidploy::next::state::ConfigLookup;
use tidploy::next::state::ResolveState;
use tidploy::paths::AbsPath;
use tidploy::paths::RelPath;

fn abs(s: &str) -> AbsPath {
    match AbsPath::parse_absolute(s) {
        Some(p) => p,
        None => panic!("absolute path expected"),
    }
}

fn env(key: &str, value: &str) -> EnvPair {
    EnvPair { key: key.to_owned(), value: value.to_owned() }
}

fn resolve_state(root: &str) -> ResolveState {
    ResolveState {
        state_root: abs(root),
        state_path: RelPath::empty(),
        resolve_root: abs(root),
        name: "proj".to_owned(),
        sub: "tidploy_root".to_owned(),
        hash: "somecommithash".to_owned(),
    }
}

fn lookup_with_exe(dir: &str, exe: &str) -> ConfigLookup {
    let mut cfgs = ConfigLookup::new();
    cfgs.add(
        dir.to_owned(),
        Config {
            argument: Some(ArgumentConfig {
                scope: None,
                executable: Some(exe.to_owned()),
                execution_path: None,
                envs: None,
            }),
            state: None,
        },
    );
    cfgs
}

fn done(r: RunResolution) -> tidploy::next::resolve::RunResolved {
    match r {
        RunResolution::Done(rr) => rr,
        RunResolution::NeedConfig(d) => panic!("configuration missing for {}", d),
    }
}

#[test]
fn merge_precedence_cli_wins() {
    // distinct values from command line, environment and configuration:
    // the command line wins
    let rs = resolve_state("/proj");
    let cfgs = lookup_with_exe("/proj", "cfg.sh");
    let envs = vec![env("TIDPLOY_RUN_EXECUTABLE", "env.sh")];
    let cli = RunArguments {
        executable: Some(abs("/proj/cli.sh")),
        execution_path: None,
        envs: Vec::new(),
        scope_args: SecretScopeArguments::new_default(),
    };
    let rr = done(resolve_run(&rs, cli, &envs, &cfgs));
    assert_eq!(rr.executable.render(), "/proj/cli.sh");
}

#[test]
fn merge_precedence_env_beats_config() {
    let rs = resolve_state("/proj");
    let cfgs = lookup_with_exe("/proj", "cfg.sh");
    let envs = vec![env("TIDPLOY_RUN_EXECUTABLE", "env.sh")];
    let rr = done(resolve_run(&rs, RunArguments::new_default(), &envs, &cfgs));
    assert_eq!(rr.executable.render(), "/proj/env.sh");
}

#[test]
fn merge_precedence_config_beats_default() {
    let rs = resolve_state("/proj");
    let cfgs = lookup_with_exe("/proj", "cfg.sh");
    let rr = done(resolve_run(&rs, RunArguments::new_default(), &Vec::new(), &cfgs));
    assert_eq!(rr.executable.render(), "/proj/cfg.sh");
}

#[test]
fn no_secret_vars_give_empty_envs() {
    // with no configured variables no store lookup runs, so the empty
    // environment is owed even without any credential store
    let _ = keyring_core::unset_default_store();
    let scope = tidploy::next::resolve::SecretScope {
        service: "svc".to_owned(),
        name: "n".to_owned(),
        sub: "s".to_owned(),
        hash: "h".to_owned(),
    };
    let envs = tidploy::next::secrets::secret_vars_to_envs(&scope, Vec::new()).unwrap();
    assert!(envs.is_empty());
}

#[test]
fn run_defaults_to_entrypoint_in_root() {
    let rs = resolve_state("/proj");
    let mut cfgs = ConfigLookup::new();
    cfgs.add("/proj".to_owned(), Config::empty());
    let rr = done(resolve_run(&rs, RunArguments::new_default(), &Vec::new(), &cfgs));
    assert_eq!(rr.execution_path.render(), "/proj");
    assert_eq!(rr.executable.render(), "/proj/entrypoint.sh");
    // no scope was configured anywhere: everything defaults
    assert_eq!(rr.scope.service, "tidploy");
    assert_eq!(rr.scope.name, "proj");
    assert_eq!(rr.scope.sub, "tidploy_root");
    assert_eq!(rr.scope.hash, "tidploy_default_hash");
}

#[test]
fn executable_resolves_against_execution_path_only_by_default() {
    // a configured execution path moves the default entrypoint with it
    let rs = resolve_state("/proj");
    let mut cfgs = ConfigLookup::new();
    cfgs.add(
        "/proj".to_owned(),
        Config {
            argument: Some(ArgumentConfig {
                scope: None,
                executable: None,
                execution_path: Some("run_here".to_owned()),
                envs: None,
            }),
            state: None,
        },
    );
    let rr = done(resolve_run(&rs, RunArguments::new_default(), &Vec::new(), &cfgs));
    assert_eq!(rr.execution_path.render(), "/proj/run_here");
    assert_eq!(rr.executable.render(), "/proj/run_here/entrypoint.sh");
}

#[test]
fn resolve_run_asks_for_missing_config() {
    let rs = resolve_state("/proj");
    let cfgs = ConfigLookup::new();
    match resolve_run(&rs, RunArguments::new_default(), &Vec::new(), &cfgs) {
        RunResolution::NeedConfig(d) => assert_eq!(d, "/proj"),
        RunResolution::Done(_) => panic!("the missing configuration should be asked for"),
    }
}

#[test]
fn env_scope_args_reads_tidploy_variables() {
    let envs = vec![
        env("PATH", "/usr/bin"),
        env("TIDPLOY_SECRET_SCOPE_NAME", "n"),
        env("TIDPLOY_SECRET_SERVICE", "svc"),
        env("TIDPLOY_SECRET_REQUIRE_HASH", "yes"),
    ];
    let args = env_scope_args(&envs);
    assert_eq!(args.name, Some("n".to_owned()));
    assert_eq!(args.sub, None);
    assert_eq!(args.service, Some("svc".to_owned()));
    assert_eq!(args.require_hash, Some(true));
    let off = env_scope_args(&vec![env("TIDPLOY_SECRET_REQUIRE_HASH", "")]);
    assert_eq!(off.require_hash, Some(false));
}

#[test]
fn env_run_args_resolves_paths() {
    let root = abs("/proj");
    let envs = vec![env("TIDPLOY_RUN_EXECUTION_PATH", "sub/dir")];
    let args = env_run_args(&root, &envs);
    assert_eq!(args.execution_path.unwrap().render(), "/proj/sub/dir");
    assert!(args.executable.is_none());
    assert!(args.envs.is_empty());
}

#[test]
fn resolve_scope_pins_hash_only_on_demand() {
    let args = SecretScopeArguments {
        name: None,
        sub: None,
        service: None,
        require_hash: Some(true),
    };
    let scope = resolve_scope(args, "nm", "sb", "deadbeef");
    assert_eq!(scope.hash, "deadbeef");
    assert_eq!(scope.name, "nm");
    assert_eq!(scope.sub, "sb");
    assert_eq!(scope.service, "tidploy");

    let args = SecretScopeArguments {
        name: Some("other".to_owned()),
        sub: None,
        service: None,
        require_hash: None,
    };
    let scope = resolve_scope(args, "nm", "sb", "deadbeef");
    assert_eq!(scope.hash, "tidploy_default_hash");
    assert_eq!(scope.name, "other");
}

#[test]
fn run_arguments_merge_is_keywise_for_envs() {
    let a = RunArguments {
        executable: None,
        execution_path: None,
        envs: vec![tidploy::next::config::ConfigVar {
            key: "k".to_owned(),
            env_name: "OLD".to_owned(),
        }],
        scope_args: SecretScopeArguments::new_default(),
    };
    let b = RunArguments {
        executable: None,
        execution_path: None,
        envs: vec![tidploy::next::config::ConfigVar {
            key: "k".to_owned(),
            env_name: "NEW".to_owned(),
        }],
        scope_args: SecretScopeArguments::new_default(),
    };
    let merged = a.merge(b);
    assert_eq!(merged.envs.len(), 1);
    assert_eq!(merged.envs[0].env_name, "NEW");
}
