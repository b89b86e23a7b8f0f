use tidploy::errors::ConfigErrorKind;
use tidploy::next::config::merge_config_chain;
use tidploy::next::config::merge_vars;
use tidploy::next::config::overwrite_option;
use tidploy::next::config::overwrite_scope;
use tidploy::next::config::interpret_config_file;
use tidploy::next::config::parse_config_value;
use tidploy::next::config::choose_config_file;
use tidploy::next::config::ArgumentConfig;
use tidploy::next::config::CfgField;
use tidploy::next::config::CfgValue;
use tidploy::next::config::Config;
use tidploy::next::config::ConfigAddress;
use tidploy::next::config::ConfigFileChoice;
use tidploy::next::config::ConfigScope;
use tidploy::next::config::ConfigVar;
use tidploy::next::config::StateConfig;
use tidploy::next::resolve::traverse_arg_configs;

fn var(key: &str, env_name: &str) -> ConfigVar {
    ConfigVar { key: key.to_owned(), env_name: env_name.to_owned() }
}

fn arg_with_exe(exe: &str) -> ArgumentConfig {
    ArgumentConfig {
        scope: None,
        executable: Some(exe.to_owned()),
        execution_path: None,
        envs: None,
    }
}

#[test]
fn overwrite_option_prefers_replacing() {
    assert_eq!(overwrite_option(Some(1), Some(2)), Some(2));
    assert_eq!(overwrite_option(Some(1), None), Some(1));
    assert_eq!(overwrite_option(None::<u32>, Some(2)), Some(2));
    assert_eq!(overwrite_option(None::<u32>, None), None);
}

#[test]
fn merge_vars_is_keywise() {
    let root = vec![var("a", "A_OLD"), var("b", "B")];
    let over = vec![var("a", "A_NEW"), var("c", "C")];
    let merged = merge_vars(root, over);
    let pairs: Vec<(String, String)> =
        merged.iter().map(|v| (v.key.clone(), v.env_name.clone())).collect();
    assert_eq!(
        pairs,
        vec![
            ("a".to_owned(), "A_NEW".to_owned()),
            ("b".to_owned(), "B".to_owned()),
            ("c".to_owned(), "C".to_owned()),
        ]
    );
}

#[test]
fn merge_vars_duplicate_keys_later_wins() {
    // one source mentioning a key twice keeps one entry, the later target
    let merged = merge_vars(Vec::new(), vec![var("k", "A"), var("k", "B")]);
    assert_eq!(merged.len(), 1);
    assert_eq!(merged[0].key, "k");
    assert_eq!(merged[0].env_name, "B");
    // empty sources merge to nothing
    assert!(merge_vars(Vec::new(), Vec::new()).is_empty());
}

#[test]
fn overwrite_scope_fieldwise() {
    let base = ConfigScope {
        name: Some("n1".to_owned()),
        sub: Some("s1".to_owned()),
        service: None,
        require_hash: Some(false),
    };
    let replacing = ConfigScope {
        name: Some("n2".to_owned()),
        sub: None,
        service: Some("svc".to_owned()),
        require_hash: None,
    };
    let merged = overwrite_scope(base, replacing);
    assert_eq!(merged.name, Some("n2".to_owned()));
    assert_eq!(merged.sub, Some("s1".to_owned()));
    assert_eq!(merged.service, Some("svc".to_owned()));
    assert_eq!(merged.require_hash, Some(false));
}

#[test]
fn deepest_wins_traversal() {
    // configurations at `/`, `/a` and `/a/b` each set the executable
    let c_root = Config { argument: Some(arg_with_exe("root.sh")), state: None };
    let c_a = Config { argument: Some(arg_with_exe("a.sh")), state: None };
    let c_ab = Config { argument: Some(arg_with_exe("ab.sh")), state: None };

    let full = traverse_arg_configs(&vec![c_root, c_a, c_ab]).unwrap();
    assert_eq!(full.executable, Some("ab.sh".to_owned()));

    let c_root = Config { argument: Some(arg_with_exe("root.sh")), state: None };
    let c_a = Config { argument: Some(arg_with_exe("a.sh")), state: None };
    let two = traverse_arg_configs(&vec![c_root, c_a]).unwrap();
    assert_eq!(two.executable, Some("a.sh".to_owned()));

    let c_root = Config { argument: Some(arg_with_exe("root.sh")), state: None };
    let one = traverse_arg_configs(&vec![c_root]).unwrap();
    assert_eq!(one.executable, Some("root.sh".to_owned()));

    // a shallower configuration fills fields the deeper ones leave unset
    let c_root = Config {
        argument: Some(ArgumentConfig {
            scope: None,
            executable: Some("root.sh".to_owned()),
            execution_path: Some("rootdir".to_owned()),
            envs: None,
        }),
        state: None,
    };
    let c_a = Config { argument: Some(arg_with_exe("a.sh")), state: None };
    let merged = traverse_arg_configs(&vec![c_root, c_a]).unwrap();
    assert_eq!(merged.executable, Some("a.sh".to_owned()));
    assert_eq!(merged.execution_path, Some("rootdir".to_owned()));
}

#[test]
fn config_chain_state_section_deepest_wins() {
    let shallow = Config {
        argument: None,
        state: Some(StateConfig {
            address: Some(ConfigAddress::Local {
                path: "/one".to_owned(),
                state_path: None,
                state_root: None,
            }),
            state_path: None,
            state_root: None,
        }),
    };
    let deep = Config {
        argument: None,
        state: Some(StateConfig {
            address: Some(ConfigAddress::Local {
                path: "/two".to_owned(),
                state_path: None,
                state_root: None,
            }),
            state_path: None,
            state_root: None,
        }),
    };
    let merged = merge_config_chain(shallow, vec![deep]);
    match merged.state.unwrap().address.unwrap() {
        ConfigAddress::Local { path, .. } => assert_eq!(path, "/two"),
        ConfigAddress::Git { .. } => panic!("local address expected"),
    }
}

#[test]
fn choose_config_file_prefers_json() {
    assert_eq!(choose_config_file(true, true), ConfigFileChoice::Json);
    assert_eq!(choose_config_file(true, false), ConfigFileChoice::Json);
    assert_eq!(choose_config_file(false, true), ConfigFileChoice::Toml);
    assert_eq!(choose_config_file(false, false), ConfigFileChoice::Absent);
}

#[test]
fn absent_config_file_is_empty_config() {
    // a missing file is success with the empty configuration, never an
    // error, whatever stands in the ignored document slot
    let cfg = interpret_config_file(ConfigFileChoice::Absent, &CfgValue::Null).unwrap();
    assert!(cfg.argument.is_none());
    assert!(cfg.state.is_none());
    let cfg =
        interpret_config_file(ConfigFileChoice::Absent, &CfgValue::Str("junk".to_owned())).unwrap();
    assert!(cfg.argument.is_none());
    assert!(cfg.state.is_none());
    // a present file's document is validated
    let doc = CfgValue::Obj(vec![CfgField {
        name: "argument".to_owned(),
        value: CfgValue::Obj(vec![sfield("executable", "run.sh")]),
    }]);
    let cfg = interpret_config_file(ConfigFileChoice::Json, &doc).unwrap();
    assert_eq!(cfg.argument.unwrap().executable, Some("run.sh".to_owned()));
    assert!(interpret_config_file(ConfigFileChoice::Toml, &CfgValue::Num(1)).is_err());
}

fn sfield(name: &str, value: &str) -> CfgField {
    CfgField { name: name.to_owned(), value: CfgValue::Str(value.to_owned()) }
}

#[test]
fn parse_config_tree() {
    // { "argument": { "executable": "run.sh",
    //                 "envs": [ { "key": "k", "env_name": "K" } ] },
    //   "state": { "address": { "url": "u", "git_ref": "main" } } }
    let envs = CfgValue::Arr(vec![CfgValue::Obj(vec![
        sfield("key", "k"),
        sfield("env_name", "K"),
    ])]);
    let argument = CfgValue::Obj(vec![
        sfield("executable", "run.sh"),
        CfgField { name: "envs".to_owned(), value: envs },
    ]);
    let address = CfgValue::Obj(vec![sfield("url", "u"), sfield("git_ref", "main")]);
    let state = CfgValue::Obj(vec![CfgField { name: "address".to_owned(), value: address }]);
    let doc = CfgValue::Obj(vec![
        CfgField { name: "argument".to_owned(), value: argument },
        CfgField { name: "state".to_owned(), value: state },
        sfield("unknown_field", "ignored"),
    ]);
    let cfg = parse_config_value(&doc).unwrap();
    let arg = cfg.argument.unwrap();
    assert_eq!(arg.executable, Some("run.sh".to_owned()));
    let vars = arg.envs.unwrap();
    assert_eq!(vars.len(), 1);
    assert_eq!(vars[0].key, "k");
    assert_eq!(vars[0].env_name, "K");
    match cfg.state.unwrap().address.unwrap() {
        ConfigAddress::Git { url, git_ref, local, .. } => {
            assert_eq!(url, "u");
            assert_eq!(git_ref, "main");
            assert_eq!(local, None);
        },
        ConfigAddress::Local { .. } => panic!("git address expected"),
    }
}

#[test]
fn parse_config_rejects_untagged_address() {
    // an address carrying both `path` and `url` is ambiguous and refused
    let address = CfgValue::Obj(vec![
        sfield("path", "/p"),
        sfield("url", "u"),
        sfield("git_ref", "main"),
    ]);
    let state = CfgValue::Obj(vec![CfgField { name: "address".to_owned(), value: address }]);
    let doc = CfgValue::Obj(vec![CfgField { name: "state".to_owned(), value: state }]);
    let err = parse_config_value(&doc).unwrap_err();
    assert!(matches!(err.kind, ConfigErrorKind::BadValue(_)));

    // a git address without a ref is refused too
    let address = CfgValue::Obj(vec![sfield("url", "u")]);
    let state = CfgValue::Obj(vec![CfgField { name: "address".to_owned(), value: address }]);
    let doc = CfgValue::Obj(vec![CfgField { name: "state".to_owned(), value: state }]);
    assert!(parse_config_value(&doc).is_err());
}

#[test]
fn parse_config_rejects_wrong_shapes() {
    let doc = CfgValue::Obj(vec![CfgField {
        name: "argument".to_owned(),
        value: CfgValue::Obj(vec![CfgField {
            name: "executable".to_owned(),
            value: CfgValue::Num(3),
        }]),
    }]);
    let err = parse_config_value(&doc).unwrap_err();
    assert!(matches!(err.kind, ConfigErrorKind::BadValue(_)));
    assert!(parse_config_value(&CfgValue::Str("nope".to_owned())).is_err());
}
