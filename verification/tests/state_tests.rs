use tidploy::errors::StateErrorKind;
use tidploy::next::config::Config;
use tidploy::next::config::ConfigAddress;
use tidploy::next::config::StateConfig;
use tidploy::next::state::converge_address;
use tidploy::next::state::parse_cli_vars;
use tidploy::next::state::Address;
use tidploy::next::state::AddressIn;
use tidploy::next::state::AddressRoot;
use tidploy::next::state::ConfigLookup;
use tidploy::next::state::Converged;
use tidploy::next::state::GitLookup;
use tidploy::next::state::MAX_HOPS;
use tidploy::paths::AbsPath;
use tidploy::paths::RelPath;
use tidploy::state::StateContext;

fn abs(s: &str) -> AbsPath {
    match AbsPath::parse_absolute(s) {
        Some(p) => p,
        None => panic!("absolute path expected"),
    }
}

fn local_address(path: &str) -> Address {
    Address {
        name: "start".to_owned(),
        root: AddressRoot::Local(abs(path)),
        state_root: RelPath::empty(),
        state_path: RelPath::empty(),
    }
}

fn redirect_config(target: &str) -> Config {
    Config {
        argument: None,
        state: Some(StateConfig {
            address: Some(ConfigAddress::Local {
                path: target.to_owned(),
                state_path: None,
                state_root: None,
            }),
            state_path: None,
            state_root: None,
        }),
    }
}

#[test]
fn converge_stable_without_state_section() {
    let mut cfgs = ConfigLookup::new();
    cfgs.add("/start".to_owned(), Config::empty());
    let gits = GitLookup::new();
    match converge_address(local_address("/start"), &cfgs, &gits, MAX_HOPS) {
        Converged::Done(state) => {
            assert_eq!(state.resolve_root.render(), "/start");
            assert!(state.address.is_none());
            assert!(state.commit.is_none());
        },
        _ => panic!("a stable state was expected"),
    }
}

#[test]
fn converge_asks_for_missing_config() {
    let cfgs = ConfigLookup::new();
    let gits = GitLookup::new();
    match converge_address(local_address("/start"), &cfgs, &gits, MAX_HOPS) {
        Converged::NeedConfig(dir) => assert_eq!(dir, "/start"),
        _ => panic!("the engine should ask for the missing configuration"),
    }
}

#[test]
fn converge_follows_one_redirect() {
    let mut cfgs = ConfigLookup::new();
    cfgs.add("/start".to_owned(), redirect_config("/elsewhere"));
    cfgs.add("/elsewhere".to_owned(), Config::empty());
    let gits = GitLookup::new();
    match converge_address(local_address("/start"), &cfgs, &gits, MAX_HOPS) {
        Converged::Done(state) => {
            assert_eq!(state.resolve_root.render(), "/elsewhere");
            assert_eq!(state.name, "elsewhere");
        },
        _ => panic!("the redirect should converge"),
    }
}

#[test]
fn converge_cycle_is_too_many_redirects() {
    // configurations at A and B redirect to each other
    let mut cfgs = ConfigLookup::new();
    cfgs.add("/a".to_owned(), redirect_config("/b"));
    cfgs.add("/b".to_owned(), redirect_config("/a"));
    let gits = GitLookup::new();
    match converge_address(local_address("/a"), &cfgs, &gits, MAX_HOPS) {
        Converged::Failed(e) => {
            assert!(matches!(e.kind, StateErrorKind::TooManyRedirects));
        },
        _ => panic!("the cycle must end in the redirect-bound failure"),
    }
}

#[test]
fn converge_asks_for_git_materialization() {
    let mut cfgs = ConfigLookup::new();
    cfgs.add(
        "/start".to_owned(),
        Config {
            argument: None,
            state: Some(StateConfig {
                address: Some(ConfigAddress::Git {
                    url: "https://example.com/group/repo.git".to_owned(),
                    local: None,
                    git_ref: "v1".to_owned(),
                    target_path: None,
                    state_path: None,
                    state_root: None,
                }),
                state_path: None,
                state_root: None,
            }),
        },
    );
    let gits = GitLookup::new();
    match converge_address(local_address("/start"), &cfgs, &gits, MAX_HOPS) {
        Converged::NeedGit(ga, sp, sr) => {
            assert_eq!(ga.url, "https://example.com/group/repo.git");
            assert_eq!(ga.git_ref, "v1");
            assert!(!ga.local);
            assert!(sp.is_empty());
            assert!(sr.is_empty());
        },
        _ => panic!("the engine should ask for the materialization"),
    }
}

#[test]
fn bad_redirect_name_is_address_error() {
    let mut cfgs = ConfigLookup::new();
    // the root path `/` has no final segment to derive a name from
    cfgs.add("/start".to_owned(), redirect_config("/"));
    let gits = GitLookup::new();
    match converge_address(local_address("/start"), &cfgs, &gits, MAX_HOPS) {
        Converged::Failed(e) => assert!(matches!(e.kind, StateErrorKind::Address(_))),
        _ => panic!("a nameless redirect target must fail"),
    }
}

#[test]
fn missing_git_anchor_is_git_error() {
    // a Git address without a URL wants the origin remote inferred, but
    // the caller could not read one
    let addr_in = AddressIn::from_deploy(None, false, None, None, None, None);
    let info = tidploy::next::state::InferInfo {
        current_dir: abs("/cwd"),
        git_origin_url: None,
        git_root_dir: None,
    };
    let cfgs = ConfigLookup::new();
    let gits = GitLookup::new();
    match tidploy::next::state::create_resolve_state(
        addr_in,
        tidploy::next::state::InferContext::Git,
        &info,
        &cfgs,
        &gits,
        MAX_HOPS,
    ) {
        tidploy::next::state::Resolution::Failed(e) => {
            assert!(matches!(e.kind, StateErrorKind::Git(_)))
        },
        _ => panic!("the missing anchor must be reported"),
    }
}

#[test]
fn parse_cli_vars_pairs() {
    let vars = parse_cli_vars(vec![
        "k1".to_owned(),
        "E1".to_owned(),
        "k2".to_owned(),
        "E2".to_owned(),
        "dangling".to_owned(),
    ]);
    assert_eq!(vars.len(), 2);
    assert_eq!(vars[0].key, "k1");
    assert_eq!(vars[0].env_name, "E1");
    assert_eq!(vars[1].key, "k2");
    assert_eq!(vars[1].env_name, "E2");
}

#[test]
fn address_in_constructors() {
    match AddressIn::from_run(Some("/r".to_owned()), None, None) {
        AddressIn::Local(l) => {
            assert_eq!(l.resolve_root, Some("/r".to_owned()));
            assert_eq!(l.state_path, None);
        },
        AddressIn::Git(_) => panic!("local input expected"),
    }
    match AddressIn::from_deploy(Some("u".to_owned()), true, None, None, None, None) {
        AddressIn::Git(g) => {
            assert_eq!(g.url, Some("u".to_owned()));
            assert!(g.local);
            assert_eq!(g.git_ref, None);
        },
        AddressIn::Local(_) => panic!("git input expected"),
    }
}

#[test]
fn state_context_from_str() {
    assert_eq!(StateContext::from_str("none"), Some(StateContext::NoContext));
    assert_eq!(StateContext::from_str("git_local"), Some(StateContext::GitLocal));
    assert_eq!(StateContext::from_str("git_remote"), Some(StateContext::GitRemote));
    assert_eq!(StateContext::from_str("other"), None);
}
