use tidploy::next::config::ArgumentConfig;
use tidploy::next::config::Config;
use tidploy::next::git::parse_ls_remote;
use tidploy::next::git::plan_materialize;
use tidploy::next::git::repo_dir_name;
use tidploy::next::git::snapshot_dir;
use tidploy::next::resolve::resolve_run;
use tidploy::next::resolve::RunArguments;
use tidploy::next::resolve::RunResolution;
use tidploy::next::state::create_resolve_state;
use tidploy::next::state::parse_url_name;
use tidploy::next::state::AddressIn;
use tidploy::next::state::ConfigLookup;
use tidploy::next::state::GitLookup;
use tidploy::next::state::GitResolved;
use tidploy::next::state::InferContext;
use tidploy::next::state::InferInfo;
use tidploy::next::state::Resolution;
use tidploy::next::state::MAX_HOPS;
use tidploy::paths::AbsPath;

fn abs(s: &str) -> AbsPath {
    match AbsPath::parse_absolute(s) {
        Some(p) => p,
        None => panic!("absolute path expected"),
    }
}

/// The full resolution walk for one Git address, driven the way a caller
/// would drive it: the engine asks for the materialization and the
/// snapshot's configuration, the driver supplies them, and the second
/// materialization of the same inputs plans zero git operations.
#[test]
fn git_resolution_end_to_end() {
    let store = abs("/tmp/store");
    let url = "https://example.com/tidploy-demo.git";
    let sha = "0123456789abcdef0123456789abcdef01234567";

    let addr_in =
        AddressIn::from_deploy(Some(url.to_owned()), false, Some("v1.0".to_owned()), None, None, None);
    let info = InferInfo { current_dir: abs("/cwd"), git_origin_url: None, git_root_dir: None };
    let mut cfgs = ConfigLookup::new();
    let mut gits = GitLookup::new();

    // first call: the engine asks for the materialization of the address
    let (need_addr, need_sp, need_sr) = match create_resolve_state(
        AddressIn::from_deploy(
            Some(url.to_owned()),
            false,
            Some("v1.0".to_owned()),
            None,
            None,
            None,
        ),
        InferContext::Cwd,
        &info,
        &cfgs,
        &gits,
        MAX_HOPS,
    ) {
        Resolution::NeedGit(a, p, q) => (a, p, q),
        other => panic!("the materialization should be asked for, got {:?}", kind_of(&other)),
    };
    assert_eq!(need_addr.url, url);
    assert_eq!(need_addr.git_ref, "v1.0");

    // the driver now performs what the original performs: derive the
    // cache keys, resolve the ref, and materialize the snapshot
    let dir_name = repo_dir_name(&need_addr.url).unwrap();
    let ls_out = format!("{} refs/tags/v1.0", sha);
    let commit = parse_ls_remote(&ls_out, &need_addr.git_ref).unwrap();
    assert_eq!(commit, sha);
    let sparse = tidploy::next::git::materialize_paths(&need_addr.path, &need_sr, &need_sp);
    let paths_name = sparse.join("_");
    let repo_dir = store.child(&dir_name);
    let commit_path = snapshot_dir(&store, &dir_name, &commit, &paths_name);
    assert!(commit_path.render().starts_with("/tmp/store/c/tidploy-demo_"));
    let build = plan_materialize(false, &repo_dir, &commit_path, &commit, &sparse).unwrap();
    assert!(build.len() > 0);
    let name = parse_url_name(&need_addr.url).unwrap();
    gits.add(
        need_addr,
        need_sp,
        need_sr,
        GitResolved { name, commit_path: commit_path.dup(), commit: commit.clone() },
    );

    // second call: the engine asks for the snapshot's configuration
    let missing = match create_resolve_state(
        AddressIn::from_deploy(
            Some(url.to_owned()),
            false,
            Some("v1.0".to_owned()),
            None,
            None,
            None,
        ),
        InferContext::Cwd,
        &info,
        &cfgs,
        &gits,
        MAX_HOPS,
    ) {
        Resolution::NeedConfig(d) => d,
        other => panic!("the configuration should be asked for, got {:?}", kind_of(&other)),
    };
    assert_eq!(missing, commit_path.render());

    // the snapshot's root configuration sets the executable
    cfgs.add(
        missing,
        Config {
            argument: Some(ArgumentConfig {
                scope: None,
                executable: Some("run.sh".to_owned()),
                execution_path: None,
                envs: None,
            }),
            state: None,
        },
    );

    // third call: resolution converges
    let rs = match create_resolve_state(addr_in, InferContext::Cwd, &info, &cfgs, &gits, MAX_HOPS)
    {
        Resolution::Done(rs) => rs,
        other => panic!("resolution should converge, got {:?}", kind_of(&other)),
    };
    assert_eq!(rs.resolve_root.render(), commit_path.render());
    assert_eq!(rs.name, "tidploy-demo");
    assert_eq!(rs.hash, sha);

    // the resolved executable sits inside the snapshot
    let rr = match resolve_run(&rs, RunArguments::new_default(), &Vec::new(), &cfgs) {
        RunResolution::Done(rr) => rr,
        RunResolution::NeedConfig(d) => panic!("configuration missing for {}", d),
    };
    let expected = format!("{}/run.sh", commit_path.render());
    assert_eq!(rr.executable.render(), expected);

    // an identical second materialization is a pure cache hit: the same
    // snapshot directory, and no git operation planned at all
    let again = snapshot_dir(&store, &dir_name, &commit, &paths_name);
    assert_eq!(again.render(), commit_path.render());
    assert!(plan_materialize(true, &repo_dir, &commit_path, &commit, &sparse).is_none());
}

fn kind_of(r: &Resolution) -> &'static str {
    match r {
        Resolution::Done(_) => "done",
        Resolution::NeedConfig(_) => "need-config",
        Resolution::NeedGit(_, _, _) => "need-git",
        Resolution::Failed(_) => "failed",
    }
}
