use sha2::Digest;

use tidploy::errors::GitError;
use tidploy::next::git::hash_last_n;
use tidploy::next::git::parse_ls_remote;
use tidploy::next::git::plan_materialize;
use tidploy::next::git::plan_ref_resolution;
use tidploy::next::git::plan_repo_cache;
use tidploy::next::git::repo_dir_name;
use tidploy::next::git::snapshot_dir;
use tidploy::next::git::str_last_n;
use tidploy::next::git::materialize_paths;
use tidploy::next::git::CacheAction;
use tidploy::paths::AbsPath;
use tidploy::paths::RelPath;

fn abs(s: &str) -> AbsPath {
    match AbsPath::parse_absolute(s) {
        Some(p) => p,
        None => panic!("absolute path expected"),
    }
}

#[test]
fn hash_last_n_matches_reference_digest() {
    let input = "https://example.com/group/repo.git";
    let mut digest = sha2::Sha256::digest(input.as_bytes()).to_vec();
    digest.reverse();
    let mut expected = String::new();
    for b in digest {
        expected.push(char::from_digit((b / 16) as u32, 16).unwrap());
        expected.push(char::from_digit((b % 16) as u32, 16).unwrap());
    }
    expected.truncate(8);
    assert_eq!(hash_last_n(input, 8), expected);
    // the hash really depends on the input
    assert_ne!(hash_last_n(input, 8), hash_last_n("something else", 8));
}

#[test]
fn hash_last_n_length_boundaries() {
    assert_eq!(hash_last_n("x", 64).chars().count(), 64);
    // a cut beyond the digest keeps the whole 64 characters
    assert_eq!(hash_last_n("x", 64), hash_last_n("x", 1000));
    assert_eq!(hash_last_n("x", 0), "");
}

#[test]
fn str_last_n_takes_suffix() {
    assert_eq!(str_last_n("abcdefgh", 3), "fgh");
    assert_eq!(str_last_n("ab", 2), "ab");
}

#[test]
fn ls_remote_zero_lines_takes_pattern_as_commit() {
    assert_eq!(parse_ls_remote("", "abc123").unwrap(), "abc123");
    assert_eq!(parse_ls_remote("  \n ", "abc123").unwrap(), "abc123");
}

#[test]
fn ls_remote_single_ref() {
    let out = "1111111111 refs/tags/v1\n";
    assert_eq!(parse_ls_remote(out, "v1").unwrap(), "1111111111");
}

#[test]
fn ls_remote_agreeing_refs() {
    let out = "2222 refs/heads/main\n2222 refs/tags/v1";
    assert_eq!(parse_ls_remote(out, "v1").unwrap(), "2222");
}

#[test]
fn ls_remote_prefers_peeled_tag() {
    // the annotated tag object and its peeled target differ; the peeled
    // `^{}` entry names the commit
    let out = "aaaa refs/tags/v1\nbbbb refs/tags/v1^{}";
    assert_eq!(parse_ls_remote(out, "v1").unwrap(), "bbbb");
    let flipped = "bbbb refs/tags/v1^{}\naaaa refs/tags/v1";
    assert_eq!(parse_ls_remote(flipped, "v1").unwrap(), "bbbb");
}

#[test]
fn ls_remote_two_unpeeled_refs_fail() {
    let out = "aaaa refs/tags/v1\nbbbb refs/heads/v1";
    match parse_ls_remote(out, "v1") {
        Err(GitError::Failed(m)) => {
            assert_eq!(m, "could not choose a commit from two refs for the pattern")
        },
        other => panic!("expected a failure, got {:?}", other),
    }
}

#[test]
fn ls_remote_many_distinct_refs_fail() {
    let out = "aaaa refs/tags/v1\nbbbb refs/tags/v1.1\ncccc refs/tags/v1.2";
    match parse_ls_remote(out, "v1") {
        Err(GitError::Failed(m)) => {
            assert_eq!(m, "pattern is not specific enough to determine a commit")
        },
        other => panic!("expected a failure, got {:?}", other),
    }
}

#[test]
fn ls_remote_ignores_remote_tracking_refs() {
    let out = "aaaa refs/remotes/origin/v1\nbbbb refs/tags/v1";
    assert_eq!(parse_ls_remote(out, "v1").unwrap(), "bbbb");
}

#[test]
fn ls_remote_malformed_line_fails() {
    let out = "justonefield";
    match parse_ls_remote(out, "v1") {
        Err(GitError::Failed(m)) => {
            assert_eq!(m, "ls-remote returned a line without exactly two fields")
        },
        other => panic!("expected a failure, got {:?}", other),
    }
}

#[test]
fn snapshot_dir_is_content_addressed() {
    let store = abs("/tmp/store");
    let commit = "0123456789abcdef0123456789abcdef01234567";
    let d1 = snapshot_dir(&store, "repo_12345678", commit, "_");
    let d2 = snapshot_dir(&store, "repo_12345678", commit, "_");
    assert_eq!(d1.render(), d2.render());
    assert!(d1.render().starts_with("/tmp/store/c/repo_12345678/"));
    // the last ten commit characters key the snapshot
    assert!(d1.render().contains("ef01234567"));
    let other = snapshot_dir(&store, "repo_12345678", commit, "_sub/dir");
    assert_ne!(d1.render(), other.render());
}

#[test]
fn materialize_paths_are_sorted() {
    let addr = RelPath::parse("target");
    let root = RelPath::parse("zroot");
    let path = RelPath::parse("a/b");
    let paths = materialize_paths(&addr, &root, &path);
    assert_eq!(paths, vec!["target/a/b".to_owned(), "target/zroot".to_owned()]);
    let empty = materialize_paths(&RelPath::empty(), &RelPath::empty(), &RelPath::empty());
    assert_eq!(empty, vec!["".to_owned(), "".to_owned()]);
}

#[test]
fn cache_hit_plans_nothing() {
    let store = abs("/tmp/store");
    let repo_dir = abs("/tmp/store/repo_12345678");
    let commit = "0123456789abcdef0123456789abcdef01234567";
    let commit_path = snapshot_dir(&store, "repo_12345678", commit, "_");
    // an existing snapshot is a pure cache hit: zero git operations
    let sparse = vec!["".to_owned(), "".to_owned()];
    assert!(plan_materialize(true, &repo_dir, &commit_path, commit, &sparse).is_none());
    assert!(plan_repo_cache(true, &store, "repo_12345678", "repo", "u").is_none());
}

#[test]
fn materialize_plan_builds_snapshot() {
    let store = abs("/tmp/store");
    let repo_dir = abs("/tmp/store/repo_12345678");
    let commit = "0123456789abcdef0123456789abcdef01234567";
    let commit_path = snapshot_dir(&store, "repo_12345678", commit, "_");
    let sparse = vec!["".to_owned(), "".to_owned()];
    let actions = plan_materialize(false, &repo_dir, &commit_path, commit, &sparse).unwrap();
    assert_eq!(actions.len(), 7);
    let tmp = format!("{}.tmp", commit_path.render());
    match &actions[0] {
        CacheAction::RunGit(cmd) => {
            assert_eq!(cmd.working_dir, "/tmp/store/repo_12345678");
            assert_eq!(cmd.args, vec!["fetch".to_owned()]);
        },
        other => panic!("a fetch was expected first, got {:?}", other),
    }
    match &actions[1] {
        CacheAction::CopyDir { from, to } => {
            assert_eq!(from, "/tmp/store/repo_12345678");
            assert_eq!(to, &tmp);
        },
        other => panic!("the copy was expected, got {:?}", other),
    }
    match &actions[2] {
        CacheAction::RunGit(cmd) => {
            assert_eq!(cmd.working_dir, tmp);
            assert_eq!(cmd.args, vec!["checkout".to_owned(), commit.to_owned()]);
        },
        other => panic!("a checkout was expected, got {:?}", other),
    }
    match &actions[3] {
        CacheAction::RunGit(cmd) => {
            assert_eq!(
                cmd.args,
                vec![
                    "sparse-checkout".to_owned(),
                    "set".to_owned(),
                    "".to_owned(),
                    "".to_owned(),
                ]
            );
        },
        other => panic!("the sparse set was expected, got {:?}", other),
    }
    match &actions[5] {
        CacheAction::WriteFile { path, content } => {
            assert!(path.starts_with(&tmp));
            assert!(content.starts_with(&format!("commit:{}\npaths:", commit)));
        },
        other => panic!("the metadata write was expected, got {:?}", other),
    }
    // the finished snapshot is moved into place atomically at the end
    match &actions[6] {
        CacheAction::RenameDir { from, to } => {
            assert_eq!(from, &tmp);
            assert_eq!(to, &commit_path.render());
        },
        other => panic!("the rename was expected last, got {:?}", other),
    }
}

#[test]
fn cached_repo_plans_only_the_ref_query() {
    // with the repository cached, the whole repository stage plans no
    // setup: the single ls-remote ref query is all that remains, and an
    // existing snapshot plans nothing either
    let store = abs("/tmp/store");
    let (setup, query) = plan_ref_resolution(true, &store, "repo_12345678", "repo", "u", "v1");
    assert!(setup.is_none());
    assert_eq!(query.working_dir, "/tmp/store/repo_12345678");
    assert_eq!(
        query.args,
        vec!["ls-remote".to_owned(), "origin".to_owned(), "v1".to_owned()]
    );
    // a missing repository adds the clone setup in front of the query
    let (setup, _query) = plan_ref_resolution(false, &store, "repo_12345678", "repo", "u", "v1");
    assert_eq!(setup.unwrap().len(), 3);
}

#[test]
fn repo_cache_plan_clones_sparse() {
    let store = abs("/tmp/store");
    let actions =
        plan_repo_cache(false, &store, "repo_12345678", "repo", "https://x/repo.git").unwrap();
    assert_eq!(actions.len(), 3);
    match &actions[0] {
        CacheAction::RunGit(cmd) => {
            assert_eq!(cmd.working_dir, "/tmp/store");
            assert_eq!(
                cmd.args,
                vec![
                    "clone".to_owned(),
                    "--filter=tree:0".to_owned(),
                    "--sparse".to_owned(),
                    "--no-checkout".to_owned(),
                    "https://x/repo.git".to_owned(),
                    "repo_12345678".to_owned(),
                ]
            );
        },
        other => panic!("a clone was expected first, got {:?}", other),
    }
    match &actions[1] {
        CacheAction::RunGit(cmd) => {
            assert_eq!(cmd.working_dir, "/tmp/store/repo_12345678");
            assert_eq!(
                cmd.args,
                vec!["sparse-checkout".to_owned(), "init".to_owned(), "--cone".to_owned()]
            );
        },
        other => panic!("the sparse init was expected, got {:?}", other),
    }
    let dir = repo_dir_name("https://x/repo.git").unwrap();
    assert!(dir.starts_with("repo_"));
}
