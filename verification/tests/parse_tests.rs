use tidploy::errors::AddressError;
use tidploy::git::parse_repo_url;
use tidploy::next::state::parse_url_name;

#[test]
fn parse_test_git() {
    let git_url = "https://github.com/tiptenbrink/tidploy.git".to_owned();
    let encoded_url = "aHR0cHM6Ly9naXRodWIuY29tL3RpcHRlbmJyaW5r".to_owned();
    let name = "tidploy".to_owned();
    assert_eq!(
        parse_repo_url(git_url.clone()).unwrap().encoded_url,
        encoded_url
    );
    assert_eq!(parse_repo_url(git_url.clone()).unwrap().name, name);
    assert_eq!(parse_repo_url(git_url.clone()).unwrap().url, git_url);
}

#[test]
fn parse_test_local() {
    let path = "/home/tiptenbrink/tidploy/".to_owned();
    let path_no_slash = "/home/tiptenbrink/tidploy".to_owned();
    let encoded_url = "L2hvbWUvdGlwdGVuYnJpbms".to_owned();
    let name = "tidploy".to_owned();
    assert_eq!(
        parse_repo_url(path.clone()).unwrap().encoded_url,
        encoded_url
    );
    assert_eq!(parse_repo_url(path.clone()).unwrap().name, name);
    assert_eq!(parse_repo_url(path).unwrap().url, path_no_slash);
    assert_eq!(
        parse_repo_url(path_no_slash.clone()).unwrap().url,
        path_no_slash
    );
}

#[test]
fn url_name_simple() {
    assert_eq!(parse_url_name("https://example.com/a/b/repo.git").unwrap(), "repo");
    assert_eq!(parse_url_name("repo").unwrap(), "repo");
    assert_eq!(parse_url_name("/home/someone/project/").unwrap(), "project");
    assert_eq!(parse_url_name("name.tar.gz").unwrap(), "name");
}

#[test]
fn url_name_empty_is_rejected() {
    match parse_url_name("") {
        Err(AddressError::RepoParse(u)) => assert_eq!(u, ""),
        other => panic!("expected a parse failure, got {:?}", other),
    }
    assert!(parse_url_name(".git").is_err());
}

#[test]
fn repo_dir_name_is_name_and_hash() {
    let url = "https://example.com/group/repo.git";
    let dir = tidploy::next::git::repo_dir_name(url).unwrap();
    assert!(dir.starts_with("repo_"));
    assert_eq!(dir.len(), "repo_".len() + 8);
    // identical URLs map to the identical directory
    assert_eq!(dir, tidploy::next::git::repo_dir_name(url).unwrap());
}
