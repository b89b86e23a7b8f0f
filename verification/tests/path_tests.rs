use tidploy::paths::clean;
use tidploy::paths::AbsPath;
use tidploy::paths::ParsedPath;
use tidploy::paths::RelPath;

#[test]
fn clean_basics() {
    assert_eq!(clean("/a/b/../c"), "/a/c");
    assert_eq!(clean("/a/./b"), "/a/b");
    assert_eq!(clean("a//b/"), "a/b");
    assert_eq!(clean(""), ".");
    assert_eq!(clean("."), ".");
    assert_eq!(clean("/.."), "/");
    assert_eq!(clean("../a"), "../a");
    assert_eq!(clean("a/.."), ".");
}

#[test]
fn rel_parse_and_render() {
    let r = RelPath::parse("./this/that");
    assert_eq!(r.render(), "this/that");
    let r2 = RelPath::parse("this/that");
    assert!(r.same(&r2));
    let up = RelPath::parse("a/../../b");
    assert_eq!(up.render(), "../b");
    assert!(RelPath::parse("").is_empty());
}

#[test]
fn abs_parse_join_render() {
    let base = match AbsPath::parse_absolute("/base/dir") {
        Some(p) => p,
        None => panic!("absolute path expected"),
    };
    assert_eq!(base.render(), "/base/dir");
    let joined = base.join_rel(&RelPath::parse("x/../y/z"));
    assert_eq!(joined.render(), "/base/dir/y/z");
    let popped = base.join_rel(&RelPath::parse("../../../.."));
    assert_eq!(popped.render(), "/");
    match AbsPath::parse_path("relative/path") {
        ParsedPath::Relative(r) => assert_eq!(r.render(), "relative/path"),
        ParsedPath::Absolute(_) => panic!("relative path expected"),
    }
}

#[test]
fn component_paths_simple() {
    let base = match AbsPath::parse_absolute("/base") {
        Some(p) => p,
        None => panic!("absolute path expected"),
    };
    let rel1 = RelPath::parse("./this/that");
    let rel2 = RelPath::parse("this/that");
    let paths1 = base.component_paths(&rel1);
    let paths2 = base.component_paths(&rel2);
    let rendered1: Vec<String> = paths1.iter().map(|p| p.render()).collect();
    let rendered2: Vec<String> = paths2.iter().map(|p| p.render()).collect();
    assert_eq!(rendered1, vec!["/base/this".to_owned(), "/base/this/that".to_owned()]);
    assert_eq!(rendered1, rendered2);
}
