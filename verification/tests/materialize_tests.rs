use chainclone::bundle::{SourceBundle, SourceUnit};
use chainclone::materialize::{plan_bundle, plan_unit};

#[test]
fn nested_path_plans_directory_chain() {
    let unit = SourceUnit { path: "a/b/C.sol".to_string(), content: "content1".to_string() };
    let p = plan_unit("root", &unit);
    assert_eq!(p.file_path, "root/src/a/b/C.sol");
    assert_eq!(p.content, "content1");
    assert_eq!(p.dirs, vec!["root/src/", "root/src/a/", "root/src/a/b/"]);
}

#[test]
fn flat_path_plans_only_source_root() {
    let unit = SourceUnit { path: "D.sol".to_string(), content: "content2".to_string() };
    let p = plan_unit("root", &unit);
    assert_eq!(p.file_path, "root/src/D.sol");
    assert_eq!(p.content, "content2");
    assert_eq!(p.dirs, vec!["root/src/"]);
}

#[test]
fn whole_bundle_plans_in_order() {
    let units = vec![
        SourceUnit { path: "a/b/C.sol".to_string(), content: "content1".to_string() },
        SourceUnit { path: "D.sol".to_string(), content: "content2".to_string() },
    ];
    let bundle = SourceBundle::new(units).unwrap();
    let plans = plan_bundle("root", &bundle);
    assert_eq!(plans.len(), 2);
    assert_eq!(plans[0].file_path, "root/src/a/b/C.sol");
    assert_eq!(plans[0].content, "content1");
    assert_eq!(plans[0].dirs, vec!["root/src/", "root/src/a/", "root/src/a/b/"]);
    assert_eq!(plans[1].file_path, "root/src/D.sol");
    assert_eq!(plans[1].content, "content2");
    assert_eq!(plans[1].dirs, vec!["root/src/"]);
}

#[test]
fn deep_chain_has_one_dir_per_slash() {
    let unit = SourceUnit { path: "a/b/c/d/E.sol".to_string(), content: "x".to_string() };
    let p = plan_unit("r", &unit);
    assert_eq!(
        p.dirs,
        vec!["r/src/", "r/src/a/", "r/src/a/b/", "r/src/a/b/c/", "r/src/a/b/c/d/"]
    );
    assert_eq!(p.file_path, "r/src/a/b/c/d/E.sol");
}
