use windman::install::preserve_after_install;
use windman::listing::{
    available_versions, collect_installed, current_name, has_unique_names, plan_switch,
    select_rollback, DirEntry,
    SwitchPlan,
};
use windman::error::ManagerError;
use windman::prune::prune_plan;

fn dir(name: &str, modified: u128) -> DirEntry {
    DirEntry { name: name.to_string(), is_dir: true, modified }
}

fn file(name: &str, modified: u128) -> DirEntry {
    DirEntry { name: name.to_string(), is_dir: false, modified }
}

fn names(v: &[&str]) -> Vec<String> {
    v.iter().map(|s| s.to_string()).collect()
}

#[test]
fn collects_and_marks_current() {
    let entries = vec![dir("1.12.9", 10), dir("1.12.11", 20), dir("current", 30)];
    let got = collect_installed(&entries, &Some("1.12.9".to_string()));
    assert_eq!(got[0].0, "1.12.11");
    assert_eq!(got[1].0, "1.12.9");
    assert!(got.iter().find(|(n, _)| n == "1.12.9").unwrap().1);
}

#[test]
fn listing_orders_non_semver_names_descending() {
    let entries = vec![dir("alpha", 1), dir("20240101000000", 2), file("notes", 3), dir("beta", 4)];
    let got = collect_installed(&entries, &None);
    let order: Vec<&str> = got.iter().map(|(n, _)| n.as_str()).collect();
    assert_eq!(order, vec!["beta", "alpha", "20240101000000"]);
    assert!(got.iter().all(|(_, c)| !c));
}

#[test]
fn switches_current_symlink_to_requested_version() {
    let entries = vec![dir("1.12.10", 1), dir("1.12.11", 2)];
    let plan = plan_switch("/v", &entries, &Some("1.12.10".to_string()), "1.12.11").unwrap();
    assert_eq!(plan, SwitchPlan::Activate(1));
    assert_eq!(entries[1].name, "1.12.11");
}

#[test]
fn switching_to_the_active_version_changes_nothing() {
    let entries = vec![dir("1.12.10", 1), dir("1.12.11", 2)];
    let plan = plan_switch("/v", &entries, &Some("1.12.11".to_string()), "1.12.11").unwrap();
    assert_eq!(plan, SwitchPlan::AlreadyActive);
}

#[test]
fn errors_if_version_missing_with_available_list() {
    let entries = vec![dir("1.12.11", 1)];
    let err = plan_switch("/tmp/x/versions", &entries, &None, "1.12.9").unwrap_err();
    let msg = err.message();
    assert!(msg.contains("/tmp/x/versions"));
    assert!(msg.contains("not found"));
    assert!(msg.contains("1.12.11"));
}

#[test]
fn missing_version_lists_available_sorted_and_skips_current_and_files() {
    let entries = vec![dir("b", 1), dir("current", 2), file("a.txt", 3), dir("a", 4)];
    match plan_switch("/v", &entries, &None, "current") {
        Err(ManagerError::VersionNotFound { root, requested, available }) => {
            assert_eq!(root, "/v");
            assert_eq!(requested, "current");
            assert_eq!(available, names(&["a", "b"]));
        }
        other => panic!("unexpected {:?}", other),
    }
    assert_eq!(available_versions(&entries), names(&["a", "b"]));
    let none = plan_switch("/v", &vec![], &None, "1.0.0").unwrap_err();
    assert_eq!(none.message(), "version '1.0.0' not found under /v.\nAvailable: <none>");
}

#[test]
fn rollback_with_one_version_is_refused() {
    let entries = vec![dir("1.0.0", 5), dir("current", 9)];
    let r = select_rollback(&entries, &Some("1.0.0".to_string()));
    assert!(matches!(r, Err(ManagerError::NotEnoughVersions)));
    assert!(matches!(select_rollback(&vec![], &None), Err(ManagerError::NotEnoughVersions)));
}

#[test]
fn rollback_picks_newest_non_current() {
    let entries = vec![dir("1.0.0", 1), dir("1.0.1", 3), dir("1.0.2", 2), file("x", 9)];
    assert_eq!(select_rollback(&entries, &Some("1.0.1".to_string())).unwrap(), 2);
    assert_eq!(select_rollback(&entries, &Some("1.0.2".to_string())).unwrap(), 1);
    assert_eq!(select_rollback(&entries, &None).unwrap(), 1);
}

#[test]
fn rollback_ties_go_to_last_listed() {
    let entries = vec![dir("a", 7), dir("b", 7), dir("c", 1)];
    assert_eq!(select_rollback(&entries, &Some("c".to_string())).unwrap(), 1);
}

#[test]
fn prune_keeps_n_newest_and_preserves_current() {
    let entries = vec![dir("1.0.0", 100), dir("1.0.1", 110), dir("1.0.2", 120), dir("current", 130)];
    let doomed = prune_plan(&entries, 2, &names(&["1.0.2"]));
    assert_eq!(doomed, vec![0]);
}

#[test]
fn prune_with_keep_zero_deletes_nothing() {
    let entries = vec![dir("1.0.0", 1), dir("1.0.1", 2), dir("1.0.2", 3)];
    assert!(prune_plan(&entries, 0, &vec![]).is_empty());
}

#[test]
fn prune_spares_preserved_directories_beyond_keep() {
    let entries = vec![dir("1.0.0", 1), dir("1.0.1", 2), dir("1.0.2", 3), dir("1.0.3", 4)];
    let doomed = prune_plan(&entries, 1, &names(&["1.0.0"]));
    assert_eq!(doomed, vec![1, 2]);
}

#[test]
fn prune_breaks_time_ties_by_listing_order() {
    let entries = vec![dir("x", 5), dir("y", 5), dir("z", 5)];
    assert_eq!(prune_plan(&entries, 1, &vec![]), vec![1, 2]);
}

#[test]
fn second_install_prunes_first_unless_preserved() {
    let entries = vec![dir("1.0.0", 10), dir("1.1.0", 20), dir("current", 30)];
    let only_new = preserve_after_install(&Some("/v/1.1.0".to_string()), &None);
    assert_eq!(prune_plan(&entries, 1, &only_new), vec![0]);
    let with_previous =
        preserve_after_install(&Some("/v/1.1.0".to_string()), &Some("/v/1.0.0".to_string()));
    assert!(prune_plan(&entries, 1, &with_previous).is_empty());
}

#[test]
fn current_name_is_the_target_file_name() {
    assert_eq!(current_name(&Some("/home/u/opt/1.2.3".to_string())).as_deref(), Some("1.2.3"));
    assert!(current_name(&None).is_none());
}

#[test]
fn each_error_has_a_message() {
    let cases = vec![
        (ManagerError::ArchiveUnreadable { path: "a.tgz".into() }, "cannot open archive a.tgz"),
        (ManagerError::ArchiveCorrupt { path: "a.tgz".into() }, "cannot unpack archive a.tgz"),
        (ManagerError::DestinationUnwritable { path: "/v".into() }, "cannot write /v"),
        (ManagerError::ActivationFailed { path: "/v/current".into() }, "cannot switch the link /v/current"),
        (ManagerError::NotEnoughVersions, "no previous version to roll back to"),
        (
            ManagerError::VersionNotFound {
                root: "/v".into(),
                requested: "9".into(),
                available: names(&["1", "2"]),
            },
            "version '9' not found under /v.\nAvailable: 1, 2",
        ),
        (ManagerError::PruneSkipped { path: "/v/1.0.0".into() }, "could not prune /v/1.0.0"),
        (ManagerError::RemoteVersionUnparsable { version: "x".into() }, "cannot parse remote version x"),
    ];
    for (e, want) in cases {
        assert_eq!(e.message(), want);
    }
}

#[test]
fn staging_directories_are_never_versions() {
    let entries = vec![
        dir("1.0.0", 1),
        dir("1.0.1", 2),
        dir(".staging-20250101000000-77", 9),
        dir(".staging-", 10),
        dir(".stagingx", 3),
    ];
    assert_eq!(available_versions(&entries), names(&[".stagingx", "1.0.0", "1.0.1"]));
    assert_eq!(select_rollback(&entries, &Some("1.0.0".to_string())).unwrap(), 4);
    assert_eq!(select_rollback(&entries, &Some(".stagingx".to_string())).unwrap(), 1);
    assert!(prune_plan(&entries, 1, &vec![]).iter().all(|&i| i != 2 && i != 3));
    assert!(plan_switch("/v", &entries, &None, ".staging-").is_err());
    let got = collect_installed(&entries, &None);
    assert!(got.iter().all(|(n, _)| !n.starts_with(".staging-")));
}

#[test]
fn lone_version_beside_staging_cannot_roll_back() {
    let entries = vec![dir("1.0.0", 1), dir(".staging-20250101000000-77", 9)];
    let r = select_rollback(&entries, &Some("1.0.0".to_string()));
    assert!(matches!(r, Err(ManagerError::NotEnoughVersions)));
}

#[test]
fn unique_names_check() {
    assert!(has_unique_names(&vec![dir("a", 1), dir("b", 2), file("a", 3), dir("current", 4)]));
    assert!(!has_unique_names(&vec![dir("a", 1), dir("b", 2), dir("a", 3)]));
    assert!(has_unique_names(&vec![]));
}
