use cfcli::config::{ConfigModuleMetadata, DependencySnapshot};
use cfcli::keymap::KeyMap;
use cfcli::watch::{WatchSet, collect_dep_paths, join_path, parent_dir, watch_diff};

fn meta_with_path(package: &str, path: Option<&str>) -> ConfigModuleMetadata {
    ConfigModuleMetadata {
        package: Some(package.to_string()),
        version: None,
        features: Vec::new(),
        path: path.map(|s| s.to_string()),
        deps: Vec::new(),
    }
}

fn watch_set_of(paths: Vec<&str>) -> WatchSet {
    let mut ws = WatchSet::new();
    for p in paths {
        ws.insert(p.to_string());
    }
    ws
}

#[test]
fn join_path_inserts_one_separator() {
    assert_eq!(join_path(&"proj".to_string(), &"./a".to_string()), "proj/./a");
}

#[test]
fn collect_dep_paths_takes_only_modules_with_local_paths() {
    let mut snapshot: DependencySnapshot = KeyMap::new();
    snapshot.insert("a".to_string(), meta_with_path("a", Some("./a")));
    snapshot.insert("b".to_string(), meta_with_path("b", None));
    let ws = collect_dep_paths(&snapshot, &"proj".to_string());
    assert_eq!(ws.paths, vec!["proj/./a".to_string()]);
}

#[test]
fn collect_dep_paths_registers_a_shared_path_once() {
    let mut snapshot: DependencySnapshot = KeyMap::new();
    snapshot.insert("a".to_string(), meta_with_path("a", Some("./shared")));
    snapshot.insert("b".to_string(), meta_with_path("b", Some("./shared")));
    let ws = collect_dep_paths(&snapshot, &"proj".to_string());
    assert_eq!(ws.len(), 1);
    assert!(ws.contains(&"proj/./shared".to_string()));
}

#[test]
fn watch_diff_is_exactly_the_set_difference() {
    let old_set = watch_set_of(vec!["proj/./a", "proj/./b"]);
    let new_set = watch_set_of(vec!["proj/./b", "proj/./c"]);
    let to_unwatch = watch_diff(&old_set, &new_set);
    let to_watch = watch_diff(&new_set, &old_set);
    assert_eq!(to_unwatch.paths, vec!["proj/./a".to_string()]);
    assert_eq!(to_watch.paths, vec!["proj/./c".to_string()]);
}

#[test]
fn watch_diff_no_path_is_double_watched() {
    let old_set = watch_set_of(vec!["proj/./a"]);
    let new_set = watch_set_of(vec!["proj/./a", "proj/./b"]);
    let to_watch = watch_diff(&new_set, &old_set);
    assert_eq!(to_watch.len(), 1);
    assert!(!to_watch.contains(&"proj/./a".to_string()));
    assert!(to_watch.contains(&"proj/./b".to_string()));
}

#[test]
fn watch_diff_equal_sets_is_empty() {
    let old_set = watch_set_of(vec!["proj/./a"]);
    let new_set = watch_set_of(vec!["proj/./a"]);
    assert_eq!(watch_diff(&old_set, &new_set).len(), 0);
    assert_eq!(watch_diff(&new_set, &old_set).len(), 0);
}

#[test]
fn parent_dir_takes_everything_before_the_last_separator() {
    assert_eq!(parent_dir(&"dir/sub/config.yaml".to_string()), Some("dir/sub".to_string()));
    assert_eq!(parent_dir(&"./cyberfabric.yaml".to_string()), Some(".".to_string()));
}

#[test]
fn parent_dir_without_separator_is_none() {
    assert_eq!(parent_dir(&"cyberfabric.yaml".to_string()), None);
    assert_eq!(parent_dir(&"".to_string()), None);
}
