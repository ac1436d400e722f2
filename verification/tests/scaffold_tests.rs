use cfcli::config::{ConfigModuleMetadata, DependencySnapshot};
use cfcli::keymap::KeyMap;
use cfcli::scaffold::{create_features, insert_required_deps, main_import_lines, server_manifest};

fn meta(package: &str) -> ConfigModuleMetadata {
    ConfigModuleMetadata {
        package: Some(package.to_string()),
        version: None,
        features: Vec::new(),
        path: None,
        deps: Vec::new(),
    }
}

#[test]
fn create_features_is_the_fixed_table() {
    let features = create_features();
    assert_eq!(features.len(), 2);
    let default = features.get(&"default".to_string()).unwrap();
    assert!(default.features.is_empty());
    let otel = features.get(&"otel".to_string()).unwrap();
    assert_eq!(otel.features, vec!["modkit/otel".to_string()]);
}

#[test]
fn insert_required_deps_adds_the_five_fixed_entries() {
    let snapshot: DependencySnapshot = KeyMap::new();
    let deps = insert_required_deps(snapshot);
    assert_eq!(deps.len(), 5);

    let modkit = deps.get(&"modkit".to_string()).unwrap();
    assert_eq!(modkit.package.as_deref(), Some("cf-modkit"));
    assert_eq!(modkit.features, vec!["bootstrap".to_string()]);
    assert!(modkit.version.is_none());

    let anyhow = deps.get(&"anyhow".to_string()).unwrap();
    assert_eq!(anyhow.package.as_deref(), Some("anyhow"));
    assert_eq!(anyhow.version.as_deref(), Some("1"));

    let tokio = deps.get(&"tokio".to_string()).unwrap();
    assert_eq!(tokio.features, vec!["full".to_string()]);
    assert_eq!(tokio.version.as_deref(), Some("1"));

    let tracing = deps.get(&"tracing".to_string()).unwrap();
    assert_eq!(tracing.version.as_deref(), Some("0.1"));

    let serde_json = deps.get(&"serde_json".to_string()).unwrap();
    assert_eq!(serde_json.version.as_deref(), Some("1"));
}

#[test]
fn insert_required_deps_shadows_a_declared_module() {
    let mut snapshot: DependencySnapshot = KeyMap::new();
    snapshot.insert("tokio".to_string(), meta("user-tokio"));
    snapshot.insert("mymod".to_string(), meta("my-mod"));
    let deps = insert_required_deps(snapshot);
    assert_eq!(deps.len(), 6);
    let tokio = deps.get(&"tokio".to_string()).unwrap();
    assert_eq!(tokio.package.as_deref(), Some("tokio"));
    let mymod = deps.get(&"mymod".to_string()).unwrap();
    assert_eq!(mymod.package.as_deref(), Some("my-mod"));
}

#[test]
fn server_manifest_has_the_fixed_package_table() {
    let snapshot: DependencySnapshot = KeyMap::new();
    let manifest = server_manifest(snapshot);
    assert_eq!(manifest.package.name, "server");
    assert_eq!(manifest.package.version, "0.0.1");
    assert_eq!(manifest.package.edition, "2024");
    assert_eq!(manifest.dependencies.len(), 5);
    assert_eq!(manifest.features.len(), 2);
    assert_eq!(manifest.workspace.len(), 0);
}

#[test]
fn main_import_lines_names_each_dependency_in_order() {
    let mut snapshot: DependencySnapshot = KeyMap::new();
    snapshot.insert("alpha".to_string(), meta("alpha"));
    snapshot.insert("beta".to_string(), meta("beta"));
    let lines = main_import_lines(&snapshot);
    assert_eq!(lines, "use alpha as _;\nuse beta as _;\n");
}

#[test]
fn main_import_lines_empty_snapshot_is_empty() {
    let snapshot: DependencySnapshot = KeyMap::new();
    assert_eq!(main_import_lines(&snapshot), "");
}
