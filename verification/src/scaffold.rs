//! The inputs of the scaffold generator: the manifest value written for the
//! generated server crate and the import lines of its entry point.

use vstd::prelude::*;
use crate::config::{ConfigModuleMetadata, DependencySnapshot, MetadataView, metadata_default};
use crate::keymap::{Entry, KeyMap};

verus! {

/// The mathematical content of the generated package table.
#[verifier::ext_equal]
pub struct PackageView {
    pub name: Seq<char>,
    pub version: Seq<char>,
    pub edition: Seq<char>,
}

/// The `[package]` table of the generated manifest.
pub struct Package {
    pub name: String,
    pub version: String,
    pub edition: String,
}

impl View for Package {
    type V = PackageView;

    open spec fn view(&self) -> PackageView {
        PackageView { name: self.name@, version: self.version@, edition: self.edition@ }
    }
}

/// The package table of every generated server crate.
pub open spec fn package_default() -> PackageView {
    PackageView { name: "server"@, version: "0.0.1"@, edition: "2024"@ }
}

impl Default for Package {
    /// The generated server crate's fixed name, version and edition.
    fn default() -> (r: Self)
        ensures
            r@ == package_default(),
    {
        let r = Package {
            name: "server".to_owned(),
            version: "0.0.1".to_owned(),
            edition: "2024".to_owned(),
        };
        proof {
            assert(r@ =~= package_default());
        }
        r
    }
}

/// One feature of the generated crate: the features it enables in turn.
pub struct FeatureList {
    pub features: Vec<String>,
}

impl View for FeatureList {
    type V = Seq<Seq<char>>;

    open spec fn view(&self) -> Seq<Seq<char>> {
        self.features.deep_view()
    }
}

/// The manifest value of the generated server crate.
pub struct CargoToml {
    pub package: Package,
    pub dependencies: DependencySnapshot,
    pub features: KeyMap<FeatureList>,
    pub workspace: KeyMap<FeatureList>,
}

/// The feature table of every generated server crate: a `default` feature
/// enabling nothing and an `otel` feature enabling the toolkit's telemetry.
pub open spec fn features_view() -> Map<Seq<char>, Seq<Seq<char>>> {
    Map::empty().insert("default"@, Seq::empty()).insert("otel"@, seq!["modkit/otel"@])
}

/// Builds the fixed feature table of the generated crate.
pub fn create_features() -> (r: KeyMap<FeatureList>)
    ensures
        r.wf(),
        r@ == features_view(),
{
    let mut r: KeyMap<FeatureList> = KeyMap::new();
    let empty: FeatureList = FeatureList { features: Vec::new() };
    proof {
        assert(empty@ =~= Seq::<Seq<char>>::empty());
    }
    r.insert("default".to_owned(), empty);
    let mut otel_features: Vec<String> = Vec::new();
    otel_features.push("modkit/otel".to_owned());
    let otel: FeatureList = FeatureList { features: otel_features };
    proof {
        assert(otel@ =~= seq!["modkit/otel"@]);
    }
    r.insert("otel".to_owned(), otel);
    proof {
        assert(r@ =~= features_view());
    }
    r
}

/// The metadata of the toolkit runtime dependency.
pub open spec fn modkit_metadata() -> MetadataView {
    MetadataView { package: Some("cf-modkit"@), features: seq!["bootstrap"@], ..metadata_default() }
}

/// The metadata of the error-handling dependency.
pub open spec fn anyhow_metadata() -> MetadataView {
    MetadataView { package: Some("anyhow"@), version: Some("1"@), ..metadata_default() }
}

/// The metadata of the async runtime dependency.
pub open spec fn tokio_metadata() -> MetadataView {
    MetadataView {
        package: Some("tokio"@),
        features: seq!["full"@],
        version: Some("1"@),
        ..metadata_default()
    }
}

/// The metadata of the tracing dependency.
pub open spec fn tracing_metadata() -> MetadataView {
    MetadataView { package: Some("tracing"@), version: Some("0.1"@), ..metadata_default() }
}

/// The metadata of the JSON dependency.
pub open spec fn serde_json_metadata() -> MetadataView {
    MetadataView { package: Some("serde_json"@), version: Some("1"@), ..metadata_default() }
}

/// A snapshot with the five dependencies every generated crate needs bound to
/// their fixed metadata, shadowing any module of the same name.
pub open spec fn with_required_deps(m: Map<Seq<char>, MetadataView>) -> Map<
    Seq<char>,
    MetadataView,
> {
    m.insert("modkit"@, modkit_metadata()).insert("anyhow"@, anyhow_metadata()).insert(
        "tokio"@,
        tokio_metadata(),
    ).insert("tracing"@, tracing_metadata()).insert("serde_json"@, serde_json_metadata())
}

/// Binds a package and an optional version, all other metadata empty.
fn plain_dep(package: &'static str, version: Option<&'static str>) -> (r: ConfigModuleMetadata)
    ensures
        r@ == (MetadataView {
            package: Some(package@),
            version: match version {
                Some(v) => Some(v@),
                None => None,
            },
            ..metadata_default()
        }),
{
    let r = ConfigModuleMetadata {
        package: Some(package.to_owned()),
        version: match version {
            Some(v) => Some(v.to_owned()),
            None => None,
        },
        features: Vec::new(),
        path: None,
        deps: Vec::new(),
    };
    proof {
        assert(r@ =~= (MetadataView {
            package: Some(package@),
            version: match version {
                Some(v) => Some(v@),
                None => None,
            },
            ..metadata_default()
        }));
    }
    r
}

/// Adds the dependencies every generated crate needs, replacing any module
/// that declared one of their names.
pub fn insert_required_deps(dependencies: DependencySnapshot) -> (r: DependencySnapshot)
    requires
        dependencies.wf(),
    ensures
        r.wf(),
        r@ == with_required_deps(dependencies@),
{
    let mut r = dependencies;

    let mut modkit = plain_dep("cf-modkit", None);
    modkit.features.push("bootstrap".to_owned());
    proof {
        assert(modkit@ =~= modkit_metadata());
    }
    r.insert("modkit".to_owned(), modkit);

    r.insert("anyhow".to_owned(), plain_dep("anyhow", Some("1")));

    let mut tokio = plain_dep("tokio", Some("1"));
    tokio.features.push("full".to_owned());
    proof {
        assert(tokio@ =~= tokio_metadata());
    }
    r.insert("tokio".to_owned(), tokio);

    r.insert("tracing".to_owned(), plain_dep("tracing", Some("0.1")));

    r.insert("serde_json".to_owned(), plain_dep("serde_json", Some("1")));

    proof {
        assert(r@ =~= with_required_deps(dependencies@));
    }
    r
}

/// Builds the manifest value of the generated server crate: the fixed
/// package table, the snapshot's dependencies together with the required
/// ones, the fixed feature table, and an empty workspace table.
pub fn server_manifest(dependencies: DependencySnapshot) -> (r: CargoToml)
    requires
        dependencies.wf(),
    ensures
        r.package@ == package_default(),
        r.dependencies.wf(),
        r.dependencies@ == with_required_deps(dependencies@),
        r.features.wf(),
        r.features@ == features_view(),
        r.workspace@ == Map::<Seq<char>, Seq<Seq<char>>>::empty(),
{
    CargoToml {
        package: Package::default(),
        dependencies: insert_required_deps(dependencies),
        features: create_features(),
        workspace: KeyMap::new(),
    }
}

/// The import lines of the generated entry point: one `use ... as _;` line
/// per dependency, in the snapshot's order.
pub open spec fn import_lines(s: Seq<Entry<ConfigModuleMetadata>>) -> Seq<char>
    decreases s.len(),
{
    if s.len() == 0 {
        Seq::empty()
    } else {
        import_lines(s.drop_last()) + "use "@ + s.last().key@ + " as _;\n"@
    }
}

/// Renders the import lines of the generated entry point, one per dependency.
pub fn main_import_lines(dependencies: &DependencySnapshot) -> (r: String)
    ensures
        r@ == import_lines(dependencies.entries@),
{
    let ghost s = dependencies.entries@;
    let mut r = String::new();
    let n = dependencies.len();
    for i in 0..n
        invariant
            s == dependencies.entries@,
            n == s.len(),
            r@ == import_lines(s.subrange(0, i as int)),
    {
        r.append("use ");
        r.append(dependencies.entries[i].key.as_str());
        r.append(" as _;\n");
        proof {
            assert(s.subrange(0, i + 1).drop_last() =~= s.subrange(0, i as int));
            assert(s.subrange(0, i + 1).last() == s[i as int]);
        }
    }
    proof {
        assert(s.subrange(0, s.len() as int) =~= s);
    }
    r
}

} // verus!
