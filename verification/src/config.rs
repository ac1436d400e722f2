//! The declarative module config and the dependency snapshot derived from it.

use vstd::prelude::*;
use crate::error::Error;
use crate::keymap::{Entry, KeyMap, as_map, lemma_as_map_contains, lemma_as_map_index, unique_keys};

verus! {

/// The mathematical content of one module's build metadata.
#[verifier::ext_equal]
pub struct MetadataView {
    pub package: Option<Seq<char>>,
    pub version: Option<Seq<char>>,
    pub features: Seq<Seq<char>>,
    pub path: Option<Seq<char>>,
    pub deps: Seq<Seq<char>>,
}

/// Build metadata of one module: package reference, version constraint
/// (`None` is the unconstrained sentinel), feature set, optional local source
/// path, and declared sub-dependencies.
pub struct ConfigModuleMetadata {
    pub package: Option<String>,
    pub version: Option<String>,
    pub features: Vec<String>,
    pub path: Option<String>,
    pub deps: Vec<String>,
}

impl View for ConfigModuleMetadata {
    type V = MetadataView;

    open spec fn view(&self) -> MetadataView {
        MetadataView {
            package: self.package.deep_view(),
            version: self.version.deep_view(),
            features: self.features.deep_view(),
            path: self.path.deep_view(),
            deps: self.deps.deep_view(),
        }
    }
}

/// The metadata of a module that declares nothing.
pub open spec fn metadata_default() -> MetadataView {
    MetadataView {
        package: None,
        version: None,
        features: Seq::empty(),
        path: None,
        deps: Seq::empty(),
    }
}

impl Default for ConfigModuleMetadata {
    /// All fields absent or empty.
    fn default() -> (r: Self)
        ensures
            r@ == metadata_default(),
    {
        let r = ConfigModuleMetadata {
            package: None,
            version: None,
            features: Vec::new(),
            path: None,
            deps: Vec::new(),
        };
        proof {
            assert(r@ =~= metadata_default());
        }
        r
    }
}

/// Copies an optional string, keeping its content.
pub(crate) fn clone_opt_string(a: &Option<String>) -> (r: Option<String>)
    ensures
        r.deep_view() == a.deep_view(),
{
    match a {
        Some(s) => Some(s.clone()),
        None => None,
    }
}

/// Copies a vector of strings, keeping its content.
fn clone_string_vec(a: &Vec<String>) -> (r: Vec<String>)
    ensures
        r.deep_view() == a.deep_view(),
{
    let r = a.clone();
    proof {
        assert(r.deep_view() =~= a.deep_view());
    }
    r
}

impl Clone for ConfigModuleMetadata {
    /// The copy has the same view.
    fn clone(&self) -> (r: Self)
        ensures
            r@ == self@,
    {
        let r = ConfigModuleMetadata {
            package: clone_opt_string(&self.package),
            version: clone_opt_string(&self.version),
            features: clone_string_vec(&self.features),
            path: clone_opt_string(&self.path),
            deps: clone_string_vec(&self.deps),
        };
        proof {
            assert(r@ =~= self@);
        }
        r
    }
}

/// Whether two optional strings hold the same content.
fn eq_opt_string(a: &Option<String>, b: &Option<String>) -> (r: bool)
    ensures
        r == (a.deep_view() == b.deep_view()),
{
    match (a, b) {
        (None, None) => true,
        (Some(x), Some(y)) => x.eq(y),
        _ => false,
    }
}

/// Whether two vectors of strings hold the same content, in the same order.
fn eq_string_vec(a: &Vec<String>, b: &Vec<String>) -> (r: bool)
    ensures
        r == (a.deep_view() == b.deep_view()),
{
    if a.len() != b.len() {
        proof {
            assert(a.deep_view().len() == a@.len());
            assert(b.deep_view().len() == b@.len());
        }
        return false;
    }
    let n = a.len();
    for i in 0..n
        invariant
            n == a@.len(),
            a@.len() == b@.len(),
            forall|j: int| 0 <= j < i ==> a.deep_view()[j] == b.deep_view()[j],
    {
        if !a[i].eq(&b[i]) {
            proof {
                assert(a.deep_view()[i as int] == a@[i as int]@);
                assert(b.deep_view()[i as int] == b@[i as int]@);
                assert(a.deep_view()[i as int] != b.deep_view()[i as int]);
            }
            return false;
        }
    }
    proof {
        assert(a.deep_view() =~= b.deep_view());
    }
    true
}

impl ConfigModuleMetadata {
    /// Whether two metadata records agree on every field.
    pub fn metadata_eq(&self, other: &Self) -> (r: bool)
        ensures
            r == (self@ == other@),
    {
        let r = eq_opt_string(&self.package, &other.package)
            && eq_opt_string(&self.version, &other.version)
            && eq_string_vec(&self.features, &other.features)
            && eq_opt_string(&self.path, &other.path)
            && eq_string_vec(&self.deps, &other.deps);
        proof {
            if r {
                assert(self@ =~= other@);
            }
        }
        r
    }
}

/// One module as declared in the config.
pub struct ConfigModule {
    pub metadata: ConfigModuleMetadata,
}

impl View for ConfigModule {
    type V = MetadataView;

    open spec fn view(&self) -> MetadataView {
        self.metadata@
    }
}

/// The declarative list of modules, keyed by module name.
pub struct Config {
    pub modules: KeyMap<ConfigModule>,
}

impl View for Config {
    type V = Map<Seq<char>, MetadataView>;

    open spec fn view(&self) -> Map<Seq<char>, MetadataView> {
        self.modules@
    }
}

/// A fully resolved mapping from dependency key to module metadata, produced
/// atomically on startup and on every classified config change.
pub type DependencySnapshot = KeyMap<ConfigModuleMetadata>;

/// The underscored form of a package name: every '-' replaced by '_'.
pub open spec fn underscored(s: Seq<char>) -> Seq<char> {
    s.map_values(|c: char| if c == '-' { '_' } else { c })
}

/// Relies on str::replace: with a one-character pattern and a one-character
/// replacement it maps exactly that character, pointwise, nothing else.
#[verifier::external_body]
fn replace_dashes(s: &String) -> (r: String)
    ensures
        r@ == underscored(s@),
{
    s.replace('-', "_")
}

/// Whether every module in the sequence carries a package name.
pub open spec fn all_have_packages(s: Seq<Entry<ConfigModule>>) -> bool {
    forall|i: int| 0 <= i < s.len() ==> s[i].val.metadata.package is Some
}

/// The snapshot described by a sequence of modules: each module's metadata
/// keyed by the underscored form of its package name; later modules win.
pub open spec fn dependencies_of(s: Seq<Entry<ConfigModule>>) -> Map<Seq<char>, MetadataView>
    decreases s.len(),
{
    if s.len() == 0 {
        Map::empty()
    } else {
        let key = match s.last().val.metadata.package {
            Some(p) => underscored(p@),
            None => Seq::empty(),
        };
        dependencies_of(s.drop_last()).insert(key, s.last().val@)
    }
}

impl Config {
    /// Keys are pairwise distinct.
    pub open spec fn wf(&self) -> bool {
        self.modules.wf()
    }

    /// Builds the dependency snapshot: each module's metadata keyed by the
    /// underscored form of its package name. Succeeds exactly when every
    /// module carries a package name; otherwise reports the first module
    /// that lacks one.
    pub fn create_dependencies(self) -> (r: Result<DependencySnapshot, Error>)
        requires
            self.wf(),
        ensures
            r is Ok <==> all_have_packages(self.modules.entries@),
            r matches Ok(d) ==> d.wf() && d@ == dependencies_of(self.modules.entries@),
            r matches Err(e) ==> (e matches Error::MissingPackage { module } && exists|i: int|
                0 <= i < self.modules.entries@.len()
                    && self.modules.entries@[i].key@ == module@
                    && self.modules.entries@[i].val.metadata.package is None),
    {
        let ghost s = self.modules.entries@;
        let mut dependencies: DependencySnapshot = KeyMap::new();
        let n = self.modules.len();
        for i in 0..n
            invariant
                s == self.modules.entries@,
                n == s.len(),
                dependencies.wf(),
                dependencies@ == dependencies_of(s.subrange(0, i as int)),
                forall|j: int| 0 <= j < i ==> s[j].val.metadata.package is Some,
        {
            let entry = &self.modules.entries[i];
            match &entry.val.metadata.package {
                Some(package) => {
                    let key = replace_dashes(package);
                    dependencies.insert(key, entry.val.metadata.clone());
                    proof {
                        assert(s.subrange(0, i + 1).drop_last() =~= s.subrange(0, i as int));
                        assert(s.subrange(0, i + 1).last() == s[i as int]);
                    }
                },
                None => {
                    return Err(Error::MissingPackage { module: entry.key.clone() });
                },
            }
        }
        proof {
            assert(s.subrange(0, s.len() as int) =~= s);
        }
        Ok(dependencies)
    }

    /// Replaces the metadata of every module whose name also appears in
    /// `members` (metadata extracted from the project's crates); modules
    /// without a matching crate keep the declared metadata. The set of
    /// module names is unchanged.
    pub fn apply_crate_metadata(&mut self, members: &KeyMap<ConfigModule>)
        requires
            old(self).wf(),
            members.wf(),
        ensures
            final(self).wf(),
            final(self)@.dom() == old(self)@.dom(),
            forall|k: Seq<char>| #[trigger] old(self)@.contains_key(k) ==> final(self)@[k] == (
                if members@.contains_key(k) {
                    members@[k]
                } else {
                    old(self)@[k]
                }
            ),
    {
        let ghost s0 = self.modules.entries@;
        let mut merged: Vec<Entry<ConfigModule>> = Vec::new();
        let n = self.modules.len();
        for i in 0..n
            invariant
                s0 == self.modules.entries@,
                n == s0.len(),
                members.wf(),
                merged@.len() == i,
                forall|j: int| #![auto] 0 <= j < i ==> merged@[j].key@ == s0[j].key@,
                forall|j: int| #![auto] 0 <= j < i ==> merged@[j].val@ == (
                    if members@.contains_key(s0[j].key@) {
                        members@[s0[j].key@]
                    } else {
                        s0[j].val@
                    }
                ),
        {
            let entry = &self.modules.entries[i];
            let key = entry.key.clone();
            let val = match members.get(&key) {
                Some(m) => ConfigModule { metadata: m.metadata.clone() },
                None => ConfigModule { metadata: entry.val.metadata.clone() },
            };
            merged.push(Entry { key, val });
        }
        proof {
            assert(unique_keys(merged@)) by {
                assert forall|p: int, q: int|
                    0 <= p < q < merged@.len() implies merged@[p].key@ != merged@[q].key@ by {
                    assert(merged@[p].key@ == s0[p].key@);
                    assert(merged@[q].key@ == s0[q].key@);
                }
            }
        }
        self.modules.entries = merged;
        proof {
            let s1 = self.modules.entries@;
            assert forall|k: Seq<char>| #[trigger]
                as_map(s0).contains_key(k) implies as_map(s1).contains_key(k) by {
                lemma_as_map_contains(s0, k);
                lemma_as_map_contains(s1, k);
            }
            assert forall|k: Seq<char>| #[trigger]
                as_map(s1).contains_key(k) implies as_map(s0).contains_key(k) by {
                lemma_as_map_contains(s0, k);
                lemma_as_map_contains(s1, k);
            }
            assert(as_map(s1).dom() =~= as_map(s0).dom());
            assert forall|k: Seq<char>| #[trigger] as_map(s0).contains_key(k) implies as_map(s1)[k]
                == (if members@.contains_key(k) {
                members@[k]
            } else {
                as_map(s0)[k]
            }) by {
                lemma_as_map_contains(s0, k);
                let i = choose|i: int| 0 <= i < s0.len() && s0[i].key@ == k;
                lemma_as_map_index(s0, i);
                lemma_as_map_index(s1, i);
            }
        }
    }
}

/// Copies a snapshot, keeping its bindings and their order.
pub fn snapshot_clone(a: &DependencySnapshot) -> (r: DependencySnapshot)
    requires
        a.wf(),
    ensures
        r.wf(),
        r@ == a@,
        r.entries@.len() == a.entries@.len(),
        forall|i: int| #![auto] 0 <= i < a.entries@.len() ==> r.entries@[i].key@
            == a.entries@[i].key@ && r.entries@[i].val@ == a.entries@[i].val@,
{
    let ghost s = a.entries@;
    let mut entries: Vec<Entry<ConfigModuleMetadata>> = Vec::new();
    let n = a.entries.len();
    for i in 0..n
        invariant
            s == a.entries@,
            n == s.len(),
            entries@.len() == i,
            forall|j: int| #![auto] 0 <= j < i ==> entries@[j].key@ == s[j].key@
                && entries@[j].val@ == s[j].val@,
    {
        let e = &a.entries[i];
        entries.push(Entry { key: e.key.clone(), val: e.val.clone() });
    }
    let r = KeyMap { entries };
    proof {
        assert(unique_keys(r.entries@)) by {
            assert forall|i: int, j: int|
                0 <= i < j < r.entries@.len() implies r.entries@[i].key@ != r.entries@[j].key@ by {
                assert(r.entries@[i].key@ == s[i].key@);
                assert(r.entries@[j].key@ == s[j].key@);
            }
        }
        lemma_as_map_congruent(s, r.entries@);
    }
    r
}

/// Binding sequences equal in keys and value views describe the same map.
proof fn lemma_as_map_congruent(
    a: Seq<Entry<ConfigModuleMetadata>>,
    b: Seq<Entry<ConfigModuleMetadata>>,
)
    requires
        a.len() == b.len(),
        forall|i: int| #![auto] 0 <= i < a.len() ==> b[i].key@ == a[i].key@ && b[i].val@
            == a[i].val@,
    ensures
        as_map(b) == as_map(a),
    decreases a.len(),
{
    if a.len() > 0 {
        lemma_as_map_congruent(a.drop_last(), b.drop_last());
        assert(as_map(b) =~= as_map(a));
    } else {
        assert(as_map(b) =~= as_map(a));
    }
}

/// Whether every binding of `a` also stands in `b`, with the same value.
fn snapshot_includes(a: &DependencySnapshot, b: &DependencySnapshot) -> (r: bool)
    requires
        a.wf(),
        b.wf(),
    ensures
        r == forall|k: Seq<char>| #[trigger] a@.contains_key(k) ==> b@.contains_key(k) && b@[k]
            == a@[k],
{
    let n = a.len();
    for i in 0..n
        invariant
            a.wf(),
            b.wf(),
            n == a.entries@.len(),
            forall|j: int| #![auto] 0 <= j < i ==> b@.contains_key(a.entries@[j].key@)
                && b@.index(a.entries@[j].key@) == a.entries@[j].val@,
    {
        let entry = &a.entries[i];
        proof {
            lemma_as_map_index(a.entries@, i as int);
        }
        match b.get(&entry.key) {
            Some(v) => {
                if !v.metadata_eq(&entry.val) {
                    proof {
                        assert(a@.contains_key(entry.key@) && !(b@.contains_key(entry.key@)
                            && b@.index(entry.key@) == a@.index(entry.key@)));
                    }
                    return false;
                }
            },
            None => {
                proof {
                    assert(a@.contains_key(entry.key@) && !b@.contains_key(entry.key@));
                }
                return false;
            },
        }
    }
    proof {
        assert forall|k: Seq<char>| #[trigger]
            a@.contains_key(k) implies b@.contains_key(k) && b@[k] == a@[k] by {
            lemma_as_map_contains(a.entries@, k);
            let i = choose|i: int| 0 <= i < a.entries@.len() && a.entries@[i].key@ == k;
            lemma_as_map_index(a.entries@, i);
        }
    }
    true
}

/// Whether two snapshots are equal as mappings, the comparison that decides
/// whether a config edit is a no-op reload.
pub fn snapshot_eq(a: &DependencySnapshot, b: &DependencySnapshot) -> (r: bool)
    requires
        a.wf(),
        b.wf(),
    ensures
        r == (a@ == b@),
{
    let r = snapshot_includes(a, b) && snapshot_includes(b, a);
    proof {
        if r {
            assert(a@ =~= b@);
        }
    }
    r
}

} // verus!
