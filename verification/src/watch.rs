//! The watch set: the filesystem paths registered for change notification,
//! derived from a dependency snapshot, and the diffs that reconcile an old
//! set with a new one.

use vstd::prelude::*;
use crate::config::{ConfigModuleMetadata, DependencySnapshot, MetadataView};
use crate::keymap::{Entry, lemma_as_map_contains, lemma_as_map_index};

verus! {

/// The joined form of a base directory and a relative dependency path.
pub open spec fn joined_path(base: Seq<char>, rel: Seq<char>) -> Seq<char> {
    base + "/"@ + rel
}

/// Joins a base directory and a relative path with a separator.
pub fn join_path(base: &String, rel: &String) -> (r: String)
    ensures
        r@ == joined_path(base@, rel@),
{
    let mut r = base.clone();
    r.append("/");
    r.append(rel.as_str());
    r
}

/// The set of path views held by a sequence of paths.
pub open spec fn as_path_set(s: Seq<String>) -> Set<Seq<char>> {
    Set::new(|p: Seq<char>| exists|i: int| 0 <= i < s.len() && s[i]@ == p)
}

/// The paths a snapshot asks to have watched: one joined path for every
/// module that carries a local source path.
pub open spec fn watch_paths_of(m: Map<Seq<char>, MetadataView>, base: Seq<char>) -> Set<
    Seq<char>,
> {
    Set::new(
        |q: Seq<char>| exists|k: Seq<char>| #[trigger]
            m.contains_key(k) && m[k].path is Some && q == joined_path(base, m[k].path.unwrap()),
    )
}

/// The collection of filesystem paths currently registered for change
/// notification, with no path held twice.
pub struct WatchSet {
    pub paths: Vec<String>,
}

impl View for WatchSet {
    type V = Set<Seq<char>>;

    open spec fn view(&self) -> Set<Seq<char>> {
        as_path_set(self.paths@)
    }
}

impl WatchSet {
    /// No path is held twice.
    pub open spec fn wf(&self) -> bool {
        forall|i: int, j: int| 0 <= i < j < self.paths@.len() ==> self.paths@[i]@
            != self.paths@[j]@
    }

    /// The empty watch set.
    pub fn new() -> (r: Self)
        ensures
            r.wf(),
            r@ == Set::<Seq<char>>::empty(),
            r.paths@.len() == 0,
    {
        let r = WatchSet { paths: Vec::new() };
        proof {
            assert(r@ =~= Set::<Seq<char>>::empty());
        }
        r
    }

    /// How many paths the set holds.
    pub fn len(&self) -> (n: usize)
        ensures
            n == self.paths@.len(),
    {
        self.paths.len()
    }

    /// Whether `p` is registered.
    pub fn contains(&self, p: &String) -> (r: bool)
        ensures
            r == self@.contains(p@),
    {
        let n = self.paths.len();
        for i in 0..n
            invariant
                n == self.paths@.len(),
                forall|j: int| 0 <= j < i ==> self.paths@[j]@ != p@,
        {
            if self.paths[i].eq(p) {
                proof {
                    assert(self.paths@[i as int]@ == p@);
                }
                return true;
            }
        }
        false
    }

    /// Registers a path that is not yet held.
    pub fn insert(&mut self, p: String)
        requires
            old(self).wf(),
            !old(self)@.contains(p@),
        ensures
            final(self).wf(),
            final(self)@ == old(self)@.insert(p@),
            final(self).paths@ == old(self).paths@.push(p),
    {
        proof {
            assert forall|j: int| 0 <= j < self.paths@.len() implies self.paths@[j]@ != p@ by {
                assert(as_path_set(self.paths@).contains(self.paths@[j]@));
            }
        }
        self.paths.push(p);
        proof {
            let s1 = self.paths@;
            let s0 = s1.drop_last();
            assert(s0 =~= old(self).paths@);
            assert forall|q: Seq<char>| as_path_set(s1).contains(q) implies as_path_set(
                s0,
            ).insert(p@).contains(q) by {
                let i = choose|i: int| 0 <= i < s1.len() && s1[i]@ == q;
                if i < s0.len() {
                    assert(s0[i]@ == q);
                }
            }
            assert forall|q: Seq<char>| as_path_set(s0).insert(p@).contains(q) implies as_path_set(
                s1,
            ).contains(q) by {
                if as_path_set(s0).contains(q) {
                    let i = choose|i: int| 0 <= i < s0.len() && s0[i]@ == q;
                    assert(s1[i]@ == q);
                } else {
                    assert(s1[s1.len() - 1]@ == q);
                }
            }
            assert(as_path_set(s1) =~= as_path_set(s0).insert(p@));
        }
    }
}

/// The paths in `a` that are not in `b`: what reconciliation must newly watch
/// or unwatch.
pub fn watch_diff(a: &WatchSet, b: &WatchSet) -> (r: WatchSet)
    requires
        a.wf(),
    ensures
        r.wf(),
        r@ == a@.difference(b@),
{
    let ghost s = a.paths@;
    let mut r = WatchSet::new();
    let n = a.paths.len();
    for i in 0..n
        invariant
            s == a.paths@,
            n == s.len(),
            a.wf(),
            r.wf(),
            r@ == as_path_set(s.subrange(0, i as int)).difference(b@),
    {
        let ghost pre = s.subrange(0, i as int);
        let ghost post = s.subrange(0, i + 1);
        let p = &a.paths[i];
        proof {
            assert forall|q: Seq<char>| as_path_set(post).contains(q) implies as_path_set(
                pre,
            ).insert(p@).contains(q) by {
                let j = choose|j: int| 0 <= j < post.len() && post[j]@ == q;
                if j < pre.len() {
                    assert(pre[j]@ == q);
                }
            }
            assert forall|q: Seq<char>| as_path_set(pre).insert(p@).contains(q) implies as_path_set(
                post,
            ).contains(q) by {
                if as_path_set(pre).contains(q) {
                    let j = choose|j: int| 0 <= j < pre.len() && pre[j]@ == q;
                    assert(post[j]@ == q);
                } else {
                    assert(post[i as int]@ == q);
                }
            }
            assert(as_path_set(post) =~= as_path_set(pre).insert(p@));
            assert forall|j: int| 0 <= j < pre.len() implies pre[j]@ != p@ by {
                assert(pre[j] == s[j]);
            }
        }
        if !b.contains(p) {
            proof {
                assert(!r@.contains(p@));
            }
            r.insert(p.clone());
            proof {
                assert(r@ =~= as_path_set(post).difference(b@));
            }
        } else {
            proof {
                assert(r@ =~= as_path_set(post).difference(b@));
            }
        }
    }
    proof {
        assert(s.subrange(0, s.len() as int) =~= s);
    }
    r
}

/// Derives the watch set of a snapshot: the joined path of every module that
/// carries a local source path, each registered once.
pub fn collect_dep_paths(deps: &DependencySnapshot, base: &String) -> (r: WatchSet)
    requires
        deps.wf(),
    ensures
        r.wf(),
        r@ == watch_paths_of(deps@, base@),
{
    let ghost s = deps.entries@;
    let mut r = WatchSet::new();
    let n = deps.len();
    for i in 0..n
        invariant
            s == deps.entries@,
            n == s.len(),
            deps.wf(),
            r.wf(),
            r@ == seq_watch_paths(s, base@, i as int),
    {
        let entry = &deps.entries[i];
        match &entry.val.path {
            Some(rel) => {
                let joined = join_path(base, rel);
                proof {
                    assert(s[i as int].val.path is Some);
                    assert(s[i as int].val.path.unwrap()@ == rel@);
                }
                if !r.contains(&joined) {
                    r.insert(joined);
                    proof {
                        assert(r@ =~= seq_watch_paths(s, base@, i + 1)) by {
                            lemma_seq_watch_paths_step(s, base@, i as int);
                        }
                    }
                } else {
                    proof {
                        assert(r@ =~= seq_watch_paths(s, base@, i + 1)) by {
                            lemma_seq_watch_paths_step(s, base@, i as int);
                        }
                    }
                }
            },
            None => {
                proof {
                    assert(r@ =~= seq_watch_paths(s, base@, i + 1)) by {
                        lemma_seq_watch_paths_step(s, base@, i as int);
                    }
                }
            },
        }
    }
    proof {
        lemma_seq_watch_paths_full(s, base@);
    }
    r
}

/// The watch paths contributed by the first `n` bindings of a snapshot's
/// entry sequence.
pub open spec fn seq_watch_paths(
    s: Seq<Entry<ConfigModuleMetadata>>,
    base: Seq<char>,
    n: int,
) -> Set<Seq<char>> {
    Set::new(
        |q: Seq<char>| exists|j: int|
            0 <= j < n && j < s.len() && (#[trigger] s[j]).val.path is Some && q == joined_path(
                base,
                s[j].val.path.unwrap()@,
            ),
    )
}

/// Extending the prefix by one binding adds exactly that binding's path,
/// if it has one.
proof fn lemma_seq_watch_paths_step(s: Seq<Entry<ConfigModuleMetadata>>, base: Seq<char>, i: int)
    requires
        0 <= i < s.len(),
    ensures
        s[i].val.path is Some ==> seq_watch_paths(s, base, i + 1) == seq_watch_paths(
            s,
            base,
            i,
        ).insert(joined_path(base, s[i].val.path.unwrap()@)),
        s[i].val.path is None ==> seq_watch_paths(s, base, i + 1) == seq_watch_paths(s, base, i),
{
    if s[i].val.path is Some {
        assert(seq_watch_paths(s, base, i + 1) =~= seq_watch_paths(s, base, i).insert(
            joined_path(base, s[i].val.path.unwrap()@),
        ));
    } else {
        assert(seq_watch_paths(s, base, i + 1) =~= seq_watch_paths(s, base, i));
    }
}

/// Over the whole entry sequence, the prefix paths are the snapshot's watch
/// paths.
proof fn lemma_seq_watch_paths_full(s: Seq<Entry<ConfigModuleMetadata>>, base: Seq<char>)
    requires
        crate::keymap::unique_keys(s),
    ensures
        seq_watch_paths(s, base, s.len() as int) == watch_paths_of(crate::keymap::as_map(s), base),
{
    let m = crate::keymap::as_map(s);
    assert forall|q: Seq<char>| seq_watch_paths(s, base, s.len() as int).contains(
        q,
    ) implies watch_paths_of(m, base).contains(q) by {
        let j = choose|j: int|
            0 <= j < s.len() && (#[trigger] s[j]).val.path is Some && q == joined_path(
                base,
                s[j].val.path.unwrap()@,
            );
        lemma_as_map_index(s, j);
        assert(m.contains_key(s[j].key@));
        assert(m[s[j].key@] == s[j].val@);
        assert(s[j].val@.path == s[j].val.path.deep_view());
        assert(m[s[j].key@].path is Some && q == joined_path(base, m[s[j].key@].path.unwrap()));
    }
    assert forall|q: Seq<char>| watch_paths_of(m, base).contains(q) implies seq_watch_paths(
        s,
        base,
        s.len() as int,
    ).contains(q) by {
        let k = choose|k: Seq<char>| #[trigger]
            m.contains_key(k) && m[k].path is Some && q == joined_path(base, m[k].path.unwrap());
        lemma_as_map_contains(s, k);
        let j = choose|j: int| 0 <= j < s.len() && s[j].key@ == k;
        lemma_as_map_index(s, j);
        assert(s[j].val@.path == s[j].val.path.deep_view());
        assert(s[j].val.path is Some && q == joined_path(base, s[j].val.path.unwrap()@));
    }
    assert(seq_watch_paths(s, base, s.len() as int) =~= watch_paths_of(m, base));
}

/// The directory part of a path: everything before the last separator.
/// `None` when the path has no separator, so nothing can be watched for it.
pub fn parent_dir(path: &String) -> (r: Option<String>)
    ensures
        match r {
            Some(d) => exists|i: int|
                0 <= i < path@.len() && path@[i] == '/' && d@ == path@.subrange(0, i)
                    && forall|j: int| i < j < path@.len() ==> path@[j] != '/',
            None => forall|i: int| 0 <= i < path@.len() ==> path@[i] != '/',
        },
{
    let n = path.as_str().unicode_len();
    let mut i = n;
    while i > 0
        invariant
            n == path@.len(),
            i <= n,
            forall|j: int| i <= j < n ==> path@[j] != '/',
        decreases i,
    {
        i = i - 1;
        if path.as_str().get_char(i) == '/' {
            let d = path.as_str().substring_char(0, i).to_owned();
            proof {
                assert(path@[i as int] == '/' && d@ == path@.subrange(0, i as int));
            }
            return Some(d);
        }
    }
    None
}

} // verus!
