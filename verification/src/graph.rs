//! The content graph: a path-addressable view over all produced chunks plus
//! the synthetic HTML bootstrap asset, materialized either eagerly (every
//! node computed and cached at construction) or lazily (each node computed on
//! first lookup and cached thereafter).
//!
//! Both strategies answer every lookup identically; the only difference is
//! when the computation happens. The node cache is an association list in
//! insertion order: the first completed computation for a path wins, and a
//! cached path is never recomputed until the external watcher invalidates
//! it.

use vstd::prelude::*;
use crate::assembly::{groups_view, ChunkGroup, GroupV};
use crate::lookup::{assoc_has_key, find_entry, lemma_unique_keys_push, unique_keys};
use crate::paths::{join, join_spec};

verus! {

/// Spec-level image of an [`HtmlAsset`].
pub ghost struct HtmlV {
    pub path: Seq<char>,
    pub groups: Seq<GroupV>,
}

/// The bootstrap HTML document at `<client_root>/index.html`: it enumerates
/// the chunk groups of the build in entry-request order.
#[derive(Debug)]
pub struct HtmlAsset {
    pub path: String,
    pub groups: Vec<ChunkGroup>,
}

/// The bootstrap asset built for a client root and the assembled groups.
pub open spec fn html_of(client_root: Seq<char>, groups: Seq<GroupV>) -> HtmlV {
    HtmlV { path: join_spec(client_root, "index.html"@), groups }
}

impl View for HtmlAsset {
    type V = HtmlV;

    open spec fn view(&self) -> HtmlV {
        HtmlV { path: self.path@, groups: groups_view(self.groups@) }
    }
}

impl Clone for HtmlAsset {
    fn clone(&self) -> (r: Self)
        ensures
            r@ == self@,
    {
        let groups = self.groups.clone();
        proof {
            assert(groups_view(groups@) =~= groups_view(self.groups@));
        }
        HtmlAsset { path: self.path.clone(), groups }
    }
}

impl HtmlAsset {
    /// Places the bootstrap document at `<client_root>/index.html`, listing
    /// the chunk groups in entry-request order.
    pub fn new(client_root: &String, groups: Vec<ChunkGroup>) -> (r: HtmlAsset)
        ensures
            r@ == html_of(client_root@, groups_view(groups@)),
    {
        HtmlAsset { path: join(client_root, "index.html"), groups }
    }
}

/// Spec-level image of a [`ContentNode`].
pub ghost enum NodeV {
    Chunk(crate::assembly::ChunkV),
    Html(HtmlV),
}

/// The servable unit: a chunk group's root chunk, or the bootstrap asset.
#[derive(Debug)]
pub enum ContentNode {
    Chunk(crate::assembly::Chunk),
    Html(HtmlAsset),
}

impl View for ContentNode {
    type V = NodeV;

    open spec fn view(&self) -> NodeV {
        match self {
            ContentNode::Chunk(c) => NodeV::Chunk(c@),
            ContentNode::Html(h) => NodeV::Html(h@),
        }
    }
}

impl Clone for ContentNode {
    fn clone(&self) -> (r: Self)
        ensures
            r@ == self@,
    {
        match self {
            ContentNode::Chunk(c) => ContentNode::Chunk(c.clone()),
            ContentNode::Html(h) => ContentNode::Html(h.clone()),
        }
    }
}

pub open spec fn opt_node_view(o: Option<ContentNode>) -> Option<NodeV> {
    match o {
        Some(n) => Some(n@),
        None => None,
    }
}

/// `i` is the position of the first chunk group whose root chunk is served
/// at `path`.
pub open spec fn first_match_at(groups: Seq<GroupV>, path: Seq<char>, i: int) -> bool {
    &&& 0 <= i < groups.len()
    &&& groups[i].root.output_path == path
    &&& forall|j: int| 0 <= j < i ==> (#[trigger] groups[j]).root.output_path != path
}

/// What a content graph over the bootstrap asset `h` serves at `path`: the
/// bootstrap document at its own path, otherwise the root chunk of the first
/// group served at `path`, otherwise nothing (an absent path is a normal,
/// non-error empty result).
pub open spec fn lookup_of(h: HtmlV, path: Seq<char>) -> Option<NodeV> {
    if path == h.path {
        Some(NodeV::Html(h))
    } else if exists|i: int| first_match_at(h.groups, path, i) {
        Some(NodeV::Chunk(h.groups[choose|i: int| first_match_at(h.groups, path, i)].root))
    } else {
        None
    }
}

proof fn lemma_first_match_unique(groups: Seq<GroupV>, path: Seq<char>, i: int, k: int)
    requires
        first_match_at(groups, path, i),
        first_match_at(groups, path, k),
    ensures
        i == k,
{
}

proof fn lemma_has_key_push<V>(s: Seq<(String, V)>, e: (String, V), key: Seq<char>)
    requires
        assoc_has_key(s, key) || e.0@ == key,
    ensures
        assoc_has_key(s.push(e), key),
{
    if assoc_has_key(s, key) {
        let k = choose|k: int| 0 <= k < s.len() && s[k].0@ == key;
        assert(s.push(e)[k].0@ == key);
    } else {
        assert(s.push(e)[s.len() as int].0@ == key);
    }
}

/// The full mapping from logical request paths to servable nodes, rooted at
/// the client output directory. One value serves both lifecycles: an eager
/// graph has every reachable node cached at construction, a lazy graph
/// caches each node on its first lookup.
#[derive(Debug)]
pub struct ContentGraph {
    pub client_root: String,
    pub bootstrap: HtmlAsset,
    /// The node cache, in insertion order; the first entry for a path wins.
    pub cache: Vec<(String, ContentNode)>,
    pub eager: bool,
}

/// How one lookup for `p` may change the graph: the inputs are untouched; a
/// cached path is served without recomputation; an uncached reachable path is
/// materialized exactly once and cached; an absent path changes nothing.
pub open spec fn get_step(pre: ContentGraph, post: ContentGraph, p: Seq<char>) -> bool {
    &&& post.bootstrap@ == pre.bootstrap@
    &&& post.client_root@ == pre.client_root@
    &&& post.eager == pre.eager
    &&& (assoc_has_key(pre.cache@, p) ==> post.cache@ == pre.cache@)
    &&& (!assoc_has_key(pre.cache@, p) && lookup_of(pre.bootstrap@, p) is Some ==> {
        &&& post.cache@.len() == pre.cache@.len() + 1
        &&& assoc_has_key(post.cache@, p)
    })
    &&& (!assoc_has_key(pre.cache@, p) && lookup_of(pre.bootstrap@, p) is None ==> post.cache@
        == pre.cache@)
    &&& (lookup_of(pre.bootstrap@, p) is Some ==> assoc_has_key(post.cache@, p))
}

impl ContentGraph {
    /// How many nodes have been materialized so far: exactly one per cached
    /// path, since the first completed computation for a path wins and a
    /// cached path is never recomputed.
    pub open spec fn materializations(&self) -> nat {
        self.cache@.len()
    }

    /// Every cached node is what the graph serves at its path, and no path
    /// has more than one cache entry (the first writer for a path wins).
    pub open spec fn wf(&self) -> bool {
        &&& forall|k: int|
            0 <= k < self.cache@.len() ==> lookup_of(
                self.bootstrap@,
                (#[trigger] self.cache@[k]).0@,
            ) == Some(self.cache@[k].1@)
        &&& unique_keys(self.cache@)
    }

    /// Every reachable path is cached: what an eager graph establishes at
    /// construction, and what lookups preserve until a path is invalidated.
    pub open spec fn complete(&self) -> bool {
        forall|p: Seq<char>|
            (#[trigger] lookup_of(self.bootstrap@, p)) is Some ==> assoc_has_key(self.cache@, p)
    }

    /// Number of nodes materialized so far.
    pub fn materialization_count(&self) -> (n: usize)
        ensures
            n == self.materializations(),
    {
        self.cache.len()
    }

    /// Builds a lazy graph: nothing is materialized until the first lookup.
    pub fn new_lazy(client_root: String, bootstrap: HtmlAsset) -> (r: ContentGraph)
        ensures
            r.wf(),
            r.bootstrap@ == bootstrap@,
            r.client_root@ == client_root@,
            r.eager == false,
            r.materializations() == 0,
    {
        ContentGraph { client_root, bootstrap, cache: Vec::new(), eager: false }
    }

    /// Builds an eager graph: walks the bootstrap asset and every chunk group
    /// root, materializing the full path-to-node mapping before returning.
    pub fn new_eager(client_root: String, bootstrap: HtmlAsset) -> (r: ContentGraph)
        ensures
            r.wf(),
            r.complete(),
            r.bootstrap@ == bootstrap@,
            r.client_root@ == client_root@,
            r.eager == true,
    {
        let mut cache: Vec<(String, ContentNode)> = Vec::new();
        let first = (bootstrap.path.clone(), ContentNode::Html(bootstrap.clone()));
        cache.push(first);
        proof {
            assert(cache@[0].0@ == bootstrap@.path);
        }
        let mut i: usize = 0;
        while i < bootstrap.groups.len()
            invariant
                i <= bootstrap.groups@.len(),
                assoc_has_key(cache@, bootstrap@.path),
                unique_keys(cache@),
                forall|k: int|
                    0 <= k < cache@.len() ==> lookup_of(bootstrap@, (#[trigger] cache@[k]).0@)
                        == Some(cache@[k].1@),
                forall|j: int|
                    0 <= j < i ==> assoc_has_key(
                        cache@,
                        (#[trigger] bootstrap@.groups[j]).root.output_path,
                    ),
            decreases bootstrap.groups@.len() - i,
        {
            let p = bootstrap.groups[i].root.output_path.clone();
            match find_entry(&cache, &p) {
                Some(_) => {
                    // an earlier writer already materialized this path
                },
                None => {
                    proof {
                        // p is fresh, so it is not the bootstrap path and no
                        // earlier group is served at it
                        assert(p@ != bootstrap@.path);
                        assert forall|j: int| 0 <= j < i implies (#[trigger] bootstrap@.groups[j]).root.output_path
                            != p@ by {
                            let k = choose|k: int|
                                0 <= k < cache@.len() && cache@[k].0@
                                    == bootstrap@.groups[j].root.output_path;
                        }
                        assert(first_match_at(bootstrap@.groups, p@, i as int));
                    }
                    let node = ContentNode::Chunk(bootstrap.groups[i].root.clone());
                    let ghost pre = cache@;
                    cache.push((p, node));
                    proof {
                        let ghost e = cache@[cache@.len() - 1];
                        assert(cache@.drop_last() =~= pre);
                        lemma_unique_keys_push(pre, e);
                        lemma_has_key_push(pre, e, bootstrap@.path);
                        assert forall|j: int| 0 <= j <= i implies assoc_has_key(
                            cache@,
                            (#[trigger] bootstrap@.groups[j]).root.output_path,
                        ) by {
                            if j < i {
                                lemma_has_key_push(pre, e, bootstrap@.groups[j].root.output_path);
                            } else {
                                assert(e.0@ == bootstrap@.groups[i as int].root.output_path);
                                lemma_has_key_push(pre, e, bootstrap@.groups[j].root.output_path);
                            }
                        }
                        let k0 = choose|k: int| first_match_at(bootstrap@.groups, e.0@, k);
                        lemma_first_match_unique(bootstrap@.groups, e.0@, i as int, k0);
                        assert(lookup_of(bootstrap@, e.0@) == Some(e.1@));
                    }
                },
            }
            i = i + 1;
        }
        proof {
            assert forall|p: Seq<char>| (#[trigger] lookup_of(bootstrap@, p)) is Some implies assoc_has_key(
                cache@,
                p,
            ) by {
                if p != bootstrap@.path {
                    let k = choose|k: int| first_match_at(bootstrap@.groups, p, k);
                    assert(first_match_at(bootstrap@.groups, p, k));
                    assert(assoc_has_key(cache@, bootstrap@.groups[k].root.output_path));
                }
            }
        }
        ContentGraph { client_root, bootstrap, cache, eager: true }
    }

    /// Serves the node at `path`, or `None` for an absent path. A cached path
    /// is answered from the cache without recomputation; an uncached
    /// reachable path is materialized once and cached for every later
    /// lookup.
    pub fn get(&mut self, path: &String) -> (r: Option<ContentNode>)
        requires
            old(self).wf(),
        ensures
            final(self).wf(),
            get_step(*old(self), *final(self), path@),
            opt_node_view(r) == lookup_of(old(self).bootstrap@, path@),
            old(self).complete() ==> final(self).cache@ == old(self).cache@
                && final(self).complete(),
    {
        match find_entry(&self.cache, path) {
            Some(i) => {
                let node = self.cache[i].1.clone();
                return Some(node);
            },
            None => {},
        }
        if self.bootstrap.path == *path {
            let node = ContentNode::Html(self.bootstrap.clone());
            let ghost pre = self.cache@;
            self.cache.push((path.clone(), node.clone()));
            proof {
                let ghost e = self.cache@[self.cache@.len() - 1];
                assert(self.cache@.drop_last() =~= pre);
                lemma_has_key_push(pre, e, path@);
                self.lemma_wf_after_insert(pre, e);
            }
            return Some(node);
        }
        let ghost b = self.bootstrap@;
        let mut i: usize = 0;
        while i < self.bootstrap.groups.len()
            invariant
                old(self).wf(),
                *self == *old(self),
                b == self.bootstrap@,
                i <= self.bootstrap.groups@.len(),
                self.bootstrap.path@ != path@,
                !assoc_has_key(self.cache@, path@),
                forall|j: int|
                    0 <= j < i ==> (#[trigger] b.groups[j]).root.output_path != path@,
            decreases self.bootstrap.groups@.len() - i,
        {
            if self.bootstrap.groups[i].root.output_path == *path {
                proof {
                    assert(first_match_at(b.groups, path@, i as int));
                }
                let node = ContentNode::Chunk(self.bootstrap.groups[i].root.clone());
                let ghost pre = self.cache@;
                self.cache.push((path.clone(), node.clone()));
                proof {
                    let ghost e = self.cache@[self.cache@.len() - 1];
                    assert(self.cache@.drop_last() =~= pre);
                    lemma_has_key_push(pre, e, path@);
                    let k0 = choose|k: int| first_match_at(b.groups, path@, k);
                    lemma_first_match_unique(b.groups, path@, i as int, k0);
                    assert(lookup_of(b, path@) == Some(e.1@));
                    self.lemma_wf_after_insert(pre, e);
                }
                return Some(node);
            }
            i = i + 1;
        }
        proof {
            if exists|k: int| first_match_at(b.groups, path@, k) {
                let k = choose|k: int| first_match_at(b.groups, path@, k);
                assert(b.groups[k].root.output_path != path@);
            }
        }
        None
    }

    /// The invalidate-by-key primitive for the external watcher
    /// collaborator: drops the cached node for `path`, so the next lookup
    /// for that path recomputes it; every other cached path is kept. What
    /// the graph serves does not change, only when it is recomputed.
    pub fn invalidate(&mut self, path: &String)
        requires
            old(self).wf(),
        ensures
            final(self).wf(),
            final(self).bootstrap@ == old(self).bootstrap@,
            final(self).client_root@ == old(self).client_root@,
            final(self).eager == old(self).eager,
            !assoc_has_key(final(self).cache@, path@),
            forall|q: Seq<char>|
                q != path@ ==> (assoc_has_key(final(self).cache@, q) <==> assoc_has_key(
                    old(self).cache@,
                    q,
                )),
            assoc_has_key(old(self).cache@, path@) ==> final(self).materializations() + 1 == old(self).materializations(),
            !assoc_has_key(old(self).cache@, path@) ==> final(self).cache@ == old(self).cache@,
    {
        match find_entry(&self.cache, path) {
            Some(i) => {
                let ghost pre = self.cache@;
                self.cache.remove(i);
                proof {
                    pre.remove_ensures(i as int);
                    assert forall|k: int| 0 <= k < self.cache@.len() implies (
                    #[trigger] self.cache@[k]).0@ != path@ by {
                        if k < i {
                            assert(self.cache@[k] == pre[k]);
                        } else {
                            assert(self.cache@[k] == pre[k + 1]);
                        }
                    }
                    assert forall|k: int| 0 <= k < self.cache@.len() implies lookup_of(
                        self.bootstrap@,
                        (#[trigger] self.cache@[k]).0@,
                    ) == Some(self.cache@[k].1@) by {
                        if k < i {
                            assert(self.cache@[k] == pre[k]);
                        } else {
                            assert(self.cache@[k] == pre[k + 1]);
                        }
                    }
                    assert forall|k1: int, k2: int|
                        0 <= k1 < k2 < self.cache@.len() implies (#[trigger] self.cache@[k1]).0@
                        != (#[trigger] self.cache@[k2]).0@ by {
                        if k2 < i {
                            assert(self.cache@[k1] == pre[k1]);
                            assert(self.cache@[k2] == pre[k2]);
                        } else if k1 < i {
                            assert(self.cache@[k1] == pre[k1]);
                            assert(self.cache@[k2] == pre[k2 + 1]);
                        } else {
                            assert(self.cache@[k1] == pre[k1 + 1]);
                            assert(self.cache@[k2] == pre[k2 + 1]);
                        }
                    }
                    assert forall|q: Seq<char>| q != path@ implies (assoc_has_key(self.cache@, q)
                        <==> assoc_has_key(pre, q)) by {
                        if assoc_has_key(pre, q) {
                            let k = choose|k: int| 0 <= k < pre.len() && pre[k].0@ == q;
                            if k < i {
                                assert(self.cache@[k] == pre[k]);
                            } else {
                                assert(k != i);
                                assert(self.cache@[k - 1] == pre[k]);
                            }
                        }
                        if assoc_has_key(self.cache@, q) {
                            let k = choose|k: int|
                                0 <= k < self.cache@.len() && self.cache@[k].0@ == q;
                            if k < i {
                                assert(pre[k].0@ == q);
                            } else {
                                assert(pre[k + 1].0@ == q);
                            }
                        }
                    }
                }
            },
            None => {},
        }
    }

    /// After pushing one correct entry for a fresh path, the graph is still
    /// well-formed.
    proof fn lemma_wf_after_insert(&self, pre: Seq<(String, ContentNode)>, e: (String, ContentNode))
        requires
            self.cache@ == pre.push(e),
            forall|k: int|
                0 <= k < pre.len() ==> lookup_of(self.bootstrap@, (#[trigger] pre[k]).0@) == Some(
                    pre[k].1@,
                ),
            unique_keys(pre),
            lookup_of(self.bootstrap@, e.0@) == Some(e.1@),
            !assoc_has_key(pre, e.0@),
        ensures
            self.wf(),
    {
        assert forall|k: int| 0 <= k < self.cache@.len() implies lookup_of(
            self.bootstrap@,
            (#[trigger] self.cache@[k]).0@,
        ) == Some(self.cache@[k].1@) by {
            if k < pre.len() {
                assert(self.cache@[k] == pre[k]);
            } else {
                assert(self.cache@[k] == e);
            }
        }
        lemma_unique_keys_push(pre, e);
    }
}

/// Eager/lazy equivalence: what a graph serves at a path is a function of
/// the bootstrap asset alone, so an eager graph and a lazy graph over the
/// same inputs answer every path identically; the strategies differ only in
/// when nodes are materialized. Each strategy's `get` ties its result to
/// `lookup_of` of its own bootstrap view, so this equality carries over to
/// the served nodes.
pub proof fn lemma_eager_lazy_equivalence(a: ContentGraph, b: ContentGraph, path: Seq<char>)
    requires
        a.bootstrap@ == b.bootstrap@,
    ensures
        lookup_of(a.bootstrap@, path) == lookup_of(b.bootstrap@, path),
{
}

/// Cache coalescing: two lookups for the same path, in either order of a
/// concurrent interleaving, trigger at most one underlying materialization;
/// the second lookup is always served from the cache the first one filled.
pub proof fn lemma_cache_coalescing(
    g0: ContentGraph,
    g1: ContentGraph,
    g2: ContentGraph,
    path: Seq<char>,
)
    requires
        get_step(g0, g1, path),
        get_step(g1, g2, path),
    ensures
        g2.materializations() == g1.materializations(),
        g1.materializations() <= g0.materializations() + 1,
{
}

} // verus!
