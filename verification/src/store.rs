//! The local cache store: one best-effort replica tree per workspace,
//! supporting point lookup with a depth limit and merge-insert of a fetched
//! subtree.  The store is synchronous and local-only; only the sync
//! coordinator writes to it.

use vstd::prelude::*;

use crate::error::FolderError;
use crate::tree::{
    capped, grafted, lemma_merge_converges, lemma_merge_idempotent, lemma_merged_self,
    merge_changed, merged, merged_at, subtree_at, tree_contains, tree_model, tree_size, truncated,
    wf_tree, NodeTree, TreeModel,
};

verus! {

/// One workspace's cached tree, tagged with the generation of the fetch
/// that last wrote it.  The generation is the monotonic guard that keeps a
/// slow, older fetch from regressing the cache over a newer one.
#[derive(Debug)]
pub struct CacheEntry {
    pub workspace_id: String,
    pub generation: u64,
    pub tree: NodeTree,
}

/// The local cache store.
#[derive(Debug)]
pub struct CacheStore {
    pub entries: Vec<CacheEntry>,
}

/// The index of the first entry for `ws` among `s` from index `i` on.
pub open spec fn entry_at(s: Seq<CacheEntry>, ws: Seq<char>, i: int) -> Option<int>
    decreases s.len() - i,
{
    if i < 0 || i >= s.len() {
        None
    } else if s[i].workspace_id@ == ws {
        Some(i)
    } else {
        entry_at(s, ws, i + 1)
    }
}

/// The index of the entry the store holds for workspace `ws`, if any.
pub open spec fn entry_of(store: CacheStore, ws: Seq<char>) -> Option<int> {
    entry_at(store.entries@, ws, 0)
}

/// The whole cached tree of workspace `ws`, if one was ever stored.
pub open spec fn cached_tree(store: CacheStore, ws: Seq<char>) -> Option<TreeModel> {
    match entry_of(store, ws) {
        Some(i) => Some(tree_model(store.entries@[i].tree)),
        None => None,
    }
}

/// What a point lookup returns: the subtree rooted at `root` inside the
/// cached tree of `ws`, cut off at `d` edges — or nothing, when the
/// workspace was never synced or the root is unknown to the cache.
pub open spec fn cache_lookup(store: CacheStore, ws: Seq<char>, root: Seq<char>, d: nat) -> Option<
    TreeModel,
> {
    match cached_tree(store, ws) {
        Some(t) => match subtree_at(t, root) {
            Some(st) => Some(truncated(st, d)),
            None => None,
        },
        None => None,
    }
}

/// What an upsert reports back: how many nodes were written (for
/// observability), whether the cache changed, and whether the payload was
/// rejected as stale by the generation guard.
#[derive(Debug)]
pub struct UpsertOutcome {
    pub written: usize,
    pub changed: bool,
    pub stale: bool,
}

/// A search that found nothing from `i` on passed no matching entry.
proof fn lemma_entry_at_none(s: Seq<CacheEntry>, ws: Seq<char>, i: int)
    requires
        0 <= i <= s.len(),
        entry_at(s, ws, i) == None::<int>,
    ensures
        forall|k: int| i <= k < s.len() ==> (#[trigger] s[k]).workspace_id@ != ws,
    decreases s.len() - i,
{
    if i < s.len() {
        lemma_entry_at_none(s, ws, i + 1);
    }
}

/// Entries before `i` that are no match may be skipped.
proof fn lemma_entry_at_skip(s: Seq<CacheEntry>, ws: Seq<char>, i: int)
    requires
        0 <= i <= s.len(),
        forall|k: int| 0 <= k < i ==> (#[trigger] s[k]).workspace_id@ != ws,
    ensures
        entry_at(s, ws, 0) == entry_at(s, ws, i),
    decreases i,
{
    if i > 0 {
        lemma_entry_at_skip(s, ws, i - 1);
    }
}

/// How an upsert relates the store after the call (`post`) to the store
/// before it (`pre`): the whole contract of `CacheStore::upsert`, shared
/// with the sync coordinator's refresh step.
pub open spec fn upsert_post(
    pre: CacheStore,
    post: CacheStore,
    ws: Seq<char>,
    inc: TreeModel,
    hint: Option<Seq<char>>,
    d: nat,
    gen: u64,
    r: Result<UpsertOutcome, FolderError>,
) -> bool {
    match r {
        Ok(out) => match entry_of(pre, ws) {
            None => {
                &&& post.entries@.len() == pre.entries@.len() + 1
                &&& forall|k: int|
                    0 <= k < pre.entries@.len()
                        ==> #[trigger] post.entries@[k] == pre.entries@[k]
                &&& post.entries@.last().workspace_id@ == ws
                &&& post.entries@.last().generation == gen
                &&& tree_model(post.entries@.last().tree) == inc
                &&& out.written as nat == capped(tree_size(inc))
                &&& out.changed
                &&& !out.stale
            },
            Some(i) => {
                &&& post.entries@.len() == pre.entries@.len()
                &&& forall|k: int|
                    0 <= k < pre.entries@.len() && k != i
                        ==> #[trigger] post.entries@[k] == pre.entries@[k]
                &&& if gen < pre.entries@[i].generation {
                    &&& post.entries@[i] == pre.entries@[i]
                    &&& out.stale
                    &&& !out.changed
                    &&& out.written == 0
                } else if tree_contains(tree_model(pre.entries@[i].tree), inc.node.id) {
                    &&& post.entries@[i].workspace_id@ == ws
                    &&& post.entries@[i].generation == gen
                    &&& tree_model(post.entries@[i].tree) == merged_at(
                        tree_model(pre.entries@[i].tree),
                        inc,
                        d,
                    )
                    &&& out.changed == (tree_model(post.entries@[i].tree) != tree_model(
                        pre.entries@[i].tree,
                    ))
                    &&& out.written as nat == capped(tree_size(inc))
                    &&& !out.stale
                } else {
                    &&& match hint {
                        Some(p) => tree_contains(tree_model(pre.entries@[i].tree), p)
                            && tree_model(post.entries@[i].tree) == grafted(
                            tree_model(pre.entries@[i].tree),
                            p,
                            inc,
                        ),
                        None => false,
                    }
                    &&& post.entries@[i].workspace_id@ == ws
                    &&& post.entries@[i].generation == gen
                    &&& out.changed
                    &&& out.written as nat == capped(tree_size(inc))
                    &&& !out.stale
                }
            },
        },
        Err(e) => {
            &&& post == pre
            &&& e == FolderError::InvalidParams
            &&& match entry_of(pre, ws) {
                Some(i) => {
                    &&& gen >= pre.entries@[i].generation
                    &&& !tree_contains(tree_model(pre.entries@[i].tree), inc.node.id)
                    &&& match hint {
                        Some(p) => !tree_contains(tree_model(pre.entries@[i].tree), p),
                        None => true,
                    }
                },
                None => false,
            }
        },
    }
}

/// The model of an optional id handed by reference.
pub open spec fn opt_ref_id_model(s: Option<&String>) -> Option<Seq<char>> {
    match s {
        Some(p) => Some(p@),
        None => None,
    }
}

/// An entry keeps its position when only its own slot is rewritten and
/// the workspace id on it is kept.
proof fn lemma_entry_preserved(pre: CacheStore, post: CacheStore, ws: Seq<char>, i: int)
    requires
        entry_of(pre, ws) == Some(i),
        post.entries@.len() == pre.entries@.len(),
        forall|k: int|
            0 <= k < pre.entries@.len() && k != i ==> #[trigger] post.entries@[k]
                == pre.entries@[k],
        0 <= i < post.entries@.len() && post.entries@[i].workspace_id@ == ws,
    ensures
        entry_of(post, ws) == Some(i),
{
    lemma_entry_at_skip_converse(pre.entries@, ws, i);
    assert forall|k: int| 0 <= k < i implies (#[trigger] post.entries@[k]).workspace_id@ != ws by {
        assert(post.entries@[k] == pre.entries@[k]);
    }
    lemma_entry_at_skip(post.entries@, ws, i);
}

/// A workspace first stored by appending its entry is found at the end.
proof fn lemma_entry_appended(pre: CacheStore, post: CacheStore, ws: Seq<char>)
    requires
        entry_of(pre, ws) == None::<int>,
        post.entries@.len() == pre.entries@.len() + 1,
        forall|k: int|
            0 <= k < pre.entries@.len() ==> #[trigger] post.entries@[k] == pre.entries@[k],
        post.entries@.last().workspace_id@ == ws,
    ensures
        entry_of(post, ws) == Some(pre.entries@.len() as int),
{
    let n = pre.entries@.len() as int;
    lemma_entry_at_none(pre.entries@, ws, 0);
    assert forall|k: int| 0 <= k < n implies (#[trigger] post.entries@[k]).workspace_id@ != ws by {
        assert(post.entries@[k] == pre.entries@[k]);
    }
    lemma_entry_at_skip(post.entries@, ws, n);
}

/// Idempotence of the whole refresh path: a second successful, non-stale
/// upsert of the same payload leaves the cached tree exactly as the first
/// left it and reports no change — so at most one notification fires in
/// total for one distinct payload.
pub proof fn lemma_upsert_idempotent(
    pre: CacheStore,
    mid: CacheStore,
    post: CacheStore,
    ws: Seq<char>,
    inc: TreeModel,
    hint: Option<Seq<char>>,
    d: nat,
    gen1: u64,
    gen2: u64,
    out1: UpsertOutcome,
    out2: UpsertOutcome,
)
    requires
        upsert_post(pre, mid, ws, inc, hint, d, gen1, Ok(out1)),
        upsert_post(mid, post, ws, inc, hint, d, gen2, Ok(out2)),
        !out1.stale,
        !out2.stale,
        wf_tree(inc),
        match entry_of(pre, ws) {
            Some(i) => tree_model(pre.entries@[i].tree).node.id == inc.node.id,
            None => true,
        },
    ensures
        !out2.changed,
        cached_tree(post, ws) == cached_tree(mid, ws),
{
    let j = match entry_of(pre, ws) {
        None => {
            lemma_entry_appended(pre, mid, ws);
            let j = pre.entries@.len() as int;
            assert(tree_model(mid.entries@[j].tree) == inc);
            j
        },
        Some(i) => {
            lemma_entry_at_skip_converse(pre.entries@, ws, i);
            assert(tree_contains(tree_model(pre.entries@[i].tree), inc.node.id));
            assert(gen1 >= pre.entries@[i].generation);
            assert(mid.entries@[i].workspace_id@ == ws);
            lemma_entry_preserved(pre, mid, ws, i);
            assert(tree_model(mid.entries@[i].tree) == merged_at(
                tree_model(pre.entries@[i].tree),
                inc,
                d,
            ));
            i
        },
    };
    let mt = tree_model(mid.entries@[j].tree);
    assert(mt.node.id == inc.node.id) by {
        match entry_of(pre, ws) {
            None => {},
            Some(i) => {
                assert(merged_at(tree_model(pre.entries@[i].tree), inc, d) == merged(
                    tree_model(pre.entries@[i].tree),
                    inc,
                    d,
                ));
            },
        }
    }
    assert(tree_contains(mt, inc.node.id));
    assert(tree_model(post.entries@[j].tree) == merged_at(mt, inc, d));
    assert(merged_at(mt, inc, d) == merged(mt, inc, d));
    assert(merged(mt, inc, d) == mt) by {
        match entry_of(pre, ws) {
            None => {
                lemma_merged_self(inc, d);
            },
            Some(i) => {
                lemma_merge_idempotent(tree_model(pre.entries@[i].tree), inc, d);
            },
        }
    }
    assert(!out2.changed);
    assert(post.entries@.len() == mid.entries@.len());
    assert(post.entries@[j].workspace_id@ == ws);
    lemma_entry_preserved(mid, post, ws, j);
}

/// Convergence: after a successful, non-stale upsert of a fetched subtree
/// whose root is the cached tree's own root (or whose workspace was never
/// synced), a synchronous lookup for the same root and depth returns
/// exactly the fetched subtree, bounded to the same depth.
pub proof fn lemma_upsert_convergence(
    pre: CacheStore,
    post: CacheStore,
    ws: Seq<char>,
    inc: TreeModel,
    hint: Option<Seq<char>>,
    d: nat,
    gen: u64,
    out: UpsertOutcome,
)
    requires
        upsert_post(pre, post, ws, inc, hint, d, gen, Ok(out)),
        !out.stale,
        match entry_of(pre, ws) {
            Some(i) => tree_model(pre.entries@[i].tree).node.id == inc.node.id,
            None => true,
        },
    ensures
        cache_lookup(post, ws, inc.node.id, d) == Some(truncated(inc, d)),
{
    match entry_of(pre, ws) {
        None => {
            let n = pre.entries@.len() as int;
            lemma_entry_at_none(pre.entries@, ws, 0);
            assert(forall|k: int| 0 <= k < n ==> (#[trigger] post.entries@[k]).workspace_id@
                != ws);
            lemma_entry_at_skip(post.entries@, ws, n);
            assert(entry_of(post, ws) == Some(n));
            assert(post.entries@[n] == post.entries@.last());
            assert(subtree_at(inc, inc.node.id) == Some(inc));
        },
        Some(i) => {
            lemma_entry_at_skip_converse(pre.entries@, ws, i);
            assert forall|k: int| 0 <= k < i implies (#[trigger] post.entries@[k]).workspace_id@
                != ws by {
                assert(post.entries@[k] == pre.entries@[k]);
            }
            lemma_entry_at_skip(post.entries@, ws, i);
            assert(entry_of(post, ws) == Some(i));
            let pt = tree_model(pre.entries@[i].tree);
            assert(tree_contains(pt, inc.node.id));
            let m = merged(pt, inc, d);
            assert(tree_model(post.entries@[i].tree) == merged_at(pt, inc, d));
            assert(merged_at(pt, inc, d) == m);
            assert(subtree_at(m, inc.node.id) == Some(m));
            lemma_merge_converges(pt, inc, d);
        },
    }
}

/// Deletion propagation: a node absent from the fetched subtree is absent
/// from what a lookup bounded to the fetched window returns after the
/// upsert — removals made at the authority reach the cache on the next
/// refresh.
pub proof fn lemma_upsert_deletes(
    pre: CacheStore,
    post: CacheStore,
    ws: Seq<char>,
    inc: TreeModel,
    hint: Option<Seq<char>>,
    d: nat,
    gen: u64,
    out: UpsertOutcome,
    id: Seq<char>,
)
    requires
        upsert_post(pre, post, ws, inc, hint, d, gen, Ok(out)),
        !out.stale,
        match entry_of(pre, ws) {
            Some(i) => tree_model(pre.entries@[i].tree).node.id == inc.node.id,
            None => true,
        },
        !tree_contains(inc, id),
    ensures
        match cache_lookup(post, ws, inc.node.id, d) {
            Some(t) => !tree_contains(t, id),
            None => false,
        },
{
    lemma_upsert_convergence(pre, post, ws, inc, hint, d, gen, out);
    crate::tree::lemma_truncated_contains(inc, d, id);
}

/// A found index is the first match: everything before it is no match.
proof fn lemma_entry_at_skip_converse(s: Seq<CacheEntry>, ws: Seq<char>, i: int)
    requires
        entry_at(s, ws, 0) == Some(i),
    ensures
        forall|k: int| 0 <= k < i ==> (#[trigger] s[k]).workspace_id@ != ws,
        0 <= i < s.len() && s[i].workspace_id@ == ws,
{
    lemma_entry_at_first(s, ws, 0, i);
}

/// From position `j` on, a found index `i` lies at or past `j`, matches,
/// and nothing between `j` and `i` matches.
proof fn lemma_entry_at_first(s: Seq<CacheEntry>, ws: Seq<char>, j: int, i: int)
    requires
        0 <= j <= s.len(),
        entry_at(s, ws, j) == Some(i),
    ensures
        j <= i < s.len() && s[i].workspace_id@ == ws,
        forall|k: int| j <= k < i ==> (#[trigger] s[k]).workspace_id@ != ws,
    decreases s.len() - j,
{
    if s[j].workspace_id@ != ws {
        lemma_entry_at_first(s, ws, j + 1, i);
    }
}

/// Refresh idempotence at the store's merge point: when the fetched
/// subtree's root is the cached root, applying the same payload a second
/// time leaves the tree as it was and reports no change — so at most one
/// notification fires per distinct payload.
pub proof fn lemma_refresh_idempotent(pre: TreeModel, inc: TreeModel, d: nat)
    requires
        wf_tree(inc),
        pre.node.id == inc.node.id,
    ensures
        merged_at(pre, inc, d) == merged(pre, inc, d),
        merged_at(merged_at(pre, inc, d), inc, d) == merged_at(pre, inc, d),
        !merge_changed(merged(pre, inc, d), inc, d),
{
    lemma_merge_idempotent(pre, inc, d);
}

impl CacheStore {
    /// An empty store: no workspace has ever been synced.
    pub fn new() -> (r: CacheStore)
        ensures
            r.entries@.len() == 0,
            forall|ws: Seq<char>| entry_of(r, ws) == None::<int>,
    {
        CacheStore { entries: Vec::new() }
    }

    /// The index of the entry for `workspace_id`, if any.
    fn entry_index(&self, workspace_id: &String) -> (r: Option<usize>)
        ensures
            match r {
                Some(i) => i < self.entries@.len() && entry_of(*self, workspace_id@) == Some(
                    i as int,
                ),
                None => entry_of(*self, workspace_id@) == None::<int>,
            },
    {
        let n = self.entries.len();
        for i in 0..n
            invariant
                n == self.entries@.len(),
                forall|k: int| 0 <= k < i ==> (#[trigger] self.entries@[k]).workspace_id@
                    != workspace_id@,
            decreases n - i,
        {
            if self.entries[i].workspace_id == *workspace_id {
                proof {
                    lemma_entry_at_skip(self.entries@, workspace_id@, i as int);
                }
                return Some(i);
            }
        }
        proof {
            lemma_entry_at_skip(self.entries@, workspace_id@, n as int);
        }
        None
    }

    /// Point lookup: the subtree rooted at `root_id` in the cached tree of
    /// `workspace_id`, cut off at `depth` edges.  `NotFound` exactly when
    /// the workspace was never synced or no cached node carries `root_id` —
    /// distinct from an empty tree.
    pub fn get(&self, workspace_id: &String, root_id: &String, depth: u32) -> (r: Result<
        NodeTree,
        FolderError,
    >)
        ensures
            match r {
                Ok(t) => cache_lookup(*self, workspace_id@, root_id@, depth as nat) == Some(
                    tree_model(t),
                ),
                Err(e) => e == FolderError::NotFound && cache_lookup(
                    *self,
                    workspace_id@,
                    root_id@,
                    depth as nat,
                ) == None::<TreeModel>,
            },
    {
        match self.entry_index(workspace_id) {
            Some(i) => {
                match self.entries[i].tree.find_subtree(root_id) {
                    Some(st) => Ok(st.extract(depth)),
                    None => Err(FolderError::NotFound),
                }
            },
            None => Err(FolderError::NotFound),
        }
    }

    /// The whole cached tree of `workspace_id`, if one was ever stored.
    pub fn tree_of(&self, workspace_id: &String) -> (r: Option<&NodeTree>)
        ensures
            match r {
                Some(t) => cached_tree(*self, workspace_id@) == Some(tree_model(*t)),
                None => cached_tree(*self, workspace_id@) == None::<TreeModel>,
            },
    {
        match self.entry_index(workspace_id) {
            Some(i) => Some(&self.entries[i].tree),
            None => None,
        }
    }

    /// Merge-insert of a fetched subtree into the cache of `workspace_id`.
    ///
    /// A workspace never seen before stores the subtree whole.  Otherwise
    /// the generation guard rejects a payload older than what the cache
    /// already holds (`stale`, cache untouched); a payload whose root is a
    /// cached node merges by the depth-window policy; a payload whose root
    /// is unknown is grafted under `parent_hint` when that parent is
    /// cached, and rejected as `InvalidParams` otherwise, rather than
    /// silently adopting an unrelated subtree.
    pub fn upsert(
        &mut self,
        workspace_id: &String,
        incoming: &NodeTree,
        parent_hint: Option<&String>,
        depth: u32,
        generation: u64,
    ) -> (r: Result<UpsertOutcome, FolderError>)
        ensures
            upsert_post(
                *old(self),
                *final(self),
                workspace_id@,
                tree_model(*incoming),
                opt_ref_id_model(parent_hint),
                depth as nat,
                generation,
                r,
            ),
    {
        let idx = self.entry_index(workspace_id);
        match idx {
            None => {
                let written = incoming.count_nodes();
                self.entries.push(
                    CacheEntry {
                        workspace_id: workspace_id.clone(),
                        generation,
                        tree: incoming.duplicate(),
                    },
                );
                Ok(UpsertOutcome { written, changed: true, stale: false })
            },
            Some(i) => {
                if generation < self.entries[i].generation {
                    return Ok(UpsertOutcome { written: 0, changed: false, stale: true });
                }
                if self.entries[i].tree.contains_id(&incoming.node.id) {
                    let merged_tree = self.entries[i].tree.merge_at(incoming, depth);
                    let changed = !merged_tree.same_tree(&self.entries[i].tree);
                    let written = incoming.count_nodes();
                    self.entries[i] = CacheEntry {
                        workspace_id: workspace_id.clone(),
                        generation,
                        tree: merged_tree,
                    };
                    Ok(UpsertOutcome { written, changed, stale: false })
                } else {
                    match parent_hint {
                        Some(p) => {
                            if self.entries[i].tree.contains_id(p) {
                                let new_tree = self.entries[i].tree.graft(p, incoming);
                                let written = incoming.count_nodes();
                                self.entries[i] = CacheEntry {
                                    workspace_id: workspace_id.clone(),
                                    generation,
                                    tree: new_tree,
                                };
                                Ok(UpsertOutcome { written, changed: true, stale: false })
                            } else {
                                Err(FolderError::InvalidParams)
                            }
                        },
                        None => Err(FolderError::InvalidParams),
                    }
                }
            },
        }
    }
}

} // verus!
