//! The tree model: workspaces, spaces and pages as a rooted, ordered,
//! labeled tree keyed by node id, with bounded-depth extraction and an
//! idempotent merge of a fetched subtree.

use vstd::prelude::*;

verus! {

/// How a node's icon is encoded: an emoji, a reference to a url, or the
/// identifier of a built-in glyph.
#[derive(Clone, Copy, Debug, PartialEq, Eq, Structural)]
pub enum IconKind {
    Emoji,
    Url,
    Glyph,
}

/// A node's icon: a discriminant and a single string payload.
#[derive(Debug)]
pub struct Icon {
    pub kind: IconKind,
    pub value: String,
}

/// The layout a page is rendered with.
#[derive(Clone, Copy, Debug, PartialEq, Eq, Structural)]
pub enum LayoutKind {
    Document,
    Grid,
    Board,
}

/// One entry of the hierarchy: a page, a space, or the workspace root.
///
/// A space is a capability flag on a node, not a separate type, so the
/// hierarchy stays uniform.  `is_trashed` only flips a flag: a trashed node
/// remains in the tree and is surfaced via the trash view.  `modified` is the
/// last-known-modified marker used as the recency ordering key.
#[derive(Debug)]
pub struct Node {
    pub id: String,
    pub name: String,
    pub icon: Option<Icon>,
    pub layout: LayoutKind,
    pub parent_id: Option<String>,
    pub is_space: bool,
    pub is_favorite: bool,
    pub is_trashed: bool,
    pub modified: u64,
}

/// A subtree: a node together with its ordered children.
///
/// Child order is meaningful — it determines display order — and is
/// preserved by extraction and merging.
#[derive(Debug)]
pub struct NodeTree {
    pub node: Node,
    pub children: Vec<NodeTree>,
}

/// The mathematical model of an icon.
pub ghost struct IconModel {
    pub kind: IconKind,
    pub value: Seq<char>,
}

/// The mathematical model of a node: every string as a sequence of
/// characters.
pub ghost struct NodeModel {
    pub id: Seq<char>,
    pub name: Seq<char>,
    pub icon: Option<IconModel>,
    pub layout: LayoutKind,
    pub parent_id: Option<Seq<char>>,
    pub is_space: bool,
    pub is_favorite: bool,
    pub is_trashed: bool,
    pub modified: u64,
}

/// The mathematical model of a subtree.
#[verifier::ext_equal]
pub ghost struct TreeModel {
    pub node: NodeModel,
    pub children: Seq<TreeModel>,
}

pub open spec fn icon_model(i: Icon) -> IconModel {
    IconModel { kind: i.kind, value: i.value@ }
}

pub open spec fn opt_icon_model(i: Option<Icon>) -> Option<IconModel> {
    match i {
        Some(ic) => Some(icon_model(ic)),
        None => None,
    }
}

pub open spec fn opt_id_model(s: Option<String>) -> Option<Seq<char>> {
    match s {
        Some(x) => Some(x@),
        None => None,
    }
}

pub open spec fn node_model(n: Node) -> NodeModel {
    NodeModel {
        id: n.id@,
        name: n.name@,
        icon: opt_icon_model(n.icon),
        layout: n.layout,
        parent_id: opt_id_model(n.parent_id),
        is_space: n.is_space,
        is_favorite: n.is_favorite,
        is_trashed: n.is_trashed,
        modified: n.modified,
    }
}

pub open spec fn tree_model(t: NodeTree) -> TreeModel
    decreases t,
{
    TreeModel { node: node_model(t.node), children: forest_model(t.children@) }
}

/// The models of a sequence of subtrees, in order.
pub open spec fn forest_model(s: Seq<NodeTree>) -> Seq<TreeModel>
    decreases s,
{
    Seq::new(
        s.len(),
        |i: int|
            if 0 <= i < s.len() {
                tree_model(s[i])
            } else {
                vstd::pervasive::arbitrary()
            },
    )
}

/// How many nodes a subtree holds, the root included.
pub open spec fn tree_size(t: TreeModel) -> nat
    decreases t, 0int,
{
    1 + forest_size_upto(t.children, t.children.len() as int)
}

/// How many nodes the first `i` members of `s` hold, together.
pub open spec fn forest_size_upto(s: Seq<TreeModel>, i: int) -> nat
    decreases s, i,
{
    if i <= 0 || i > s.len() {
        0
    } else {
        forest_size_upto(s, i - 1) + tree_size(s[i - 1])
    }
}

/// `n` capped at the largest value a `usize` can hold.
pub open spec fn capped(n: nat) -> nat {
    if n > usize::MAX {
        usize::MAX as nat
    } else {
        n
    }
}

/// Whether every node of `t` lies within `d` edges of `t`'s root.
pub open spec fn within_depth(t: TreeModel, d: nat) -> bool
    decreases t,
{
    if d == 0 {
        t.children.len() == 0
    } else {
        forall|i: int|
            0 <= i < t.children.len() ==> within_depth(#[trigger] t.children[i], (d - 1) as nat)
    }
}

/// `t` cut off at depth `d`: depth 0 keeps only the root, depth `d` keeps
/// every node within `d` edges of the root, in the original order.
pub open spec fn truncated(t: TreeModel, d: nat) -> TreeModel
    decreases t,
{
    TreeModel {
        node: t.node,
        children: if d == 0 {
            Seq::<TreeModel>::empty()
        } else {
            Seq::new(
                t.children.len(),
                |i: int|
                    if 0 <= i < t.children.len() {
                        truncated(t.children[i], (d - 1) as nat)
                    } else {
                        vstd::pervasive::arbitrary()
                    },
            )
        },
    }
}

/// The first child of `s` whose root carries `id`, if any.
pub open spec fn find_child(s: Seq<TreeModel>, id: Seq<char>) -> Option<TreeModel>
    decreases s.len(),
{
    if s.len() == 0 {
        None
    } else if s[0].node.id == id {
        Some(s[0])
    } else {
        find_child(s.drop_first(), id)
    }
}

/// The merge of a fetched subtree `inc`, covering a depth window of `d`
/// edges, into the cached subtree `old`.
///
/// The incoming subtree is authoritative for every field of every node it
/// contains.  Within the window, children follow `inc`'s order; a cached
/// child absent from `inc` is removed; a child of `inc` unknown to the cache
/// is taken whole.  At the window boundary (`d == 0`) the cached children
/// are left untouched, so nodes below the fetched depth survive the merge.
pub open spec fn merged(old: TreeModel, inc: TreeModel, d: nat) -> TreeModel
    decreases inc,
{
    TreeModel {
        node: inc.node,
        children: if d == 0 {
            old.children
        } else {
            Seq::new(
                inc.children.len(),
                |i: int|
                    if 0 <= i < inc.children.len() {
                        match find_child(old.children, inc.children[i].node.id) {
                            Some(oc) => merged(oc, inc.children[i], (d - 1) as nat),
                            None => inc.children[i],
                        }
                    } else {
                        vstd::pervasive::arbitrary()
                    },
            )
        },
    }
}

/// Whether the merge of `inc` into `old` changes anything at all; only a
/// merge that changes something publishes a notification.
pub open spec fn merge_changed(old: TreeModel, inc: TreeModel, d: nat) -> bool {
    merged(old, inc, d) != old
}

/// Whether `id` names a node of `t`.
pub open spec fn tree_contains(t: TreeModel, id: Seq<char>) -> bool
    decreases t,
{
    t.node.id == id || exists|i: int|
        0 <= i < t.children.len() && tree_contains(#[trigger] t.children[i], id)
}

/// The subtree of `t` rooted at the first node carrying `id`, in preorder,
/// if any.
pub open spec fn subtree_at(t: TreeModel, id: Seq<char>) -> Option<TreeModel>
    decreases t, 0int,
{
    if t.node.id == id {
        Some(t)
    } else {
        subtree_in(t.children, id, 0)
    }
}

/// The first subtree carrying `id` among the members of `s` from index `i`
/// on, if any.
pub open spec fn subtree_in(s: Seq<TreeModel>, id: Seq<char>, i: int) -> Option<TreeModel>
    decreases s, s.len() - i,
{
    if i < 0 || i >= s.len() {
        None
    } else {
        match subtree_at(s[i], id) {
            Some(r) => Some(r),
            None => subtree_in(s, id, i + 1),
        }
    }
}

/// `t` with the merge of `inc` applied at every node carrying `inc`'s root
/// id.  Under `wf_tree` at most one node carries it, so this is the merge
/// applied at the one matching root, and the identity where none matches.
pub open spec fn merged_at(t: TreeModel, inc: TreeModel, d: nat) -> TreeModel
    decreases t,
{
    if t.node.id == inc.node.id {
        merged(t, inc, d)
    } else {
        TreeModel {
            node: t.node,
            children: Seq::new(
                t.children.len(),
                |i: int|
                    if 0 <= i < t.children.len() {
                        merged_at(t.children[i], inc, d)
                    } else {
                        vstd::pervasive::arbitrary()
                    },
            ),
        }
    }
}

/// `t` with `sub` appended as the last child of every node carrying
/// `parent`.  Under `wf_tree` at most one node carries it.
pub open spec fn grafted(t: TreeModel, parent: Seq<char>, sub: TreeModel) -> TreeModel
    decreases t,
{
    if t.node.id == parent {
        TreeModel { node: t.node, children: t.children.push(sub) }
    } else {
        TreeModel {
            node: t.node,
            children: Seq::new(
                t.children.len(),
                |i: int|
                    if 0 <= i < t.children.len() {
                        grafted(t.children[i], parent, sub)
                    } else {
                        vstd::pervasive::arbitrary()
                    },
            ),
        }
    }
}

/// Well-formedness: within every node of `t`, sibling ids are distinct.
/// Node ids are globally unique within a workspace, so every tree the
/// authority hands out and every tree the cache stores satisfies this.
pub open spec fn wf_tree(t: TreeModel) -> bool
    decreases t,
{
    (forall|i: int, j: int|
        0 <= i < t.children.len() && 0 <= j < t.children.len() && i != j
            ==> (#[trigger] t.children[i]).node.id != (#[trigger] t.children[j]).node.id)
        && (forall|i: int| 0 <= i < t.children.len() ==> wf_tree(#[trigger] t.children[i]))
}

/// Merging a tree into itself changes nothing.
pub proof fn lemma_merged_self(x: TreeModel, d: nat)
    requires
        wf_tree(x),
    ensures
        merged(x, x, d) == x,
    decreases x,
{
    if d > 0 {
        let c = merged(x, x, d).children;
        assert forall|i: int| 0 <= i < x.children.len() implies c[i] == x.children[i] by {
            lemma_find_child_hit(x.children, i);
            lemma_merged_self(x.children[i], (d - 1) as nat);
        }
        assert(c =~= x.children);
    }
    assert(merged(x, x, d) =~= x);
}

/// Idempotence: merging the same fetched subtree a second time yields the
/// same cache state, and the second merge reports no change — so at most
/// one notification fires for one distinct payload.
pub proof fn lemma_merge_idempotent(old: TreeModel, inc: TreeModel, d: nat)
    requires
        wf_tree(inc),
    ensures
        merged(merged(old, inc, d), inc, d) == merged(old, inc, d),
        !merge_changed(merged(old, inc, d), inc, d),
    decreases inc,
{
    let m = merged(old, inc, d);
    if d > 0 {
        assert forall|i: int|
            0 <= i < inc.children.len() implies (#[trigger] m.children[i]).node.id
            == inc.children[i].node.id by {
            assert(m.children[i] == match find_child(old.children, inc.children[i].node.id) {
                Some(oc) => merged(oc, inc.children[i], (d - 1) as nat),
                None => inc.children[i],
            });
        }
        assert forall|i: int|
            0 <= i < inc.children.len() implies #[trigger] merged(m, inc, d).children[i]
            == m.children[i] by {
            lemma_find_child_hit(m.children, i);
            match find_child(old.children, inc.children[i].node.id) {
                Some(oc) => {
                    lemma_merge_idempotent(oc, inc.children[i], (d - 1) as nat);
                },
                None => {
                    lemma_merged_self(inc.children[i], (d - 1) as nat);
                },
            }
        }
        assert(merged(m, inc, d).children =~= m.children);
    }
    assert(merged(m, inc, d) =~= m);
}

/// Convergence: after a merge of a fetched subtree covering `d` edges, the
/// cache cut to the same window equals the fetched subtree cut to it.  A
/// synchronous read issued after the background refresh therefore returns
/// exactly what was fetched, bounded to the same depth.
pub proof fn lemma_merge_converges(old: TreeModel, inc: TreeModel, d: nat)
    ensures
        truncated(merged(old, inc, d), d) == truncated(inc, d),
    decreases inc,
{
    let m = merged(old, inc, d);
    if d > 0 {
        assert forall|i: int|
            0 <= i < inc.children.len() implies #[trigger] truncated(m, d).children[i]
            == truncated(inc, d).children[i] by {
            match find_child(old.children, inc.children[i].node.id) {
                Some(oc) => {
                    lemma_merge_converges(oc, inc.children[i], (d - 1) as nat);
                },
                None => {
                },
            }
        }
        assert(truncated(m, d).children =~= truncated(inc, d).children);
    } else {
        assert(truncated(m, d).children =~= truncated(inc, d).children);
    }
    assert(truncated(m, d) =~= truncated(inc, d));
}

/// Depth bound: cutting a tree at `d` edges leaves no node more than `d`
/// edges from the root; at `d == 0` only the root itself remains.
pub proof fn lemma_truncated_depth(t: TreeModel, d: nat)
    ensures
        within_depth(truncated(t, d), d),
        d == 0 ==> truncated(t, d).children.len() == 0,
    decreases t,
{
    if d > 0 {
        assert forall|i: int|
            0 <= i < truncated(t, d).children.len() implies within_depth(
            #[trigger] truncated(t, d).children[i],
            (d - 1) as nat,
        ) by {
            lemma_truncated_depth(t.children[i], (d - 1) as nat);
        }
    }
}

/// Cutting a tree never invents nodes: an id found in the cut tree is
/// found in the whole tree.
pub proof fn lemma_truncated_contains(t: TreeModel, d: nat, id: Seq<char>)
    ensures
        tree_contains(truncated(t, d), id) ==> tree_contains(t, id),
    decreases t,
{
    if tree_contains(truncated(t, d), id) && t.node.id != id {
        let tr = truncated(t, d);
        let i = choose|i: int| 0 <= i < tr.children.len() && tree_contains(
            #[trigger] tr.children[i],
            id,
        );
        assert(d > 0);
        assert(tr.children[i] == truncated(t.children[i], (d - 1) as nat));
        lemma_truncated_contains(t.children[i], (d - 1) as nat, id);
        assert(tree_contains(#[trigger] t.children[i], id));
    }
}

/// Deletion propagation: a node absent from a freshly fetched subtree
/// covering `d` edges is absent from the merged cache within those `d`
/// edges — trashing, deletion and moves performed elsewhere reach the
/// cache through the next refresh.
pub proof fn lemma_merge_deletes(old: TreeModel, inc: TreeModel, d: nat, id: Seq<char>)
    requires
        !tree_contains(inc, id),
    ensures
        !tree_contains(truncated(merged(old, inc, d), d), id),
{
    lemma_merge_converges(old, inc, d);
    lemma_truncated_contains(inc, d, id);
}

/// Searching a child list for a subtree may skip members that hold no
/// match.
pub proof fn lemma_subtree_in_skip(s: Seq<TreeModel>, id: Seq<char>, i: int)
    requires
        0 <= i <= s.len(),
        forall|k: int| 0 <= k < i ==> subtree_at(#[trigger] s[k], id) == None::<TreeModel>,
    ensures
        subtree_in(s, id, 0) == subtree_in(s, id, i),
    decreases i,
{
    if i > 0 {
        lemma_subtree_in_skip(s, id, i - 1);
    }
}

/// What `find_child` returns is a member of the list it searched.
pub proof fn lemma_find_child_member(s: Seq<TreeModel>, id: Seq<char>)
    ensures
        match find_child(s, id) {
            Some(c) => exists|k: int| 0 <= k < s.len() && #[trigger] s[k] == c,
            None => true,
        },
    decreases s.len(),
{
    if s.len() > 0 && s[0].node.id != id {
        let t = s.drop_first();
        lemma_find_child_member(t, id);
        match find_child(t, id) {
            Some(c) => {
                let k = choose|k: int| 0 <= k < t.len() && #[trigger] t[k] == c;
                assert(s[k + 1] == c);
            },
            None => {
            },
        }
    }
}

/// Merging preserves well-formedness: when both the cached and the
/// fetched subtree carry distinct sibling ids everywhere, so does the
/// merged subtree.
pub proof fn lemma_merge_preserves_wf(old: TreeModel, inc: TreeModel, d: nat)
    requires
        wf_tree(old),
        wf_tree(inc),
    ensures
        wf_tree(merged(old, inc, d)),
    decreases inc,
{
    let m = merged(old, inc, d);
    if d > 0 {
        assert forall|i: int|
            0 <= i < m.children.len() implies (#[trigger] m.children[i]).node.id
            == inc.children[i].node.id && wf_tree(m.children[i]) by {
            lemma_find_child_member(old.children, inc.children[i].node.id);
            match find_child(old.children, inc.children[i].node.id) {
                Some(oc) => {
                    let k = choose|k: int|
                        0 <= k < old.children.len() && #[trigger] old.children[k] == oc;
                    lemma_merge_preserves_wf(oc, inc.children[i], (d - 1) as nat);
                },
                None => {
                },
            }
        }
    }
}

/// `find_child` returns the member at the first index whose id matches.
pub proof fn lemma_find_child_hit(s: Seq<TreeModel>, i: int)
    requires
        0 <= i < s.len(),
        forall|k: int| 0 <= k < i ==> (#[trigger] s[k]).node.id != s[i].node.id,
    ensures
        find_child(s, s[i].node.id) == Some(s[i]),
    decreases s.len(),
{
    if i > 0 {
        let t = s.drop_first();
        assert(forall|k: int| 0 <= k < t.len() ==> #[trigger] t[k] == s[k + 1]);
        lemma_find_child_hit(t, i - 1);
    }
}

/// `find_child` returns nothing when no member's id matches.
pub proof fn lemma_find_child_miss(s: Seq<TreeModel>, id: Seq<char>)
    requires
        forall|k: int| 0 <= k < s.len() ==> (#[trigger] s[k]).node.id != id,
    ensures
        find_child(s, id) == None::<TreeModel>,
    decreases s.len(),
{
    if s.len() > 0 {
        let t = s.drop_first();
        assert(forall|k: int| 0 <= k < t.len() ==> #[trigger] t[k] == s[k + 1]);
        lemma_find_child_miss(t, id);
    }
}

/// The index of the first member of `children` whose root node carries
/// `id`, under the model's `find_child`.
fn child_index_of(children: &Vec<NodeTree>, id: &String) -> (r: Option<usize>)
    ensures
        match r {
            Some(j) => {
                &&& j < children@.len()
                &&& tree_model(children@[j as int]).node.id == id@
                &&& find_child(forest_model(children@), id@) == Some(
                    tree_model(children@[j as int]),
                )
            },
            None => find_child(forest_model(children@), id@) == None::<TreeModel>,
        },
{
    let n = children.len();
    for i in 0..n
        invariant
            n == children@.len(),
            forall|k: int| 0 <= k < i ==> tree_model(#[trigger] children@[k]).node.id != id@,
        decreases n - i,
    {
        if children[i].node.id == *id {
            proof {
                lemma_find_child_hit(forest_model(children@), i as int);
            }
            return Some(i);
        }
    }
    proof {
        lemma_find_child_miss(forest_model(children@), id@);
    }
    None
}

impl Icon {
    /// An exact copy.
    pub fn duplicate(&self) -> (r: Icon)
        ensures
            icon_model(r) == icon_model(*self),
    {
        Icon { kind: self.kind, value: self.value.clone() }
    }
}

impl Node {
    /// An exact copy.
    pub fn duplicate(&self) -> (r: Node)
        ensures
            node_model(r) == node_model(*self),
    {
        Node {
            id: self.id.clone(),
            name: self.name.clone(),
            icon: match &self.icon {
                Some(ic) => Some(ic.duplicate()),
                None => None,
            },
            layout: self.layout,
            parent_id: match &self.parent_id {
                Some(p) => Some(p.clone()),
                None => None,
            },
            is_space: self.is_space,
            is_favorite: self.is_favorite,
            is_trashed: self.is_trashed,
            modified: self.modified,
        }
    }

    /// Whether the two nodes agree in every field.
    pub fn same_as(&self, other: &Node) -> (r: bool)
        ensures
            r == (node_model(*self) == node_model(*other)),
    {
        let icon_eq = match (&self.icon, &other.icon) {
            (Some(a), Some(b)) => a.kind == b.kind && a.value == b.value,
            (None, None) => true,
            _ => false,
        };
        let parent_eq = match (&self.parent_id, &other.parent_id) {
            (Some(a), Some(b)) => *a == *b,
            (None, None) => true,
            _ => false,
        };
        self.id == other.id && self.name == other.name && icon_eq && self.layout == other.layout
            && parent_eq && self.is_space == other.is_space && self.is_favorite
            == other.is_favorite && self.is_trashed == other.is_trashed && self.modified
            == other.modified
    }
}

impl NodeTree {
    /// An exact copy of the whole subtree.
    pub fn duplicate(&self) -> (r: NodeTree)
        ensures
            tree_model(r) == tree_model(*self),
        decreases *self,
    {
        let node = self.node.duplicate();
        let mut children: Vec<NodeTree> = Vec::new();
        let n = self.children.len();
        for i in 0..n
            invariant
                n == self.children@.len(),
                children@.len() == i,
                forall|k: int|
                    0 <= k < i ==> tree_model(#[trigger] children@[k]) == tree_model(
                        self.children@[k],
                    ),
            decreases n - i,
        {
            children.push(self.children[i].duplicate());
        }
        let r = NodeTree { node, children };
        proof {
            assert(tree_model(r).children =~= tree_model(*self).children);
        }
        r
    }

    /// Whether the two subtrees agree in every node and in the order of
    /// every child list.
    pub fn same_tree(&self, other: &NodeTree) -> (r: bool)
        ensures
            r == (tree_model(*self) == tree_model(*other)),
        decreases *self,
    {
        if !self.node.same_as(&other.node) {
            return false;
        }
        if self.children.len() != other.children.len() {
            proof {
                assert(tree_model(*self).children.len() != tree_model(*other).children.len());
            }
            return false;
        }
        let n = self.children.len();
        for i in 0..n
            invariant
                n == self.children@.len(),
                n == other.children@.len(),
                node_model(self.node) == node_model(other.node),
                forall|k: int|
                    0 <= k < i ==> tree_model(#[trigger] self.children@[k]) == tree_model(
                        other.children@[k],
                    ),
            decreases n - i,
        {
            if !self.children[i].same_tree(&other.children[i]) {
                proof {
                    assert(tree_model(*self).children[i as int] != tree_model(
                        *other,
                    ).children[i as int]);
                }
                return false;
            }
        }
        proof {
            assert(tree_model(*self).children =~= tree_model(*other).children);
        }
        true
    }

    /// The subtree cut off at `depth` edges below the root: `depth` 0 keeps
    /// only the root, `depth` 1 the root and its direct children, and so on.
    pub fn extract(&self, depth: u32) -> (r: NodeTree)
        ensures
            tree_model(r) == truncated(tree_model(*self), depth as nat),
        decreases *self,
    {
        let node = self.node.duplicate();
        let mut children: Vec<NodeTree> = Vec::new();
        if depth > 0 {
            let n = self.children.len();
            for i in 0..n
                invariant
                    depth > 0,
                    n == self.children@.len(),
                    children@.len() == i,
                    forall|k: int|
                        0 <= k < i ==> tree_model(#[trigger] children@[k]) == truncated(
                            tree_model(self.children@[k]),
                            (depth - 1) as nat,
                        ),
                decreases n - i,
            {
                children.push(self.children[i].extract(depth - 1));
            }
        }
        let r = NodeTree { node, children };
        proof {
            assert(tree_model(r).children =~= truncated(tree_model(*self), depth as nat).children);
        }
        r
    }

    /// The merge of the fetched subtree `incoming`, which covers `depth`
    /// edges below its root, into this cached subtree (see `merged`).  The
    /// incoming data wins for every node it contains; cached nodes below
    /// the window are kept.
    pub fn merge(&self, incoming: &NodeTree, depth: u32) -> (r: NodeTree)
        ensures
            tree_model(r) == merged(tree_model(*self), tree_model(*incoming), depth as nat),
        decreases *incoming,
    {
        let node = incoming.node.duplicate();
        let mut children: Vec<NodeTree> = Vec::new();
        if depth == 0 {
            let n = self.children.len();
            for i in 0..n
                invariant
                    n == self.children@.len(),
                    children@.len() == i,
                    forall|k: int|
                        0 <= k < i ==> tree_model(#[trigger] children@[k]) == tree_model(
                            self.children@[k],
                        ),
                decreases n - i,
            {
                children.push(self.children[i].duplicate());
            }
        } else {
            let n = incoming.children.len();
            for i in 0..n
                invariant
                    depth > 0,
                    n == incoming.children@.len(),
                    children@.len() == i,
                    forall|k: int|
                        0 <= k < i ==> tree_model(#[trigger] children@[k]) == (match find_child(
                            forest_model(self.children@),
                            tree_model(incoming.children@[k]).node.id,
                        ) {
                            Some(oc) => merged(
                                oc,
                                tree_model(incoming.children@[k]),
                                (depth - 1) as nat,
                            ),
                            None => tree_model(incoming.children@[k]),
                        }),
                decreases n - i,
            {
                match child_index_of(&self.children, &incoming.children[i].node.id) {
                    Some(j) => {
                        children.push(self.children[j].merge(&incoming.children[i], depth - 1));
                    },
                    None => {
                        children.push(incoming.children[i].duplicate());
                    },
                }
            }
        }
        let r = NodeTree { node, children };
        proof {
            assert(tree_model(r).children =~= merged(
                tree_model(*self),
                tree_model(*incoming),
                depth as nat,
            ).children);
        }
        r
    }

    /// Whether `id` names a node of this subtree.
    pub fn contains_id(&self, id: &String) -> (r: bool)
        ensures
            r == tree_contains(tree_model(*self), id@),
        decreases *self,
    {
        if self.node.id == *id {
            return true;
        }
        let n = self.children.len();
        for i in 0..n
            invariant
                n == self.children@.len(),
                forall|k: int|
                    0 <= k < i ==> !tree_contains(tree_model(#[trigger] self.children@[k]), id@),
            decreases n - i,
        {
            if self.children[i].contains_id(id) {
                proof {
                    assert(tree_contains(tree_model(*self).children[i as int], id@));
                }
                return true;
            }
        }
        false
    }

    /// The subtree rooted at the first node carrying `id`, in preorder, if
    /// any.
    pub fn find_subtree(&self, id: &String) -> (r: Option<&NodeTree>)
        ensures
            match r {
                Some(st) => subtree_at(tree_model(*self), id@) == Some(tree_model(*st)),
                None => subtree_at(tree_model(*self), id@) == None::<TreeModel>,
            },
        decreases *self,
    {
        if self.node.id == *id {
            return Some(self);
        }
        let n = self.children.len();
        for i in 0..n
            invariant
                n == self.children@.len(),
                self.node.id@ != id@,
                forall|k: int|
                    0 <= k < i ==> subtree_at(tree_model(#[trigger] self.children@[k]), id@)
                        == None::<TreeModel>,
            decreases n - i,
        {
            let found = self.children[i].find_subtree(id);
            match found {
                Some(st) => {
                    proof {
                        lemma_subtree_in_skip(tree_model(*self).children, id@, i as int);
                    }
                    return Some(st);
                },
                None => {
                },
            }
        }
        proof {
            lemma_subtree_in_skip(tree_model(*self).children, id@, n as int);
        }
        None
    }

    /// The merge of `incoming` applied at the node of this tree that
    /// carries `incoming`'s root id, leaving every other branch untouched.
    pub fn merge_at(&self, incoming: &NodeTree, depth: u32) -> (r: NodeTree)
        ensures
            tree_model(r) == merged_at(tree_model(*self), tree_model(*incoming), depth as nat),
        decreases *self,
    {
        if self.node.id == incoming.node.id {
            return self.merge(incoming, depth);
        }
        let node = self.node.duplicate();
        let mut children: Vec<NodeTree> = Vec::new();
        let n = self.children.len();
        for i in 0..n
            invariant
                n == self.children@.len(),
                children@.len() == i,
                self.node.id@ != incoming.node.id@,
                forall|k: int|
                    0 <= k < i ==> tree_model(#[trigger] children@[k]) == merged_at(
                        tree_model(self.children@[k]),
                        tree_model(*incoming),
                        depth as nat,
                    ),
            decreases n - i,
        {
            children.push(self.children[i].merge_at(incoming, depth));
        }
        let r = NodeTree { node, children };
        proof {
            assert(tree_model(r).children =~= merged_at(
                tree_model(*self),
                tree_model(*incoming),
                depth as nat,
            ).children);
        }
        r
    }

    /// `sub` appended as the last child of the node of this tree that
    /// carries `parent`, leaving every other branch untouched.
    pub fn graft(&self, parent: &String, sub: &NodeTree) -> (r: NodeTree)
        ensures
            tree_model(r) == grafted(tree_model(*self), parent@, tree_model(*sub)),
        decreases *self,
    {
        let node = self.node.duplicate();
        let mut children: Vec<NodeTree> = Vec::new();
        let n = self.children.len();
        if self.node.id == *parent {
            for i in 0..n
                invariant
                    n == self.children@.len(),
                    children@.len() == i,
                    forall|k: int|
                        0 <= k < i ==> tree_model(#[trigger] children@[k]) == tree_model(
                            self.children@[k],
                        ),
                decreases n - i,
            {
                children.push(self.children[i].duplicate());
            }
            children.push(sub.duplicate());
            let r = NodeTree { node, children };
            proof {
                assert(tree_model(r).children =~= grafted(
                    tree_model(*self),
                    parent@,
                    tree_model(*sub),
                ).children);
            }
            r
        } else {
            for i in 0..n
                invariant
                    n == self.children@.len(),
                    children@.len() == i,
                    self.node.id@ != parent@,
                    forall|k: int|
                        0 <= k < i ==> tree_model(#[trigger] children@[k]) == grafted(
                            tree_model(self.children@[k]),
                            parent@,
                            tree_model(*sub),
                        ),
                decreases n - i,
            {
                children.push(self.children[i].graft(parent, sub));
            }
            let r = NodeTree { node, children };
            proof {
                assert(tree_model(r).children =~= grafted(
                    tree_model(*self),
                    parent@,
                    tree_model(*sub),
                ).children);
            }
            r
        }
    }

    /// How many nodes this subtree holds, the root included, capped at
    /// `usize::MAX`; reported by the store for observability.
    pub fn count_nodes(&self) -> (r: usize)
        ensures
            r as nat == capped(tree_size(tree_model(*self))),
        decreases *self,
    {
        let mut acc: usize = 1;
        let n = self.children.len();
        for i in 0..n
            invariant
                n == self.children@.len(),
                acc as nat == capped(
                    1 + forest_size_upto(tree_model(*self).children, i as int),
                ),
            decreases n - i,
        {
            let c = self.children[i].count_nodes();
            proof {
                assert(tree_model(*self).children[i as int] == tree_model(self.children@[i as int]));
            }
            if usize::MAX - acc < c {
                acc = usize::MAX;
            } else {
                acc = acc + c;
            }
        }
        acc
    }

    /// As `merge`, and also reports whether the merge changed anything:
    /// the flag that decides whether a notification is published.
    pub fn merge_with_change(&self, incoming: &NodeTree, depth: u32) -> (r: (NodeTree, bool))
        ensures
            tree_model(r.0) == merged(tree_model(*self), tree_model(*incoming), depth as nat),
            r.1 == merge_changed(tree_model(*self), tree_model(*incoming), depth as nat),
    {
        let m = self.merge(incoming, depth);
        let changed = !m.same_tree(self);
        (m, changed)
    }
}

} // verus!
