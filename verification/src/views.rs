//! The derived views over a cached tree: favorites, trash and recent are
//! queries over the node set, driven entirely by each node's flags and
//! recency key — never separately stored state that could drift.

use vstd::prelude::*;

use crate::tree::{node_model, tree_model, Node, NodeModel, NodeTree, TreeModel};

verus! {

/// Which derived view is being read.
#[derive(Clone, Copy, Debug, PartialEq, Eq, Structural)]
pub enum ViewKind {
    Favorite,
    Trash,
    Recent,
}

/// The models of a sequence of nodes, in order.
pub open spec fn node_models(s: Seq<Node>) -> Seq<NodeModel> {
    Seq::new(s.len(), |i: int| node_model(s[i]))
}

/// Every node of `t` in preorder: the root, then each child's nodes in
/// child order.
pub open spec fn preorder(t: TreeModel) -> Seq<NodeModel>
    decreases t, 0int,
{
    seq![t.node] + preorder_upto(t.children, t.children.len() as int)
}

/// The preorder nodes of the first `i` members of `s`, concatenated.
pub open spec fn preorder_upto(s: Seq<TreeModel>, i: int) -> Seq<NodeModel>
    decreases s, i,
{
    if i <= 0 || i > s.len() {
        Seq::<NodeModel>::empty()
    } else {
        preorder_upto(s, i - 1) + preorder(s[i - 1])
    }
}

/// Whether a node belongs to the given view: favorites show flagged,
/// untrashed nodes; the trash view shows exactly the trashed nodes; the
/// recent view shows untrashed nodes whose recency key is at least
/// `since`.
pub open spec fn view_pred(kind: ViewKind, since: u64, n: NodeModel) -> bool {
    match kind {
        ViewKind::Favorite => n.is_favorite && !n.is_trashed,
        ViewKind::Trash => n.is_trashed,
        ViewKind::Recent => !n.is_trashed && n.modified >= since,
    }
}

/// The members of `s` that belong to the view, in their order in `s`.
pub open spec fn selected(s: Seq<NodeModel>, kind: ViewKind, since: u64) -> Seq<NodeModel>
    decreases s.len(),
{
    if s.len() == 0 {
        s
    } else {
        let rest = selected(s.drop_last(), kind, since);
        if view_pred(kind, since, s.last()) {
            rest.push(s.last())
        } else {
            rest
        }
    }
}

/// What the view `kind` of the tree `t` holds.
pub open spec fn view_of(t: TreeModel, kind: ViewKind, since: u64) -> Seq<NodeModel> {
    selected(preorder(t), kind, since)
}

/// A selection only ever contains members whose flag is set, and never a
/// member absent from the sequence it was drawn from.
pub proof fn lemma_selected_sound(s: Seq<NodeModel>, kind: ViewKind, since: u64)
    ensures
        forall|i: int|
            0 <= i < selected(s, kind, since).len() ==> view_pred(
                kind,
                since,
                #[trigger] selected(s, kind, since)[i],
            ) && s.contains(selected(s, kind, since)[i]),
    decreases s.len(),
{
    if s.len() > 0 {
        lemma_selected_sound(s.drop_last(), kind, since);
        let rest = selected(s.drop_last(), kind, since);
        assert forall|i: int|
            0 <= i < selected(s, kind, since).len() implies view_pred(
            kind,
            since,
            #[trigger] selected(s, kind, since)[i],
        ) && s.contains(selected(s, kind, since)[i]) by {
            if i < rest.len() {
                assert(view_pred(kind, since, rest[i]) && s.drop_last().contains(rest[i]));
                let j = choose|j: int| 0 <= j < s.drop_last().len() && s.drop_last()[j] == rest[i];
                assert(s[j] == rest[i]);
            } else {
                assert(selected(s, kind, since)[i] == s.last());
                assert(s[s.len() - 1] == s.last());
            }
        }
    }
}

/// The law the derived views obey: each view of a tree only ever holds
/// nodes whose corresponding flag (or recency bound) holds, and only nodes
/// that the canonical tree itself holds.
pub proof fn lemma_views_sound(t: TreeModel, kind: ViewKind, since: u64)
    ensures
        forall|i: int|
            0 <= i < view_of(t, kind, since).len() ==> view_pred(
                kind,
                since,
                #[trigger] view_of(t, kind, since)[i],
            ) && preorder(t).contains(view_of(t, kind, since)[i]),
{
    lemma_selected_sound(preorder(t), kind, since);
}

impl NodeTree {
    /// Every node of the subtree, in preorder.
    pub fn all_nodes(&self) -> (r: Vec<Node>)
        ensures
            node_models(r@) == preorder(tree_model(*self)),
        decreases *self,
    {
        let mut out: Vec<Node> = Vec::new();
        out.push(self.node.duplicate());
        proof {
            assert(node_models(out@) =~= seq![node_model(self.node)] + preorder_upto(
                tree_model(*self).children,
                0,
            ));
        }
        let n = self.children.len();
        for i in 0..n
            invariant
                n == self.children@.len(),
                node_models(out@) == seq![node_model(self.node)] + preorder_upto(
                    tree_model(*self).children,
                    i as int,
                ),
            decreases n - i,
        {
            let mut c = self.children[i].all_nodes();
            let ghost prev = out@;
            out.append(&mut c);
            proof {
                assert(tree_model(*self).children[i as int] == tree_model(self.children@[i as int]));
                assert(node_models(out@) =~= node_models(prev) + preorder(
                    tree_model(self.children@[i as int]),
                ));
                assert(node_models(out@) =~= seq![node_model(self.node)] + preorder_upto(
                    tree_model(*self).children,
                    i + 1,
                ));
            }
        }
        proof {
            assert(node_models(out@) =~= preorder(tree_model(*self)));
        }
        out
    }

    /// The nodes of the subtree that belong to the view `kind`, in
    /// preorder.  `since` bounds the recency key and matters only to the
    /// recent view.
    pub fn view_nodes(&self, kind: ViewKind, since: u64) -> (r: Vec<Node>)
        ensures
            node_models(r@) == view_of(tree_model(*self), kind, since),
    {
        let nodes = self.all_nodes();
        let ghost s = node_models(nodes@);
        let mut out: Vec<Node> = Vec::new();
        let n = nodes.len();
        proof {
            assert(s.take(0) =~= Seq::<NodeModel>::empty());
        }
        for i in 0..n
            invariant
                n == nodes@.len(),
                s == node_models(nodes@),
                node_models(out@) == selected(s.take(i as int), kind, since),
            decreases n - i,
        {
            let keep = match kind {
                ViewKind::Favorite => nodes[i].is_favorite && !nodes[i].is_trashed,
                ViewKind::Trash => nodes[i].is_trashed,
                ViewKind::Recent => !nodes[i].is_trashed && nodes[i].modified >= since,
            };
            let ghost prev = out@;
            if keep {
                out.push(nodes[i].duplicate());
            }
            proof {
                assert(s.take(i + 1).drop_last() =~= s.take(i as int));
                assert(s.take(i + 1).last() == s[i as int]);
                assert(keep == view_pred(kind, since, s[i as int]));
                if keep {
                    assert(node_models(out@) =~= node_models(prev).push(node_model(nodes@[i as int])));
                }
                assert(node_models(out@) =~= selected(s.take(i + 1), kind, since));
            }
        }
        proof {
            assert(s.take(n as int) =~= s);
        }
        out
    }
}

} // verus!
