use vstd::prelude::*;

verus! {

/// One token of a cancellation forest.
#[derive(Clone, Copy)]
pub struct CancelNode {
    /// The token this one was created under, if any. A parent is always
    /// created before its children, so its index is smaller.
    pub parent: Option<usize>,
    pub cancelled: bool,
}

/// Whether token `i` lies in the subtree of token `a` (itself included).
pub open spec fn descends(nodes: Seq<CancelNode>, i: int, a: int) -> bool
    decreases i,
{
    if i == a {
        true
    } else if 0 <= i < nodes.len() {
        match nodes[i].parent {
            Some(p) => if 0 <= p < i {
                descends(nodes, p as int, a)
            } else {
                false
            },
            None => false,
        }
    } else {
        false
    }
}

/// The forest after cancelling token `a`: its whole subtree is cancelled and
/// nothing else changes.
pub open spec fn spec_cancel(nodes: Seq<CancelNode>, a: int) -> Seq<CancelNode> {
    Seq::new(
        nodes.len(),
        |i: int|
            CancelNode {
                parent: nodes[i].parent,
                cancelled: nodes[i].cancelled || descends(nodes, i, a),
            },
    )
}

/// A well-formed forest: parents come first, and a cancelled token has only
/// cancelled children.
pub open spec fn forest_wf(nodes: Seq<CancelNode>) -> bool {
    forall|i: int|
        0 <= i < nodes.len() && (#[trigger] nodes[i]).parent is Some ==> {
            let p = nodes[i].parent.unwrap() as int;
            &&& 0 <= p < i
            &&& nodes[p].cancelled ==> nodes[i].cancelled
        }
}

/// A token never lies below one created after it.
pub proof fn lemma_descends_order(nodes: Seq<CancelNode>, i: int, a: int)
    requires
        descends(nodes, i, a),
    ensures
        a <= i,
    decreases i,
{
    if i != a {
        let p = nodes[i].parent.unwrap() as int;
        lemma_descends_order(nodes, p, a);
    }
}

/// Whether a token is in a subtree depends on the parent links alone.
pub proof fn lemma_descends_parents(n: Seq<CancelNode>, m: Seq<CancelNode>, i: int, a: int)
    requires
        n.len() == m.len(),
        forall|k: int| 0 <= k < n.len() ==> (#[trigger] n[k]).parent == m[k].parent,
    ensures
        descends(n, i, a) == descends(m, i, a),
    decreases i,
{
    if i != a && 0 <= i < n.len() {
        assert(n[i].parent == m[i].parent);
        match n[i].parent {
            Some(p) => if 0 <= p < i {
                lemma_descends_parents(n, m, p as int, a);
            },
            None => {},
        }
    }
}

/// A forest of cancellation tokens, each named by its index. Cancelling a
/// token cancels its whole subtree; a token created under a cancelled one
/// starts cancelled; cancelling again changes nothing.
pub struct CancelForest {
    nodes: Vec<CancelNode>,
}

impl View for CancelForest {
    type V = Seq<CancelNode>;

    closed spec fn view(&self) -> Seq<CancelNode> {
        self.nodes@
    }
}

impl CancelForest {
    pub open spec fn wf(&self) -> bool {
        forest_wf(self@)
    }

    pub fn new() -> (r: CancelForest)
        ensures
            r.wf(),
            r@ == Seq::<CancelNode>::empty(),
    {
        CancelForest { nodes: Vec::new() }
    }

    pub fn len(&self) -> (r: usize)
        ensures
            r == self@.len(),
    {
        self.nodes.len()
    }

    /// Adds a token with no parent.
    pub fn new_root(&mut self) -> (id: usize)
        requires
            old(self).wf(),
        ensures
            final(self).wf(),
            id == old(self)@.len(),
            final(self)@ == old(self)@.push(CancelNode { parent: None, cancelled: false }),
    {
        let id = self.nodes.len();
        self.nodes.push(CancelNode { parent: None, cancelled: false });
        id
    }

    /// Adds a token under `parent`; it starts cancelled exactly when the
    /// parent already is.
    pub fn create_child(&mut self, parent: usize) -> (id: usize)
        requires
            old(self).wf(),
            parent < old(self)@.len(),
        ensures
            final(self).wf(),
            id == old(self)@.len(),
            final(self)@ == old(self)@.push(
                CancelNode { parent: Some(parent), cancelled: old(self)@[parent as int].cancelled },
            ),
    {
        let id = self.nodes.len();
        let cancelled = self.nodes[parent].cancelled;
        self.nodes.push(CancelNode { parent: Some(parent), cancelled });
        proof {
            assert forall|i: int|
                0 <= i < self@.len() && (#[trigger] self@[i]).parent is Some implies {
                let p = self@[i].parent.unwrap() as int;
                &&& 0 <= p < i
                &&& self@[p].cancelled ==> self@[i].cancelled
            } by {
                if i < id {
                    assert(self@[i] == old(self)@[i]);
                }
            }
        }
        id
    }

    pub fn is_cancelled(&self, id: usize) -> (r: bool)
        requires
            id < self@.len(),
        ensures
            r == self@[id as int].cancelled,
    {
        self.nodes[id].cancelled
    }

    /// Cancels token `id` and every token below it.
    pub fn cancel(&mut self, id: usize)
        requires
            old(self).wf(),
            id < old(self)@.len(),
        ensures
            final(self).wf(),
            final(self)@ == spec_cancel(old(self)@, id as int),
    {
        let ghost old_nodes = self.nodes@;
        let n = self.nodes.len();
        let mut i: usize = id;
        proof {
            assert forall|k: int| 0 <= k < id implies !descends(old_nodes, k, id as int) by {
                if descends(old_nodes, k, id as int) {
                    lemma_descends_order(old_nodes, k, id as int);
                }
            }
        }
        while i < n
            invariant
                id <= i <= n,
                n == old_nodes.len(),
                self.nodes@.len() == n,
                forest_wf(old_nodes),
                forall|k: int|
                    0 <= k < n ==> (#[trigger] self.nodes@[k]).parent == old_nodes[k].parent,
                forall|k: int|
                    0 <= k < i ==> (#[trigger] self.nodes@[k]).cancelled == (
                    old_nodes[k].cancelled || descends(old_nodes, k, id as int)),
                forall|k: int| i <= k < n ==> #[trigger] self.nodes@[k] == old_nodes[k],
            decreases n - i,
        {
            let mark = if i == id {
                true
            } else {
                match self.nodes[i].parent {
                    Some(p) => p >= id && self.nodes[p].cancelled,
                    None => false,
                }
            };
            proof {
                let ki = i as int;
                if ki != id as int {
                    match old_nodes[ki].parent {
                        Some(p) => {
                            assert(old_nodes[ki].parent is Some);
                            if descends(old_nodes, ki, id as int) {
                                lemma_descends_order(old_nodes, p as int, id as int);
                            }
                        },
                        None => {},
                    }
                }
                if !mark {
                    assert(old_nodes[ki].cancelled || !descends(old_nodes, ki, id as int));
                }
            }
            if mark {
                let node = CancelNode { parent: self.nodes[i].parent, cancelled: true };
                self.nodes.set(i, node);
            }
            proof {
                let ki = i as int;
                if !mark {
                    assert(self.nodes@[ki] == old_nodes[ki]);
                }
                assert(self.nodes@[ki].cancelled == (old_nodes[ki].cancelled || descends(
                    old_nodes,
                    ki,
                    id as int,
                ))) by {
                    if mark && ki != id as int {
                        let p = old_nodes[ki].parent.unwrap() as int;
                        if !descends(old_nodes, p, id as int) {
                            assert(old_nodes[ki].parent is Some);
                        }
                    }
                }
            }
            i = i + 1;
        }
        proof {
            assert(self.nodes@ =~= spec_cancel(old_nodes, id as int));
            assert forall|k: int|
                0 <= k < self@.len() && (#[trigger] self@[k]).parent is Some implies {
                let p = self@[k].parent.unwrap() as int;
                &&& 0 <= p < k
                &&& self@[p].cancelled ==> self@[k].cancelled
            } by {
                assert(old_nodes[k].parent is Some);
            }
        }
    }
}

/// Cancelling a token cancels every token in its subtree and leaves the
/// cancelled state of every token outside it as it was.
pub proof fn lemma_cancel_propagates(nodes: Seq<CancelNode>, a: int, i: int)
    requires
        forest_wf(nodes),
        0 <= a < nodes.len(),
        0 <= i < nodes.len(),
    ensures
        descends(nodes, i, a) ==> spec_cancel(nodes, a)[i].cancelled,
        !descends(nodes, i, a) ==> spec_cancel(nodes, a)[i].cancelled == nodes[i].cancelled,
        spec_cancel(nodes, a)[a].cancelled,
{
}

/// Cancelling a token twice leaves the forest as cancelling it once.
pub proof fn lemma_cancel_idempotent(nodes: Seq<CancelNode>, a: int)
    requires
        forest_wf(nodes),
        0 <= a < nodes.len(),
    ensures
        spec_cancel(spec_cancel(nodes, a), a) == spec_cancel(nodes, a),
{
    let once = spec_cancel(nodes, a);
    assert forall|k: int| 0 <= k < nodes.len() implies descends(once, k, a) == descends(
        nodes,
        k,
        a,
    ) by {
        lemma_descends_parents(once, nodes, k, a);
    }
    assert(spec_cancel(once, a) =~= once);
}

} // verus!
