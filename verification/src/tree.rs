//! A tree of nodes addressed by identifiers that expire when their node is
//! removed.
//!
//! Nodes are stored in creation order and slots are not reused while the
//! tree lives, so a parent is always stored before its children. Replacing
//! the root starts a new generation of the tree: every earlier identifier
//! expires.

use vstd::prelude::*;

verus! {

/// The identifier of a node: its slot and the generation of the tree it
/// was created in.
#[derive(Clone, Copy, Debug, PartialEq, Eq, Structural)]
pub struct NodeId {
    pub index: u32,
    pub generation: u32,
}

struct TreeSlot<N> {
    node: Option<N>,
    parent: Option<u32>,
}

/// A tree of values of type `N`.
pub struct NodeTree<N> {
    slots: Vec<TreeSlot<N>>,
    root: Option<u32>,
    epoch: u32,
}

impl<N> NodeTree<N> {
    /// The number of slots of the current generation.
    pub closed spec fn slot_count(&self) -> nat {
        self.slots@.len()
    }

    /// The current generation.
    pub closed spec fn generation(&self) -> u32 {
        self.epoch
    }

    /// Whether slot `i` holds a node.
    pub closed spec fn live(&self, i: int) -> bool {
        0 <= i < self.slots@.len() && self.slots@[i].node is Some
    }

    /// The node in slot `i`.
    pub closed spec fn node_at(&self, i: int) -> N {
        self.slots@[i].node->0
    }

    /// The parent of the node in slot `i`.
    pub closed spec fn parent_at(&self, i: int) -> Option<u32> {
        self.slots@[i].parent
    }

    /// The slot of the root, if there is one.
    pub closed spec fn root_index(&self) -> Option<u32> {
        self.root
    }

    /// Whether `id` names a node of the tree.
    pub open spec fn contains(&self, id: NodeId) -> bool {
        id.generation == self.generation() && self.live(id.index as int)
    }

    /// Whether slot `i` is slot `x` or below it, following parents.
    pub open spec fn descends(&self, i: int, x: int) -> bool
        decreases i,
    {
        if i == x {
            true
        } else if i > x {
            match self.parent_at(i) {
                Some(p) => p < i && self.descends(p as int, x),
                None => false,
            }
        } else {
            false
        }
    }

    /// Whether `id` can never name a node again: it is of an earlier
    /// generation, or its slot has been emptied.
    pub open spec fn expired(&self, id: NodeId) -> bool {
        ||| id.generation < self.generation()
        ||| (id.generation == self.generation() && id.index < self.slot_count() && !self.live(
            id.index as int,
        ))
    }

    /// The tree's invariant: every node but the root has a live parent
    /// stored before it, and the root has none.
    pub closed spec fn wf(&self) -> bool {
        &&& self.slots@.len() <= u32::MAX
        &&& match self.root {
            Some(r) => self.live(r as int) && self.slots@[r as int].parent is None,
            None => true,
        }
        &&& forall|i: int|
            #![trigger self.slots@[i]]
            self.live(i) ==> match self.slots@[i].parent {
                Some(p) => p < i && self.live(p as int),
                None => self.root == Some(i as u32),
            }
    }

    /// An empty tree.
    pub fn new() -> (r: Self)
        ensures
            r.wf(),
            r.slot_count() == 0,
            r.root_index() is None,
            r.generation() == 0,
    {
        NodeTree { slots: Vec::new(), root: None, epoch: 0 }
    }

    /// The identifier of the root, if there is one.
    pub fn root_id(&self) -> (r: Option<NodeId>)
        ensures
            r == (match self.root_index() {
                Some(i) => Some(NodeId { index: i, generation: self.generation() }),
                None => None,
            }),
    {
        match self.root {
            Some(i) => Some(NodeId { index: i, generation: self.epoch }),
            None => None,
        }
    }

    /// Returns the node that `id` names, if any.
    pub fn get_node(&self, id: NodeId) -> (r: Option<&N>)
        ensures
            r is Some <==> self.contains(id),
            r matches Some(n) ==> *n == self.node_at(id.index as int),
    {
        if id.generation != self.epoch || id.index as usize >= self.slots.len() {
            return None;
        }
        self.slots[id.index as usize].node.as_ref()
    }

    /// Returns the node that `id` names, for mutation, if any.
    pub fn get_node_mut(&mut self, id: NodeId) -> (r: Option<&mut N>)
        requires
            old(self).wf(),
        ensures
            r is Some <==> old(self).contains(id),
            r matches Some(n) ==> *n == old(self).node_at(id.index as int),
            final(self).wf(),
            final(self).slot_count() == old(self).slot_count(),
            final(self).generation() == old(self).generation(),
            final(self).root_index() == old(self).root_index(),
            forall|i: int|
                #![trigger final(self).live(i)]
                0 <= i < old(self).slot_count() ==> final(self).live(i) == old(self).live(i)
                    && final(self).parent_at(i) == old(self).parent_at(i),
            forall|i: int|
                #![trigger final(self).node_at(i)]
                0 <= i < old(self).slot_count() && i != id.index ==> final(self).node_at(i)
                    == old(self).node_at(i),
            r matches Some(n) ==> final(self).node_at(id.index as int) == *final(n),
            r is None ==> forall|i: int|
                #![trigger final(self).node_at(i)]
                0 <= i < old(self).slot_count() ==> final(self).node_at(i) == old(self).node_at(i),
    {
        if id.generation != self.epoch || id.index as usize >= self.slots.len() {
            return None;
        }
        let index = id.index as usize;
        if self.slots[index].node.is_none() {
            return None;
        }
        let slot = &mut self.slots[index];
        slot.node.as_mut()
    }

    /// The root node, if there is one.
    pub fn root(&self) -> (r: Option<&N>)
        requires
            self.wf(),
        ensures
            r is Some <==> self.root_index() is Some,
            r matches Some(n) ==> *n == self.node_at(self.root_index()->0 as int),
    {
        match self.root {
            Some(i) => self.slots[i as usize].node.as_ref(),
            None => None,
        }
    }

    /// Replaces the whole tree by a single root node, and returns the
    /// previous root node. Every earlier identifier expires.
    pub fn set_root(&mut self, node: N) -> (r: (NodeId, Option<N>))
        requires
            old(self).wf(),
            old(self).generation() < u32::MAX || old(self).slot_count() < u32::MAX,
        ensures
            final(self).wf(),
            r.1 == (match old(self).root_index() {
                Some(i) => Some(old(self).node_at(i as int)),
                None => None,
            }),
            final(self).root_index() == Some(r.0.index),
            final(self).contains(r.0),
            final(self).node_at(r.0.index as int) == node,
            final(self).parent_at(r.0.index as int) is None,
            forall|i: int| i != r.0.index ==> !#[trigger] final(self).live(i),
            final(self).generation() >= old(self).generation(),
            forall|g: NodeId| old(self).contains(g) || old(self).expired(g) ==> #[trigger] final(self).expired(g),
    {
        let mut previous: Option<N> = None;
        match self.root {
            Some(i) => {
                std::mem::swap(&mut previous, &mut self.slots[i as usize].node);
            },
            None => {},
        }
        let ghost mid = self.slots@;
        if self.epoch < u32::MAX {
            self.slots = Vec::new();
            self.epoch = self.epoch + 1;
        } else {
            let n = self.slots.len();
            let mut i: usize = 0;
            while i < n
                invariant
                    n == self.slots@.len(),
                    n == mid.len(),
                    n < u32::MAX,
                    self.epoch == u32::MAX,
                    self.epoch == old(self).epoch,
                    i <= n,
                    forall|j: int| 0 <= j < i ==> #[trigger] self.slots@[j].node is None,
                decreases n - i,
            {
                self.slots.set(i, TreeSlot { node: None, parent: None });
                i = i + 1;
            }
        }
        let index = self.slots.len() as u32;
        self.slots.push(TreeSlot { node: Some(node), parent: None });
        self.root = Some(index);
        proof {
            assert(self.live(index as int));
            assert forall|g: NodeId| old(self).contains(g) || old(self).expired(g) implies #[trigger] self.expired(g) by {
                if old(self).epoch < u32::MAX {
                    assert(g.generation < self.epoch);
                } else if g.generation == self.epoch {
                    assert(g.index < old(self).slots@.len());
                    assert(g.index < index);
                    assert(!self.live(g.index as int));
                }
            }
            assert forall|j: int| #![trigger self.slots@[j]] self.live(j) implies match self.slots@[j].parent {
                Some(p) => p < j && self.live(p as int),
                None => self.root == Some(j as u32),
            } by {
                assert(j == index);
            }
        }
        (NodeId { index, generation: self.epoch }, previous)
    }

    /// Adds `node` as a child of `parent`, and returns its identifier.
    pub fn add_child(&mut self, parent: NodeId, node: N) -> (r: NodeId)
        requires
            old(self).wf(),
            old(self).contains(parent),
            old(self).slot_count() < u32::MAX,
        ensures
            final(self).wf(),
            r == (NodeId { index: old(self).slot_count() as u32, generation: old(self).generation() }),
            final(self).slot_count() == old(self).slot_count() + 1,
            final(self).generation() == old(self).generation(),
            final(self).root_index() == old(self).root_index(),
            final(self).live(r.index as int),
            final(self).node_at(r.index as int) == node,
            final(self).parent_at(r.index as int) == Some(parent.index),
            forall|i: int|
                #![trigger final(self).live(i)]
                0 <= i < old(self).slot_count() ==> final(self).live(i) == old(self).live(i)
                    && final(self).node_at(i) == old(self).node_at(i) && final(self).parent_at(i)
                    == old(self).parent_at(i),
            forall|g: NodeId| old(self).expired(g) ==> #[trigger] final(self).expired(g),
    {
        let index = self.slots.len() as u32;
        self.slots.push(TreeSlot { node: Some(node), parent: Some(parent.index) });
        proof {
            assert forall|j: int| #![trigger self.slots@[j]] self.live(j) implies match self.slots@[j].parent {
                Some(p) => p < j && self.live(p as int),
                None => self.root == Some(j as u32),
            } by {
                if j < index {
                    assert(old(self).slots@[j] == self.slots@[j]);
                    assert(old(self).live(j));
                    match self.slots@[j].parent {
                        Some(p) => {
                            assert(old(self).live(p as int));
                        },
                        None => {},
                    }
                }
            }
            match self.root {
                Some(rr) => {
                    assert(old(self).live(rr as int));
                },
                None => {},
            }
        }
        NodeId { index, generation: self.epoch }
    }

    /// Removes the node that `id` names together with every node below it,
    /// and returns the node. Returns `None`, changing nothing, when `id`
    /// names no node.
    pub fn remove_node(&mut self, id: NodeId) -> (r: Option<N>)
        requires
            old(self).wf(),
        ensures
            final(self).wf(),
            r is Some <==> old(self).contains(id),
            r matches Some(n) ==> n == old(self).node_at(id.index as int),
            final(self).slot_count() == old(self).slot_count(),
            final(self).generation() == old(self).generation(),
            forall|i: int|
                #![trigger final(self).live(i)]
                0 <= i < old(self).slot_count() ==> final(self).live(i) == (old(self).live(i) && !(
                old(self).contains(id) && old(self).descends(i, id.index as int))),
            forall|i: int|
                #![trigger final(self).node_at(i)]
                final(self).live(i) ==> final(self).node_at(i) == old(self).node_at(i)
                    && final(self).parent_at(i) == old(self).parent_at(i),
            final(self).root_index() == (if old(self).contains(id) && old(self).root_index() == Some(
                id.index,
            ) {
                None
            } else {
                old(self).root_index()
            }),
            old(self).contains(id) ==> final(self).expired(id),
            forall|g: NodeId| old(self).expired(g) ==> #[trigger] final(self).expired(g),
    {
        let n = self.slots.len();
        if id.generation != self.epoch || id.index as usize >= n {
            return None;
        }
        let x = id.index as usize;
        if self.slots[x].node.is_none() {
            return None;
        }
        let mut removed: Option<N> = None;
        std::mem::swap(&mut removed, &mut self.slots[x].node);
        self.slots[x].parent = None;
        if self.root == Some(id.index) {
            self.root = None;
        }
        let mut gone: Vec<bool> = Vec::new();
        let mut k: usize = 0;
        while k < n
            invariant
                k <= n,
                gone@.len() == k,
                forall|j: int| 0 <= j < k ==> #[trigger] gone@[j] == (j == x),
            decreases n - k,
        {
            gone.push(k == x);
            k = k + 1;
        }
        let mut i: usize = x + 1;
        while i < n
            invariant
                old(self).wf(),
                n == old(self).slots@.len(),
                n == self.slots@.len(),
                gone@.len() == n,
                x < i <= n,
                x == id.index,
                old(self).live(x as int),
                self.epoch == old(self).epoch,
                self.root == (if old(self).root == Some(id.index) {
                    None
                } else {
                    old(self).root
                }),
                forall|j: int|
                    0 <= j < n ==> #[trigger] gone@[j] == (j < i && old(self).live(j)
                        && old(self).descends(j, x as int)),
                forall|j: int|
                    0 <= j < i ==> #[trigger] self.live(j) == (old(self).live(j) && !gone@[j]),
                forall|j: int|
                    0 <= j < i && self.live(j) ==> #[trigger] self.slots@[j] == old(self).slots@[j],
                forall|j: int| i <= j < n ==> #[trigger] self.slots@[j] == old(self).slots@[j],
            decreases n - i,
        {
            let dead = match self.slots[i].parent {
                Some(p) => self.slots[i].node.is_some() && gone[p as usize],
                None => false,
            };
            proof {
                assert(self.slots@[i as int] == old(self).slots@[i as int]);
                if old(self).live(i as int) {
                    match old(self).slots@[i as int].parent {
                        Some(p) => {
                            assert(p < i);
                        },
                        None => {},
                    }
                }
            }
            if dead {
                self.slots.set(i, TreeSlot { node: None, parent: None });
                gone.set(i, true);
            }
            i = i + 1;
        }
        proof {
            assert forall|j: int| #![trigger self.slots@[j]] self.live(j) implies match self.slots@[j].parent {
                Some(p) => p < j && self.live(p as int),
                None => self.root == Some(j as u32),
            } by {
                assert(self.slots@[j] == old(self).slots@[j]);
                assert(old(self).live(j));
                match old(self).slots@[j].parent {
                    Some(p) => {
                        assert(old(self).live(p as int));
                        if gone@[p as int] {
                            assert(old(self).descends(j, x as int));
                        }
                    },
                    None => {
                        assert(j != x);
                    },
                }
            }
            match self.root {
                Some(rr) => {
                    assert(old(self).slots@[rr as int].parent is None);
                    assert(!old(self).descends(rr as int, x as int));
                },
                None => {},
            }
        }
        removed
    }

    /// Whether two trees have the same shape: generation, root, and which
    /// slots hold nodes under which parents.
    pub open spec fn same_shape(&self, other: &Self) -> bool {
        &&& self.slot_count() == other.slot_count()
        &&& self.generation() == other.generation()
        &&& self.root_index() == other.root_index()
        &&& forall|i: int|
            #![trigger self.live(i)]
            0 <= i < self.slot_count() ==> self.live(i) == other.live(i) && self.parent_at(i)
                == other.parent_at(i)
    }

    /// The number of slots.
    pub fn len(&self) -> (r: usize)
        ensures
            r == self.slot_count(),
    {
        self.slots.len()
    }

    /// The node in slot `i`, if it holds one.
    pub fn node_ref(&self, i: usize) -> (r: Option<&N>)
        requires
            i < self.slot_count(),
        ensures
            r is Some <==> self.live(i as int),
            r matches Some(n) ==> *n == self.node_at(i as int),
    {
        self.slots[i].node.as_ref()
    }

    /// The node in slot `i`, for mutation, if it holds one.
    pub fn node_mut(&mut self, i: usize) -> (r: Option<&mut N>)
        requires
            old(self).wf(),
            i < old(self).slot_count(),
        ensures
            final(self).wf(),
            final(self).same_shape(old(self)),
            r is Some <==> old(self).live(i as int),
            r matches Some(n) ==> *n == old(self).node_at(i as int) && final(self).node_at(i as int)
                == *final(n),
            r is None ==> final(self).node_at(i as int) == old(self).node_at(i as int),
            forall|j: int|
                #![trigger final(self).node_at(j)]
                0 <= j < old(self).slot_count() && j != i ==> final(self).node_at(j) == old(
                    self,
                ).node_at(j),
    {
        if self.slots[i].node.is_none() {
            return None;
        }
        let slot = &mut self.slots[i];
        slot.node.as_mut()
    }

    /// The root node, for mutation, if there is one.
    pub fn root_mut(&mut self) -> (r: Option<&mut N>)
        requires
            old(self).wf(),
        ensures
            final(self).wf(),
            final(self).same_shape(old(self)),
            r is Some <==> old(self).root_index() is Some,
            r matches Some(n) ==> *n == old(self).node_at(old(self).root_index()->0 as int)
                && final(self).node_at(old(self).root_index()->0 as int) == *final(n),
            forall|j: int|
                #![trigger final(self).node_at(j)]
                0 <= j < old(self).slot_count() && (old(self).root_index() is None || j != old(self).root_index()->0)
                    ==> final(self).node_at(j) == old(self).node_at(j),
    {
        match self.root {
            Some(i) => self.node_mut(i as usize),
            None => None,
        }
    }

    /// An expired identifier names no node: once its node is removed, or the
    /// root replaced, it never resolves again.
    pub proof fn law_expired_never_contained(&self, id: NodeId)
        requires
            self.expired(id),
        ensures
            !self.contains(id),
    {
    }
}

} // verus!
