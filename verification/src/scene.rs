//! A scene: the nodes drawn in a window, as a tree.
//!
//! The scene keeps its nodes in a generational tree (see `tree`): a new
//! scene is empty, a child can be added under any live node, and a node's identifier
//! stops finding it once the node is removed.

use crate::tree::{NodeId, NodeTree};
use crate::visuals::{Canvas, Image, Panel, Text};
use vstd::prelude::*;

verus! {

/// A node of a scene.
pub enum SceneNode {
    Canvas(Canvas),
    Image(Image),
    Text(Text),
    Panel(Panel),
}

/// A kind of node that can be taken out of a [`SceneNode`].
pub trait FromSceneNode: Sized {
    /// Whether `node` is of this kind.
    spec fn is_kind(node: SceneNode) -> bool;

    /// The node of this kind that holds `value`.
    spec fn wrap(value: Self) -> SceneNode;

    /// The node's content, when the node is of this kind.
    fn from_ref(node: &SceneNode) -> (r: Option<&Self>)
        ensures
            r is Some <==> Self::is_kind(*node),
            r matches Some(x) ==> *node == Self::wrap(*x),
    ;

    /// The node's content, for mutation, when the node is of this kind.
    fn from_mut(node: &mut SceneNode) -> (r: Option<&mut Self>)
        ensures
            r is Some <==> Self::is_kind(*old(node)),
            r matches Some(x) ==> *old(node) == Self::wrap(*x) && *final(node) == Self::wrap(
                *final(x),
            ),
            r is None ==> *final(node) == *old(node),
    ;
}

impl FromSceneNode for Canvas {
    open spec fn is_kind(node: SceneNode) -> bool {
        node is Canvas
    }

    open spec fn wrap(value: Self) -> SceneNode {
        SceneNode::Canvas(value)
    }

    fn from_ref(node: &SceneNode) -> (r: Option<&Self>) {
        match node {
            SceneNode::Canvas(x) => Some(x),
            _ => None,
        }
    }

    fn from_mut(node: &mut SceneNode) -> (r: Option<&mut Self>) {
        match node {
            SceneNode::Canvas(x) => Some(x),
            _ => None,
        }
    }
}

impl FromSceneNode for Image {
    open spec fn is_kind(node: SceneNode) -> bool {
        node is Image
    }

    open spec fn wrap(value: Self) -> SceneNode {
        SceneNode::Image(value)
    }

    fn from_ref(node: &SceneNode) -> (r: Option<&Self>) {
        match node {
            SceneNode::Image(x) => Some(x),
            _ => None,
        }
    }

    fn from_mut(node: &mut SceneNode) -> (r: Option<&mut Self>) {
        match node {
            SceneNode::Image(x) => Some(x),
            _ => None,
        }
    }
}

impl FromSceneNode for Text {
    open spec fn is_kind(node: SceneNode) -> bool {
        node is Text
    }

    open spec fn wrap(value: Self) -> SceneNode {
        SceneNode::Text(value)
    }

    fn from_ref(node: &SceneNode) -> (r: Option<&Self>) {
        match node {
            SceneNode::Text(x) => Some(x),
            _ => None,
        }
    }

    fn from_mut(node: &mut SceneNode) -> (r: Option<&mut Self>) {
        match node {
            SceneNode::Text(x) => Some(x),
            _ => None,
        }
    }
}

impl FromSceneNode for Panel {
    open spec fn is_kind(node: SceneNode) -> bool {
        node is Panel
    }

    open spec fn wrap(value: Self) -> SceneNode {
        SceneNode::Panel(value)
    }

    fn from_ref(node: &SceneNode) -> (r: Option<&Self>) {
        match node {
            SceneNode::Panel(x) => Some(x),
            _ => None,
        }
    }

    fn from_mut(node: &mut SceneNode) -> (r: Option<&mut Self>) {
        match node {
            SceneNode::Panel(x) => Some(x),
            _ => None,
        }
    }
}

/// The identifier of a node in a [`Scene`].
#[derive(Clone, Copy, Debug, PartialEq, Eq, Structural)]
pub struct SceneNodeId {
    index: u32,
    generation: u32,
}

impl SceneNodeId {
    /// The tree identifier that this one stands for.
    pub closed spec fn node_id(&self) -> NodeId {
        NodeId { index: self.index, generation: self.generation }
    }

    fn from_node_id(id: NodeId) -> (r: Self)
        ensures
            r.node_id() == id,
    {
        SceneNodeId { index: id.index, generation: id.generation }
    }

    fn to_node_id(&self) -> (r: NodeId)
        ensures
            r == self.node_id(),
    {
        NodeId { index: self.index, generation: self.generation }
    }
}

/// Visits the nodes of a scene.
pub trait SceneVisitor {
    fn visit_canvas(&mut self, canvas: &Canvas);

    fn visit_image(&mut self, image: &Image);

    fn visit_text(&mut self, text: &Text);

    fn visit_panel(&mut self, panel: &Panel);
}

/// Visits the nodes of a scene, for mutation.
pub trait SceneVisitorMut {
    fn visit_canvas_mut(&mut self, canvas: &mut Canvas);

    fn visit_image_mut(&mut self, image: &mut Image);

    fn visit_text_mut(&mut self, text: &mut Text);

    fn visit_panel_mut(&mut self, panel: &mut Panel);
}

/// A scene: a tree of drawable nodes.
pub struct Scene {
    tree: NodeTree<SceneNode>,
}

impl View for Scene {
    type V = NodeTree<SceneNode>;

    closed spec fn view(&self) -> NodeTree<SceneNode> {
        self.tree
    }
}

impl Scene {
    /// The tree's invariant.
    pub closed spec fn wf(&self) -> bool {
        self.tree.wf()
    }

    /// An empty tree.
    pub fn new() -> (r: Self)
        ensures
            r.wf(),
            r@.slot_count() == 0,
            r@.root_index() is None,
    {
        Scene { tree: NodeTree::new() }
    }

    /// The root node, when there is one and it is of kind `T`.
    pub fn root<T: FromSceneNode>(&self) -> (r: Option<&T>)
        requires
            self.wf(),
        ensures
            r is Some <==> self@.root_index() is Some && T::is_kind(
                self@.node_at(self@.root_index()->0 as int),
            ),
            r matches Some(x) ==> self@.node_at(self@.root_index()->0 as int) == T::wrap(*x),
    {
        match self.tree.root() {
            Some(node) => T::from_ref(node),
            None => None,
        }
    }

    /// The root node, for mutation, when there is one and it is of kind
    /// `T`.
    pub fn root_mut<T: FromSceneNode>(&mut self) -> (r: Option<&mut T>)
        requires
            old(self).wf(),
        ensures
            final(self).wf(),
            final(self)@.same_shape(&old(self)@),
            r is Some <==> old(self)@.root_index() is Some && T::is_kind(
                old(self)@.node_at(old(self)@.root_index()->0 as int),
            ),
            r matches Some(x) ==> {
                let i = old(self)@.root_index()->0 as int;
                &&& old(self)@.node_at(i) == T::wrap(*x)
                &&& final(self)@.node_at(i) == T::wrap(*final(x))
            },
            forall|j: int|
                #![trigger final(self)@.node_at(j)]
                0 <= j < old(self)@.slot_count() && (old(self)@.root_index() is None || j != old(self)@.root_index()->0)
                    ==> final(self)@.node_at(j) == old(self)@.node_at(j),
            r is None ==> forall|j: int|
                #![trigger final(self)@.node_at(j)]
                0 <= j < old(self)@.slot_count() ==> final(self)@.node_at(j) == old(self)@.node_at(j),
    {
        match self.tree.root_mut() {
            Some(node) => T::from_mut(node),
            None => None,
        }
    }

    /// The identifier of the root node, if there is one.
    pub fn root_id(&self) -> (r: Option<SceneNodeId>)
        ensures
            r is Some <==> self@.root_index() is Some,
            r matches Some(id) ==> id.node_id() == (NodeId {
                index: self@.root_index()->0,
                generation: self@.generation(),
            }),
    {
        match self.tree.root_id() {
            Some(id) => Some(SceneNodeId::from_node_id(id)),
            None => None,
        }
    }

    /// Replaces the whole tree by a single root node, and returns the
    /// previous root node.
    pub fn set_root(&mut self, node: SceneNode) -> (r: (SceneNodeId, Option<SceneNode>))
        requires
            old(self).wf(),
            old(self)@.generation() < u32::MAX || old(self)@.slot_count() < u32::MAX,
        ensures
            final(self).wf(),
            r.1 == (match old(self)@.root_index() {
                Some(i) => Some(old(self)@.node_at(i as int)),
                None => None,
            }),
            final(self)@.root_index() == Some(r.0.node_id().index),
            final(self)@.contains(r.0.node_id()),
            final(self)@.node_at(r.0.node_id().index as int) == node,
            forall|i: int| i != r.0.node_id().index ==> !#[trigger] final(self)@.live(i),
            forall|g: NodeId|
                old(self)@.contains(g) || old(self)@.expired(g)
                    ==> #[trigger] final(self)@.expired(g),
    {
        let (id, previous) = self.tree.set_root(node);
        (SceneNodeId::from_node_id(id), previous)
    }

    /// The node that `node` names, when it is of kind `T`.
    pub fn get<T: FromSceneNode>(&self, node: SceneNodeId) -> (r: Option<&T>)
        ensures
            r is Some <==> self@.contains(node.node_id()) && T::is_kind(
                self@.node_at(node.node_id().index as int),
            ),
            r matches Some(x) ==> self@.node_at(node.node_id().index as int) == T::wrap(*x),
    {
        match self.tree.get_node(node.to_node_id()) {
            Some(n) => T::from_ref(n),
            None => None,
        }
    }

    /// The node that `node` names, if any.
    pub fn get_node(&self, node: SceneNodeId) -> (r: Option<&SceneNode>)
        ensures
            r is Some <==> self@.contains(node.node_id()),
            r matches Some(n) ==> *n == self@.node_at(node.node_id().index as int),
    {
        self.tree.get_node(node.to_node_id())
    }

    /// The node that `node` names, for mutation, when it is of kind `T`.
    pub fn get_mut<T: FromSceneNode>(&mut self, node: SceneNodeId) -> (r: Option<&mut T>)
        requires
            old(self).wf(),
        ensures
            final(self).wf(),
            final(self)@.same_shape(&old(self)@),
            r is Some <==> old(self)@.contains(node.node_id()) && T::is_kind(
                old(self)@.node_at(node.node_id().index as int),
            ),
            r matches Some(x) ==> {
                let i = node.node_id().index as int;
                &&& old(self)@.node_at(i) == T::wrap(*x)
                &&& final(self)@.node_at(i) == T::wrap(*final(x))
            },
            forall|j: int|
                #![trigger final(self)@.node_at(j)]
                0 <= j < old(self)@.slot_count() && j != node.node_id().index
                    ==> final(self)@.node_at(j) == old(self)@.node_at(j),
            r is None ==> forall|j: int|
                #![trigger final(self)@.node_at(j)]
                0 <= j < old(self)@.slot_count() ==> final(self)@.node_at(j) == old(self)@.node_at(j),
    {
        match self.tree.get_node_mut(node.to_node_id()) {
            Some(n) => T::from_mut(n),
            None => None,
        }
    }

    /// The node that `node` names, for mutation, if any.
    pub fn get_node_mut(&mut self, node: SceneNodeId) -> (r: Option<&mut SceneNode>)
        requires
            old(self).wf(),
        ensures
            final(self).wf(),
            final(self)@.same_shape(&old(self)@),
            r is Some <==> old(self)@.contains(node.node_id()),
            r matches Some(n) ==> *n == old(self)@.node_at(node.node_id().index as int)
                && final(self)@.node_at(node.node_id().index as int) == *final(n),
    {
        self.tree.get_node_mut(node.to_node_id())
    }

    /// Adds `node` as a child of `parent`, and returns its identifier.
    pub fn add_child(&mut self, parent: SceneNodeId, node: SceneNode) -> (r: SceneNodeId)
        requires
            old(self).wf(),
            old(self)@.contains(parent.node_id()),
            old(self)@.slot_count() < u32::MAX,
        ensures
            final(self).wf(),
            final(self)@.contains(r.node_id()),
            final(self)@.node_at(r.node_id().index as int) == node,
            final(self)@.parent_at(r.node_id().index as int) == Some(parent.node_id().index),
            r.node_id().index == old(self)@.slot_count(),
            final(self)@.slot_count() == old(self)@.slot_count() + 1,
            final(self)@.generation() == old(self)@.generation(),
            final(self)@.root_index() == old(self)@.root_index(),
            forall|i: int|
                #![trigger final(self)@.live(i)]
                0 <= i < old(self)@.slot_count() ==> final(self)@.live(i) == old(self)@.live(i)
                    && final(self)@.node_at(i) == old(self)@.node_at(i)
                    && final(self)@.parent_at(i) == old(self)@.parent_at(i),
    {
        SceneNodeId::from_node_id(self.tree.add_child(parent.to_node_id(), node))
    }

    /// Removes the node that `node` names and every node below it, and
    /// returns the node; `None`, changing nothing, when `node` names none.
    pub fn remove_node(&mut self, node: SceneNodeId) -> (r: Option<SceneNode>)
        requires
            old(self).wf(),
        ensures
            final(self).wf(),
            r is Some <==> old(self)@.contains(node.node_id()),
            r matches Some(n) ==> n == old(self)@.node_at(node.node_id().index as int),
            final(self)@.slot_count() == old(self)@.slot_count(),
            final(self)@.generation() == old(self)@.generation(),
            forall|i: int|
                #![trigger final(self)@.live(i)]
                0 <= i < old(self)@.slot_count() ==> final(self)@.live(i) == (old(self)@.live(i)
                    && !(old(self)@.contains(node.node_id()) && old(self)@.descends(
                    i,
                    node.node_id().index as int,
                ))),
            old(self)@.contains(node.node_id()) ==> final(self)@.expired(node.node_id()),
            forall|g: NodeId| old(self)@.expired(g) ==> #[trigger] final(self)@.expired(g),
    {
        self.tree.remove_node(node.to_node_id())
    }

    /// Visits every node of the tree, each after the node it was added
    /// under.
    pub fn walk<V: SceneVisitor>(&self, visitor: &mut V) {
        let n = self.tree.len();
        let mut i: usize = 0;
        while i < n
            invariant
                n == self@.slot_count(),
                i <= n,
            decreases n - i,
        {
            match self.tree.node_ref(i) {
                Some(SceneNode::Canvas(canvas)) => visitor.visit_canvas(canvas),
                Some(SceneNode::Image(image)) => visitor.visit_image(image),
                Some(SceneNode::Text(text)) => visitor.visit_text(text),
                Some(SceneNode::Panel(panel)) => visitor.visit_panel(panel),
                None => {},
            }
            i = i + 1;
        }
    }

    /// Visits every node of the tree, for mutation, each after the node
    /// it was added under. The shape of the tree is unchanged, and so is
    /// every node: none of the node kinds has a field that a visitor could
    /// change.
    pub fn walk_mut<V: SceneVisitorMut>(&mut self, visitor: &mut V)
        requires
            old(self).wf(),
        ensures
            final(self).wf(),
            final(self)@.same_shape(&old(self)@),
            forall|j: int|
                0 <= j < old(self)@.slot_count() ==> #[trigger] final(self)@.node_at(j) == old(
                    self,
                )@.node_at(j),
    {
        let n = self.tree.len();
        let mut i: usize = 0;
        while i < n
            invariant
                self.wf(),
                n == self@.slot_count(),
                self@.same_shape(&old(self)@),
                forall|j: int| 0 <= j < n ==> #[trigger] self@.node_at(j) == old(self)@.node_at(j),
                i <= n,
            decreases n - i,
        {
            match self.tree.node_mut(i) {
                Some(node) => {
                    match node {
                        SceneNode::Canvas(canvas) => visitor.visit_canvas_mut(canvas),
                        SceneNode::Image(image) => visitor.visit_image_mut(image),
                        SceneNode::Text(text) => visitor.visit_text_mut(text),
                        SceneNode::Panel(panel) => visitor.visit_panel_mut(panel),
                    }
                },
                None => {},
            }
            i = i + 1;
        }
    }
}

} // verus!
