//! A minimal scene-node arena.
//!
//! The host engine owns a polymorphic scene graph; the editor core only
//! needs to spawn nodes, relate them to a parent, and set their
//! visibility, local transform and typed content. Nodes live in one
//! growing arena and are addressed by their index, so a handle stays
//! valid for the whole session and the parent edge is a lookup-only
//! relation.

use vstd::prelude::*;
use crate::map::UVec2;

verus! {

/// A translation in milli-units (thousandths of a world unit).
#[derive(Debug, Clone, Copy, PartialEq, Eq, Structural)]
pub struct Vec3Milli {
    pub x: i64,
    pub y: i64,
    pub z: i64,
}

impl Vec3Milli {
    /// The origin.
    pub open spec fn spec_zero() -> Vec3Milli {
        Vec3Milli { x: 0, y: 0, z: 0 }
    }

    pub fn zero() -> (r: Vec3Milli)
        ensures
            r == Vec3Milli::spec_zero(),
    {
        Vec3Milli { x: 0, y: 0, z: 0 }
    }
}

/// Typed content attached to a scene node.
#[derive(Debug, Clone, Copy, PartialEq, Eq, Structural)]
pub enum NodeContent {
    /// A bare node with no content yet.
    Empty,
    /// The root node of the map document.
    MapRoot,
    /// The grid-preview overlay drawn over the map.
    GridPreview,
    /// Tile storage for a tile layer, sized in tiles.
    TileGrid { size: UVec2 },
}

/// One node of the arena.
#[derive(Debug, Clone, Copy, PartialEq, Eq, Structural)]
pub struct SceneNode {
    pub parent: Option<usize>,
    pub visible: bool,
    pub translation: Vec3Milli,
    pub content: NodeContent,
}

impl SceneNode {
    /// The state of a freshly spawned node.
    pub open spec fn spec_fresh() -> SceneNode {
        SceneNode {
            parent: None,
            visible: true,
            translation: Vec3Milli::spec_zero(),
            content: NodeContent::Empty,
        }
    }
}

/// The arena itself; its mathematical value is the sequence of its
/// nodes, in spawn order.
pub struct SceneGraph {
    pub nodes: Vec<SceneNode>,
}

impl View for SceneGraph {
    type V = Seq<SceneNode>;

    open spec fn view(&self) -> Seq<SceneNode> {
        self.nodes@
    }
}

impl SceneGraph {
    /// An arena with no nodes.
    pub fn new() -> (r: SceneGraph)
        ensures
            r@ == Seq::<SceneNode>::empty(),
    {
        SceneGraph { nodes: Vec::new() }
    }

    pub fn len(&self) -> (r: usize)
        ensures
            r == self@.len(),
    {
        self.nodes.len()
    }

    /// Spawns a fresh node and hands back its handle: the index the
    /// node keeps for the rest of the session.
    pub fn spawn_node(&mut self) -> (h: usize)
        requires
            old(self)@.len() < usize::MAX,
        ensures
            h == old(self)@.len(),
            final(self)@ == old(self)@.push(SceneNode::spec_fresh()),
    {
        let h = self.nodes.len();
        self.nodes.push(
            SceneNode {
                parent: None,
                visible: true,
                translation: Vec3Milli::zero(),
                content: NodeContent::Empty,
            },
        );
        h
    }

    /// Records `parent` as the parent of `child`; nothing else moves.
    pub fn attach_child(&mut self, parent: usize, child: usize)
        requires
            parent < old(self)@.len(),
            child < old(self)@.len(),
        ensures
            final(self)@ == old(self)@.update(
                child as int,
                (SceneNode { parent: Some(parent), ..old(self)@[child as int] }),
            ),
    {
        let mut node = self.nodes[child];
        node.parent = Some(parent);
        self.nodes[child] = node;
    }

    pub fn set_visibility(&mut self, handle: usize, visible: bool)
        requires
            handle < old(self)@.len(),
        ensures
            final(self)@ == old(self)@.update(
                handle as int,
                (SceneNode { visible, ..old(self)@[handle as int] }),
            ),
    {
        let mut node = self.nodes[handle];
        node.visible = visible;
        self.nodes[handle] = node;
    }

    pub fn set_local_transform(&mut self, handle: usize, translation: Vec3Milli)
        requires
            handle < old(self)@.len(),
        ensures
            final(self)@ == old(self)@.update(
                handle as int,
                (SceneNode { translation, ..old(self)@[handle as int] }),
            ),
    {
        let mut node = self.nodes[handle];
        node.translation = translation;
        self.nodes[handle] = node;
    }

    /// Attaches typed content to a node, replacing what was there.
    pub fn set_content(&mut self, handle: usize, content: NodeContent)
        requires
            handle < old(self)@.len(),
        ensures
            final(self)@ == old(self)@.update(
                handle as int,
                (SceneNode { content, ..old(self)@[handle as int] }),
            ),
    {
        let mut node = self.nodes[handle];
        node.content = content;
        self.nodes[handle] = node;
    }

    /// What every node with grid-preview content looks like after its
    /// visibility is driven to `visible`.
    pub open spec fn spec_grid_visibility(nodes: Seq<SceneNode>, visible: bool) -> Seq<SceneNode> {
        nodes.map_values(
            |n: SceneNode|
                if n.content == NodeContent::GridPreview {
                    SceneNode { visible, ..n }
                } else {
                    n
                },
        )
    }

    /// Drives the visibility of every grid-preview node; every other
    /// node is untouched.
    pub fn set_grid_preview_visibility(&mut self, visible: bool)
        ensures
            final(self)@ == SceneGraph::spec_grid_visibility(old(self)@, visible),
    {
        let ghost target = SceneGraph::spec_grid_visibility(old(self)@, visible);
        let n = self.nodes.len();
        let mut i: usize = 0;
        while i < n
            invariant
                n == old(self)@.len(),
                self@.len() == n,
                i <= n,
                target == SceneGraph::spec_grid_visibility(old(self)@, visible),
                forall|j: int| 0 <= j < i ==> self@[j] == target[j],
                forall|j: int| i <= j < n ==> self@[j] == old(self)@[j],
            decreases n - i,
        {
            let mut node = self.nodes[i];
            if matches!(node.content, NodeContent::GridPreview) {
                node.visible = visible;
                self.nodes[i] = node;
            }
            i += 1;
        }
        proof {
            assert(self@ =~= target);
        }
    }
}

} // verus!
