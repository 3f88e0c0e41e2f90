//! The editing world: at most one map document, the scene arena its
//! nodes live in, and the two structural mutations — creating the map
//! and appending a layer.

use vstd::prelude::*;
use crate::geometry::MILLI_ONE;
use crate::map::{
    LayerCreateInfo, LayerCreateModel, LayerModel, MapCreateInfo, MapCreateModel,
    MapLayerKindMeta, MapLayerMeta, MapMeta, MapModel, UVec2,
};
use crate::scene::{NodeContent, SceneGraph, SceneNode, Vec3Milli};

verus! {

/// Pixel/unit size of one tile of a newly created map.
pub const DEFAULT_TILE_SIZE: u32 = 10;

/// The mathematical value of an [`EditorWorld`].
#[verifier::ext_equal]
pub ghost struct WorldModel {
    pub scene: Seq<SceneNode>,
    pub map: Option<MapModel>,
    pub map_root: Option<usize>,
}

impl WorldModel {
    /// Well-formedness of the editing world: the map and its root node
    /// exist together, the root carries map-root content, and every
    /// layer owns a distinct live scene node.
    pub open spec fn wf(self) -> bool {
        &&& self.map.is_some() == self.map_root.is_some()
        &&& (self.map_root.is_some() ==> {
            &&& self.map_root.unwrap() < self.scene.len()
            &&& self.scene[self.map_root.unwrap() as int].content == NodeContent::MapRoot
        })
        &&& (self.map.is_some() ==> {
            let layers = self.map.unwrap().layers;
            &&& (forall|i: int|
                0 <= i < layers.len() ==> (#[trigger] layers[i].entity).is_some()
                    && layers[i].entity.unwrap() < self.scene.len())
            &&& (forall|i: int, j: int|
                0 <= i < layers.len() && 0 <= j < layers.len() && i != j
                    ==> (#[trigger] layers[i].entity) != (#[trigger] layers[j].entity))
        })
    }
}

/// The world a map is created into: the translation that centres the
/// map's origin on the world origin, in milli-units.
pub open spec fn spec_center_translation(grid_size: UVec2, tile_size: UVec2) -> Vec3Milli {
    Vec3Milli {
        x: (-(grid_size.x as int * (tile_size.x as int * (MILLI_ONE as int / 2)))) as i64,
        y: (-(grid_size.y as int * (tile_size.y as int * (MILLI_ONE as int / 2)))) as i64,
        z: 0,
    }
}

/// The world after a map is created from a valid form: a root node
/// centred at the world origin, a grid-preview child whose visibility
/// follows the session's grid toggle, and an empty document.
pub open spec fn spec_create_map(w: WorldModel, show_grid: bool, info: MapCreateModel) -> WorldModel {
    let grid_size = UVec2 { x: info.map_width, y: info.map_height };
    let tile_size = UVec2 { x: DEFAULT_TILE_SIZE, y: DEFAULT_TILE_SIZE };
    let root = w.scene.len() as usize;
    let root_node = SceneNode {
        parent: None,
        visible: true,
        translation: spec_center_translation(grid_size, tile_size),
        content: NodeContent::MapRoot,
    };
    let grid_node = SceneNode {
        parent: Some(root),
        visible: show_grid,
        translation: Vec3Milli::spec_zero(),
        content: NodeContent::GridPreview,
    };
    WorldModel {
        scene: w.scene.push(root_node).push(grid_node),
        map: Some(
            MapModel {
                name: info.name,
                grid_size,
                tile_size,
                background_layers: Seq::empty(),
                layers: Seq::empty(),
            },
        ),
        map_root: Some(root),
    }
}

/// The scene node spawned for a new layer: tile layers get tile
/// storage sized to the map's grid, become children of the map root
/// and sit at a z-depth equal to their layer index; other kinds start
/// as bare nodes their content systems populate later.
pub open spec fn spec_layer_node(w: WorldModel, info: LayerCreateModel) -> SceneNode {
    let m = w.map.unwrap();
    if info.kind is Tiles {
        SceneNode {
            parent: Some(w.map_root.unwrap()),
            visible: true,
            translation: Vec3Milli {
                x: 0,
                y: 0,
                z: (m.layers.len() * MILLI_ONE as int) as i64,
            },
            content: NodeContent::TileGrid { size: m.grid_size },
        }
    } else {
        SceneNode::spec_fresh()
    }
}

/// The world after a layer is appended: the document gains one layer
/// at the top of the stack, bound to a freshly spawned node.
pub open spec fn spec_create_layer(w: WorldModel, info: LayerCreateModel) -> WorldModel {
    let m = w.map.unwrap();
    let entity = w.scene.len() as usize;
    let layer = LayerModel { name: info.name, kind: info.kind, entity: Some(entity) };
    WorldModel {
        scene: w.scene.push(spec_layer_node(w, info)),
        map: Some(MapModel { layers: m.layers.push(layer), ..m }),
        map_root: w.map_root,
    }
}

/// The world after one layer is created per form, first form first.
pub open spec fn spec_create_layers(w: WorldModel, forms: Seq<LayerCreateModel>) -> WorldModel
    decreases forms.len(),
{
    if forms.len() == 0 {
        w
    } else {
        spec_create_layers(spec_create_layer(w, forms.first()), forms.drop_first())
    }
}

/// Law: layer creation only ever stacks. Creating one layer per form
/// leaves every existing layer and scene node where it was and appends
/// the forms' layers in order, so after `n` distinct forms on a fresh
/// map the stack holds exactly `n` layers and the `k`-th form's layer
/// sits at depth `k` — its index, which is its z-depth — with that
/// form's name and kind and a freshly spawned node of its own. A tile
/// layer's node hangs off the map root at its depth, with tile storage
/// sized to the map's grid; other kinds' nodes start bare.
pub proof fn lemma_layer_stacking(w: WorldModel, forms: Seq<LayerCreateModel>)
    requires
        w.map.is_some(),
    ensures
        ({
            let r = spec_create_layers(w, forms);
            let base = w.map.unwrap().layers.len();
            let spawn_base = w.scene.len();
            &&& r.map.is_some()
            &&& r.map_root == w.map_root
            &&& r.map.unwrap().grid_size == w.map.unwrap().grid_size
            &&& r.map.unwrap().layers.len() == base + forms.len()
            &&& r.scene.len() == spawn_base + forms.len()
            &&& (forall|j: int|
                0 <= j < base ==> #[trigger] r.map.unwrap().layers[j] == w.map.unwrap().layers[j])
            &&& (forall|j: int| 0 <= j < spawn_base ==> #[trigger] r.scene[j] == w.scene[j])
            &&& (forall|j: int|
                base <= j < base + forms.len() ==> {
                    let l = #[trigger] r.map.unwrap().layers[j];
                    &&& l.name == forms[j - base].name
                    &&& l.kind == forms[j - base].kind
                    &&& l.entity == Some((spawn_base + (j - base)) as usize)
                })
            &&& (forall|j: int|
                spawn_base <= j < spawn_base + forms.len() ==> #[trigger] r.scene[j] == (
                if forms[j - spawn_base].kind is Tiles {
                    SceneNode {
                        parent: Some(w.map_root.unwrap()),
                        visible: true,
                        translation: Vec3Milli {
                            x: 0,
                            y: 0,
                            z: ((base + (j - spawn_base)) * MILLI_ONE as int) as i64,
                        },
                        content: NodeContent::TileGrid { size: w.map.unwrap().grid_size },
                    }
                } else {
                    SceneNode::spec_fresh()
                }))
        }),
    decreases forms.len(),
{
    if forms.len() > 0 {
        let w1 = spec_create_layer(w, forms.first());
        lemma_layer_stacking(w1, forms.drop_first());
    }
}

/// The editing world of one session.
pub struct EditorWorld {
    pub scene: SceneGraph,
    pub map: Option<MapMeta>,
    /// Scene handle of the map's root node, present exactly while a
    /// map is.
    pub map_root: Option<usize>,
}

impl View for EditorWorld {
    type V = WorldModel;

    open spec fn view(&self) -> WorldModel {
        WorldModel {
            scene: self.scene@,
            map: match self.map {
                Some(m) => Some(m@),
                None => None,
            },
            map_root: self.map_root,
        }
    }
}

impl EditorWorld {
    /// A world with no map and an empty scene.
    pub fn new() -> (r: EditorWorld)
        ensures
            r@ == (WorldModel { scene: Seq::<SceneNode>::empty(), map: None, map_root: None }),
            r@.wf(),
    {
        EditorWorld { scene: SceneGraph::new(), map: None, map_root: None }
    }

    /// How many layers the map holds; zero while no map exists.
    pub fn layer_count(&self) -> (r: usize)
        ensures
            self@.map.is_some() ==> r == self@.map.unwrap().layers.len(),
            self@.map.is_none() ==> r == 0,
    {
        match &self.map {
            Some(m) => m.layers.len(),
            None => 0,
        }
    }

    pub fn has_map(&self) -> (r: bool)
        ensures
            r == self@.map.is_some(),
    {
        self.map.is_some()
    }

    /// Creates the map document a valid form describes, together with
    /// its root and grid-preview nodes. The caller guards against an
    /// existing map; the command queue re-checks.
    pub fn create_map(&mut self, show_grid: bool, info: &MapCreateInfo)
        requires
            old(self)@.wf(),
            old(self)@.map.is_none(),
            info@.valid(),
            old(self)@.scene.len() + 2 <= usize::MAX,
        ensures
            final(self)@ == spec_create_map(old(self)@, show_grid, info@),
            final(self)@.wf(),
    {
        let grid_size = UVec2 { x: info.map_width, y: info.map_height };
        let tile_size = UVec2 { x: DEFAULT_TILE_SIZE, y: DEFAULT_TILE_SIZE };

        let root = self.scene.spawn_node();
        self.scene.set_content(root, NodeContent::MapRoot);
        let tile_half_milli: i64 = 5000;
        proof {
            assert(tile_half_milli == DEFAULT_TILE_SIZE as int * (MILLI_ONE as int / 2));
        }
        let half_x: i64 = grid_size.x as i64 * tile_half_milli;
        let half_y: i64 = grid_size.y as i64 * tile_half_milli;
        self.scene.set_local_transform(root, Vec3Milli { x: -half_x, y: -half_y, z: 0 });

        let grid = self.scene.spawn_node();
        self.scene.set_content(grid, NodeContent::GridPreview);
        self.scene.attach_child(root, grid);
        self.scene.set_visibility(grid, show_grid);

        self.map = Some(
            MapMeta {
                name: info.name.clone(),
                grid_size,
                tile_size,
                background_layers: Vec::new(),
                layers: Vec::new(),
            },
        );
        self.map_root = Some(root);

        proof {
            assert(self@.scene =~= spec_create_map(old(self)@, show_grid, info@).scene);
            assert(self@.map.unwrap() =~~= spec_create_map(old(self)@, show_grid, info@).map.unwrap());
            assert(self@ =~~= spec_create_map(old(self)@, show_grid, info@));
        }
    }

    /// Appends the layer a form describes to the top of the stack and
    /// spawns its scene node. Any form may be submitted: layer names
    /// are not validated, only the existence of a map is needed.
    pub fn create_layer(&mut self, info: &LayerCreateInfo)
        requires
            old(self)@.wf(),
            old(self)@.map.is_some(),
            old(self)@.map.unwrap().layers.len() < usize::MAX,
            old(self)@.scene.len() < usize::MAX,
            old(self)@.map.unwrap().layers.len() * MILLI_ONE <= i64::MAX,
        ensures
            final(self)@ == spec_create_layer(old(self)@, info@),
            final(self)@.wf(),
    {
        let entity = self.scene.spawn_node();
        let taken = self.map.take();
        match taken {
            Some(mut m) => {
                let layer_idx = m.layers.len();
                match &info.kind {
                    MapLayerKindMeta::Tiles(_) => {
                        self.scene.set_content(entity, NodeContent::TileGrid { size: m.grid_size });
                        let root = match self.map_root {
                            Some(r) => r,
                            None => 0,
                        };
                        self.scene.attach_child(root, entity);
                        self.scene.set_local_transform(
                            entity,
                            Vec3Milli { x: 0, y: 0, z: layer_idx as i64 * MILLI_ONE },
                        );
                    },
                    MapLayerKindMeta::Decorations(_) => {},
                    MapLayerKindMeta::Entities(_) => {},
                }
                m.layers.push(
                    MapLayerMeta {
                        name: info.name.clone(),
                        kind: info.kind.clone(),
                        entity: Some(entity),
                    },
                );
                self.map = Some(m);
            },
            None => {},
        }
        proof {
            assert(self@.scene =~= spec_create_layer(old(self)@, info@).scene);
            assert(self@.map.unwrap().layers =~~= spec_create_layer(old(self)@, info@).map.unwrap().layers);
            assert(self@ =~~= spec_create_layer(old(self)@, info@));
        }
    }
}

} // verus!
