//! The map document: fixed grid and tile dimensions plus an ordered
//! stack of typed layers, together with the scratch forms the creation
//! dialogs edit.
//!
//! Layer order is the paint order: the index of a layer in
//! [`MapMeta::layers`] is its stable identity and its z-depth.

use vstd::prelude::*;

verus! {

/// A pair of unsigned tile or pixel dimensions.
#[derive(Debug, Clone, Copy, PartialEq, Eq, Structural)]
pub struct UVec2 {
    pub x: u32,
    pub y: u32,
}

/// Configuration owned by the tile content system; opaque here.
#[derive(Debug, Clone, Copy, PartialEq, Eq, Structural)]
pub struct TileLayerMeta {}

/// Configuration owned by the decoration content system; opaque here.
#[derive(Debug, Clone, Copy, PartialEq, Eq, Structural)]
pub struct DecorationLayerMeta {}

/// Configuration owned by the entity content system; opaque here.
#[derive(Debug, Clone, Copy, PartialEq, Eq, Structural)]
pub struct EntityLayerMeta {}

/// The kind of content a layer holds.
#[derive(Debug, Clone, Copy, PartialEq, Eq, Structural)]
pub enum MapLayerKindMeta {
    Tiles(TileLayerMeta),
    Decorations(DecorationLayerMeta),
    Entities(EntityLayerMeta),
}

/// A background image carried through export; its composition is not
/// edited here.
#[derive(Clone)]
pub struct BackgroundLayerMeta {
    pub image: String,
}

impl View for BackgroundLayerMeta {
    type V = Seq<char>;

    open spec fn view(&self) -> Seq<char> {
        self.image@
    }
}

/// One paintable slice of the map. `entity` is a lookup-only relation
/// to the scene node spawned for the layer, never an ownership edge.
#[derive(Clone)]
pub struct MapLayerMeta {
    pub name: String,
    pub kind: MapLayerKindMeta,
    pub entity: Option<usize>,
}

/// The mathematical value of a [`MapLayerMeta`].
#[verifier::ext_equal]
pub ghost struct LayerModel {
    pub name: Seq<char>,
    pub kind: MapLayerKindMeta,
    pub entity: Option<usize>,
}

impl View for MapLayerMeta {
    type V = LayerModel;

    open spec fn view(&self) -> LayerModel {
        LayerModel { name: self.name@, kind: self.kind, entity: self.entity }
    }
}

/// The root editable document of one session.
#[derive(Clone)]
pub struct MapMeta {
    pub name: String,
    pub grid_size: UVec2,
    pub tile_size: UVec2,
    pub background_layers: Vec<BackgroundLayerMeta>,
    pub layers: Vec<MapLayerMeta>,
}

/// The mathematical value of a [`MapMeta`].
#[verifier::ext_equal]
pub ghost struct MapModel {
    pub name: Seq<char>,
    pub grid_size: UVec2,
    pub tile_size: UVec2,
    pub background_layers: Seq<Seq<char>>,
    pub layers: Seq<LayerModel>,
}

impl View for MapMeta {
    type V = MapModel;

    open spec fn view(&self) -> MapModel {
        MapModel {
            name: self.name@,
            grid_size: self.grid_size,
            tile_size: self.tile_size,
            background_layers: self.background_layers@.map_values(|b: BackgroundLayerMeta| b@),
            layers: self.layers@.map_values(|l: MapLayerMeta| l@),
        }
    }
}

/// Scratch form edited by the map-create dialog.
#[derive(Clone)]
pub struct MapCreateInfo {
    pub name: String,
    pub map_width: u32,
    pub map_height: u32,
}

/// The mathematical value of a [`MapCreateInfo`].
#[verifier::ext_equal]
pub ghost struct MapCreateModel {
    pub name: Seq<char>,
    pub map_width: u32,
    pub map_height: u32,
}

impl View for MapCreateInfo {
    type V = MapCreateModel;

    open spec fn view(&self) -> MapCreateModel {
        MapCreateModel {
            name: self.name@,
            map_width: self.map_width,
            map_height: self.map_height,
        }
    }
}

impl MapCreateInfo {
    /// The form's default: an empty name with the editor's stock grid
    /// dimensions.
    pub open spec fn spec_default() -> MapCreateModel {
        MapCreateModel { name: Seq::<char>::empty(), map_width: 27u32, map_height: 21u32 }
    }
}

impl Default for MapCreateInfo {
    /// An empty name with the editor's stock grid dimensions.
    fn default() -> (r: Self)
        ensures
            r@ == MapCreateInfo::spec_default(),
    {
        MapCreateInfo { name: String::new(), map_width: 27, map_height: 21 }
    }
}

impl MapCreateModel {
    /// A form may be submitted only with a non-empty name and both
    /// grid dimensions above ten tiles.
    pub open spec fn valid(self) -> bool {
        self.name.len() > 0 && self.map_width > 10 && self.map_height > 10
    }
}

impl MapCreateInfo {
    pub fn is_valid(&self) -> (r: bool)
        ensures
            r == self@.valid(),
    {
        !self.name.as_str().is_empty() && self.map_width > 10 && self.map_height > 10
    }
}

/// Scratch form edited by the layer-create dialog. Unlike map creation
/// it has no name validation: any form may be submitted while a map
/// exists.
#[derive(Clone)]
pub struct LayerCreateInfo {
    pub name: String,
    pub kind: MapLayerKindMeta,
}

/// The mathematical value of a [`LayerCreateInfo`].
#[verifier::ext_equal]
pub ghost struct LayerCreateModel {
    pub name: Seq<char>,
    pub kind: MapLayerKindMeta,
}

impl View for LayerCreateInfo {
    type V = LayerCreateModel;

    open spec fn view(&self) -> LayerCreateModel {
        LayerCreateModel { name: self.name@, kind: self.kind }
    }
}

impl LayerCreateInfo {
    /// The form's default: an empty name and a tile layer, the
    /// commonest kind.
    pub open spec fn spec_default() -> LayerCreateModel {
        LayerCreateModel {
            name: Seq::<char>::empty(),
            kind: MapLayerKindMeta::Tiles(TileLayerMeta {}),
        }
    }
}

impl Default for LayerCreateInfo {
    /// An empty name and a tile layer, the commonest kind.
    fn default() -> (r: Self)
        ensures
            r@ == LayerCreateInfo::spec_default(),
    {
        LayerCreateInfo { name: String::new(), kind: MapLayerKindMeta::Tiles(TileLayerMeta {}) }
    }
}

} // verus!
