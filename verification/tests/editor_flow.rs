//! End-to-end editor flows: dialogs enqueue, the queue flushes in
//! order, the world grows maps and layers, and the export carries
//! every field.

use level_editor::commands::{CommandQueue, EditorCommand};
use level_editor::export::export_map;
use level_editor::map::{
    BackgroundLayerMeta, DecorationLayerMeta, EntityLayerMeta, LayerCreateInfo, MapCreateInfo,
    MapLayerKindMeta, MapLayerMeta, MapMeta, TileLayerMeta, UVec2,
};
use level_editor::scene::NodeContent;
use level_editor::session::EditorState;
use level_editor::ui::{layer_create_dialog_step, map_create_dialog_step, DialogChoice};
use level_editor::world::EditorWorld;

fn tiles() -> MapLayerKindMeta {
    MapLayerKindMeta::Tiles(TileLayerMeta {})
}

fn decorations() -> MapLayerKindMeta {
    MapLayerKindMeta::Decorations(DecorationLayerMeta {})
}

fn entities() -> MapLayerKindMeta {
    MapLayerKindMeta::Entities(EntityLayerMeta {})
}

fn map_form(name: &str, w: u32, h: u32) -> MapCreateInfo {
    MapCreateInfo { name: name.to_string(), map_width: w, map_height: h }
}

fn layer_form(name: &str, kind: MapLayerKindMeta) -> LayerCreateInfo {
    LayerCreateInfo { name: name.to_string(), kind }
}

#[test]
fn map_form_validity() {
    assert!(map_form("a", 11, 11).is_valid());
    assert!(!map_form("", 11, 11).is_valid());
    assert!(!map_form("a", 10, 11).is_valid());
    assert!(!map_form("a", 11, 10).is_valid());
    assert!(map_form("a", u32::MAX, u32::MAX).is_valid());
}

#[test]
fn map_form_default() {
    let form = MapCreateInfo::default();
    assert_eq!(form.name, "");
    assert_eq!(form.map_width, 27);
    assert_eq!(form.map_height, 21);
    assert!(!form.is_valid());
}

#[test]
fn layer_form_default_is_tiles() {
    let form = LayerCreateInfo::default();
    assert_eq!(form.name, "");
    assert!(matches!(form.kind, MapLayerKindMeta::Tiles(_)));
}

#[test]
fn create_map_produces_centered_empty_map() {
    let mut world = EditorWorld::new();
    world.create_map(true, &map_form("Arena", 20, 15));

    let map = world.map.as_ref().unwrap();
    assert_eq!(map.name, "Arena");
    assert_eq!(map.grid_size, UVec2 { x: 20, y: 15 });
    assert_eq!(map.tile_size, UVec2 { x: 10, y: 10 });
    assert!(map.layers.is_empty());
    assert!(map.background_layers.is_empty());

    let root = world.map_root.unwrap();
    let root_node = world.scene.nodes[root];
    // -(20 * 10) / 2 = -100.0 and -(15 * 10) / 2 = -75.0, in milli-units.
    assert_eq!(root_node.translation.x, -100_000);
    assert_eq!(root_node.translation.y, -75_000);
    assert_eq!(root_node.translation.z, 0);
    assert_eq!(root_node.content, NodeContent::MapRoot);

    let grid_node = world.scene.nodes[root + 1];
    assert_eq!(grid_node.parent, Some(root));
    assert_eq!(grid_node.content, NodeContent::GridPreview);
    assert!(grid_node.visible);
}

#[test]
fn grid_preview_visibility_follows_session_toggle() {
    let mut world = EditorWorld::new();
    world.create_map(false, &map_form("Arena", 12, 12));
    let root = world.map_root.unwrap();
    assert!(!world.scene.nodes[root + 1].visible);
}

#[test]
fn create_layer_stacks_in_order() {
    let mut world = EditorWorld::new();
    world.create_map(true, &map_form("Arena", 12, 13));
    world.create_layer(&layer_form("ground", tiles()));
    world.create_layer(&layer_form("props", decorations()));
    world.create_layer(&layer_form("spawns", entities()));

    let map = world.map.as_ref().unwrap();
    assert_eq!(map.layers.len(), 3);
    assert_eq!(map.layers[0].name, "ground");
    assert!(matches!(map.layers[0].kind, MapLayerKindMeta::Tiles(_)));
    assert_eq!(map.layers[1].name, "props");
    assert!(matches!(map.layers[1].kind, MapLayerKindMeta::Decorations(_)));
    assert_eq!(map.layers[2].name, "spawns");
    assert!(matches!(map.layers[2].kind, MapLayerKindMeta::Entities(_)));

    // Every layer owns a distinct scene node.
    let e0 = map.layers[0].entity.unwrap();
    let e1 = map.layers[1].entity.unwrap();
    let e2 = map.layers[2].entity.unwrap();
    assert!(e0 != e1 && e1 != e2 && e0 != e2);

    // The tile layer's node hangs off the map root at z-depth 0 and
    // carries tile storage sized to the grid.
    let tiles_node = world.scene.nodes[e0];
    assert_eq!(tiles_node.parent, Some(world.map_root.unwrap()));
    assert_eq!(tiles_node.translation.z, 0);
    assert_eq!(tiles_node.content, NodeContent::TileGrid { size: UVec2 { x: 12, y: 13 } });

    // Later tile layers would sit at their index; decoration and
    // entity nodes start bare.
    let deco_node = world.scene.nodes[e1];
    assert_eq!(deco_node.parent, None);
    assert_eq!(deco_node.content, NodeContent::Empty);
}

#[test]
fn tile_layer_depth_equals_index() {
    let mut world = EditorWorld::new();
    world.create_map(true, &map_form("Arena", 12, 12));
    world.create_layer(&layer_form("a", tiles()));
    world.create_layer(&layer_form("b", tiles()));
    world.create_layer(&layer_form("c", tiles()));
    let map = world.map.as_ref().unwrap();
    for (idx, layer) in map.layers.iter().enumerate() {
        let node = world.scene.nodes[layer.entity.unwrap()];
        assert_eq!(node.translation.z, idx as i64 * 1000);
    }
}

#[test]
fn confirm_with_invalid_form_enqueues_nothing() {
    let mut show = true;
    let mut form = map_form("", 20, 20);
    let mut queue = CommandQueue::new();
    map_create_dialog_step(&mut show, &mut form, &mut queue, DialogChoice::Confirm);
    assert!(show);
    assert_eq!(form.name, "");
    assert!(queue.is_empty());

    let mut narrow = map_form("x", 10, 20);
    map_create_dialog_step(&mut show, &mut narrow, &mut queue, DialogChoice::Confirm);
    assert!(show);
    assert!(queue.is_empty());
}

#[test]
fn confirm_with_valid_form_enqueues_and_resets() {
    let mut show = true;
    let mut form = map_form("Test", 20, 15);
    let mut queue = CommandQueue::new();
    map_create_dialog_step(&mut show, &mut form, &mut queue, DialogChoice::Confirm);
    assert!(!show);
    assert_eq!(form.name, "");
    assert_eq!(form.map_width, 27);
    assert_eq!(form.map_height, 21);
    assert!(!queue.is_empty());

    let mut world = EditorWorld::new();
    queue.flush(&mut world, true);
    assert!(queue.is_empty());
    assert_eq!(world.map.as_ref().unwrap().name, "Test");
}

#[test]
fn cancel_resets_without_enqueuing() {
    let mut show = true;
    let mut form = map_form("Kept?", 30, 30);
    let mut queue = CommandQueue::new();
    map_create_dialog_step(&mut show, &mut form, &mut queue, DialogChoice::Cancel);
    assert!(!show);
    assert_eq!(form.name, "");
    assert!(queue.is_empty());
}

#[test]
fn idle_dialog_changes_nothing() {
    let mut show = true;
    let mut form = map_form("Kept", 30, 30);
    let mut queue = CommandQueue::new();
    map_create_dialog_step(&mut show, &mut form, &mut queue, DialogChoice::Idle);
    assert!(show);
    assert_eq!(form.name, "Kept");
    assert!(queue.is_empty());
}

#[test]
fn layer_dialog_needs_a_map() {
    let mut show = true;
    let mut form = layer_form("ground", tiles());
    let mut queue = CommandQueue::new();
    layer_create_dialog_step(&mut show, &mut form, &mut queue, false, DialogChoice::Confirm);
    assert!(show);
    assert!(queue.is_empty());
    assert_eq!(form.name, "ground");

    layer_create_dialog_step(&mut show, &mut form, &mut queue, true, DialogChoice::Confirm);
    assert!(!show);
    assert!(!queue.is_empty());
    assert_eq!(form.name, "");
}

#[test]
fn layer_dialog_accepts_empty_names() {
    // Unlike map creation, layer creation has no name validation.
    let mut show = true;
    let mut form = LayerCreateInfo::default();
    let mut queue = CommandQueue::new();
    layer_create_dialog_step(&mut show, &mut form, &mut queue, true, DialogChoice::Confirm);
    assert!(!queue.is_empty());
}

#[test]
fn flush_applies_in_fifo_order() {
    let mut queue = CommandQueue::new();
    queue.enqueue(EditorCommand::CreateMap(map_form("First", 20, 20)));
    queue.enqueue(EditorCommand::CreateLayer(layer_form("ground", tiles())));
    queue.enqueue(EditorCommand::CreateLayer(layer_form("props", decorations())));

    let mut world = EditorWorld::new();
    queue.flush(&mut world, true);
    let map = world.map.as_ref().unwrap();
    assert_eq!(map.name, "First");
    assert_eq!(map.layers.len(), 2);
    assert_eq!(map.layers[0].name, "ground");
    assert_eq!(map.layers[1].name, "props");
}

#[test]
fn stale_commands_are_dropped_not_applied() {
    // A layer create with no map yet, and a second map create over an
    // existing map, are both dropped by the re-checked guard.
    let mut queue = CommandQueue::new();
    queue.enqueue(EditorCommand::CreateLayer(layer_form("orphan", tiles())));
    queue.enqueue(EditorCommand::CreateMap(map_form("Kept", 20, 20)));
    queue.enqueue(EditorCommand::CreateMap(map_form("Dropped", 30, 30)));

    let mut world = EditorWorld::new();
    queue.flush(&mut world, true);
    let map = world.map.as_ref().unwrap();
    assert_eq!(map.name, "Kept");
    assert_eq!(map.grid_size, UVec2 { x: 20, y: 20 });
    assert!(map.layers.is_empty());
}

#[test]
fn scenario_two_layers_and_export() {
    // Create map {name: "Test", width: 20, height: 15}, add a tile
    // layer "Ground" and a decoration layer "Deco"; the stack and the
    // export both hold them in that order.
    let mut world = EditorWorld::new();
    let mut state = EditorState::default();
    let mut queue = CommandQueue::new();

    let mut show_map_create = true;
    let mut map_create = map_form("Test", 20, 15);
    map_create_dialog_step(&mut show_map_create, &mut map_create, &mut queue, DialogChoice::Confirm);
    queue.flush(&mut world, state.show_grid);

    let mut show_layer_create = true;
    let mut layer_create = layer_form("Ground", tiles());
    layer_create_dialog_step(
        &mut show_layer_create,
        &mut layer_create,
        &mut queue,
        world.has_map(),
        DialogChoice::Confirm,
    );
    show_layer_create = true;
    let mut layer_create = layer_form("Deco", decorations());
    layer_create_dialog_step(
        &mut show_layer_create,
        &mut layer_create,
        &mut queue,
        world.has_map(),
        DialogChoice::Confirm,
    );
    queue.flush(&mut world, state.show_grid);

    let map = world.map.as_ref().unwrap();
    assert_eq!(map.layers.len(), 2);
    assert_eq!(map.layers[0].name, "Ground");
    assert!(matches!(map.layers[0].kind, MapLayerKindMeta::Tiles(_)));
    assert_eq!(map.layers[1].name, "Deco");
    assert!(matches!(map.layers[1].kind, MapLayerKindMeta::Decorations(_)));

    let text = export_map(map);
    let ground = text.find("Ground").expect("Ground missing from export");
    let deco = text.find("Deco").expect("Deco missing from export");
    assert!(ground < deco);

    state.select_layer(1);
    assert_eq!(state.current_layer_idx, 1);
}

#[test]
fn export_whole_document_exactly() {
    let map = MapMeta {
        name: "Test".to_string(),
        grid_size: UVec2 { x: 20, y: 15 },
        tile_size: UVec2 { x: 10, y: 10 },
        background_layers: vec![],
        layers: vec![],
    };
    assert_eq!(
        export_map(&map),
        "name: Test\ngrid_size:\n  x: 20\n  y: 15\ntile_size:\n  x: 10\n  y: 10\n\
         background_layers: []\nlayers: []\n"
    );
}

#[test]
fn export_lists_every_field_in_order() {
    let mut world = EditorWorld::new();
    world.create_map(true, &map_form("Full", 11, 12));
    world.create_layer(&layer_form("ground", tiles()));
    let mut map = world.map.clone().unwrap();
    map.background_layers.push(BackgroundLayerMeta { image: "sky.png".to_string() });
    map.background_layers.push(BackgroundLayerMeta { image: "hills.png".to_string() });

    let text = export_map(&map);
    let expected = "name: Full\n\
        grid_size:\n  x: 11\n  y: 12\n\
        tile_size:\n  x: 10\n  y: 10\n\
        background_layers:\n\
        - image: sky.png\n\
        - image: hills.png\n\
        layers:\n\
        - name: ground\n  kind: tiles\n  entity: 2\n";
    assert_eq!(text, expected);
}

#[test]
fn export_writes_unbound_entity_as_tilde() {
    let map = MapMeta {
        name: "Loose".to_string(),
        grid_size: UVec2 { x: 11, y: 11 },
        tile_size: UVec2 { x: 10, y: 10 },
        background_layers: vec![],
        layers: vec![MapLayerMeta {
            name: "floating".to_string(),
            kind: MapLayerKindMeta::Entities(EntityLayerMeta {}),
            entity: None,
        }],
    };
    let text = export_map(&map);
    assert!(text.contains("- name: floating\n  kind: entities\n  entity: ~\n"));
}

#[test]
fn export_writes_every_kind_tag() {
    let mut world = EditorWorld::new();
    world.create_map(true, &map_form("Kinds", 11, 11));
    world.create_layer(&layer_form("a", tiles()));
    world.create_layer(&layer_form("b", decorations()));
    world.create_layer(&layer_form("c", entities()));
    let text = export_map(world.map.as_ref().unwrap());
    assert!(text.contains("kind: tiles"));
    assert!(text.contains("kind: decorations"));
    assert!(text.contains("kind: entities"));
}
