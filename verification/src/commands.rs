//! Deferred structural mutations.
//!
//! Creating the map or a layer spawns scene nodes, which must not
//! happen while a UI traversal is still reading the scene. Such
//! mutations are collected in an ordered queue during the frame and
//! flushed, in enqueue order, once the traversal is done. There is no
//! coalescing and no cancellation: each enqueued command is applied
//! exactly once, in order, with its guard re-checked at apply time.

use vstd::prelude::*;
use crate::geometry::MILLI_ONE;
use crate::map::{LayerCreateInfo, LayerCreateModel, MapCreateInfo, MapCreateModel};
use crate::world::{spec_create_layer, spec_create_map, EditorWorld, WorldModel};

verus! {

/// A structural mutation deferred until the frame's reads complete.
#[derive(Clone)]
pub enum EditorCommand {
    CreateMap(MapCreateInfo),
    CreateLayer(LayerCreateInfo),
}

/// The mathematical value of an [`EditorCommand`].
#[verifier::ext_equal]
pub ghost enum CommandModel {
    CreateMap(MapCreateModel),
    CreateLayer(LayerCreateModel),
}

impl View for EditorCommand {
    type V = CommandModel;

    open spec fn view(&self) -> CommandModel {
        match self {
            EditorCommand::CreateMap(info) => CommandModel::CreateMap(info@),
            EditorCommand::CreateLayer(info) => CommandModel::CreateLayer(info@),
        }
    }
}

/// What applying one command does to the world. A command whose guard
/// no longer holds when it is applied — a map already present, or a
/// machine limit reached — leaves the world as it is.
pub open spec fn spec_apply_command(w: WorldModel, show_grid: bool, c: CommandModel) -> WorldModel {
    match c {
        CommandModel::CreateMap(info) => {
            if w.map.is_none() && info.valid() && w.scene.len() + 2 <= usize::MAX {
                spec_create_map(w, show_grid, info)
            } else {
                w
            }
        },
        CommandModel::CreateLayer(info) => {
            if w.map.is_some() && w.map.unwrap().layers.len() < usize::MAX && w.scene.len()
                < usize::MAX && w.map.unwrap().layers.len() * MILLI_ONE <= i64::MAX {
                spec_create_layer(w, info)
            } else {
                w
            }
        },
    }
}

/// The world after a whole queue is applied, first command first.
pub open spec fn spec_apply_all(w: WorldModel, show_grid: bool, cmds: Seq<CommandModel>) -> WorldModel
    decreases cmds.len(),
{
    if cmds.len() == 0 {
        w
    } else {
        spec_apply_all(spec_apply_command(w, show_grid, cmds.first()), show_grid, cmds.drop_first())
    }
}

/// Law: a map's identity is fixed at creation. Whatever commands are
/// applied over an existing map — stale map creations are dropped,
/// layer creations only append — its name, grid size, tile size and
/// background layers never change.
pub proof fn lemma_map_identity_immutable(w: WorldModel, show_grid: bool, cmds: Seq<CommandModel>)
    requires
        w.map.is_some(),
    ensures
        ({
            let r = spec_apply_all(w, show_grid, cmds);
            &&& r.map.is_some()
            &&& r.map.unwrap().name == w.map.unwrap().name
            &&& r.map.unwrap().grid_size == w.map.unwrap().grid_size
            &&& r.map.unwrap().tile_size == w.map.unwrap().tile_size
            &&& r.map.unwrap().background_layers == w.map.unwrap().background_layers
        }),
    decreases cmds.len(),
{
    if cmds.len() > 0 {
        lemma_map_identity_immutable(
            spec_apply_command(w, show_grid, cmds.first()),
            show_grid,
            cmds.drop_first(),
        );
    }
}

/// The ordered queue of mutations collected during one frame.
pub struct CommandQueue {
    pub pending: Vec<EditorCommand>,
}

impl View for CommandQueue {
    type V = Seq<CommandModel>;

    open spec fn view(&self) -> Seq<CommandModel> {
        self.pending@.map_values(|c: EditorCommand| c@)
    }
}

impl CommandQueue {
    /// An empty queue.
    pub fn new() -> (r: CommandQueue)
        ensures
            r@ == Seq::<CommandModel>::empty(),
    {
        let q = CommandQueue { pending: Vec::new() };
        proof {
            assert(q@ =~= Seq::<CommandModel>::empty());
        }
        q
    }

    pub fn is_empty(&self) -> (r: bool)
        ensures
            r == (self@.len() == 0),
    {
        self.pending.len() == 0
    }

    /// Appends a command to the back of the queue.
    pub fn enqueue(&mut self, cmd: EditorCommand)
        ensures
            final(self)@ == old(self)@.push(cmd@),
    {
        self.pending.push(cmd);
        proof {
            assert(self@ =~= old(self)@.push(cmd@));
        }
    }

    /// Applies every pending command to the world, first command
    /// first, and leaves the queue empty. Guards are re-checked per
    /// command, so the flush is total: a stale command is dropped,
    /// never applied halfway.
    pub fn flush(&mut self, world: &mut EditorWorld, show_grid: bool)
        requires
            old(world)@.wf(),
        ensures
            final(self)@ == Seq::<CommandModel>::empty(),
            final(world)@ == spec_apply_all(old(world)@, show_grid, old(self)@),
            final(world)@.wf(),
    {
        let n = self.pending.len();
        let mut i: usize = 0;
        proof {
            assert(self@.subrange(0, n as int) =~= self@);
        }
        while i < n
            invariant
                world@.wf(),
                i <= n,
                n == self@.len(),
                self@ == old(self)@,
                spec_apply_all(old(world)@, show_grid, old(self)@) == spec_apply_all(
                    world@,
                    show_grid,
                    self@.subrange(i as int, n as int),
                ),
            decreases n - i,
        {
            proof {
                assert(self@.subrange(i as int, n as int).first() == self@[i as int]);
                assert(self@.subrange(i as int, n as int).drop_first() =~= self@.subrange(
                    i as int + 1,
                    n as int,
                ));
            }
            match &self.pending[i] {
                EditorCommand::CreateMap(info) => {
                    if !world.has_map() && info.is_valid() && world.scene.len() <= usize::MAX - 2 {
                        world.create_map(show_grid, info);
                    }
                },
                EditorCommand::CreateLayer(info) => {
                    let layers = world.layer_count();
                    let layer_limit: u64 = 9_223_372_036_854_775;
                    proof {
                        assert(layers as int <= layer_limit as int ==> layers as int * MILLI_ONE
                            <= i64::MAX);
                        assert(layers as int * MILLI_ONE <= i64::MAX ==> layers as int
                            <= layer_limit as int);
                    }
                    if world.has_map() && layers < usize::MAX && world.scene.len() < usize::MAX
                        && layers as u64 <= layer_limit {
                        world.create_layer(info);
                    }
                },
            }
            i += 1;
        }
        proof {
            assert(self@.subrange(n as int, n as int) =~= Seq::<CommandModel>::empty());
        }
        self.pending.clear();
        proof {
            assert(self@ =~= Seq::<CommandModel>::empty());
        }
    }
}

} // verus!
