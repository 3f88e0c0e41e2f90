//! Editor-local session state: grid visibility, the selected layer,
//! per-layer visibility, and the enter/update/exit transitions of
//! editing mode. All of it is scoped to one editing session and
//! distinct from the map document itself.

use vstd::prelude::*;
use std::collections::HashSet;
use crate::camera::CameraState;
use crate::scene::SceneGraph;

verus! {

broadcast use vstd::std_specs::hash::group_hash_axioms;

/// Per-session editor state.
pub struct EditorState {
    /// Whether the grid-preview overlay is drawn (on by default).
    pub show_grid: bool,
    /// Index of the selected layer row. Not validated against the
    /// layer count: it may point past the end while no layers exist.
    pub current_layer_idx: usize,
    /// Indices of the layers hidden from view; membership is flipped
    /// by the user, independently of the layer stack.
    pub hidden_layers: HashSet<usize>,
}

impl Default for EditorState {
    /// A fresh session: grid shown, first row selected, nothing
    /// hidden.
    fn default() -> (r: Self)
        ensures
            r.show_grid == true,
            r.current_layer_idx == 0,
            r.hidden_layers@ == Set::<usize>::empty(),
    {
        EditorState { show_grid: true, current_layer_idx: 0, hidden_layers: HashSet::new() }
    }
}

/// The hidden set after one visibility toggle of `layer_idx`: a pure
/// membership flip.
pub open spec fn spec_toggle_hidden(hidden: Set<usize>, layer_idx: usize) -> Set<usize> {
    if hidden.contains(layer_idx) {
        hidden.remove(layer_idx)
    } else {
        hidden.insert(layer_idx)
    }
}

/// Law: toggling the visibility of the same layer twice restores the
/// hidden set to its original membership state.
pub proof fn lemma_toggle_involution(hidden: Set<usize>, layer_idx: usize)
    ensures
        spec_toggle_hidden(spec_toggle_hidden(hidden, layer_idx), layer_idx) == hidden,
{
    assert(spec_toggle_hidden(spec_toggle_hidden(hidden, layer_idx), layer_idx) =~= hidden);
}

impl EditorState {
    /// Hides layer `layer_idx` if it is visible, shows it if hidden.
    pub fn toggle_layer_visibility(&mut self, layer_idx: usize)
        ensures
            final(self).hidden_layers@ == spec_toggle_hidden(
                old(self).hidden_layers@,
                layer_idx,
            ),
            final(self).show_grid == old(self).show_grid,
            final(self).current_layer_idx == old(self).current_layer_idx,
    {
        if self.hidden_layers.contains(&layer_idx) {
            self.hidden_layers.remove(&layer_idx);
        } else {
            self.hidden_layers.insert(layer_idx);
        }
    }

    pub fn is_layer_hidden(&self, layer_idx: usize) -> (r: bool)
        ensures
            r == self.hidden_layers@.contains(layer_idx),
    {
        self.hidden_layers.contains(&layer_idx)
    }

    /// Selects the clicked layer row; nothing is validated and nothing
    /// else moves.
    pub fn select_layer(&mut self, layer_idx: usize)
        ensures
            final(self).current_layer_idx == layer_idx,
            final(self).show_grid == old(self).show_grid,
            final(self).hidden_layers@ == old(self).hidden_layers@,
    {
        self.current_layer_idx = layer_idx;
    }

    pub fn set_show_grid(&mut self, show_grid: bool)
        ensures
            final(self).show_grid == show_grid,
            final(self).current_layer_idx == old(self).current_layer_idx,
            final(self).hidden_layers@ == old(self).hidden_layers@,
    {
        self.show_grid = show_grid;
    }
}

/// Entering editing mode: the camera returns to the origin at default
/// zoom.
pub fn setup_editor(camera: &mut CameraState)
    ensures
        final(camera).translation_x_milli == 0,
        final(camera).translation_y_milli == 0,
        final(camera).zoom_milli == crate::geometry::ZOOM_DEFAULT_MILLI,
        final(camera).viewport == old(camera).viewport,
{
    camera.reset_view();
}

/// Each editing frame, the grid-preview overlay follows the session's
/// grid toggle.
pub fn editor_update(state: &EditorState, scene: &mut SceneGraph)
    ensures
        final(scene)@ == SceneGraph::spec_grid_visibility(old(scene)@, state.show_grid),
{
    scene.set_grid_preview_visibility(state.show_grid);
}

/// Leaving editing mode: the camera renders to the full framebuffer
/// again and the grid preview is hidden.
pub fn cleanup_editor(camera: &mut CameraState, scene: &mut SceneGraph)
    ensures
        final(camera).viewport is None,
        final(camera).translation_x_milli == old(camera).translation_x_milli,
        final(camera).translation_y_milli == old(camera).translation_y_milli,
        final(camera).zoom_milli == old(camera).zoom_milli,
        final(scene)@ == SceneGraph::spec_grid_visibility(old(scene)@, false),
{
    camera.clear_viewport();
    scene.set_grid_preview_visibility(false);
}

} // verus!
