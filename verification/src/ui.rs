//! The decisions behind each editor panel.
//!
//! Drawing is the host UI's business; what each click, drag and scroll
//! does to the session, the camera and the command queue is decided
//! here, one function per panel or dialog. Every frame the host reads
//! pointer state, calls these with plain values, and performs the
//! returned actions.

use vstd::prelude::*;
use crate::camera::{spec_viewport_for_rect, viewport_for_rect, CameraState, UiRect};
use crate::commands::{CommandModel, CommandQueue, EditorCommand};
use crate::geometry::{
    apply_zoom, spec_milli_down, spec_pan_offset, spec_zoom_after, ZOOM_STEP_NUMERATOR,
};
use crate::map::{LayerCreateInfo, MapCreateInfo};
use crate::session::{spec_toggle_hidden, EditorState};

verus! {

/// What the pointer did to a dialog this frame.
#[derive(Debug, Clone, Copy, PartialEq, Eq, Structural)]
pub enum DialogChoice {
    /// The dialog stayed open with no button pressed.
    Idle,
    /// The confirm button was pressed.
    Confirm,
    /// The cancel button was pressed.
    Cancel,
}

/// One step of the map-create dialog. While the dialog is open,
/// confirming a valid form enqueues the creation, closes the dialog
/// and resets the form; confirming an invalid form does nothing, since
/// the confirm affordance is disabled; cancelling closes and resets
/// without enqueuing. A map is never created from an invalid form.
pub fn map_create_dialog_step(
    show: &mut bool,
    form: &mut MapCreateInfo,
    queue: &mut CommandQueue,
    choice: DialogChoice,
)
    ensures
        (!*old(show) || choice == DialogChoice::Idle || (choice == DialogChoice::Confirm
            && !old(form)@.valid())) ==> {
            &&& *final(show) == *old(show)
            &&& *final(form) == *old(form)
            &&& final(queue)@ == old(queue)@
        },
        (*old(show) && choice == DialogChoice::Confirm && old(form)@.valid()) ==> {
            &&& *final(show) == false
            &&& final(form)@ == MapCreateInfo::spec_default()
            &&& final(queue)@ == old(queue)@.push(CommandModel::CreateMap(old(form)@))
        },
        (*old(show) && choice == DialogChoice::Cancel) ==> {
            &&& *final(show) == false
            &&& final(form)@ == MapCreateInfo::spec_default()
            &&& final(queue)@ == old(queue)@
        },
{
    if !*show {
        return ;
    }
    match choice {
        DialogChoice::Confirm => {
            if form.is_valid() {
                let submitted = MapCreateInfo {
                    name: form.name.clone(),
                    map_width: form.map_width,
                    map_height: form.map_height,
                };
                queue.enqueue(EditorCommand::CreateMap(submitted));
                *show = false;
                *form = MapCreateInfo::default();
            }
        },
        DialogChoice::Cancel => {
            *show = false;
            *form = MapCreateInfo::default();
        },
        DialogChoice::Idle => {},
    }
}

/// One step of the layer-create dialog. The confirm affordance is
/// enabled exactly while a map exists; there is no name validation, an
/// asymmetry map creation does not share. Confirm and cancel both
/// close the dialog and reset the form; only confirm enqueues.
pub fn layer_create_dialog_step(
    show: &mut bool,
    form: &mut LayerCreateInfo,
    queue: &mut CommandQueue,
    has_map: bool,
    choice: DialogChoice,
)
    ensures
        (!*old(show) || choice == DialogChoice::Idle || (choice == DialogChoice::Confirm
            && !has_map)) ==> {
            &&& *final(show) == *old(show)
            &&& *final(form) == *old(form)
            &&& final(queue)@ == old(queue)@
        },
        (*old(show) && choice == DialogChoice::Confirm && has_map) ==> {
            &&& *final(show) == false
            &&& final(form)@ == LayerCreateInfo::spec_default()
            &&& final(queue)@ == old(queue)@.push(CommandModel::CreateLayer(old(form)@))
        },
        (*old(show) && choice == DialogChoice::Cancel) ==> {
            &&& *final(show) == false
            &&& final(form)@ == LayerCreateInfo::spec_default()
            &&& final(queue)@ == old(queue)@
        },
{
    if !*show {
        return ;
    }
    match choice {
        DialogChoice::Confirm => {
            if has_map {
                let submitted = LayerCreateInfo { name: form.name.clone(), kind: form.kind };
                queue.enqueue(EditorCommand::CreateLayer(submitted));
                *show = false;
                *form = LayerCreateInfo::default();
            }
        },
        DialogChoice::Cancel => {
            *show = false;
            *form = LayerCreateInfo::default();
        },
        DialogChoice::Idle => {},
    }
}

/// What the top bar was told this frame.
#[derive(Debug, Clone, Copy, PartialEq, Eq, Structural)]
pub struct TopBarInput {
    /// The view-reset button was pressed.
    pub reset_clicked: bool,
    /// The state of the show-grid checkbox after the frame.
    pub show_grid: bool,
    /// The main-menu button was pressed.
    pub main_menu_clicked: bool,
    /// The play button was pressed (enabled only while a map exists).
    pub play_clicked: bool,
    /// The export button was pressed (enabled only while a map exists).
    pub export_clicked: bool,
}

/// Mode changes the top bar asks the host for.
#[derive(Debug, Clone, Copy, PartialEq, Eq, Structural)]
pub struct ModeRequests {
    pub main_menu: bool,
    pub play: bool,
}

/// One step of the top bar: the grid toggle follows the checkbox, the
/// reset button returns the view to the origin, the export button
/// opens the export window while a map exists, and the two mode
/// buttons are passed to the host (play only while a map exists).
pub fn top_bar_step(
    state: &mut EditorState,
    camera: &mut CameraState,
    show_export: &mut bool,
    has_map: bool,
    input: TopBarInput,
) -> (r: ModeRequests)
    ensures
        final(state).show_grid == input.show_grid,
        final(state).current_layer_idx == old(state).current_layer_idx,
        final(state).hidden_layers@ == old(state).hidden_layers@,
        input.reset_clicked ==> {
            &&& final(camera).translation_x_milli == 0
            &&& final(camera).translation_y_milli == 0
            &&& final(camera).zoom_milli == crate::geometry::ZOOM_DEFAULT_MILLI
            &&& final(camera).viewport == old(camera).viewport
        },
        !input.reset_clicked ==> *final(camera) == *old(camera),
        *final(show_export) == (*old(show_export) || (input.export_clicked && has_map)),
        r == (ModeRequests {
            main_menu: input.main_menu_clicked,
            play: input.play_clicked && has_map,
        }),
{
    if input.reset_clicked {
        camera.reset_view();
    }
    state.set_show_grid(input.show_grid);
    if input.export_clicked && has_map {
        *show_export = true;
    }
    ModeRequests { main_menu: input.main_menu_clicked, play: input.play_clicked && has_map }
}

/// One step of the export window: it only ever closes itself; the text
/// it displays comes from the exporter.
pub fn map_export_window_step(show_export: &mut bool, close_clicked: bool)
    ensures
        *final(show_export) == (*old(show_export) && !close_clicked),
{
    if close_clicked {
        *show_export = false;
    }
}

/// What one rendered layer row saw of the pointer this frame.
#[derive(Debug, Clone, Copy, PartialEq, Eq, Structural)]
pub struct LayerRowInput {
    /// The pointer is over the row.
    pub hovered: bool,
    /// The primary button is down.
    pub primary_down: bool,
    /// The primary button was released this frame.
    pub primary_released: bool,
    /// The visibility eye of the row was clicked.
    pub eye_clicked: bool,
}

/// How one layer row is drawn.
#[derive(Debug, Clone, Copy, PartialEq, Eq, Structural)]
pub struct LayerRowRender {
    /// The row is tinted: hovered or selected.
    pub highlighted: bool,
    /// The row is tinted with the active colour: hovered and pressed.
    pub active: bool,
    /// The eye is drawn open: the layer was visible when the frame
    /// began.
    pub visible: bool,
}

/// One step of a layer row of the right toolbar: releasing the primary
/// button over the row selects the layer, the eye flips the layer's
/// visibility, and the render states mirror the pointer.
pub fn layer_row_step(state: &mut EditorState, layer_idx: usize, input: LayerRowInput) -> (r:
    LayerRowRender)
    ensures
        final(state).show_grid == old(state).show_grid,
        final(state).current_layer_idx == (if input.primary_released && input.hovered {
            layer_idx
        } else {
            old(state).current_layer_idx
        }),
        final(state).hidden_layers@ == (if input.eye_clicked {
            spec_toggle_hidden(old(state).hidden_layers@, layer_idx)
        } else {
            old(state).hidden_layers@
        }),
        r == (LayerRowRender {
            highlighted: input.hovered || old(state).current_layer_idx == layer_idx,
            active: input.hovered && input.primary_down,
            visible: !old(state).hidden_layers@.contains(layer_idx),
        }),
{
    let highlighted = input.hovered || state.current_layer_idx == layer_idx;
    let active = input.hovered && input.primary_down;
    let visible = !state.is_layer_hidden(layer_idx);
    if input.primary_released && input.hovered {
        state.select_layer(layer_idx);
    }
    if input.eye_clicked {
        state.toggle_layer_visibility(layer_idx);
    }
    LayerRowRender { highlighted, active, visible }
}

/// One step of the right toolbar outside the rows: the plus button
/// opens the layer-create dialog.
pub fn right_toolbar_step(show_layer_create: &mut bool, plus_clicked: bool)
    ensures
        *final(show_layer_create) == (*old(show_layer_create) || plus_clicked),
{
    if plus_clicked {
        *show_layer_create = true;
    }
}

/// The pointer icon shown over the editing view.
#[derive(Debug, Clone, Copy, PartialEq, Eq, Structural)]
pub enum CursorIcon {
    Crosshair,
    Grab,
    Grabbing,
}

/// The cursor the editing view asks for: grabbing while panning, grab
/// while the pan modifier is held, crosshair otherwise — unless
/// another widget already claimed the cursor this frame, which wins.
pub open spec fn spec_cursor_choice(
    cursor_taken: bool,
    dragged_middle: bool,
    command_modifier: bool,
    dragged_primary: bool,
) -> Option<CursorIcon> {
    if cursor_taken {
        None
    } else if dragged_middle || (command_modifier && dragged_primary) {
        Some(CursorIcon::Grabbing)
    } else if command_modifier {
        Some(CursorIcon::Grab)
    } else {
        Some(CursorIcon::Crosshair)
    }
}

pub fn cursor_choice(
    cursor_taken: bool,
    dragged_middle: bool,
    command_modifier: bool,
    dragged_primary: bool,
) -> (r: Option<CursorIcon>)
    ensures
        r == spec_cursor_choice(cursor_taken, dragged_middle, command_modifier, dragged_primary),
{
    if cursor_taken {
        None
    } else if dragged_middle || (command_modifier && dragged_primary) {
        Some(CursorIcon::Grabbing)
    } else if command_modifier {
        Some(CursorIcon::Grab)
    } else {
        Some(CursorIcon::Crosshair)
    }
}

/// What the editing view saw of the pointer this frame.
#[derive(Debug, Clone, Copy, PartialEq, Eq, Structural)]
pub struct CentralPanelInput {
    /// The pointer hovers the editing view.
    pub hovered: bool,
    /// Scroll input this frame, in milli-points.
    pub scroll_y_milli: i64,
    /// The view is dragged with the middle button.
    pub dragged_middle: bool,
    /// The pan modifier key is held.
    pub command_modifier: bool,
    /// The view is dragged with the primary button.
    pub dragged_primary: bool,
    /// Drag delta this frame, in milli-points.
    pub drag_dx_milli: i64,
    pub drag_dy_milli: i64,
    /// Another widget already set the cursor this frame.
    pub cursor_taken: bool,
    /// The rectangle allocated to the editing view.
    pub rect: UiRect,
    /// The display's pixels-per-point factor, in milli-units.
    pub ppp_milli: u64,
}

/// Whether this frame's input pans the view: the pan trigger — the
/// middle button, or the primary button with the pan modifier held —
/// is dragging, and the pointer is over the editing viewport.
pub open spec fn spec_pan_active(input: CentralPanelInput) -> bool {
    input.hovered && (input.dragged_middle || (input.command_modifier && input.dragged_primary))
}

/// One step of the editing view while a map exists: scrolling zooms
/// while hovered, dragging pans at the new zoom, the camera viewport
/// follows the allocated rectangle, and the cursor mirrors the pan
/// state. Zoom is applied before pan, so the drag is scaled by the
/// zoom the frame ends with.
pub fn central_panel_map_step(camera: &mut CameraState, ui_scale_milli: i64, input: CentralPanelInput)
    -> (cursor: Option<CursorIcon>)
    requires
        i64::MIN < input.scroll_y_milli * ZOOM_STEP_NUMERATOR <= i64::MAX,
        i64::MIN <= old(camera).zoom_milli - spec_milli_down(
            input.scroll_y_milli * ZOOM_STEP_NUMERATOR,
        ) <= i64::MAX,
        spec_pan_active(input) ==> {
            let zoom = if input.hovered {
                spec_zoom_after(old(camera).zoom_milli as int, input.scroll_y_milli as int)
            } else {
                old(camera).zoom_milli as int
            };
            &&& i64::MIN < input.drag_dx_milli * ui_scale_milli <= i64::MAX
            &&& i64::MIN < input.drag_dy_milli * ui_scale_milli <= i64::MAX
            &&& i64::MIN < spec_milli_down(input.drag_dx_milli * ui_scale_milli) * zoom <= i64::MAX
            &&& i64::MIN < spec_milli_down(input.drag_dy_milli * ui_scale_milli) * zoom <= i64::MAX
            &&& i64::MIN <= old(camera).translation_x_milli - spec_pan_offset(
                input.drag_dx_milli as int,
                ui_scale_milli as int,
                zoom,
            ) <= i64::MAX
            &&& i64::MIN <= old(camera).translation_y_milli + spec_pan_offset(
                input.drag_dy_milli as int,
                ui_scale_milli as int,
                zoom,
            ) <= i64::MAX
        },
        input.rect.min_x_milli * input.ppp_milli <= u64::MAX,
        input.rect.min_y_milli / 1000 * 1000 * input.ppp_milli <= u64::MAX,
        input.rect.width_milli * input.ppp_milli <= u64::MAX,
        input.rect.height_milli * input.ppp_milli <= u64::MAX,
    ensures
        ({
            let zoom = if input.hovered {
                spec_zoom_after(old(camera).zoom_milli as int, input.scroll_y_milli as int)
            } else {
                old(camera).zoom_milli as int
            };
            &&& final(camera).zoom_milli == zoom
            &&& (old(camera).zoom_milli >= crate::geometry::ZOOM_FLOOR_MILLI
                ==> final(camera).zoom_milli >= crate::geometry::ZOOM_FLOOR_MILLI)
            &&& final(camera).translation_x_milli == (if spec_pan_active(input) {
                old(camera).translation_x_milli - spec_pan_offset(
                    input.drag_dx_milli as int,
                    ui_scale_milli as int,
                    zoom,
                )
            } else {
                old(camera).translation_x_milli as int
            })
            &&& final(camera).translation_y_milli == (if spec_pan_active(input) {
                old(camera).translation_y_milli + spec_pan_offset(
                    input.drag_dy_milli as int,
                    ui_scale_milli as int,
                    zoom,
                )
            } else {
                old(camera).translation_y_milli as int
            })
            &&& final(camera).viewport == Some(spec_viewport_for_rect(input.rect, input.ppp_milli))
        }),
        cursor == spec_cursor_choice(
            input.cursor_taken,
            input.dragged_middle,
            input.command_modifier,
            input.dragged_primary,
        ),
{
    let new_zoom = apply_zoom(camera.zoom_milli, input.scroll_y_milli, input.hovered);
    camera.zoom_milli = new_zoom;

    if input.hovered && (input.dragged_middle || (input.command_modifier
        && input.dragged_primary)) {
        camera.pan(input.drag_dx_milli, input.drag_dy_milli, ui_scale_milli);
    }

    let cursor = cursor_choice(
        input.cursor_taken,
        input.dragged_middle,
        input.command_modifier,
        input.dragged_primary,
    );

    let viewport = viewport_for_rect(input.rect, input.ppp_milli);
    camera.set_viewport(viewport);
    cursor
}

/// One step of the editing view while no map exists: the open button
/// is not implemented and only raises a visible, non-fatal notice; the
/// create button opens the map-create dialog over a freshly reset
/// form.
pub fn central_panel_empty_step(
    show_map_create: &mut bool,
    form: &mut MapCreateInfo,
    open_clicked: bool,
    create_clicked: bool,
) -> (notice: bool)
    ensures
        notice == open_clicked,
        create_clicked ==> *final(show_map_create) == true && final(form)@
            == MapCreateInfo::spec_default(),
        !create_clicked ==> *final(show_map_create) == *old(show_map_create) && *final(form)
            == *old(form),
{
    if create_clicked {
        *show_map_create = true;
        *form = MapCreateInfo::default();
    }
    open_clicked
}

} // verus!
