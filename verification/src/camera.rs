//! The editing camera: world translation and zoom scale in
//! milli-units, plus the optional viewport override that routes its
//! output into the on-screen editing region.

use vstd::prelude::*;
use crate::geometry::{milli_down, spec_milli_down, spec_pan_offset, ZOOM_DEFAULT_MILLI};
use crate::map::UVec2;

verus! {

/// The camera's render-target region, in device pixels.
#[derive(Debug, Clone, Copy, PartialEq, Eq, Structural)]
pub struct Viewport {
    pub physical_position: UVec2,
    pub physical_size: UVec2,
}

/// An on-screen rectangle in milli-points, as the UI allocates it.
#[derive(Debug, Clone, Copy, PartialEq, Eq, Structural)]
pub struct UiRect {
    pub min_x_milli: u64,
    pub min_y_milli: u64,
    pub width_milli: u64,
    pub height_milli: u64,
}

/// Saturation of a non-negative quantity into a `u32`, as a narrowing
/// float-to-integer conversion would behave.
pub open spec fn spec_u32_sat(v: int) -> u32 {
    if v > u32::MAX {
        u32::MAX as u32
    } else {
        v as u32
    }
}

/// A milli-point coordinate converted to device pixels: scaled by the
/// pixels-per-point factor and truncated.
pub open spec fn spec_device_px(v_milli: int, ppp_milli: int) -> u32 {
    spec_u32_sat(v_milli * ppp_milli / 1_000_000)
}

/// Same, but the coordinate is first floored to whole points; the
/// vertical position of the viewport is snapped this way so the top
/// edge never lands between pixel rows.
pub open spec fn spec_device_px_floored(v_milli: int, ppp_milli: int) -> u32 {
    spec_device_px(v_milli / 1000 * 1000, ppp_milli)
}

/// The viewport, in device pixels, for a UI rectangle.
pub open spec fn spec_viewport_for_rect(rect: UiRect, ppp_milli: u64) -> Viewport {
    Viewport {
        physical_position: UVec2 {
            x: spec_device_px(rect.min_x_milli as int, ppp_milli as int),
            y: spec_device_px_floored(rect.min_y_milli as int, ppp_milli as int),
        },
        physical_size: UVec2 {
            x: spec_device_px(rect.width_milli as int, ppp_milli as int),
            y: spec_device_px(rect.height_milli as int, ppp_milli as int),
        },
    }
}

/// Camera state the editor reads and drives.
#[derive(Clone, Copy)]
pub struct CameraState {
    pub translation_x_milli: i64,
    pub translation_y_milli: i64,
    pub zoom_milli: i64,
    /// `None` renders to the full framebuffer; `Some` restricts output
    /// to the editing region.
    pub viewport: Option<Viewport>,
}

impl CameraState {
    /// A camera at the origin with the default zoom and no viewport
    /// override.
    pub open spec fn spec_initial() -> CameraState {
        CameraState {
            translation_x_milli: 0,
            translation_y_milli: 0,
            zoom_milli: ZOOM_DEFAULT_MILLI,
            viewport: None,
        }
    }

    pub fn initial() -> (r: CameraState)
        ensures
            r == CameraState::spec_initial(),
    {
        CameraState {
            translation_x_milli: 0,
            translation_y_milli: 0,
            zoom_milli: ZOOM_DEFAULT_MILLI,
            viewport: None,
        }
    }

    /// Returns the view to the origin at default zoom; the viewport
    /// override is kept.
    pub fn reset_view(&mut self)
        ensures
            final(self).translation_x_milli == 0,
            final(self).translation_y_milli == 0,
            final(self).zoom_milli == ZOOM_DEFAULT_MILLI,
            final(self).viewport == old(self).viewport,
    {
        self.translation_x_milli = 0;
        self.translation_y_milli = 0;
        self.zoom_milli = ZOOM_DEFAULT_MILLI;
    }

    /// Translates the view by a drag: the world moves against the drag
    /// horizontally and with it vertically, because UI space grows
    /// downward while world space grows upward. The drag is scaled by
    /// the UI scale factor and the current zoom.
    pub fn pan(&mut self, drag_dx_milli: i64, drag_dy_milli: i64, ui_scale_milli: i64)
        requires
            i64::MIN < drag_dx_milli * ui_scale_milli <= i64::MAX,
            i64::MIN < drag_dy_milli * ui_scale_milli <= i64::MAX,
            i64::MIN < spec_milli_down(drag_dx_milli * ui_scale_milli) * old(self).zoom_milli
                <= i64::MAX,
            i64::MIN < spec_milli_down(drag_dy_milli * ui_scale_milli) * old(self).zoom_milli
                <= i64::MAX,
            i64::MIN <= old(self).translation_x_milli - spec_pan_offset(
                drag_dx_milli as int,
                ui_scale_milli as int,
                old(self).zoom_milli as int,
            ) <= i64::MAX,
            i64::MIN <= old(self).translation_y_milli + spec_pan_offset(
                drag_dy_milli as int,
                ui_scale_milli as int,
                old(self).zoom_milli as int,
            ) <= i64::MAX,
        ensures
            final(self).translation_x_milli == old(self).translation_x_milli - spec_pan_offset(
                drag_dx_milli as int,
                ui_scale_milli as int,
                old(self).zoom_milli as int,
            ),
            final(self).translation_y_milli == old(self).translation_y_milli + spec_pan_offset(
                drag_dy_milli as int,
                ui_scale_milli as int,
                old(self).zoom_milli as int,
            ),
            final(self).zoom_milli == old(self).zoom_milli,
            final(self).viewport == old(self).viewport,
    {
        let off_x: i64 = milli_down(milli_down(drag_dx_milli * ui_scale_milli) * self.zoom_milli);
        let off_y: i64 = milli_down(milli_down(drag_dy_milli * ui_scale_milli) * self.zoom_milli);
        self.translation_x_milli = self.translation_x_milli - off_x;
        self.translation_y_milli = self.translation_y_milli + off_y;
    }

    pub fn set_viewport(&mut self, viewport: Viewport)
        ensures
            *final(self) == (CameraState { viewport: Some(viewport), ..*old(self) }),
    {
        self.viewport = Some(viewport);
    }

    /// Back to rendering into the full framebuffer.
    pub fn clear_viewport(&mut self)
        ensures
            *final(self) == (CameraState { viewport: None, ..*old(self) }),
    {
        self.viewport = None;
    }
}

/// Converts the on-screen editing rectangle to device pixels; written
/// into the camera every frame the editing view is visible.
pub fn viewport_for_rect(rect: UiRect, ppp_milli: u64) -> (r: Viewport)
    requires
        rect.min_x_milli * ppp_milli <= u64::MAX,
        rect.min_y_milli / 1000 * 1000 * ppp_milli <= u64::MAX,
        rect.width_milli * ppp_milli <= u64::MAX,
        rect.height_milli * ppp_milli <= u64::MAX,
    ensures
        r == spec_viewport_for_rect(rect, ppp_milli),
{
    Viewport {
        physical_position: UVec2 {
            x: device_px(rect.min_x_milli, ppp_milli),
            y: device_px(rect.min_y_milli / 1000 * 1000, ppp_milli),
        },
        physical_size: UVec2 {
            x: device_px(rect.width_milli, ppp_milli),
            y: device_px(rect.height_milli, ppp_milli),
        },
    }
}

/// One milli-point coordinate to device pixels.
fn device_px(v_milli: u64, ppp_milli: u64) -> (r: u32)
    requires
        v_milli * ppp_milli <= u64::MAX,
    ensures
        r == spec_device_px(v_milli as int, ppp_milli as int),
{
    let scaled: u64 = v_milli * ppp_milli / 1_000_000;
    if scaled > u32::MAX as u64 {
        u32::MAX
    } else {
        scaled as u32
    }
}

} // verus!
