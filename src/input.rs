//! Turns one frame's pointer state into camera changes and world positions.

use vstd::prelude::*;
use crate::camera::{
    panned, world_x, world_y, zoom_after_scroll, Camera, ScreenPoint, Viewport, WorldPoint,
};

verus! {

/// The pointer as the host saw it during one frame.
#[derive(Clone, Copy, Debug, PartialEq, Eq)]
pub struct PointerFrame {
    /// Drag delta of the secondary button, while it drags the viewport.
    pub secondary_drag: Option<ScreenPoint>,
    /// Whether the primary button drags the viewport.
    pub primary_dragging: bool,
    /// Where the primary button's interaction is, if known.
    pub interact_pos: Option<ScreenPoint>,
    /// Whether the pointer hovers the viewport.
    pub hovered: bool,
    /// Where the pointer hovers, if known.
    pub hover_pos: Option<ScreenPoint>,
    /// Vertical scroll this frame; only its sign counts.
    pub scroll: i32,
}

/// What the pointer resolved to in the world this frame.
#[derive(Clone, Copy, Debug, PartialEq, Eq)]
pub struct Interaction {
    /// World position under a primary drag.
    pub click: Option<WorldPoint>,
    /// Whether a primary drag is under way; `false` marks its end.
    pub dragging: bool,
    /// World position under the hovering pointer.
    pub hover: Option<WorldPoint>,
}

/// The world point under `p`, or `None` where there is no pointer position.
pub open spec fn resolved(cam: Camera, vp: Viewport, active: bool, p: Option<ScreenPoint>) -> Option<
    WorldPoint,
> {
    if active && p.is_some() {
        Some(
            WorldPoint {
                x: world_x(cam, vp, p.unwrap().x as int) as i128,
                y: world_y(cam, vp, p.unwrap().y as int) as i128,
            },
        )
    } else {
        None
    }
}

/// The camera after the pointer frame: first the secondary drag pans, then
/// a scroll over the hovered viewport zooms.
pub open spec fn routed_camera(cam: Camera, vp: Viewport, input: PointerFrame) -> Camera {
    let moved = dragged_camera(cam, vp, input);
    if vp.valid() && input.hovered {
        Camera { position: moved.position, zoom: zoom_after_scroll(moved.zoom as int, input.scroll as int) as u64 }
    } else {
        moved
    }
}

/// The camera after the secondary drag of a pointer frame, before any zoom.
pub open spec fn dragged_camera(cam: Camera, vp: Viewport, input: PointerFrame) -> Camera {
    match input.secondary_drag {
        Some(d) => panned(cam, vp, d.x as int, d.y as int),
        None => cam,
    }
}

/// What a pointer frame resolves to: positions are read through the camera
/// after the drag, and only over a usable viewport.
pub open spec fn routed_interaction(cam: Camera, vp: Viewport, input: PointerFrame) -> Interaction {
    let moved = dragged_camera(cam, vp, input);
    Interaction {
        click: resolved(moved, vp, vp.valid() && input.primary_dragging, input.interact_pos),
        dragging: input.primary_dragging,
        hover: resolved(moved, vp, vp.valid() && input.hovered, input.hover_pos),
    }
}

/// Applies one frame of pointer input to the camera and resolves the
/// pointer's world positions. Positions are taken after the pan and before
/// the zoom. A frame with an unusable viewport changes nothing and resolves
/// nothing.
pub fn route_pointer(camera: &mut Camera, vp: &Viewport, input: &PointerFrame) -> (r: Interaction)
    requires
        old(camera).wf(),
    ensures
        final(camera).wf(),
        *final(camera) == routed_camera(*old(camera), *vp, *input),
        r == routed_interaction(*old(camera), *vp, *input),
{
    if !vp.is_valid() {
        return Interaction { click: None, dragging: input.primary_dragging, hover: None };
    }
    if let Some(d) = input.secondary_drag {
        camera.pan(vp, d);
    }
    let click = if input.primary_dragging {
        match input.interact_pos {
            Some(p) => Some(camera.screen_to_world(vp, p)),
            None => None,
        }
    } else {
        None
    };
    let hover = if input.hovered {
        match input.hover_pos {
            Some(p) => Some(camera.screen_to_world(vp, p)),
            None => None,
        }
    } else {
        None
    };
    if input.hovered {
        camera.zoom_by(input.scroll);
    }
    Interaction { click, dragging: input.primary_dragging, hover }
}

} // verus!
