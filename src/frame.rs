//! Packs the camera and the scene into what the renderer draws each frame.

use vstd::prelude::*;
use crate::camera::{Camera, Viewport, WorldPoint, WORLD_UNIT};

verus! {

/// An opaque colour, one byte per channel.
#[derive(Clone, Copy, Debug, PartialEq, Eq)]
pub struct Rgb {
    pub r: u8,
    pub g: u8,
    pub b: u8,
}

/// A filled circle in world coordinates.
#[derive(Clone, Copy, Debug, PartialEq, Eq)]
pub struct Circle {
    pub position: WorldPoint,
    pub radius: i128,
    pub color: Rgb,
}

/// A filled axis-aligned rectangle in world coordinates, by centre and size.
#[derive(Clone, Copy, Debug, PartialEq, Eq)]
pub struct Rectangle {
    pub position: WorldPoint,
    pub size: WorldPoint,
    pub color: Rgb,
}

/// The camera as the renderer needs it; the aspect ratio is
/// `viewport_width / viewport_height`.
#[derive(Clone, Copy, Debug, PartialEq, Eq)]
pub struct RenderCamera {
    pub position: WorldPoint,
    pub zoom: u64,
    pub viewport_width: i32,
    pub viewport_height: i32,
}

/// Everything one frame draws, shapes in drawing order.
#[derive(Clone, Debug)]
pub struct RenderDescriptor {
    pub camera: RenderCamera,
    pub circles: Vec<Circle>,
    pub rectangles: Vec<Rectangle>,
}

/// Builds the frame's render descriptor from the current camera, the
/// viewport it is shown in, and the shapes in order.
pub fn assemble(
    camera: &Camera,
    vp: &Viewport,
    circles: Vec<Circle>,
    rectangles: Vec<Rectangle>,
) -> (r: RenderDescriptor)
    ensures
        r.camera.position == camera.position,
        r.camera.zoom == camera.zoom,
        r.camera.viewport_width == vp.width,
        r.camera.viewport_height == vp.height,
        r.circles@ == circles@,
        r.rectangles@ == rectangles@,
{
    RenderDescriptor {
        camera: RenderCamera {
            position: camera.position,
            zoom: camera.zoom,
            viewport_width: vp.width,
            viewport_height: vp.height,
        },
        circles,
        rectangles,
    }
}

/// The scene shown until something fills it: one red circle of radius one
/// world unit at the origin.
pub open spec fn placeholder_scene() -> Seq<Circle> {
    seq![
        Circle {
            position: WorldPoint { x: 0, y: 0 },
            radius: WORLD_UNIT,
            color: Rgb { r: 255, g: 0, b: 0 },
        },
    ]
}

/// Builds `placeholder_scene`.
pub fn placeholder_circles() -> (r: Vec<Circle>)
    ensures
        r@ == placeholder_scene(),
{
    let mut v: Vec<Circle> = Vec::new();
    v.push(
        Circle {
            position: WorldPoint { x: 0, y: 0 },
            radius: WORLD_UNIT,
            color: Rgb { r: 255, g: 0, b: 0 },
        },
    );
    assert(v@ =~= placeholder_scene());
    v
}

} // verus!
