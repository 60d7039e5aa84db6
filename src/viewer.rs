//! The viewer's state and its per-frame update: advance the clock, route the
//! pointer, and assemble what is drawn.

use vstd::prelude::*;
use crate::camera::{Camera, Viewport, WorldPoint};
use crate::clock::{scale_sign, scaled_nanos, SimulationClock, Ticks};
use crate::frame::{assemble, placeholder_circles, placeholder_scene, RenderDescriptor, Rgb};
use crate::input::{route_pointer, routed_camera, routed_interaction, Interaction, PointerFrame};

verus! {

/// Ticks per second when the viewer starts.
pub const DEFAULT_TICK_RATE: u32 = 100;

/// Zoom when the viewer starts: `0.25`, in millionths.
pub const DEFAULT_ZOOM: u64 = 250_000;

/// Settings, clock and camera, owned by the frame loop.
#[derive(Clone, Copy, Debug)]
pub struct Viewer {
    pub clock: SimulationClock,
    pub camera: Camera,
    pub background: Rgb,
    pub info_window_open: bool,
}

/// The outcome of one frame.
#[derive(Clone, Debug)]
pub struct FrameOutput {
    pub ticks: Ticks,
    pub interaction: Interaction,
    pub render: RenderDescriptor,
}

impl Viewer {
    pub open spec fn wf(&self) -> bool {
        self.clock.wf() && self.camera.wf()
    }

    /// A viewer at 100 ticks per second, time scale one, nothing
    /// accumulated, the camera at the origin with zoom 0.25, a black
    /// background and the info window open.
    pub fn new() -> (r: Viewer)
        ensures
            r.wf(),
            r.clock.accumulated_spec() == 0,
            r.clock.tick_rate_spec() == DEFAULT_TICK_RATE,
            r.clock.time_scale_spec() == crate::clock::TIME_SCALE_ONE,
            r.camera.position == (WorldPoint { x: 0, y: 0 }),
            r.camera.zoom == DEFAULT_ZOOM,
            r.background == (Rgb { r: 0, g: 0, b: 0 }),
            r.info_window_open,
    {
        Viewer {
            clock: SimulationClock::new(DEFAULT_TICK_RATE, crate::clock::TIME_SCALE_ONE),
            camera: Camera::new(WorldPoint { x: 0, y: 0 }, DEFAULT_ZOOM),
            background: Rgb { r: 0, g: 0, b: 0 },
            info_window_open: true,
        }
    }

    /// Runs one frame: the clock takes the frame's wall-clock time, the
    /// pointer moves the camera, and the scene is packed with the camera as
    /// it stands afterwards.
    pub fn frame(&mut self, frame_nanos: u64, vp: &Viewport, input: &PointerFrame) -> (r: FrameOutput)
        requires
            old(self).wf(),
            old(self).clock.accumulated_spec() + scaled_nanos(
                frame_nanos as nat,
                old(self).clock.time_scale_spec(),
            ) <= u64::MAX,
        ensures
            final(self).wf(),
            final(self).background == old(self).background,
            final(self).info_window_open == old(self).info_window_open,
            final(self).clock.tick_rate_spec() == old(self).clock.tick_rate_spec(),
            final(self).clock.time_scale_spec() == old(self).clock.time_scale_spec(),
            r.ticks.count == (old(self).clock.accumulated_spec() + scaled_nanos(
                frame_nanos as nat,
                old(self).clock.time_scale_spec(),
            )) / old(self).clock.tick_spec(),
            final(self).clock.accumulated_spec() == (old(self).clock.accumulated_spec()
                + scaled_nanos(frame_nanos as nat, old(self).clock.time_scale_spec()))
                % old(self).clock.tick_spec(),
            final(self).camera == routed_camera(old(self).camera, *vp, *input),
            r.ticks.step_nanos == scale_sign(old(self).clock.time_scale_spec()) * old(self).clock.tick_spec(),
            r.interaction == routed_interaction(old(self).camera, *vp, *input),
            r.render.camera.position == final(self).camera.position,
            r.render.camera.zoom == final(self).camera.zoom,
            r.render.camera.viewport_width == vp.width,
            r.render.camera.viewport_height == vp.height,
            r.render.circles@ == placeholder_scene(),
            r.render.rectangles@.len() == 0,
    {
        let ticks = self.clock.advance(frame_nanos);
        let interaction = route_pointer(&mut self.camera, vp, input);
        let render = assemble(&self.camera, vp, placeholder_circles(), Vec::new());
        FrameOutput { ticks, interaction, render }
    }
}

} // verus!
