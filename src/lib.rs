//! Fixed-timestep simulation clock and pannable, zoomable 2D camera.
//!
//! Time is counted in whole nanoseconds, the time scale in thousandths,
//! screen positions in whole pixels, and world positions and zoom in
//! millionths, so every transform here is exact integer arithmetic.

pub mod camera;
pub mod clock;
pub mod frame;
pub mod input;
pub mod viewer;
