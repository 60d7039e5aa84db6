use viewport_sim::camera::{
    Camera, ScreenPoint, Viewport, WorldPoint, MAX_ZOOM, MIN_ZOOM, WORLD_LIMIT, ZOOM_ONE,
};

fn origin(zoom: u64) -> Camera {
    Camera::new(WorldPoint { x: 0, y: 0 }, zoom)
}

fn vp(width: i32, height: i32) -> Viewport {
    Viewport { left: 0, top: 0, width, height }
}

#[test]
fn centre_of_viewport_is_camera_position() {
    let cam = Camera::new(WorldPoint { x: 7, y: -3 }, 250_000);
    let v = Viewport { left: 10, top: 20, width: 800, height: 400 };
    assert_eq!(cam.screen_to_world(&v, ScreenPoint { x: 410, y: 220 }), WorldPoint { x: 7, y: -3 });
}

#[test]
fn corners_map_to_clip_range_scaled_by_aspect() {
    let cam = origin(ZOOM_ONE);
    let v = vp(800, 400);
    assert_eq!(
        cam.screen_to_world(&v, ScreenPoint { x: 800, y: 0 }),
        WorldPoint { x: 2_000_000, y: 1_000_000 }
    );
    assert_eq!(
        cam.screen_to_world(&v, ScreenPoint { x: 0, y: 400 }),
        WorldPoint { x: -2_000_000, y: -1_000_000 }
    );
    let zoomed = origin(2 * ZOOM_ONE);
    assert_eq!(
        zoomed.screen_to_world(&v, ScreenPoint { x: 800, y: 400 }),
        WorldPoint { x: 1_000_000, y: -500_000 }
    );
}

#[test]
fn aspect_ratio_scales_world_x() {
    let cam = origin(ZOOM_ONE);
    let wide = vp(800, 400);
    let tall = vp(400, 800);
    // the same point in clip space: halfway from the centre to the right edge
    let w = cam.screen_to_world(&wide, ScreenPoint { x: 600, y: 200 });
    let t = cam.screen_to_world(&tall, ScreenPoint { x: 300, y: 400 });
    assert_eq!(w.x, 1_000_000);
    assert_eq!(t.x, 250_000);
    assert_eq!(w.x, 4 * t.x);
    // the same offset in pixels
    let t = cam.screen_to_world(&tall, ScreenPoint { x: 400, y: 400 });
    assert_eq!(w.x, 2 * t.x);
}

#[test]
fn screen_point_survives_the_round_trip() {
    let cam = Camera::new(WorldPoint { x: 123_456, y: -654_321 }, 250_000);
    let v = Viewport { left: 5, top: 30, width: 640, height: 480 };
    let p = ScreenPoint { x: 37, y: 411 };
    let w = cam.screen_to_world(&v, p);
    // world offset d shows at doubled pixel offset ceil(|d| * h * zoom / 1e12)
    let span = |d: i128| {
        let m = d.unsigned_abs() * 480 * 250_000;
        let s = ((m + 999_999_999_999) / 1_000_000_000_000) as i64;
        if d < 0 { -s } else { s }
    };
    let sx = 5 + (span(w.x - cam.position.x) + 640) / 2;
    let sy = 30 + (480 - span(w.y - cam.position.y)) / 2;
    assert_eq!((sx, sy), (37, 411));
}

#[test]
fn drag_moves_camera_against_x_and_with_y() {
    let mut cam = origin(250_000);
    cam.pan(&vp(800, 400), ScreenPoint { x: 10, y: 10 });
    assert_eq!(cam.position, WorldPoint { x: -200_000, y: 200_000 });
    assert_eq!(cam.zoom, 250_000);
}

#[test]
fn pan_and_back_restores_position() {
    let start = Camera::new(WorldPoint { x: 31, y: -77 }, 333_333);
    let v = vp(1024, 768);
    let mut cam = start;
    cam.pan(&v, ScreenPoint { x: 17, y: -5 });
    assert_ne!(cam, start);
    cam.pan(&v, ScreenPoint { x: -17, y: 5 });
    assert_eq!(cam, start);
}

#[test]
fn pan_on_degenerate_viewport_is_ignored() {
    let mut cam = origin(ZOOM_ONE);
    cam.pan(&vp(800, 0), ScreenPoint { x: 10, y: 10 });
    assert_eq!(cam, origin(ZOOM_ONE));
}

#[test]
fn pan_past_world_limit_is_refused() {
    let start = Camera::new(WorldPoint { x: -WORLD_LIMIT, y: 0 }, MIN_ZOOM);
    let mut cam = start;
    cam.pan(&vp(100, 1), ScreenPoint { x: 1, y: 0 });
    assert_eq!(cam, start);
    cam.pan(&vp(100, 1), ScreenPoint { x: -1, y: 0 });
    assert_eq!(cam.position.x, -WORLD_LIMIT + 2_000_000_000_000);
}

#[test]
fn scroll_up_then_down_returns_zoom() {
    let mut cam = origin(ZOOM_ONE);
    cam.zoom_by(1);
    assert_eq!(cam.zoom, 1_111_111);
    cam.zoom_by(-1);
    assert_eq!(cam.zoom, 999_999);
    assert!(ZOOM_ONE - cam.zoom <= 1);
    cam.zoom_by(0);
    assert_eq!(cam.zoom, 999_999);
}

#[test]
fn zoom_stays_within_bounds() {
    let mut low = origin(MIN_ZOOM);
    low.zoom_by(-7);
    assert_eq!(low.zoom, MIN_ZOOM);
    let mut high = origin(MAX_ZOOM);
    high.zoom_by(3);
    assert_eq!(high.zoom, MAX_ZOOM);
    let mut cam = origin(9);
    cam.zoom_by(1);
    assert_eq!(cam.zoom, 10);
}

#[test]
fn viewport_validity() {
    assert!(vp(1, 1).is_valid());
    assert!(!vp(0, 10).is_valid());
    assert!(!vp(10, 0).is_valid());
    assert!(!vp(-5, 10).is_valid());
}
