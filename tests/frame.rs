use viewport_sim::camera::{Camera, ScreenPoint, Viewport, WorldPoint, WORLD_UNIT};
use viewport_sim::clock::TIME_SCALE_ONE;
use viewport_sim::frame::{assemble, placeholder_circles, Circle, Rectangle, Rgb};
use viewport_sim::input::PointerFrame;
use viewport_sim::viewer::{Viewer, DEFAULT_ZOOM};

#[test]
fn assemble_keeps_camera_and_shapes_in_order() {
    let cam = Camera::new(WorldPoint { x: 4, y: 5 }, 777);
    let vp = Viewport { left: 1, top: 2, width: 300, height: 200 };
    let red = Rgb { r: 255, g: 0, b: 0 };
    let blue = Rgb { r: 0, g: 0, b: 255 };
    let circles = vec![
        Circle { position: WorldPoint { x: 1, y: 1 }, radius: 3, color: red },
        Circle { position: WorldPoint { x: 2, y: 2 }, radius: 4, color: blue },
    ];
    let rects = vec![Rectangle {
        position: WorldPoint { x: 0, y: 0 },
        size: WorldPoint { x: 10, y: 20 },
        color: blue,
    }];
    let d = assemble(&cam, &vp, circles.clone(), rects.clone());
    assert_eq!(d.camera.position, WorldPoint { x: 4, y: 5 });
    assert_eq!(d.camera.zoom, 777);
    assert_eq!((d.camera.viewport_width, d.camera.viewport_height), (300, 200));
    assert_eq!(d.circles, circles);
    assert_eq!(d.rectangles, rects);
}

#[test]
fn placeholder_is_one_red_unit_circle() {
    assert_eq!(
        placeholder_circles(),
        vec![Circle {
            position: WorldPoint { x: 0, y: 0 },
            radius: WORLD_UNIT,
            color: Rgb { r: 255, g: 0, b: 0 },
        }]
    );
}

#[test]
fn viewer_starts_with_defaults() {
    let v = Viewer::new();
    assert_eq!(v.clock.tick_rate(), 100);
    assert_eq!(v.clock.time_scale(), TIME_SCALE_ONE);
    assert_eq!(v.clock.accumulated_nanos(), 0);
    assert_eq!(v.camera.position, WorldPoint { x: 0, y: 0 });
    assert_eq!(v.camera.zoom, DEFAULT_ZOOM);
    assert_eq!(v.background, Rgb { r: 0, g: 0, b: 0 });
    assert!(v.info_window_open);
}

#[test]
fn viewer_frame_ticks_routes_and_renders() {
    let mut v = Viewer::new();
    let vp = Viewport { left: 0, top: 0, width: 800, height: 400 };
    let input = PointerFrame {
        secondary_drag: Some(ScreenPoint { x: 10, y: 10 }),
        primary_dragging: false,
        interact_pos: None,
        hovered: true,
        hover_pos: Some(ScreenPoint { x: 400, y: 200 }),
        scroll: -1,
    };
    let out = v.frame(25_000_000, &vp, &input);
    assert_eq!(out.ticks.count, 2);
    assert_eq!(out.ticks.step_nanos, 10_000_000);
    assert_eq!(v.clock.accumulated_nanos(), 5_000_000);
    assert_eq!(v.camera.position, WorldPoint { x: -200_000, y: 200_000 });
    assert_eq!(v.camera.zoom, 225_000);
    assert_eq!(out.interaction.hover, Some(WorldPoint { x: -200_000, y: 200_000 }));
    assert!(!out.interaction.dragging);
    assert_eq!(out.render.camera.position, v.camera.position);
    assert_eq!(out.render.camera.zoom, 225_000);
    assert_eq!(out.render.circles, placeholder_circles());
    assert!(out.render.rectangles.is_empty());
}
