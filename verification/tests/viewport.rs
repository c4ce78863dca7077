use christmas_tree::geometry::UNIT;
use christmas_tree::viewport::{layout, SizeLimits, Transform, Viewport};

const PIXEL: u64 = UNIT as u64;

fn view(width: u64, height: u64) -> Viewport {
    Viewport { width, height }
}

#[test]
fn wide_viewport_is_pillarboxed() {
    let t = Transform::fit(view(1200 * PIXEL, 600 * PIXEL));
    assert_eq!(t.scale, PIXEL);
    assert_eq!(t.offset_x, 300 * PIXEL);
    assert_eq!(t.offset_y, 0);
}

#[test]
fn tall_viewport_is_letterboxed() {
    let t = Transform::fit(view(300 * PIXEL, 600 * PIXEL));
    assert_eq!(t.scale, PIXEL / 2);
    assert_eq!(t.offset_x, 0);
    assert_eq!(t.offset_y, 150 * PIXEL);
}

#[test]
fn design_sized_viewport_is_left_alone() {
    let t = Transform::fit(view(600 * PIXEL, 600 * PIXEL));
    assert_eq!(t, Transform { scale: PIXEL, offset_x: 0, offset_y: 0 });
}

#[test]
fn larger_square_viewport_scales_up() {
    let t = Transform::fit(view(1800 * PIXEL, 1800 * PIXEL));
    assert_eq!(t, Transform { scale: 3 * PIXEL, offset_x: 0, offset_y: 0 });
}

#[test]
fn scale_is_rounded_down_and_offsets_are_halved() {
    // 1000 / 600 is 1 and 801 / 600 is 1: the scene takes 600 sub-units.
    let t = Transform::fit(view(1000, 801));
    assert_eq!(t, Transform { scale: 1, offset_x: 200, offset_y: 100 });
    let t = Transform::fit(view(1799, 1200));
    assert_eq!(t, Transform { scale: 2, offset_x: 299, offset_y: 0 });
}

#[test]
fn degenerate_viewports_give_scale_zero() {
    assert_eq!(Transform::fit(view(0, 0)), Transform { scale: 0, offset_x: 0, offset_y: 0 });
    assert_eq!(Transform::fit(view(599, 599)), Transform { scale: 0, offset_x: 299, offset_y: 299 });
    assert_eq!(
        Transform::fit(view(0, 600 * PIXEL)),
        Transform { scale: 0, offset_x: 0, offset_y: 300 * PIXEL }
    );
}

#[test]
fn largest_viewport_does_not_overflow() {
    let t = Transform::fit(view(u64::MAX, u64::MAX));
    assert_eq!(t.scale, u64::MAX / 600);
    assert_eq!(t.offset_x, (u64::MAX - 600 * (u64::MAX / 600)) / 2);
    assert_eq!(t.offset_x, t.offset_y);
    let t = Transform::fit(view(u64::MAX, 600));
    assert_eq!(t.scale, 1);
    assert_eq!(t.offset_x, (u64::MAX - 600) / 2);
    assert_eq!(t.offset_y, 0);
}

#[test]
fn fitted_scene_stays_inside_the_viewport() {
    let sizes = [0u64, 1, 599, 600, 601, 1199, 1200, 5 * PIXEL, 333 * PIXEL + 7, 4096 * PIXEL];
    for w in sizes {
        for h in sizes {
            let t = Transform::fit(view(w, h));
            let side = 600 * t.scale;
            assert!(t.offset_x + side <= w);
            assert!(t.offset_y + side <= h);
            assert!(w - side - 2 * t.offset_x <= 1);
            assert!(h - side - 2 * t.offset_y <= 1);
            assert!(w.min(h) - side < 600);
        }
    }
}

#[test]
fn layout_takes_all_available_space() {
    let limits = SizeLimits { min: view(0, 0), max: view(800 * PIXEL, 450 * PIXEL) };
    assert_eq!(layout(limits), view(800 * PIXEL, 450 * PIXEL));
    let tight = SizeLimits { min: view(10, 20), max: view(10, 20) };
    assert_eq!(layout(tight), view(10, 20));
    let unbounded = SizeLimits { min: (0u32, 0u32), max: (u32::MAX, u32::MAX) };
    assert_eq!(layout(unbounded), (u32::MAX, u32::MAX));
}
