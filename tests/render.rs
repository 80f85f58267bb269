use raytracer::render::{Canvas, Viewport, RGBA};

const WIDTH: usize = 400;
const HEIGHT: usize = 600;

#[test]
fn test_canvas_new() {
    let canv = Canvas::new(WIDTH, HEIGHT);
    assert_eq!(canv.width, WIDTH);
    assert_eq!(canv.height, HEIGHT);
    assert_eq!(canv.w_max, 200);
}

#[test]
fn test_canvas_get_index() {
    let canv = Canvas::new(WIDTH, HEIGHT);
    assert_eq!(
        canv.get_pixel_flat_index(0, 0),
        (WIDTH * HEIGHT / 2) + WIDTH / 2
    );
}

#[test]
fn test_rgba_add() {
    let rgba_1 = RGBA::new(0, 10, 120, 255);
    let rgba_2 = RGBA::new(120, 60, 120, 253);
    let rgba_3 = rgba_1 + rgba_2;
    assert_eq!(rgba_3.r, 120);
    assert_eq!(rgba_3.g, 70);
    assert_eq!(rgba_3.b, 240);
    assert_eq!(rgba_3.a, 255);
}

#[test]
fn rgba_add_saturates_red_and_sums_green() {
    let c = RGBA::new(200, 10, 0, 0) + RGBA::new(100, 10, 0, 0);
    assert_eq!(c.r, 255);
    assert_eq!(c.g, 20);
    assert_eq!(c.b, 0);
    assert_eq!(c.a, 0);
}

#[test]
fn rgba_add_at_the_limit_does_not_saturate_early() {
    let c = RGBA::new(128, 127, 255, 1) + RGBA::new(127, 127, 0, 255);
    assert_eq!(c, RGBA::new(255, 254, 255, 255));
}

#[test]
fn rgba_scaled_by_two_clamps_to_channel_max() {
    let base = RGBA::new(250, 250, 250, 255);
    let factor = 2.0_f64;
    let c = RGBA::clamped(
        (f64::from(base.r) * factor) as i64,
        (f64::from(base.g) * factor) as i64,
        (f64::from(base.b) * factor) as i64,
        base.a,
    );
    assert_eq!(c, RGBA::new(255, 255, 255, 255));
}

#[test]
fn rgba_clamped_keeps_in_range_values_and_floors_negatives() {
    let c = RGBA::clamped(-3, 0, 127, 9);
    assert_eq!(c, RGBA::new(0, 0, 127, 9));
    let d = RGBA::clamped(i64::MIN, i64::MAX, 255, 0);
    assert_eq!(d, RGBA::new(0, 255, 255, 0));
}

#[test]
fn rgba_unpack_order() {
    assert_eq!(RGBA::new(1, 2, 3, 4).unpack(), [1, 2, 3, 4]);
}

#[test]
fn viewport_new_keeps_sizes() {
    let v = Viewport::new(3, 2, 5);
    assert_eq!(v.width, 3);
    assert_eq!(v.height, 2);
    assert_eq!(v.depth, 5);
}

#[test]
fn canvas_new_is_black_onto_unit_viewport() {
    let canv = Canvas::new(4, 6);
    assert_eq!(canv.h_max, 3);
    assert_eq!(canv.pixels.len(), 24);
    assert!(canv.pixels.iter().all(|p| *p == RGBA::new(0, 0, 0, 0)));
    assert_eq!(canv.viewport, Viewport::new(1, 1, 1));
}

#[test]
fn canvas_corner_indices() {
    let canv = Canvas::new(4, 6);
    // top left corner: row 0
    assert_eq!(canv.get_pixel_flat_index(-2, 3), 0);
    // bottom right corner: last place
    assert_eq!(canv.get_pixel_flat_index(1, -2), 23);
}

#[test]
fn canvas_contains_edges() {
    let canv = Canvas::new(4, 6);
    assert!(canv.contains(-2, 3));
    assert!(canv.contains(1, -2));
    assert!(!canv.contains(2, 0));
    assert!(!canv.contains(-3, 0));
    assert!(!canv.contains(0, 4));
    assert!(!canv.contains(0, -3));
    let empty = Canvas::new(0, 10);
    assert!(!empty.contains(0, 0));
}

#[test]
fn canvas_set_pixel_writes_one_place() {
    let mut canv = Canvas::new(4, 6);
    canv.set_pixel(0, 0, 9, 8, 7, 6);
    let index = canv.get_pixel_flat_index(0, 0);
    assert_eq!(index, 14);
    for (i, p) in canv.pixels.iter().enumerate() {
        if i == index {
            assert_eq!(*p, RGBA::new(9, 8, 7, 6));
        } else {
            assert_eq!(*p, RGBA::new(0, 0, 0, 0));
        }
    }
}

#[test]
fn canvas_set_pixel_from_rgba_then_render() {
    let mut canv = Canvas::new(2, 2);
    canv.set_pixel_from_rgba(-1, 1, &RGBA::new(1, 2, 3, 4));
    canv.set_pixel_from_rgba(0, 0, &RGBA::new(5, 6, 7, 8));
    let bytes = canv.render();
    assert_eq!(
        bytes,
        vec![1, 2, 3, 4, 0, 0, 0, 0, 0, 0, 0, 0, 5, 6, 7, 8]
    );
}

#[test]
fn canvas_render_empty() {
    let canv = Canvas::new(0, 0);
    assert!(canv.render().is_empty());
}
