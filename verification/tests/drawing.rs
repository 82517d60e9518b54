use cuty_window::canvas::{draw_box, draw_circle};
use cuty_window::face::{
    background, dark_blue, dark_red, draw_face, pink, white_red, FRAME_LEN, PIXEL_BYTES,
    PIXEL_HEIGHT, PIXEL_WIDTH,
};

fn pixel_at(frame: &[u8], x: usize, y: usize) -> &[u8] {
    let p = (y * PIXEL_WIDTH as usize + x) * PIXEL_BYTES;
    &frame[p..p + PIXEL_BYTES]
}

#[test]
fn circle_paints_inside() {
    let mut px = [1u8, 2, 3, 4];
    assert!(draw_circle(&mut px, &[9, 8, 7, 6], 3, 4, 0, 0, 6));
    assert_eq!(px, [9, 8, 7, 6]);
}

#[test]
fn circle_rim_is_outside() {
    // 3-4-5 triangle: distance exactly 5 is not strictly inside radius 5
    let mut px = [1u8, 2, 3, 4];
    assert!(!draw_circle(&mut px, &[9, 8, 7, 6], 3, 4, 0, 0, 5));
    assert_eq!(px, [1, 2, 3, 4]);
}

#[test]
fn circle_outside_ignores_color_length() {
    let mut px = [1u8, 2, 3, 4];
    assert!(!draw_circle(&mut px, &[9], 50, 50, 0, 0, 5));
    assert_eq!(px, [1, 2, 3, 4]);
}

#[test]
fn box_interior_is_open() {
    let mut px = [0u8; 4];
    let c = [5u8, 5, 5, 5];
    // edges of the box do not count
    assert!(!draw_box(&mut px, &c, 10, 19, 10, 18, 20, 4));
    assert!(!draw_box(&mut px, &c, 30, 19, 10, 18, 20, 4));
    assert!(!draw_box(&mut px, &c, 11, 18, 10, 18, 20, 4));
    assert!(!draw_box(&mut px, &c, 11, 22, 10, 18, 20, 4));
    assert_eq!(px, [0, 0, 0, 0]);
    assert!(draw_box(&mut px, &c, 11, 19, 10, 18, 20, 4));
    assert!(draw_box(&mut px, &c, 29, 21, 10, 18, 20, 4));
    assert_eq!(px, c);
}

#[test]
fn palette_values() {
    assert_eq!(background(), [0xB8, 0xB8, 0xB8, 0x80]);
    assert_eq!(dark_blue(), [0x06, 0x00, 0x77, 0xFF]);
    assert_eq!(dark_red(), [0x77, 0x00, 0x06, 0xFF]);
    assert_eq!(white_red(), [0xff, 0xf0, 0xf0, 0xFF]);
    assert_eq!(pink(), [0xFF, 0x30, 0x60, 0xFF]);
}

#[test]
fn face_layout_with_centered_gaze() {
    let mut frame = vec![7u8; FRAME_LEN];
    let color = dark_blue();
    draw_face(&mut frame, &color, 40, 30, 100);
    // eye centres
    assert_eq!(pixel_at(&frame, 20, 30), &color);
    assert_eq!(pixel_at(&frame, 60, 30), &color);
    // inside the eye radius, and just outside it
    assert_eq!(pixel_at(&frame, 24, 30), &color);
    assert_eq!(pixel_at(&frame, 25, 30), &background());
    // brows
    assert_eq!(pixel_at(&frame, 11, 19), &color);
    assert_eq!(pixel_at(&frame, 69, 21), &color);
    assert_eq!(pixel_at(&frame, 10, 19), &background());
    // between the eyes
    assert_eq!(pixel_at(&frame, 40, 30), &background());
    // nothing of the old frame remains
    assert!(frame.chunks_exact(4).all(|c| c == color || c == background()));
}

#[test]
fn face_is_mirror_symmetric_with_centered_gaze() {
    let mut frame = vec![0u8; FRAME_LEN];
    draw_face(&mut frame, &dark_red(), 40, 28, 45);
    for y in 0..PIXEL_HEIGHT as usize {
        for x in 1..PIXEL_WIDTH as usize {
            assert_eq!(pixel_at(&frame, x, y), pixel_at(&frame, 80 - x, y));
        }
    }
}

#[test]
fn gaze_moves_the_eyes() {
    let mut frame = vec![0u8; FRAME_LEN];
    let color = dark_red();
    draw_face(&mut frame, &color, 45, 35, 100);
    assert_eq!(pixel_at(&frame, 25, 35), &color);
    assert_eq!(pixel_at(&frame, 65, 35), &color);
    assert_eq!(pixel_at(&frame, 16, 30), &background());
    // brows stay put
    assert_eq!(pixel_at(&frame, 11, 19), &color);
}

#[test]
fn rows_below_waterline_are_pink() {
    let mut frame = vec![0u8; FRAME_LEN];
    let color = white_red();
    draw_face(&mut frame, &color, 40, 30, 50);
    assert_eq!(pixel_at(&frame, 0, 50), &background());
    assert_eq!(pixel_at(&frame, 0, 51), &pink());
    assert_eq!(pixel_at(&frame, 79, 59), &pink());
    // features are drawn over the pink
    draw_face(&mut frame, &color, 40, 30, -1);
    assert_eq!(pixel_at(&frame, 0, 0), &pink());
    assert_eq!(pixel_at(&frame, 20, 30), &color);
}

#[test]
fn redrawing_gives_the_same_frame() {
    let mut a = vec![0u8; FRAME_LEN];
    let mut b = vec![255u8; FRAME_LEN];
    draw_face(&mut a, &dark_blue(), 37, 33, 20);
    draw_face(&mut b, &dark_blue(), 37, 33, 20);
    assert_eq!(a, b);
}

#[test]
fn circle_test_depends_on_offset_only() {
    let c = [1u8, 2, 3, 4];
    for (dx, dy) in [(0i16, 0i16), (13, -7), (-40, 25)] {
        for (x, y) in [(3i16, 4i16), (4, 4), (0, 6), (2, 2)] {
            let mut a = [0u8; 4];
            let mut b = [0u8; 4];
            let mut s = [0u8; 4];
            let here = draw_circle(&mut a, &c, x, y, 0, 0, 5);
            let moved = draw_circle(&mut b, &c, x + dx, y + dy, dx, dy, 5);
            let swapped = draw_circle(&mut s, &c, 0, 0, x, y, 5);
            assert_eq!(here, moved);
            assert_eq!(here, swapped);
        }
    }
}

#[test]
fn circle_radius_sign_and_growth() {
    let c = [1u8, 2, 3, 4];
    let mut px = [0u8; 4];
    assert!(!draw_circle(&mut px, &c, 0, 0, 0, 0, 0));
    assert_eq!(px, [0, 0, 0, 0]);
    assert!(draw_circle(&mut px, &c, 3, 4, 0, 0, -6));
    assert!(!draw_circle(&mut px, &c, 3, 4, 0, 0, 4));
    assert!(draw_circle(&mut px, &c, 3, 4, 0, 0, 9));
}

#[test]
fn box_test_depends_on_offset_only() {
    let c = [1u8, 2, 3, 4];
    for (x, y) in [(11i16, 19i16), (10, 19), (29, 21), (30, 21)] {
        let mut a = [0u8; 4];
        let mut b = [0u8; 4];
        assert_eq!(
            draw_box(&mut a, &c, x, y, 10, 18, 20, 4),
            draw_box(&mut b, &c, x - 7, y + 5, 3, 23, 20, 4)
        );
    }
}
