use cuty_window::behavior::{
    alt_held, cursor_offset, cursor_on_window, is_windows_11_build, offscreen_bounce, plan_flee,
    window_center, window_extent, Bounce, FleePlan, Key,
};

#[test]
fn cursor_on_window_includes_edges() {
    assert!(cursor_on_window(100, 50, 100, 50, 320, 240));
    assert!(cursor_on_window(420, 290, 100, 50, 320, 240));
    assert!(!cursor_on_window(421, 290, 100, 50, 320, 240));
    assert!(!cursor_on_window(99, 60, 100, 50, 320, 240));
    assert!(!cursor_on_window(200, 291, 100, 50, 320, 240));
}

#[test]
fn center_and_offset() {
    assert_eq!(window_center(100, 50, 320, 240), (260, 170));
    assert_eq!(window_center(-10, 0, 5, 3), (-8, 1));
    let (cx, cy) = window_center(100, 50, 320, 240);
    assert!(cursor_on_window(cx, cy, 100, 50, 320, 240));
    assert_eq!(cursor_offset(300, 100, cx, cy), (40, -70));
    assert_eq!(cursor_offset(cx, cy, cx, cy), (0, 0));
}

#[test]
fn flee_on_screen_follows_cursor() {
    assert_eq!(
        plan_flee(12, -7, 500, 400, 1920, 1080),
        FleePlan { move_x: 12, move_y: -7, start_dash: false }
    );
}

#[test]
fn flee_off_screen_drops_axis() {
    assert_eq!(
        plan_flee(12, -7, -1, 400, 1920, 1080),
        FleePlan { move_x: 0, move_y: -7, start_dash: false }
    );
    assert_eq!(
        plan_flee(12, -7, 1921, 1081, 1920, 1080),
        FleePlan { move_x: 0, move_y: 0, start_dash: true }
    );
    // the edge of the monitor still counts as on it
    assert_eq!(
        plan_flee(12, -7, 1920, 0, 1920, 1080),
        FleePlan { move_x: 12, move_y: -7, start_dash: false }
    );
}

#[test]
fn cursor_at_center_dashes() {
    assert!(plan_flee(0, 0, 500, 400, 1920, 1080).start_dash);
}

#[test]
fn bounce_beyond_margin() {
    assert_eq!(
        offscreen_bounce(false, -201, 500, 1920, 1080),
        Bounce { flip_x: true, flip_y: false, turned: true }
    );
    assert_eq!(
        offscreen_bounce(false, -200, 1281, 1920, 1080),
        Bounce { flip_x: false, flip_y: true, turned: true }
    );
    assert_eq!(
        offscreen_bounce(false, 2121, -500, 1920, 1080),
        Bounce { flip_x: true, flip_y: true, turned: true }
    );
    assert_eq!(
        offscreen_bounce(false, 2120, 1280, 1920, 1080),
        Bounce { flip_x: false, flip_y: false, turned: false }
    );
}

#[test]
fn turned_heading_never_bounces_again() {
    let first = offscreen_bounce(false, -300, 100, 1920, 1080);
    assert!(first.turned);
    assert_eq!(
        offscreen_bounce(first.turned, -400, -400, 1920, 1080),
        Bounce { flip_x: false, flip_y: false, turned: true }
    );
}

#[test]
fn alt_detection() {
    assert!(!alt_held(&[]));
    assert!(!alt_held(&[Key::Other, Key::Other]));
    assert!(alt_held(&[Key::Other, Key::LeftAlt]));
    assert!(alt_held(&[Key::RightAlt]));
}

#[test]
fn extent_scales() {
    assert_eq!(window_extent(4), (320, 240));
    assert_eq!(window_extent(1), (80, 60));
}

#[test]
fn windows_11_threshold() {
    assert!(!is_windows_11_build(19045));
    assert!(is_windows_11_build(22000));
    assert!(is_windows_11_build(22631));
}
