use cuty_window::face::{dark_blue, dark_red};
use cuty_window::mood::{forgets_heading, CloseResponse, Mood, Motion};

#[test]
fn starts_shy() {
    let m = Mood::new();
    assert_eq!(m, Mood { grab_mode: false, is_grab: false, is_click: false });
    assert_eq!(m.eye_color(), dark_blue());
}

#[test]
fn timer_and_coin_decide_hunting() {
    let mut m = Mood::new();
    assert!(!m.mode_timer_due(60));
    assert!(!m.tick_mode(60, true));
    assert!(!m.grab_mode);
    assert!(m.mode_timer_due(61));
    assert!(m.tick_mode(61, false));
    assert!(!m.grab_mode);
    assert!(m.tick_mode(61, true));
    assert!(m.grab_mode && !m.is_grab);
    assert_eq!(m.eye_color(), dark_red());
    // a hunter's timer is not checked
    assert!(!m.mode_timer_due(1000));
    assert!(!m.tick_mode(1000, true));
}

#[test]
fn one_click_per_press() {
    let mut m = Mood::new();
    assert!(m.press(true, true));
    assert!(!m.press(true, true));
    assert!(!m.press(true, false));
    assert!(!m.press(false, true));
    assert!(m.press(true, true));
}

#[test]
fn press_that_starts_off_window_counts_when_it_arrives() {
    let mut m = Mood::new();
    assert!(!m.press(true, false));
    assert!(m.press(true, true));
}

#[test]
fn hunting_motions() {
    let mut m = Mood { grab_mode: true, is_grab: false, is_click: false };
    assert_eq!(m.step_motion(true, false, false), Motion::Chase);
    assert_eq!(m.step_motion(false, true, true), Motion::Capture);
    assert!(m.is_grab);
    assert_eq!(m.step_motion(true, false, false), Motion::HoldCursor);
    assert_eq!(m.step_motion(false, true, true), Motion::HoldCursor);
}

#[test]
fn shy_motions() {
    let mut m = Mood::new();
    assert_eq!(m.step_motion(true, false, false), Motion::Wander);
    assert_eq!(m.step_motion(false, true, false), Motion::Flee);
    assert_eq!(m.step_motion(false, true, true), Motion::Dash);
    assert_eq!(m.step_motion(false, false, true), Motion::Dash);
    assert_eq!(m, Mood::new());
    assert!(forgets_heading(Motion::Dash));
    assert!(forgets_heading(Motion::Flee));
    assert!(!forgets_heading(Motion::Wander));
    assert!(!forgets_heading(Motion::HoldCursor));
}

#[test]
fn giving_up() {
    let mut m = Mood { grab_mode: true, is_grab: true, is_click: true };
    assert!(!m.give_up(false));
    assert!(m.grab_mode);
    assert!(m.give_up(true));
    assert_eq!(m, Mood { grab_mode: false, is_grab: true, is_click: true });
    assert!(!m.give_up(true));
}

#[test]
fn close_requests() {
    let shy = Mood::new();
    let hunter = Mood { grab_mode: true, is_grab: true, is_click: false };
    assert_eq!(shy.close_response(false, true), CloseResponse::Close);
    assert_eq!(hunter.close_response(false, true), CloseResponse::Close);
    assert_eq!(shy.close_response(true, true), CloseResponse::Resist { wounded: false });
    assert_eq!(hunter.close_response(true, false), CloseResponse::Resist { wounded: false });
    assert_eq!(hunter.close_response(true, true), CloseResponse::Resist { wounded: true });
}
