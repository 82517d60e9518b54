use vstd::prelude::*;
use crate::face::{dark_blue, dark_blue_rgba, dark_red, dark_red_rgba};

verus! {

/// Seconds that the creature stays shy before it may turn hunter.
pub const CHANGE_TIME: u64 = 60;

/// The creature's discrete state.
///
/// `grab_mode`: it hunts the cursor instead of fleeing from it.
/// `is_grab`: while hunting, it has caught the cursor and holds it.
/// `is_click`: the mouse button went down on it and has not been released.
#[derive(Clone, Copy, Debug, PartialEq, Eq, Structural)]
pub struct Mood {
    pub grab_mode: bool,
    pub is_grab: bool,
    pub is_click: bool,
}

/// How the window moves in one frame.
#[derive(Clone, Copy, Debug, PartialEq, Eq, Structural)]
pub enum Motion {
    /// Hunting: move towards the cursor.
    Chase,
    /// Hunting, cursor caught: pin the cursor to the window's middle and
    /// wander within the screen.
    HoldCursor,
    /// Hunting, cursor reached: catch it, and refill the click and escape
    /// gauges.
    Capture,
    /// Shy: carry on with the dash in progress.
    Dash,
    /// Shy: move away from the nearby cursor.
    Flee,
    /// Shy, cursor far away: wander, possibly off the screen.
    Wander,
}

/// What a request to close the window comes to.
#[derive(Clone, Copy, Debug, PartialEq, Eq, Structural)]
pub enum CloseResponse {
    /// The window closes.
    Close,
    /// Alt+F4: the window closes only once the escape gauge is empty;
    /// `wounded` says whether this request drains the gauge first.
    Resist { wounded: bool },
}

/// The colour of eyes and brows in a given mode: red when hunting, blue when
/// shy.
pub open spec fn mode_color(grab_mode: bool) -> Seq<u8> {
    if grab_mode {
        dark_red_rgba()
    } else {
        dark_blue_rgba()
    }
}

/// `true` when a motion drops the current wandering heading.
pub open spec fn spec_forgets_heading(motion: Motion) -> bool {
    motion is Dash || motion is Flee
}

/// Says whether a motion drops the current wandering heading: fleeing and
/// dashing do.
pub fn forgets_heading(motion: Motion) -> (forgets: bool)
    ensures
        forgets == spec_forgets_heading(motion),
{
    match motion {
        Motion::Dash | Motion::Flee => true,
        _ => false,
    }
}

impl Mood {
    /// The mood at start: shy, holding nothing, no button down.
    pub fn new() -> (mood: Mood)
        ensures
            !mood.grab_mode,
            !mood.is_grab,
            !mood.is_click,
    {
        Mood { grab_mode: false, is_grab: false, is_click: false }
    }

    /// `true` when the mode timer has run out for a shy creature.
    pub open spec fn spec_mode_timer_due(self, mode_secs: u64) -> bool {
        !self.grab_mode && mode_secs > CHANGE_TIME
    }

    /// The mood after the mode timer, read as `mode_secs` seconds, is
    /// checked and a coin tossed for it.
    pub open spec fn after_mode_tick(self, mode_secs: u64, coin: bool) -> Mood {
        if self.spec_mode_timer_due(mode_secs) && coin {
            Mood { grab_mode: true, is_grab: false, ..self }
        } else {
            self
        }
    }

    /// Says whether a shy creature has been shy for longer than
    /// `CHANGE_TIME` seconds, so that a coin decides whether it turns hunter.
    pub fn mode_timer_due(&self, mode_secs: u64) -> (due: bool)
        ensures
            due == self.spec_mode_timer_due(mode_secs),
    {
        !self.grab_mode && mode_secs > CHANGE_TIME
    }

    /// Checks the mode timer: when it has run out for a shy creature, a coin
    /// that comes up `true` turns it hunter with nothing caught, and the
    /// timer restarts either way. Returns whether the timer restarts.
    pub fn tick_mode(&mut self, mode_secs: u64, coin: bool) -> (restart: bool)
        ensures
            restart == old(self).spec_mode_timer_due(mode_secs),
            *final(self) == old(self).after_mode_tick(mode_secs, coin),
    {
        if !self.grab_mode && mode_secs > CHANGE_TIME {
            if coin {
                self.grab_mode = true;
                self.is_grab = false;
            }
            true
        } else {
            false
        }
    }

    /// `true` when a button state `button` seen with the cursor on the
    /// window or not lands a click.
    pub open spec fn press_hits(self, button: bool, on_window: bool) -> bool {
        !self.is_click && button && on_window
    }

    /// The mood after a button state is seen.
    pub open spec fn after_press(self, button: bool, on_window: bool) -> Mood {
        if !button {
            Mood { is_click: false, ..self }
        } else if self.press_hits(button, on_window) {
            Mood { is_click: true, ..self }
        } else {
            self
        }
    }

    /// Takes in the mouse button's state: a press that starts on the window
    /// lands one click, which stays spent until the button is released.
    /// Returns whether a click landed.
    pub fn press(&mut self, button: bool, on_window: bool) -> (hit: bool)
        ensures
            hit == old(self).press_hits(button, on_window),
            *final(self) == old(self).after_press(button, on_window),
    {
        let mut hit = false;
        if !self.is_click && button && on_window {
            self.is_click = true;
            hit = true;
        }
        if !button {
            self.is_click = false;
        }
        hit
    }

    /// A hunter whose click gauge has run out (`worn_out`) gives up and turns
    /// shy. Returns whether it did, in which case the mode timer restarts and
    /// both gauges refill.
    pub fn give_up(&mut self, worn_out: bool) -> (released: bool)
        ensures
            released == (worn_out && old(self).grab_mode),
            released ==> *final(self) == (Mood { grab_mode: false, ..*old(self) }),
            !released ==> *final(self) == *old(self),
    {
        if worn_out && self.grab_mode {
            self.grab_mode = false;
            true
        } else {
            false
        }
    }

    /// The colour of eyes and brows for this mood.
    pub fn eye_color(&self) -> (color: [u8; 4])
        ensures
            color@ == mode_color(self.grab_mode),
    {
        if self.grab_mode {
            dark_red()
        } else {
            dark_blue()
        }
    }

    /// The motion chosen for this mood, given whether the cursor is beyond
    /// the catching distance, whether it is within the fleeing distance, and
    /// whether a dash is in progress.
    pub open spec fn spec_motion(self, beyond_grab_reach: bool, within_flee_range: bool, dashing: bool) -> Motion {
        if self.grab_mode {
            if beyond_grab_reach && !self.is_grab {
                Motion::Chase
            } else if self.is_grab {
                Motion::HoldCursor
            } else {
                Motion::Capture
            }
        } else if within_flee_range || dashing {
            if dashing {
                Motion::Dash
            } else {
                Motion::Flee
            }
        } else {
            Motion::Wander
        }
    }

    /// Chooses this frame's motion and, when the cursor is caught, records
    /// that it is held.
    pub fn step_motion(&mut self, beyond_grab_reach: bool, within_flee_range: bool, dashing: bool) -> (motion: Motion)
        ensures
            motion == old(self).spec_motion(beyond_grab_reach, within_flee_range, dashing),
            motion is Capture ==> *final(self) == (Mood { is_grab: true, ..*old(self) }),
            !(motion is Capture) ==> *final(self) == *old(self),
            old(self).grab_mode ==> (motion is Chase || motion is HoldCursor || motion is Capture),
            !old(self).grab_mode ==> (motion is Dash || motion is Flee || motion is Wander),
    {
        if self.grab_mode {
            if beyond_grab_reach && !self.is_grab {
                Motion::Chase
            } else if self.is_grab {
                Motion::HoldCursor
            } else {
                self.is_grab = true;
                Motion::Capture
            }
        } else if within_flee_range || dashing {
            if dashing {
                Motion::Dash
            } else {
                Motion::Flee
            }
        } else {
            Motion::Wander
        }
    }

    /// What a request to close the window comes to. Without Alt held it
    /// closes the window; Alt+F4 only drains the escape gauge, and only while
    /// a hunter has the cursor on it.
    pub fn close_response(&self, alt_held: bool, on_window: bool) -> (response: CloseResponse)
        ensures
            response == (if alt_held {
                CloseResponse::Resist { wounded: on_window && self.grab_mode }
            } else {
                CloseResponse::Close
            }),
    {
        if alt_held {
            CloseResponse::Resist { wounded: on_window && self.grab_mode }
        } else {
            CloseResponse::Close
        }
    }
}

} // verus!

verus! {

/// A press lands at most one click: once a click has landed, no further
/// click lands while the button stays down, wherever the cursor goes.
pub proof fn lemma_one_click_per_press(mood: Mood, on_window: bool, later_on_window: bool)
    requires
        mood.press_hits(true, on_window),
    ensures
        mood.after_press(true, on_window).is_click,
        !mood.after_press(true, on_window).press_hits(true, later_on_window),
        mood.after_press(true, on_window).after_press(true, later_on_window).is_click,
{
}

/// Releasing the button re-arms it: the next press on the window lands.
pub proof fn lemma_release_rearms(mood: Mood, on_window: bool)
    ensures
        mood.after_press(false, on_window).press_hits(true, true),
{
}

/// Once the cursor is caught it stays held: after a capture, every motion is
/// holding the cursor, whatever the distances, until the hunter gives up.
pub proof fn lemma_capture_then_hold(
    mood: Mood,
    beyond: bool,
    within: bool,
    dashing: bool,
    later_beyond: bool,
    later_within: bool,
    later_dashing: bool,
)
    requires
        mood.spec_motion(beyond, within, dashing) is Capture,
    ensures
        (Mood { is_grab: true, ..mood }).spec_motion(later_beyond, later_within, later_dashing)
            is HoldCursor,
{
}

/// A hunter stays a hunter until it gives up: the mode timer never turns it
/// shy.
pub proof fn lemma_hunter_keeps_mode(mood: Mood, mode_secs: u64, coin: bool)
    requires
        mood.grab_mode,
    ensures
        mood.after_mode_tick(mode_secs, coin) == mood,
{
}

/// A shy creature turns hunter only once it has been shy for longer than
/// `CHANGE_TIME` seconds and the coin comes up `true`.
pub proof fn lemma_hunting_starts_by_timer(mood: Mood, mode_secs: u64, coin: bool)
    requires
        !mood.grab_mode,
        mood.after_mode_tick(mode_secs, coin).grab_mode,
    ensures
        mode_secs > CHANGE_TIME,
        coin,
        !mood.after_mode_tick(mode_secs, coin).is_grab,
{
}

} // verus!

verus! {

/// A shy creature's motion ignores the catching distance: it dashes while a
/// dash is in progress, otherwise flees from a cursor within fleeing range,
/// and otherwise wanders.
pub proof fn lemma_shy_motion(mood: Mood, beyond: bool, within: bool, dashing: bool)
    requires
        !mood.grab_mode,
    ensures
        dashing ==> mood.spec_motion(beyond, within, dashing) == Motion::Dash,
        !dashing && within ==> mood.spec_motion(beyond, within, dashing) == Motion::Flee,
        !dashing && !within ==> mood.spec_motion(beyond, within, dashing) == Motion::Wander,
        mood.spec_motion(beyond, within, dashing) == mood.spec_motion(!beyond, within, dashing),
{
}

/// A hunter's motion ignores the fleeing distance and any dash: holding a
/// caught cursor, it keeps holding it; otherwise it chases a cursor beyond
/// the catching distance and catches one within it.
pub proof fn lemma_hunter_motion(mood: Mood, beyond: bool, within: bool, dashing: bool)
    requires
        mood.grab_mode,
    ensures
        mood.is_grab ==> mood.spec_motion(beyond, within, dashing) == Motion::HoldCursor,
        !mood.is_grab && beyond ==> mood.spec_motion(beyond, within, dashing) == Motion::Chase,
        !mood.is_grab && !beyond ==> mood.spec_motion(beyond, within, dashing) == Motion::Capture,
        mood.spec_motion(beyond, within, dashing) == mood.spec_motion(beyond, !within, !dashing),
{
}

/// The mode timer fires for every shy creature, whatever it holds and
/// whatever the button does, once more than `CHANGE_TIME` seconds have
/// passed, and never before; when it fires, a `true` coin makes a hunter
/// with nothing caught and leaves the button state alone, a `false` coin
/// changes nothing.
pub proof fn lemma_mode_timer(mood: Mood, mode_secs: u64, coin: bool)
    requires
        !mood.grab_mode,
    ensures
        mood.spec_mode_timer_due(mode_secs) == (mode_secs > 60),
        mode_secs > 60 && coin ==> mood.after_mode_tick(mode_secs, coin) == (Mood {
            grab_mode: true,
            is_grab: false,
            is_click: mood.is_click,
        }),
        !(mode_secs > 60 && coin) ==> mood.after_mode_tick(mode_secs, coin) == mood,
{
}

/// Clicks land only on the window, in every mode: a press lands exactly when
/// the button is down, the cursor is on the window and no click of the same
/// press has landed yet. Seeing the button changes only `is_click`: down on
/// the window it becomes set, up it becomes clear, and a press held off the
/// window leaves it as it was.
pub proof fn lemma_clicks_land_on_window(mood: Mood, button: bool, on_window: bool)
    ensures
        mood.press_hits(button, on_window) == (button && on_window && !mood.is_click),
        !on_window ==> !mood.press_hits(button, on_window),
        mood.after_press(button, on_window).grab_mode == mood.grab_mode,
        mood.after_press(button, on_window).is_grab == mood.is_grab,
        !button ==> !mood.after_press(button, on_window).is_click,
        button && on_window ==> mood.after_press(button, on_window).is_click,
        button && !on_window ==> mood.after_press(button, on_window).is_click == mood.is_click,
{
}

/// The eyes are red `77 00 06 FF` for a hunter and blue `06 00 77 FF` for a
/// shy creature.
pub proof fn lemma_eye_colors(grab_mode: bool)
    ensures
        grab_mode ==> mode_color(grab_mode) == seq![0x77u8, 0x00u8, 0x06u8, 0xFFu8],
        !grab_mode ==> mode_color(grab_mode) == seq![0x06u8, 0x00u8, 0x77u8, 0xFFu8],
{
}

/// Fleeing and dashing drop the wandering heading; every other motion keeps
/// it.
pub proof fn lemma_heading_dropped_by_flight(motion: Motion)
    ensures
        spec_forgets_heading(motion) <==> (motion == Motion::Dash || motion == Motion::Flee),
{
}

} // verus!
