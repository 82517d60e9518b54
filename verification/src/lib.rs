//! The decisions and drawing of a small desktop creature: a borderless window
//! with a pixel-art face that flees from the mouse cursor, and that now and
//! then turns around and grabs it instead.
//!
//! This crate holds the parts that are plain integer and boolean logic:
//! drawing the face into an RGBA frame, deciding how the window moves, and
//! the small state machines for clicks, mode changes and close requests.
//! Window handling, input polling, randomness and the floating-point motion
//! live with the program that drives it.

pub mod canvas;
pub mod face;
pub mod behavior;
pub mod mood;
pub mod icon;

