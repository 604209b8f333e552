//! Core logic of a network-connected LED-matrix sign.
//!
//! The crate verifies the scheduling heart of the firmware: the button press
//! classifier, the app controller (which app is active, and how switches
//! happen), and the display arbitration engine (priority-ordered render
//! queues, scrolling text and cooperative cancellation). Hardware access,
//! Wi-Fi, and the MQTT wire client are external collaborators; only their
//! decisions are modelled here.

pub mod apps;
pub mod brightness;
pub mod buttons;
pub mod clock;
pub mod color;
pub mod controller;
pub mod display;
pub mod engine;
pub mod fonts;
pub mod frame;
pub mod mqtt;
pub mod parse;
pub mod queue;
pub mod request;

use vstd::prelude::*;

verus! {

/// Width of the physical pixel matrix.
pub const DISPLAY_WIDTH: usize = 53;

/// Height of the physical pixel matrix.
pub const DISPLAY_HEIGHT: usize = 11;

} // verus!
