//! Lifecycle logic of a single-window real-time application: where the window
//! opens, how settings persist its geometry, how frame time is measured and when
//! the main loop stops.

pub mod geometry;
pub mod json;
pub mod settings;
pub mod frame_clock;
pub mod session;
