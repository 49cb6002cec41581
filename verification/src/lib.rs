//! Screen-input automation core: moves the system pointer, performs clicks
//! and calibrated drag gestures, reads the pointer position, prepares screen
//! captures as base64-encoded bytes, and reads text from the system
//! clipboard.
//!
//! Every gesture is first laid out as a plan of primitive steps with its
//! mandatory settle times; a host drives the plan, performing the waits,
//! while the pointer primitives themselves run through this crate.

pub mod capture;
pub mod clipboard;
pub mod driver;
pub mod geometry;
pub mod plan;
pub mod sequencer;
pub mod text;
