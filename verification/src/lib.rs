//! Control logic of a garage: a door driven through three relay lines, the
//! fill level of a water cistern, and the decisions behind the small network
//! interface that exposes both.
//!
//! Nothing in this crate touches hardware. Every operation takes plain values
//! that a driver has read and answers with plain values for the driver to act
//! on, so that each rule can be stated and proved.

use vstd::prelude::*;

pub mod api;
pub mod cistern;
pub mod door;
pub mod relay;
pub mod sampler;
pub mod speakers;
pub mod text;

pub use crate::door::GarageDoor;

verus! {

/// Pin of the first relay input.
pub const RELAY_IN1_PIN: u8 = 3;

/// Pin of the second relay input.
pub const RELAY_IN2_PIN: u8 = 4;

/// Pin of the third relay input.
pub const RELAY_IN3_PIN: u8 = 5;

/// Pin of the fourth relay input.
pub const RELAY_IN4_PIN: u8 = 6;

} // verus!
