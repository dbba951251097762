//! The integration engine of a Lorenz attractor simulation: the run
//! configuration, the bounded trail of visited points, the instability
//! guard, and the decisions of each update tick.
//!
//! Real numbers cross this library's boundary as IEEE 754 encodings, sixty-four
//! bits for a coordinate or a coefficient and thirty-two for a hue. The
//! library moves, orders and classifies them; arithmetic on them is the
//! caller's. Every function here is verified against its contract.

use vstd::prelude::*;

pub mod binary64;
pub mod config;
pub mod lorenz;
pub mod tick;
pub mod trail;

verus! {

} // verus!
