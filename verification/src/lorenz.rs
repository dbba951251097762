//! The phase-space point of the trajectory and the coefficients of the
//! dynamics, each scalar held as its binary64 encoding.

use crate::binary64::{is_finite, ONE};
use vstd::prelude::*;

verus! {

/// The point (x, y, z) of the trajectory in phase space.
#[derive(Clone, Copy, Debug, PartialEq, Eq, Structural)]
pub struct LorenzState {
    pub x: u64,
    pub y: u64,
    pub z: u64,
}

/// A position in rendering space: the vertical axis of the display is the
/// z axis of phase space.
#[derive(Clone, Copy, Debug, PartialEq, Eq, Structural)]
pub struct Position {
    pub x: u64,
    pub y: u64,
    pub z: u64,
}

/// The coefficients sigma, rho and beta, as one tick sees them.
#[derive(Clone, Copy, Debug, PartialEq, Eq, Structural)]
pub struct LorenzParams {
    pub sigma: u64,
    pub rho: u64,
    pub beta: u64,
}

impl Position {
    /// Whether all three components are finite numbers.
    pub open spec fn is_finite(self) -> bool {
        is_finite(self.x) && is_finite(self.y) && is_finite(self.z)
    }
}

impl LorenzState {
    /// Whether all three coordinates are finite numbers.
    pub open spec fn is_finite(self) -> bool {
        is_finite(self.x) && is_finite(self.y) && is_finite(self.z)
    }

    /// The rendering-space position of this point: x stays, y and z trade
    /// places.
    pub open spec fn position(self) -> Position {
        Position { x: self.x, y: self.z, z: self.y }
    }

    pub fn new(x: u64, y: u64, z: u64) -> (state: Self)
        ensures
            state == (LorenzState { x, y, z }),
    {
        LorenzState { x, y, z }
    }

    /// Maps the point into rendering space. The components keep their
    /// double-precision encoding; narrowing them is left to the renderer.
    pub fn to_vec3(&self) -> (position: Position)
        ensures
            position == self.position(),
    {
        Position { x: self.x, y: self.z, z: self.y }
    }
}

impl Default for LorenzState {
    /// The point (1, 1, 1).
    fn default() -> (state: Self)
        ensures
            state == (LorenzState { x: ONE, y: ONE, z: ONE }),
    {
        LorenzState::new(ONE, ONE, ONE)
    }
}

} // verus!
