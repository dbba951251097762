//! The run parameters that the control surface edits, the diagnostics that
//! each tick reports, and the reset signal.

use crate::lorenz::{LorenzParams, LorenzState};
use vstd::prelude::*;

verus! {

/// The encoding of ten, the canonical sigma.
pub const DEFAULT_SIGMA: u64 = 0x4024_0000_0000_0000;

/// The encoding of twenty-eight, the canonical rho.
pub const DEFAULT_RHO: u64 = 0x403C_0000_0000_0000;

/// The encoding of the double nearest to eight thirds, the canonical beta.
pub const DEFAULT_BETA: u64 = 0x4005_5555_5555_5555;

/// The encoding of the double nearest to five thousandths, the default
/// sub-step size.
pub const DEFAULT_DT: u64 = 0x3F74_7AE1_47AE_147B;

/// The encoding of one, each coordinate of the default starting point.
pub const DEFAULT_INITIAL: u64 = 0x3FF0_0000_0000_0000;

pub const DEFAULT_STEPS_PER_FRAME: u32 = 8;

pub const DEFAULT_MAX_TRAIL_POINTS: usize = 25_000;

/// The stepping algorithm that advances the trajectory.
#[derive(Debug, Clone, Copy, PartialEq, Eq, Structural)]
pub enum IntegrationMethod {
    /// Explicit Euler, first-order accurate.
    Euler,
    /// Classical Runge-Kutta, fourth-order accurate.
    RungeKutta4,
}

impl IntegrationMethod {
    /// The characters of the method's label.
    pub open spec fn label_text(self) -> Seq<char> {
        match self {
            IntegrationMethod::Euler => "Euler (1st order)"@,
            IntegrationMethod::RungeKutta4 => "Runge-Kutta 4 (4th order)"@,
        }
    }

    /// The name under which the method is shown to the user.
    pub fn label(&self) -> (text: &'static str)
        ensures
            text@ == self.label_text(),
    {
        match self {
            IntegrationMethod::Euler => "Euler (1st order)",
            IntegrationMethod::RungeKutta4 => "Runge-Kutta 4 (4th order)",
        }
    }
}

/// The run parameters. Scalars that are real numbers (the coefficients, the
/// step size, the starting point) are held as binary64 encodings.
#[derive(Debug, Clone, Copy, PartialEq, Eq, Structural)]
pub struct SimulationConfig {
    pub sigma: u64,
    pub rho: u64,
    pub beta: u64,
    /// The sub-step size; the control surface keeps it positive.
    pub dt: u64,
    pub method: IntegrationMethod,
    /// The number of sub-steps in a tick; the control surface keeps it at
    /// least one.
    pub steps_per_frame: u32,
    pub paused: bool,
    pub max_trail_points: usize,
    pub initial_x: u64,
    pub initial_y: u64,
    pub initial_z: u64,
    pub show_energy: bool,
    pub show_divergence: bool,
    pub show_velocity: bool,
}

impl SimulationConfig {
    /// The documented defaults: canonical coefficients, fourth-order stepping,
    /// eight sub-steps a tick, running, starting at (1, 1, 1).
    pub open spec fn documented_default() -> SimulationConfig {
        SimulationConfig {
            sigma: DEFAULT_SIGMA,
            rho: DEFAULT_RHO,
            beta: DEFAULT_BETA,
            dt: DEFAULT_DT,
            method: IntegrationMethod::RungeKutta4,
            steps_per_frame: DEFAULT_STEPS_PER_FRAME,
            paused: false,
            max_trail_points: DEFAULT_MAX_TRAIL_POINTS,
            initial_x: DEFAULT_INITIAL,
            initial_y: DEFAULT_INITIAL,
            initial_z: DEFAULT_INITIAL,
            show_energy: true,
            show_divergence: true,
            show_velocity: true,
        }
    }

    /// The coefficients that this configuration gives the dynamics.
    pub open spec fn spec_params(self) -> LorenzParams {
        LorenzParams { sigma: self.sigma, rho: self.rho, beta: self.beta }
    }

    /// The point at which a reset puts the trajectory.
    pub open spec fn spec_initial_state(self) -> LorenzState {
        LorenzState { x: self.initial_x, y: self.initial_y, z: self.initial_z }
    }

    /// Copies the coefficients out, for one tick to work from.
    pub fn params(&self) -> (params: LorenzParams)
        ensures
            params == self.spec_params(),
    {
        LorenzParams { sigma: self.sigma, rho: self.rho, beta: self.beta }
    }

    /// The configured starting point.
    pub fn initial_state(&self) -> (state: LorenzState)
        ensures
            state == self.spec_initial_state(),
    {
        LorenzState::new(self.initial_x, self.initial_y, self.initial_z)
    }
}

impl Default for SimulationConfig {
    fn default() -> (config: Self)
        ensures
            config == SimulationConfig::documented_default(),
    {
        SimulationConfig {
            sigma: DEFAULT_SIGMA,
            rho: DEFAULT_RHO,
            beta: DEFAULT_BETA,
            dt: DEFAULT_DT,
            method: IntegrationMethod::RungeKutta4,
            steps_per_frame: DEFAULT_STEPS_PER_FRAME,
            paused: false,
            max_trail_points: DEFAULT_MAX_TRAIL_POINTS,
            initial_x: DEFAULT_INITIAL,
            initial_y: DEFAULT_INITIAL,
            initial_z: DEFAULT_INITIAL,
            show_energy: true,
            show_divergence: true,
            show_velocity: true,
        }
    }
}

/// What the last tick observed. Recomputed whole by each tick that is not a
/// reset.
#[derive(Debug, Clone, Copy, PartialEq, Eq, Structural)]
pub struct SimulationStats {
    /// Microseconds spent stepping in the last tick, as a binary64 encoding.
    pub integration_time_us: u64,
    pub current_energy: u64,
    pub current_velocity: u64,
    pub divergence: u64,
    pub point_count: usize,
}

impl Default for SimulationStats {
    /// All diagnostics zero, no point counted.
    fn default() -> (stats: Self)
        ensures
            stats == (SimulationStats {
                integration_time_us: 0,
                current_energy: 0,
                current_velocity: 0,
                divergence: 0,
                point_count: 0,
            }),
    {
        SimulationStats {
            integration_time_us: 0,
            current_energy: 0,
            current_velocity: 0,
            divergence: 0,
            point_count: 0,
        }
    }
}

/// The request to put the trajectory back at its starting point. It carries
/// nothing, and a tick consumes at most one.
#[derive(Debug, Clone, Copy, PartialEq, Eq, Structural)]
pub struct ResetEvent;

} // verus!
