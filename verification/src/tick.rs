//! The decisions of one update tick.
//!
//! A tick alternates arithmetic on real numbers, which the caller does, with
//! decisions, which are made here. The caller opens the tick with
//! `begin_tick` and does what the plan says: for each sub-step it computes a
//! candidate point and offers it to `apply_substep`, and at the end it hands
//! the diagnostics of the final point to `finish_tick`.

use crate::binary64::{beyond_million, finite, magnitude_exceeds, ZERO};
use crate::config::{IntegrationMethod, ResetEvent, SimulationConfig, SimulationStats};
use crate::lorenz::{LorenzParams, LorenzState};
use crate::trail::{all_finite, newest, TrailBuffer, TrailPoint};
use vstd::prelude::*;

verus! {

/// What is left to do in a tick once it has been opened.
#[derive(Clone, Copy, Debug, PartialEq, Eq, Structural)]
pub enum TickPlan {
    /// A reset was consumed: the tick is over, and the diagnostics stay as
    /// they were.
    Reset,
    /// The simulation is paused: the diagnostics are recomputed from the
    /// point as it stands, and no time is spent stepping.
    Paused { params: LorenzParams },
    /// The trajectory advances by `steps` sub-steps of size `dt`.
    Advance { params: LorenzParams, dt: u64, method: IntegrationMethod, steps: u32 },
}

/// The plan of a tick: a pending reset comes first, then the pause flag.
/// Coefficients, step size, method and step count are copied from the
/// configuration once, for the whole tick.
pub open spec fn plan_of(config: SimulationConfig, reset: Option<ResetEvent>) -> TickPlan {
    if reset is Some {
        TickPlan::Reset
    } else if config.paused {
        TickPlan::Paused { params: config.spec_params() }
    } else {
        TickPlan::Advance {
            params: config.spec_params(),
            dt: config.dt,
            method: config.method,
            steps: config.steps_per_frame,
        }
    }
}

/// The point after a tick has been opened: the configured starting point on
/// a reset, else the point as it was.
pub open spec fn state_after_begin(
    config: SimulationConfig,
    reset: Option<ResetEvent>,
    state: LorenzState,
) -> LorenzState {
    if reset is Some {
        config.spec_initial_state()
    } else {
        state
    }
}

/// The points and the bound of the trail after a tick has been opened. A
/// reset empties the trail and leaves its bound; any other tick takes the
/// bound from the configuration and drops the oldest points beyond it.
pub open spec fn trail_after_begin(
    config: SimulationConfig,
    reset: Option<ResetEvent>,
    points: Seq<TrailPoint>,
    bound: nat,
) -> (Seq<TrailPoint>, nat) {
    if reset is Some {
        (Seq::empty(), bound)
    } else {
        (newest(points, config.max_trail_points as nat), config.max_trail_points as nat)
    }
}

/// Opens a tick: consumes the reset if one is pending, else brings the
/// trail's bound in line with the configuration, and says what is left to
/// do.
pub fn begin_tick(
    config: &SimulationConfig,
    reset: Option<ResetEvent>,
    state: &mut LorenzState,
    trail: &mut TrailBuffer,
) -> (plan: TickPlan)
    ensures
        plan == plan_of(*config, reset),
        *final(state) == state_after_begin(*config, reset, *old(state)),
        (final(trail)@, final(trail).max_points() as nat) == trail_after_begin(
            *config,
            reset,
            old(trail)@,
            old(trail).max_points() as nat,
        ),
{
    if reset.is_some() {
        trail.clear();
        *state = config.initial_state();
        return TickPlan::Reset;
    }
    trail.retarget(config.max_trail_points);
    let params = config.params();
    if config.paused {
        TickPlan::Paused { params }
    } else {
        TickPlan::Advance {
            params,
            dt: config.dt,
            method: config.method,
            steps: config.steps_per_frame,
        }
    }
}

/// Whether a candidate point is refused: a coordinate is an infinity or a
/// NaN, or the magnitude of x is above one million.
pub open spec fn unstable(candidate: LorenzState) -> bool {
    !candidate.is_finite() || magnitude_exceeds(candidate.x, 1_000_000)
}

/// The instability guard.
pub fn is_unstable(candidate: &LorenzState) -> (refused: bool)
    ensures
        refused == unstable(*candidate),
{
    !finite(candidate.x) || !finite(candidate.y) || !finite(candidate.z) || beyond_million(
        candidate.x,
    )
}

/// The trail point that an accepted candidate leaves.
pub open spec fn point_of(candidate: LorenzState, hue: u32) -> TrailPoint {
    TrailPoint { position: candidate.position(), hue }
}

/// The point and the trail's points after one sub-step has offered
/// `candidate`. A refused candidate changes nothing. An accepted one becomes
/// the point, and its trail point is appended, the oldest points leaving
/// where the trail is over its bound.
pub open spec fn after_substep(
    state: LorenzState,
    points: Seq<TrailPoint>,
    bound: nat,
    candidate: LorenzState,
    hue: u32,
) -> (LorenzState, Seq<TrailPoint>) {
    if unstable(candidate) {
        (state, points)
    } else {
        (candidate, newest(points.push(point_of(candidate, hue)), bound))
    }
}

/// One sub-step: passes `candidate`, the point that the stepping algorithm
/// computed from `state`, through the instability guard and commits it if it
/// is accepted. `hue` is the colour that the caller derived from the
/// velocity at the candidate. Returns whether the candidate was accepted.
pub fn apply_substep(
    state: &mut LorenzState,
    trail: &mut TrailBuffer,
    candidate: LorenzState,
    hue: u32,
) -> (accepted: bool)
    ensures
        accepted == !unstable(candidate),
        final(trail).max_points() == old(trail).max_points(),
        (*final(state), final(trail)@) == after_substep(
            *old(state),
            old(trail)@,
            old(trail).max_points() as nat,
            candidate,
            hue,
        ),
{
    if is_unstable(&candidate) {
        return false;
    }
    let point = TrailPoint { position: candidate.to_vec3(), hue };
    trail.push(point);
    *state = candidate;
    true
}

/// The diagnostics after a tick. A reset tick leaves them as they were. A
/// paused tick records the values handed in and a stepping time of zero. An
/// advancing tick records the values handed in and the time measured.
pub open spec fn stats_after(
    plan: TickPlan,
    stats: SimulationStats,
    point_count: usize,
    energy: u64,
    velocity: u64,
    divergence: u64,
    elapsed_us: u64,
) -> SimulationStats {
    match plan {
        TickPlan::Reset => stats,
        TickPlan::Paused { .. } => SimulationStats {
            integration_time_us: ZERO,
            current_energy: energy,
            current_velocity: velocity,
            divergence,
            point_count,
        },
        TickPlan::Advance { .. } => SimulationStats {
            integration_time_us: elapsed_us,
            current_energy: energy,
            current_velocity: velocity,
            divergence,
            point_count,
        },
    }
}

/// Closes a tick: records the diagnostics that the caller computed from the
/// point as the tick left it, the number of points in the trail, and the time
/// spent stepping.
pub fn finish_tick(
    plan: &TickPlan,
    stats: &mut SimulationStats,
    trail: &TrailBuffer,
    energy: u64,
    velocity: u64,
    divergence: u64,
    elapsed_us: u64,
)
    ensures
        *final(stats) == stats_after(
            *plan,
            *old(stats),
            trail@.len() as usize,
            energy,
            velocity,
            divergence,
            elapsed_us,
        ),
        !(plan is Reset) ==> final(stats).point_count == trail@.len(),
{
    let point_count: usize = trail.len();
    match plan {
        TickPlan::Reset => {},
        TickPlan::Paused { .. } => {
            stats.integration_time_us = ZERO;
            stats.current_energy = energy;
            stats.current_velocity = velocity;
            stats.divergence = divergence;
            stats.point_count = point_count;
        },
        TickPlan::Advance { .. } => {
            stats.integration_time_us = elapsed_us;
            stats.current_energy = energy;
            stats.current_velocity = velocity;
            stats.divergence = divergence;
            stats.point_count = point_count;
        },
    }
}

/// The point and the trail's points after a run of sub-steps, each offering
/// a candidate and its hue, in order.
pub open spec fn after_substeps(
    state: LorenzState,
    points: Seq<TrailPoint>,
    bound: nat,
    offers: Seq<(LorenzState, u32)>,
) -> (LorenzState, Seq<TrailPoint>)
    decreases offers.len(),
{
    if offers.len() == 0 {
        (state, points)
    } else {
        let earlier = after_substeps(state, points, bound, offers.drop_last());
        after_substep(earlier.0, earlier.1, bound, offers.last().0, offers.last().1)
    }
}

/// A tick that consumes a reset empties the trail, puts the point at the
/// configured start whatever it was before, and leaves the diagnostics
/// untouched whatever is handed to `finish_tick`.
pub proof fn lemma_reset_tick(
    config: SimulationConfig,
    state: LorenzState,
    points: Seq<TrailPoint>,
    bound: nat,
    stats: SimulationStats,
    point_count: usize,
    energy: u64,
    velocity: u64,
    divergence: u64,
    elapsed_us: u64,
)
    ensures
        plan_of(config, Some(ResetEvent)) == TickPlan::Reset,
        state_after_begin(config, Some(ResetEvent), state) == (LorenzState {
            x: config.initial_x,
            y: config.initial_y,
            z: config.initial_z,
        }),
        trail_after_begin(config, Some(ResetEvent), points, bound).0.len() == 0,
        stats_after(
            plan_of(config, Some(ResetEvent)),
            stats,
            point_count,
            energy,
            velocity,
            divergence,
            elapsed_us,
        ) == stats,
{
}

/// A paused tick leaves the point as it is and steps nowhere. It changes the
/// trail only by dropping what is beyond the configured bound, so a trail
/// within that bound is unchanged, and so is any trail on a second paused
/// tick under the same configuration. The diagnostics are recorded anew, with
/// a stepping time of zero.
pub proof fn lemma_paused_tick(
    config: SimulationConfig,
    state: LorenzState,
    points: Seq<TrailPoint>,
    bound: nat,
    stats: SimulationStats,
    point_count: usize,
    energy: u64,
    velocity: u64,
    divergence: u64,
    elapsed_us: u64,
)
    requires
        config.paused,
    ensures
        plan_of(config, None) == (TickPlan::Paused { params: config.spec_params() }),
        state_after_begin(config, None, state) == state,
        points.len() <= config.max_trail_points ==> trail_after_begin(config, None, points, bound).0
            == points,
        ({
            let once = trail_after_begin(config, None, points, bound);
            trail_after_begin(config, None, once.0, once.1) == once
        }),
        stats_after(
            plan_of(config, None),
            stats,
            point_count,
            energy,
            velocity,
            divergence,
            elapsed_us,
        ) == (SimulationStats {
            integration_time_us: ZERO,
            current_energy: energy,
            current_velocity: velocity,
            divergence,
            point_count,
        }),
{
}

/// A candidate with a coordinate that is not finite, or with x beyond one
/// million, leaves the point and the trail exactly as they were.
pub proof fn lemma_refused_substep(
    state: LorenzState,
    points: Seq<TrailPoint>,
    bound: nat,
    candidate: LorenzState,
    hue: u32,
)
    requires
        !candidate.is_finite() || magnitude_exceeds(candidate.x, 1_000_000),
    ensures
        after_substep(state, points, bound, candidate, hue) == (state, points),
{
}

/// Whatever candidates a run of sub-steps is offered: no position that is
/// not finite enters the trail, a trail within its bound stays within it, and
/// a point that the guard accepts is never replaced by one that it refuses.
pub proof fn lemma_substeps_guarded(
    state: LorenzState,
    points: Seq<TrailPoint>,
    bound: nat,
    offers: Seq<(LorenzState, u32)>,
)
    ensures
        all_finite(points) ==> all_finite(after_substeps(state, points, bound, offers).1),
        points.len() <= bound ==> after_substeps(state, points, bound, offers).1.len() <= bound,
        !unstable(state) ==> !unstable(after_substeps(state, points, bound, offers).0),
    decreases offers.len(),
{
    if offers.len() > 0 {
        lemma_substeps_guarded(state, points, bound, offers.drop_last());
        let earlier = after_substeps(state, points, bound, offers.drop_last());
        let candidate = offers.last().0;
        let hue = offers.last().1;
        if !unstable(candidate) && all_finite(points) {
            let longer = earlier.1.push(point_of(candidate, hue));
            assert(all_finite(longer)) by {
                assert forall|i: int| 0 <= i < longer.len() implies (#[trigger] longer[i]).position.is_finite() by {
                    if i < earlier.1.len() {
                        assert(longer[i] == earlier.1[i]);
                    }
                }
            }
            let kept = newest(longer, bound);
            assert forall|i: int| 0 <= i < kept.len() implies (#[trigger] kept[i]).position.is_finite() by {
                if longer.len() > bound {
                    assert(kept[i] == longer[i + longer.len() - bound]);
                }
            }
        }
    }
}

/// A tick that is not a reset leaves the trail within the configured bound,
/// however many sub-steps it makes and whatever candidates they offer, and
/// every position it adds is finite.
pub proof fn lemma_tick_within_bound(
    config: SimulationConfig,
    state: LorenzState,
    points: Seq<TrailPoint>,
    bound: nat,
    offers: Seq<(LorenzState, u32)>,
)
    ensures
        ({
            let opened = trail_after_begin(config, None, points, bound);
            let closed = after_substeps(
                state_after_begin(config, None, state),
                opened.0,
                opened.1,
                offers,
            );
            &&& closed.1.len() <= config.max_trail_points
            &&& all_finite(points) ==> all_finite(closed.1)
        }),
{
    let opened = trail_after_begin(config, None, points, bound);
    lemma_substeps_guarded(state, opened.0, opened.1, offers);
}

} // verus!
