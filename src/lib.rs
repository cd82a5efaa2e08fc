//! A small flock of boids moving in a bounded viewport.
//!
//! Coordinates, speeds and tuning factors are fixed-point integers: one
//! viewport unit is `UNIT` steps, so every rule of the simulation is exact
//! integer arithmetic whose behaviour is stated and proved below.

mod fixed;
mod params;
mod boid;
mod flock;

pub use fixed::{Vec2, UNIT, COORD_LIMIT, MAX_BOIDS, NUDGED_LIMIT, scale_by, scaled, lemma_scaled_shrinks};
pub use params::{
    Params, default_params, TURNFACTOR, VISUAL_RANGE, PROTECTED_RANGE, CENTERING_FACTOR, AVOID_FACTOR,
    MATCHING_FACTOR, MAX_SPEED, MIN_SPEED, MAX_BIAS, BIAS_INCREMENT, DEFAULT_BIAS_VAL,
};
pub use boid::{
    Boid, Boundary, DirectionX, DirectionY, MARGIN, abs, is_close, close_dx, close_dy, lemma_close_bounded,
    lemma_self_excluded, lemma_cross_trigger,
};
pub use flock::{
    Flock, update, initial_boid, initial_boids, positions, stepped, ticked, BOID_COUNT, START_X, START_Y,
    STEP_X, STEP_Y, START_VX, START_VY, lemma_tick_reads_snapshot, stepped_in_order, lemma_any_order,
    lemma_construction_deterministic,
};
