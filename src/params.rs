use vstd::prelude::*;
use crate::fixed::{UNIT, COORD_LIMIT};

verus! {

/// Default turn factor: how much boids can turn in response to their neighbours (0.2).
pub const TURNFACTOR: i64 = 200_000;

/// Default visual range: the distance up to which boids see each other (40 units).
pub const VISUAL_RANGE: i64 = 40_000_000;

/// Default protected range: per axis, a peer closer than this is too close (15 units).
pub const PROTECTED_RANGE: i64 = 15_000_000;

/// Default centering factor: pull toward the centre of the flock (0.0005).
pub const CENTERING_FACTOR: i64 = 500;

/// Default avoid factor: how strongly boids move away from close peers (0.005).
pub const AVOID_FACTOR: i64 = 5_000;

/// Default matching factor: how strongly boids match their neighbours' velocity (0.05).
pub const MATCHING_FACTOR: i64 = 50_000;

/// Default maximum speed per axis (6 units a tick).
pub const MAX_SPEED: i64 = 6_000_000;

/// Default minimum speed (3 units a tick).
pub const MIN_SPEED: i64 = 3_000_000;

/// Default maximum bias (0.01).
pub const MAX_BIAS: i64 = 10_000;

/// Default bias increment (0.00004).
pub const BIAS_INCREMENT: i64 = 40;

/// Default initial bias value (0.001).
pub const DEFAULT_BIAS_VAL: i64 = 1_000;

/// The tuning values of a run, fixed at startup and read by every tick.
///
/// All fields are fixed-point: distances and speeds in steps, factors with
/// `UNIT` standing for one. Only `protected_range`, `avoid_factor` and
/// `max_speed` take part in a tick; the others are carried for rules that the
/// flock does not apply.
#[derive(Clone, Copy, Debug, PartialEq, Eq, Structural)]
pub struct Params {
    pub turnfactor: i64,
    pub visual_range: i64,
    pub protected_range: i64,
    pub centering_factor: i64,
    pub avoid_factor: i64,
    pub matching_factor: i64,
    pub max_speed: i64,
    pub min_speed: i64,
    pub max_bias: i64,
    pub bias_increment: i64,
    pub default_bias_val: i64,
}

/// The default tuning values.
pub open spec fn default_params() -> Params {
    Params {
        turnfactor: TURNFACTOR,
        visual_range: VISUAL_RANGE,
        protected_range: PROTECTED_RANGE,
        centering_factor: CENTERING_FACTOR,
        avoid_factor: AVOID_FACTOR,
        matching_factor: MATCHING_FACTOR,
        max_speed: MAX_SPEED,
        min_speed: MIN_SPEED,
        max_bias: MAX_BIAS,
        bias_increment: BIAS_INCREMENT,
        default_bias_val: DEFAULT_BIAS_VAL,
    }
}

impl Params {
    /// The values that a tick can use without overflow: an avoid factor
    /// within one in magnitude and a maximum speed within `COORD_LIMIT`.
    pub open spec fn within_limits(self) -> bool {
        &&& -UNIT <= self.avoid_factor <= UNIT
        &&& -COORD_LIMIT <= self.max_speed <= COORD_LIMIT
    }

    /// Tells whether a tick can use these values (see `within_limits`).
    pub fn check_limits(&self) -> (r: bool)
        ensures
            r == self.within_limits(),
    {
        -UNIT <= self.avoid_factor && self.avoid_factor <= UNIT && -COORD_LIMIT <= self.max_speed
            && self.max_speed <= COORD_LIMIT
    }
}

impl Default for Params {
    fn default() -> (r: Params)
        ensures
            r == default_params(),
    {
        Params {
            turnfactor: TURNFACTOR,
            visual_range: VISUAL_RANGE,
            protected_range: PROTECTED_RANGE,
            centering_factor: CENTERING_FACTOR,
            avoid_factor: AVOID_FACTOR,
            matching_factor: MATCHING_FACTOR,
            max_speed: MAX_SPEED,
            min_speed: MIN_SPEED,
            max_bias: MAX_BIAS,
            bias_increment: BIAS_INCREMENT,
            default_bias_val: DEFAULT_BIAS_VAL,
        }
    }
}

} // verus!
