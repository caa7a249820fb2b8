//! A flow field sampled from gradient noise, and particles advected through it.
//!
//! All quantities are integers in fixed point: positions, velocities and
//! magnitudes in units of `1 / FIXED_ONE`, directions in units of
//! `1 / ANGLE_TURN` of a full turn. The noise itself and the trigonometry are
//! computed by the host, which hands the library quantized values.
pub mod fixed;
pub mod field;
pub mod bird;

pub use bird::{
    spawn, tick_birds, Bird, DirectionTable, DIRECTION_TOLERANCE, DRAG_DENOMINATOR, DRAG_NUMERATOR, POSITION_LIMIT,
    VELOCITY_LIMIT,
};
pub use field::{
    FieldError, Grid, NoiseRequest, DEFAULT_FREQUENCY_MILLI, DEFAULT_LENGTH_MAX,
    DEFAULT_LENGTH_MIN, DEFAULT_LENGTH_SEED_OFFSET,
};
pub use fixed::{ANGLE_TURN, FIXED_ONE, RAW_NOISE_ONE};
