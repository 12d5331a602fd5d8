//! Inverse kinematics for a six-leg parallel (Stewart-style) robot platform,
//! together with the byte-level command protocol of its servo controller.
//!
//! All quantities are fixed-point decimals: an `i64` holds the value times
//! `10^8` (eight decimal places). Rotation-matrix entries follow the
//! documented policy of rounding to four decimal places at the matrix
//! boundary, so their low four digits are always zero.

pub mod errors;
pub mod fixed;
pub mod kinematics;
pub mod maestro;
pub mod rotation;
pub mod trig;
