//! Error types of the kinematics core.

use vstd::prelude::*;

verus! {

/// Failure of an inverse-kinematics solve.
#[derive(Clone, Copy, Debug, PartialEq, Eq, Structural)]
pub enum KinematicsError {
    /// The requested pose places a leg outside its reachable angular domain:
    /// the horizontal projection of the leg vector is zero, or the cosine
    /// argument of the servo angle falls outside `[-1, 1]`.
    InvalidTargetPosition,
    /// Reserved for unreachability caused by the orientation alone,
    /// independent of the translation.
    InvalidTargetOrientation,
}

/// Internal numeric-conversion failure. In this fixed-point core no such
/// conversion can fail, so these variants are reserved: they mark a
/// configuration or arithmetic bug rather than an unreachable pose.
#[derive(Clone, Copy, Debug, PartialEq, Eq, Structural)]
pub enum MathError {
    /// A value could not be represented at the required precision.
    InvalidFloatConversion,
    /// An angle computation produced no usable value.
    InvalidAngle,
}

/// The leg on which an inverse-kinematics solve first failed, with the
/// failure itself. A pose is valid only if every leg can reach it, so the
/// whole solve reports the first failing leg and no partial result.
#[derive(Clone, Copy, Debug, PartialEq, Eq, Structural)]
pub struct LegFailure {
    /// Index of the first leg that could not reach the pose (0 to 5).
    pub leg: u8,
    /// Why that leg failed.
    pub error: KinematicsError,
}

} // verus!
