//! Attitude/altitude control core of a flight controller.
//!
//! Converts vehicle state estimates and pilot/autopilot demands into
//! corrected motor-demand signals, once per control cycle.  All scalar
//! quantities are fixed-point integers: a real value `v` is represented by
//! the integer `v * SCALE` (see [`utils::SCALE`]), so `1000` stands for
//! `1.0`.  The caller that talks to floating-point sensor and mixer code
//! converts at the boundary.

use vstd::prelude::*;

pub mod altholdpid;
pub mod anglepid;
pub mod pids;
pub mod utils;

verus! {

/// Pilot/controller demand vector: four independent scalar channels, each a
/// dimensionless signed command, fixed-point scaled by [`utils::SCALE`].
#[derive(Clone, Copy, Debug, PartialEq, Eq, Structural)]
pub struct Demands {
    pub throttle: i64,
    pub roll: i64,
    pub pitch: i64,
    pub yaw: i64,
}

/// Vehicle kinematic state vector: position and velocity along three axes,
/// and orientation angle / angular rate about three axes.  Angles are in
/// degrees and rates in degrees per second, fixed-point scaled by
/// [`utils::SCALE`].  Read-only to the controllers.
#[derive(Clone, Copy, Debug, PartialEq, Eq, Structural)]
pub struct VehicleState {
    pub x: i64,
    pub dx: i64,
    pub y: i64,
    pub dy: i64,
    pub z: i64,
    pub dz: i64,
    pub phi: i64,
    pub dphi: i64,
    pub theta: i64,
    pub dtheta: i64,
    pub psi: i64,
    pub dpsi: i64,
}

/// Per-motor output vector, produced by the external mixer from the final
/// demand vector.  This core never writes it; the layout is the contract
/// the mixer depends on.
#[derive(Clone, Copy, Debug, PartialEq, Eq, Structural)]
pub struct Motors {
    pub m1: i64,
    pub m2: i64,
    pub m3: i64,
    pub m4: i64,
}

} // verus!
