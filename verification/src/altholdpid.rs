//! Altitude-hold controller: overrides the throttle channel to hold a
//! target altitude with outer-loop PI control and a deadband.  Altitudes
//! are fixed-point, scaled by [`crate::utils::SCALE`].

use vstd::prelude::*;
use crate::Demands;
use crate::VehicleState;
use crate::anglepid::{san_throttle, GAIN_LIMIT_SCALED, ITERM_LIMIT_SCALED};
use crate::utils::{
    clamp_spec, constrain, constrain_abs, lemma_mul_bound, lemma_tdiv_bound, mul_div, tdiv, DT,
    SCALE, USEC_PER_SEC,
};

verus! {

/// Half-width of the altitude deadband around the target, fixed-point:
/// within this tolerance no corrective action is taken.
pub const ALT_DEADBAND_SCALED: i64 = 200;

/// Sanitization bound on the measured altitude, fixed-point.
pub const MAX_ALT_SCALED: i64 = 10_000_000;

/// Measured altitude restricted to its sanitization bound.
pub open spec fn san_alt(z: int) -> int {
    clamp_spec(z, -(MAX_ALT_SCALED as int), MAX_ALT_SCALED as int)
}

/// Altitude error: target minus measured altitude.
pub open spec fn alt_error(target: int, z: int) -> int {
    target - z
}

/// Whether an altitude error lies within the deadband.
pub open spec fn in_band(err: int) -> bool {
    -(ALT_DEADBAND_SCALED as int) <= err <= ALT_DEADBAND_SCALED as int
}

/// Integral increment of one nominal control period `DT`.
pub open spec fn alt_iterm_delta(k_i: int, err: int) -> int {
    tdiv(tdiv(k_i * err, SCALE as int) * (DT as int), USEC_PER_SEC as int)
}

/// Integral accumulator after one out-of-band cycle, clamped to
/// `ITERM_LIMIT` to prevent windup.
pub open spec fn next_alt_iterm(k_i: int, err: int, i0: int) -> int {
    clamp_spec(
        i0 + alt_iterm_delta(k_i, err),
        -(ITERM_LIMIT_SCALED as int),
        ITERM_LIMIT_SCALED as int,
    )
}

/// Corrected throttle out of band: proportional term plus integral,
/// clamped to the valid throttle range.
pub open spec fn alt_throttle(k_p: int, err: int, integral: int) -> int {
    clamp_spec(tdiv(k_p * err, SCALE as int) + integral, 0, SCALE as int)
}

/// Altitude-hold controller state: proportional and integral gains, the
/// previous-in-band edge detector, the error integral, and the latched
/// altitude target.
#[derive(Clone, Copy, Debug, PartialEq, Eq, Structural)]
pub struct AltHoldPid {
    pub k_p: i64,
    pub k_i: i64,
    pub in_band_prev: bool,
    pub error_integral: i64,
    pub altitude_target: i64,
}

impl AltHoldPid {
    /// Well-formedness: gains within the accepted range, the integral and
    /// target within the bounds every update maintains.
    pub open spec fn wf(self) -> bool {
        &&& 0 <= self.k_p <= GAIN_LIMIT_SCALED
        &&& 0 <= self.k_i <= GAIN_LIMIT_SCALED
        &&& -ITERM_LIMIT_SCALED <= self.error_integral <= ITERM_LIMIT_SCALED
        &&& -MAX_ALT_SCALED <= self.altitude_target <= MAX_ALT_SCALED
    }

    /// The two controllers' gains agree.
    pub open spec fn gains_eq(self, other: AltHoldPid) -> bool {
        self.k_p == other.k_p && self.k_i == other.k_i
    }

    /// One control cycle as a mathematical transition.  With `reset`
    /// asserted the integral and edge detector clear and the target
    /// re-latches to the current altitude.  In band, the integral freezes
    /// and the target re-latches only on the entry edge; out of band, the
    /// integral accumulates and the throttle is overridden by the PI law.
    /// Roll, pitch and yaw pass through unchanged in every case.
    pub open spec fn step(self, demands: Demands, vstate: VehicleState, reset: bool) -> (
        AltHoldPid,
        Demands,
    ) {
        let z = san_alt(vstate.z as int);
        if reset {
            (
                AltHoldPid {
                    k_p: self.k_p,
                    k_i: self.k_i,
                    in_band_prev: false,
                    error_integral: 0,
                    altitude_target: z as i64,
                },
                Demands {
                    throttle: san_throttle(demands.throttle as int) as i64,
                    roll: demands.roll,
                    pitch: demands.pitch,
                    yaw: demands.yaw,
                },
            )
        } else {
            let err = alt_error(self.altitude_target as int, z);
            if in_band(err) {
                (
                    AltHoldPid {
                        k_p: self.k_p,
                        k_i: self.k_i,
                        in_band_prev: true,
                        error_integral: self.error_integral,
                        altitude_target: if !self.in_band_prev {
                            z as i64
                        } else {
                            self.altitude_target
                        },
                    },
                    Demands {
                        throttle: san_throttle(demands.throttle as int) as i64,
                        roll: demands.roll,
                        pitch: demands.pitch,
                        yaw: demands.yaw,
                    },
                )
            } else {
                let i1 = next_alt_iterm(self.k_i as int, err, self.error_integral as int);
                (
                    AltHoldPid {
                        k_p: self.k_p,
                        k_i: self.k_i,
                        in_band_prev: false,
                        error_integral: i1 as i64,
                        altitude_target: self.altitude_target,
                    },
                    Demands {
                        throttle: alt_throttle(self.k_p as int, err, i1) as i64,
                        roll: demands.roll,
                        pitch: demands.pitch,
                        yaw: demands.yaw,
                    },
                )
            }
        }
    }

    /// Constructs a controller from its gains.  Construction fails closed:
    /// a gain outside `[0, GAIN_LIMIT_SCALED]` is rejected.
    pub fn new(k_p: i64, k_i: i64) -> (r: Option<AltHoldPid>)
        ensures
            r is Some <==> (0 <= k_p <= GAIN_LIMIT_SCALED && 0 <= k_i <= GAIN_LIMIT_SCALED),
            r matches Some(p) ==> {
                &&& p.wf()
                &&& p.k_p == k_p
                &&& p.k_i == k_i
                &&& !p.in_band_prev
                &&& p.error_integral == 0
                &&& p.altitude_target == 0
            },
    {
        if 0 <= k_p && k_p <= GAIN_LIMIT_SCALED && 0 <= k_i && k_i <= GAIN_LIMIT_SCALED {
            Some(
                AltHoldPid {
                    k_p,
                    k_i,
                    in_band_prev: false,
                    error_integral: 0,
                    altitude_target: 0,
                },
            )
        } else {
            None
        }
    }

    /// One control cycle: corrects the throttle channel toward the held
    /// altitude and advances the owned state, exactly as [`Self::step`]
    /// states.  The throttle output stays in the valid range, the other
    /// channels pass through unchanged, and the integral stays within
    /// `ITERM_LIMIT`.
    pub fn update(&mut self, demands: &Demands, vstate: &VehicleState, reset: bool) -> (r: Demands)
        requires
            old(self).wf(),
        ensures
            final(self).wf(),
            (*final(self), r) == old(self).step(*demands, *vstate, reset),
            old(self).gains_eq(*final(self)),
            0 <= r.throttle <= SCALE,
            r.roll == demands.roll && r.pitch == demands.pitch && r.yaw == demands.yaw,
            -ITERM_LIMIT_SCALED <= final(self).error_integral <= ITERM_LIMIT_SCALED,
            !reset && in_band(
                alt_error(old(self).altitude_target as int, san_alt(vstate.z as int)),
            ) ==> final(self).error_integral == old(self).error_integral,
    {
        let z: i64 = constrain_abs(vstate.z, MAX_ALT_SCALED);
        if reset {
            self.in_band_prev = false;
            self.error_integral = 0;
            self.altitude_target = z;
            return Demands {
                throttle: constrain(demands.throttle, 0, SCALE),
                roll: demands.roll,
                pitch: demands.pitch,
                yaw: demands.yaw,
            };
        }
        let err: i64 = self.altitude_target - z;
        if -ALT_DEADBAND_SCALED <= err && err <= ALT_DEADBAND_SCALED {
            if !self.in_band_prev {
                self.altitude_target = z;
            }
            self.in_band_prev = true;
            Demands {
                throttle: constrain(demands.throttle, 0, SCALE),
                roll: demands.roll,
                pitch: demands.pitch,
                yaw: demands.yaw,
            }
        } else {
            let per_sec: i64 = mul_div(self.k_i, err, SCALE);
            proof {
                lemma_mul_bound(
                    old(self).k_i as int,
                    err as int,
                    GAIN_LIMIT_SCALED as int,
                    2 * MAX_ALT_SCALED as int,
                );
                lemma_tdiv_bound(
                    old(self).k_i as int * err as int,
                    SCALE as int,
                    200_000_000,
                );
            }
            let delta: i64 = mul_div(per_sec, DT, USEC_PER_SEC);
            proof {
                lemma_tdiv_bound(per_sec as int * DT as int, USEC_PER_SEC as int, 20_000);
            }
            let i1: i64 = constrain_abs(self.error_integral + delta, ITERM_LIMIT_SCALED);
            self.error_integral = i1;
            self.in_band_prev = false;
            let p: i64 = mul_div(self.k_p, err, SCALE);
            proof {
                lemma_mul_bound(
                    old(self).k_p as int,
                    err as int,
                    GAIN_LIMIT_SCALED as int,
                    2 * MAX_ALT_SCALED as int,
                );
                lemma_tdiv_bound(
                    old(self).k_p as int * err as int,
                    SCALE as int,
                    200_000_000,
                );
            }
            Demands {
                throttle: constrain(p + i1, 0, SCALE),
                roll: demands.roll,
                pitch: demands.pitch,
                yaw: demands.yaw,
            }
        }
    }
}

/// Deadband hysteresis: a cycle that finds the error in band freezes the
/// integral, marks the band as entered, and re-latches the altitude
/// target exactly on the entry edge — once per band entry, not once per
/// tick while in band.
pub proof fn lemma_deadband_hysteresis(s: AltHoldPid, demands: Demands, vstate: VehicleState)
    requires
        s.wf(),
        in_band(alt_error(s.altitude_target as int, san_alt(vstate.z as int))),
    ensures
        ({
            let (s2, _) = s.step(demands, vstate, false);
            &&& s2.error_integral == s.error_integral
            &&& s2.in_band_prev
            &&& !s.in_band_prev ==> s2.altitude_target == san_alt(vstate.z as int)
            &&& s.in_band_prev ==> s2.altitude_target == s.altitude_target
        }),
{
}

/// Reset is a true re-baseline: with `reset` asserted, the output and the
/// state after the cycle are determined by the gains and the inputs of
/// that cycle alone.
pub proof fn lemma_alt_reset_rebaseline(
    s1: AltHoldPid,
    s2: AltHoldPid,
    demands: Demands,
    vstate: VehicleState,
)
    requires
        s1.gains_eq(s2),
    ensures
        s1.step(demands, vstate, true) == s2.step(demands, vstate, true),
{
}

} // verus!
