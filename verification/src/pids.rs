//! Controller dispatch: a variant type over the controller kinds and a
//! pipeline that threads a demand vector through an ordered collection of
//! controllers, one `update` per controller per control cycle.

use vstd::prelude::*;
use crate::Demands;
use crate::VehicleState;
use crate::altholdpid::AltHoldPid;
use crate::anglepid::AnglePid;

verus! {

/// A controller of either kind, so a pipeline can hold a heterogeneous
/// ordered collection and apply a uniform update call to each.
#[derive(Clone, Copy, Debug, PartialEq, Eq, Structural)]
pub enum PidController {
    AnglePid(AnglePid),
    AltHoldPid(AltHoldPid),
}

impl PidController {
    /// Well-formedness of the wrapped controller.
    pub open spec fn wf(self) -> bool {
        match self {
            PidController::AnglePid(p) => p.wf(),
            PidController::AltHoldPid(p) => p.wf(),
        }
    }

    /// One control cycle of the wrapped controller as a mathematical
    /// transition; dispatch adds no transformation of its own.
    pub open spec fn step(
        self,
        d_usec: int,
        demands: Demands,
        vstate: VehicleState,
        reset: bool,
    ) -> (PidController, Demands) {
        match self {
            PidController::AnglePid(p) => {
                let (p2, out) = p.step(d_usec, demands, vstate, reset);
                (PidController::AnglePid(p2), out)
            },
            PidController::AltHoldPid(p) => {
                let (p2, out) = p.step(demands, vstate, reset);
                (PidController::AltHoldPid(p2), out)
            },
        }
    }
}

/// Routes one update call to the wrapped controller and returns its
/// corrected demand vector.
pub fn get_demands(
    pid: &mut PidController,
    d_usec: u32,
    demands: &Demands,
    vstate: &VehicleState,
    reset: bool,
) -> (r: Demands)
    requires
        old(pid).wf(),
    ensures
        final(pid).wf(),
        (*final(pid), r) == old(pid).step(d_usec as int, *demands, *vstate, reset),
{
    match pid {
        PidController::AnglePid(p) => p.update(d_usec, demands, vstate, reset),
        PidController::AltHoldPid(p) => p.update(demands, vstate, reset),
    }
}

/// The demand vector after the first `k` controllers of `pids` have run in
/// order, together with their advanced states.
pub open spec fn run_prefix(
    pids: Seq<PidController>,
    k: int,
    d_usec: int,
    demands: Demands,
    vstate: VehicleState,
    reset: bool,
) -> (Seq<PidController>, Demands)
    decreases k,
{
    if k <= 0 {
        (Seq::empty(), demands)
    } else {
        let (done, d_prev) = run_prefix(pids, k - 1, d_usec, demands, vstate, reset);
        let (p2, d_next) = pids[k - 1].step(d_usec, d_prev, vstate, reset);
        (done.push(p2), d_next)
    }
}

/// Runs one control cycle of every controller in the pipeline, in order:
/// each controller receives the demand vector the previous one returned,
/// and the final vector is the cycle's corrected output for the mixer.
pub fn run_pids(
    pids: &mut Vec<PidController>,
    d_usec: u32,
    demands: &Demands,
    vstate: &VehicleState,
    reset: bool,
) -> (r: Demands)
    requires
        forall|j: int| 0 <= j < old(pids)@.len() ==> old(pids)@[j].wf(),
    ensures
        final(pids)@.len() == old(pids)@.len(),
        forall|j: int| 0 <= j < final(pids)@.len() ==> final(pids)@[j].wf(),
        ({
            let (states, out) = run_prefix(
                old(pids)@,
                old(pids)@.len() as int,
                d_usec as int,
                *demands,
                *vstate,
                reset,
            );
            final(pids)@ == states && r == out
        }),
{
    let ghost pids0 = pids@;
    let mut cur: Demands = *demands;
    let n: usize = pids.len();
    for i in 0..n
        invariant
            n == pids0.len(),
            pids@.len() == pids0.len(),
            forall|j: int| 0 <= j < pids@.len() ==> pids@[j].wf(),
            forall|j: int| i <= j < pids@.len() ==> pids@[j] == pids0[j],
            ({
                let (states, out) = run_prefix(
                    pids0,
                    i as int,
                    d_usec as int,
                    *demands,
                    *vstate,
                    reset,
                );
                pids@.take(i as int) == states && cur == out
            }),
    {
        let next: Demands = get_demands(&mut pids[i], d_usec, &cur, vstate, reset);
        cur = next;
        proof {
            let (states, out) = run_prefix(
                pids0,
                i + 1,
                d_usec as int,
                *demands,
                *vstate,
                reset,
            );
            assert(pids@.take(i + 1) =~= pids@.take(i as int).push(pids@[i as int]));
            assert(pids@.take(i + 1) == states);
        }
    }
    proof {
        assert(pids@.take(pids0.len() as int) =~= pids@);
    }
    cur
}

} // verus!
