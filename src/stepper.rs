//! The stepper coil schedule: `steps` full cycles through four coil phases,
//! then every coil off. The caller applies each pattern in turn and holds it
//! for the dwell interval.
use vstd::prelude::*;

verus! {

/// Levels of the four coil lines in1..in4 (`true` is high).
#[derive(Clone, Copy, Debug, PartialEq, Eq, Structural)]
pub struct CoilPattern {
    pub in1: bool,
    pub in2: bool,
    pub in3: bool,
    pub in4: bool,
}

/// Every coil de-energized.
pub open spec fn coils_off() -> CoilPattern {
    CoilPattern { in1: false, in2: false, in3: false, in4: false }
}

/// The `p`-th pattern of the forward cycle 1010, 0110, 0101, 1001.
pub open spec fn phase_pattern(p: int) -> CoilPattern {
    if p == 0 {
        CoilPattern { in1: true, in2: false, in3: true, in4: false }
    } else if p == 1 {
        CoilPattern { in1: false, in2: true, in3: true, in4: false }
    } else if p == 2 {
        CoilPattern { in1: false, in2: true, in3: false, in4: true }
    } else {
        CoilPattern { in1: true, in2: false, in3: false, in4: true }
    }
}

/// The patterns a run of `steps` steps applies, in order.
pub open spec fn run_patterns(steps: nat) -> Seq<CoilPattern> {
    Seq::new(4 * steps + 1, |k: int| if k < 4 * steps { phase_pattern(k % 4) } else { coils_off() })
}

/// The `p`-th pattern of the forward cycle.
pub fn phase(p: u8) -> (r: CoilPattern)
    requires
        p < 4,
    ensures
        r == phase_pattern(p as int),
{
    if p == 0 {
        CoilPattern { in1: true, in2: false, in3: true, in4: false }
    } else if p == 1 {
        CoilPattern { in1: false, in2: true, in3: true, in4: false }
    } else if p == 2 {
        CoilPattern { in1: false, in2: true, in3: false, in4: true }
    } else {
        CoilPattern { in1: true, in2: false, in3: false, in4: true }
    }
}

/// A stepper run in progress: hands out the patterns of `run_patterns` one
/// at a time, then nothing.
pub struct StepperRun {
    steps: usize,
    step: usize,
    phase: u8,
    finished: bool,
}

impl StepperRun {
    /// The number of steps the run was started with.
    pub closed spec fn total(&self) -> nat {
        self.steps as nat
    }

    /// How many patterns have been handed out.
    pub closed spec fn emitted(&self) -> nat {
        if self.finished {
            4 * (self.steps as nat) + 1
        } else {
            4 * (self.step as nat) + (self.phase as nat)
        }
    }

    pub closed spec fn wf(&self) -> bool {
        &&& self.phase < 4
        &&& self.step <= self.steps
        &&& self.step == self.steps ==> self.phase == 0
    }

    /// A run of `steps` full cycles.
    pub fn new(steps: usize) -> (r: StepperRun)
        ensures
            r.wf(),
            r.total() == steps,
            r.emitted() == 0,
    {
        StepperRun { steps, step: 0, phase: 0, finished: false }
    }

    /// The next pattern to apply, or `None` once the closing all-off pattern
    /// has been handed out.
    pub fn next_pattern(&mut self) -> (r: Option<CoilPattern>)
        requires
            old(self).wf(),
        ensures
            final(self).wf(),
            final(self).total() == old(self).total(),
            old(self).emitted() < run_patterns(old(self).total()).len() ==> {
                &&& r == Some(run_patterns(old(self).total())[old(self).emitted() as int])
                &&& final(self).emitted() == old(self).emitted() + 1
            },
            old(self).emitted() >= run_patterns(old(self).total()).len() ==> {
                &&& r is None
                &&& final(self).emitted() == old(self).emitted()
            },
    {
        if self.finished {
            return None;
        }
        if self.step == self.steps {
            self.finished = true;
            return Some(CoilPattern { in1: false, in2: false, in3: false, in4: false });
        }
        let k = self.phase;
        let pattern = phase(k);
        proof {
            let e = 4 * (self.step as int) + k as int;
            assert(e % 4 == k as int) by (nonlinear_arith)
                requires
                    e == 4 * (self.step as int) + k as int,
                    k < 4,
            ;
        }
        if k == 3 {
            self.phase = 0;
            self.step = self.step + 1;
        } else {
            self.phase = k + 1;
        }
        Some(pattern)
    }
}

/// However many steps a run takes, the last pattern it applies leaves all
/// four coils low.
pub proof fn lemma_run_ends_coils_off(steps: nat)
    ensures
        run_patterns(steps).len() >= 1,
        run_patterns(steps).last() == coils_off(),
{
}

} // verus!
