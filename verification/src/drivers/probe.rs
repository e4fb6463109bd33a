//! The probe of an adapter driver, as a state machine: the caller performs each step
//! it is given and reports how it went; the probe decides what comes next.
use vstd::prelude::*;

use crate::algo::I2cAlgorithmTable;
use crate::error::Error;

verus! {

/// One piece of outside work of a probe.
#[derive(Clone, Copy, Debug, PartialEq, Eq)]
pub enum ProbeStep {
    /// Enable the memory space of the device; may fail.
    EnableDeviceMem,
    /// Enable bus mastering for the device; cannot fail.
    SetMaster,
    /// Map the first `size` bytes of BAR `bar` as the region `name`; may fail.
    MapBar { bar: u32, size: usize, name: &'static str },
    /// Register the I2C adapter `name` with the callbacks `algo`, with the device as
    /// its parent; may fail.
    RegisterAdapter { name: &'static str, algo: I2cAlgorithmTable },
}

/// What the caller is to do next.
#[derive(Clone, Copy, Debug, PartialEq, Eq)]
pub enum ProbeAction {
    /// Perform this step and report how it went.
    Run(ProbeStep),
    /// Every step succeeded: the driver is bound.
    Done,
    /// A step failed with this error: release what the steps before it set up, as
    /// [`Probe::to_release`] gives them, and fail the probe with the error.
    Fail(Error),
}

impl ProbeStep {
    /// Whether the step sets up something that lives on with the bound driver and is
    /// released when the probe fails: a mapped region or a registered adapter.
    pub open spec fn spec_holds_resource(self) -> bool {
        self is MapBar || self is RegisterAdapter
    }

    /// Whether the step sets up something that is released when the probe fails.
    pub fn holds_resource(&self) -> (r: bool)
        ensures
            r == self.spec_holds_resource(),
    {
        match self {
            ProbeStep::MapBar { .. } => true,
            ProbeStep::RegisterAdapter { .. } => true,
            _ => false,
        }
    }
}

/// What to release after the steps `done` succeeded: the steps among them that set
/// something up, newest first.
pub open spec fn release_order(done: Seq<ProbeStep>) -> Seq<ProbeStep>
    decreases done.len(),
{
    if done.len() == 0 {
        Seq::empty()
    } else {
        let rest = release_order(done.drop_last());
        if done.last().spec_holds_resource() {
            seq![done.last()] + rest
        } else {
            rest
        }
    }
}

/// A probe in progress over a plan of steps.
pub struct Probe {
    steps: Vec<ProbeStep>,
    completed: usize,
    finished: bool,
}

impl Probe {
    /// The probe is consistent: no more steps succeeded than planned, and an unfinished
    /// probe has a step running.
    pub closed spec fn wf(&self) -> bool {
        &&& self.completed <= self.steps@.len()
        &&& !self.finished ==> self.completed < self.steps@.len()
    }

    /// The plan of steps.
    pub closed spec fn spec_steps(&self) -> Seq<ProbeStep> {
        self.steps@
    }

    /// How many steps of the plan have succeeded.
    pub closed spec fn spec_completed(&self) -> nat {
        self.completed as nat
    }

    /// Whether the probe has ended, in success or failure.
    pub closed spec fn spec_finished(&self) -> bool {
        self.finished
    }

    /// What to release if the probe fails now: the steps that succeeded and set
    /// something up, newest first.
    pub fn to_release(&self) -> (r: Vec<ProbeStep>)
        requires
            self.wf(),
        ensures
            r@ == release_order(self.spec_steps().take(self.spec_completed() as int)),
    {
        let mut r: Vec<ProbeStep> = Vec::new();
        let mut i: usize = self.completed;
        while i > 0
            invariant
                i <= self.completed <= self.steps@.len(),
                release_order(self.steps@.take(self.completed as int)) == r@ + release_order(
                    self.steps@.take(i as int),
                ),
            decreases i,
        {
            let step = self.steps[i - 1];
            let ghost done = self.steps@.take(i as int);
            assert(done.drop_last() =~= self.steps@.take(i - 1));
            assert(done.last() == step);
            let ghost before = r@;
            if step.holds_resource() {
                r.push(step);
                assert(before + release_order(done) =~= r@ + release_order(
                    self.steps@.take(i - 1),
                ));
            }
            i = i - 1;
        }
        assert(release_order(self.steps@.take(0)) =~= Seq::<ProbeStep>::empty());
        assert(r@ + Seq::<ProbeStep>::empty() =~= r@);
        r
    }

    /// Starts a probe over `steps`: the first step is to be run, or, for an empty
    /// plan, the probe is done at once.
    pub fn new(steps: Vec<ProbeStep>) -> (r: (Probe, ProbeAction))
        ensures
            r.0.wf(),
            r.0.spec_steps() == steps@,
            r.0.spec_completed() == 0,
            r.0.spec_finished() == (steps@.len() == 0),
            r.1 == (if steps@.len() == 0 {
                ProbeAction::Done
            } else {
                ProbeAction::Run(steps@[0])
            }),
    {
        if steps.len() == 0 {
            (Probe { steps, completed: 0, finished: true }, ProbeAction::Done)
        } else {
            let first = steps[0];
            (Probe { steps, completed: 0, finished: false }, ProbeAction::Run(first))
        }
    }

    /// Takes the outcome of the step that was run. On success the next step is to be
    /// run, or the probe is done after the last one; on failure the probe fails with
    /// that error, and the steps that succeeded before it are to be released.
    pub fn step(&mut self, outcome: Result<(), Error>) -> (r: ProbeAction)
        requires
            old(self).wf(),
            !old(self).spec_finished(),
        ensures
            final(self).wf(),
            final(self).spec_steps() == old(self).spec_steps(),
            match outcome {
                Ok(()) => {
                    &&& final(self).spec_completed() == old(self).spec_completed() + 1
                    &&& final(self).spec_finished() == (final(self).spec_completed()
                        == old(self).spec_steps().len())
                    &&& r == if final(self).spec_finished() {
                        ProbeAction::Done
                    } else {
                        ProbeAction::Run(old(self).spec_steps()[final(self).spec_completed() as int])
                    }
                },
                Err(e) => {
                    &&& final(self).spec_completed() == old(self).spec_completed()
                    &&& final(self).spec_finished()
                    &&& r == ProbeAction::Fail(e)
                },
            },
    {
        match outcome {
            Ok(()) => {
                let planned = self.steps.len();
                self.completed = self.completed + 1;
                if self.completed == planned {
                    self.finished = true;
                    ProbeAction::Done
                } else {
                    ProbeAction::Run(self.steps[self.completed])
                }
            },
            Err(e) => {
                self.finished = true;
                ProbeAction::Fail(e)
            },
        }
    }
}

} // verus!
