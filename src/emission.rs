use crate::error::Error;
use vstd::prelude::*;

verus! {

/// What the driver of an emission does next.
#[derive(Debug, Clone, Copy, PartialEq, Eq, Structural)]
pub enum Action {
    /// Draw a delay from the pacing law and wait it out before unit `i`.
    Wait(usize),
    /// Write unit `i` to the sink.
    Write(usize),
    /// Flush the sink.
    Flush,
    /// Every unit has been written and flushed.
    Finish,
    /// A write or a flush failed; stop with this error. What was written stays.
    Fail(Error),
}

#[derive(Debug, Clone, Copy, PartialEq, Eq, Structural)]
enum Stage {
    Wait,
    Write,
    Flush,
}

/// The step of the emission schedule at position `k`.
pub open spec fn step_at(n: nat, k: int) -> Action {
    if k >= 3 * n {
        Action::Finish
    } else if k % 3 == 0 {
        Action::Wait((k / 3) as usize)
    } else if k % 3 == 1 {
        Action::Write((k / 3) as usize)
    } else {
        Action::Flush
    }
}

/// The whole schedule of an emission of `n` units when nothing fails: for
/// each unit in order a wait, a write and a flush, then the finish.
pub open spec fn schedule(n: nat) -> Seq<Action> {
    Seq::new(3 * n + 1, |k: int| step_at(n, k))
}

/// The sequencing of one emission: each unit is delayed, written and flushed
/// before the next one starts. The caller performs each action and reports
/// whether it succeeded.
pub struct Emission {
    units: usize,
    done: usize,
    stage: Stage,
    failed: bool,
}

impl Emission {
    #[verifier::type_invariant]
    spec fn inv(self) -> bool {
        &&& self.done <= self.units
        &&& self.done == self.units ==> self.stage == Stage::Wait
        &&& 3 * self.units + 1 <= usize::MAX
    }

    /// The number of units to emit.
    pub closed spec fn units_spec(&self) -> nat {
        self.units as nat
    }

    /// How far along the schedule the emission is.
    pub closed spec fn position(&self) -> int {
        3 * self.done + match self.stage {
            Stage::Wait => 0int,
            Stage::Write => 1,
            Stage::Flush => 2,
        }
    }

    pub closed spec fn has_failed(&self) -> bool {
        self.failed
    }

    /// The emission is over: finished or failed.
    pub open spec fn is_over(&self) -> bool {
        self.has_failed() || self.position() == 3 * self.units_spec()
    }

    /// Starts an emission of `units` units.
    pub fn new(units: usize) -> (r: Emission)
        requires
            3 * units + 1 <= usize::MAX,
        ensures
            r.units_spec() == units,
            r.position() == 0,
            !r.has_failed(),
    {
        Emission { units, done: 0, stage: Stage::Wait, failed: false }
    }

    /// The action to perform now.
    pub fn next_action(&self) -> (r: Action)
        ensures
            self.has_failed() ==> r == Action::Fail(Error::IoFailure),
            !self.has_failed() ==> r == schedule(self.units_spec())[self.position()],
    {
        proof {
            use_type_invariant(self);
        }
        if self.failed {
            return Action::Fail(Error::IoFailure);
        }
        if self.done == self.units {
            return Action::Finish;
        }
        match self.stage {
            Stage::Wait => Action::Wait(self.done),
            Stage::Write => Action::Write(self.done),
            Stage::Flush => Action::Flush,
        }
    }

    /// Records how the action just performed went: a failed write or flush
    /// ends the emission; a success moves one step along the schedule.
    pub fn record(&mut self, ok: bool)
        ensures
            final(self).units_spec() == old(self).units_spec(),
            old(self).is_over() ==> *final(self) == *old(self),
            !old(self).is_over() && !ok ==> final(self).has_failed() && final(self).position()
                == old(self).position(),
            !old(self).is_over() && ok ==> !final(self).has_failed() && final(self).position()
                == old(self).position() + 1,
            0 <= final(self).position() <= 3 * final(self).units_spec(),
    {
        proof {
            use_type_invariant(&*self);
        }
        if self.failed || self.done == self.units {
            return;
        }
        if !ok {
            self.failed = true;
            return;
        }
        match self.stage {
            Stage::Wait => {
                self.stage = Stage::Write;
            },
            Stage::Write => {
                self.stage = Stage::Flush;
            },
            Stage::Flush => {
                self.stage = Stage::Wait;
                self.done = self.done + 1;
            },
        }
    }
}

/// Without failures, an emission of `n` units writes each unit exactly once,
/// in order, flushes right after every write, and waits before every write.
pub proof fn lemma_schedule_writes_each_unit_once(n: nat)
    requires
        3 * n + 1 <= usize::MAX,
    ensures
        schedule(n).len() == 3 * n + 1,
        schedule(n).last() == Action::Finish,
        forall|i: int|
            0 <= i < n ==> {
                &&& #[trigger] schedule(n)[3 * i] == Action::Wait(i as usize)
                &&& schedule(n)[3 * i + 1] == Action::Write(i as usize)
                &&& schedule(n)[3 * i + 2] == Action::Flush
            },
        forall|k: int|
            0 <= k < schedule(n).len() ==> (#[trigger] schedule(n)[k] is Write <==> (k < 3 * n
                && k % 3 == 1)),
{
    assert forall|i: int| 0 <= i < n implies {
        &&& #[trigger] schedule(n)[3 * i] == Action::Wait(i as usize)
        &&& schedule(n)[3 * i + 1] == Action::Write(i as usize)
        &&& schedule(n)[3 * i + 2] == Action::Flush
    } by {
        assert((3 * i) % 3 == 0 && (3 * i) / 3 == i) by (nonlinear_arith);
        assert((3 * i + 1) % 3 == 1 && (3 * i + 1) / 3 == i) by (nonlinear_arith);
        assert((3 * i + 2) % 3 == 2 && (3 * i + 2) / 3 == i) by (nonlinear_arith);
    }
}

} // verus!
