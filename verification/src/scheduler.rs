//! Frame pacing: how many 60 Hz ticks are due after some time has passed,
//! and what one tick does to the machine.

use vstd::prelude::*;
use crate::error::Fault;
use crate::machine::{cycle_outcome, Chip8};
use crate::state::MachineState;

verus! {

/// Timer ticks, and frames shown, per second.
pub const TICKS_PER_SECOND: u64 = 60;

/// Nanoseconds in a second.
pub const NANOS_PER_SECOND: u64 = 1_000_000_000;

/// Whether the scheduler still runs cycles.
#[derive(Clone, Copy, Debug, PartialEq, Eq)]
pub enum RunState {
    /// Cycles are run as ticks fall due.
    Running,
    /// The input side asked to stop.
    Stopped,
    /// A cycle failed with this fault.
    Halted(Fault),
}

/// The mathematical content of a [`Scheduler`].
pub struct Pacing {
    /// How many cycles are run before each tick of the timers.
    pub cycles_per_tick: u32,
    /// Time that has passed and has not yet made up a tick, in sixtieths of
    /// a nanosecond: a tick is due for every `NANOS_PER_SECOND` of them.
    pub backlog: u64,
    /// Whether cycles are still run.
    pub status: RunState,
}

impl Pacing {
    /// Less than one tick is pending.
    pub open spec fn wf(self) -> bool {
        self.backlog < NANOS_PER_SECOND
    }

    /// The pending time after `nanos` more nanoseconds, ticks not yet taken
    /// out.
    pub open spec fn pending(self, nanos: u64) -> int {
        self.backlog + nanos * TICKS_PER_SECOND
    }

    /// How many ticks are due once `nanos` more nanoseconds have passed. A
    /// scheduler that has stopped or halted owes none.
    pub open spec fn ticks_due(self, nanos: u64) -> int {
        if self.status is Running {
            self.pending(nanos) / (NANOS_PER_SECOND as int)
        } else {
            0
        }
    }

    /// The pacing after `nanos` more nanoseconds have passed and the ticks
    /// due have been handed out.
    pub open spec fn elapsed(self, nanos: u64) -> Pacing {
        if self.status is Running {
            Pacing { backlog: (self.pending(nanos) % (NANOS_PER_SECOND as int)) as u64, ..self }
        } else {
            self
        }
    }

    /// The pacing after the input side asked to stop. A halt stays a halt.
    pub open spec fn stopped(self) -> Pacing {
        if self.status is Running {
            Pacing { status: RunState::Stopped, ..self }
        } else {
            self
        }
    }
}

/// Where a run of cycles has arrived: the state, and the fault that ended
/// the run early, if one did.
pub struct Run {
    /// The state after the last cycle that succeeded.
    pub state: MachineState,
    /// The fault of the cycle that failed.
    pub fault: Option<Fault>,
}

/// The run of cycles from `start`, one cycle for each byte of `randoms`,
/// each byte being what the random source gave in that cycle. The first
/// fault ends the run; the cycles after it are not made.
#[verifier::opaque]
pub open spec fn run(start: MachineState, randoms: Seq<u8>) -> Run
    decreases randoms.len(),
{
    if randoms.len() == 0 {
        Run { state: start, fault: None }
    } else {
        let earlier = run(start, randoms.drop_last());
        if earlier.fault is Some {
            earlier
        } else {
            match earlier.state.step(randoms.last()) {
                Ok(next) => Run { state: next, fault: None },
                Err(fault) => Run { state: earlier.state, fault: Some(fault) },
            }
        }
    }
}

/// Whether one tick at `cycles_per_tick` cycles, begun in `before` with
/// `randoms` as the bytes from the random source, ends in `after` with the
/// scheduler in `status`. Without a fault all the cycles are run, the
/// timers tick once, and the scheduler goes on running. A fault ends the
/// tick where it occurs: the timers do not tick, and the scheduler halts
/// with that fault.
#[verifier::opaque]
pub open spec fn tick_outcome(
    cycles_per_tick: u32,
    before: MachineState,
    randoms: Seq<u8>,
    after: MachineState,
    status: RunState,
) -> bool {
    let ran = run(before, randoms);
    &&& randoms.len() <= cycles_per_tick
    &&& match ran.fault {
        None => randoms.len() == cycles_per_tick && after == ran.state.ticked() && status
            == RunState::Running,
        Some(fault) => after == ran.state && status == RunState::Halted(fault),
    }
}

/// A run that has not failed goes on by one cycle: to the next state where
/// the cycle succeeds, and to its fault, with the state kept, where it
/// fails.
pub proof fn lemma_run_one_more(
    start: MachineState,
    earlier: Seq<u8>,
    random: u8,
    before: MachineState,
    r: Result<(), Fault>,
    after: MachineState,
)
    requires
        run(start, earlier) == (Run { state: before, fault: None }),
        cycle_outcome(before, random, r, after),
    ensures
        run(start, earlier.push(random)) == (Run {
            state: after,
            fault: match r {
                Ok(_) => None,
                Err(fault) => Some(fault),
            },
        }),
{
    reveal(run);
    reveal(cycle_outcome);
    let longer = earlier.push(random);
    assert(longer.drop_last() =~= earlier);
    assert(longer.last() == random);
}

/// A run of no cycles stays where it starts.
pub proof fn lemma_run_of_nothing(start: MachineState)
    ensures
        run(start, Seq::empty()) == (Run { state: start, fault: None }),
{
    reveal(run);
}

/// A tick whose cycles all succeed ends with the timers ticked once and the
/// scheduler running.
pub proof fn lemma_tick_completes(
    cycles_per_tick: u32,
    start: MachineState,
    randoms: Seq<u8>,
    ran: MachineState,
)
    requires
        run(start, randoms) == (Run { state: ran, fault: None }),
        randoms.len() == cycles_per_tick,
    ensures
        tick_outcome(cycles_per_tick, start, randoms, ran.ticked(), RunState::Running),
{
    reveal(tick_outcome);
}

/// A tick in which a cycle fails ends in the state that the cycle left
/// untouched, with the scheduler halted on the fault.
pub proof fn lemma_tick_halts(
    cycles_per_tick: u32,
    start: MachineState,
    randoms: Seq<u8>,
    ran: MachineState,
    fault: Fault,
)
    requires
        run(start, randoms) == (Run { state: ran, fault: Some(fault) }),
        randoms.len() <= cycles_per_tick,
    ensures
        tick_outcome(cycles_per_tick, start, randoms, ran, RunState::Halted(fault)),
{
    reveal(tick_outcome);
}

/// Paces a machine: a fixed number of cycles for each tick of the 60 Hz
/// clock, as many ticks as the time that has passed calls for.
pub struct Scheduler {
    cycles_per_tick: u32,
    backlog: u64,
    status: RunState,
}

impl View for Scheduler {
    type V = Pacing;

    closed spec fn view(&self) -> Pacing {
        Pacing { cycles_per_tick: self.cycles_per_tick, backlog: self.backlog, status: self.status }
    }
}

impl Scheduler {
    /// The invariant of the type: see [`Pacing::wf`].
    pub open spec fn wf(&self) -> bool {
        self@.wf()
    }

    /// A running scheduler that makes `cycles_per_tick` cycles for each
    /// tick, with no time pending.
    pub fn new(cycles_per_tick: u32) -> (s: Scheduler)
        ensures
            s.wf(),
            s@ == (Pacing { cycles_per_tick, backlog: 0, status: RunState::Running }),
    {
        Scheduler { cycles_per_tick, backlog: 0, status: RunState::Running }
    }

    /// Whether the scheduler runs, has been stopped, or has halted on a
    /// fault.
    pub fn status(&self) -> (status: RunState)
        ensures
            status == self@.status,
    {
        self.status
    }

    /// The number of cycles made for each tick.
    pub fn cycles_per_tick(&self) -> (n: u32)
        ensures
            n == self@.cycles_per_tick,
    {
        self.cycles_per_tick
    }

    /// Takes note that the input side asked to stop. No tick falls due
    /// after that.
    pub fn stop(&mut self)
        requires
            old(self).wf(),
        ensures
            final(self).wf(),
            final(self)@ == old(self)@.stopped(),
    {
        match self.status {
            RunState::Running => {
                self.status = RunState::Stopped;
            },
            _ => {},
        }
    }

    /// Takes note that `nanos` nanoseconds have passed since the last call,
    /// and returns how many ticks have fallen due. What is left over counts
    /// towards the next tick, so that no time is lost between calls.
    pub fn elapse(&mut self, nanos: u64) -> (ticks: u64)
        requires
            old(self).wf(),
        ensures
            final(self).wf(),
            ticks == old(self)@.ticks_due(nanos),
            final(self)@ == old(self)@.elapsed(nanos),
    {
        match self.status {
            RunState::Running => {},
            _ => {
                return 0;
            },
        }
        let pending: u128 = self.backlog as u128 + nanos as u128 * 60u128;
        let ticks: u128 = pending / 1_000_000_000u128;
        let left: u128 = pending % 1_000_000_000u128;
        self.backlog = left as u64;
        ticks as u64
    }

    /// How long to wait, in nanoseconds, until the next tick falls due: the
    /// least time after which [`Scheduler::elapse`] returns a tick.
    pub fn nanos_until_tick(&self) -> (nanos: u64)
        requires
            self.wf(),
        ensures
            self@.pending(nanos) >= NANOS_PER_SECOND,
            nanos > 0,
            self@.pending((nanos - 1) as u64) < NANOS_PER_SECOND,
    {
        (NANOS_PER_SECOND - self.backlog + (TICKS_PER_SECOND - 1)) / TICKS_PER_SECOND
    }

    /// Runs one tick on `vm`: `cycles_per_tick` cycles, then one tick of the
    /// timers, after which a frame is due to be shown. A fault halts the
    /// scheduler at once. A scheduler that is not running touches nothing.
    /// Returns the status after the tick.
    pub fn run_tick(&mut self, vm: &mut Chip8) -> (status: RunState)
        requires
            old(self).wf(),
            old(vm).wf(),
        ensures
            final(self).wf(),
            final(vm).wf(),
            status == final(self)@.status,
            final(self)@ == (Pacing { status, ..old(self)@ }),
            !(old(self)@.status is Running) ==> status == old(self)@.status && final(vm)@ == old(
                vm,
            )@,
            old(self)@.status is Running ==> exists|randoms: Seq<u8>| #[trigger]
                tick_outcome(old(self)@.cycles_per_tick, old(vm)@, randoms, final(vm)@, status),
    {
        match self.status {
            RunState::Running => {},
            other => {
                return other;
            },
        }
        let ghost start = vm@;
        let ghost pacing = self@;
        let ghost mut randoms: Seq<u8> = Seq::empty();
        proof {
            lemma_run_of_nothing(start);
        }
        let mut done: u32 = 0;
        while done < self.cycles_per_tick
            invariant
                vm.wf(),
                self@ == pacing,
                pacing == old(self)@,
                start == old(vm)@,
                pacing.wf(),
                pacing.status is Running,
                done <= pacing.cycles_per_tick,
                randoms.len() == done,
                run(start, randoms) == (Run { state: vm@, fault: None }),
            decreases pacing.cycles_per_tick - done,
        {
            let ghost before = vm@;
            let ghost earlier = randoms;
            let r = vm.cycle();
            proof {
                let random = choose|random: u8| #[trigger] cycle_outcome(before, random, r, vm@);
                lemma_run_one_more(start, earlier, random, before, r, vm@);
                randoms = earlier.push(random);
            }
            match r {
                Ok(()) => {},
                Err(fault) => {
                    self.status = RunState::Halted(fault);
                    proof {
                        lemma_tick_halts(pacing.cycles_per_tick, start, randoms, vm@, fault);
                    }
                    return RunState::Halted(fault);
                },
            }
            done = done + 1;
        }
        let ghost ran = vm@;
        vm.tick_timers();
        proof {
            lemma_tick_completes(pacing.cycles_per_tick, start, randoms, ran);
        }
        RunState::Running
    }
}

} // verus!
