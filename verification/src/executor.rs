//! The debugger: a machine, a tracker, a mode and a set of breakpoints.
//!
//! The mode starts as `Paused`. A cycle taken in any mode but `Invalid` leaves
//! the mode `Running`, unless it stops at a breakpoint (`Breakpoint`) or the
//! step fails (`Invalid` with the fault; the `syscall` instruction fails with
//! `CpuSyscall`). `invalid_handled` turns `Invalid(CpuSyscall)` into
//! `Recovered`; `pause` and `override_mode` set the mode outright.

use vstd::prelude::*;
use std::collections::HashSet;
use crate::cpu::{State, StateView};
use crate::error::Error;
use crate::registers::Registers;
use crate::tracker::{undo, Tracker, TrackerView};
use crate::watched::WatchedView;

verus! {

/// What the debugger is doing.
#[derive(Clone, Copy, Debug, PartialEq, Eq, Structural)]
pub enum ExecutorMode {
    /// Instructions are being carried out.
    Running,
    /// The host has paused the machine, or it has not started yet.
    Paused,
    /// The machine stands before an instruction with a breakpoint.
    Breakpoint,
    /// A system call was handled; the next cycle goes on.
    Recovered,
    /// A step failed with this fault. No cycle is taken in this mode.
    Invalid(Error),
}

/// The mode and the registers at one moment.
#[derive(Clone, Copy, Debug)]
pub struct DebugFrame {
    /// The mode.
    pub mode: ExecutorMode,
    /// The registers.
    pub registers: Registers,
}

/// The debugger as mathematical values.
pub struct ExecutorView {
    /// The machine.
    pub state: StateView,
    /// The tracker.
    pub tracker: TrackerView,
    /// The mode.
    pub mode: ExecutorMode,
    /// The breakpoints.
    pub breakpoints: Set<u32>,
}

/// The state with an empty journal.
pub open spec fn collected(state: StateView) -> StateView {
    StateView { memory: WatchedView { log: Seq::empty(), ..state.memory }, ..state }
}

/// The mode after a step with this outcome.
pub open spec fn mode_after(outcome: Result<(), Error>) -> ExecutorMode {
    match outcome {
        Ok(_) => ExecutorMode::Running,
        Err(error) => ExecutorMode::Invalid(error),
    }
}

impl ExecutorView {
    /// The mode and the registers.
    pub open spec fn frame(self) -> DebugFrame {
        DebugFrame { mode: self.mode, registers: self.state.registers }
    }

    /// The debugger in another mode.
    pub open spec fn with_mode(self, mode: ExecutorMode) -> ExecutorView {
        ExecutorView { mode, ..self }
    }

    /// The debugger after `invalid_handled`.
    pub open spec fn invalid_handled(self) -> ExecutorView {
        if self.mode == ExecutorMode::Invalid(Error::CpuSyscall) {
            self.with_mode(ExecutorMode::Recovered)
        } else {
            self
        }
    }

    /// What one cycle returns, and the debugger after it.
    ///
    /// In mode `Invalid` nothing happens. Else, where breakpoints are heeded
    /// and one stands at the program counter, the mode becomes `Breakpoint`
    /// and no instruction is carried out. Else the tracker opens a frame, the
    /// machine takes one step, and the tracker collects the journal.
    pub open spec fn cycle(self, allow_break: bool) -> (Option<DebugFrame>, ExecutorView) {
        if self.mode is Invalid {
            (None, self)
        } else if allow_break && self.breakpoints.contains(self.state.registers.pc) {
            (
                Some(self.with_mode(ExecutorMode::Breakpoint).frame()),
                self.with_mode(ExecutorMode::Breakpoint),
            )
        } else {
            let stepped = collected(self.state).step();
            let after = ExecutorView {
                state: collected(stepped.1),
                tracker: self.tracker.pre_track(self.state.registers, self.state.memory.log).post_track(
                    stepped.1.memory.log,
                ),
                mode: mode_after(stepped.0),
                breakpoints: self.breakpoints,
            };
            (Some(after.frame()), after)
        }
    }

    /// What a run of at most `limit` cycles returns, and the debugger after
    /// it. The run ends with the first cycle that leaves a mode other than
    /// `Running`, or is not taken at all. Only the first cycle heeds
    /// `allow_break`; the later ones stop at breakpoints.
    pub open spec fn run(self, allow_break: bool, limit: nat) -> (DebugFrame, ExecutorView)
        decreases limit,
    {
        if limit == 0 {
            (self.frame(), self)
        } else {
            match self.cycle(allow_break).0 {
                None => (self.frame(), self),
                Some(frame) => if frame.mode is Running {
                    self.cycle(allow_break).1.run(true, (limit - 1) as nat)
                } else {
                    (frame, self.cycle(allow_break).1)
                },
            }
        }
    }

    /// The debugger after the tracker collects the journal.
    pub open spec fn collect(self) -> ExecutorView {
        ExecutorView {
            state: collected(self.state),
            tracker: self.tracker.post_track(self.state.memory.log),
            ..self
        }
    }

    /// The debugger after the latest frame is taken back: the frame's
    /// registers return, and what the frame's writes replaced is written back.
    pub open spec fn rewind_one(self) -> ExecutorView {
        ExecutorView {
            state: StateView {
                registers: self.tracker.frames().last().registers,
                memory: WatchedView {
                    backing: undo(self.state.memory.backing, self.tracker.frames().last().edits),
                    log: self.state.memory.log,
                },
            },
            tracker: match self.tracker {
                TrackerView::Empty => TrackerView::Empty,
                TrackerView::History(history) => TrackerView::History(history.pop()),
            },
            ..self
        }
    }

    /// The debugger after up to `count` frames are taken back, the latest
    /// first. Before each, the tracker collects the journal. It stops early
    /// where no frame is left.
    pub open spec fn rewind_frames(self, count: nat) -> ExecutorView
        decreases count,
    {
        if count == 0 {
            self
        } else if self.collect().tracker.frames().len() == 0 {
            self.collect()
        } else {
            self.collect().rewind_one().rewind_frames((count - 1) as nat)
        }
    }

    /// The debugger after it is paused and up to `count` frames are taken back.
    pub open spec fn rewind(self, count: nat) -> ExecutorView {
        self.with_mode(ExecutorMode::Paused).rewind_frames(count)
    }
}

/// The debugger.
pub struct Executor {
    /// The machine.
    pub state: State,
    /// The tracker.
    pub tracker: Tracker,
    /// The mode.
    pub mode: ExecutorMode,
    /// The breakpoints.
    pub breakpoints: HashSet<u32>,
}

impl View for Executor {
    type V = ExecutorView;

    open spec fn view(&self) -> ExecutorView {
        ExecutorView {
            state: self.state@,
            tracker: self.tracker@,
            mode: self.mode,
            breakpoints: self.breakpoints@,
        }
    }
}

impl Executor {
    /// Whether the machine is well formed.
    pub open spec fn wf(&self) -> bool {
        self.state.wf()
    }

    /// A paused debugger without breakpoints.
    pub fn new(state: State, tracker: Tracker) -> (executor: Executor)
        requires
            state.wf(),
        ensures
            executor.wf(),
            executor.state == state,
            executor.tracker == tracker,
            executor@.state == state@,
            executor@.tracker == tracker@,
            executor@.mode == ExecutorMode::Paused,
            executor@.breakpoints == Set::<u32>::empty(),
    {
        Executor { state, tracker, mode: ExecutorMode::Paused, breakpoints: HashSet::new() }
    }

    /// The mode and the registers.
    pub fn frame(&self) -> (frame: DebugFrame)
        ensures
            frame == self@.frame(),
    {
        DebugFrame { mode: self.mode, registers: self.state.registers }
    }

    /// The mode.
    pub fn mode(&self) -> (mode: ExecutorMode)
        ensures
            mode == self@.mode,
    {
        self.mode
    }

    /// Replaces the breakpoints.
    pub fn set_breakpoints(&mut self, breakpoints: HashSet<u32>)
        ensures
            final(self)@ == (ExecutorView { breakpoints: breakpoints@, ..old(self)@ }),
            final(self).state == old(self).state,
            final(self).tracker == old(self).tracker,
    {
        self.breakpoints = breakpoints;
    }

    /// Pauses the machine.
    pub fn pause(&mut self)
        ensures
            final(self)@ == old(self)@.with_mode(ExecutorMode::Paused),
            final(self).state == old(self).state,
            final(self).tracker == old(self).tracker,
    {
        self.mode = ExecutorMode::Paused;
    }

    /// Sets the mode.
    pub fn override_mode(&mut self, mode: ExecutorMode)
        ensures
            final(self)@ == old(self)@.with_mode(mode),
            final(self).state == old(self).state,
            final(self).tracker == old(self).tracker,
    {
        self.mode = mode;
    }

    /// Whether the machine stands at a breakpoint.
    pub fn is_breakpoint(&self) -> (stopped: bool)
        ensures
            stopped == (self@.mode == ExecutorMode::Breakpoint),
    {
        match self.mode {
            ExecutorMode::Breakpoint => true,
            _ => false,
        }
    }

    /// Marks a system call as handled: `Invalid(CpuSyscall)` becomes
    /// `Recovered`. Any other mode stays.
    pub fn invalid_handled(&mut self)
        ensures
            final(self)@ == old(self)@.invalid_handled(),
            final(self).state == old(self).state,
            final(self).tracker == old(self).tracker,
    {
        if let ExecutorMode::Invalid(Error::CpuSyscall) = self.mode {
            self.mode = ExecutorMode::Recovered;
        }
    }

    /// Takes one cycle. Returns `None` where the mode does not let the
    /// machine advance.
    pub fn cycle(&mut self, allow_break: bool) -> (frame: Option<DebugFrame>)
        requires
            old(self).wf(),
        ensures
            final(self).wf(),
            frame == old(self)@.cycle(allow_break).0,
            final(self)@ == old(self)@.cycle(allow_break).1,
    {
        broadcast use vstd::std_specs::hash::group_hash_axioms;

        if let ExecutorMode::Invalid(_) = self.mode {
            return None;
        }
        if allow_break && self.breakpoints.contains(&self.state.registers.pc) {
            self.mode = ExecutorMode::Breakpoint;
            return Some(self.frame());
        }
        self.tracker.pre_track(&mut self.state);
        assert(self.state@ == collected(old(self).state@));
        let outcome = self.state.step();
        self.tracker.post_track(&mut self.state);
        self.mode = match outcome {
            Ok(_) => ExecutorMode::Running,
            Err(error) => ExecutorMode::Invalid(error),
        };
        Some(self.frame())
    }

    /// Runs until a cycle ends in a mode other than `Running`: at a
    /// breakpoint, at a system call, at a fault. The first cycle passes a
    /// breakpoint where `skip_first_breakpoint` is set. The run is cut off
    /// after 2^64 - 1 cycles.
    pub fn run(&mut self, skip_first_breakpoint: bool) -> (frame: DebugFrame)
        requires
            old(self).wf(),
        ensures
            final(self).wf(),
            (frame, final(self)@) == old(self)@.run(!skip_first_breakpoint, u64::MAX as nat),
    {
        self.run_limited(skip_first_breakpoint, u64::MAX)
    }

    /// Runs as `run` does, for at most `limit` cycles.
    pub fn run_limited(&mut self, skip_first_breakpoint: bool, limit: u64) -> (frame: DebugFrame)
        requires
            old(self).wf(),
        ensures
            final(self).wf(),
            (frame, final(self)@) == old(self)@.run(!skip_first_breakpoint, limit as nat),
    {
        let mut allow_break: bool = !skip_first_breakpoint;
        let mut count: u64 = 0;
        while count < limit
            invariant
                self.wf(),
                count <= limit,
                old(self)@.run(!skip_first_breakpoint, limit as nat) == self@.run(
                    allow_break,
                    (limit - count) as nat,
                ),
            decreases limit - count,
        {
            match self.cycle(allow_break) {
                None => {
                    return self.frame();
                },
                Some(frame) => {
                    if let ExecutorMode::Running = frame.mode {
                    } else {
                        return frame;
                    }
                },
            }
            allow_break = true;
            count = count + 1;
        }
        self.frame()
    }

    /// The program counter before the latest instruction that the tracker
    /// remembers.
    pub fn last_pc(&self) -> (pc: Option<u32>)
        ensures
            pc == if self@.tracker.frames().len() > 0 {
                Some(self@.tracker.frames().last().registers.pc)
            } else {
                None
            },
    {
        self.tracker.last_pc()
    }

    /// Pauses the machine and takes up to `count` instructions back, the
    /// latest first.
    pub fn rewind(&mut self, count: u32)
        requires
            old(self).wf(),
        ensures
            final(self).wf(),
            final(self)@ == old(self)@.rewind(count as nat),
    {
        self.mode = ExecutorMode::Paused;
        let mut left: u32 = count;
        while left > 0
            invariant
                self.wf(),
                old(self)@.rewind(count as nat) == self@.rewind_frames(left as nat),
            decreases left,
        {
            let ghost before = self@;
            self.tracker.post_track(&mut self.state);
            assert(self@ == before.collect());
            match self.tracker.pop() {
                None => {
                    return ;
                },
                Some(entry) => {
                    entry.apply(&mut self.state.registers, &mut self.state.memory.backing);
                    assert(self@.tracker == before.collect().rewind_one().tracker);
                    assert(self@ == before.collect().rewind_one());
                },
            }
            left = left - 1;
        }
    }
}

/// The modes that a cycle can leave. In mode `Invalid` no cycle is taken and
/// the debugger stays as it is. Else the cycle stops at a breakpoint, or it
/// carries a step out: the mode is then `Running` where the step went well,
/// and `Invalid` with the fault where it did not.
pub proof fn lemma_cycle_modes(before: ExecutorView, allow_break: bool)
    ensures
        before.mode is Invalid ==> before.cycle(allow_break) == (None::<DebugFrame>, before),
        !(before.mode is Invalid) ==> before.cycle(allow_break).0 == Some(
            before.cycle(allow_break).1.frame(),
        ),
        !(before.mode is Invalid) && allow_break && before.breakpoints.contains(
            before.state.registers.pc,
        ) ==> before.cycle(allow_break).1 == before.with_mode(ExecutorMode::Breakpoint),
        !(before.mode is Invalid) && !(allow_break && before.breakpoints.contains(
            before.state.registers.pc,
        )) ==> before.cycle(allow_break).1.mode == mode_after(collected(before.state).step().0)
            && !(before.cycle(allow_break).1.mode is Paused) && !(before.cycle(
            allow_break,
        ).1.mode is Recovered) && !(before.cycle(allow_break).1.mode is Breakpoint),
        before.cycle(allow_break).1.breakpoints == before.breakpoints,
{
}

impl ExecutorView {
    /// The number of cycles that a run of at most `limit` cycles takes.
    pub open spec fn cycles_run(self, allow_break: bool, limit: nat) -> nat
        decreases limit,
    {
        if limit == 0 {
            0
        } else {
            match self.cycle(allow_break).0 {
                None => 0,
                Some(frame) => if frame.mode is Running {
                    1 + self.cycle(allow_break).1.cycles_run(true, (limit - 1) as nat)
                } else {
                    1
                },
            }
        }
    }
}

/// A run returns the frame in which it leaves the debugger. It ends in a
/// mode other than `Running`, unless it has used up its cycles.
pub proof fn lemma_run_stops(before: ExecutorView, allow_break: bool, limit: nat)
    ensures
        before.run(allow_break, limit).0 == before.run(allow_break, limit).1.frame(),
        before.cycles_run(allow_break, limit) <= limit,
        before.run(allow_break, limit).0.mode is Running ==> before.cycles_run(allow_break, limit)
            == limit,
    decreases limit,
{
    if limit > 0 {
        match before.cycle(allow_break).0 {
            None => {},
            Some(frame) => {
                if frame.mode is Running {
                    lemma_run_stops(before.cycle(allow_break).1, true, (limit - 1) as nat);
                }
            },
        }
    }
}

/// Handling a system call recovers the machine from the call and from
/// nothing else; pausing and overriding set the mode whatever it was.
pub proof fn lemma_mode_changes(before: ExecutorView, mode: ExecutorMode)
    ensures
        before.mode == ExecutorMode::Invalid(Error::CpuSyscall) ==> before.invalid_handled().mode
            == ExecutorMode::Recovered,
        before.mode != ExecutorMode::Invalid(Error::CpuSyscall) ==> before.invalid_handled()
            == before,
        before.with_mode(ExecutorMode::Paused).mode == ExecutorMode::Paused,
        before.with_mode(mode).mode == mode,
{
}

} // verus!
