//! The run loop, one leg at a time.
//!
//! A leg runs the machine until it stops and, where it stopped at a system
//! call, dispatches the call. A call that ends well is marked as handled, and
//! the run goes on with the next leg. A call that needs the host suspends the
//! run: the host carries the request out and settles the call with its
//! reply. A call may also end and leave the host a request to carry out
//! beside the run. Everything else stops the run.

use vstd::prelude::*;
use crate::error::Error;
use crate::executor::{DebugFrame, Executor, ExecutorMode, ExecutorView};
use crate::syscall::{
    outcome,
    world,
    ReplyView,
    RequestView,
    ResultView,
    StepView,
    SyscallReply,
    SyscallRequest,
    SyscallResult,
    SyscallState,
    SyscallStep,
    World,
};

verus! {

/// How a leg of the run ended.
#[derive(Debug)]
pub enum Advance {
    /// The run stopped with this frame; a system call that stopped it left
    /// its result.
    Stopped(DebugFrame, Option<SyscallResult>),
    /// A system call was handled; the run may go on.
    Handled,
    /// The system call that the frame stopped at needs the host.
    Suspended(DebugFrame, SyscallRequest),
    /// A system call was handled and the run may go on. The request is for
    /// the host to carry out beside the run.
    Detached(SyscallRequest),
}

/// How a leg of the run ended, as mathematical values: the variants of
/// `Advance`.
pub enum AdvanceView {
    Stopped(DebugFrame, Option<ResultView>),
    Handled,
    Suspended(DebugFrame, RequestView),
    Detached(RequestView),
}

impl View for Advance {
    type V = AdvanceView;

    open spec fn view(&self) -> AdvanceView {
        match self {
            Advance::Stopped(frame, result) => AdvanceView::Stopped(
                *frame,
                match result {
                    Some(ended) => Some(ended@),
                    None => None,
                },
            ),
            Advance::Handled => AdvanceView::Handled,
            Advance::Suspended(frame, request) => AdvanceView::Suspended(*frame, request@),
            Advance::Detached(request) => AdvanceView::Detached(request@),
        }
    }
}

/// A leg's end and the world after it.
pub struct Leg {
    /// How the leg ended.
    pub advance: AdvanceView,
    /// The world.
    pub world: World,
}

impl World {
    /// The world with another debugger.
    pub open spec fn with_executor(self, executor: ExecutorView) -> World {
        World { executor, ..self }
    }

    /// What follows a system call that stands at `step`: a call that ended
    /// well is marked as handled, with or without work left to the host;
    /// another end stops the run with the frame at which the call was made;
    /// a request suspends the run.
    pub open spec fn handle_step(self, frame: DebugFrame, step: StepView) -> Leg {
        match step {
            StepView::Finished(ResultView::Completed) => Leg {
                advance: AdvanceView::Handled,
                world: self.with_executor(self.executor.invalid_handled()),
            },
            StepView::Finished(result) => Leg {
                advance: AdvanceView::Stopped(frame, Some(result)),
                world: self,
            },
            StepView::Pending(request) => Leg {
                advance: AdvanceView::Suspended(frame, request),
                world: self,
            },
            StepView::Detached(request) => Leg {
                advance: AdvanceView::Detached(request),
                world: self.with_executor(self.executor.invalid_handled()),
            },
        }
    }

    /// What follows a stop of the machine with `frame`: at a system call, the
    /// call named in `$v0` is dispatched; any other stop ends the run.
    pub open spec fn handle_frame(self, frame: DebugFrame, drawn: u32) -> Leg {
        if frame.mode == ExecutorMode::Invalid(Error::CpuSyscall) {
            self.dispatch(self.line(2), drawn).world.handle_step(
                frame,
                self.dispatch(self.line(2), drawn).step,
            )
        } else {
            Leg { advance: AdvanceView::Stopped(frame, None), world: self }
        }
    }

    /// A leg that runs until the machine stops.
    pub open spec fn run(self, skip_first_breakpoint: bool, drawn: u32) -> Leg {
        self.run_limited(skip_first_breakpoint, u64::MAX as nat, drawn)
    }

    /// A leg of at most `limit` cycles.
    pub open spec fn run_limited(self, skip_first_breakpoint: bool, limit: nat, drawn: u32) -> Leg {
        self.with_executor(self.executor.run(!skip_first_breakpoint, limit).1).handle_frame(
            self.executor.run(!skip_first_breakpoint, limit).0,
            drawn,
        )
    }

    /// A leg of a batch: at most `count` cycles. Where interrupts are
    /// allowed and the machine is paused, the leg stops before its first
    /// cycle.
    pub open spec fn run_batch(
        self,
        count: nat,
        skip_first_breakpoint: bool,
        allow_interrupt: bool,
        drawn: u32,
    ) -> Leg {
        if allow_interrupt && self.executor.mode == ExecutorMode::Paused {
            Leg { advance: AdvanceView::Stopped(self.executor.frame(), None), world: self }
        } else {
            self.run_limited(skip_first_breakpoint, count, drawn)
        }
    }

    /// A single cycle, and what follows it. A machine that stands at a
    /// breakpoint steps over it.
    pub open spec fn cycle(self, drawn: u32) -> Leg {
        let allow_break = self.executor.mode != ExecutorMode::Breakpoint;
        match self.executor.cycle(allow_break).0 {
            Some(frame) => self.with_executor(self.executor.cycle(allow_break).1).handle_frame(
                frame,
                drawn,
            ),
            None => self.handle_frame(self.executor.frame(), drawn),
        }
    }

    /// What follows the host's reply to a request.
    pub open spec fn settle(
        self,
        frame: DebugFrame,
        request: RequestView,
        reply: ReplyView,
        drawn: u32,
    ) -> Leg {
        self.complete(request, reply, drawn).world.handle_step(
            frame,
            self.complete(request, reply, drawn).step,
        )
    }
}

/// The leg that an end and the values after it make up.
pub open spec fn leg(advance: Advance, executor: &Executor, syscalls: &SyscallState) -> Leg {
    Leg { advance: advance@, world: world(executor, syscalls) }
}

/// The system calls of one run, with the run loop over them.
pub struct SyscallDelegate {
    /// What the system calls keep between calls.
    pub state: SyscallState,
}

impl SyscallDelegate {
    /// A delegate over `state`.
    pub fn new(state: SyscallState) -> (delegate: SyscallDelegate)
        ensures
            delegate.state == state,
    {
        SyscallDelegate { state }
    }

    /// Carries out the system call with number `code`, as far as it goes
    /// without the host.
    pub fn dispatch(&mut self, executor: &mut Executor, code: u32) -> (step: SyscallStep)
        requires
            old(executor).wf(),
        ensures
            final(executor).wf(),
            outcome(step, final(executor), &final(self).state) == world(
                old(executor),
                &old(self).state,
            ).dispatch(code, final(executor).state.registers.line[4]),
    {
        self.state.dispatch(executor, code)
    }

    /// Decides what follows a system call that stands at `step`.
    pub fn handle_step(&mut self, executor: &mut Executor, frame: DebugFrame, step: SyscallStep) -> (advance:
        Advance)
        requires
            old(executor).wf(),
        ensures
            final(executor).wf(),
            leg(advance, final(executor), &final(self).state) == world(
                old(executor),
                &old(self).state,
            ).handle_step(frame, step@),
    {
        match step {
            SyscallStep::Finished(SyscallResult::Completed) => {
                executor.invalid_handled();
                Advance::Handled
            },
            SyscallStep::Finished(result) => Advance::Stopped(frame, Some(result)),
            SyscallStep::Pending(request) => Advance::Suspended(frame, request),
            SyscallStep::Detached(request) => {
                executor.invalid_handled();
                Advance::Detached(request)
            },
        }
    }

    /// Decides what follows a stop of the machine with `frame`.
    pub fn handle_frame(&mut self, executor: &mut Executor, frame: DebugFrame) -> (advance: Advance)
        requires
            old(executor).wf(),
        ensures
            final(executor).wf(),
            leg(advance, final(executor), &final(self).state) == world(
                old(executor),
                &old(self).state,
            ).handle_frame(frame, final(executor).state.registers.line[4]),
    {
        if let ExecutorMode::Invalid(Error::CpuSyscall) = frame.mode {
            let code: u32 = executor.state.registers.line[2];
            let step = self.state.dispatch(executor, code);
            let ghost after = executor.state.registers.line[4];
            let advance = self.handle_step(executor, frame, step);
            assert(executor.state.registers.line[4] == after);
            advance
        } else {
            Advance::Stopped(frame, None)
        }
    }

    /// Runs the machine until it stops, and decides what follows.
    pub fn run(&mut self, executor: &mut Executor, skip_first_breakpoint: bool) -> (advance: Advance)
        requires
            old(executor).wf(),
        ensures
            final(executor).wf(),
            leg(advance, final(executor), &final(self).state) == world(
                old(executor),
                &old(self).state,
            ).run(skip_first_breakpoint, final(executor).state.registers.line[4]),
    {
        let frame = executor.run(skip_first_breakpoint);
        self.handle_frame(executor, frame)
    }

    /// Runs the machine for at most `count` cycles, and decides what follows.
    /// Where interrupts are allowed, a paused machine does not run.
    pub fn run_batch(
        &mut self,
        executor: &mut Executor,
        count: usize,
        skip_first_breakpoint: bool,
        allow_interrupt: bool,
    ) -> (advance: Advance)
        requires
            old(executor).wf(),
        ensures
            final(executor).wf(),
            leg(advance, final(executor), &final(self).state) == world(
                old(executor),
                &old(self).state,
            ).run_batch(
                count as nat,
                skip_first_breakpoint,
                allow_interrupt,
                final(executor).state.registers.line[4],
            ),
    {
        if allow_interrupt {
            if let ExecutorMode::Paused = executor.mode() {
                return Advance::Stopped(executor.frame(), None);
            }
        }
        let frame = executor.run_limited(skip_first_breakpoint, count as u64);
        self.handle_frame(executor, frame)
    }

    /// Takes one cycle and decides what follows. A machine that stands at a
    /// breakpoint steps over it.
    pub fn cycle(&mut self, executor: &mut Executor) -> (advance: Advance)
        requires
            old(executor).wf(),
        ensures
            final(executor).wf(),
            leg(advance, final(executor), &final(self).state) == world(
                old(executor),
                &old(self).state,
            ).cycle(final(executor).state.registers.line[4]),
    {
        let allow_break: bool = !executor.is_breakpoint();
        let frame = match executor.cycle(allow_break) {
            Some(frame) => frame,
            None => executor.frame(),
        };
        self.handle_frame(executor, frame)
    }

    /// Goes on with a suspended call, now that the host has answered, and
    /// decides what follows.
    pub fn settle(
        &mut self,
        executor: &mut Executor,
        frame: DebugFrame,
        request: SyscallRequest,
        reply: SyscallReply,
    ) -> (advance: Advance)
        requires
            old(executor).wf(),
        ensures
            final(executor).wf(),
            leg(advance, final(executor), &final(self).state) == world(
                old(executor),
                &old(self).state,
            ).settle(frame, request@, reply@, final(executor).state.registers.line[4]),
    {
        let step = self.state.complete(executor, request, reply);
        let ghost after = executor.state.registers.line[4];
        let advance = self.handle_step(executor, frame, step);
        assert(executor.state.registers.line[4] == after);
        advance
    }

    /// After a handled call: the frame to stop with where the machine is no
    /// longer in the mode that handling left, because the host paused or
    /// stopped it meanwhile.
    pub fn recovered(&self, executor: &Executor) -> (stop: Option<DebugFrame>)
        ensures
            stop == if executor@.mode == ExecutorMode::Recovered {
                None
            } else {
                Some(executor@.frame())
            },
    {
        if let ExecutorMode::Recovered = executor.mode() {
            None
        } else {
            Some(executor.frame())
        }
    }
}

/// A call that needs the host is aborted while the run is cancelled, and the
/// machine stays at the call: the next run enters the same call again.
pub proof fn lemma_cancelled_call_aborts(before: World, frame: DebugFrame, drawn: u32)
    requires
        before.syscalls.cancelled,
        frame.mode == ExecutorMode::Invalid(Error::CpuSyscall),
        crate::syscall::needs_host(before.line(2)),
    ensures
        before.handle_frame(frame, drawn) == (Leg {
            advance: AdvanceView::Stopped(frame, Some(ResultView::Aborted)),
            world: before,
        }),
{
}

/// Once the cancellation is lifted, a call goes as if the run had never been
/// cancelled.
pub proof fn lemma_renewed_call_proceeds(before: World, code: u32, drawn: u32)
    ensures
        ({
            let cancelled = World {
                syscalls: crate::syscall::SyscallView { cancelled: true, ..before.syscalls },
                ..before
            };
            let renewed = World {
                syscalls: crate::syscall::SyscallView { cancelled: false, ..cancelled.syscalls },
                ..cancelled
            };
            let fresh = World {
                syscalls: crate::syscall::SyscallView { cancelled: false, ..before.syscalls },
                ..before
            };
            renewed.dispatch(code, drawn) == fresh.dispatch(code, drawn)
        }),
{
}

} // verus!
