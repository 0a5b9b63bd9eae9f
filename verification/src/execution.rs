//! The device: a debugger with its system calls, and what the host does
//! with them.
//!
//! A resume runs in legs. `resume` prepares the run and takes the first leg;
//! the host answers a suspended leg with `settle`, goes on after a handled
//! call with `proceed`, reads the display with `flush_display`, and turns the
//! leg that stopped into the result with `finish`. Where a handled call left
//! a request behind, the host carries it out beside the run, with what
//! `follow_up` names after it, and goes on with `proceed` without waiting.

use vstd::prelude::*;
use vstd::string::{StrSliceExecFns, StringExecFns};
use std::collections::HashSet;
use crate::cpu::{State, StateView};
use crate::delegate::{leg, Advance, AdvanceView, Leg, SyscallDelegate};
use crate::describe::{error_text, faulting, format_error};
use crate::display::{display, read_display, FlushDisplayState};
use crate::error::Error;
use crate::executor::{DebugFrame, Executor, ExecutorMode, ExecutorView};
use crate::registers::Registers;
use crate::rewind::lemma_rewind_pauses;
use crate::syscall::{
    world,
    ResultView,
    SyscallReply,
    SyscallRequest,
    SyscallResult,
    SyscallView,
    World,
};
use crate::text::{numeral, push_numeral};
use crate::watched::WatchedView;

verus! {

/// How a resume ended.
#[derive(Debug)]
pub enum ResumeMode {
    /// The machine still runs: a batch was used up.
    Running,
    /// The run failed with this message.
    Invalid { message: String },
    /// The run was paused.
    Paused,
    /// The machine stands at a breakpoint.
    Breakpoint,
    /// The program has ended: with the code it gave to `exit`, or with none
    /// where it ran off the end of its code.
    Finished { pc: u32, code: Option<u32> },
}

/// How a resume ended, as mathematical values: the variants of `ResumeMode`,
/// with the message as a sequence of characters.
pub enum ResumeModeView {
    Running,
    Invalid { message: Seq<char> },
    Paused,
    Breakpoint,
    Finished { pc: u32, code: Option<u32> },
}

impl View for ResumeMode {
    type V = ResumeModeView;

    open spec fn view(&self) -> ResumeModeView {
        match self {
            ResumeMode::Running => ResumeModeView::Running,
            ResumeMode::Invalid { message } => ResumeModeView::Invalid { message: message@ },
            ResumeMode::Paused => ResumeModeView::Paused,
            ResumeMode::Breakpoint => ResumeModeView::Breakpoint,
            ResumeMode::Finished { pc, code } => ResumeModeView::Finished { pc: *pc, code: *code },
        }
    }
}

/// The message for a system call that is known and not offered.
pub open spec fn unimplemented_message(code: u32) -> Seq<char> {
    "Unimplemented syscall "@ + numeral(code as nat, 10)
        + ", file a bug or make a contribution at https://github.com/1whatleytay/saturn."@
}

/// The message for a system call number that names no call.
pub open spec fn unknown_message(code: u32) -> Seq<char> {
    "Unrecognized syscall "@ + numeral(code as nat, 10)
        + ", select a syscall by loading a value into $v0.\n > li $v0, new_value\nYou can make a feature request or make a contribution at https://github.com/1whatleytay/saturn."@
}

/// The mode that a stopped debugger shows to the host. A machine that has
/// just handled a system call shows as standing at a breakpoint.
pub open spec fn mode_shown(mode: ExecutorMode, state: StateView) -> ResumeModeView {
    match mode {
        ExecutorMode::Running => ResumeModeView::Running,
        ExecutorMode::Recovered => ResumeModeView::Breakpoint,
        ExecutorMode::Invalid(error) => ResumeModeView::Invalid {
            message: error_text(error, faulting(state).0, state.registers),
        },
        ExecutorMode::Paused => ResumeModeView::Paused,
        ExecutorMode::Breakpoint => ResumeModeView::Breakpoint,
    }
}

/// Whether a machine that stopped with `frame` has run off the end of its
/// code: its program counter is one of `pcs`, and it did not stop there for
/// a fault of the instruction before. The failed fetch behind the code is no
/// such fault.
pub open spec fn ran_off(frame: DebugFrame, pcs: Seq<u32>) -> bool {
    pcs.contains(frame.registers.pc) && match frame.mode {
        ExecutorMode::Invalid(Error::MemoryUnmapped(address)) => address == frame.registers.pc,
        ExecutorMode::Invalid(_) => false,
        _ => true,
    }
}

/// Whether the outcome of a resume reads the instruction before the program
/// counter, to put a fault in words.
pub open spec fn reads_fault(frame: DebugFrame, finished: bool, result: Option<ResultView>) -> bool {
    match result {
        Some(ResultView::Exception(_)) => true,
        Some(ResultView::Completed) | None => !finished && frame.mode is Invalid,
        _ => false,
    }
}

/// How a resume ended: the end of the system call that stopped it, or else
/// the end of the program where the machine has run off its code
/// (`finished`), or else the mode of the debugger.
pub open spec fn resume_mode(
    frame: DebugFrame,
    finished: bool,
    result: Option<ResultView>,
    state: StateView,
) -> ResumeModeView {
    match result {
        Some(ResultView::Failure(message)) => ResumeModeView::Invalid { message },
        Some(ResultView::Terminated(code)) => ResumeModeView::Finished {
            pc: frame.registers.pc,
            code: Some(code),
        },
        Some(ResultView::Aborted) => ResumeModeView::Paused,
        Some(ResultView::Exception(error)) => ResumeModeView::Invalid {
            message: error_text(error, faulting(state).0, state.registers),
        },
        Some(ResultView::Unimplemented(code)) => ResumeModeView::Invalid {
            message: unimplemented_message(code),
        },
        Some(ResultView::Unknown(code)) => ResumeModeView::Invalid { message: unknown_message(code) },
        _ => if finished {
            ResumeModeView::Finished { pc: frame.registers.pc, code: None }
        } else {
            mode_shown(frame.mode, state)
        },
    }
}

impl ResumeMode {
    /// The mode that a stopped debugger shows to the host.
    pub fn from_executor(value: ExecutorMode, state: &mut State) -> (mode: ResumeMode)
        requires
            old(state).wf(),
        ensures
            final(state).wf(),
            final(state).registers == old(state).registers,
            final(state)@.memory == if value is Invalid {
                faulting(old(state)@).1
            } else {
                old(state)@.memory
            },
            mode@ == mode_shown(value, old(state)@),
    {
        match value {
            ExecutorMode::Running => ResumeMode::Running,
            ExecutorMode::Recovered => ResumeMode::Breakpoint,
            ExecutorMode::Invalid(error) => ResumeMode::Invalid { message: format_error(error, state) },
            ExecutorMode::Paused => ResumeMode::Paused,
            ExecutorMode::Breakpoint => ResumeMode::Breakpoint,
        }
    }
}

/// The registers as the host sees them.
#[derive(Clone, Copy, Debug)]
pub struct RegistersResult {
    /// The program counter.
    pub pc: u32,
    /// The general registers.
    pub line: [u32; 32],
    /// The `lo` register.
    pub lo: u32,
    /// The `hi` register.
    pub hi: u32,
}

impl RegistersResult {
    /// The registers as the host sees them.
    pub fn from_registers(value: Registers) -> (result: RegistersResult)
        ensures
            result.pc == value.pc,
            result.line == value.line,
            result.lo == value.lo,
            result.hi == value.hi,
    {
        RegistersResult { pc: value.pc, line: value.line, lo: value.lo, hi: value.hi }
    }
}

/// What a resume hands back to the host.
#[derive(Debug)]
pub struct ResumeResult {
    /// How the resume ended.
    pub mode: ResumeMode,
    /// The registers at the end.
    pub registers: RegistersResult,
}

/// Whether `pc` is among `pcs`.
pub fn contains_pc(pcs: &Vec<u32>, pc: u32) -> (found: bool)
    ensures
        found == pcs@.contains(pc),
{
    let mut index: usize = 0;
    while index < pcs.len()
        invariant
            index <= pcs@.len(),
            forall|i: int| 0 <= i < index ==> pcs@[i] != pc,
        decreases pcs@.len() - index,
    {
        if pcs[index] == pc {
            return true;
        }
        index = index + 1;
    }
    false
}

impl ResumeResult {
    /// What a resume hands back: the registers of `frame`, and how the resume
    /// ended. `finished_pcs` holds the addresses behind the code of the
    /// program: a machine that stops there has run off the end.
    pub fn from_frame(
        frame: DebugFrame,
        finished_pcs: &Vec<u32>,
        result: Option<SyscallResult>,
        state: &mut State,
    ) -> (resumed: ResumeResult)
        requires
            old(state).wf(),
        ensures
            final(state).wf(),
            final(state).registers == old(state).registers,
            final(state)@.memory == if reads_fault(
                frame,
                ran_off(frame, finished_pcs@),
                match result {
                    Some(ended) => Some(ended@),
                    None => None,
                },
            ) {
                faulting(old(state)@).1
            } else {
                old(state)@.memory
            },
            resumed.registers.pc == frame.registers.pc,
            resumed.registers.line == frame.registers.line,
            resumed.registers.lo == frame.registers.lo,
            resumed.registers.hi == frame.registers.hi,
            resumed.mode@ == resume_mode(
                frame,
                ran_off(frame, finished_pcs@),
                match result {
                    Some(ended) => Some(ended@),
                    None => None,
                },
                old(state)@,
            ),
    {
        let mode = match result {
            Some(SyscallResult::Failure(message)) => ResumeMode::Invalid { message },
            Some(SyscallResult::Terminated(code)) => ResumeMode::Finished {
                pc: frame.registers.pc,
                code: Some(code),
            },
            Some(SyscallResult::Aborted) => ResumeMode::Paused,
            Some(SyscallResult::Exception(error)) => ResumeMode::Invalid {
                message: format_error(error, state),
            },
            Some(SyscallResult::Unimplemented(code)) => {
                let mut message = String::from_str("Unimplemented syscall ");
                push_numeral(&mut message, code, 10);
                message.append(
                    ", file a bug or make a contribution at https://github.com/1whatleytay/saturn.",
                );
                ResumeMode::Invalid { message }
            },
            Some(SyscallResult::Unknown(code)) => {
                let mut message = String::from_str("Unrecognized syscall ");
                push_numeral(&mut message, code, 10);
                message.append(
                    ", select a syscall by loading a value into $v0.\n > li $v0, new_value\nYou can make a feature request or make a contribution at https://github.com/1whatleytay/saturn.",
                );
                ResumeMode::Invalid { message }
            },
            _ => {
                let fault: bool = match frame.mode {
                    ExecutorMode::Invalid(Error::MemoryUnmapped(address)) => address
                        != frame.registers.pc,
                    ExecutorMode::Invalid(_) => true,
                    _ => false,
                };
                if !fault && contains_pc(finished_pcs, frame.registers.pc) {
                    ResumeMode::Finished { pc: frame.registers.pc, code: None }
                } else {
                    ResumeMode::from_executor(frame.mode, state)
                }
            },
        };
        ResumeResult { mode, registers: RegistersResult::from_registers(frame.registers) }
    }
}

/// How a batch runs.
#[derive(Clone, Copy, Debug)]
pub struct BatchOptions {
    /// The most cycles that a leg takes.
    pub count: usize,
    /// Whether the batch is the first of its resume: the first batch lifts
    /// the cancellation, and steps off a breakpoint that the machine stands
    /// at.
    pub first_batch: bool,
    /// Whether a paused machine stops the batch. A single step runs even
    /// where the machine is paused.
    pub allow_interrupt: bool,
}

/// What a resume is asked to do.
#[derive(Debug)]
pub struct ResumeOptions {
    /// Run in a batch; without it, run until the machine stops.
    pub batch: Option<BatchOptions>,
    /// Replace the breakpoints by these.
    pub breakpoints: Option<Vec<u32>>,
    /// Put the machine in this mode first.
    pub change_state: Option<ExecutorMode>,
}

/// The program counter before the latest instruction that the debugger can
/// take back.
pub open spec fn latest_pc(executor: ExecutorView) -> Option<u32> {
    if executor.tracker.frames().len() > 0 {
        Some(executor.tracker.frames().last().registers.pc)
    } else {
        None
    }
}

/// A device that can take instructions back.
pub trait ExecutionRewindable {
    /// Whether the device is fit to be used.
    spec fn usable(&self) -> bool;

    /// The debugger of the device: its machine, its frames, its mode and its
    /// breakpoints.
    spec fn machine(&self) -> ExecutorView;

    /// The program counter before the latest instruction that can be taken
    /// back.
    fn last_pc(&self) -> (pc: Option<u32>)
        ensures
            pc == latest_pc(self.machine()),
    ;

    /// Pauses the machine, takes up to `count` instructions back, the latest
    /// first, and tells where the machine stands: the registers of each frame
    /// return and the bytes that its writes replaced are written back, as
    /// `ExecutorView::rewind` says. The result shows the mode `Paused` and the
    /// registers as they are after it.
    fn rewind(&mut self, count: u32) -> (resumed: ResumeResult)
        requires
            old(self).usable(),
        ensures
            final(self).usable(),
            final(self).machine() == old(self).machine().rewind(count as nat),
            final(self).machine().mode == ExecutorMode::Paused,
            resumed.mode@ == ResumeModeView::Paused,
            resumed.registers.pc == final(self).machine().state.registers.pc,
            resumed.registers.line == final(self).machine().state.registers.line,
            resumed.registers.lo == final(self).machine().state.registers.lo,
            resumed.registers.hi == final(self).machine().state.registers.hi,
    ;
}

/// A device that can be run and rewound.
pub trait RewindableDevice: ExecutionRewindable {

}

/// The device: the debugger, the system calls, and the addresses behind the
/// code of the program.
pub struct ExecutionState {
    /// The debugger.
    pub debugger: Executor,
    /// The system calls.
    pub delegate: SyscallDelegate,
    /// The addresses one past the end of each executable region.
    pub finished_pcs: Vec<u32>,
}

/// The set of the values in `values`.
pub fn breakpoint_set(values: &Vec<u32>) -> (set: HashSet<u32>)
    ensures
        set@ == values@.to_set(),
{
    broadcast use vstd::std_specs::hash::group_hash_axioms;

    let mut set: HashSet<u32> = HashSet::new();
    let mut index: usize = 0;
    while index < values.len()
        invariant
            index <= values@.len(),
            set@ == values@.take(index as int).to_set(),
        decreases values@.len() - index,
    {
        set.insert(values[index]);
        proof {
            let before = values@.take(index as int);
            let after = values@.take(index + 1);
            assert(after =~= before.push(values@[index as int]));
            assert(after.to_set() =~= before.to_set().insert(values@[index as int])) by {
                assert forall|v: u32| after.to_set().contains(v) <==> before.to_set().insert(
                    values@[index as int],
                ).contains(v) by {
                    if after.contains(v) {
                        let i = choose|i: int| 0 <= i < after.len() && after[i] == v;
                        if i < index {
                            assert(before[i] == v);
                        }
                    }
                    if before.contains(v) {
                        let i = choose|i: int| 0 <= i < before.len() && before[i] == v;
                        assert(after[i] == v);
                    }
                    assert(after[index as int] == values@[index as int]);
                }
            }
        }
        index = index + 1;
    }
    assert(values@.take(index as int) =~= values@);
    set
}

impl World {
    /// The world at the start of a resume: the breakpoints replaced where
    /// new ones are given, the mode set where one is given, the cancellation
    /// lifted on a first batch. Also whether the first cycle passes a
    /// breakpoint: it does where the machine stood at one.
    pub open spec fn prepare(
        self,
        breakpoints: Option<Set<u32>>,
        change_state: Option<ExecutorMode>,
        first_batch: bool,
    ) -> World {
        World {
            executor: ExecutorView {
                breakpoints: match breakpoints {
                    Some(set) => set,
                    None => self.executor.breakpoints,
                },
                mode: match change_state {
                    Some(mode) => mode,
                    None => self.executor.mode,
                },
                ..self.executor
            },
            syscalls: SyscallView {
                cancelled: self.syscalls.cancelled && !first_batch,
                ..self.syscalls
            },
        }
    }

    /// The first leg of a resume.
    pub open spec fn resume(
        self,
        batch: Option<BatchOptions>,
        breakpoints: Option<Set<u32>>,
        change_state: Option<ExecutorMode>,
        drawn: u32,
    ) -> Leg {
        let stood = self.executor.mode == ExecutorMode::Breakpoint;
        match batch {
            Some(options) => self.prepare(breakpoints, change_state, options.first_batch).run_batch(
                options.count as nat,
                stood && options.first_batch,
                options.allow_interrupt,
                drawn,
            ),
            None => self.prepare(breakpoints, change_state, true).run(stood, drawn),
        }
    }

    /// The leg that follows a handled system call. It stops at once where
    /// the machine is no longer in the mode that handling left.
    pub open spec fn proceed(self, batch: Option<BatchOptions>, drawn: u32) -> Leg {
        if self.executor.mode != ExecutorMode::Recovered {
            Leg { advance: AdvanceView::Stopped(self.executor.frame(), None), world: self }
        } else {
            match batch {
                Some(options) => self.run_batch(
                    options.count as nat,
                    false,
                    options.allow_interrupt,
                    drawn,
                ),
                None => self.run(false, drawn),
            }
        }
    }

    /// The world after the host writes a register: 0 to 31 are the general
    /// registers, 32 is `hi`, 33 is `lo`, 34 is the program counter. Other
    /// numbers name nothing.
    pub open spec fn write_register(self, register: u32, value: u32) -> World {
        let registers = self.executor.state.registers;
        let written = if register < 32 {
            registers.with_line(register as int, value)
        } else if register == 32 {
            Registers { hi: value, ..registers }
        } else if register == 33 {
            Registers { lo: value, ..registers }
        } else if register == 34 {
            Registers { pc: value, ..registers }
        } else {
            registers
        };
        World {
            executor: ExecutorView {
                state: StateView { registers: written, ..self.executor.state },
                ..self.executor
            },
            ..self
        }
    }
}

/// The last address that an inspection of `count` bytes from `address` on
/// reads: the inspection ends at the end of the address space where it would
/// run over it, or where `address` and `count` are both 0.
pub open spec fn inspect_end(address: u32, count: u32) -> u32 {
    if address + count > u32::MAX || address + count < 1 {
        u32::MAX
    } else {
        (address + count - 1) as u32
    }
}

/// What the bytes from `address` up to `end` read as, behind `bytes`, and
/// the memory after reading them. A byte that cannot be read shows as `None`.
pub open spec fn inspect(memory: WatchedView, address: int, end: u32, bytes: Seq<Option<u8>>) -> (
    Seq<Option<u8>>,
    WatchedView,
)
    decreases end + 1 - address,
{
    if address > end || address < 0 {
        (bytes, memory)
    } else {
        inspect(
            memory.get(address as u32).1,
            address + 1,
            end,
            bytes.push(
                match memory.get(address as u32).0 {
                    Ok(byte) => Some(byte),
                    Err(_) => None,
                },
            ),
        )
    }
}

/// The memory after the host writes `bytes` from `address` on, wrapping at
/// the end of the address space. A byte that cannot be written is passed
/// over.
pub open spec fn poke(memory: WatchedView, address: u32, bytes: Seq<u8>) -> WatchedView
    decreases bytes.len(),
{
    if bytes.len() == 0 {
        memory
    } else {
        poke(memory.set(address, bytes[0]).1, crate::alu::wrap(address + 1), bytes.skip(1))
    }
}

impl ExecutionState {
    /// Whether the machine is well formed.
    pub open spec fn wf(&self) -> bool {
        self.debugger.wf()
    }

    /// The world of the device.
    pub open spec fn world(&self) -> World {
        world(&self.debugger, &self.delegate.state)
    }

    /// A device over a debugger and the system calls of its run.
    pub fn new(debugger: Executor, delegate: SyscallDelegate, finished_pcs: Vec<u32>) -> (device:
        ExecutionState)
        requires
            debugger.wf(),
        ensures
            device.wf(),
            device.debugger == debugger,
            device.delegate == delegate,
            device.finished_pcs == finished_pcs,
    {
        ExecutionState { debugger, delegate, finished_pcs }
    }

    /// Prepares a resume and takes its first leg.
    pub fn resume(&mut self, options: &ResumeOptions) -> (advance: Advance)
        requires
            old(self).wf(),
        ensures
            final(self).wf(),
            final(self).finished_pcs == old(self).finished_pcs,
            leg(advance, &final(self).debugger, &final(self).delegate.state) == old(self).world().resume(
                options.batch,
                match options.breakpoints {
                    Some(values) => Some(values@.to_set()),
                    None => None,
                },
                options.change_state,
                final(self).debugger.state.registers.line[4],
            ),
    {
        if let Some(values) = &options.breakpoints {
            self.debugger.set_breakpoints(breakpoint_set(values));
        }
        let stood: bool = self.debugger.is_breakpoint();
        if let Some(mode) = options.change_state {
            self.debugger.override_mode(mode);
        }
        match options.batch {
            Some(batch) => {
                if batch.first_batch {
                    self.delegate.state.renew();
                }
                self.delegate.run_batch(
                    &mut self.debugger,
                    batch.count,
                    stood && batch.first_batch,
                    batch.allow_interrupt,
                )
            },
            None => {
                self.delegate.state.renew();
                self.delegate.run(&mut self.debugger, stood)
            },
        }
    }

    /// Takes the leg that follows a handled system call, with or without a
    /// request left to the host.
    pub fn proceed(&mut self, batch: Option<BatchOptions>) -> (advance: Advance)
        requires
            old(self).wf(),
        ensures
            final(self).wf(),
            final(self).finished_pcs == old(self).finished_pcs,
            leg(advance, &final(self).debugger, &final(self).delegate.state) == old(self).world().proceed(
                batch,
                final(self).debugger.state.registers.line[4],
            ),
    {
        if let Some(frame) = self.delegate.recovered(&self.debugger) {
            return Advance::Stopped(frame, None);
        }
        match batch {
            Some(options) => self.delegate.run_batch(
                &mut self.debugger,
                options.count,
                false,
                options.allow_interrupt,
            ),
            None => self.delegate.run(&mut self.debugger, false),
        }
    }

    /// Goes on with a suspended system call, now that the host has answered.
    pub fn settle(&mut self, frame: DebugFrame, request: SyscallRequest, reply: SyscallReply) -> (advance:
        Advance)
        requires
            old(self).wf(),
        ensures
            final(self).wf(),
            final(self).finished_pcs == old(self).finished_pcs,
            leg(advance, &final(self).debugger, &final(self).delegate.state) == old(self).world().settle(
                frame,
                request@,
                reply@,
                final(self).debugger.state.registers.line[4],
            ),
    {
        self.delegate.settle(&mut self.debugger, frame, request, reply)
    }

    /// Reads the display from the machine, as a resume does at its end.
    pub fn flush_display(&mut self, shown: &mut FlushDisplayState)
        requires
            old(self).wf(),
        ensures
            final(self).wf(),
            final(self).finished_pcs == old(self).finished_pcs,
            final(self).delegate == old(self).delegate,
            final(self).debugger.state.registers == old(self).debugger.state.registers,
            final(self).debugger.mode == old(self).debugger.mode,
            final(self).debugger.state@.memory.log == old(self).debugger.state@.memory.log,
            final(self).debugger.state@.memory.backing == display(
                old(self).debugger.state@.memory.backing,
                old(shown).target(old(self).debugger.state.registers),
                old(shown).width,
                old(shown).height,
            ).1,
            final(shown).address == old(shown).address,
            final(shown).register == old(shown).register,
            final(shown).width == old(shown).width,
            final(shown).height == old(shown).height,
            match display(
                old(self).debugger.state@.memory.backing,
                old(shown).target(old(self).debugger.state.registers),
                old(shown).width,
                old(shown).height,
            ).0 {
                Some(bytes) => final(shown).data matches Some(read) && read@ == bytes,
                None => final(shown).data is None,
            },
    {
        shown.flush(&mut self.debugger.state);
    }

    /// Turns the leg that stopped the run into what the resume hands back.
    pub fn finish(&mut self, frame: DebugFrame, result: Option<SyscallResult>) -> (resumed: ResumeResult)
        requires
            old(self).wf(),
        ensures
            final(self).wf(),
            final(self).finished_pcs == old(self).finished_pcs,
            final(self).delegate == old(self).delegate,
            final(self).debugger.state.registers == old(self).debugger.state.registers,
            final(self).debugger.mode == old(self).debugger.mode,
            final(self).debugger.state@.memory == if reads_fault(
                frame,
                ran_off(frame, old(self).finished_pcs@),
                match result {
                    Some(ended) => Some(ended@),
                    None => None,
                },
            ) {
                faulting(old(self).debugger.state@).1
            } else {
                old(self).debugger.state@.memory
            },
            resumed.registers.pc == frame.registers.pc,
            resumed.registers.line == frame.registers.line,
            resumed.registers.lo == frame.registers.lo,
            resumed.registers.hi == frame.registers.hi,
            resumed.mode@ == resume_mode(
                frame,
                ran_off(frame, old(self).finished_pcs@),
                match result {
                    Some(ended) => Some(ended@),
                    None => None,
                },
                old(self).debugger.state@,
            ),
    {
        ResumeResult::from_frame(frame, &self.finished_pcs, result, &mut self.debugger.state)
    }

    /// Pauses the machine and cancels the system call that runs.
    pub fn pause(&mut self)
        requires
            old(self).wf(),
        ensures
            final(self).wf(),
            final(self).world() == (World {
                executor: old(self).world().executor.with_mode(ExecutorMode::Paused),
                syscalls: SyscallView { cancelled: true, ..old(self).world().syscalls },
            }),
            final(self).finished_pcs == old(self).finished_pcs,
    {
        self.debugger.pause();
        self.delegate.state.cancel();
    }

    /// Replaces the breakpoints.
    pub fn set_breakpoints(&mut self, breakpoints: HashSet<u32>)
        requires
            old(self).wf(),
        ensures
            final(self).wf(),
            final(self).world() == (World {
                executor: ExecutorView { breakpoints: breakpoints@, ..old(self).world().executor },
                ..old(self).world()
            }),
            final(self).finished_pcs == old(self).finished_pcs,
    {
        self.debugger.set_breakpoints(breakpoints);
    }

    /// Reads `count` bytes from `address` on for the host. A byte that
    /// cannot be read shows as `None`.
    pub fn read_bytes(&mut self, address: u32, count: u32) -> (bytes: Option<Vec<Option<u8>>>)
        requires
            old(self).wf(),
        ensures
            final(self).wf(),
            final(self).finished_pcs == old(self).finished_pcs,
            final(self).delegate == old(self).delegate,
            final(self).debugger.state.registers == old(self).debugger.state.registers,
            final(self).debugger.state@.memory == inspect(
                old(self).debugger.state@.memory,
                address as int,
                inspect_end(address, count),
                Seq::empty(),
            ).1,
            bytes matches Some(read) && read@ == inspect(
                old(self).debugger.state@.memory,
                address as int,
                inspect_end(address, count),
                Seq::empty(),
            ).0,
    {
        let sum: u64 = address as u64 + count as u64;
        let end: u32 = if sum > 0xFFFF_FFFF || sum < 1 {
            0xFFFF_FFFF
        } else {
            (sum - 1) as u32
        };
        let mut bytes: Vec<Option<u8>> = Vec::new();
        let mut cursor: u64 = address as u64;
        while cursor <= end as u64
            invariant
                self.wf(),
                cursor <= end + 1,
                self.finished_pcs == old(self).finished_pcs,
                self.delegate == old(self).delegate,
                self.debugger.state.registers == old(self).debugger.state.registers,
                inspect(
                    old(self).debugger.state@.memory,
                    address as int,
                    end,
                    Seq::empty(),
                ) == inspect(self.debugger.state@.memory, cursor as int, end, bytes@),
            decreases end + 1 - cursor,
        {
            let byte: Option<u8> = match self.debugger.state.memory.get(cursor as u32) {
                Ok(byte) => Some(byte),
                Err(_) => None,
            };
            bytes.push(byte);
            cursor = cursor + 1;
        }
        Some(bytes)
    }

    /// Reads a display of `width` by `height` pixels at `address`.
    pub fn read_display(&mut self, address: u32, width: u32, height: u32) -> (bytes: Option<Vec<u8>>)
        requires
            old(self).wf(),
        ensures
            final(self).wf(),
            final(self).finished_pcs == old(self).finished_pcs,
            final(self).delegate == old(self).delegate,
            final(self).debugger.state.registers == old(self).debugger.state.registers,
            final(self).debugger.state@.memory.backing == display(
                old(self).debugger.state@.memory.backing,
                address,
                width,
                height,
            ).1,
            match display(old(self).debugger.state@.memory.backing, address, width, height).0 {
                Some(shown) => bytes matches Some(read) && read@ == shown,
                None => bytes is None,
            },
    {
        read_display(address, width, height, &mut self.debugger.state.memory.backing)
    }

    /// Writes `bytes` from `address` on for the host. A byte that cannot be
    /// written is passed over.
    pub fn write_bytes(&mut self, address: u32, bytes: Vec<u8>)
        requires
            old(self).wf(),
        ensures
            final(self).wf(),
            final(self).finished_pcs == old(self).finished_pcs,
            final(self).delegate == old(self).delegate,
            final(self).debugger.state.registers == old(self).debugger.state.registers,
            final(self).debugger.state@.memory == poke(
                old(self).debugger.state@.memory,
                address,
                bytes@,
            ),
    {
        let mut index: usize = 0;
        let mut cursor: u32 = address;
        assert(bytes@.skip(0) =~= bytes@);
        while index < bytes.len()
            invariant
                self.wf(),
                index <= bytes@.len(),
                self.finished_pcs == old(self).finished_pcs,
                self.delegate == old(self).delegate,
                self.debugger.state.registers == old(self).debugger.state.registers,
                poke(old(self).debugger.state@.memory, address, bytes@) == poke(
                    self.debugger.state@.memory,
                    cursor,
                    bytes@.skip(index as int),
                ),
            decreases bytes@.len() - index,
        {
            let ghost rest = bytes@.skip(index as int);
            assert(rest[0] == bytes@[index as int]);
            assert(rest.skip(1) =~= bytes@.skip(index + 1));
            let _ = self.debugger.state.memory.set(cursor, bytes[index]);
            cursor = cursor.wrapping_add(1);
            index = index + 1;
        }
    }

    /// Writes a register for the host.
    pub fn write_register(&mut self, register: u32, value: u32)
        requires
            old(self).wf(),
        ensures
            final(self).wf(),
            final(self).world() == old(self).world().write_register(register, value),
            final(self).finished_pcs == old(self).finished_pcs,
    {
        if register < 32 {
            self.debugger.state.registers.line[register as usize] = value;
        } else if register == 32 {
            self.debugger.state.registers.hi = value;
        } else if register == 33 {
            self.debugger.state.registers.lo = value;
        } else if register == 34 {
            self.debugger.state.registers.pc = value;
        }
    }

    /// Tells the system call that waits for a note that the note has ended.
    /// Returns whether a call was waiting.
    pub fn wake_sync(&mut self) -> (woken: bool)
        ensures
            woken == old(self).delegate.state@.sync_waiting,
            final(self).delegate.state@ == (SyscallView {
                sync_waiting: false,
                ..old(self).delegate.state@
            }),
            final(self).debugger == old(self).debugger,
            final(self).finished_pcs == old(self).finished_pcs,
    {
        self.delegate.state.wake_sync()
    }

    /// Takes a key event from the host.
    pub fn post_key(&mut self, key: char, up: bool)
        requires
            old(self).wf(),
        ensures
            final(self).wf(),
            final(self).debugger.state@.memory.backing
                == old(self).debugger.state@.memory.backing.push_key(key, up),
            final(self).debugger.state@.memory.log == old(self).debugger.state@.memory.log,
            final(self).delegate == old(self).delegate,
            final(self).finished_pcs == old(self).finished_pcs,
            final(self).debugger.state.registers == old(self).debugger.state.registers,
    {
        self.debugger.state.memory.backing.push_key(key, up);
    }

    /// Takes input from the host.
    pub fn post_input(&mut self, text: String)
        ensures
            final(self).delegate.state@ == (SyscallView {
                input: old(self).delegate.state@.input + vstd::utf8::encode_utf8(text@),
                ..old(self).delegate.state@
            }),
            final(self).debugger == old(self).debugger,
            final(self).finished_pcs == old(self).finished_pcs,
    {
        let bytes = text.as_str().as_bytes_vec();
        self.delegate.state.post_input(bytes);
    }
}

impl ExecutionRewindable for ExecutionState {
    open spec fn usable(&self) -> bool {
        self.wf()
    }

    open spec fn machine(&self) -> ExecutorView {
        self.debugger@
    }

    fn last_pc(&self) -> (pc: Option<u32>) {
        self.debugger.last_pc()
    }

    fn rewind(&mut self, count: u32) -> (resumed: ResumeResult)
        ensures
            final(self).finished_pcs == old(self).finished_pcs,
            final(self).delegate == old(self).delegate,
    {
        self.debugger.rewind(count);
        proof {
            lemma_rewind_pauses(old(self).debugger@.with_mode(ExecutorMode::Paused), count as nat);
        }
        let frame = self.debugger.frame();
        let empty: Vec<u32> = Vec::new();
        ResumeResult::from_frame(frame, &empty, None, &mut self.debugger.state)
    }
}

impl RewindableDevice for ExecutionState {

}

/// The program counters before each instruction that the debugger can take
/// back, the latest at the end.
pub open spec fn frame_pcs(executor: ExecutorView) -> Seq<u32> {
    Seq::new(
        executor.tracker.frames().len(),
        |i: int| executor.tracker.frames()[i].registers.pc,
    )
}

/// Rewinding takes the latest instructions out of the history, as many as
/// asked for and as there are, and leaves the earlier ones.
pub proof fn lemma_rewind_shortens_history(before: ExecutorView, count: nat)
    ensures
        frame_pcs(before.rewind_frames(count)) == frame_pcs(before).take(
            if count < frame_pcs(before).len() {
                frame_pcs(before).len() - count
            } else {
                0
            },
        ),
    decreases count,
{
    let pcs = frame_pcs(before);
    if count == 0 {
        assert(pcs.take(pcs.len() as int) =~= pcs);
    } else {
        let collected = before.collect();
        assert(frame_pcs(collected) =~= pcs);
        if collected.tracker.frames().len() == 0 {
            assert(frame_pcs(collected) =~= pcs.take(0));
        } else {
            let shorter = collected.rewind_one();
            assert(frame_pcs(shorter) =~= pcs.drop_last());
            lemma_rewind_shortens_history(shorter, (count - 1) as nat);
            let kept = if count < pcs.len() {
                pcs.len() - count
            } else {
                0
            };
            assert(pcs.drop_last().take(kept) =~= pcs.take(kept));
        }
    }
}

/// What a device shows after `rewind`: it is paused, the latest instructions
/// are out of its history, as many as asked for and as there are, and the
/// program counter that `last_pc` then shows is that of the latest
/// instruction left.
pub proof fn lemma_rewound_device(before: ExecutorView, count: nat)
    ensures
        before.rewind(count).mode == ExecutorMode::Paused,
        before.rewind(count).breakpoints == before.breakpoints,
        frame_pcs(before.rewind(count)) == frame_pcs(before).take(
            if count < frame_pcs(before).len() {
                frame_pcs(before).len() - count
            } else {
                0
            },
        ),
        latest_pc(before.rewind(count)) == if count < frame_pcs(before).len() {
            Some(frame_pcs(before)[frame_pcs(before).len() - count - 1])
        } else {
            None
        },
{
    let paused = before.with_mode(ExecutorMode::Paused);
    lemma_rewind_pauses(paused, count);
    lemma_rewind_shortens_history(paused, count);
    assert(frame_pcs(paused) =~= frame_pcs(before));
    let left = frame_pcs(before.rewind(count));
    assert(left.len() == before.rewind(count).tracker.frames().len());
    if left.len() > 0 {
        assert(left.last() == before.rewind(count).tracker.frames().last().registers.pc);
    }
}

} // verus!
