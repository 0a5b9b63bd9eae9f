use std::collections::HashSet;

use saturn::cpu::State;
use saturn::error::Error;
use saturn::executor::{Executor, ExecutorMode};
use saturn::memory::{Memory, Region};
use saturn::tracker::{HistoryTracker, Tracker};

const BASE: u32 = 0x0040_0000;
const HEAP: u32 = 0x1001_0000;

fn exe_i(opcode: u32, s: u32, t: u32, imm: u32) -> u32 {
    (opcode << 26) | (s << 21) | (t << 16) | (imm & 0xFFFF)
}

fn exe_bytes(words: &[u32]) -> Vec<u8> {
    let mut bytes = Vec::new();
    for word in words {
        bytes.extend_from_slice(&word.to_le_bytes());
    }
    bytes
}

fn exe_machine(words: &[u32], tracker: Tracker) -> Executor {
    let mut memory: Memory = Memory::new();
    memory.mount(Region { start: BASE, data: exe_bytes(words) });
    memory.mount(Region { start: HEAP, data: vec![0; 64] });
    Executor::new(State::new(BASE, memory), tracker)
}

fn exe_breakpoints(values: &[u32]) -> HashSet<u32> {
    values.iter().copied().collect()
}

#[test]
fn a_new_executor_is_paused() {
    let executor = exe_machine(&[0], Tracker::Empty);
    assert_eq!(executor.mode(), ExecutorMode::Paused);
    assert_eq!(executor.frame().mode, ExecutorMode::Paused);
    assert_eq!(executor.frame().registers.pc, BASE);
    assert!(!executor.is_breakpoint());
}

#[test]
fn breakpoint_fires_before_its_instruction() {
    let mut executor = exe_machine(&[0, 0, 0], Tracker::Empty);
    executor.set_breakpoints(exe_breakpoints(&[BASE + 4]));
    let frame = executor.run(false);
    assert_eq!(frame.mode, ExecutorMode::Breakpoint);
    assert_eq!(frame.registers.pc, BASE + 4);
    assert!(executor.is_breakpoint());
}

#[test]
fn run_steps_off_a_breakpoint_when_asked_to_skip_it() {
    let mut executor = exe_machine(&[0, 0, 0], Tracker::Empty);
    executor.set_breakpoints(exe_breakpoints(&[BASE, BASE + 8]));
    let frame = executor.run(false);
    assert_eq!(frame.mode, ExecutorMode::Breakpoint);
    assert_eq!(frame.registers.pc, BASE);
    let frame = executor.run(false);
    assert_eq!(frame.mode, ExecutorMode::Breakpoint);
    assert_eq!(frame.registers.pc, BASE);
    let frame = executor.run(true);
    assert_eq!(frame.mode, ExecutorMode::Breakpoint);
    assert_eq!(frame.registers.pc, BASE + 8);
}

#[test]
fn run_ends_in_the_fault_of_the_failing_step() {
    let mut executor = exe_machine(&[exe_i(9, 0, 8, 1), 12, 0], Tracker::Empty);
    let frame = executor.run(false);
    assert_eq!(frame.mode, ExecutorMode::Invalid(Error::CpuSyscall));
    assert_eq!(frame.registers.pc, BASE + 8);
    assert_eq!(frame.registers.line[8], 1);
    let mut executor = exe_machine(&[0], Tracker::Empty);
    let frame = executor.run(false);
    assert_eq!(frame.mode, ExecutorMode::Invalid(Error::MemoryUnmapped(BASE + 4)));
    assert_eq!(frame.registers.pc, BASE + 4);
}

#[test]
fn no_cycle_is_taken_in_an_invalid_mode() {
    let mut executor = exe_machine(&[12, exe_i(9, 0, 8, 1)], Tracker::Empty);
    let frame = executor.cycle(true).unwrap();
    assert_eq!(frame.mode, ExecutorMode::Invalid(Error::CpuSyscall));
    assert!(executor.cycle(true).is_none());
    assert_eq!(executor.frame().registers.pc, BASE + 4);
    let frame = executor.run(false);
    assert_eq!(frame.mode, ExecutorMode::Invalid(Error::CpuSyscall));
    assert_eq!(frame.registers.pc, BASE + 4);
}

#[test]
fn handled_syscall_recovers_and_the_next_cycle_runs() {
    let mut executor = exe_machine(&[12, exe_i(9, 0, 8, 1)], Tracker::Empty);
    let _ = executor.cycle(true);
    executor.invalid_handled();
    assert_eq!(executor.mode(), ExecutorMode::Recovered);
    let frame = executor.cycle(true).unwrap();
    assert_eq!(frame.mode, ExecutorMode::Running);
    assert_eq!(frame.registers.line[8], 1);
}

#[test]
fn invalid_handled_leaves_other_modes() {
    let mut executor = exe_machine(&[0xFC00_0000], Tracker::Empty);
    executor.invalid_handled();
    assert_eq!(executor.mode(), ExecutorMode::Paused);
    let _ = executor.cycle(true);
    assert_eq!(executor.mode(), ExecutorMode::Invalid(Error::CpuInvalid(0xFC00_0000)));
    executor.invalid_handled();
    assert_eq!(executor.mode(), ExecutorMode::Invalid(Error::CpuInvalid(0xFC00_0000)));
}

#[test]
fn pause_and_override_set_the_mode() {
    let mut executor = exe_machine(&[0, 0], Tracker::Empty);
    let frame = executor.cycle(true).unwrap();
    assert_eq!(frame.mode, ExecutorMode::Running);
    executor.pause();
    assert_eq!(executor.mode(), ExecutorMode::Paused);
    executor.override_mode(ExecutorMode::Invalid(Error::CpuTrap));
    assert!(executor.cycle(true).is_none());
    executor.override_mode(ExecutorMode::Running);
    assert!(executor.cycle(true).is_some());
}

#[test]
fn cycle_heeds_breakpoints_only_when_allowed() {
    let mut executor = exe_machine(&[0, 0], Tracker::Empty);
    executor.set_breakpoints(exe_breakpoints(&[BASE]));
    let frame = executor.cycle(true).unwrap();
    assert_eq!(frame.mode, ExecutorMode::Breakpoint);
    assert_eq!(frame.registers.pc, BASE);
    let frame = executor.cycle(false).unwrap();
    assert_eq!(frame.mode, ExecutorMode::Running);
    assert_eq!(frame.registers.pc, BASE + 4);
}

#[test]
fn run_limited_stops_at_the_limit_while_running() {
    let mut executor = exe_machine(&[0, 0, 0, 0], Tracker::Empty);
    let frame = executor.run_limited(false, 2);
    assert_eq!(frame.mode, ExecutorMode::Running);
    assert_eq!(frame.registers.pc, BASE + 8);
    let frame = executor.run_limited(false, 0);
    assert_eq!(frame.registers.pc, BASE + 8);
}

#[test]
fn rewind_restores_registers_and_memory() {
    let program = [
        exe_i(9, 0, 8, 1),
        exe_i(9, 8, 9, 2),
        exe_i(9, 9, 10, 3),
        exe_i(43, 11, 10, 0),
        exe_i(9, 8, 8, 0x10),
        exe_i(40, 11, 8, 1),
    ];
    let mut executor = exe_machine(&program, Tracker::History(HistoryTracker::new(1000)));
    executor.state.registers.line[11] = HEAP;
    assert_eq!(executor.state.memory.backing.set_u32(HEAP, 0xDEAD_BEEF), Ok(()));
    let frame = executor.run_limited(false, 6);
    assert_eq!(frame.registers.pc, BASE + 24);
    assert_eq!(executor.state.registers.line[8], 0x11);
    assert_eq!(executor.state.registers.line[9], 3);
    assert_eq!(executor.state.registers.line[10], 6);
    assert_eq!(executor.state.memory.backing.get_u32(HEAP), Ok(0x0000_1106));
    assert_eq!(executor.last_pc(), Some(BASE + 20));
    executor.rewind(6);
    assert_eq!(executor.mode(), ExecutorMode::Paused);
    assert_eq!(executor.state.registers.pc, BASE);
    assert_eq!(executor.state.registers.line[8], 0);
    assert_eq!(executor.state.registers.line[9], 0);
    assert_eq!(executor.state.registers.line[10], 0);
    assert_eq!(executor.state.registers.line[11], HEAP);
    assert_eq!(executor.state.memory.backing.get_u32(HEAP), Ok(0xDEAD_BEEF));
    assert_eq!(executor.last_pc(), None);
}

#[test]
fn rewind_takes_frames_back_one_by_one() {
    let program = [exe_i(9, 0, 8, 1), exe_i(43, 11, 8, 0), exe_i(9, 8, 8, 1)];
    let mut executor = exe_machine(&program, Tracker::History(HistoryTracker::new(1000)));
    executor.state.registers.line[11] = HEAP;
    let _ = executor.run_limited(false, 3);
    assert_eq!(executor.state.registers.line[8], 2);
    executor.rewind(1);
    assert_eq!(executor.state.registers.pc, BASE + 8);
    assert_eq!(executor.state.registers.line[8], 1);
    assert_eq!(executor.state.memory.backing.get_u32(HEAP), Ok(1));
    executor.rewind(1);
    assert_eq!(executor.state.registers.pc, BASE + 4);
    assert_eq!(executor.state.memory.backing.get_u32(HEAP), Ok(0));
    executor.rewind(5);
    assert_eq!(executor.state.registers.pc, BASE);
    assert_eq!(executor.state.registers.line[8], 0);
    executor.rewind(1);
    assert_eq!(executor.state.registers.pc, BASE);
}

fn exe_counting_loop() -> [u32; 3] {
    [exe_i(9, 8, 8, 1), exe_i(43, 11, 8, 0), (2 << 26) | (BASE >> 2)]
}

#[test]
fn rewind_restores_the_machine_in_a_history_that_was_full() {
    let mut executor =
        exe_machine(&exe_counting_loop(), Tracker::History(HistoryTracker::new(3)));
    executor.state.registers.line[11] = HEAP;
    let frame = executor.run_limited(false, 10);
    assert_eq!(frame.mode, ExecutorMode::Running);
    let registers = executor.state.registers;
    assert_eq!(registers.pc, BASE + 4);
    assert_eq!(registers.line[8], 4);
    assert_eq!(executor.state.memory.backing.get_u32(HEAP), Ok(3));
    let _ = executor.run_limited(false, 3);
    assert_eq!(executor.state.registers.line[8], 5);
    assert_eq!(executor.state.memory.backing.get_u32(HEAP), Ok(4));
    executor.rewind(3);
    assert_eq!(executor.mode(), ExecutorMode::Paused);
    assert_eq!(executor.state.registers.pc, registers.pc);
    assert_eq!(executor.state.registers.line, registers.line);
    assert_eq!(executor.state.registers.hi, registers.hi);
    assert_eq!(executor.state.registers.lo, registers.lo);
    assert_eq!(executor.state.memory.backing.get_u32(HEAP), Ok(3));
    assert_eq!(executor.last_pc(), None);
}

#[test]
fn rewind_by_the_whole_capacity_restores_the_machine() {
    let mut executor =
        exe_machine(&exe_counting_loop(), Tracker::History(HistoryTracker::new(1000)));
    executor.state.registers.line[11] = HEAP;
    let _ = executor.run_limited(false, 1500);
    let registers = executor.state.registers;
    assert_eq!(registers.line[8], 500);
    assert_eq!(executor.state.memory.backing.get_u32(HEAP), Ok(500));
    let _ = executor.run_limited(false, 1000);
    assert_eq!(executor.state.registers.line[8], 834);
    executor.rewind(1000);
    assert_eq!(executor.state.registers.pc, registers.pc);
    assert_eq!(executor.state.registers.line, registers.line);
    assert_eq!(executor.state.memory.backing.get_u32(HEAP), Ok(500));
    assert_eq!(executor.last_pc(), None);
}

#[test]
fn full_history_drops_its_oldest_frame() {
    let program = [exe_i(9, 8, 8, 1), exe_i(9, 8, 8, 1), exe_i(9, 8, 8, 1), exe_i(9, 8, 8, 1)];
    let mut executor = exe_machine(&program, Tracker::History(HistoryTracker::new(2)));
    let _ = executor.run_limited(false, 4);
    assert_eq!(executor.state.registers.line[8], 4);
    executor.rewind(10);
    assert_eq!(executor.state.registers.line[8], 2);
    assert_eq!(executor.state.registers.pc, BASE + 8);
    assert_eq!(executor.last_pc(), None);
}

#[test]
fn empty_tracker_has_nothing_to_rewind() {
    let mut executor = exe_machine(&[exe_i(9, 8, 8, 1), exe_i(43, 11, 8, 0)], Tracker::Empty);
    executor.state.registers.line[11] = HEAP;
    let _ = executor.run_limited(false, 2);
    assert_eq!(executor.last_pc(), None);
    executor.rewind(2);
    assert_eq!(executor.mode(), ExecutorMode::Paused);
    assert_eq!(executor.state.registers.line[8], 1);
    assert_eq!(executor.state.registers.pc, BASE + 8);
    assert_eq!(executor.state.memory.backing.get_u32(HEAP), Ok(1));
    assert!(executor.state.memory.log.is_empty());
}

#[test]
fn host_writes_join_the_latest_frame() {
    let program = [exe_i(9, 8, 8, 1), exe_i(9, 8, 8, 1)];
    let mut executor = exe_machine(&program, Tracker::History(HistoryTracker::new(1000)));
    let _ = executor.cycle(true);
    assert_eq!(executor.state.memory.set(HEAP, 9), Ok(()));
    executor.rewind(1);
    assert_eq!(executor.state.memory.backing.get(HEAP), Ok(0));
    assert_eq!(executor.state.registers.line[8], 0);
}

#[test]
fn a_frame_is_kept_for_a_step_that_fails() {
    let program = [exe_i(9, 8, 8, 1), 12];
    let mut executor = exe_machine(&program, Tracker::History(HistoryTracker::new(1000)));
    let frame = executor.run(false);
    assert_eq!(frame.mode, ExecutorMode::Invalid(Error::CpuSyscall));
    assert_eq!(executor.last_pc(), Some(BASE + 4));
    executor.rewind(1);
    assert_eq!(executor.state.registers.pc, BASE + 4);
    assert_eq!(executor.state.registers.line[8], 1);
}
