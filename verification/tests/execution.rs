use std::collections::HashSet;

use rand::SeedableRng;
use rand_chacha::ChaCha8Rng;
use saturn::cpu::State;
use saturn::delegate::{Advance, SyscallDelegate};
use saturn::device::{configure_keyboard, setup_state, state_from_binary, Binary, RawRegion, RegionFlags};
use saturn::display::FlushDisplayState;
use saturn::error::Error;
use saturn::execution::{
    BatchOptions, ExecutionRewindable, ExecutionState, ResumeMode, ResumeOptions, ResumeResult,
};
use saturn::executor::{DebugFrame, Executor, ExecutorMode};
use saturn::memory::{Memory, Region};
use saturn::registers::Registers;
use saturn::syscall::{MidiRequest, SyscallReply, SyscallRequest, SyscallResult, SyscallState};
use saturn::tracker::{HistoryTracker, Tracker};

const ENTRY: u32 = 0x0040_0000;

fn dev_r(s: u32, t: u32, d: u32, sham: u32, funct: u32) -> u32 {
    (s << 21) | (t << 16) | (d << 11) | (sham << 6) | funct
}

fn dev_i(opcode: u32, s: u32, t: u32, imm: u32) -> u32 {
    (opcode << 26) | (s << 21) | (t << 16) | (imm & 0xFFFF)
}

fn dev_li(register: u32, value: u32) -> u32 {
    dev_i(9, 0, register, value)
}

const SYSCALL: u32 = 12;

fn dev_device(words: &[u32], time_travel: bool) -> ExecutionState {
    let mut data = Vec::new();
    for word in words {
        data.extend_from_slice(&word.to_le_bytes());
    }
    let finished = ENTRY + data.len() as u32;
    let binary = Binary {
        entry: ENTRY,
        regions: vec![RawRegion {
            address: ENTRY,
            data,
            flags: RegionFlags { readable: true, writable: false, executable: true },
        }],
    };
    let mut memory: Memory = Memory::new();
    configure_keyboard(&mut memory);
    let mut state = state_from_binary(binary, 0x1000, memory);
    setup_state(&mut state);
    let tracker = if time_travel {
        Tracker::History(HistoryTracker::new(1000))
    } else {
        Tracker::Empty
    };
    ExecutionState::new(
        Executor::new(state, tracker),
        SyscallDelegate::new(SyscallState::new(ChaCha8Rng::seed_from_u64(1))),
        vec![finished],
    )
}

fn dev_options() -> ResumeOptions {
    ResumeOptions { batch: None, breakpoints: None, change_state: None }
}

/// Runs a resume to its end, printing to `console` and answering what else
/// the program asks for as a host without files, clock or synthesizer would.
fn dev_resume(device: &mut ExecutionState, options: ResumeOptions, console: &mut String) -> ResumeResult {
    let batch = options.batch;
    let mut advance = device.resume(&options);
    loop {
        advance = match advance {
            Advance::Stopped(frame, result) => return device.finish(frame, result),
            Advance::Handled => device.proceed(batch),
            Advance::Detached(_) => device.proceed(batch),
            Advance::Suspended(frame, request) => {
                let reply = match &request {
                    SyscallRequest::Print { text } => {
                        console.push_str(text);
                        SyscallReply::Done
                    }
                    SyscallRequest::Input => SyscallReply::Cancelled,
                    SyscallRequest::Open { .. } => SyscallReply::Opened(false),
                    SyscallRequest::ReadFile { .. } => SyscallReply::FileRead(None),
                    SyscallRequest::WriteFile { .. } => SyscallReply::FileWritten(None),
                    SyscallRequest::Time => SyscallReply::Time(Some(1_700_000_000_123)),
                    SyscallRequest::Play { .. } => SyscallReply::Played(false),
                    SyscallRequest::Install { .. } => SyscallReply::Installed(false),
                    _ => SyscallReply::Done,
                };
                device.settle(frame, request, reply)
            }
        };
    }
}

fn dev_message(result: &ResumeResult) -> String {
    match &result.mode {
        ResumeMode::Invalid { message } => message.clone(),
        other => panic!("expected an invalid mode, found {:?}", other),
    }
}

#[test]
fn halting_program_finishes_with_code_zero() {
    let mut device = dev_device(&[dev_li(2, 10), SYSCALL], false);
    let mut console = String::new();
    let result = dev_resume(&mut device, dev_options(), &mut console);
    assert!(matches!(result.mode, ResumeMode::Finished { pc, code: Some(0) } if pc == ENTRY + 8));
    assert_eq!(result.registers.pc, ENTRY + 8);
    assert_eq!(result.registers.line[2], 10);
    assert_eq!(console, "");
}

#[test]
fn exit_with_a_code_finishes_with_the_code() {
    let mut device = dev_device(&[dev_li(2, 17), dev_li(4, 42), SYSCALL], false);
    let mut console = String::new();
    let result = dev_resume(&mut device, dev_options(), &mut console);
    assert!(matches!(result.mode, ResumeMode::Finished { code: Some(42), .. }));
}

#[test]
fn printed_integer_reaches_the_console_before_the_program_ends() {
    let program = [dev_li(2, 1), dev_li(4, 0xFFF9), SYSCALL, dev_li(2, 10), SYSCALL];
    let mut device = dev_device(&program, false);
    let mut console = String::new();
    let result = dev_resume(&mut device, dev_options(), &mut console);
    assert_eq!(console, "-7");
    assert!(matches!(result.mode, ResumeMode::Finished { code: Some(0), .. }));
}

#[test]
fn overflow_trap_names_the_instruction() {
    let program = [dev_i(15, 0, 8, 0x7FFF), dev_i(13, 8, 8, 0xFFFF), dev_i(8, 8, 9, 1)];
    let mut device = dev_device(&program, false);
    let mut console = String::new();
    let result = dev_resume(&mut device, dev_options(), &mut console);
    let message = dev_message(&result);
    assert!(message.contains("add"));
    assert!(message.contains("overflow"));
    assert_eq!(message, "signed overflow in `addi $t1, $t0, 1`");
    assert_eq!(result.registers.pc, ENTRY + 12);
    assert_eq!(result.registers.line[8], 0x7FFF_FFFF);
    assert_eq!(result.registers.line[9], 0);
}

#[test]
fn breakpoint_stops_before_the_middle_instruction() {
    let mut device = dev_device(&[0, 0, 0], false);
    let options = ResumeOptions { batch: None, breakpoints: Some(vec![ENTRY + 4]), change_state: None };
    let mut console = String::new();
    let result = dev_resume(&mut device, options, &mut console);
    assert!(matches!(result.mode, ResumeMode::Breakpoint));
    assert_eq!(result.registers.pc, ENTRY + 4);
    let result = dev_resume(&mut device, dev_options(), &mut console);
    assert!(matches!(result.mode, ResumeMode::Finished { pc, code: None } if pc == ENTRY + 12));
}

#[test]
fn running_off_the_code_finishes_without_a_code() {
    let mut device = dev_device(&[dev_li(8, 5)], false);
    let mut console = String::new();
    let result = dev_resume(&mut device, dev_options(), &mut console);
    assert!(matches!(result.mode, ResumeMode::Finished { pc, code: None } if pc == ENTRY + 4));
    assert_eq!(result.registers.line[8], 5);
}

#[test]
fn fresh_machine_has_its_stack_and_framebuffer() {
    let mut device = dev_device(&[0], false);
    assert_eq!(device.debugger.state.registers.line[29], 0x7FFF_FFF8);
    assert_eq!(device.debugger.state.registers.line[28], 0x1000_8000);
    assert_eq!(device.debugger.state.registers.pc, ENTRY);
    let bytes = device.read_bytes(0x7FFF_EFFA, 4).unwrap();
    assert_eq!(bytes, vec![Some(0xCC), Some(0xCC), Some(0), Some(0)]);
    let bytes = device.read_bytes(0x7FFF_FFFA, 4).unwrap();
    assert_eq!(bytes, vec![Some(0), Some(0), Some(0xCC), Some(0xCC)]);
    let bytes = device.read_bytes(0x1000_7FFE, 4).unwrap();
    assert_eq!(bytes, vec![Some(0xCC), Some(0xCC), Some(0), Some(0)]);
    let bytes = device.read_bytes(0x0FFF_FFFF, 2).unwrap();
    assert_eq!(bytes, vec![None, Some(0xCC)]);
    let bytes = device.read_bytes(0x8000_0000, 1).unwrap();
    assert_eq!(bytes, vec![None]);
}

#[test]
fn keyboard_is_read_through_memory_mapped_registers() {
    let program = [
        dev_i(15, 0, 1, 0xFFFF),
        dev_i(35, 1, 8, 0),
        dev_i(36, 1, 9, 4),
        dev_i(35, 1, 10, 0),
        dev_i(36, 1, 11, 4),
    ];
    let mut device = dev_device(&program, false);
    device.post_key('A', false);
    let mut console = String::new();
    let result = dev_resume(&mut device, dev_options(), &mut console);
    assert!(matches!(result.mode, ResumeMode::Finished { code: None, .. }));
    assert_eq!(result.registers.line[8], 1);
    assert_eq!(result.registers.line[9], 65);
    assert_eq!(result.registers.line[10], 0);
    assert_eq!(result.registers.line[11], 65);
}

#[test]
fn rewinding_restores_registers_and_memory() {
    let program = [
        dev_li(8, 1),
        dev_li(9, 2),
        dev_r(8, 9, 10, 0, 33),
        dev_i(43, 28, 10, 0x100),
        dev_li(8, 7),
    ];
    let mut device = dev_device(&program, true);
    device.write_bytes(0x1000_8100, vec![0xAA, 0xBB, 0xCC, 0xDD]);
    let mut console = String::new();
    let result = dev_resume(&mut device, dev_options(), &mut console);
    assert!(matches!(result.mode, ResumeMode::Finished { code: None, .. }));
    assert_eq!(result.registers.line[10], 3);
    assert_eq!(device.read_bytes(0x1000_8100, 4).unwrap(), vec![Some(3), Some(0), Some(0), Some(0)]);
    assert_eq!(device.last_pc(), Some(ENTRY + 20));
    let result = device.rewind(1);
    assert_eq!(result.registers.pc, ENTRY + 20);
    assert_eq!(result.registers.line[8], 7);
    assert_eq!(device.last_pc(), Some(ENTRY + 16));
    let result = device.rewind(5);
    assert!(matches!(result.mode, ResumeMode::Paused));
    assert_eq!(result.registers.pc, ENTRY);
    assert_eq!(result.registers.line[8], 0);
    assert_eq!(result.registers.line[9], 0);
    assert_eq!(result.registers.line[10], 0);
    assert_eq!(
        device.read_bytes(0x1000_8100, 4).unwrap(),
        vec![Some(0xAA), Some(0xBB), Some(0xCC), Some(0xDD)]
    );
    assert_eq!(device.last_pc(), None);
}

#[test]
fn rewinding_in_a_full_history_restores_registers_and_memory() {
    let program = [dev_i(9, 8, 8, 1), dev_i(43, 28, 8, 0x100), (2 << 26) | (ENTRY >> 2)];
    let mut device = dev_device(&program, true);
    let mut console = String::new();
    let first = ResumeOptions {
        batch: Some(BatchOptions { count: 1500, first_batch: true, allow_interrupt: true }),
        breakpoints: None,
        change_state: Some(ExecutorMode::Running),
    };
    let start = dev_resume(&mut device, first, &mut console);
    assert!(matches!(start.mode, ResumeMode::Running));
    assert_eq!(start.registers.pc, ENTRY);
    assert_eq!(start.registers.line[8], 500);
    let bytes = device.read_bytes(0x1000_8100, 4).unwrap();
    assert_eq!(bytes, vec![Some(0xF4), Some(0x01), Some(0), Some(0)]);
    let next = ResumeOptions {
        batch: Some(BatchOptions { count: 1000, first_batch: false, allow_interrupt: true }),
        breakpoints: None,
        change_state: None,
    };
    let later = dev_resume(&mut device, next, &mut console);
    assert!(matches!(later.mode, ResumeMode::Running));
    assert_eq!(later.registers.pc, ENTRY + 4);
    assert_eq!(later.registers.line[8], 834);
    assert_eq!(device.read_bytes(0x1000_8100, 2).unwrap(), vec![Some(0x41), Some(0x03)]);
    let back = device.rewind(1000);
    assert!(matches!(back.mode, ResumeMode::Paused));
    assert_eq!(back.registers.pc, start.registers.pc);
    assert_eq!(back.registers.line, start.registers.line);
    assert_eq!(back.registers.hi, start.registers.hi);
    assert_eq!(back.registers.lo, start.registers.lo);
    assert_eq!(device.read_bytes(0x1000_8100, 4).unwrap(), bytes);
    assert_eq!(device.last_pc(), None);
}

#[test]
fn note_that_does_not_wait_lets_the_run_go_on_while_it_is_installed() {
    let program = [
        dev_li(4, 60),
        dev_li(5, 250),
        dev_li(6, 19),
        dev_li(7, 90),
        dev_li(2, 31),
        SYSCALL,
        dev_li(8, 5),
        dev_li(2, 10),
        SYSCALL,
    ];
    let mut device = dev_device(&program, false);
    let (frame, request) = match device.resume(&dev_options()) {
        Advance::Suspended(frame, request) => (frame, request),
        other => panic!("expected a request, found {:?}", other),
    };
    assert!(matches!(request, SyscallRequest::Play { sync: false, .. }));
    let left = match device.settle(frame, request, SyscallReply::Played(false)) {
        Advance::Detached(request) => request,
        other => panic!("expected work beside the run, found {:?}", other),
    };
    assert!(matches!(
        left,
        SyscallRequest::Install { request: MidiRequest { pitch: 60, duration: 250, instrument: 19, volume: 90 }, sync: false }
    ));
    let (frame, result) = match device.proceed(None) {
        Advance::Stopped(frame, result) => (frame, result),
        other => panic!("expected the end of the run, found {:?}", other),
    };
    let result = device.finish(frame, result);
    assert!(matches!(result.mode, ResumeMode::Finished { code: Some(0), .. }));
    assert_eq!(result.registers.line[8], 5);
}

#[test]
fn note_that_waits_suspends_the_run_until_it_is_installed_and_has_ended() {
    let program = [dev_li(6, 19), dev_li(2, 33), SYSCALL, dev_li(2, 10), SYSCALL];
    let mut device = dev_device(&program, false);
    let mut advance = device.resume(&dev_options());
    let mut asked = Vec::new();
    let result = loop {
        advance = match advance {
            Advance::Suspended(frame, request) => {
                let reply = match &request {
                    SyscallRequest::Play { .. } => SyscallReply::Played(false),
                    SyscallRequest::Install { .. } => SyscallReply::Installed(true),
                    SyscallRequest::WaitSync => {
                        assert!(device.wake_sync());
                        SyscallReply::Done
                    }
                    _ => SyscallReply::Done,
                };
                asked.push(format!("{:?}", request).split(' ').next().unwrap().to_string());
                device.settle(frame, request, reply)
            }
            Advance::Handled => device.proceed(None),
            Advance::Detached(request) => panic!("nothing is left beside the run: {:?}", request),
            Advance::Stopped(frame, result) => break device.finish(frame, result),
        };
    };
    assert_eq!(asked, vec!["Play", "Install", "Sound", "WaitSync"]);
    assert!(matches!(result.mode, ResumeMode::Finished { code: Some(0), .. }));
    assert!(!device.wake_sync());
}

#[test]
fn device_without_history_rewinds_nothing() {
    let mut device = dev_device(&[dev_li(8, 1)], false);
    let mut console = String::new();
    let _ = dev_resume(&mut device, dev_options(), &mut console);
    assert_eq!(device.last_pc(), None);
    let result = device.rewind(3);
    assert!(matches!(result.mode, ResumeMode::Paused));
    assert_eq!(result.registers.line[8], 1);
    assert_eq!(result.registers.pc, ENTRY + 4);
}

#[test]
fn pause_during_a_sleep_ends_the_resume_as_paused() {
    let program = [dev_li(2, 32), dev_i(13, 0, 4, 60000), SYSCALL, dev_li(8, 1)];
    let mut device = dev_device(&program, false);
    let (frame, request) = match device.resume(&dev_options()) {
        Advance::Suspended(frame, request) => (frame, request),
        other => panic!("expected a suspended run, found {:?}", other),
    };
    assert!(matches!(&request, SyscallRequest::Sleep { millis: 60000 }));
    device.pause();
    let advance = device.settle(frame, request, SyscallReply::Cancelled);
    let result = match advance {
        Advance::Stopped(frame, result) => device.finish(frame, result),
        other => panic!("expected a stop, found {:?}", other),
    };
    assert!(matches!(result.mode, ResumeMode::Paused));
    assert_eq!(result.registers.pc, ENTRY + 12);
    assert_eq!(device.debugger.state.registers.line[8], 0);
}

#[test]
fn cancelled_syscall_is_entered_again_by_the_next_resume() {
    let program = [dev_li(2, 32), dev_li(4, 5), SYSCALL, dev_li(8, 1)];
    let mut device = dev_device(&program, false);
    let (frame, request) = match device.resume(&dev_options()) {
        Advance::Suspended(frame, request) => (frame, request),
        other => panic!("expected a suspended run, found {:?}", other),
    };
    device.delegate.state.cancel();
    let advance = device.settle(frame, request, SyscallReply::Cancelled);
    assert!(matches!(advance, Advance::Stopped(_, Some(SyscallResult::Aborted))));
    assert!(device.delegate.state.is_cancelled());
    assert_eq!(device.debugger.mode(), ExecutorMode::Invalid(Error::CpuSyscall));
    let first = device.resume(&dev_options());
    assert!(!device.delegate.state.is_cancelled());
    let (frame, request) = match first {
        Advance::Suspended(frame, request) => (frame, request),
        other => panic!("expected a suspended run, found {:?}", other),
    };
    assert!(matches!(&request, SyscallRequest::Sleep { millis: 5 }));
    assert!(matches!(device.settle(frame, request, SyscallReply::Done), Advance::Handled));
    assert_eq!(device.debugger.mode(), ExecutorMode::Recovered);
    let result = match device.proceed(None) {
        Advance::Stopped(frame, result) => device.finish(frame, result),
        other => panic!("expected a stop, found {:?}", other),
    };
    assert!(matches!(result.mode, ResumeMode::Finished { code: None, .. }));
    assert_eq!(result.registers.line[8], 1);
}

#[test]
fn pause_after_a_handled_syscall_stops_the_next_leg() {
    let program = [dev_li(2, 32), SYSCALL, dev_li(8, 1)];
    let mut device = dev_device(&program, false);
    let (frame, request) = match device.resume(&dev_options()) {
        Advance::Suspended(frame, request) => (frame, request),
        other => panic!("expected a suspended run, found {:?}", other),
    };
    assert!(matches!(device.settle(frame, request, SyscallReply::Done), Advance::Handled));
    device.pause();
    let result = match device.proceed(None) {
        Advance::Stopped(frame, result) => device.finish(frame, result),
        other => panic!("expected a stop, found {:?}", other),
    };
    assert!(matches!(result.mode, ResumeMode::Paused));
    assert_eq!(result.registers.line[8], 0);
    assert_eq!(result.registers.pc, ENTRY + 8);
}

#[test]
fn later_batches_stay_cancelled_until_a_first_batch() {
    let program = [dev_li(2, 32), SYSCALL, dev_li(8, 1)];
    let mut device = dev_device(&program, false);
    device.delegate.state.cancel();
    let later = ResumeOptions {
        batch: Some(BatchOptions { count: 100, first_batch: false, allow_interrupt: false }),
        breakpoints: None,
        change_state: None,
    };
    let advance = device.resume(&later);
    assert!(matches!(advance, Advance::Stopped(_, Some(SyscallResult::Aborted))));
    assert_eq!(device.debugger.mode(), ExecutorMode::Invalid(Error::CpuSyscall));
    let first = ResumeOptions {
        batch: Some(BatchOptions { count: 100, first_batch: true, allow_interrupt: false }),
        breakpoints: None,
        change_state: None,
    };
    let advance = device.resume(&first);
    assert!(matches!(advance, Advance::Suspended(_, SyscallRequest::Sleep { millis: 0 })));
}

#[test]
fn batch_runs_at_most_its_count_of_cycles() {
    let program = [dev_li(8, 1), dev_li(8, 2), dev_li(8, 3), dev_li(8, 4)];
    let mut device = dev_device(&program, false);
    let mut console = String::new();
    let options = ResumeOptions {
        batch: Some(BatchOptions { count: 2, first_batch: true, allow_interrupt: true }),
        breakpoints: None,
        change_state: Some(ExecutorMode::Running),
    };
    let result = dev_resume(&mut device, options, &mut console);
    assert!(matches!(result.mode, ResumeMode::Running));
    assert_eq!(result.registers.line[8], 2);
    let next = ResumeOptions {
        batch: Some(BatchOptions { count: 1, first_batch: false, allow_interrupt: true }),
        breakpoints: None,
        change_state: None,
    };
    let result = dev_resume(&mut device, next, &mut console);
    assert_eq!(result.registers.line[8], 3);
    device.pause();
    let next = ResumeOptions {
        batch: Some(BatchOptions { count: 1, first_batch: false, allow_interrupt: true }),
        breakpoints: None,
        change_state: None,
    };
    let result = dev_resume(&mut device, next, &mut console);
    assert!(matches!(result.mode, ResumeMode::Paused));
    assert_eq!(result.registers.line[8], 3);
    let step = ResumeOptions {
        batch: Some(BatchOptions { count: 1, first_batch: true, allow_interrupt: false }),
        breakpoints: None,
        change_state: None,
    };
    let result = dev_resume(&mut device, step, &mut console);
    assert_eq!(result.registers.line[8], 4);
    assert!(matches!(result.mode, ResumeMode::Finished { code: None, .. }));
}

#[test]
fn single_step_leaves_a_breakpoint() {
    let mut device = dev_device(&[dev_li(8, 1), dev_li(8, 2), dev_li(8, 3)], false);
    let mut console = String::new();
    let options = ResumeOptions { batch: None, breakpoints: Some(vec![ENTRY + 4]), change_state: None };
    let result = dev_resume(&mut device, options, &mut console);
    assert!(matches!(result.mode, ResumeMode::Breakpoint));
    let step = ResumeOptions {
        batch: Some(BatchOptions { count: 1, first_batch: true, allow_interrupt: false }),
        breakpoints: None,
        change_state: None,
    };
    let result = dev_resume(&mut device, step, &mut console);
    assert_eq!(result.registers.pc, ENTRY + 8);
    assert_eq!(result.registers.line[8], 2);
    assert!(matches!(result.mode, ResumeMode::Running));
}

#[test]
fn write_register_reaches_the_line_hi_lo_and_pc() {
    let mut device = dev_device(&[0], false);
    device.write_register(0, 11);
    device.write_register(31, 12);
    device.write_register(32, 13);
    device.write_register(33, 14);
    device.write_register(34, 15);
    device.write_register(35, 16);
    let registers: Registers = device.debugger.state.registers;
    assert_eq!(registers.line[0], 11);
    assert_eq!(registers.line[31], 12);
    assert_eq!(registers.hi, 13);
    assert_eq!(registers.lo, 14);
    assert_eq!(registers.pc, 15);
    assert_eq!(registers.line[1], 0);
}

#[test]
fn written_bytes_are_seen_by_the_next_instruction() {
    let mut device = dev_device(&[dev_i(35, 28, 8, 0)], false);
    device.write_bytes(0x1000_8000, vec![1, 2, 3, 4]);
    device.write_bytes(0x0FFF_FFFF, vec![9, 8]);
    let mut console = String::new();
    let result = dev_resume(&mut device, dev_options(), &mut console);
    assert_eq!(result.registers.line[8], 0x0403_0201);
    assert_eq!(device.read_bytes(0x0FFF_FFFF, 2).unwrap(), vec![None, Some(8)]);
}

#[test]
fn read_bytes_ends_at_the_end_of_the_address_space() {
    let mut device = dev_device(&[0], false);
    assert_eq!(device.read_bytes(0xFFFF_FFFE, 10).unwrap().len(), 2);
    assert_eq!(device.read_bytes(ENTRY, 0).unwrap().len(), 0);
    assert_eq!(device.read_bytes(ENTRY, 1).unwrap(), vec![Some(0)]);
}

#[test]
fn facade_reads_the_display() {
    let mut device = dev_device(&[0], false);
    device.write_bytes(0x1000_8000, vec![0xDD, 0xCC, 0xBB, 0xAA]);
    assert_eq!(device.read_display(0x1000_8000, 1, 1), Some(vec![0xBB, 0xCC, 0xDD, 0xFF]));
    assert_eq!(device.read_display(0x1000_8000, 2, 1), Some(vec![0xBB, 0xCC, 0xDD, 0xFF, 0, 0, 0, 0xFF]));
    assert_eq!(device.read_display(0x8000_0000, 1, 1), None);
    let mut display = FlushDisplayState { address: 0, register: Some(28), width: 1, height: 1, data: None };
    let frame = device.debugger.frame();
    device.flush_display(&mut display);
    let result = device.finish(frame, None);
    assert!(matches!(result.mode, ResumeMode::Paused));
    assert_eq!(display.data, Some(vec![0xBB, 0xCC, 0xDD, 0xFF]));
}

#[test]
fn unknown_and_unimplemented_syscalls_have_their_own_messages() {
    let mut device = dev_device(&[dev_li(2, 99), SYSCALL], false);
    let mut console = String::new();
    let result = dev_resume(&mut device, dev_options(), &mut console);
    assert_eq!(
        dev_message(&result),
        "Unrecognized syscall 99, select a syscall by loading a value into $v0.\n > li $v0, new_value\nYou can make a feature request or make a contribution at https://github.com/1whatleytay/saturn."
    );
    let mut device = dev_device(&[dev_li(2, 2), SYSCALL], false);
    let result = dev_resume(&mut device, dev_options(), &mut console);
    assert_eq!(
        dev_message(&result),
        "Unimplemented syscall 2, file a bug or make a contribution at https://github.com/1whatleytay/saturn."
    );
}

#[test]
fn memory_faults_are_told_in_the_words_of_the_instruction() {
    let mut device = dev_device(&[dev_i(15, 0, 16, 0x9000), dev_i(35, 16, 8, 0)], false);
    let mut console = String::new();
    let result = dev_resume(&mut device, dev_options(), &mut console);
    assert_eq!(dev_message(&result), "load from unmapped address 0x90000000 via `lw $t0, 0($s0)`");
    let mut device = dev_device(&[dev_i(41, 28, 8, 1)], false);
    let result = dev_resume(&mut device, dev_options(), &mut console);
    assert_eq!(dev_message(&result), "store halfword at unaligned address 0x10008001 via `sh $t0, 1($gp)`");
    let mut device = dev_device(&[dev_i(43, 0, 8, 0xFFFC)], false);
    let result = dev_resume(&mut device, dev_options(), &mut console);
    assert_eq!(dev_message(&result), "store to unmapped address 0xfffffffc via `sw $t0, -4($zero)`");
    let mut device = dev_device(&[dev_i(33, 28, 8, 3)], false);
    let result = dev_resume(&mut device, dev_options(), &mut console);
    assert_eq!(dev_message(&result), "load halfword at unaligned address 0x10008003 via `lh $t0, 3($gp)`");
}

#[test]
fn faults_without_a_telling_instruction_use_the_words_of_the_fault() {
    let mut device = dev_device(&[0xFC00_0000, 0], false);
    let mut console = String::new();
    let result = dev_resume(&mut device, dev_options(), &mut console);
    assert_eq!(dev_message(&result), "Instruction 0xfc000000 is reserved.");
    let mut device = dev_device(&[dev_r(8, 0, 0, 0, 8)], false);
    device.write_register(8, 0x0050_0002);
    let result = dev_resume(&mut device, dev_options(), &mut console);
    assert_eq!(dev_message(&result), "Memory access at 0x00500002 is not aligned.");
    let mut device = dev_device(&[dev_r(8, 0, 0, 0, 8)], false);
    device.write_register(8, 0x0050_0000);
    let result = dev_resume(&mut device, dev_options(), &mut console);
    assert_eq!(dev_message(&result), "Memory at 0x00500000 is not mapped.");
    let mut device = dev_device(&[dev_i(26, 0, 0, 0)], false);
    let result = dev_resume(&mut device, dev_options(), &mut console);
    assert_eq!(dev_message(&result), "trap raised by `trap`");
}

#[test]
fn syscall_exceptions_are_told_by_the_fault() {
    let mut device = dev_device(&[dev_li(2, 4), dev_i(15, 0, 4, 0x9000), SYSCALL], false);
    let mut console = String::new();
    let result = dev_resume(&mut device, dev_options(), &mut console);
    assert_eq!(dev_message(&result), "Memory at 0x90000000 is not mapped.");
    assert_eq!(result.registers.pc, ENTRY + 12);
}

#[test]
fn from_frame_maps_results_and_modes() {
    let mut memory: Memory = Memory::new();
    memory.mount(Region { start: 0x100, data: vec![0; 8] });
    let mut state = State::new(0x104, memory);
    let frame = |mode: ExecutorMode| DebugFrame { mode, registers: Registers::new(0x104) };
    let finished = vec![0x108u32, 0x104];
    let none: Vec<u32> = vec![];
    let result = ResumeResult::from_frame(frame(ExecutorMode::Running), &finished, None, &mut state);
    assert!(matches!(result.mode, ResumeMode::Finished { pc: 0x104, code: None }));
    let result = ResumeResult::from_frame(frame(ExecutorMode::Running), &none, None, &mut state);
    assert!(matches!(result.mode, ResumeMode::Running));
    let result = ResumeResult::from_frame(frame(ExecutorMode::Recovered), &none, None, &mut state);
    assert!(matches!(result.mode, ResumeMode::Breakpoint));
    let result = ResumeResult::from_frame(frame(ExecutorMode::Paused), &none, Some(SyscallResult::Completed), &mut state);
    assert!(matches!(result.mode, ResumeMode::Paused));
    let result = ResumeResult::from_frame(frame(ExecutorMode::Breakpoint), &none, Some(SyscallResult::Aborted), &mut state);
    assert!(matches!(result.mode, ResumeMode::Paused));
    let result = ResumeResult::from_frame(
        frame(ExecutorMode::Paused),
        &finished,
        Some(SyscallResult::Failure("no".to_string())),
        &mut state,
    );
    assert!(matches!(&result.mode, ResumeMode::Invalid { message } if message == "no"));
    let result = ResumeResult::from_frame(
        frame(ExecutorMode::Paused),
        &finished,
        Some(SyscallResult::Terminated(9)),
        &mut state,
    );
    assert!(matches!(result.mode, ResumeMode::Finished { pc: 0x104, code: Some(9) }));
    let result = ResumeResult::from_frame(
        frame(ExecutorMode::Invalid(Error::CpuSyscall)),
        &none,
        None,
        &mut state,
    );
    assert!(matches!(&result.mode, ResumeMode::Invalid { message } if message == "The processor asked for a system call."));
}

#[test]
fn breakpoints_can_be_replaced_through_the_facade() {
    let mut device = dev_device(&[0, 0, 0], false);
    let mut set = HashSet::new();
    set.insert(ENTRY + 8);
    device.set_breakpoints(set);
    let mut console = String::new();
    let result = dev_resume(&mut device, dev_options(), &mut console);
    assert!(matches!(result.mode, ResumeMode::Breakpoint));
    assert_eq!(result.registers.pc, ENTRY + 8);
    device.set_breakpoints(HashSet::new());
    let result = dev_resume(&mut device, dev_options(), &mut console);
    assert!(matches!(result.mode, ResumeMode::Finished { code: None, .. }));
}

#[test]
fn posted_input_is_read_by_the_program() {
    let program = [dev_li(2, 5), SYSCALL, dev_r(2, 0, 8, 0, 33), dev_li(2, 12), SYSCALL];
    let mut device = dev_device(&program, false);
    device.post_input("  -042x".to_string());
    let mut console = String::new();
    let result = dev_resume(&mut device, dev_options(), &mut console);
    assert!(matches!(result.mode, ResumeMode::Finished { code: None, .. }));
    assert_eq!(result.registers.line[8], 0xFFFF_FFD6);
    assert_eq!(result.registers.line[2], 'x' as u32);
}

#[test]
fn wake_sync_without_a_waiter_does_nothing() {
    let mut device = dev_device(&[0], false);
    assert!(!device.wake_sync());
    assert!(!device.wake_sync());
}

fn dev_elf(code: &[u32], data: &[u8]) -> Vec<u8> {
    let mut bytes = Vec::new();
    bytes.extend_from_slice(&0x464c457fu32.to_le_bytes());
    bytes.extend_from_slice(&[1, 1, 1, 0]);
    bytes.extend_from_slice(&[0; 8]);
    bytes.extend_from_slice(&2u16.to_le_bytes());
    bytes.extend_from_slice(&8u16.to_le_bytes());
    bytes.extend_from_slice(&1u32.to_le_bytes());
    bytes.extend_from_slice(&ENTRY.to_le_bytes());
    bytes.extend_from_slice(&52u32.to_le_bytes());
    bytes.extend_from_slice(&0u32.to_le_bytes());
    bytes.extend_from_slice(&0u32.to_le_bytes());
    bytes.extend_from_slice(&52u16.to_le_bytes());
    bytes.extend_from_slice(&32u16.to_le_bytes());
    bytes.extend_from_slice(&2u16.to_le_bytes());
    bytes.extend_from_slice(&[0; 6]);
    let code_offset = 52 + 64;
    let data_offset = code_offset + 4 * code.len() as u32;
    for field in [1, code_offset, ENTRY, 0, 4 * code.len() as u32, 4 * code.len() as u32, 5, 4] {
        bytes.extend_from_slice(&field.to_le_bytes());
    }
    for field in [1, data_offset, 0x1001_0000, 0, data.len() as u32, data.len() as u32, 6, 4] {
        bytes.extend_from_slice(&field.to_le_bytes());
    }
    for word in code {
        bytes.extend_from_slice(&word.to_le_bytes());
    }
    bytes.extend_from_slice(data);
    bytes
}

#[test]
fn elf_program_runs_from_its_entry_with_its_data() {
    let code = [dev_i(15, 0, 8, 0x1001), dev_i(36, 8, 9, 1), dev_i(9, 29, 10, 0)];
    let elf = saturn::elf::Elf::read(&dev_elf(&code, &[7, 8, 9])).unwrap();
    let finished = saturn::elf::get_elf_finished_pcs(&elf);
    assert_eq!(finished, vec![ENTRY + 12]);
    let mut memory: Memory = Memory::new();
    configure_keyboard(&mut memory);
    let mut state = saturn::device::create_elf_state(&elf, 0x1000, memory);
    setup_state(&mut state);
    let mut device = ExecutionState::new(
        Executor::new(state, Tracker::Empty),
        SyscallDelegate::new(SyscallState::new(ChaCha8Rng::seed_from_u64(2))),
        finished,
    );
    let mut console = String::new();
    let result = dev_resume(&mut device, dev_options(), &mut console);
    assert!(matches!(result.mode, ResumeMode::Finished { pc, code: None } if pc == ENTRY + 12));
    assert_eq!(result.registers.line[9], 8);
    assert_eq!(result.registers.line[10], 0x7FFF_FFFC);
    assert_eq!(result.registers.line[28], 0x1000_8000);
}

#[test]
fn rewindable_device_reports_its_history() {
    let mut device = dev_device(&[dev_li(8, 1), dev_li(8, 2), dev_li(8, 3)], true);
    let options = ResumeOptions {
        batch: Some(BatchOptions { count: 3, first_batch: true, allow_interrupt: false }),
        breakpoints: None,
        change_state: None,
    };
    let mut console = String::new();
    let _ = dev_resume(&mut device, options, &mut console);
    assert_eq!(device.last_pc(), Some(ENTRY + 8));
    let result = device.rewind(2);
    assert_eq!(device.last_pc(), Some(ENTRY));
    assert_eq!(result.registers.pc, ENTRY + 4);
    assert_eq!(result.registers.line[8], 1);
    let result = device.rewind(7);
    assert_eq!(device.last_pc(), None);
    assert_eq!(result.registers.pc, ENTRY);
}
