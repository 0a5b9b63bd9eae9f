use saturn::cpu::State;
use saturn::error::Error;
use saturn::instruction::{Instruction, InstructionDecoder};
use saturn::memory::{Memory, Region};

const TEXT: u32 = 0x0040_0000;
const DATA: u32 = 0x1001_0000;

fn cpu_r(s: u32, t: u32, d: u32, sham: u32, funct: u32) -> u32 {
    (s << 21) | (t << 16) | (d << 11) | (sham << 6) | funct
}

fn cpu_i(opcode: u32, s: u32, t: u32, imm: u32) -> u32 {
    (opcode << 26) | (s << 21) | (t << 16) | (imm & 0xFFFF)
}

fn cpu_j(opcode: u32, target: u32) -> u32 {
    (opcode << 26) | (target & 0x03FF_FFFF)
}

fn cpu_words(words: &[u32]) -> Vec<u8> {
    let mut bytes = Vec::new();
    for word in words {
        bytes.extend_from_slice(&word.to_le_bytes());
    }
    bytes
}

fn cpu_state(words: &[u32]) -> State {
    let mut memory: Memory = Memory::new();
    memory.mount(Region { start: TEXT, data: cpu_words(words) });
    memory.mount(Region { start: DATA, data: vec![0; 256] });
    State::new(TEXT, memory)
}

fn cpu_run_one(word: u32, setup: &[(usize, u32)]) -> (State, Result<(), Error>) {
    let mut state = cpu_state(&[word]);
    for (index, value) in setup {
        state.registers.line[*index] = *value;
    }
    let result = state.step();
    (state, result)
}

#[test]
fn add_traps_on_signed_overflow_and_leaves_the_target() {
    let (state, result) = cpu_run_one(cpu_r(8, 9, 10, 0, 32), &[(8, 0x7FFF_FFFF), (9, 1), (10, 77)]);
    assert_eq!(result, Err(Error::CpuTrap));
    assert_eq!(state.registers.line[10], 77);
    assert_eq!(state.registers.pc, TEXT + 4);
}

#[test]
fn add_of_negative_numbers_does_not_trap() {
    let (state, result) = cpu_run_one(cpu_r(8, 9, 10, 0, 32), &[(8, 0xFFFF_FFFF), (9, 0xFFFF_FFFE)]);
    assert_eq!(result, Ok(()));
    assert_eq!(state.registers.line[10], 0xFFFF_FFFD);
}

#[test]
fn add_traps_below_the_signed_range() {
    let (_, result) = cpu_run_one(cpu_r(8, 9, 10, 0, 32), &[(8, 0x8000_0000), (9, 0xFFFF_FFFF)]);
    assert_eq!(result, Err(Error::CpuTrap));
}

#[test]
fn addu_wraps() {
    let (state, result) = cpu_run_one(cpu_r(8, 9, 10, 0, 33), &[(8, 0xFFFF_FFFF), (9, 2)]);
    assert_eq!(result, Ok(()));
    assert_eq!(state.registers.line[10], 1);
    let (state, _) = cpu_run_one(cpu_r(8, 9, 10, 0, 33), &[(8, 0x7FFF_FFFF), (9, 1)]);
    assert_eq!(state.registers.line[10], 0x8000_0000);
}

#[test]
fn sub_traps_on_signed_overflow_and_subu_wraps() {
    let (_, result) = cpu_run_one(cpu_r(8, 9, 10, 0, 34), &[(8, 0x8000_0000), (9, 1)]);
    assert_eq!(result, Err(Error::CpuTrap));
    let (state, result) = cpu_run_one(cpu_r(8, 9, 10, 0, 34), &[(8, 5), (9, 7)]);
    assert_eq!(result, Ok(()));
    assert_eq!(state.registers.line[10], 0xFFFF_FFFE);
    let (state, result) = cpu_run_one(cpu_r(8, 9, 10, 0, 35), &[(8, 0), (9, 1)]);
    assert_eq!(result, Ok(()));
    assert_eq!(state.registers.line[10], 0xFFFF_FFFF);
}

#[test]
fn addi_traps_on_overflow_and_addiu_wraps() {
    let (state, result) = cpu_run_one(cpu_i(8, 8, 9, 1), &[(8, 0x7FFF_FFFF)]);
    assert_eq!(result, Err(Error::CpuTrap));
    assert_eq!(state.registers.line[9], 0);
    let (state, result) = cpu_run_one(cpu_i(8, 8, 9, 0xFFFF), &[(8, 5)]);
    assert_eq!(result, Ok(()));
    assert_eq!(state.registers.line[9], 4);
    let (state, result) = cpu_run_one(cpu_i(9, 8, 9, 1), &[(8, 0x7FFF_FFFF)]);
    assert_eq!(result, Ok(()));
    assert_eq!(state.registers.line[9], 0x8000_0000);
    let (state, _) = cpu_run_one(cpu_i(9, 0, 4, 0xFFF9), &[]);
    assert_eq!(state.registers.line[4], 0xFFFF_FFF9);
}

#[test]
fn logic_instructions_combine_bits() {
    let setup = [(8, 0xF0F0_1234), (9, 0x0FF0_00FF)];
    let (state, _) = cpu_run_one(cpu_r(8, 9, 10, 0, 36), &setup);
    assert_eq!(state.registers.line[10], 0x00F0_0034);
    let (state, _) = cpu_run_one(cpu_r(8, 9, 10, 0, 37), &setup);
    assert_eq!(state.registers.line[10], 0xFFF0_12FF);
    let (state, _) = cpu_run_one(cpu_r(8, 9, 10, 0, 38), &setup);
    assert_eq!(state.registers.line[10], 0xFF00_12CB);
    let (state, _) = cpu_run_one(cpu_r(8, 9, 10, 0, 39), &setup);
    assert_eq!(state.registers.line[10], 0x000F_ED00);
    let (state, _) = cpu_run_one(cpu_i(12, 8, 10, 0xFF0F), &setup);
    assert_eq!(state.registers.line[10], 0x0000_1204);
    let (state, _) = cpu_run_one(cpu_i(13, 8, 10, 0x8001), &setup);
    assert_eq!(state.registers.line[10], 0xF0F0_9235);
    let (state, _) = cpu_run_one(cpu_i(14, 8, 10, 0xFFFF), &setup);
    assert_eq!(state.registers.line[10], 0xF0F0_EDCB);
}

#[test]
fn shifts_use_five_bits_of_the_amount() {
    let (state, _) = cpu_run_one(cpu_r(0, 9, 10, 4, 0), &[(9, 0x8000_000F)]);
    assert_eq!(state.registers.line[10], 0x0000_00F0);
    let (state, _) = cpu_run_one(cpu_r(0, 9, 10, 4, 2), &[(9, 0x8000_00F0)]);
    assert_eq!(state.registers.line[10], 0x0800_000F);
    let (state, _) = cpu_run_one(cpu_r(0, 9, 10, 4, 3), &[(9, 0x8000_00F0)]);
    assert_eq!(state.registers.line[10], 0xF800_000F);
    let (state, _) = cpu_run_one(cpu_r(0, 9, 10, 31, 3), &[(9, 0x8000_0000)]);
    assert_eq!(state.registers.line[10], 0xFFFF_FFFF);
    let (state, _) = cpu_run_one(cpu_r(0, 9, 10, 31, 3), &[(9, 0x7FFF_FFFF)]);
    assert_eq!(state.registers.line[10], 0);
    let (state, _) = cpu_run_one(cpu_r(8, 9, 10, 0, 4), &[(8, 33), (9, 1)]);
    assert_eq!(state.registers.line[10], 2);
    let (state, _) = cpu_run_one(cpu_r(8, 9, 10, 0, 6), &[(8, 0xFFFF_FFE1), (9, 0x10)]);
    assert_eq!(state.registers.line[10], 8);
    let (state, _) = cpu_run_one(cpu_r(8, 9, 10, 0, 7), &[(8, 36), (9, 0xFFFF_FF00)]);
    assert_eq!(state.registers.line[10], 0xFFFF_FFF0);
}

#[test]
fn mult_and_multu_fill_hi_and_lo() {
    let (state, _) = cpu_run_one(cpu_r(8, 9, 0, 0, 24), &[(8, 0xFFFF_FFFE), (9, 3)]);
    assert_eq!(state.registers.lo, 0xFFFF_FFFA);
    assert_eq!(state.registers.hi, 0xFFFF_FFFF);
    let (state, _) = cpu_run_one(cpu_r(8, 9, 0, 0, 25), &[(8, 0xFFFF_FFFE), (9, 3)]);
    assert_eq!(state.registers.lo, 0xFFFF_FFFA);
    assert_eq!(state.registers.hi, 2);
    let (state, _) = cpu_run_one(cpu_r(8, 9, 0, 0, 24), &[(8, 0x8000_0000), (9, 0x8000_0000)]);
    assert_eq!(state.registers.lo, 0);
    assert_eq!(state.registers.hi, 0x4000_0000);
    let (state, _) = cpu_run_one(cpu_r(8, 9, 0, 0, 25), &[(8, 0xFFFF_FFFF), (9, 0xFFFF_FFFF)]);
    assert_eq!(state.registers.lo, 1);
    assert_eq!(state.registers.hi, 0xFFFF_FFFE);
}

#[test]
fn div_rounds_toward_zero_and_yields_zero_for_a_zero_divisor() {
    let (state, result) = cpu_run_one(cpu_r(8, 9, 0, 0, 26), &[(8, 0xFFFF_FFF9), (9, 2)]);
    assert_eq!(result, Ok(()));
    assert_eq!(state.registers.lo, 0xFFFF_FFFD);
    assert_eq!(state.registers.hi, 0xFFFF_FFFF);
    let (state, _) = cpu_run_one(cpu_r(8, 9, 0, 0, 26), &[(8, 7), (9, 0xFFFF_FFFE)]);
    assert_eq!(state.registers.lo, 0xFFFF_FFFD);
    assert_eq!(state.registers.hi, 1);
    let mut state = cpu_state(&[cpu_r(8, 9, 0, 0, 26)]);
    state.registers.line[8] = 7;
    state.registers.lo = 5;
    state.registers.hi = 6;
    assert_eq!(state.step(), Ok(()));
    assert_eq!(state.registers.lo, 0);
    assert_eq!(state.registers.hi, 0);
    let (state, result) = cpu_run_one(cpu_r(8, 9, 0, 0, 26), &[(8, 0x8000_0000), (9, 0xFFFF_FFFF)]);
    assert_eq!(result, Ok(()));
    assert_eq!(state.registers.lo, 0x8000_0000);
    assert_eq!(state.registers.hi, 0);
}

#[test]
fn divu_divides_unsigned_and_yields_zero_for_a_zero_divisor() {
    let (state, _) = cpu_run_one(cpu_r(8, 9, 0, 0, 27), &[(8, 0xFFFF_FFF9), (9, 2)]);
    assert_eq!(state.registers.lo, 0x7FFF_FFFC);
    assert_eq!(state.registers.hi, 1);
    let (state, result) = cpu_run_one(cpu_r(8, 9, 0, 0, 27), &[(8, 9), (9, 0)]);
    assert_eq!(result, Ok(()));
    assert_eq!(state.registers.lo, 0);
    assert_eq!(state.registers.hi, 0);
}

#[test]
fn hi_and_lo_move_to_and_from_registers() {
    let mut state = cpu_state(&[cpu_r(8, 0, 0, 0, 17), cpu_r(9, 0, 0, 0, 19), cpu_r(0, 0, 10, 0, 16), cpu_r(0, 0, 11, 0, 18)]);
    state.registers.line[8] = 0x1111;
    state.registers.line[9] = 0x2222;
    assert_eq!(state.run(4), Ok(()));
    assert_eq!(state.registers.hi, 0x1111);
    assert_eq!(state.registers.lo, 0x2222);
    assert_eq!(state.registers.line[10], 0x1111);
    assert_eq!(state.registers.line[11], 0x2222);
}

#[test]
fn set_on_less_than_compares_signed_and_unsigned() {
    let setup = [(8, 0xFFFF_FFFF), (9, 1)];
    let (state, _) = cpu_run_one(cpu_r(8, 9, 10, 0, 42), &setup);
    assert_eq!(state.registers.line[10], 1);
    let (state, _) = cpu_run_one(cpu_r(8, 9, 10, 0, 43), &setup);
    assert_eq!(state.registers.line[10], 0);
    let (state, _) = cpu_run_one(cpu_i(10, 9, 10, 0xFFFF), &setup);
    assert_eq!(state.registers.line[10], 0);
    let (state, _) = cpu_run_one(cpu_i(10, 8, 10, 0), &setup);
    assert_eq!(state.registers.line[10], 1);
    let (state, _) = cpu_run_one(cpu_i(11, 9, 10, 0xFFFF), &setup);
    assert_eq!(state.registers.line[10], 1);
    let (state, _) = cpu_run_one(cpu_i(11, 8, 10, 0xFFFF), &setup);
    assert_eq!(state.registers.line[10], 0);
}

#[test]
fn lhi_and_llo_replace_one_half_and_keep_the_other() {
    let (state, _) = cpu_run_one(cpu_i(25, 0, 8, 0xABCD), &[(8, 0x1234_5678)]);
    assert_eq!(state.registers.line[8], 0xABCD_5678);
    let (state, _) = cpu_run_one(cpu_i(15, 0, 8, 0xABCD), &[(8, 0x1234_5678)]);
    assert_eq!(state.registers.line[8], 0xABCD_5678);
    let (state, _) = cpu_run_one(cpu_i(24, 0, 8, 0xABCD), &[(8, 0x1234_5678)]);
    assert_eq!(state.registers.line[8], 0x1234_ABCD);
}

#[test]
fn branches_count_from_the_next_instruction() {
    let (state, _) = cpu_run_one(cpu_i(4, 8, 9, 3), &[(8, 5), (9, 5)]);
    assert_eq!(state.registers.pc, TEXT + 4 + 12);
    let (state, _) = cpu_run_one(cpu_i(4, 8, 9, 3), &[(8, 5), (9, 6)]);
    assert_eq!(state.registers.pc, TEXT + 4);
    let (state, _) = cpu_run_one(cpu_i(5, 8, 9, 0xFFFF), &[(8, 5), (9, 6)]);
    assert_eq!(state.registers.pc, TEXT);
    let (state, _) = cpu_run_one(cpu_i(5, 8, 9, 0xFFFF), &[(8, 5), (9, 5)]);
    assert_eq!(state.registers.pc, TEXT + 4);
}

#[test]
fn compare_with_zero_branches() {
    let (state, _) = cpu_run_one(cpu_i(6, 8, 0, 2), &[(8, 0)]);
    assert_eq!(state.registers.pc, TEXT + 12);
    let (state, _) = cpu_run_one(cpu_i(6, 8, 0, 2), &[(8, 1)]);
    assert_eq!(state.registers.pc, TEXT + 4);
    let (state, _) = cpu_run_one(cpu_i(6, 8, 0, 2), &[(8, 0xFFFF_FFFF)]);
    assert_eq!(state.registers.pc, TEXT + 12);
    let (state, _) = cpu_run_one(cpu_i(7, 8, 0, 2), &[(8, 1)]);
    assert_eq!(state.registers.pc, TEXT + 12);
    let (state, _) = cpu_run_one(cpu_i(7, 8, 0, 2), &[(8, 0x8000_0000)]);
    assert_eq!(state.registers.pc, TEXT + 4);
    let (state, _) = cpu_run_one(cpu_i(1, 8, 0, 2), &[(8, 0x8000_0000)]);
    assert_eq!(state.registers.pc, TEXT + 12);
    let (state, _) = cpu_run_one(cpu_i(1, 8, 0, 2), &[(8, 0)]);
    assert_eq!(state.registers.pc, TEXT + 4);
    let (state, _) = cpu_run_one(cpu_i(1, 8, 1, 2), &[(8, 0)]);
    assert_eq!(state.registers.pc, TEXT + 12);
}

#[test]
fn linking_branches_save_the_return_address_when_taken() {
    let (state, _) = cpu_run_one(cpu_i(1, 8, 16, 4), &[(8, 0xFFFF_FFFF)]);
    assert_eq!(state.registers.pc, TEXT + 20);
    assert_eq!(state.registers.line[31], TEXT + 4);
    let (state, _) = cpu_run_one(cpu_i(1, 8, 16, 4), &[(8, 1)]);
    assert_eq!(state.registers.pc, TEXT + 4);
    assert_eq!(state.registers.line[31], 0);
    let (state, _) = cpu_run_one(cpu_i(1, 8, 17, 4), &[(8, 1)]);
    assert_eq!(state.registers.pc, TEXT + 20);
    assert_eq!(state.registers.line[31], TEXT + 4);
}

#[test]
fn jumps_stay_in_the_segment_and_link() {
    let (state, _) = cpu_run_one(cpu_j(2, 0x0010_0040), &[]);
    assert_eq!(state.registers.pc, 0x0040_0100);
    assert_eq!(state.registers.line[31], 0);
    let (state, _) = cpu_run_one(cpu_j(3, 0x03FF_FFFF), &[]);
    assert_eq!(state.registers.pc, 0x0FFF_FFFC);
    assert_eq!(state.registers.line[31], TEXT + 4);
    let (state, _) = cpu_run_one(cpu_r(8, 0, 0, 0, 8), &[(8, 0x1234_5678)]);
    assert_eq!(state.registers.pc, 0x1234_5678);
    let (state, _) = cpu_run_one(cpu_r(8, 0, 0, 0, 9), &[(8, 0x1234_5678)]);
    assert_eq!(state.registers.pc, 0x1234_5678);
    assert_eq!(state.registers.line[31], TEXT + 4);
}

#[test]
fn loads_extend_bytes_and_half_words() {
    let mut state = cpu_state(&[
        cpu_i(32, 8, 9, 0),
        cpu_i(36, 8, 10, 0),
        cpu_i(33, 8, 11, 2),
        cpu_i(37, 8, 12, 2),
        cpu_i(35, 8, 13, 0),
        cpu_i(32, 8, 14, 0xFFFF),
    ]);
    state.registers.line[8] = DATA + 4;
    assert_eq!(state.memory.set_u32(DATA + 4, 0x8001_7F80), Ok(()));
    assert_eq!(state.memory.set(DATA + 3, 0x7F), Ok(()));
    assert_eq!(state.run(6), Ok(()));
    assert_eq!(state.registers.line[9], 0xFFFF_FF80);
    assert_eq!(state.registers.line[10], 0x80);
    assert_eq!(state.registers.line[11], 0xFFFF_8001);
    assert_eq!(state.registers.line[12], 0x8001);
    assert_eq!(state.registers.line[13], 0x8001_7F80);
    assert_eq!(state.registers.line[14], 0x7F);
}

#[test]
fn stores_truncate() {
    let mut state = cpu_state(&[cpu_i(40, 8, 9, 0), cpu_i(41, 8, 9, 2), cpu_i(43, 8, 9, 4)]);
    state.registers.line[8] = DATA;
    state.registers.line[9] = 0xAABB_CCDD;
    assert_eq!(state.run(3), Ok(()));
    assert_eq!(state.memory.get_u32(DATA), Ok(0xCCDD_00DD));
    assert_eq!(state.memory.get_u32(DATA + 4), Ok(0xAABB_CCDD));
}

#[test]
fn memory_faults_stop_the_step_behind_the_instruction() {
    let (state, result) = cpu_run_one(cpu_i(35, 8, 9, 2), &[(8, DATA), (9, 5)]);
    assert_eq!(result, Err(Error::MemoryAlign(DATA + 2)));
    assert_eq!(state.registers.pc, TEXT + 4);
    assert_eq!(state.registers.line[9], 5);
    let (_, result) = cpu_run_one(cpu_i(41, 8, 9, 1), &[(8, DATA)]);
    assert_eq!(result, Err(Error::MemoryAlign(DATA + 1)));
    let (_, result) = cpu_run_one(cpu_i(43, 8, 9, 0), &[(8, 0x3000_0000)]);
    assert_eq!(result, Err(Error::MemoryUnmapped(0x3000_0000)));
    let (_, result) = cpu_run_one(cpu_i(32, 8, 9, 0xFFFF), &[(8, 0)]);
    assert_eq!(result, Err(Error::MemoryUnmapped(0xFFFF_FFFF)));
}

#[test]
fn zero_register_reads_zero_and_drops_writes() {
    let mut state = cpu_state(&[cpu_i(9, 0, 0, 5), cpu_r(0, 0, 8, 0, 33), cpu_i(35, 9, 0, 0)]);
    state.registers.line[9] = DATA;
    assert_eq!(state.memory.set_u32(DATA, 0xFFFF_FFFF), Ok(()));
    assert_eq!(state.run(3), Ok(()));
    assert_eq!(state.registers.line[0], 0);
    assert_eq!(state.registers.line[8], 0);
    assert_eq!(state.register(0), 0);
    let (state, _) = cpu_run_one(cpu_r(0, 0, 8, 0, 33), &[(0, 99), (8, 7)]);
    assert_eq!(state.registers.line[8], 0);
    assert_eq!(state.registers.line[0], 99);
    assert_eq!(state.register(0), 0);
}

#[test]
fn syscall_and_trap_fail_the_step() {
    let (state, result) = cpu_run_one(cpu_r(0, 0, 0, 0, 12), &[]);
    assert_eq!(result, Err(Error::CpuSyscall));
    assert_eq!(state.registers.pc, TEXT + 4);
    let (_, result) = cpu_run_one(cpu_i(26, 0, 0, 0), &[]);
    assert_eq!(result, Err(Error::CpuTrap));
}

#[test]
fn undecodable_word_fails_with_the_word() {
    let (state, result) = cpu_run_one(0xFC00_0000, &[]);
    assert_eq!(result, Err(Error::CpuInvalid(0xFC00_0000)));
    assert_eq!(state.registers.pc, TEXT + 4);
    let (_, result) = cpu_run_one(cpu_r(0, 0, 0, 0, 41), &[]);
    assert_eq!(result, Err(Error::CpuInvalid(41)));
    let (_, result) = cpu_run_one(cpu_i(1, 0, 2, 0), &[]);
    assert_eq!(result, Err(Error::CpuInvalid(cpu_i(1, 0, 2, 0))));
}

#[test]
fn failed_fetch_leaves_the_program_counter() {
    let mut state = cpu_state(&[0]);
    state.registers.pc = 0x0050_0000;
    assert_eq!(state.step(), Err(Error::MemoryUnmapped(0x0050_0000)));
    assert_eq!(state.registers.pc, 0x0050_0000);
    state.registers.pc = TEXT + 2;
    assert_eq!(state.step(), Err(Error::MemoryAlign(TEXT + 2)));
    assert_eq!(state.registers.pc, TEXT + 2);
}

#[test]
fn run_stops_at_the_first_failure_or_at_the_limit() {
    let mut state = cpu_state(&[cpu_i(9, 8, 8, 1), cpu_i(9, 8, 8, 1), cpu_r(0, 0, 0, 0, 12), cpu_i(9, 8, 8, 1)]);
    assert_eq!(state.run(1), Ok(()));
    assert_eq!(state.registers.line[8], 1);
    assert_eq!(state.run(10), Err(Error::CpuSyscall));
    assert_eq!(state.registers.line[8], 2);
    assert_eq!(state.registers.pc, TEXT + 12);
    assert_eq!(state.run(0), Ok(()));
}

#[test]
fn stores_are_journaled_with_the_bytes_they_replaced() {
    let mut state = cpu_state(&[cpu_i(43, 8, 9, 0), cpu_i(40, 8, 9, 1), cpu_i(43, 8, 9, 0x1000)]);
    state.registers.line[8] = DATA;
    state.registers.line[9] = 0x0403_0201;
    assert_eq!(state.memory.set(DATA + 1, 0xEE), Ok(()));
    let _ = state.memory.take();
    assert_eq!(state.step(), Ok(()));
    assert_eq!(state.memory.log, vec![(DATA, 0), (DATA + 1, 0xEE), (DATA + 2, 0), (DATA + 3, 0)]);
    assert_eq!(state.step(), Ok(()));
    assert_eq!(state.memory.log.len(), 5);
    assert_eq!(state.memory.log[4], (DATA + 1, 2));
    assert_eq!(state.step(), Err(Error::MemoryUnmapped(DATA + 0x1000)));
    assert_eq!(state.memory.log.len(), 5);
}

#[test]
fn decoder_reads_the_fields_of_each_format() {
    assert_eq!(InstructionDecoder::decode(cpu_r(1, 2, 3, 0, 32)), Some(Instruction::Add { s: 1, t: 2, d: 3 }));
    assert_eq!(InstructionDecoder::decode(cpu_r(0, 2, 3, 31, 0)), Some(Instruction::Sll { t: 2, d: 3, sham: 31 }));
    assert_eq!(InstructionDecoder::decode(cpu_r(1, 2, 3, 0, 43)), Some(Instruction::Sltu { s: 1, t: 2, d: 3 }));
    assert_eq!(InstructionDecoder::decode(cpu_r(1, 2, 3, 0, 42)), Some(Instruction::Slt { s: 1, t: 2, d: 3 }));
    assert_eq!(InstructionDecoder::decode(12), Some(Instruction::Syscall));
    assert_eq!(InstructionDecoder::decode(cpu_i(35, 29, 8, 0xFFFC)), Some(Instruction::Lw { s: 29, t: 8, imm: 0xFFFC }));
    assert_eq!(InstructionDecoder::decode(cpu_i(1, 4, 17, 7)), Some(Instruction::Bgezal { s: 4, imm: 7 }));
    assert_eq!(InstructionDecoder::decode(cpu_j(3, 0x03FF_FFFF)), Some(Instruction::Jal { target: 0x03FF_FFFF }));
    assert_eq!(InstructionDecoder::decode(cpu_i(15, 0, 8, 1)), Some(Instruction::Lhi { t: 8, imm: 1 }));
    assert_eq!(InstructionDecoder::decode(cpu_i(25, 0, 8, 1)), Some(Instruction::Lhi { t: 8, imm: 1 }));
    assert_eq!(InstructionDecoder::decode(cpu_i(24, 0, 8, 1)), Some(Instruction::Llo { t: 8, imm: 1 }));
    assert_eq!(InstructionDecoder::decode(cpu_i(26, 0, 0, 0)), Some(Instruction::Trap));
    assert_eq!(InstructionDecoder::decode(cpu_r(0, 0, 0, 0, 1)), None);
    assert_eq!(InstructionDecoder::decode(cpu_i(16, 0, 0, 0)), None);
    assert_eq!(InstructionDecoder::decode(cpu_i(63, 0, 0, 0)), None);
    assert_eq!(InstructionDecoder::decode(cpu_i(1, 0, 2, 0)), None);
}
