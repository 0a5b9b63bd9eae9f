//! Faults in the words of the instruction that raised them.

use vstd::prelude::*;
use vstd::string::StringExecFns;
use crate::alu::{extend, sign_extend, wrap, wrap_near};
use crate::cpu::State;
use crate::disassemble::{disassembly, Disassembler};
use crate::error::Error;
use crate::instruction::{decode, Instruction, InstructionDecoder};
use crate::registers::Registers;
use crate::text::{padded_hex, push_hex_padded};

verus! {

/// Why a memory access failed.
#[derive(Clone, Copy, Debug, PartialEq, Eq, Structural)]
pub enum MemoryErrorReason {
    /// The address is not aligned to the size of the access.
    Alignment,
    /// Nothing is mounted at the address.
    Unmapped,
}

/// What a load or store does, in words: the access, its size, and the
/// registers and immediate that make up its address.
pub open spec fn access(instruction: Instruction) -> Option<(bool, Seq<char>, u8, u16)> {
    match instruction {
        Instruction::Lb { s, t, imm } => Some((false, "byte"@, s, imm)),
        Instruction::Lbu { s, t, imm } => Some((false, "byte"@, s, imm)),
        Instruction::Lh { s, t, imm } => Some((false, "halfword"@, s, imm)),
        Instruction::Lhu { s, t, imm } => Some((false, "halfword"@, s, imm)),
        Instruction::Lw { s, t, imm } => Some((false, "word"@, s, imm)),
        Instruction::Sb { s, t, imm } => Some((true, "byte"@, s, imm)),
        Instruction::Sh { s, t, imm } => Some((true, "halfword"@, s, imm)),
        Instruction::Sw { s, t, imm } => Some((true, "word"@, s, imm)),
        _ => None,
    }
}

/// The words for a memory fault of a load or store: what it tried, at which
/// address, and the instruction. `None` for any other instruction.
pub open spec fn memory_error_text(
    instruction: Instruction,
    reason: MemoryErrorReason,
    registers: Registers,
) -> Option<Seq<char>> {
    match access(instruction) {
        None => None,
        Some((stores, size, s, imm)) => {
            let address = padded_hex(wrap(registers.get(s) + sign_extend(imm)) as nat, 8);
            let via = " via `"@ + disassembly(instruction) + "`"@;
            Some(
                match reason {
                    MemoryErrorReason::Alignment => (if stores {
                        "store "@
                    } else {
                        "load "@
                    }) + size + " at unaligned address 0x"@ + address + via,
                    MemoryErrorReason::Unmapped => (if stores {
                        "store to"@
                    } else {
                        "load from"@
                    }) + " unmapped address 0x"@ + address + via,
                },
            )
        },
    }
}

/// The words for a trap: an overflow of `add`, `sub` or `addi`, or the
/// `trap` instruction. `None` for any other instruction.
pub open spec fn trap_error_text(instruction: Instruction) -> Option<Seq<char>> {
    match instruction {
        Instruction::Add { .. } | Instruction::Sub { .. } | Instruction::Addi { .. } => Some(
            "signed overflow in `"@ + disassembly(instruction) + "`"@,
        ),
        Instruction::Trap => Some("trap raised by `trap`"@),
        _ => None,
    }
}

/// The words for `error`, raised by the instruction before the program
/// counter: those of the instruction where it can be read, decoded and
/// blamed, else those of the fault itself.
#[verifier::opaque]
pub open spec fn error_text(error: Error, instruction: Option<Instruction>, registers: Registers) -> Seq<
    char,
> {
    let described = match instruction {
        None => None,
        Some(decoded) => match error {
            Error::MemoryAlign(_) => memory_error_text(
                decoded,
                MemoryErrorReason::Alignment,
                registers,
            ),
            Error::MemoryUnmapped(_) => memory_error_text(
                decoded,
                MemoryErrorReason::Unmapped,
                registers,
            ),
            Error::CpuTrap => trap_error_text(decoded),
            _ => None,
        },
    };
    match described {
        Some(text) => text,
        None => error.text(),
    }
}

/// Describes a memory fault of `instruction`.
pub fn describe_memory_error(
    instruction: Instruction,
    word: u32,
    reason: MemoryErrorReason,
    registers: &Registers,
) -> (text: Option<String>)
    requires
        decode(word) == Some(instruction),
    ensures
        match memory_error_text(instruction, reason, *registers) {
            Some(expected) => text matches Some(shown) && shown@ == expected,
            None => text is None,
        },
{
    proof {
        crate::instruction::lemma_decode_wf(word);
    }
    let (stores, size, s, imm): (bool, &'static str, u8, u16) = match instruction {
        Instruction::Lb { s, t, imm } => (false, "byte", s, imm),
        Instruction::Lbu { s, t, imm } => (false, "byte", s, imm),
        Instruction::Lh { s, t, imm } => (false, "halfword", s, imm),
        Instruction::Lhu { s, t, imm } => (false, "halfword", s, imm),
        Instruction::Lw { s, t, imm } => (false, "word", s, imm),
        Instruction::Sb { s, t, imm } => (true, "byte", s, imm),
        Instruction::Sh { s, t, imm } => (true, "halfword", s, imm),
        Instruction::Sw { s, t, imm } => (true, "word", s, imm),
        _ => {
            return None;
        },
    };
    let address: u32 = wrap_near(registers.read(s) as i64 + extend(imm));
    let shown = match Disassembler::disassemble(word) {
        Some(shown) => shown,
        None => {
            return None;
        },
    };
    let mut text = match reason {
        MemoryErrorReason::Alignment => {
            let mut text = String::from_str(if stores {
                "store "
            } else {
                "load "
            });
            text.append(size);
            text.append(" at unaligned address 0x");
            text
        },
        MemoryErrorReason::Unmapped => {
            let mut text = String::from_str(if stores {
                "store to"
            } else {
                "load from"
            });
            text.append(" unmapped address 0x");
            text
        },
    };
    push_hex_padded(&mut text, address as u64, 8);
    text.append(" via `");
    text.append(shown.as_str());
    text.append("`");
    proof {
        let expected = memory_error_text(instruction, reason, *registers);
        assert(text@ =~= expected->0);
    }
    Some(text)
}

/// Describes a trap of `instruction`.
pub fn describe_trap_error(instruction: Instruction, word: u32) -> (text: Option<String>)
    requires
        decode(word) == Some(instruction),
    ensures
        match trap_error_text(instruction) {
            Some(expected) => text matches Some(shown) && shown@ == expected,
            None => text is None,
        },
{
    match instruction {
        Instruction::Add { .. } | Instruction::Sub { .. } | Instruction::Addi { .. } => {
            let shown = match Disassembler::disassemble(word) {
                Some(shown) => shown,
                None => {
                    return None;
                },
            };
            let mut text = String::from_str("signed overflow in `");
            text.append(shown.as_str());
            text.append("`");
            Some(text)
        },
        Instruction::Trap => Some(String::from_str("trap raised by `trap`")),
        _ => None,
    }
}

/// The instruction before the program counter, where it can be read and
/// decoded, and the memory after reading it.
pub open spec fn faulting(state: crate::cpu::StateView) -> (Option<Instruction>, crate::watched::WatchedView) {
    let read = state.memory.get_u32(wrap(state.registers.pc - 4));
    (
        match read.0 {
            Ok(word) => decode(word),
            Err(_) => None,
        },
        read.1,
    )
}

/// Without an instruction to blame, a fault is told in its own words.
pub proof fn lemma_error_text_alone(error: Error, registers: Registers)
    ensures
        error_text(error, None, registers) == error.text(),
{
    reveal(error_text);
}

/// Reads and decodes the instruction before the program counter.
pub fn blamed(state: &mut State) -> (found: Option<(Instruction, u32)>)
    requires
        old(state).wf(),
    ensures
        final(state).wf(),
        final(state).registers == old(state).registers,
        final(state)@.memory == faulting(old(state)@).1,
        match found {
            Some((instruction, word)) => faulting(old(state)@).0 == Some(instruction) && decode(word)
                == Some(instruction),
            None => faulting(old(state)@).0 is None,
        },
{
    let pc: u32 = state.registers.pc.wrapping_sub(4);
    assert(pc == wrap(state.registers.pc - 4));
    match state.memory.get_u32(pc) {
        Ok(word) => match InstructionDecoder::decode(word) {
            Some(instruction) => Some((instruction, word)),
            None => None,
        },
        Err(_) => None,
    }
}

/// Puts `error` in words for the user: where the instruction before the
/// program counter explains the fault, in the words of that instruction.
pub fn format_error(error: Error, state: &mut State) -> (message: String)
    requires
        old(state).wf(),
    ensures
        final(state).wf(),
        final(state).registers == old(state).registers,
        final(state)@.memory == faulting(old(state)@).1,
        message@ == error_text(error, faulting(old(state)@).0, old(state).registers),
{
    proof {
        lemma_error_text_alone(error, state.registers);
    }
    match blamed(state) {
        Some((instruction, word)) => match describe(error, instruction, word, &state.registers) {
            Some(text) => text,
            None => error.message(),
        },
        None => error.message(),
    }
}

/// The fault in the words of the instruction that raised it, where the
/// instruction explains the fault.
pub fn describe(error: Error, instruction: Instruction, word: u32, registers: &Registers) -> (text:
    Option<String>)
    requires
        decode(word) == Some(instruction),
    ensures
        match text {
            Some(shown) => shown@ == error_text(error, Some(instruction), *registers),
            None => error_text(error, Some(instruction), *registers) == error.text(),
        },
{
    proof {
        reveal(error_text);
    }
    match error {
        Error::MemoryAlign(_) => describe_memory_error(
            instruction,
            word,
            MemoryErrorReason::Alignment,
            registers,
        ),
        Error::MemoryUnmapped(_) => describe_memory_error(
            instruction,
            word,
            MemoryErrorReason::Unmapped,
            registers,
        ),
        Error::CpuTrap => describe_trap_error(instruction, word),
        _ => None,
    }
}

} // verus!
