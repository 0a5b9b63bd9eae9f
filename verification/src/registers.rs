//! The register file: 32 general registers, the program counter, `hi` and `lo`.

use vstd::prelude::*;
use vstd::array::spec_array_update;

verus! {

/// The number of `$v0`, which names a system call and takes its result.
pub const V0_REG: u8 = 2;

/// The number of `$a0`, the first argument register.
pub const A0_REG: u8 = 4;

/// The number of `$a1`.
pub const A1_REG: u8 = 5;

/// The number of `$a2`.
pub const A2_REG: u8 = 6;

/// The number of `$a3`.
pub const A3_REG: u8 = 7;

/// The number of `$gp`.
pub const GP_REG: u8 = 28;

/// The number of `$sp`.
pub const SP_REG: u8 = 29;

/// The number of `$ra`, which takes return addresses.
pub const RA_REG: u8 = 31;

/// The registers of the machine. Entry 0 of `line` stands for `$zero`: the
/// interpreter reads it as 0 whatever the entry holds, and never writes it.
#[derive(Clone, Copy, Debug)]
pub struct Registers {
    /// The address of the next instruction.
    pub pc: u32,
    /// The general registers.
    pub line: [u32; 32],
    /// The low result of a multiplication, or the quotient of a division.
    pub lo: u32,
    /// The high result of a multiplication, or the remainder of a division.
    pub hi: u32,
}

impl Registers {
    /// What an instruction reads from register `index`.
    pub open spec fn get(self, index: u8) -> u32 {
        if index == 0 {
            0
        } else {
            self.line[index as int]
        }
    }

    /// The registers after an instruction writes `value` to register `index`.
    /// A write to `$zero` is dropped.
    pub open spec fn set(self, index: u8, value: u32) -> Registers {
        if index == 0 {
            self
        } else {
            Registers { line: spec_array_update(self.line, index as int, value), ..self }
        }
    }

    /// The registers with entry `index` of the line replaced, `$zero` included:
    /// what a write by the host does.
    pub open spec fn with_line(self, index: int, value: u32) -> Registers {
        Registers { line: spec_array_update(self.line, index, value), ..self }
    }

    /// Registers that are all zero but for the program counter.
    pub fn new(entry: u32) -> (registers: Registers)
        ensures
            registers.pc == entry,
            registers.lo == 0,
            registers.hi == 0,
            forall|i: int| 0 <= i < 32 ==> registers.line[i] == 0,
    {
        Registers { pc: entry, line: [0; 32], lo: 0, hi: 0 }
    }

    /// Reads register `index` as an instruction does.
    pub fn read(&self, index: u8) -> (value: u32)
        requires
            index < 32,
        ensures
            value == self.get(index),
    {
        if index == 0 {
            0
        } else {
            self.line[index as usize]
        }
    }

    /// Writes register `index` as an instruction does.
    pub fn write(&mut self, index: u8, value: u32)
        requires
            index < 32,
        ensures
            *final(self) == old(self).set(index, value),
    {
        if index != 0 {
            self.line[index as usize] = value;
        }
    }
}

/// After any write, `$zero` reads 0.
pub proof fn lemma_zero_reads_zero(registers: Registers, index: u8, value: u32)
    requires
        index < 32,
    ensures
        registers.set(index, value).get(0) == 0,
        registers.set(0, value) == registers,
{
}

/// A register that was written reads as the value written, unless it is
/// `$zero`; the other registers keep what they held.
pub proof fn lemma_set_get(registers: Registers, index: u8, value: u32, other: u8)
    requires
        0 < index < 32,
        other < 32,
    ensures
        registers.set(index, value).get(index) == value,
        other != index ==> registers.set(index, value).get(other) == registers.get(other),
        registers.set(index, value).pc == registers.pc,
        registers.set(index, value).hi == registers.hi,
        registers.set(index, value).lo == registers.lo,
{
    broadcast use vstd::array::axiom_spec_array_update;

}

} // verus!
