//! The instruction set, and the decoding of instruction words.
//!
//! A word holds its opcode in the top six bits. Opcode 0 selects the register
//! format, whose low six bits name the operation; opcode 1 selects the
//! compare-with-zero branches, named by the `t` field. Every other opcode names
//! its operation itself. A four-byte step stands behind every branch offset and
//! jump target; no delay slot follows a branch.

use vstd::prelude::*;

verus! {

/// A decoded instruction with its operands: register numbers `s`, `t` and `d`,
/// a shift amount, a 16-bit immediate, or a 26-bit jump target.
#[derive(Clone, Copy, Debug, PartialEq, Eq, Structural)]
pub enum Instruction {
    /// `sll`: shifts register `t` left by `sham` bits into `d`.
    Sll { t: u8, d: u8, sham: u8 },
    /// `srl`: shifts register `t` right by `sham` bits into `d`, filling with zeros.
    Srl { t: u8, d: u8, sham: u8 },
    /// `sra`: shifts register `t` right by `sham` bits into `d`, filling with the sign bit.
    Sra { t: u8, d: u8, sham: u8 },
    /// `sllv`: shifts register `t` left by the low five bits of register `s` into `d`.
    Sllv { s: u8, t: u8, d: u8 },
    /// `srlv`: shifts register `t` right by the low five bits of register `s` into `d`, filling with zeros.
    Srlv { s: u8, t: u8, d: u8 },
    /// `srav`: shifts register `t` right by the low five bits of register `s` into `d`, filling with the sign bit.
    Srav { s: u8, t: u8, d: u8 },
    /// `jr`: jumps to the address in register `s`.
    Jr { s: u8 },
    /// `jalr`: saves the return address in `$ra` and jumps to the address in register `s`.
    Jalr { s: u8 },
    /// `syscall`: asks for a system call.
    Syscall,
    /// `mfhi`: copies `hi` into register `d`.
    Mfhi { d: u8 },
    /// `mthi`: copies register `s` into `hi`.
    Mthi { s: u8 },
    /// `mflo`: copies `lo` into register `d`.
    Mflo { d: u8 },
    /// `mtlo`: copies register `s` into `lo`.
    Mtlo { s: u8 },
    /// `mult`: multiplies registers `s` and `t` as signed values into `hi` and `lo`.
    Mult { s: u8, t: u8 },
    /// `multu`: multiplies registers `s` and `t` as unsigned values into `hi` and `lo`.
    Multu { s: u8, t: u8 },
    /// `div`: divides register `s` by `t` as signed values: quotient into `lo`, remainder into `hi`.
    Div { s: u8, t: u8 },
    /// `divu`: divides register `s` by `t` as unsigned values: quotient into `lo`, remainder into `hi`.
    Divu { s: u8, t: u8 },
    /// `add`: adds registers `s` and `t` into `d`; traps on signed overflow.
    Add { s: u8, t: u8, d: u8 },
    /// `addu`: adds registers `s` and `t` into `d`, wrapping.
    Addu { s: u8, t: u8, d: u8 },
    /// `sub`: subtracts register `t` from `s` into `d`; traps on signed overflow.
    Sub { s: u8, t: u8, d: u8 },
    /// `subu`: subtracts register `t` from `s` into `d`, wrapping.
    Subu { s: u8, t: u8, d: u8 },
    /// `and`: bitwise and of registers `s` and `t` into `d`.
    And { s: u8, t: u8, d: u8 },
    /// `or`: bitwise or of registers `s` and `t` into `d`.
    Or { s: u8, t: u8, d: u8 },
    /// `xor`: bitwise exclusive or of registers `s` and `t` into `d`.
    Xor { s: u8, t: u8, d: u8 },
    /// `nor`: bitwise nor of registers `s` and `t` into `d`.
    Nor { s: u8, t: u8, d: u8 },
    /// `slt`: sets `d` to 1 where register `s` is below `t` as signed values, else to 0.
    Slt { s: u8, t: u8, d: u8 },
    /// `sltu`: sets `d` to 1 where register `s` is below `t` as unsigned values, else to 0.
    Sltu { s: u8, t: u8, d: u8 },
    /// `bltz`: branches where register `s` is negative.
    Bltz { s: u8, imm: u16 },
    /// `bgez`: branches where register `s` is not negative.
    Bgez { s: u8, imm: u16 },
    /// `bltzal`: where register `s` is negative, saves the return address in `$ra` and branches.
    Bltzal { s: u8, imm: u16 },
    /// `bgezal`: where register `s` is not negative, saves the return address in `$ra` and branches.
    Bgezal { s: u8, imm: u16 },
    /// `j`: jumps to word `target` of the current 256 MiB segment.
    J { target: u32 },
    /// `jal`: saves the return address in `$ra` and jumps to word `target` of the current segment.
    Jal { target: u32 },
    /// `beq`: branches where registers `s` and `t` are equal.
    Beq { s: u8, t: u8, imm: u16 },
    /// `bne`: branches where registers `s` and `t` differ.
    Bne { s: u8, t: u8, imm: u16 },
    /// `blez`: branches where register `s` is at most `t` as signed values.
    Blez { s: u8, t: u8, imm: u16 },
    /// `bgtz`: branches where register `s` is above `t` as signed values.
    Bgtz { s: u8, t: u8, imm: u16 },
    /// `addi`: adds the sign-extended immediate to register `s` into `t`; traps on signed overflow.
    Addi { s: u8, t: u8, imm: u16 },
    /// `addiu`: adds the sign-extended immediate to register `s` into `t`, wrapping.
    Addiu { s: u8, t: u8, imm: u16 },
    /// `slti`: sets `t` to 1 where register `s` is below the sign-extended immediate, else to 0.
    Slti { s: u8, t: u8, imm: u16 },
    /// `sltiu`: sets `t` to 1 where register `s` is below the zero-extended immediate, else to 0.
    Sltiu { s: u8, t: u8, imm: u16 },
    /// `andi`: bitwise and of register `s` and the immediate into `t`.
    Andi { s: u8, t: u8, imm: u16 },
    /// `ori`: bitwise or of register `s` and the immediate into `t`.
    Ori { s: u8, t: u8, imm: u16 },
    /// `xori`: bitwise exclusive or of register `s` and the immediate into `t`.
    Xori { s: u8, t: u8, imm: u16 },
    /// `lhi`: puts the immediate into the high half of register `t` and keeps the low half.
    Lhi { t: u8, imm: u16 },
    /// `llo`: puts the immediate into the low half of register `t` and keeps the high half.
    Llo { t: u8, imm: u16 },
    /// `trap`: traps.
    Trap,
    /// `lb`: loads the byte at register `s` plus the immediate into `t`, sign-extended.
    Lb { s: u8, t: u8, imm: u16 },
    /// `lh`: loads the half-word at register `s` plus the immediate into `t`, sign-extended.
    Lh { s: u8, t: u8, imm: u16 },
    /// `lw`: loads the word at register `s` plus the immediate into `t`.
    Lw { s: u8, t: u8, imm: u16 },
    /// `lbu`: loads the byte at register `s` plus the immediate into `t`, zero-extended.
    Lbu { s: u8, t: u8, imm: u16 },
    /// `lhu`: loads the half-word at register `s` plus the immediate into `t`, zero-extended.
    Lhu { s: u8, t: u8, imm: u16 },
    /// `sb`: stores the low byte of register `t` at register `s` plus the immediate.
    Sb { s: u8, t: u8, imm: u16 },
    /// `sh`: stores the low half-word of register `t` at register `s` plus the immediate.
    Sh { s: u8, t: u8, imm: u16 },
    /// `sw`: stores register `t` at register `s` plus the immediate.
    Sw { s: u8, t: u8, imm: u16 },
}

impl Instruction {
    /// Whether every operand fits its field: register numbers and shift
    /// amounts in five bits, a jump target in 26.
    pub open spec fn wf(self) -> bool {
        match self {
            Instruction::Sll { t, d, sham } => t < 32 && d < 32 && sham < 32,
            Instruction::Srl { t, d, sham } => t < 32 && d < 32 && sham < 32,
            Instruction::Sra { t, d, sham } => t < 32 && d < 32 && sham < 32,
            Instruction::Sllv { s, t, d } => s < 32 && t < 32 && d < 32,
            Instruction::Srlv { s, t, d } => s < 32 && t < 32 && d < 32,
            Instruction::Srav { s, t, d } => s < 32 && t < 32 && d < 32,
            Instruction::Jr { s } => s < 32,
            Instruction::Jalr { s } => s < 32,
            Instruction::Syscall => true,
            Instruction::Mfhi { d } => d < 32,
            Instruction::Mthi { s } => s < 32,
            Instruction::Mflo { d } => d < 32,
            Instruction::Mtlo { s } => s < 32,
            Instruction::Mult { s, t } => s < 32 && t < 32,
            Instruction::Multu { s, t } => s < 32 && t < 32,
            Instruction::Div { s, t } => s < 32 && t < 32,
            Instruction::Divu { s, t } => s < 32 && t < 32,
            Instruction::Add { s, t, d } => s < 32 && t < 32 && d < 32,
            Instruction::Addu { s, t, d } => s < 32 && t < 32 && d < 32,
            Instruction::Sub { s, t, d } => s < 32 && t < 32 && d < 32,
            Instruction::Subu { s, t, d } => s < 32 && t < 32 && d < 32,
            Instruction::And { s, t, d } => s < 32 && t < 32 && d < 32,
            Instruction::Or { s, t, d } => s < 32 && t < 32 && d < 32,
            Instruction::Xor { s, t, d } => s < 32 && t < 32 && d < 32,
            Instruction::Nor { s, t, d } => s < 32 && t < 32 && d < 32,
            Instruction::Slt { s, t, d } => s < 32 && t < 32 && d < 32,
            Instruction::Sltu { s, t, d } => s < 32 && t < 32 && d < 32,
            Instruction::Bltz { s, imm } => s < 32,
            Instruction::Bgez { s, imm } => s < 32,
            Instruction::Bltzal { s, imm } => s < 32,
            Instruction::Bgezal { s, imm } => s < 32,
            Instruction::J { target } => target < 0x400_0000,
            Instruction::Jal { target } => target < 0x400_0000,
            Instruction::Beq { s, t, imm } => s < 32 && t < 32,
            Instruction::Bne { s, t, imm } => s < 32 && t < 32,
            Instruction::Blez { s, t, imm } => s < 32 && t < 32,
            Instruction::Bgtz { s, t, imm } => s < 32 && t < 32,
            Instruction::Addi { s, t, imm } => s < 32 && t < 32,
            Instruction::Addiu { s, t, imm } => s < 32 && t < 32,
            Instruction::Slti { s, t, imm } => s < 32 && t < 32,
            Instruction::Sltiu { s, t, imm } => s < 32 && t < 32,
            Instruction::Andi { s, t, imm } => s < 32 && t < 32,
            Instruction::Ori { s, t, imm } => s < 32 && t < 32,
            Instruction::Xori { s, t, imm } => s < 32 && t < 32,
            Instruction::Lhi { t, imm } => t < 32,
            Instruction::Llo { t, imm } => t < 32,
            Instruction::Trap => true,
            Instruction::Lb { s, t, imm } => s < 32 && t < 32,
            Instruction::Lh { s, t, imm } => s < 32 && t < 32,
            Instruction::Lw { s, t, imm } => s < 32 && t < 32,
            Instruction::Lbu { s, t, imm } => s < 32 && t < 32,
            Instruction::Lhu { s, t, imm } => s < 32 && t < 32,
            Instruction::Sb { s, t, imm } => s < 32 && t < 32,
            Instruction::Sh { s, t, imm } => s < 32 && t < 32,
            Instruction::Sw { s, t, imm } => s < 32 && t < 32,
        }
    }
}

/// The opcode of a word: bits 26 to 31.
pub open spec fn field_opcode(word: u32) -> u32 {
    word / 0x400_0000
}

/// The `s` register of a word: bits 21 to 25.
pub open spec fn field_s(word: u32) -> u8 {
    (word / 0x20_0000 % 32) as u8
}

/// The `t` register of a word: bits 16 to 20.
pub open spec fn field_t(word: u32) -> u8 {
    (word / 0x1_0000 % 32) as u8
}

/// The `d` register of a word: bits 11 to 15.
pub open spec fn field_d(word: u32) -> u8 {
    (word / 0x800 % 32) as u8
}

/// The shift amount of a word: bits 6 to 10.
pub open spec fn field_sham(word: u32) -> u8 {
    (word / 0x40 % 32) as u8
}

/// The function code of a word: bits 0 to 5.
pub open spec fn field_funct(word: u32) -> u32 {
    word % 64
}

/// The immediate of a word: bits 0 to 15.
pub open spec fn field_imm(word: u32) -> u16 {
    (word % 0x1_0000) as u16
}

/// The jump target of a word: bits 0 to 25.
pub open spec fn field_target(word: u32) -> u32 {
    word % 0x400_0000
}

/// The instruction that a word of the register format stands for.
pub open spec fn decode_rtype(word: u32) -> Option<Instruction> {
    let s = field_s(word);
    let t = field_t(word);
    let d = field_d(word);
    let sham = field_sham(word);
    let funct = field_funct(word);
    if funct == 0 {
        Some(Instruction::Sll { t, d, sham })
    } else if funct == 2 {
        Some(Instruction::Srl { t, d, sham })
    } else if funct == 3 {
        Some(Instruction::Sra { t, d, sham })
    } else if funct == 4 {
        Some(Instruction::Sllv { s, t, d })
    } else if funct == 6 {
        Some(Instruction::Srlv { s, t, d })
    } else if funct == 7 {
        Some(Instruction::Srav { s, t, d })
    } else if funct == 8 {
        Some(Instruction::Jr { s })
    } else if funct == 9 {
        Some(Instruction::Jalr { s })
    } else if funct == 12 {
        Some(Instruction::Syscall)
    } else if funct == 16 {
        Some(Instruction::Mfhi { d })
    } else if funct == 17 {
        Some(Instruction::Mthi { s })
    } else if funct == 18 {
        Some(Instruction::Mflo { d })
    } else if funct == 19 {
        Some(Instruction::Mtlo { s })
    } else if funct == 24 {
        Some(Instruction::Mult { s, t })
    } else if funct == 25 {
        Some(Instruction::Multu { s, t })
    } else if funct == 26 {
        Some(Instruction::Div { s, t })
    } else if funct == 27 {
        Some(Instruction::Divu { s, t })
    } else if funct == 32 {
        Some(Instruction::Add { s, t, d })
    } else if funct == 33 {
        Some(Instruction::Addu { s, t, d })
    } else if funct == 34 {
        Some(Instruction::Sub { s, t, d })
    } else if funct == 35 {
        Some(Instruction::Subu { s, t, d })
    } else if funct == 36 {
        Some(Instruction::And { s, t, d })
    } else if funct == 37 {
        Some(Instruction::Or { s, t, d })
    } else if funct == 38 {
        Some(Instruction::Xor { s, t, d })
    } else if funct == 39 {
        Some(Instruction::Nor { s, t, d })
    } else if funct == 42 {
        Some(Instruction::Slt { s, t, d })
    } else if funct == 43 {
        Some(Instruction::Sltu { s, t, d })
    } else {
        None
    }
}

/// The instruction that a word of the compare-with-zero branches stands for.
pub open spec fn decode_special(word: u32) -> Option<Instruction> {
    let s = field_s(word);
    let t = field_t(word);
    let imm = field_imm(word);
    if t == 0 {
        Some(Instruction::Bltz { s, imm })
    } else if t == 1 {
        Some(Instruction::Bgez { s, imm })
    } else if t == 16 {
        Some(Instruction::Bltzal { s, imm })
    } else if t == 17 {
        Some(Instruction::Bgezal { s, imm })
    } else {
        None
    }
}

/// The instruction that a word stands for, if it stands for one.
#[verifier::opaque]
pub open spec fn decode(word: u32) -> Option<Instruction> {
    let s = field_s(word);
    let t = field_t(word);
    let imm = field_imm(word);
    let target = field_target(word);
    let opcode = field_opcode(word);
    if opcode == 0 {
        decode_rtype(word)
    } else if opcode == 1 {
        decode_special(word)
    } else if opcode == 2 {
        Some(Instruction::J { target })
    } else if opcode == 3 {
        Some(Instruction::Jal { target })
    } else if opcode == 4 {
        Some(Instruction::Beq { s, t, imm })
    } else if opcode == 5 {
        Some(Instruction::Bne { s, t, imm })
    } else if opcode == 6 {
        Some(Instruction::Blez { s, t, imm })
    } else if opcode == 7 {
        Some(Instruction::Bgtz { s, t, imm })
    } else if opcode == 8 {
        Some(Instruction::Addi { s, t, imm })
    } else if opcode == 9 {
        Some(Instruction::Addiu { s, t, imm })
    } else if opcode == 10 {
        Some(Instruction::Slti { s, t, imm })
    } else if opcode == 11 {
        Some(Instruction::Sltiu { s, t, imm })
    } else if opcode == 12 {
        Some(Instruction::Andi { s, t, imm })
    } else if opcode == 13 {
        Some(Instruction::Ori { s, t, imm })
    } else if opcode == 14 {
        Some(Instruction::Xori { s, t, imm })
    } else if opcode == 15 || opcode == 25 {
        Some(Instruction::Lhi { t, imm })
    } else if opcode == 24 {
        Some(Instruction::Llo { t, imm })
    } else if opcode == 26 {
        Some(Instruction::Trap)
    } else if opcode == 32 {
        Some(Instruction::Lb { s, t, imm })
    } else if opcode == 33 {
        Some(Instruction::Lh { s, t, imm })
    } else if opcode == 35 {
        Some(Instruction::Lw { s, t, imm })
    } else if opcode == 36 {
        Some(Instruction::Lbu { s, t, imm })
    } else if opcode == 37 {
        Some(Instruction::Lhu { s, t, imm })
    } else if opcode == 40 {
        Some(Instruction::Sb { s, t, imm })
    } else if opcode == 41 {
        Some(Instruction::Sh { s, t, imm })
    } else if opcode == 43 {
        Some(Instruction::Sw { s, t, imm })
    } else {
        None
    }
}

/// Every decoded instruction has operands that fit their fields.
pub proof fn lemma_decode_wf(word: u32)
    ensures
        decode(word) matches Some(instruction) ==> instruction.wf(),
{
    reveal(decode);
}

/// A receiver of decoded instructions, with one method for each. `dispatch`
/// decodes a word and hands the instruction to its method.
pub trait Decoder<T>: Sized {
    /// Whether the decoder is fit to be handed an instruction.
    spec fn ready(&self) -> bool;

    /// Whether the decoder `before`, handed `instruction`, may return `out` and
    /// be left as `after`.
    spec fn visited(before: &Self, instruction: Instruction, out: T, after: &Self) -> bool;

    /// Shifts register `t` left by `sham` bits into `d`.
    fn sll(&mut self, t: u8, d: u8, sham: u8) -> (out: T)
        requires
            old(self).ready(),
            (Instruction::Sll { t, d, sham }).wf(),
        ensures
            final(self).ready(),
            Self::visited(old(self), (Instruction::Sll { t, d, sham }), out, final(self)),
    ;

    /// Shifts register `t` right by `sham` bits into `d`, filling with zeros.
    fn srl(&mut self, t: u8, d: u8, sham: u8) -> (out: T)
        requires
            old(self).ready(),
            (Instruction::Srl { t, d, sham }).wf(),
        ensures
            final(self).ready(),
            Self::visited(old(self), (Instruction::Srl { t, d, sham }), out, final(self)),
    ;

    /// Shifts register `t` right by `sham` bits into `d`, filling with the sign bit.
    fn sra(&mut self, t: u8, d: u8, sham: u8) -> (out: T)
        requires
            old(self).ready(),
            (Instruction::Sra { t, d, sham }).wf(),
        ensures
            final(self).ready(),
            Self::visited(old(self), (Instruction::Sra { t, d, sham }), out, final(self)),
    ;

    /// Shifts register `t` left by the low five bits of register `s` into `d`.
    fn sllv(&mut self, s: u8, t: u8, d: u8) -> (out: T)
        requires
            old(self).ready(),
            (Instruction::Sllv { s, t, d }).wf(),
        ensures
            final(self).ready(),
            Self::visited(old(self), (Instruction::Sllv { s, t, d }), out, final(self)),
    ;

    /// Shifts register `t` right by the low five bits of register `s` into `d`, filling with zeros.
    fn srlv(&mut self, s: u8, t: u8, d: u8) -> (out: T)
        requires
            old(self).ready(),
            (Instruction::Srlv { s, t, d }).wf(),
        ensures
            final(self).ready(),
            Self::visited(old(self), (Instruction::Srlv { s, t, d }), out, final(self)),
    ;

    /// Shifts register `t` right by the low five bits of register `s` into `d`, filling with the sign bit.
    fn srav(&mut self, s: u8, t: u8, d: u8) -> (out: T)
        requires
            old(self).ready(),
            (Instruction::Srav { s, t, d }).wf(),
        ensures
            final(self).ready(),
            Self::visited(old(self), (Instruction::Srav { s, t, d }), out, final(self)),
    ;

    /// Jumps to the address in register `s`.
    fn jr(&mut self, s: u8) -> (out: T)
        requires
            old(self).ready(),
            (Instruction::Jr { s }).wf(),
        ensures
            final(self).ready(),
            Self::visited(old(self), (Instruction::Jr { s }), out, final(self)),
    ;

    /// Saves the return address in `$ra` and jumps to the address in register `s`.
    fn jalr(&mut self, s: u8) -> (out: T)
        requires
            old(self).ready(),
            (Instruction::Jalr { s }).wf(),
        ensures
            final(self).ready(),
            Self::visited(old(self), (Instruction::Jalr { s }), out, final(self)),
    ;

    /// Asks for a system call.
    fn syscall(&mut self) -> (out: T)
        requires
            old(self).ready(),
        ensures
            final(self).ready(),
            Self::visited(old(self), Instruction::Syscall, out, final(self)),
    ;

    /// Copies `hi` into register `d`.
    fn mfhi(&mut self, d: u8) -> (out: T)
        requires
            old(self).ready(),
            (Instruction::Mfhi { d }).wf(),
        ensures
            final(self).ready(),
            Self::visited(old(self), (Instruction::Mfhi { d }), out, final(self)),
    ;

    /// Copies register `s` into `hi`.
    fn mthi(&mut self, s: u8) -> (out: T)
        requires
            old(self).ready(),
            (Instruction::Mthi { s }).wf(),
        ensures
            final(self).ready(),
            Self::visited(old(self), (Instruction::Mthi { s }), out, final(self)),
    ;

    /// Copies `lo` into register `d`.
    fn mflo(&mut self, d: u8) -> (out: T)
        requires
            old(self).ready(),
            (Instruction::Mflo { d }).wf(),
        ensures
            final(self).ready(),
            Self::visited(old(self), (Instruction::Mflo { d }), out, final(self)),
    ;

    /// Copies register `s` into `lo`.
    fn mtlo(&mut self, s: u8) -> (out: T)
        requires
            old(self).ready(),
            (Instruction::Mtlo { s }).wf(),
        ensures
            final(self).ready(),
            Self::visited(old(self), (Instruction::Mtlo { s }), out, final(self)),
    ;

    /// Multiplies registers `s` and `t` as signed values into `hi` and `lo`.
    fn mult(&mut self, s: u8, t: u8) -> (out: T)
        requires
            old(self).ready(),
            (Instruction::Mult { s, t }).wf(),
        ensures
            final(self).ready(),
            Self::visited(old(self), (Instruction::Mult { s, t }), out, final(self)),
    ;

    /// Multiplies registers `s` and `t` as unsigned values into `hi` and `lo`.
    fn multu(&mut self, s: u8, t: u8) -> (out: T)
        requires
            old(self).ready(),
            (Instruction::Multu { s, t }).wf(),
        ensures
            final(self).ready(),
            Self::visited(old(self), (Instruction::Multu { s, t }), out, final(self)),
    ;

    /// Divides register `s` by `t` as signed values: quotient into `lo`, remainder into `hi`.
    fn div(&mut self, s: u8, t: u8) -> (out: T)
        requires
            old(self).ready(),
            (Instruction::Div { s, t }).wf(),
        ensures
            final(self).ready(),
            Self::visited(old(self), (Instruction::Div { s, t }), out, final(self)),
    ;

    /// Divides register `s` by `t` as unsigned values: quotient into `lo`, remainder into `hi`.
    fn divu(&mut self, s: u8, t: u8) -> (out: T)
        requires
            old(self).ready(),
            (Instruction::Divu { s, t }).wf(),
        ensures
            final(self).ready(),
            Self::visited(old(self), (Instruction::Divu { s, t }), out, final(self)),
    ;

    /// Adds registers `s` and `t` into `d`; traps on signed overflow.
    fn add(&mut self, s: u8, t: u8, d: u8) -> (out: T)
        requires
            old(self).ready(),
            (Instruction::Add { s, t, d }).wf(),
        ensures
            final(self).ready(),
            Self::visited(old(self), (Instruction::Add { s, t, d }), out, final(self)),
    ;

    /// Adds registers `s` and `t` into `d`, wrapping.
    fn addu(&mut self, s: u8, t: u8, d: u8) -> (out: T)
        requires
            old(self).ready(),
            (Instruction::Addu { s, t, d }).wf(),
        ensures
            final(self).ready(),
            Self::visited(old(self), (Instruction::Addu { s, t, d }), out, final(self)),
    ;

    /// Subtracts register `t` from `s` into `d`; traps on signed overflow.
    fn sub(&mut self, s: u8, t: u8, d: u8) -> (out: T)
        requires
            old(self).ready(),
            (Instruction::Sub { s, t, d }).wf(),
        ensures
            final(self).ready(),
            Self::visited(old(self), (Instruction::Sub { s, t, d }), out, final(self)),
    ;

    /// Subtracts register `t` from `s` into `d`, wrapping.
    fn subu(&mut self, s: u8, t: u8, d: u8) -> (out: T)
        requires
            old(self).ready(),
            (Instruction::Subu { s, t, d }).wf(),
        ensures
            final(self).ready(),
            Self::visited(old(self), (Instruction::Subu { s, t, d }), out, final(self)),
    ;

    /// Bitwise and of registers `s` and `t` into `d`.
    fn and(&mut self, s: u8, t: u8, d: u8) -> (out: T)
        requires
            old(self).ready(),
            (Instruction::And { s, t, d }).wf(),
        ensures
            final(self).ready(),
            Self::visited(old(self), (Instruction::And { s, t, d }), out, final(self)),
    ;

    /// Bitwise or of registers `s` and `t` into `d`.
    fn or(&mut self, s: u8, t: u8, d: u8) -> (out: T)
        requires
            old(self).ready(),
            (Instruction::Or { s, t, d }).wf(),
        ensures
            final(self).ready(),
            Self::visited(old(self), (Instruction::Or { s, t, d }), out, final(self)),
    ;

    /// Bitwise exclusive or of registers `s` and `t` into `d`.
    fn xor(&mut self, s: u8, t: u8, d: u8) -> (out: T)
        requires
            old(self).ready(),
            (Instruction::Xor { s, t, d }).wf(),
        ensures
            final(self).ready(),
            Self::visited(old(self), (Instruction::Xor { s, t, d }), out, final(self)),
    ;

    /// Bitwise nor of registers `s` and `t` into `d`.
    fn nor(&mut self, s: u8, t: u8, d: u8) -> (out: T)
        requires
            old(self).ready(),
            (Instruction::Nor { s, t, d }).wf(),
        ensures
            final(self).ready(),
            Self::visited(old(self), (Instruction::Nor { s, t, d }), out, final(self)),
    ;

    /// Sets `d` to 1 where register `s` is below `t` as signed values, else to 0.
    fn slt(&mut self, s: u8, t: u8, d: u8) -> (out: T)
        requires
            old(self).ready(),
            (Instruction::Slt { s, t, d }).wf(),
        ensures
            final(self).ready(),
            Self::visited(old(self), (Instruction::Slt { s, t, d }), out, final(self)),
    ;

    /// Sets `d` to 1 where register `s` is below `t` as unsigned values, else to 0.
    fn sltu(&mut self, s: u8, t: u8, d: u8) -> (out: T)
        requires
            old(self).ready(),
            (Instruction::Sltu { s, t, d }).wf(),
        ensures
            final(self).ready(),
            Self::visited(old(self), (Instruction::Sltu { s, t, d }), out, final(self)),
    ;

    /// Branches where register `s` is negative.
    fn bltz(&mut self, s: u8, imm: u16) -> (out: T)
        requires
            old(self).ready(),
            (Instruction::Bltz { s, imm }).wf(),
        ensures
            final(self).ready(),
            Self::visited(old(self), (Instruction::Bltz { s, imm }), out, final(self)),
    ;

    /// Branches where register `s` is not negative.
    fn bgez(&mut self, s: u8, imm: u16) -> (out: T)
        requires
            old(self).ready(),
            (Instruction::Bgez { s, imm }).wf(),
        ensures
            final(self).ready(),
            Self::visited(old(self), (Instruction::Bgez { s, imm }), out, final(self)),
    ;

    /// Where register `s` is negative, saves the return address in `$ra` and branches.
    fn bltzal(&mut self, s: u8, imm: u16) -> (out: T)
        requires
            old(self).ready(),
            (Instruction::Bltzal { s, imm }).wf(),
        ensures
            final(self).ready(),
            Self::visited(old(self), (Instruction::Bltzal { s, imm }), out, final(self)),
    ;

    /// Where register `s` is not negative, saves the return address in `$ra` and branches.
    fn bgezal(&mut self, s: u8, imm: u16) -> (out: T)
        requires
            old(self).ready(),
            (Instruction::Bgezal { s, imm }).wf(),
        ensures
            final(self).ready(),
            Self::visited(old(self), (Instruction::Bgezal { s, imm }), out, final(self)),
    ;

    /// Jumps to word `target` of the current 256 MiB segment.
    fn j(&mut self, target: u32) -> (out: T)
        requires
            old(self).ready(),
            (Instruction::J { target }).wf(),
        ensures
            final(self).ready(),
            Self::visited(old(self), (Instruction::J { target }), out, final(self)),
    ;

    /// Saves the return address in `$ra` and jumps to word `target` of the current segment.
    fn jal(&mut self, target: u32) -> (out: T)
        requires
            old(self).ready(),
            (Instruction::Jal { target }).wf(),
        ensures
            final(self).ready(),
            Self::visited(old(self), (Instruction::Jal { target }), out, final(self)),
    ;

    /// Branches where registers `s` and `t` are equal.
    fn beq(&mut self, s: u8, t: u8, imm: u16) -> (out: T)
        requires
            old(self).ready(),
            (Instruction::Beq { s, t, imm }).wf(),
        ensures
            final(self).ready(),
            Self::visited(old(self), (Instruction::Beq { s, t, imm }), out, final(self)),
    ;

    /// Branches where registers `s` and `t` differ.
    fn bne(&mut self, s: u8, t: u8, imm: u16) -> (out: T)
        requires
            old(self).ready(),
            (Instruction::Bne { s, t, imm }).wf(),
        ensures
            final(self).ready(),
            Self::visited(old(self), (Instruction::Bne { s, t, imm }), out, final(self)),
    ;

    /// Branches where register `s` is at most `t` as signed values.
    fn blez(&mut self, s: u8, t: u8, imm: u16) -> (out: T)
        requires
            old(self).ready(),
            (Instruction::Blez { s, t, imm }).wf(),
        ensures
            final(self).ready(),
            Self::visited(old(self), (Instruction::Blez { s, t, imm }), out, final(self)),
    ;

    /// Branches where register `s` is above `t` as signed values.
    fn bgtz(&mut self, s: u8, t: u8, imm: u16) -> (out: T)
        requires
            old(self).ready(),
            (Instruction::Bgtz { s, t, imm }).wf(),
        ensures
            final(self).ready(),
            Self::visited(old(self), (Instruction::Bgtz { s, t, imm }), out, final(self)),
    ;

    /// Adds the sign-extended immediate to register `s` into `t`; traps on signed overflow.
    fn addi(&mut self, s: u8, t: u8, imm: u16) -> (out: T)
        requires
            old(self).ready(),
            (Instruction::Addi { s, t, imm }).wf(),
        ensures
            final(self).ready(),
            Self::visited(old(self), (Instruction::Addi { s, t, imm }), out, final(self)),
    ;

    /// Adds the sign-extended immediate to register `s` into `t`, wrapping.
    fn addiu(&mut self, s: u8, t: u8, imm: u16) -> (out: T)
        requires
            old(self).ready(),
            (Instruction::Addiu { s, t, imm }).wf(),
        ensures
            final(self).ready(),
            Self::visited(old(self), (Instruction::Addiu { s, t, imm }), out, final(self)),
    ;

    /// Sets `t` to 1 where register `s` is below the sign-extended immediate, else to 0.
    fn slti(&mut self, s: u8, t: u8, imm: u16) -> (out: T)
        requires
            old(self).ready(),
            (Instruction::Slti { s, t, imm }).wf(),
        ensures
            final(self).ready(),
            Self::visited(old(self), (Instruction::Slti { s, t, imm }), out, final(self)),
    ;

    /// Sets `t` to 1 where register `s` is below the zero-extended immediate, else to 0.
    fn sltiu(&mut self, s: u8, t: u8, imm: u16) -> (out: T)
        requires
            old(self).ready(),
            (Instruction::Sltiu { s, t, imm }).wf(),
        ensures
            final(self).ready(),
            Self::visited(old(self), (Instruction::Sltiu { s, t, imm }), out, final(self)),
    ;

    /// Bitwise and of register `s` and the immediate into `t`.
    fn andi(&mut self, s: u8, t: u8, imm: u16) -> (out: T)
        requires
            old(self).ready(),
            (Instruction::Andi { s, t, imm }).wf(),
        ensures
            final(self).ready(),
            Self::visited(old(self), (Instruction::Andi { s, t, imm }), out, final(self)),
    ;

    /// Bitwise or of register `s` and the immediate into `t`.
    fn ori(&mut self, s: u8, t: u8, imm: u16) -> (out: T)
        requires
            old(self).ready(),
            (Instruction::Ori { s, t, imm }).wf(),
        ensures
            final(self).ready(),
            Self::visited(old(self), (Instruction::Ori { s, t, imm }), out, final(self)),
    ;

    /// Bitwise exclusive or of register `s` and the immediate into `t`.
    fn xori(&mut self, s: u8, t: u8, imm: u16) -> (out: T)
        requires
            old(self).ready(),
            (Instruction::Xori { s, t, imm }).wf(),
        ensures
            final(self).ready(),
            Self::visited(old(self), (Instruction::Xori { s, t, imm }), out, final(self)),
    ;

    /// Puts the immediate into the high half of register `t` and keeps the low half.
    fn lhi(&mut self, t: u8, imm: u16) -> (out: T)
        requires
            old(self).ready(),
            (Instruction::Lhi { t, imm }).wf(),
        ensures
            final(self).ready(),
            Self::visited(old(self), (Instruction::Lhi { t, imm }), out, final(self)),
    ;

    /// Puts the immediate into the low half of register `t` and keeps the high half.
    fn llo(&mut self, t: u8, imm: u16) -> (out: T)
        requires
            old(self).ready(),
            (Instruction::Llo { t, imm }).wf(),
        ensures
            final(self).ready(),
            Self::visited(old(self), (Instruction::Llo { t, imm }), out, final(self)),
    ;

    /// Traps.
    fn trap(&mut self) -> (out: T)
        requires
            old(self).ready(),
        ensures
            final(self).ready(),
            Self::visited(old(self), Instruction::Trap, out, final(self)),
    ;

    /// Loads the byte at register `s` plus the immediate into `t`, sign-extended.
    fn lb(&mut self, s: u8, t: u8, imm: u16) -> (out: T)
        requires
            old(self).ready(),
            (Instruction::Lb { s, t, imm }).wf(),
        ensures
            final(self).ready(),
            Self::visited(old(self), (Instruction::Lb { s, t, imm }), out, final(self)),
    ;

    /// Loads the half-word at register `s` plus the immediate into `t`, sign-extended.
    fn lh(&mut self, s: u8, t: u8, imm: u16) -> (out: T)
        requires
            old(self).ready(),
            (Instruction::Lh { s, t, imm }).wf(),
        ensures
            final(self).ready(),
            Self::visited(old(self), (Instruction::Lh { s, t, imm }), out, final(self)),
    ;

    /// Loads the word at register `s` plus the immediate into `t`.
    fn lw(&mut self, s: u8, t: u8, imm: u16) -> (out: T)
        requires
            old(self).ready(),
            (Instruction::Lw { s, t, imm }).wf(),
        ensures
            final(self).ready(),
            Self::visited(old(self), (Instruction::Lw { s, t, imm }), out, final(self)),
    ;

    /// Loads the byte at register `s` plus the immediate into `t`, zero-extended.
    fn lbu(&mut self, s: u8, t: u8, imm: u16) -> (out: T)
        requires
            old(self).ready(),
            (Instruction::Lbu { s, t, imm }).wf(),
        ensures
            final(self).ready(),
            Self::visited(old(self), (Instruction::Lbu { s, t, imm }), out, final(self)),
    ;

    /// Loads the half-word at register `s` plus the immediate into `t`, zero-extended.
    fn lhu(&mut self, s: u8, t: u8, imm: u16) -> (out: T)
        requires
            old(self).ready(),
            (Instruction::Lhu { s, t, imm }).wf(),
        ensures
            final(self).ready(),
            Self::visited(old(self), (Instruction::Lhu { s, t, imm }), out, final(self)),
    ;

    /// Stores the low byte of register `t` at register `s` plus the immediate.
    fn sb(&mut self, s: u8, t: u8, imm: u16) -> (out: T)
        requires
            old(self).ready(),
            (Instruction::Sb { s, t, imm }).wf(),
        ensures
            final(self).ready(),
            Self::visited(old(self), (Instruction::Sb { s, t, imm }), out, final(self)),
    ;

    /// Stores the low half-word of register `t` at register `s` plus the immediate.
    fn sh(&mut self, s: u8, t: u8, imm: u16) -> (out: T)
        requires
            old(self).ready(),
            (Instruction::Sh { s, t, imm }).wf(),
        ensures
            final(self).ready(),
            Self::visited(old(self), (Instruction::Sh { s, t, imm }), out, final(self)),
    ;

    /// Stores register `t` at register `s` plus the immediate.
    fn sw(&mut self, s: u8, t: u8, imm: u16) -> (out: T)
        requires
            old(self).ready(),
            (Instruction::Sw { s, t, imm }).wf(),
        ensures
            final(self).ready(),
            Self::visited(old(self), (Instruction::Sw { s, t, imm }), out, final(self)),
    ;

    /// Decodes a word of the register format and hands the instruction on.
    fn dispatch_rtype(&mut self, instruction: u32) -> (out: Option<T>)
        requires
            old(self).ready(),
        ensures
            final(self).ready(),
            match decode_rtype(instruction) {
                Some(decoded) => out matches Some(value) && Self::visited(
                    old(self),
                    decoded,
                    value,
                    final(self),
                ),
                None => out is None && *final(self) == *old(self),
            },
    {
        let funct: u32 = instruction % 64;
        let s: u8 = (instruction / 0x20_0000 % 32) as u8;
        let t: u8 = (instruction / 0x1_0000 % 32) as u8;
        let d: u8 = (instruction / 0x800 % 32) as u8;
        let sham: u8 = (instruction / 0x40 % 32) as u8;
        match funct {
            0 => Some(self.sll(t, d, sham)),
            2 => Some(self.srl(t, d, sham)),
            3 => Some(self.sra(t, d, sham)),
            4 => Some(self.sllv(s, t, d)),
            6 => Some(self.srlv(s, t, d)),
            7 => Some(self.srav(s, t, d)),
            8 => Some(self.jr(s)),
            9 => Some(self.jalr(s)),
            12 => Some(self.syscall()),
            16 => Some(self.mfhi(d)),
            17 => Some(self.mthi(s)),
            18 => Some(self.mflo(d)),
            19 => Some(self.mtlo(s)),
            24 => Some(self.mult(s, t)),
            25 => Some(self.multu(s, t)),
            26 => Some(self.div(s, t)),
            27 => Some(self.divu(s, t)),
            32 => Some(self.add(s, t, d)),
            33 => Some(self.addu(s, t, d)),
            34 => Some(self.sub(s, t, d)),
            35 => Some(self.subu(s, t, d)),
            36 => Some(self.and(s, t, d)),
            37 => Some(self.or(s, t, d)),
            38 => Some(self.xor(s, t, d)),
            39 => Some(self.nor(s, t, d)),
            42 => Some(self.slt(s, t, d)),
            43 => Some(self.sltu(s, t, d)),
            _ => None,
        }
    }

    /// Decodes a word of the compare-with-zero branches and hands the
    /// instruction on.
    fn dispatch_special(&mut self, instruction: u32) -> (out: Option<T>)
        requires
            old(self).ready(),
        ensures
            final(self).ready(),
            match decode_special(instruction) {
                Some(decoded) => out matches Some(value) && Self::visited(
                    old(self),
                    decoded,
                    value,
                    final(self),
                ),
                None => out is None && *final(self) == *old(self),
            },
    {
        let s: u8 = (instruction / 0x20_0000 % 32) as u8;
        let t: u8 = (instruction / 0x1_0000 % 32) as u8;
        let imm: u16 = (instruction % 0x1_0000) as u16;
        match t {
            0 => Some(self.bltz(s, imm)),
            1 => Some(self.bgez(s, imm)),
            16 => Some(self.bltzal(s, imm)),
            17 => Some(self.bgezal(s, imm)),
            _ => None,
        }
    }

    /// Decodes a word and hands the instruction to its method; `None` where
    /// the word stands for no instruction.
    fn dispatch(&mut self, instruction: u32) -> (out: Option<T>)
        requires
            old(self).ready(),
        ensures
            final(self).ready(),
            match decode(instruction) {
                Some(decoded) => out matches Some(value) && Self::visited(
                    old(self),
                    decoded,
                    value,
                    final(self),
                ),
                None => out is None && *final(self) == *old(self),
            },
    {
        proof {
            reveal(decode);
        }
        let opcode: u32 = instruction / 0x400_0000;
        let s: u8 = (instruction / 0x20_0000 % 32) as u8;
        let t: u8 = (instruction / 0x1_0000 % 32) as u8;
        let imm: u16 = (instruction % 0x1_0000) as u16;
        let target: u32 = instruction % 0x400_0000;
        match opcode {
            0 => self.dispatch_rtype(instruction),
            1 => self.dispatch_special(instruction),
            2 => Some(self.j(target)),
            3 => Some(self.jal(target)),
            4 => Some(self.beq(s, t, imm)),
            5 => Some(self.bne(s, t, imm)),
            6 => Some(self.blez(s, t, imm)),
            7 => Some(self.bgtz(s, t, imm)),
            8 => Some(self.addi(s, t, imm)),
            9 => Some(self.addiu(s, t, imm)),
            10 => Some(self.slti(s, t, imm)),
            11 => Some(self.sltiu(s, t, imm)),
            12 => Some(self.andi(s, t, imm)),
            13 => Some(self.ori(s, t, imm)),
            14 => Some(self.xori(s, t, imm)),
            15 | 25 => Some(self.lhi(t, imm)),
            24 => Some(self.llo(t, imm)),
            26 => Some(self.trap()),
            32 => Some(self.lb(s, t, imm)),
            33 => Some(self.lh(s, t, imm)),
            35 => Some(self.lw(s, t, imm)),
            36 => Some(self.lbu(s, t, imm)),
            37 => Some(self.lhu(s, t, imm)),
            40 => Some(self.sb(s, t, imm)),
            41 => Some(self.sh(s, t, imm)),
            43 => Some(self.sw(s, t, imm)),
            _ => None,
        }
    }
}

/// The decoder that hands back the instruction itself.
pub struct InstructionDecoder {}

impl Decoder<Instruction> for InstructionDecoder {
    open spec fn ready(&self) -> bool {
        true
    }

    open spec fn visited(
        before: &Self,
        instruction: Instruction,
        out: Instruction,
        after: &Self,
    ) -> bool {
        out == instruction
    }

    fn sll(&mut self, t: u8, d: u8, sham: u8) -> (out: Instruction) {
        Instruction::Sll { t, d, sham }
    }

    fn srl(&mut self, t: u8, d: u8, sham: u8) -> (out: Instruction) {
        Instruction::Srl { t, d, sham }
    }

    fn sra(&mut self, t: u8, d: u8, sham: u8) -> (out: Instruction) {
        Instruction::Sra { t, d, sham }
    }

    fn sllv(&mut self, s: u8, t: u8, d: u8) -> (out: Instruction) {
        Instruction::Sllv { s, t, d }
    }

    fn srlv(&mut self, s: u8, t: u8, d: u8) -> (out: Instruction) {
        Instruction::Srlv { s, t, d }
    }

    fn srav(&mut self, s: u8, t: u8, d: u8) -> (out: Instruction) {
        Instruction::Srav { s, t, d }
    }

    fn jr(&mut self, s: u8) -> (out: Instruction) {
        Instruction::Jr { s }
    }

    fn jalr(&mut self, s: u8) -> (out: Instruction) {
        Instruction::Jalr { s }
    }

    fn syscall(&mut self) -> (out: Instruction) {
        Instruction::Syscall
    }

    fn mfhi(&mut self, d: u8) -> (out: Instruction) {
        Instruction::Mfhi { d }
    }

    fn mthi(&mut self, s: u8) -> (out: Instruction) {
        Instruction::Mthi { s }
    }

    fn mflo(&mut self, d: u8) -> (out: Instruction) {
        Instruction::Mflo { d }
    }

    fn mtlo(&mut self, s: u8) -> (out: Instruction) {
        Instruction::Mtlo { s }
    }

    fn mult(&mut self, s: u8, t: u8) -> (out: Instruction) {
        Instruction::Mult { s, t }
    }

    fn multu(&mut self, s: u8, t: u8) -> (out: Instruction) {
        Instruction::Multu { s, t }
    }

    fn div(&mut self, s: u8, t: u8) -> (out: Instruction) {
        Instruction::Div { s, t }
    }

    fn divu(&mut self, s: u8, t: u8) -> (out: Instruction) {
        Instruction::Divu { s, t }
    }

    fn add(&mut self, s: u8, t: u8, d: u8) -> (out: Instruction) {
        Instruction::Add { s, t, d }
    }

    fn addu(&mut self, s: u8, t: u8, d: u8) -> (out: Instruction) {
        Instruction::Addu { s, t, d }
    }

    fn sub(&mut self, s: u8, t: u8, d: u8) -> (out: Instruction) {
        Instruction::Sub { s, t, d }
    }

    fn subu(&mut self, s: u8, t: u8, d: u8) -> (out: Instruction) {
        Instruction::Subu { s, t, d }
    }

    fn and(&mut self, s: u8, t: u8, d: u8) -> (out: Instruction) {
        Instruction::And { s, t, d }
    }

    fn or(&mut self, s: u8, t: u8, d: u8) -> (out: Instruction) {
        Instruction::Or { s, t, d }
    }

    fn xor(&mut self, s: u8, t: u8, d: u8) -> (out: Instruction) {
        Instruction::Xor { s, t, d }
    }

    fn nor(&mut self, s: u8, t: u8, d: u8) -> (out: Instruction) {
        Instruction::Nor { s, t, d }
    }

    fn slt(&mut self, s: u8, t: u8, d: u8) -> (out: Instruction) {
        Instruction::Slt { s, t, d }
    }

    fn sltu(&mut self, s: u8, t: u8, d: u8) -> (out: Instruction) {
        Instruction::Sltu { s, t, d }
    }

    fn bltz(&mut self, s: u8, imm: u16) -> (out: Instruction) {
        Instruction::Bltz { s, imm }
    }

    fn bgez(&mut self, s: u8, imm: u16) -> (out: Instruction) {
        Instruction::Bgez { s, imm }
    }

    fn bltzal(&mut self, s: u8, imm: u16) -> (out: Instruction) {
        Instruction::Bltzal { s, imm }
    }

    fn bgezal(&mut self, s: u8, imm: u16) -> (out: Instruction) {
        Instruction::Bgezal { s, imm }
    }

    fn j(&mut self, target: u32) -> (out: Instruction) {
        Instruction::J { target }
    }

    fn jal(&mut self, target: u32) -> (out: Instruction) {
        Instruction::Jal { target }
    }

    fn beq(&mut self, s: u8, t: u8, imm: u16) -> (out: Instruction) {
        Instruction::Beq { s, t, imm }
    }

    fn bne(&mut self, s: u8, t: u8, imm: u16) -> (out: Instruction) {
        Instruction::Bne { s, t, imm }
    }

    fn blez(&mut self, s: u8, t: u8, imm: u16) -> (out: Instruction) {
        Instruction::Blez { s, t, imm }
    }

    fn bgtz(&mut self, s: u8, t: u8, imm: u16) -> (out: Instruction) {
        Instruction::Bgtz { s, t, imm }
    }

    fn addi(&mut self, s: u8, t: u8, imm: u16) -> (out: Instruction) {
        Instruction::Addi { s, t, imm }
    }

    fn addiu(&mut self, s: u8, t: u8, imm: u16) -> (out: Instruction) {
        Instruction::Addiu { s, t, imm }
    }

    fn slti(&mut self, s: u8, t: u8, imm: u16) -> (out: Instruction) {
        Instruction::Slti { s, t, imm }
    }

    fn sltiu(&mut self, s: u8, t: u8, imm: u16) -> (out: Instruction) {
        Instruction::Sltiu { s, t, imm }
    }

    fn andi(&mut self, s: u8, t: u8, imm: u16) -> (out: Instruction) {
        Instruction::Andi { s, t, imm }
    }

    fn ori(&mut self, s: u8, t: u8, imm: u16) -> (out: Instruction) {
        Instruction::Ori { s, t, imm }
    }

    fn xori(&mut self, s: u8, t: u8, imm: u16) -> (out: Instruction) {
        Instruction::Xori { s, t, imm }
    }

    fn lhi(&mut self, t: u8, imm: u16) -> (out: Instruction) {
        Instruction::Lhi { t, imm }
    }

    fn llo(&mut self, t: u8, imm: u16) -> (out: Instruction) {
        Instruction::Llo { t, imm }
    }

    fn trap(&mut self) -> (out: Instruction) {
        Instruction::Trap
    }

    fn lb(&mut self, s: u8, t: u8, imm: u16) -> (out: Instruction) {
        Instruction::Lb { s, t, imm }
    }

    fn lh(&mut self, s: u8, t: u8, imm: u16) -> (out: Instruction) {
        Instruction::Lh { s, t, imm }
    }

    fn lw(&mut self, s: u8, t: u8, imm: u16) -> (out: Instruction) {
        Instruction::Lw { s, t, imm }
    }

    fn lbu(&mut self, s: u8, t: u8, imm: u16) -> (out: Instruction) {
        Instruction::Lbu { s, t, imm }
    }

    fn lhu(&mut self, s: u8, t: u8, imm: u16) -> (out: Instruction) {
        Instruction::Lhu { s, t, imm }
    }

    fn sb(&mut self, s: u8, t: u8, imm: u16) -> (out: Instruction) {
        Instruction::Sb { s, t, imm }
    }

    fn sh(&mut self, s: u8, t: u8, imm: u16) -> (out: Instruction) {
        Instruction::Sh { s, t, imm }
    }

    fn sw(&mut self, s: u8, t: u8, imm: u16) -> (out: Instruction) {
        Instruction::Sw { s, t, imm }
    }

}

impl InstructionDecoder {
    /// The instruction that `word` stands for, if it stands for one.
    pub fn decode(word: u32) -> (out: Option<Instruction>)
        ensures
            out == decode(word),
            out matches Some(instruction) ==> instruction.wf(),
    {
        proof {
            lemma_decode_wf(word);
        }
        let mut decoder = InstructionDecoder {  };
        decoder.dispatch(word)
    }
}

} // verus!
