//! The disassembler: the text of an instruction.

use vstd::prelude::*;
use vstd::string::StringExecFns;
use crate::alu::sign_extend;
use crate::instruction::{Decoder, Instruction};
use crate::text::{numeral, push_numeral, signed_numeral};

verus! {

/// The name of a register.
pub open spec fn register_name(index: u8) -> Seq<char> {
    if index == 0 {
        "$zero"@
    } else if index == 1 {
        "$at"@
    } else if index == 2 {
        "$v0"@
    } else if index == 3 {
        "$v1"@
    } else if index == 4 {
        "$a0"@
    } else if index == 5 {
        "$a1"@
    } else if index == 6 {
        "$a2"@
    } else if index == 7 {
        "$a3"@
    } else if index == 8 {
        "$t0"@
    } else if index == 9 {
        "$t1"@
    } else if index == 10 {
        "$t2"@
    } else if index == 11 {
        "$t3"@
    } else if index == 12 {
        "$t4"@
    } else if index == 13 {
        "$t5"@
    } else if index == 14 {
        "$t6"@
    } else if index == 15 {
        "$t7"@
    } else if index == 16 {
        "$s0"@
    } else if index == 17 {
        "$s1"@
    } else if index == 18 {
        "$s2"@
    } else if index == 19 {
        "$s3"@
    } else if index == 20 {
        "$s4"@
    } else if index == 21 {
        "$s5"@
    } else if index == 22 {
        "$s6"@
    } else if index == 23 {
        "$s7"@
    } else if index == 24 {
        "$t8"@
    } else if index == 25 {
        "$t9"@
    } else if index == 26 {
        "$k0"@
    } else if index == 27 {
        "$k1"@
    } else if index == 28 {
        "$gp"@
    } else if index == 29 {
        "$sp"@
    } else if index == 30 {
        "$fp"@
    } else if index == 31 {
        "$ra"@
    } else {
        "unk"@
    }
}

/// The name of a register.
pub fn reg(value: u8) -> (name: &'static str)
    ensures
        name@ == register_name(value),
{
    match value {
        0 => "$zero",
        1 => "$at",
        2 => "$v0",
        3 => "$v1",
        4 => "$a0",
        5 => "$a1",
        6 => "$a2",
        7 => "$a3",
        8 => "$t0",
        9 => "$t1",
        10 => "$t2",
        11 => "$t3",
        12 => "$t4",
        13 => "$t5",
        14 => "$t6",
        15 => "$t7",
        16 => "$s0",
        17 => "$s1",
        18 => "$s2",
        19 => "$s3",
        20 => "$s4",
        21 => "$s5",
        22 => "$s6",
        23 => "$s7",
        24 => "$t8",
        25 => "$t9",
        26 => "$k0",
        27 => "$k1",
        28 => "$gp",
        29 => "$sp",
        30 => "$fp",
        31 => "$ra",
        _ => "unk",
    }
}

/// Appends the decimal numeral of an immediate read as a signed number.
pub fn push_signed(text: &mut String, imm: u16)
    ensures
        final(text)@ == old(text)@ + signed_numeral(sign_extend(imm)),
{
    if imm >= 0x8000 {
        text.append("-");
        proof {
            reveal_strlit("-");
            assert("-"@ =~= seq!['-']);
        }
        push_numeral(text, 0x1_0000 - imm as u32, 10);
        assert(text@ =~= old(text)@ + signed_numeral(sign_extend(imm)));
    } else {
        push_numeral(text, imm as u32, 10);
    }
}

/// The text of an instruction: its mnemonic and its operands. Immediates of
/// arithmetic, branches, loads and stores show as signed decimals, those of
/// the logic instructions as hexadecimals, shift amounts and jump targets as
/// unsigned decimals.
pub open spec fn disassembly(instruction: Instruction) -> Seq<char> {
    match instruction {
        Instruction::Sll { t, d, sham } => "sll "@ + register_name(d) + ", "@
            + register_name(t) + ", "@ + numeral(sham as nat, 10),
        Instruction::Srl { t, d, sham } => "srl "@ + register_name(d) + ", "@
            + register_name(t) + ", "@ + numeral(sham as nat, 10),
        Instruction::Sra { t, d, sham } => "sra "@ + register_name(d) + ", "@
            + register_name(t) + ", "@ + numeral(sham as nat, 10),
        Instruction::Sllv { s, t, d } => "sllv "@ + register_name(d) + ", "@
            + register_name(s) + ", "@ + register_name(t),
        Instruction::Srlv { s, t, d } => "srlv "@ + register_name(d) + ", "@
            + register_name(s) + ", "@ + register_name(t),
        Instruction::Srav { s, t, d } => "srav "@ + register_name(d) + ", "@
            + register_name(s) + ", "@ + register_name(t),
        Instruction::Jr { s } => "jr "@ + register_name(s),
        Instruction::Jalr { s } => "jalr "@ + register_name(s),
        Instruction::Syscall => "syscall"@,
        Instruction::Mfhi { d } => "mfhi "@ + register_name(d),
        Instruction::Mthi { s } => "mthi "@ + register_name(s),
        Instruction::Mflo { d } => "mflo "@ + register_name(d),
        Instruction::Mtlo { s } => "mtlo "@ + register_name(s),
        Instruction::Mult { s, t } => "mult "@ + register_name(s) + ", "@ + register_name(t),
        Instruction::Multu { s, t } => "multu "@ + register_name(s) + ", "@ + register_name(t),
        Instruction::Div { s, t } => "div "@ + register_name(s) + ", "@ + register_name(t),
        Instruction::Divu { s, t } => "divu "@ + register_name(s) + ", "@ + register_name(t),
        Instruction::Add { s, t, d } => "add "@ + register_name(d) + ", "@
            + register_name(s) + ", "@ + register_name(t),
        Instruction::Addu { s, t, d } => "addu "@ + register_name(d) + ", "@
            + register_name(s) + ", "@ + register_name(t),
        Instruction::Sub { s, t, d } => "sub "@ + register_name(d) + ", "@
            + register_name(s) + ", "@ + register_name(t),
        Instruction::Subu { s, t, d } => "subu "@ + register_name(d) + ", "@
            + register_name(s) + ", "@ + register_name(t),
        Instruction::And { s, t, d } => "and "@ + register_name(d) + ", "@
            + register_name(s) + ", "@ + register_name(t),
        Instruction::Or { s, t, d } => "or "@ + register_name(d) + ", "@
            + register_name(s) + ", "@ + register_name(t),
        Instruction::Xor { s, t, d } => "xor "@ + register_name(d) + ", "@
            + register_name(s) + ", "@ + register_name(t),
        Instruction::Nor { s, t, d } => "nor "@ + register_name(d) + ", "@
            + register_name(s) + ", "@ + register_name(t),
        Instruction::Slt { s, t, d } => "slt "@ + register_name(d) + ", "@
            + register_name(s) + ", "@ + register_name(t),
        Instruction::Sltu { s, t, d } => "sltu "@ + register_name(d) + ", "@
            + register_name(s) + ", "@ + register_name(t),
        Instruction::Bltz { s, imm } => "bltz "@ + register_name(s)
            + ", "@ + signed_numeral(sign_extend(imm)),
        Instruction::Bgez { s, imm } => "bgez "@ + register_name(s)
            + ", "@ + signed_numeral(sign_extend(imm)),
        Instruction::Bltzal { s, imm } => "bltzal "@ + register_name(s)
            + ", "@ + signed_numeral(sign_extend(imm)),
        Instruction::Bgezal { s, imm } => "bgezal "@ + register_name(s)
            + ", "@ + signed_numeral(sign_extend(imm)),
        Instruction::J { target } => "j "@ + numeral(target as nat, 10),
        Instruction::Jal { target } => "jal "@ + numeral(target as nat, 10),
        Instruction::Beq { s, t, imm } => "beq "@ + register_name(s) + ", "@
            + register_name(t) + ", "@ + signed_numeral(sign_extend(imm)),
        Instruction::Bne { s, t, imm } => "bne "@ + register_name(s) + ", "@
            + register_name(t) + ", "@ + signed_numeral(sign_extend(imm)),
        Instruction::Blez { s, t, imm } => "blez "@ + register_name(s) + ", "@
            + register_name(t) + ", "@ + signed_numeral(sign_extend(imm)),
        Instruction::Bgtz { s, t, imm } => "bgtz "@ + register_name(s) + ", "@
            + register_name(t) + ", "@ + signed_numeral(sign_extend(imm)),
        Instruction::Addi { s, t, imm } => "addi "@ + register_name(t) + ", "@
            + register_name(s) + ", "@ + signed_numeral(sign_extend(imm)),
        Instruction::Addiu { s, t, imm } => "addiu "@ + register_name(t) + ", "@
            + register_name(s) + ", "@ + signed_numeral(sign_extend(imm)),
        Instruction::Slti { s, t, imm } => "slti "@ + register_name(t) + ", "@
            + register_name(s) + ", "@ + signed_numeral(sign_extend(imm)),
        Instruction::Sltiu { s, t, imm } => "sltiu "@ + register_name(t) + ", "@
            + register_name(s) + ", "@ + numeral(imm as nat, 10),
        Instruction::Andi { s, t, imm } => "andi "@ + register_name(t) + ", "@
            + register_name(s) + ", "@ + numeral(imm as nat, 16),
        Instruction::Ori { s, t, imm } => "ori "@ + register_name(t) + ", "@
            + register_name(s) + ", "@ + numeral(imm as nat, 16),
        Instruction::Xori { s, t, imm } => "xori "@ + register_name(t) + ", "@
            + register_name(s) + ", "@ + numeral(imm as nat, 16),
        Instruction::Lhi { t, imm } => "lhi "@ + register_name(t) + ", "@ + numeral(imm as nat, 16),
        Instruction::Llo { t, imm } => "llo "@ + register_name(t) + ", "@ + numeral(imm as nat, 16),
        Instruction::Trap => "trap"@,
        Instruction::Lb { s, t, imm } => "lb "@ + register_name(t) + ", "@ + signed_numeral(sign_extend(imm))
            + "("@ + register_name(s) + ")"@,
        Instruction::Lh { s, t, imm } => "lh "@ + register_name(t) + ", "@ + signed_numeral(sign_extend(imm))
            + "("@ + register_name(s) + ")"@,
        Instruction::Lw { s, t, imm } => "lw "@ + register_name(t) + ", "@ + signed_numeral(sign_extend(imm))
            + "("@ + register_name(s) + ")"@,
        Instruction::Lbu { s, t, imm } => "lbu "@ + register_name(t) + ", "@ + signed_numeral(sign_extend(imm))
            + "("@ + register_name(s) + ")"@,
        Instruction::Lhu { s, t, imm } => "lhu "@ + register_name(t) + ", "@ + signed_numeral(sign_extend(imm))
            + "("@ + register_name(s) + ")"@,
        Instruction::Sb { s, t, imm } => "sb "@ + register_name(t) + ", "@ + signed_numeral(sign_extend(imm))
            + "("@ + register_name(s) + ")"@,
        Instruction::Sh { s, t, imm } => "sh "@ + register_name(t) + ", "@ + signed_numeral(sign_extend(imm))
            + "("@ + register_name(s) + ")"@,
        Instruction::Sw { s, t, imm } => "sw "@ + register_name(t) + ", "@ + signed_numeral(sign_extend(imm))
            + "("@ + register_name(s) + ")"@,
    }
}

/// The decoder that hands back the text of the instruction.
pub struct Disassembler {}

impl Decoder<String> for Disassembler {
    open spec fn ready(&self) -> bool {
        true
    }

    open spec fn visited(
        before: &Self,
        instruction: Instruction,
        out: String,
        after: &Self,
    ) -> bool {
        out@ == disassembly(instruction)
    }

    fn sll(&mut self, t: u8, d: u8, sham: u8) -> (out: String) {
        let mut text = String::from_str("sll ");
        text.append(reg(d));
        text.append(", ");
        text.append(reg(t));
        text.append(", ");
        push_numeral(&mut text, sham as u32, 10);
        text
    }

    fn srl(&mut self, t: u8, d: u8, sham: u8) -> (out: String) {
        let mut text = String::from_str("srl ");
        text.append(reg(d));
        text.append(", ");
        text.append(reg(t));
        text.append(", ");
        push_numeral(&mut text, sham as u32, 10);
        text
    }

    fn sra(&mut self, t: u8, d: u8, sham: u8) -> (out: String) {
        let mut text = String::from_str("sra ");
        text.append(reg(d));
        text.append(", ");
        text.append(reg(t));
        text.append(", ");
        push_numeral(&mut text, sham as u32, 10);
        text
    }

    fn sllv(&mut self, s: u8, t: u8, d: u8) -> (out: String) {
        let mut text = String::from_str("sllv ");
        text.append(reg(d));
        text.append(", ");
        text.append(reg(s));
        text.append(", ");
        text.append(reg(t));
        text
    }

    fn srlv(&mut self, s: u8, t: u8, d: u8) -> (out: String) {
        let mut text = String::from_str("srlv ");
        text.append(reg(d));
        text.append(", ");
        text.append(reg(s));
        text.append(", ");
        text.append(reg(t));
        text
    }

    fn srav(&mut self, s: u8, t: u8, d: u8) -> (out: String) {
        let mut text = String::from_str("srav ");
        text.append(reg(d));
        text.append(", ");
        text.append(reg(s));
        text.append(", ");
        text.append(reg(t));
        text
    }

    fn jr(&mut self, s: u8) -> (out: String) {
        let mut text = String::from_str("jr ");
        text.append(reg(s));
        text
    }

    fn jalr(&mut self, s: u8) -> (out: String) {
        let mut text = String::from_str("jalr ");
        text.append(reg(s));
        text
    }

    fn syscall(&mut self) -> (out: String) {
        String::from_str("syscall")
    }

    fn mfhi(&mut self, d: u8) -> (out: String) {
        let mut text = String::from_str("mfhi ");
        text.append(reg(d));
        text
    }

    fn mthi(&mut self, s: u8) -> (out: String) {
        let mut text = String::from_str("mthi ");
        text.append(reg(s));
        text
    }

    fn mflo(&mut self, d: u8) -> (out: String) {
        let mut text = String::from_str("mflo ");
        text.append(reg(d));
        text
    }

    fn mtlo(&mut self, s: u8) -> (out: String) {
        let mut text = String::from_str("mtlo ");
        text.append(reg(s));
        text
    }

    fn mult(&mut self, s: u8, t: u8) -> (out: String) {
        let mut text = String::from_str("mult ");
        text.append(reg(s));
        text.append(", ");
        text.append(reg(t));
        text
    }

    fn multu(&mut self, s: u8, t: u8) -> (out: String) {
        let mut text = String::from_str("multu ");
        text.append(reg(s));
        text.append(", ");
        text.append(reg(t));
        text
    }

    fn div(&mut self, s: u8, t: u8) -> (out: String) {
        let mut text = String::from_str("div ");
        text.append(reg(s));
        text.append(", ");
        text.append(reg(t));
        text
    }

    fn divu(&mut self, s: u8, t: u8) -> (out: String) {
        let mut text = String::from_str("divu ");
        text.append(reg(s));
        text.append(", ");
        text.append(reg(t));
        text
    }

    fn add(&mut self, s: u8, t: u8, d: u8) -> (out: String) {
        let mut text = String::from_str("add ");
        text.append(reg(d));
        text.append(", ");
        text.append(reg(s));
        text.append(", ");
        text.append(reg(t));
        text
    }

    fn addu(&mut self, s: u8, t: u8, d: u8) -> (out: String) {
        let mut text = String::from_str("addu ");
        text.append(reg(d));
        text.append(", ");
        text.append(reg(s));
        text.append(", ");
        text.append(reg(t));
        text
    }

    fn sub(&mut self, s: u8, t: u8, d: u8) -> (out: String) {
        let mut text = String::from_str("sub ");
        text.append(reg(d));
        text.append(", ");
        text.append(reg(s));
        text.append(", ");
        text.append(reg(t));
        text
    }

    fn subu(&mut self, s: u8, t: u8, d: u8) -> (out: String) {
        let mut text = String::from_str("subu ");
        text.append(reg(d));
        text.append(", ");
        text.append(reg(s));
        text.append(", ");
        text.append(reg(t));
        text
    }

    fn and(&mut self, s: u8, t: u8, d: u8) -> (out: String) {
        let mut text = String::from_str("and ");
        text.append(reg(d));
        text.append(", ");
        text.append(reg(s));
        text.append(", ");
        text.append(reg(t));
        text
    }

    fn or(&mut self, s: u8, t: u8, d: u8) -> (out: String) {
        let mut text = String::from_str("or ");
        text.append(reg(d));
        text.append(", ");
        text.append(reg(s));
        text.append(", ");
        text.append(reg(t));
        text
    }

    fn xor(&mut self, s: u8, t: u8, d: u8) -> (out: String) {
        let mut text = String::from_str("xor ");
        text.append(reg(d));
        text.append(", ");
        text.append(reg(s));
        text.append(", ");
        text.append(reg(t));
        text
    }

    fn nor(&mut self, s: u8, t: u8, d: u8) -> (out: String) {
        let mut text = String::from_str("nor ");
        text.append(reg(d));
        text.append(", ");
        text.append(reg(s));
        text.append(", ");
        text.append(reg(t));
        text
    }

    fn slt(&mut self, s: u8, t: u8, d: u8) -> (out: String) {
        let mut text = String::from_str("slt ");
        text.append(reg(d));
        text.append(", ");
        text.append(reg(s));
        text.append(", ");
        text.append(reg(t));
        text
    }

    fn sltu(&mut self, s: u8, t: u8, d: u8) -> (out: String) {
        let mut text = String::from_str("sltu ");
        text.append(reg(d));
        text.append(", ");
        text.append(reg(s));
        text.append(", ");
        text.append(reg(t));
        text
    }

    fn bltz(&mut self, s: u8, imm: u16) -> (out: String) {
        let mut text = String::from_str("bltz ");
        text.append(reg(s));
        text.append(", ");
        push_signed(&mut text, imm);
        text
    }

    fn bgez(&mut self, s: u8, imm: u16) -> (out: String) {
        let mut text = String::from_str("bgez ");
        text.append(reg(s));
        text.append(", ");
        push_signed(&mut text, imm);
        text
    }

    fn bltzal(&mut self, s: u8, imm: u16) -> (out: String) {
        let mut text = String::from_str("bltzal ");
        text.append(reg(s));
        text.append(", ");
        push_signed(&mut text, imm);
        text
    }

    fn bgezal(&mut self, s: u8, imm: u16) -> (out: String) {
        let mut text = String::from_str("bgezal ");
        text.append(reg(s));
        text.append(", ");
        push_signed(&mut text, imm);
        text
    }

    fn j(&mut self, target: u32) -> (out: String) {
        let mut text = String::from_str("j ");
        push_numeral(&mut text, target, 10);
        text
    }

    fn jal(&mut self, target: u32) -> (out: String) {
        let mut text = String::from_str("jal ");
        push_numeral(&mut text, target, 10);
        text
    }

    fn beq(&mut self, s: u8, t: u8, imm: u16) -> (out: String) {
        let mut text = String::from_str("beq ");
        text.append(reg(s));
        text.append(", ");
        text.append(reg(t));
        text.append(", ");
        push_signed(&mut text, imm);
        text
    }

    fn bne(&mut self, s: u8, t: u8, imm: u16) -> (out: String) {
        let mut text = String::from_str("bne ");
        text.append(reg(s));
        text.append(", ");
        text.append(reg(t));
        text.append(", ");
        push_signed(&mut text, imm);
        text
    }

    fn blez(&mut self, s: u8, t: u8, imm: u16) -> (out: String) {
        let mut text = String::from_str("blez ");
        text.append(reg(s));
        text.append(", ");
        text.append(reg(t));
        text.append(", ");
        push_signed(&mut text, imm);
        text
    }

    fn bgtz(&mut self, s: u8, t: u8, imm: u16) -> (out: String) {
        let mut text = String::from_str("bgtz ");
        text.append(reg(s));
        text.append(", ");
        text.append(reg(t));
        text.append(", ");
        push_signed(&mut text, imm);
        text
    }

    fn addi(&mut self, s: u8, t: u8, imm: u16) -> (out: String) {
        let mut text = String::from_str("addi ");
        text.append(reg(t));
        text.append(", ");
        text.append(reg(s));
        text.append(", ");
        push_signed(&mut text, imm);
        text
    }

    fn addiu(&mut self, s: u8, t: u8, imm: u16) -> (out: String) {
        let mut text = String::from_str("addiu ");
        text.append(reg(t));
        text.append(", ");
        text.append(reg(s));
        text.append(", ");
        push_signed(&mut text, imm);
        text
    }

    fn slti(&mut self, s: u8, t: u8, imm: u16) -> (out: String) {
        let mut text = String::from_str("slti ");
        text.append(reg(t));
        text.append(", ");
        text.append(reg(s));
        text.append(", ");
        push_signed(&mut text, imm);
        text
    }

    fn sltiu(&mut self, s: u8, t: u8, imm: u16) -> (out: String) {
        let mut text = String::from_str("sltiu ");
        text.append(reg(t));
        text.append(", ");
        text.append(reg(s));
        text.append(", ");
        push_numeral(&mut text, imm as u32, 10);
        text
    }

    fn andi(&mut self, s: u8, t: u8, imm: u16) -> (out: String) {
        let mut text = String::from_str("andi ");
        text.append(reg(t));
        text.append(", ");
        text.append(reg(s));
        text.append(", ");
        push_numeral(&mut text, imm as u32, 16);
        text
    }

    fn ori(&mut self, s: u8, t: u8, imm: u16) -> (out: String) {
        let mut text = String::from_str("ori ");
        text.append(reg(t));
        text.append(", ");
        text.append(reg(s));
        text.append(", ");
        push_numeral(&mut text, imm as u32, 16);
        text
    }

    fn xori(&mut self, s: u8, t: u8, imm: u16) -> (out: String) {
        let mut text = String::from_str("xori ");
        text.append(reg(t));
        text.append(", ");
        text.append(reg(s));
        text.append(", ");
        push_numeral(&mut text, imm as u32, 16);
        text
    }

    fn lhi(&mut self, t: u8, imm: u16) -> (out: String) {
        let mut text = String::from_str("lhi ");
        text.append(reg(t));
        text.append(", ");
        push_numeral(&mut text, imm as u32, 16);
        text
    }

    fn llo(&mut self, t: u8, imm: u16) -> (out: String) {
        let mut text = String::from_str("llo ");
        text.append(reg(t));
        text.append(", ");
        push_numeral(&mut text, imm as u32, 16);
        text
    }

    fn trap(&mut self) -> (out: String) {
        String::from_str("trap")
    }

    fn lb(&mut self, s: u8, t: u8, imm: u16) -> (out: String) {
        let mut text = String::from_str("lb ");
        text.append(reg(t));
        text.append(", ");
        push_signed(&mut text, imm);
        text.append("(");
        text.append(reg(s));
        text.append(")");
        text
    }

    fn lh(&mut self, s: u8, t: u8, imm: u16) -> (out: String) {
        let mut text = String::from_str("lh ");
        text.append(reg(t));
        text.append(", ");
        push_signed(&mut text, imm);
        text.append("(");
        text.append(reg(s));
        text.append(")");
        text
    }

    fn lw(&mut self, s: u8, t: u8, imm: u16) -> (out: String) {
        let mut text = String::from_str("lw ");
        text.append(reg(t));
        text.append(", ");
        push_signed(&mut text, imm);
        text.append("(");
        text.append(reg(s));
        text.append(")");
        text
    }

    fn lbu(&mut self, s: u8, t: u8, imm: u16) -> (out: String) {
        let mut text = String::from_str("lbu ");
        text.append(reg(t));
        text.append(", ");
        push_signed(&mut text, imm);
        text.append("(");
        text.append(reg(s));
        text.append(")");
        text
    }

    fn lhu(&mut self, s: u8, t: u8, imm: u16) -> (out: String) {
        let mut text = String::from_str("lhu ");
        text.append(reg(t));
        text.append(", ");
        push_signed(&mut text, imm);
        text.append("(");
        text.append(reg(s));
        text.append(")");
        text
    }

    fn sb(&mut self, s: u8, t: u8, imm: u16) -> (out: String) {
        let mut text = String::from_str("sb ");
        text.append(reg(t));
        text.append(", ");
        push_signed(&mut text, imm);
        text.append("(");
        text.append(reg(s));
        text.append(")");
        text
    }

    fn sh(&mut self, s: u8, t: u8, imm: u16) -> (out: String) {
        let mut text = String::from_str("sh ");
        text.append(reg(t));
        text.append(", ");
        push_signed(&mut text, imm);
        text.append("(");
        text.append(reg(s));
        text.append(")");
        text
    }

    fn sw(&mut self, s: u8, t: u8, imm: u16) -> (out: String) {
        let mut text = String::from_str("sw ");
        text.append(reg(t));
        text.append(", ");
        push_signed(&mut text, imm);
        text.append("(");
        text.append(reg(s));
        text.append(")");
        text
    }

}

impl Disassembler {
    /// The text of the instruction that `word` stands for, if it stands for
    /// one.
    pub fn disassemble(word: u32) -> (text: Option<String>)
        ensures
            match crate::instruction::decode(word) {
                Some(instruction) => text matches Some(shown) && shown@ == disassembly(instruction),
                None => text is None,
            },
    {
        let mut decoder = Disassembler {  };
        decoder.dispatch(word)
    }
}

} // verus!
