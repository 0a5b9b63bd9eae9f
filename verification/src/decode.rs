//! Instructions as the host shows them: the mnemonic and the operands.

use vstd::prelude::*;
use crate::alu::{extend, sign_extend, wrap, wrap_near};
use crate::instruction::{decode, Instruction, InstructionDecoder};

verus! {

/// An operand of an instruction.
#[derive(Clone, Copy, Debug, PartialEq, Eq, Structural)]
pub enum ParameterItem {
    /// A register, by its number.
    Register(u32),
    /// An immediate or a shift amount.
    Immediate(u16),
    /// The address that a branch or a jump goes to.
    Address(u32),
    /// The address of a load or store: an offset from a register.
    Offset { offset: u16, register: u32 },
}

/// An instruction with the address it stands at, its word, its mnemonic and
/// its operands in the order of the assembly text.
#[derive(Debug)]
pub struct InstructionDetails {
    /// The address of the instruction.
    pub pc: u32,
    /// The word of the instruction.
    pub instruction: u32,
    /// The mnemonic.
    pub name: &'static str,
    /// The operands.
    pub parameters: Vec<ParameterItem>,
}

/// A line of a disassembly.
#[derive(Debug)]
pub enum InspectionItem {
    /// An instruction.
    Instruction { details: InstructionDetails },
    /// An empty line.
    Blank,
    /// A comment.
    Comment { message: String },
    /// A label.
    Label { name: String },
}

/// The address that a branch at `pc` over `imm` instructions goes to.
pub open spec fn branch_target(pc: u32, imm: u16) -> u32 {
    wrap(pc + 4 + 4 * sign_extend(imm))
}

/// The address that a jump at `pc` to word `target` goes to.
pub open spec fn jump_target(pc: u32, target: u32) -> u32 {
    (wrap(pc + 4) / 0x1000_0000 * 0x1000_0000 + target * 4) as u32
}

/// The mnemonic of an instruction.
pub open spec fn mnemonic(instruction: Instruction) -> Seq<char> {
    match instruction {
        Instruction::Sll { .. } => "sll"@,
        Instruction::Srl { .. } => "srl"@,
        Instruction::Sra { .. } => "sra"@,
        Instruction::Sllv { .. } => "sllv"@,
        Instruction::Srlv { .. } => "srlv"@,
        Instruction::Srav { .. } => "srav"@,
        Instruction::Jr { .. } => "jr"@,
        Instruction::Jalr { .. } => "jalr"@,
        Instruction::Syscall => "syscall"@,
        Instruction::Mfhi { .. } => "mfhi"@,
        Instruction::Mthi { .. } => "mthi"@,
        Instruction::Mflo { .. } => "mflo"@,
        Instruction::Mtlo { .. } => "mtlo"@,
        Instruction::Mult { .. } => "mult"@,
        Instruction::Multu { .. } => "multu"@,
        Instruction::Div { .. } => "div"@,
        Instruction::Divu { .. } => "divu"@,
        Instruction::Add { .. } => "add"@,
        Instruction::Addu { .. } => "addu"@,
        Instruction::Sub { .. } => "sub"@,
        Instruction::Subu { .. } => "subu"@,
        Instruction::And { .. } => "and"@,
        Instruction::Or { .. } => "or"@,
        Instruction::Xor { .. } => "xor"@,
        Instruction::Nor { .. } => "nor"@,
        Instruction::Slt { .. } => "slt"@,
        Instruction::Sltu { .. } => "sltu"@,
        Instruction::Bltz { .. } => "bltz"@,
        Instruction::Bgez { .. } => "bgez"@,
        Instruction::Bltzal { .. } => "bltzal"@,
        Instruction::Bgezal { .. } => "bgezal"@,
        Instruction::J { .. } => "j"@,
        Instruction::Jal { .. } => "jal"@,
        Instruction::Beq { .. } => "beq"@,
        Instruction::Bne { .. } => "bne"@,
        Instruction::Blez { .. } => "blez"@,
        Instruction::Bgtz { .. } => "bgtz"@,
        Instruction::Addi { .. } => "addi"@,
        Instruction::Addiu { .. } => "addiu"@,
        Instruction::Slti { .. } => "slti"@,
        Instruction::Sltiu { .. } => "sltiu"@,
        Instruction::Andi { .. } => "andi"@,
        Instruction::Ori { .. } => "ori"@,
        Instruction::Xori { .. } => "xori"@,
        Instruction::Lhi { .. } => "lhi"@,
        Instruction::Llo { .. } => "llo"@,
        Instruction::Trap => "trap"@,
        Instruction::Lb { .. } => "lb"@,
        Instruction::Lh { .. } => "lh"@,
        Instruction::Lw { .. } => "lw"@,
        Instruction::Lbu { .. } => "lbu"@,
        Instruction::Lhu { .. } => "lhu"@,
        Instruction::Sb { .. } => "sb"@,
        Instruction::Sh { .. } => "sh"@,
        Instruction::Sw { .. } => "sw"@,
    }
}

/// Three registers.
pub open spec fn registers(first: u8, second: u8, third: u8) -> Seq<ParameterItem> {
    seq![
        ParameterItem::Register(first as u32),
        ParameterItem::Register(second as u32),
        ParameterItem::Register(third as u32),
    ]
}

/// Two registers.
pub open spec fn register_pair(first: u8, second: u8) -> Seq<ParameterItem> {
    seq![
        ParameterItem::Register(first as u32),
        ParameterItem::Register(second as u32),
    ]
}

/// One register.
pub open spec fn register_alone(first: u8) -> Seq<ParameterItem> {
    seq![
        ParameterItem::Register(first as u32),
    ]
}

/// Two registers and an immediate.
pub open spec fn registers_and_immediate(first: u8, second: u8, imm: u16) -> Seq<ParameterItem> {
    seq![
        ParameterItem::Register(first as u32),
        ParameterItem::Register(second as u32),
        ParameterItem::Immediate(imm),
    ]
}

/// A register and an immediate.
pub open spec fn register_and_immediate(first: u8, imm: u16) -> Seq<ParameterItem> {
    seq![
        ParameterItem::Register(first as u32),
        ParameterItem::Immediate(imm),
    ]
}

/// Two registers and an address.
pub open spec fn registers_and_address(first: u8, second: u8, address: u32) -> Seq<ParameterItem> {
    seq![
        ParameterItem::Register(first as u32),
        ParameterItem::Register(second as u32),
        ParameterItem::Address(address),
    ]
}

/// A register and an address.
pub open spec fn register_and_address(first: u8, address: u32) -> Seq<ParameterItem> {
    seq![
        ParameterItem::Register(first as u32),
        ParameterItem::Address(address),
    ]
}

/// An address.
pub open spec fn address_alone(address: u32) -> Seq<ParameterItem> {
    seq![
        ParameterItem::Address(address),
    ]
}

/// A register and an offset from another register, as loads and stores
/// take them.
pub open spec fn offset_operands(value: u8, offset: u16, base: u8) -> Seq<ParameterItem> {
    seq![
        ParameterItem::Register(value as u32),
        (ParameterItem::Offset { offset, register: base as u32 }),
    ]
}

/// The operands of an instruction that stands at `pc`, in the order of the
/// assembly text.
pub open spec fn parameters(pc: u32, instruction: Instruction) -> Seq<ParameterItem> {
    match instruction {
        Instruction::Sll { t, d, sham } => registers_and_immediate(d, t, sham as u16),
        Instruction::Srl { t, d, sham } => registers_and_immediate(d, t, sham as u16),
        Instruction::Sra { t, d, sham } => registers_and_immediate(d, t, sham as u16),
        Instruction::Sllv { s, t, d } => registers(d, s, t),
        Instruction::Srlv { s, t, d } => registers(d, s, t),
        Instruction::Srav { s, t, d } => registers(d, s, t),
        Instruction::Jr { s } => register_alone(s),
        Instruction::Jalr { s } => register_alone(s),
        Instruction::Syscall => Seq::empty(),
        Instruction::Mfhi { d } => register_alone(d),
        Instruction::Mthi { s } => register_alone(s),
        Instruction::Mflo { d } => register_alone(d),
        Instruction::Mtlo { s } => register_alone(s),
        Instruction::Mult { s, t } => register_pair(s, t),
        Instruction::Multu { s, t } => register_pair(s, t),
        Instruction::Div { s, t } => register_pair(s, t),
        Instruction::Divu { s, t } => register_pair(s, t),
        Instruction::Add { s, t, d } => registers(d, s, t),
        Instruction::Addu { s, t, d } => registers(d, s, t),
        Instruction::Sub { s, t, d } => registers(d, s, t),
        Instruction::Subu { s, t, d } => registers(d, s, t),
        Instruction::And { s, t, d } => registers(d, s, t),
        Instruction::Or { s, t, d } => registers(d, s, t),
        Instruction::Xor { s, t, d } => registers(d, s, t),
        Instruction::Nor { s, t, d } => registers(d, s, t),
        Instruction::Slt { s, t, d } => registers(d, s, t),
        Instruction::Sltu { s, t, d } => registers(d, s, t),
        Instruction::Bltz { s, imm } => register_and_address(s, branch_target(pc, imm)),
        Instruction::Bgez { s, imm } => register_and_address(s, branch_target(pc, imm)),
        Instruction::Bltzal { s, imm } => register_and_address(s, branch_target(pc, imm)),
        Instruction::Bgezal { s, imm } => register_and_address(s, branch_target(pc, imm)),
        Instruction::J { target } => address_alone(jump_target(pc, target)),
        Instruction::Jal { target } => address_alone(jump_target(pc, target)),
        Instruction::Beq { s, t, imm } => registers_and_address(s, t, branch_target(pc, imm)),
        Instruction::Bne { s, t, imm } => registers_and_address(s, t, branch_target(pc, imm)),
        Instruction::Blez { s, t, imm } => registers_and_address(s, t, branch_target(pc, imm)),
        Instruction::Bgtz { s, t, imm } => registers_and_address(s, t, branch_target(pc, imm)),
        Instruction::Addi { s, t, imm } => registers_and_immediate(t, s, imm),
        Instruction::Addiu { s, t, imm } => registers_and_immediate(t, s, imm),
        Instruction::Slti { s, t, imm } => registers_and_immediate(t, s, imm),
        Instruction::Sltiu { s, t, imm } => registers_and_immediate(t, s, imm),
        Instruction::Andi { s, t, imm } => registers_and_immediate(t, s, imm),
        Instruction::Ori { s, t, imm } => registers_and_immediate(t, s, imm),
        Instruction::Xori { s, t, imm } => registers_and_immediate(t, s, imm),
        Instruction::Lhi { t, imm } => register_and_immediate(t, imm),
        Instruction::Llo { t, imm } => register_and_immediate(t, imm),
        Instruction::Trap => Seq::empty(),
        Instruction::Lb { s, t, imm } => offset_operands(t, imm, s),
        Instruction::Lh { s, t, imm } => offset_operands(t, imm, s),
        Instruction::Lw { s, t, imm } => offset_operands(t, imm, s),
        Instruction::Lbu { s, t, imm } => offset_operands(t, imm, s),
        Instruction::Lhu { s, t, imm } => offset_operands(t, imm, s),
        Instruction::Sb { s, t, imm } => offset_operands(t, imm, s),
        Instruction::Sh { s, t, imm } => offset_operands(t, imm, s),
        Instruction::Sw { s, t, imm } => offset_operands(t, imm, s),
    }
}

/// Computes the address that a branch goes to.
pub fn branch_address(pc: u32, imm: u16) -> (address: u32)
    ensures
        address == branch_target(pc, imm),
{
    wrap_near(pc as i64 + 4 + 4 * extend(imm))
}

/// Computes the address that a jump goes to.
pub fn jump_address(pc: u32, target: u32) -> (address: u32)
    requires
        target < 0x400_0000,
    ensures
        address == jump_target(pc, target),
{
    pc.wrapping_add(4) / 0x1000_0000 * 0x1000_0000 + target * 4
}

/// The list of the operands `items`.
fn operands(items: &[ParameterItem]) -> (list: Vec<ParameterItem>)
    ensures
        list@ == items@,
{
    vstd::slice::slice_to_vec(items)
}

/// Three registers.
fn list_registers(first: u8, second: u8, third: u8) -> (list: Vec<ParameterItem>)
    ensures
        list@ == registers(first, second, third),
{
    operands(&[
        ParameterItem::Register(first as u32),
        ParameterItem::Register(second as u32),
        ParameterItem::Register(third as u32),
    ])
}

/// Two registers.
fn list_register_pair(first: u8, second: u8) -> (list: Vec<ParameterItem>)
    ensures
        list@ == register_pair(first, second),
{
    operands(&[
        ParameterItem::Register(first as u32),
        ParameterItem::Register(second as u32),
    ])
}

/// One register.
fn list_register_alone(first: u8) -> (list: Vec<ParameterItem>)
    ensures
        list@ == register_alone(first),
{
    operands(&[
        ParameterItem::Register(first as u32),
    ])
}

/// Two registers and an immediate.
fn list_registers_and_immediate(first: u8, second: u8, imm: u16) -> (list: Vec<ParameterItem>)
    ensures
        list@ == registers_and_immediate(first, second, imm),
{
    operands(&[
        ParameterItem::Register(first as u32),
        ParameterItem::Register(second as u32),
        ParameterItem::Immediate(imm),
    ])
}

/// A register and an immediate.
fn list_register_and_immediate(first: u8, imm: u16) -> (list: Vec<ParameterItem>)
    ensures
        list@ == register_and_immediate(first, imm),
{
    operands(&[
        ParameterItem::Register(first as u32),
        ParameterItem::Immediate(imm),
    ])
}

/// Two registers and an address.
fn list_registers_and_address(first: u8, second: u8, address: u32) -> (list: Vec<ParameterItem>)
    ensures
        list@ == registers_and_address(first, second, address),
{
    operands(&[
        ParameterItem::Register(first as u32),
        ParameterItem::Register(second as u32),
        ParameterItem::Address(address),
    ])
}

/// A register and an address.
fn list_register_and_address(first: u8, address: u32) -> (list: Vec<ParameterItem>)
    ensures
        list@ == register_and_address(first, address),
{
    operands(&[
        ParameterItem::Register(first as u32),
        ParameterItem::Address(address),
    ])
}

/// An address.
fn list_address_alone(address: u32) -> (list: Vec<ParameterItem>)
    ensures
        list@ == address_alone(address),
{
    operands(&[
        ParameterItem::Address(address),
    ])
}

/// A register and an offset from another register.
fn list_offset_operands(value: u8, offset: u16, base: u8) -> (list: Vec<ParameterItem>)
    ensures
        list@ == offset_operands(value, offset, base),
{
    operands(&[
        ParameterItem::Register(value as u32),
        ParameterItem::Offset { offset, register: base as u32 },
    ])
}

/// The mnemonic and the operands of a decoded instruction that stands at
/// `pc`.
pub fn instruction_details(pc: u32, instruction: Instruction) -> (details: (
    &'static str,
    Vec<ParameterItem>,
))
    requires
        instruction.wf(),
    ensures
        details.0@ == mnemonic(instruction),
        details.1@ == parameters(pc, instruction),
{
    match instruction {
        Instruction::Sll { t, d, sham } => ("sll", list_registers_and_immediate(d, t, sham as u16)),
        Instruction::Srl { t, d, sham } => ("srl", list_registers_and_immediate(d, t, sham as u16)),
        Instruction::Sra { t, d, sham } => ("sra", list_registers_and_immediate(d, t, sham as u16)),
        Instruction::Sllv { s, t, d } => ("sllv", list_registers(d, s, t)),
        Instruction::Srlv { s, t, d } => ("srlv", list_registers(d, s, t)),
        Instruction::Srav { s, t, d } => ("srav", list_registers(d, s, t)),
        Instruction::Jr { s } => ("jr", list_register_alone(s)),
        Instruction::Jalr { s } => ("jalr", list_register_alone(s)),
        Instruction::Syscall => ("syscall", Vec::new()),
        Instruction::Mfhi { d } => ("mfhi", list_register_alone(d)),
        Instruction::Mthi { s } => ("mthi", list_register_alone(s)),
        Instruction::Mflo { d } => ("mflo", list_register_alone(d)),
        Instruction::Mtlo { s } => ("mtlo", list_register_alone(s)),
        Instruction::Mult { s, t } => ("mult", list_register_pair(s, t)),
        Instruction::Multu { s, t } => ("multu", list_register_pair(s, t)),
        Instruction::Div { s, t } => ("div", list_register_pair(s, t)),
        Instruction::Divu { s, t } => ("divu", list_register_pair(s, t)),
        Instruction::Add { s, t, d } => ("add", list_registers(d, s, t)),
        Instruction::Addu { s, t, d } => ("addu", list_registers(d, s, t)),
        Instruction::Sub { s, t, d } => ("sub", list_registers(d, s, t)),
        Instruction::Subu { s, t, d } => ("subu", list_registers(d, s, t)),
        Instruction::And { s, t, d } => ("and", list_registers(d, s, t)),
        Instruction::Or { s, t, d } => ("or", list_registers(d, s, t)),
        Instruction::Xor { s, t, d } => ("xor", list_registers(d, s, t)),
        Instruction::Nor { s, t, d } => ("nor", list_registers(d, s, t)),
        Instruction::Slt { s, t, d } => ("slt", list_registers(d, s, t)),
        Instruction::Sltu { s, t, d } => ("sltu", list_registers(d, s, t)),
        Instruction::Bltz { s, imm } => (
            "bltz",
            list_register_and_address(s, branch_address(pc, imm)),
        ),
        Instruction::Bgez { s, imm } => (
            "bgez",
            list_register_and_address(s, branch_address(pc, imm)),
        ),
        Instruction::Bltzal { s, imm } => (
            "bltzal",
            list_register_and_address(s, branch_address(pc, imm)),
        ),
        Instruction::Bgezal { s, imm } => (
            "bgezal",
            list_register_and_address(s, branch_address(pc, imm)),
        ),
        Instruction::J { target } => ("j", list_address_alone(jump_address(pc, target))),
        Instruction::Jal { target } => ("jal", list_address_alone(jump_address(pc, target))),
        Instruction::Beq { s, t, imm } => (
            "beq",
            list_registers_and_address(s, t, branch_address(pc, imm)),
        ),
        Instruction::Bne { s, t, imm } => (
            "bne",
            list_registers_and_address(s, t, branch_address(pc, imm)),
        ),
        Instruction::Blez { s, t, imm } => (
            "blez",
            list_registers_and_address(s, t, branch_address(pc, imm)),
        ),
        Instruction::Bgtz { s, t, imm } => (
            "bgtz",
            list_registers_and_address(s, t, branch_address(pc, imm)),
        ),
        Instruction::Addi { s, t, imm } => ("addi", list_registers_and_immediate(t, s, imm)),
        Instruction::Addiu { s, t, imm } => ("addiu", list_registers_and_immediate(t, s, imm)),
        Instruction::Slti { s, t, imm } => ("slti", list_registers_and_immediate(t, s, imm)),
        Instruction::Sltiu { s, t, imm } => ("sltiu", list_registers_and_immediate(t, s, imm)),
        Instruction::Andi { s, t, imm } => ("andi", list_registers_and_immediate(t, s, imm)),
        Instruction::Ori { s, t, imm } => ("ori", list_registers_and_immediate(t, s, imm)),
        Instruction::Xori { s, t, imm } => ("xori", list_registers_and_immediate(t, s, imm)),
        Instruction::Lhi { t, imm } => ("lhi", list_register_and_immediate(t, imm)),
        Instruction::Llo { t, imm } => ("llo", list_register_and_immediate(t, imm)),
        Instruction::Trap => ("trap", Vec::new()),
        Instruction::Lb { s, t, imm } => ("lb", list_offset_operands(t, imm, s)),
        Instruction::Lh { s, t, imm } => ("lh", list_offset_operands(t, imm, s)),
        Instruction::Lw { s, t, imm } => ("lw", list_offset_operands(t, imm, s)),
        Instruction::Lbu { s, t, imm } => ("lbu", list_offset_operands(t, imm, s)),
        Instruction::Lhu { s, t, imm } => ("lhu", list_offset_operands(t, imm, s)),
        Instruction::Sb { s, t, imm } => ("sb", list_offset_operands(t, imm, s)),
        Instruction::Sh { s, t, imm } => ("sh", list_offset_operands(t, imm, s)),
        Instruction::Sw { s, t, imm } => ("sw", list_offset_operands(t, imm, s)),
    }
}

/// Decodes the word `instruction` that stands at `pc` for the host.
pub fn decode_instruction(pc: u32, instruction: u32) -> (details: Option<InstructionDetails>)
    ensures
        match decode(instruction) {
            Some(decoded) => details matches Some(shown) && shown.pc == pc && shown.instruction
                == instruction && shown.name@ == mnemonic(decoded) && shown.parameters@
                == parameters(pc, decoded),
            None => details is None,
        },
{
    match InstructionDecoder::decode(instruction) {
        Some(decoded) => {
            let (name, parameters) = instruction_details(pc, decoded);
            Some(InstructionDetails { pc, instruction, name, parameters })
        },
        None => None,
    }
}

} // verus!
