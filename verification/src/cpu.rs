//! The interpreter: the machine state, and what each instruction does to it.
//!
//! One step fetches the word at the program counter, advances the counter by
//! four, and carries the instruction out. Branch offsets and return addresses
//! therefore count from the instruction after the branch. A step that fails
//! leaves the counter advanced, unless the fetch itself failed.

use vstd::prelude::*;
use crate::alu::{
    divide_signed,
    divide_unsigned,
    extend,
    fits,
    merge_high,
    merge_low,
    multiply_signed,
    multiply_unsigned,
    quotient,
    remainder,
    shift_arithmetic,
    shift_right_arithmetic,
    sign_extend,
    sign_extend_byte,
    signed,
    to_signed,
    wrap,
    wrap_near,
};
use crate::error::Error;
use crate::instruction::{decode, Decoder, Instruction};
use crate::memory::Memory;
use crate::registers::Registers;
use crate::watched::{WatchedMemory, WatchedView};

verus! {

/// The machine state as mathematical values.
pub struct StateView {
    /// The registers.
    pub registers: Registers,
    /// The memory and its journal.
    pub memory: WatchedView,
}

/// A successful outcome.
pub open spec fn done(state: StateView) -> (Result<(), Error>, StateView) {
    (Ok(()), state)
}

/// A failed outcome.
pub open spec fn failed(error: Error, state: StateView) -> (Result<(), Error>, StateView) {
    (Err(error), state)
}

/// One where the condition holds, else zero.
pub open spec fn flag(condition: bool) -> u32 {
    if condition {
        1
    } else {
        0
    }
}

impl StateView {
    /// What an instruction reads from register `index`.
    pub open spec fn reg(self, index: u8) -> u32 {
        self.registers.get(index)
    }

    /// The state after an instruction writes register `index`.
    pub open spec fn put(self, index: u8, value: u32) -> StateView {
        StateView { registers: self.registers.set(index, value), ..self }
    }

    /// The state with another program counter.
    pub open spec fn goto(self, pc: u32) -> StateView {
        StateView { registers: Registers { pc, ..self.registers }, ..self }
    }

    /// The state with other `hi` and `lo`.
    pub open spec fn hilo(self, hi: u32, lo: u32) -> StateView {
        StateView { registers: Registers { hi, lo, ..self.registers }, ..self }
    }

    /// The state with another memory.
    pub open spec fn with_memory(self, memory: WatchedView) -> StateView {
        StateView { memory, ..self }
    }

    /// The state after the return address is saved in `$ra`.
    pub open spec fn link(self) -> StateView {
        self.put(31, self.registers.pc)
    }

    /// The state after a branch over `imm` instructions is taken.
    pub open spec fn skip(self, imm: u16) -> StateView {
        self.goto(wrap(self.registers.pc + 4 * sign_extend(imm)))
    }

    /// The state after a branch that is taken or not.
    pub open spec fn branch(self, taken: bool, imm: u16) -> StateView {
        if taken {
            self.skip(imm)
        } else {
            self
        }
    }

    /// The state after a jump to word `target` of the current segment.
    pub open spec fn jump(self, target: u32) -> StateView {
        self.goto((self.registers.pc / 0x1000_0000 * 0x1000_0000 + target * 4) as u32)
    }

    /// The address that a load or store refers to.
    pub open spec fn address(self, s: u8, imm: u16) -> u32 {
        wrap(self.reg(s) + sign_extend(imm))
    }

    /// The outcome of a load: the value read goes to register `t`.
    pub open spec fn load(self, t: u8, value: Result<u32, Error>, memory: WatchedView) -> (
        Result<(), Error>,
        StateView,
    ) {
        match value {
            Ok(word) => done(self.with_memory(memory).put(t, word)),
            Err(error) => failed(error, self.with_memory(memory)),
        }
    }

    /// The outcome of carrying out one instruction.
    pub open spec fn execute(self, instruction: Instruction) -> (Result<(), Error>, StateView) {
        match instruction {
            Instruction::Sll { t, d, sham } => done(self.put(d, self.reg(t) << (sham as u32))),
            Instruction::Srl { t, d, sham } => done(self.put(d, self.reg(t) >> (sham as u32))),
            Instruction::Sra { t, d, sham } => done(
                self.put(d, shift_arithmetic(self.reg(t), sham as u32)),
            ),
            Instruction::Sllv { s, t, d } => done(self.put(d, self.reg(t) << (self.reg(s) % 32))),
            Instruction::Srlv { s, t, d } => done(self.put(d, self.reg(t) >> (self.reg(s) % 32))),
            Instruction::Srav { s, t, d } => done(
                self.put(d, shift_arithmetic(self.reg(t), self.reg(s) % 32)),
            ),
            Instruction::Jr { s } => done(self.goto(self.reg(s))),
            Instruction::Jalr { s } => done(self.link().goto(self.link().reg(s))),
            Instruction::Syscall => failed(Error::CpuSyscall, self),
            Instruction::Mfhi { d } => done(self.put(d, self.registers.hi)),
            Instruction::Mthi { s } => done(self.hilo(self.reg(s), self.registers.lo)),
            Instruction::Mflo { d } => done(self.put(d, self.registers.lo)),
            Instruction::Mtlo { s } => done(self.hilo(self.registers.hi, self.reg(s))),
            Instruction::Mult { s, t } => done(
                self.hilo(
                    wrap(signed(self.reg(s)) * signed(self.reg(t)) / 0x1_0000_0000),
                    wrap(signed(self.reg(s)) * signed(self.reg(t))),
                ),
            ),
            Instruction::Multu { s, t } => done(
                self.hilo(
                    wrap(self.reg(s) as int * self.reg(t) as int / 0x1_0000_0000),
                    wrap(self.reg(s) as int * self.reg(t) as int),
                ),
            ),
            Instruction::Div { s, t } => if self.reg(t) == 0 {
                done(self.hilo(0, 0))
            } else {
                done(
                    self.hilo(
                        wrap(remainder(signed(self.reg(s)), signed(self.reg(t)))),
                        wrap(quotient(signed(self.reg(s)), signed(self.reg(t)))),
                    ),
                )
            },
            Instruction::Divu { s, t } => if self.reg(t) == 0 {
                done(self.hilo(0, 0))
            } else {
                done(self.hilo(self.reg(s) % self.reg(t), self.reg(s) / self.reg(t)))
            },
            Instruction::Add { s, t, d } => if fits(signed(self.reg(s)) + signed(self.reg(t))) {
                done(self.put(d, wrap(signed(self.reg(s)) + signed(self.reg(t)))))
            } else {
                failed(Error::CpuTrap, self)
            },
            Instruction::Addu { s, t, d } => done(self.put(d, wrap(self.reg(s) + self.reg(t)))),
            Instruction::Sub { s, t, d } => if fits(signed(self.reg(s)) - signed(self.reg(t))) {
                done(self.put(d, wrap(signed(self.reg(s)) - signed(self.reg(t)))))
            } else {
                failed(Error::CpuTrap, self)
            },
            Instruction::Subu { s, t, d } => done(self.put(d, wrap(self.reg(s) - self.reg(t)))),
            Instruction::And { s, t, d } => done(self.put(d, self.reg(s) & self.reg(t))),
            Instruction::Or { s, t, d } => done(self.put(d, self.reg(s) | self.reg(t))),
            Instruction::Xor { s, t, d } => done(self.put(d, self.reg(s) ^ self.reg(t))),
            Instruction::Nor { s, t, d } => done(self.put(d, !(self.reg(s) | self.reg(t)))),
            Instruction::Slt { s, t, d } => done(
                self.put(d, flag(signed(self.reg(s)) < signed(self.reg(t)))),
            ),
            Instruction::Sltu { s, t, d } => done(self.put(d, flag(self.reg(s) < self.reg(t)))),
            Instruction::Bltz { s, imm } => done(self.branch(signed(self.reg(s)) < 0, imm)),
            Instruction::Bgez { s, imm } => done(self.branch(signed(self.reg(s)) >= 0, imm)),
            Instruction::Bltzal { s, imm } => if signed(self.reg(s)) < 0 {
                done(self.link().skip(imm))
            } else {
                done(self)
            },
            Instruction::Bgezal { s, imm } => if signed(self.reg(s)) >= 0 {
                done(self.link().skip(imm))
            } else {
                done(self)
            },
            Instruction::J { target } => done(self.jump(target)),
            Instruction::Jal { target } => done(self.link().jump(target)),
            Instruction::Beq { s, t, imm } => done(self.branch(self.reg(s) == self.reg(t), imm)),
            Instruction::Bne { s, t, imm } => done(self.branch(self.reg(s) != self.reg(t), imm)),
            Instruction::Blez { s, t, imm } => done(
                self.branch(signed(self.reg(s)) <= signed(self.reg(t)), imm),
            ),
            Instruction::Bgtz { s, t, imm } => done(
                self.branch(signed(self.reg(s)) > signed(self.reg(t)), imm),
            ),
            Instruction::Addi { s, t, imm } => if fits(signed(self.reg(s)) + sign_extend(imm)) {
                done(self.put(t, wrap(signed(self.reg(s)) + sign_extend(imm))))
            } else {
                failed(Error::CpuTrap, self)
            },
            Instruction::Addiu { s, t, imm } => done(
                self.put(t, wrap(self.reg(s) + sign_extend(imm))),
            ),
            Instruction::Slti { s, t, imm } => done(
                self.put(t, flag(signed(self.reg(s)) < sign_extend(imm))),
            ),
            Instruction::Sltiu { s, t, imm } => done(self.put(t, flag(self.reg(s) < imm))),
            Instruction::Andi { s, t, imm } => done(self.put(t, self.reg(s) & (imm as u32))),
            Instruction::Ori { s, t, imm } => done(self.put(t, self.reg(s) | (imm as u32))),
            Instruction::Xori { s, t, imm } => done(self.put(t, self.reg(s) ^ (imm as u32))),
            Instruction::Lhi { t, imm } => done(self.put(t, merge_high(self.reg(t), imm))),
            Instruction::Llo { t, imm } => done(self.put(t, merge_low(self.reg(t), imm))),
            Instruction::Trap => failed(Error::CpuTrap, self),
            Instruction::Lb { s, t, imm } => self.load(
                t,
                match self.memory.get(self.address(s, imm)).0 {
                    Ok(byte) => Ok(wrap(sign_extend_byte(byte))),
                    Err(error) => Err(error),
                },
                self.memory.get(self.address(s, imm)).1,
            ),
            Instruction::Lbu { s, t, imm } => self.load(
                t,
                match self.memory.get(self.address(s, imm)).0 {
                    Ok(byte) => Ok(byte as u32),
                    Err(error) => Err(error),
                },
                self.memory.get(self.address(s, imm)).1,
            ),
            Instruction::Lh { s, t, imm } => self.load(
                t,
                match self.memory.get_u16(self.address(s, imm)).0 {
                    Ok(half) => Ok(wrap(sign_extend(half))),
                    Err(error) => Err(error),
                },
                self.memory.get_u16(self.address(s, imm)).1,
            ),
            Instruction::Lhu { s, t, imm } => self.load(
                t,
                match self.memory.get_u16(self.address(s, imm)).0 {
                    Ok(half) => Ok(half as u32),
                    Err(error) => Err(error),
                },
                self.memory.get_u16(self.address(s, imm)).1,
            ),
            Instruction::Lw { s, t, imm } => self.load(
                t,
                self.memory.get_u32(self.address(s, imm)).0,
                self.memory.get_u32(self.address(s, imm)).1,
            ),
            Instruction::Sb { s, t, imm } => (
                self.memory.set(self.address(s, imm), (self.reg(t) % 0x100) as u8).0,
                self.with_memory(
                    self.memory.set(self.address(s, imm), (self.reg(t) % 0x100) as u8).1,
                ),
            ),
            Instruction::Sh { s, t, imm } => (
                self.memory.set_u16(self.address(s, imm), (self.reg(t) % 0x1_0000) as u16).0,
                self.with_memory(
                    self.memory.set_u16(self.address(s, imm), (self.reg(t) % 0x1_0000) as u16).1,
                ),
            ),
            Instruction::Sw { s, t, imm } => (
                self.memory.set_u32(self.address(s, imm), self.reg(t)).0,
                self.with_memory(self.memory.set_u32(self.address(s, imm), self.reg(t)).1),
            ),
        }
    }

    /// The outcome of carrying out the instruction that `word` stands for. A
    /// word that stands for no instruction fails with the word.
    #[verifier::opaque]
    pub open spec fn perform(self, word: u32) -> (Result<(), Error>, StateView) {
        match decode(word) {
            Some(instruction) => self.execute(instruction),
            None => failed(Error::CpuInvalid(word), self),
        }
    }

    /// The outcome of one step: fetch, advance the program counter, carry out.
    pub open spec fn step(self) -> (Result<(), Error>, StateView) {
        match self.memory.get_u32(self.registers.pc).0 {
            Err(error) => failed(error, self.with_memory(self.memory.get_u32(self.registers.pc).1)),
            Ok(word) => self.with_memory(self.memory.get_u32(self.registers.pc).1).goto(
                wrap(self.registers.pc + 4),
            ).perform(word),
        }
    }
}

/// The machine: registers and memory.
pub struct State {
    /// The registers.
    pub registers: Registers,
    /// The memory, with the journal of its writes.
    pub memory: WatchedMemory,
}

impl View for State {
    type V = StateView;

    open spec fn view(&self) -> StateView {
        StateView { registers: self.registers, memory: self.memory@ }
    }
}

impl State {
    /// Whether the memory is well formed.
    pub open spec fn wf(&self) -> bool {
        self.memory.backing.wf()
    }

    /// A machine that starts at `entry` with every other register zero.
    pub fn new(entry: u32, memory: Memory) -> (state: State)
        requires
            memory.wf(),
        ensures
            state.wf(),
            state.memory.backing == memory,
            state@.memory.log == Seq::<(u32, u8)>::empty(),
            state.registers.pc == entry,
            state.registers.hi == 0,
            state.registers.lo == 0,
            forall|i: int| 0 <= i < 32 ==> state.registers.line[i] == 0,
    {
        State { registers: Registers::new(entry), memory: WatchedMemory::new(memory) }
    }

    /// Reads register `index` as an instruction does.
    pub fn register(&self, index: u8) -> (value: u32)
        requires
            index < 32,
        ensures
            value == self@.reg(index),
    {
        self.registers.read(index)
    }

    /// Writes register `index` as an instruction does.
    pub fn put(&mut self, index: u8, value: u32)
        requires
            index < 32,
        ensures
            final(self)@ == old(self)@.put(index, value),
            final(self).memory == old(self).memory,
    {
        self.registers.write(index, value);
    }

    /// Takes a branch over `imm` instructions.
    pub fn skip(&mut self, imm: u16)
        ensures
            final(self)@ == old(self)@.skip(imm),
            final(self).memory == old(self).memory,
    {
        self.registers.pc = wrap_near(self.registers.pc as i64 + 4 * extend(imm));
    }

    /// Jumps to word `bits` of the current segment.
    pub fn jump(&mut self, bits: u32)
        requires
            bits < 0x400_0000,
        ensures
            final(self)@ == old(self)@.jump(bits),
            final(self).memory == old(self).memory,
    {
        self.registers.pc = self.registers.pc / 0x1000_0000 * 0x1000_0000 + bits * 4;
    }

    /// The address that a load or store refers to.
    fn address(&self, s: u8, imm: u16) -> (address: u32)
        requires
            s < 32,
        ensures
            address == self@.address(s, imm),
    {
        wrap_near(self.registers.read(s) as i64 + extend(imm))
    }

    /// Carries out the instruction that `word` stands for; fails with the
    /// word where it stands for none.
    pub fn perform(&mut self, word: u32) -> (result: Result<(), Error>)
        requires
            old(self).wf(),
        ensures
            final(self).wf(),
            (result, final(self)@) == old(self)@.perform(word),
    {
        proof {
            reveal(StateView::perform);
        }
        match self.dispatch(word) {
            Some(result) => result,
            None => Err(Error::CpuInvalid(word)),
        }
    }

    /// Carries out one step.
    pub fn step(&mut self) -> (result: Result<(), Error>)
        requires
            old(self).wf(),
        ensures
            final(self).wf(),
            result == old(self)@.step().0,
            final(self)@ == old(self)@.step().1,
    {
        let word: u32 = match self.memory.get_u32(self.registers.pc) {
            Ok(word) => word,
            Err(error) => {
                return Err(error);
            },
        };
        self.registers.pc = self.registers.pc.wrapping_add(4);
        self.perform(word)
    }

    /// Steps until a step fails or `limit` steps are done, and returns the
    /// failure, if there was one.
    pub fn run(&mut self, limit: u64) -> (result: Result<(), Error>)
        requires
            old(self).wf(),
        ensures
            final(self).wf(),
            (result, final(self)@) == old(self)@.run(limit as nat),
    {
        let mut count: u64 = 0;
        while count < limit
            invariant
                self.wf(),
                count <= limit,
                old(self)@.run(limit as nat) == self@.run((limit - count) as nat),
            decreases limit - count,
        {
            if let Err(error) = self.step() {
                return Err(error);
            }
            count = count + 1;
        }
        Ok(())
    }
}

impl StateView {
    /// The outcome of stepping until a step fails or `limit` steps are done.
    pub open spec fn run(self, limit: nat) -> (Result<(), Error>, StateView)
        decreases limit,
    {
        if limit == 0 {
            done(self)
        } else {
            match self.step().0 {
                Err(error) => failed(error, self.step().1),
                Ok(_) => self.step().1.run((limit - 1) as nat),
            }
        }
    }
}

impl Decoder<Result<(), Error>> for State {
    open spec fn ready(&self) -> bool {
        self.wf()
    }

    open spec fn visited(
        before: &Self,
        instruction: Instruction,
        out: Result<(), Error>,
        after: &Self,
    ) -> bool {
        (out, after@) == before@.execute(instruction)
    }

    fn sll(&mut self, t: u8, d: u8, sham: u8) -> (out: Result<(), Error>) {
        let value: u32 = self.register(t) << (sham as u32);
        self.put(d, value);
        Ok(())
    }

    fn srl(&mut self, t: u8, d: u8, sham: u8) -> (out: Result<(), Error>) {
        let value: u32 = self.register(t) >> (sham as u32);
        self.put(d, value);
        Ok(())
    }

    fn sra(&mut self, t: u8, d: u8, sham: u8) -> (out: Result<(), Error>) {
        let value: u32 = shift_right_arithmetic(self.register(t), sham as u32);
        self.put(d, value);
        Ok(())
    }

    fn sllv(&mut self, s: u8, t: u8, d: u8) -> (out: Result<(), Error>) {
        let value: u32 = self.register(t) << (self.register(s) % 32);
        self.put(d, value);
        Ok(())
    }

    fn srlv(&mut self, s: u8, t: u8, d: u8) -> (out: Result<(), Error>) {
        let value: u32 = self.register(t) >> (self.register(s) % 32);
        self.put(d, value);
        Ok(())
    }

    fn srav(&mut self, s: u8, t: u8, d: u8) -> (out: Result<(), Error>) {
        let value: u32 = shift_right_arithmetic(self.register(t), self.register(s) % 32);
        self.put(d, value);
        Ok(())
    }

    fn jr(&mut self, s: u8) -> (out: Result<(), Error>) {
        self.registers.pc = self.register(s);
        Ok(())
    }

    fn jalr(&mut self, s: u8) -> (out: Result<(), Error>) {
        let back: u32 = self.registers.pc;
        self.put(31, back);
        self.registers.pc = self.register(s);
        Ok(())
    }

    fn syscall(&mut self) -> (out: Result<(), Error>) {
        Err(Error::CpuSyscall)
    }

    fn mfhi(&mut self, d: u8) -> (out: Result<(), Error>) {
        let value: u32 = self.registers.hi;
        self.put(d, value);
        Ok(())
    }

    fn mthi(&mut self, s: u8) -> (out: Result<(), Error>) {
        self.registers.hi = self.register(s);
        Ok(())
    }

    fn mflo(&mut self, d: u8) -> (out: Result<(), Error>) {
        let value: u32 = self.registers.lo;
        self.put(d, value);
        Ok(())
    }

    fn mtlo(&mut self, s: u8) -> (out: Result<(), Error>) {
        self.registers.lo = self.register(s);
        Ok(())
    }

    fn mult(&mut self, s: u8, t: u8) -> (out: Result<(), Error>) {
        let (hi, lo) = multiply_signed(self.register(s), self.register(t));
        self.registers.hi = hi;
        self.registers.lo = lo;
        Ok(())
    }

    fn multu(&mut self, s: u8, t: u8) -> (out: Result<(), Error>) {
        let (hi, lo) = multiply_unsigned(self.register(s), self.register(t));
        self.registers.hi = hi;
        self.registers.lo = lo;
        Ok(())
    }

    fn div(&mut self, s: u8, t: u8) -> (out: Result<(), Error>) {
        let (hi, lo) = divide_signed(self.register(s), self.register(t));
        self.registers.hi = hi;
        self.registers.lo = lo;
        Ok(())
    }

    fn divu(&mut self, s: u8, t: u8) -> (out: Result<(), Error>) {
        let (hi, lo) = divide_unsigned(self.register(s), self.register(t));
        self.registers.hi = hi;
        self.registers.lo = lo;
        Ok(())
    }

    fn add(&mut self, s: u8, t: u8, d: u8) -> (out: Result<(), Error>) {
        let sum: i64 = to_signed(self.register(s)) + to_signed(self.register(t));
        if sum < -0x8000_0000 || sum >= 0x8000_0000 {
            return Err(Error::CpuTrap);
        }
        self.put(d, wrap_near(sum));
        Ok(())
    }

    fn addu(&mut self, s: u8, t: u8, d: u8) -> (out: Result<(), Error>) {
        let value: u32 = self.register(s).wrapping_add(self.register(t));
        self.put(d, value);
        Ok(())
    }

    fn sub(&mut self, s: u8, t: u8, d: u8) -> (out: Result<(), Error>) {
        let difference: i64 = to_signed(self.register(s)) - to_signed(self.register(t));
        if difference < -0x8000_0000 || difference >= 0x8000_0000 {
            return Err(Error::CpuTrap);
        }
        self.put(d, wrap_near(difference));
        Ok(())
    }

    fn subu(&mut self, s: u8, t: u8, d: u8) -> (out: Result<(), Error>) {
        let value: u32 = self.register(s).wrapping_sub(self.register(t));
        self.put(d, value);
        Ok(())
    }

    fn and(&mut self, s: u8, t: u8, d: u8) -> (out: Result<(), Error>) {
        let value: u32 = self.register(s) & self.register(t);
        self.put(d, value);
        Ok(())
    }

    fn or(&mut self, s: u8, t: u8, d: u8) -> (out: Result<(), Error>) {
        let value: u32 = self.register(s) | self.register(t);
        self.put(d, value);
        Ok(())
    }

    fn xor(&mut self, s: u8, t: u8, d: u8) -> (out: Result<(), Error>) {
        let value: u32 = self.register(s) ^ self.register(t);
        self.put(d, value);
        Ok(())
    }

    fn nor(&mut self, s: u8, t: u8, d: u8) -> (out: Result<(), Error>) {
        let value: u32 = !(self.register(s) | self.register(t));
        self.put(d, value);
        Ok(())
    }

    fn slt(&mut self, s: u8, t: u8, d: u8) -> (out: Result<(), Error>) {
        let below: bool = to_signed(self.register(s)) < to_signed(self.register(t));
        self.put(d, if below { 1 } else { 0 });
        Ok(())
    }

    fn sltu(&mut self, s: u8, t: u8, d: u8) -> (out: Result<(), Error>) {
        let below: bool = self.register(s) < self.register(t);
        self.put(d, if below { 1 } else { 0 });
        Ok(())
    }

    fn bltz(&mut self, s: u8, imm: u16) -> (out: Result<(), Error>) {
        if to_signed(self.register(s)) < 0 {
            self.skip(imm);
        }
        Ok(())
    }

    fn bgez(&mut self, s: u8, imm: u16) -> (out: Result<(), Error>) {
        if to_signed(self.register(s)) >= 0 {
            self.skip(imm);
        }
        Ok(())
    }

    fn bltzal(&mut self, s: u8, imm: u16) -> (out: Result<(), Error>) {
        if to_signed(self.register(s)) < 0 {
            let back: u32 = self.registers.pc;
            self.put(31, back);
            self.skip(imm);
        }
        Ok(())
    }

    fn bgezal(&mut self, s: u8, imm: u16) -> (out: Result<(), Error>) {
        if to_signed(self.register(s)) >= 0 {
            let back: u32 = self.registers.pc;
            self.put(31, back);
            self.skip(imm);
        }
        Ok(())
    }

    fn j(&mut self, target: u32) -> (out: Result<(), Error>) {
        self.jump(target);
        Ok(())
    }

    fn jal(&mut self, target: u32) -> (out: Result<(), Error>) {
        let back: u32 = self.registers.pc;
        self.put(31, back);
        self.jump(target);
        Ok(())
    }

    fn beq(&mut self, s: u8, t: u8, imm: u16) -> (out: Result<(), Error>) {
        if self.register(s) == self.register(t) {
            self.skip(imm);
        }
        Ok(())
    }

    fn bne(&mut self, s: u8, t: u8, imm: u16) -> (out: Result<(), Error>) {
        if self.register(s) != self.register(t) {
            self.skip(imm);
        }
        Ok(())
    }

    fn blez(&mut self, s: u8, t: u8, imm: u16) -> (out: Result<(), Error>) {
        if to_signed(self.register(s)) <= to_signed(self.register(t)) {
            self.skip(imm);
        }
        Ok(())
    }

    fn bgtz(&mut self, s: u8, t: u8, imm: u16) -> (out: Result<(), Error>) {
        if to_signed(self.register(s)) > to_signed(self.register(t)) {
            self.skip(imm);
        }
        Ok(())
    }

    fn addi(&mut self, s: u8, t: u8, imm: u16) -> (out: Result<(), Error>) {
        let sum: i64 = to_signed(self.register(s)) + extend(imm);
        if sum < -0x8000_0000 || sum >= 0x8000_0000 {
            return Err(Error::CpuTrap);
        }
        self.put(t, wrap_near(sum));
        Ok(())
    }

    fn addiu(&mut self, s: u8, t: u8, imm: u16) -> (out: Result<(), Error>) {
        let value: u32 = wrap_near(self.register(s) as i64 + extend(imm));
        self.put(t, value);
        Ok(())
    }

    fn slti(&mut self, s: u8, t: u8, imm: u16) -> (out: Result<(), Error>) {
        let below: bool = to_signed(self.register(s)) < extend(imm);
        self.put(t, if below { 1 } else { 0 });
        Ok(())
    }

    fn sltiu(&mut self, s: u8, t: u8, imm: u16) -> (out: Result<(), Error>) {
        let below: bool = self.register(s) < imm as u32;
        self.put(t, if below { 1 } else { 0 });
        Ok(())
    }

    fn andi(&mut self, s: u8, t: u8, imm: u16) -> (out: Result<(), Error>) {
        let value: u32 = self.register(s) & (imm as u32);
        self.put(t, value);
        Ok(())
    }

    fn ori(&mut self, s: u8, t: u8, imm: u16) -> (out: Result<(), Error>) {
        let value: u32 = self.register(s) | (imm as u32);
        self.put(t, value);
        Ok(())
    }

    fn xori(&mut self, s: u8, t: u8, imm: u16) -> (out: Result<(), Error>) {
        let value: u32 = self.register(s) ^ (imm as u32);
        self.put(t, value);
        Ok(())
    }

    fn lhi(&mut self, t: u8, imm: u16) -> (out: Result<(), Error>) {
        let value: u32 = self.register(t) % 0x1_0000 + 0x1_0000 * (imm as u32);
        self.put(t, value);
        Ok(())
    }

    fn llo(&mut self, t: u8, imm: u16) -> (out: Result<(), Error>) {
        let value: u32 = self.register(t) / 0x1_0000 * 0x1_0000 + imm as u32;
        self.put(t, value);
        Ok(())
    }

    fn trap(&mut self) -> (out: Result<(), Error>) {
        Err(Error::CpuTrap)
    }

    fn lb(&mut self, s: u8, t: u8, imm: u16) -> (out: Result<(), Error>) {
        let address: u32 = self.address(s, imm);
        let byte: u8 = match self.memory.get(address) {
            Ok(byte) => byte,
            Err(error) => {
                return Err(error);
            },
        };
        let value: u32 = if byte < 0x80 {
            byte as u32
        } else {
            byte as u32 + 0xFFFF_FF00
        };
        self.put(t, value);
        Ok(())
    }

    fn lbu(&mut self, s: u8, t: u8, imm: u16) -> (out: Result<(), Error>) {
        let address: u32 = self.address(s, imm);
        let byte: u8 = match self.memory.get(address) {
            Ok(byte) => byte,
            Err(error) => {
                return Err(error);
            },
        };
        self.put(t, byte as u32);
        Ok(())
    }

    fn lh(&mut self, s: u8, t: u8, imm: u16) -> (out: Result<(), Error>) {
        let address: u32 = self.address(s, imm);
        let half: u16 = match self.memory.get_u16(address) {
            Ok(half) => half,
            Err(error) => {
                return Err(error);
            },
        };
        let value: u32 = if half < 0x8000 {
            half as u32
        } else {
            half as u32 + 0xFFFF_0000
        };
        self.put(t, value);
        Ok(())
    }

    fn lhu(&mut self, s: u8, t: u8, imm: u16) -> (out: Result<(), Error>) {
        let address: u32 = self.address(s, imm);
        let half: u16 = match self.memory.get_u16(address) {
            Ok(half) => half,
            Err(error) => {
                return Err(error);
            },
        };
        self.put(t, half as u32);
        Ok(())
    }

    fn lw(&mut self, s: u8, t: u8, imm: u16) -> (out: Result<(), Error>) {
        let address: u32 = self.address(s, imm);
        let word: u32 = match self.memory.get_u32(address) {
            Ok(word) => word,
            Err(error) => {
                return Err(error);
            },
        };
        self.put(t, word);
        Ok(())
    }

    fn sb(&mut self, s: u8, t: u8, imm: u16) -> (out: Result<(), Error>) {
        let address: u32 = self.address(s, imm);
        let value: u8 = (self.register(t) % 0x100) as u8;
        self.memory.set(address, value)
    }

    fn sh(&mut self, s: u8, t: u8, imm: u16) -> (out: Result<(), Error>) {
        let address: u32 = self.address(s, imm);
        let value: u16 = (self.register(t) % 0x1_0000) as u16;
        self.memory.set_u16(address, value)
    }

    fn sw(&mut self, s: u8, t: u8, imm: u16) -> (out: Result<(), Error>) {
        let address: u32 = self.address(s, imm);
        let value: u32 = self.register(t);
        self.memory.set_u32(address, value)
    }
}

/// Whether carrying `instruction` out in `state` overflows: the sum or
/// difference that `add`, `sub` or `addi` asks for is no signed 32-bit value.
pub open spec fn overflows(state: StateView, instruction: Instruction) -> bool {
    match instruction {
        Instruction::Add { s, t, d } => !fits(signed(state.reg(s)) + signed(state.reg(t))),
        Instruction::Sub { s, t, d } => !fits(signed(state.reg(s)) - signed(state.reg(t))),
        Instruction::Addi { s, t, imm } => !fits(signed(state.reg(s)) + sign_extend(imm)),
        _ => false,
    }
}

/// No memory access ends in a trap.
pub proof fn lemma_memory_never_traps(memory: WatchedView, address: u32, value: u32)
    ensures
        memory.get(address).0 != Err::<u8, Error>(Error::CpuTrap),
        memory.get_u16(address).0 != Err::<u16, Error>(Error::CpuTrap),
        memory.get_u32(address).0 != Err::<u32, Error>(Error::CpuTrap),
        memory.set(address, (value % 0x100) as u8).0 != Err::<(), Error>(Error::CpuTrap),
        memory.set_u16(address, (value % 0x1_0000) as u16).0 != Err::<(), Error>(Error::CpuTrap),
        memory.set_u32(address, value).0 != Err::<(), Error>(Error::CpuTrap),
{
}

/// An instruction traps exactly where it is `add`, `sub` or `addi` and the
/// true signed result lies outside the 32-bit range, or where it is `trap`
/// itself. No other instruction traps, whatever its operands.
pub proof fn lemma_trap_iff_overflow(state: StateView, instruction: Instruction)
    ensures
        state.execute(instruction).0 == Err::<(), Error>(Error::CpuTrap) <==> (overflows(
            state,
            instruction,
        ) || instruction is Trap),
        overflows(state, instruction) || instruction is Trap ==> state.execute(instruction).1
            == state,
{
    match instruction {
        Instruction::Lb { s, t, imm } => {
            lemma_memory_never_traps(state.memory, state.address(s, imm), state.reg(t));
        },
        Instruction::Lbu { s, t, imm } => {
            lemma_memory_never_traps(state.memory, state.address(s, imm), state.reg(t));
        },
        Instruction::Lh { s, t, imm } => {
            lemma_memory_never_traps(state.memory, state.address(s, imm), state.reg(t));
        },
        Instruction::Lhu { s, t, imm } => {
            lemma_memory_never_traps(state.memory, state.address(s, imm), state.reg(t));
        },
        Instruction::Lw { s, t, imm } => {
            lemma_memory_never_traps(state.memory, state.address(s, imm), state.reg(t));
        },
        Instruction::Sb { s, t, imm } => {
            lemma_memory_never_traps(state.memory, state.address(s, imm), state.reg(t));
        },
        Instruction::Sh { s, t, imm } => {
            lemma_memory_never_traps(state.memory, state.address(s, imm), state.reg(t));
        },
        Instruction::Sw { s, t, imm } => {
            lemma_memory_never_traps(state.memory, state.address(s, imm), state.reg(t));
        },
        _ => {},
    }
}

/// A register write leaves entry 0 of the line alone.
proof fn lemma_put_keeps_zero(state: StateView, index: u8, value: u32)
    requires
        index < 32,
    ensures
        state.put(index, value).registers.line[0] == state.registers.line[0],
        state.put(index, value).registers.pc == state.registers.pc,
{
    broadcast use vstd::array::axiom_spec_array_update;

}

/// No instruction changes what `$zero` holds, and `$zero` reads 0 after
/// every instruction.
pub proof fn lemma_zero_register(state: StateView, instruction: Instruction)
    requires
        instruction.wf(),
    ensures
        state.execute(instruction).1.reg(0) == 0,
        state.execute(instruction).1.registers.line[0] == state.registers.line[0],
{
    assert forall|other: StateView, index: u8, value: u32| index < 32 implies (#[trigger] other.put(
        index,
        value,
    )).registers.line[0] == other.registers.line[0] by {
        lemma_put_keeps_zero(other, index, value);
    }
}

/// Only a store adds to the journal, and a step that fails adds nothing.
pub proof fn lemma_journal_grows_on_stores(state: StateView, instruction: Instruction)
    ensures
        !(instruction is Sb || instruction is Sh || instruction is Sw) ==> state.execute(
            instruction,
        ).1.memory.log == state.memory.log,
        state.execute(instruction).0 is Err ==> state.execute(instruction).1.memory.log
            == state.memory.log,
{
}

} // verus!
