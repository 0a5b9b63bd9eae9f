//! A memory that keeps a journal of what its writes replaced.
//!
//! Reads pass through to the memory behind. A write that succeeds appends, for
//! each byte it stores, the byte's address and the byte that stood there
//! before; a write that fails appends nothing.

use vstd::prelude::*;
use crate::error::Error;
use crate::memory::{lemma_failed_write_changes_nothing, Memory, MemoryView};

verus! {

/// A watched memory as mathematical values.
pub struct WatchedView {
    /// The memory behind.
    pub backing: MemoryView,
    /// The journal: address and replaced byte of each byte written, oldest first.
    pub log: Seq<(u32, u8)>,
}

impl WatchedView {
    /// The journal entry for a write at `address`: the address and the byte
    /// that stands there.
    pub open spec fn entry(self, address: u32) -> (u32, u8) {
        (
            address,
            match self.backing.cell(address) {
                Some(byte) => byte,
                None => 0u8,
            },
        )
    }

    /// The outcome of a byte read, and the memory after it.
    pub open spec fn get(self, address: u32) -> (Result<u8, Error>, WatchedView) {
        (self.backing.get(address).0, WatchedView { backing: self.backing.get(address).1, ..self })
    }

    /// The outcome of a half-word read, and the memory after it.
    pub open spec fn get_u16(self, address: u32) -> (Result<u16, Error>, WatchedView) {
        (
            self.backing.get_u16(address).0,
            WatchedView { backing: self.backing.get_u16(address).1, ..self },
        )
    }

    /// The outcome of a word read, and the memory after it.
    pub open spec fn get_u32(self, address: u32) -> (Result<u32, Error>, WatchedView) {
        (
            self.backing.get_u32(address).0,
            WatchedView { backing: self.backing.get_u32(address).1, ..self },
        )
    }

    /// The outcome of a byte write, and the memory after it.
    pub open spec fn set(self, address: u32, value: u8) -> (Result<(), Error>, WatchedView) {
        match self.backing.set(address, value).0 {
            Ok(_) => (
                Ok(()),
                WatchedView {
                    backing: self.backing.set(address, value).1,
                    log: self.log.push(self.entry(address)),
                },
            ),
            Err(error) => (Err(error), self),
        }
    }

    /// The outcome of a half-word write, and the memory after it.
    pub open spec fn set_u16(self, address: u32, value: u16) -> (Result<(), Error>, WatchedView) {
        match self.backing.set_u16(address, value).0 {
            Ok(_) => (
                Ok(()),
                WatchedView {
                    backing: self.backing.set_u16(address, value).1,
                    log: self.log.push(self.entry(address)).push(self.entry((address + 1) as u32)),
                },
            ),
            Err(error) => (Err(error), self),
        }
    }

    /// The outcome of a word write, and the memory after it.
    pub open spec fn set_u32(self, address: u32, value: u32) -> (Result<(), Error>, WatchedView) {
        match self.backing.set_u32(address, value).0 {
            Ok(_) => (
                Ok(()),
                WatchedView {
                    backing: self.backing.set_u32(address, value).1,
                    log: self.log.push(self.entry(address)).push(
                        self.entry((address + 1) as u32),
                    ).push(self.entry((address + 2) as u32)).push(self.entry((address + 3) as u32)),
                },
            ),
            Err(error) => (Err(error), self),
        }
    }
}

/// A memory together with the journal of its writes.
pub struct WatchedMemory {
    /// The memory behind.
    pub backing: Memory,
    /// The journal.
    pub log: Vec<(u32, u8)>,
}

impl View for WatchedMemory {
    type V = WatchedView;

    open spec fn view(&self) -> WatchedView {
        WatchedView { backing: self.backing@, log: self.log@ }
    }
}

impl WatchedMemory {
    /// Wraps a memory, with an empty journal.
    pub fn new(backing: Memory) -> (memory: WatchedMemory)
        ensures
            memory.backing == backing,
            memory@.log == Seq::<(u32, u8)>::empty(),
    {
        WatchedMemory { backing, log: Vec::new() }
    }

    /// Hands the journal out and starts an empty one.
    pub fn take(&mut self) -> (log: Vec<(u32, u8)>)
        ensures
            log@ == old(self)@.log,
            final(self)@.log == Seq::<(u32, u8)>::empty(),
            final(self).backing == old(self).backing,
    {
        let mut log: Vec<(u32, u8)> = Vec::new();
        std::mem::swap(&mut self.log, &mut log);
        log
    }

    /// Reads the byte at `address`.
    pub fn get(&mut self, address: u32) -> (result: Result<u8, Error>)
        requires
            old(self).backing.wf(),
        ensures
            final(self).backing.wf(),
            result == old(self)@.get(address).0,
            final(self)@ == old(self)@.get(address).1,
    {
        self.backing.get(address)
    }

    /// Reads the half-word at `address`.
    pub fn get_u16(&mut self, address: u32) -> (result: Result<u16, Error>)
        requires
            old(self).backing.wf(),
        ensures
            final(self).backing.wf(),
            result == old(self)@.get_u16(address).0,
            final(self)@ == old(self)@.get_u16(address).1,
    {
        self.backing.get_u16(address)
    }

    /// Reads the word at `address`.
    pub fn get_u32(&mut self, address: u32) -> (result: Result<u32, Error>)
        requires
            old(self).backing.wf(),
        ensures
            final(self).backing.wf(),
            result == old(self)@.get_u32(address).0,
            final(self)@ == old(self)@.get_u32(address).1,
    {
        self.backing.get_u32(address)
    }

    /// Writes the byte at `address` and notes what it replaced.
    pub fn set(&mut self, address: u32, value: u8) -> (result: Result<(), Error>)
        requires
            old(self).backing.wf(),
        ensures
            final(self).backing.wf(),
            result == old(self)@.set(address, value).0,
            final(self)@ == old(self)@.set(address, value).1,
    {
        if !self.backing.is_writable(address) {
            proof {
                lemma_failed_write_changes_nothing(self.backing@, address, value, 0, 0);
            }
            return self.backing.set(address, value);
        }
        let read = self.backing.get(address);
        let written = self.backing.set(address, value);
        if let Ok(byte) = read {
            self.log.push((address, byte));
        }
        written
    }

    /// Writes the half-word at `address` and notes what it replaced.
    pub fn set_u16(&mut self, address: u32, value: u16) -> (result: Result<(), Error>)
        requires
            old(self).backing.wf(),
        ensures
            final(self).backing.wf(),
            result == old(self)@.set_u16(address, value).0,
            final(self)@ == old(self)@.set_u16(address, value).1,
    {
        if address % 2 != 0 || !self.backing.is_writable(address) || !self.backing.is_writable(
            address + 1,
        ) {
            proof {
                lemma_failed_write_changes_nothing(self.backing@, address, 0, value, 0);
            }
            return self.backing.set_u16(address, value);
        }
        let r0 = self.backing.get(address);
        let r1 = self.backing.get(address + 1);
        let written = self.backing.set_u16(address, value);
        if let (Ok(b0), Ok(b1)) = (r0, r1) {
            self.log.push((address, b0));
            self.log.push((address + 1, b1));
        }
        written
    }

    /// Writes the word at `address` and notes what it replaced.
    pub fn set_u32(&mut self, address: u32, value: u32) -> (result: Result<(), Error>)
        requires
            old(self).backing.wf(),
        ensures
            final(self).backing.wf(),
            result == old(self)@.set_u32(address, value).0,
            final(self)@ == old(self)@.set_u32(address, value).1,
    {
        if address % 4 != 0 || !self.backing.is_writable(address) || !self.backing.is_writable(
            address + 1,
        ) || !self.backing.is_writable(address + 2) || !self.backing.is_writable(address + 3) {
            proof {
                lemma_failed_write_changes_nothing(self.backing@, address, 0, 0, value);
            }
            return self.backing.set_u32(address, value);
        }
        let r0 = self.backing.get(address);
        let r1 = self.backing.get(address + 1);
        let r2 = self.backing.get(address + 2);
        let r3 = self.backing.get(address + 3);
        let written = self.backing.set_u32(address, value);
        if let (Ok(b0), Ok(b1), Ok(b2), Ok(b3)) = (r0, r1, r2, r3) {
            self.log.push((address, b0));
            self.log.push((address + 1, b1));
            self.log.push((address + 2, b2));
            self.log.push((address + 3, b3));
        }
        written
    }
}

/// A write that fails leaves no entry in the journal and changes nothing; a
/// read never touches the journal.
pub proof fn lemma_failed_write_records_nothing(
    memory: WatchedView,
    address: u32,
    byte: u8,
    half: u16,
    word: u32,
)
    ensures
        memory.set(address, byte).0 is Err ==> memory.set(address, byte).1 == memory,
        memory.set_u16(address, half).0 is Err ==> memory.set_u16(address, half).1 == memory,
        memory.set_u32(address, word).0 is Err ==> memory.set_u32(address, word).1 == memory,
        memory.get(address).1.log == memory.log,
        memory.get_u16(address).1.log == memory.log,
        memory.get_u32(address).1.log == memory.log,
{
}

/// A write that succeeds adds one journal entry for each byte it stores, in
/// address order, each with the byte that stood there before.
pub proof fn lemma_write_records_what_it_replaced(
    memory: WatchedView,
    address: u32,
    byte: u8,
    half: u16,
    word: u32,
)
    ensures
        memory.set(address, byte).0 is Ok ==> memory.set(address, byte).1.log == memory.log
            + seq![(address, memory.backing.cell(address)->0)],
        memory.set_u16(address, half).0 is Ok ==> memory.set_u16(address, half).1.log == memory.log
            + seq![
            (address, memory.backing.cell(address)->0),
            ((address + 1) as u32, memory.backing.cell((address + 1) as u32)->0),
        ],
        memory.set_u32(address, word).0 is Ok ==> memory.set_u32(address, word).1.log == memory.log
            + seq![
            (address, memory.backing.cell(address)->0),
            ((address + 1) as u32, memory.backing.cell((address + 1) as u32)->0),
            ((address + 2) as u32, memory.backing.cell((address + 2) as u32)->0),
            ((address + 3) as u32, memory.backing.cell((address + 3) as u32)->0),
        ],
{
    if memory.set(address, byte).0 is Ok {
        assert(memory.set(address, byte).1.log =~= memory.log + seq![
            (address, memory.backing.cell(address)->0),
        ]);
    }
    if memory.set_u16(address, half).0 is Ok {
        assert(memory.set_u16(address, half).1.log =~= memory.log + seq![
            (address, memory.backing.cell(address)->0),
            ((address + 1) as u32, memory.backing.cell((address + 1) as u32)->0),
        ]);
    }
    if memory.set_u32(address, word).0 is Ok {
        assert(memory.set_u32(address, word).1.log =~= memory.log + seq![
            (address, memory.backing.cell(address)->0),
            ((address + 1) as u32, memory.backing.cell((address + 1) as u32)->0),
            ((address + 2) as u32, memory.backing.cell((address + 2) as u32)->0),
            ((address + 3) as u32, memory.backing.cell((address + 3) as u32)->0),
        ]);
    }
}

} // verus!
