//! Faults that the emulated machine can raise.

use vstd::prelude::*;
use vstd::string::StringExecFns;
use crate::text::{padded_hex, push_hex_padded};

verus! {

/// A fault raised by the memory model or by the interpreter.
#[derive(Clone, Copy, Debug, PartialEq, Eq, Structural)]
pub enum Error {
    /// A half-word or word access at an address that is not naturally aligned.
    MemoryAlign(u32),
    /// An access to an address that nothing is mounted at.
    MemoryUnmapped(u32),
    /// A word that decodes to no instruction; the word is carried along.
    CpuInvalid(u32),
    /// An arithmetic trap: signed overflow, or the `trap` instruction.
    CpuTrap,
    /// The `syscall` instruction: the request to enter the system call dispatcher.
    CpuSyscall,
}

impl Error {
    /// The fault in words.
    pub open spec fn text(self) -> Seq<char> {
        match self {
            Error::MemoryAlign(address) => "Memory access at 0x"@ + padded_hex(address as nat, 8)
                + " is not aligned."@,
            Error::MemoryUnmapped(address) => "Memory at 0x"@ + padded_hex(address as nat, 8)
                + " is not mapped."@,
            Error::CpuInvalid(word) => "Instruction 0x"@ + padded_hex(word as nat, 8)
                + " is reserved."@,
            Error::CpuTrap => "The processor trapped on an arithmetic overflow."@,
            Error::CpuSyscall => "The processor asked for a system call."@,
        }
    }

    /// The fault in words.
    pub fn message(&self) -> (message: String)
        ensures
            message@ == self.text(),
    {
        match self {
            Error::MemoryAlign(address) => {
                let mut message = String::from_str("Memory access at 0x");
                push_hex_padded(&mut message, *address as u64, 8);
                message.append(" is not aligned.");
                message
            },
            Error::MemoryUnmapped(address) => {
                let mut message = String::from_str("Memory at 0x");
                push_hex_padded(&mut message, *address as u64, 8);
                message.append(" is not mapped.");
                message
            },
            Error::CpuInvalid(word) => {
                let mut message = String::from_str("Instruction 0x");
                push_hex_padded(&mut message, *word as u64, 8);
                message.append(" is reserved.");
                message
            },
            Error::CpuTrap => String::from_str("The processor trapped on an arithmetic overflow."),
            Error::CpuSyscall => String::from_str("The processor asked for a system call."),
        }
    }
}

} // verus!
