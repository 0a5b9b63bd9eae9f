//! An emulated MIPS32 machine with a debugger.
//!
//! The machine is built from the bottom up:
//!
//! - `memory` is the 32-bit address space: mounted regions, writable pages
//!   and listeners, the devices that answer for a selector of their own. The
//!   memory-mapped `keyboard` is the listener of this machine; `watched` adds
//!   the journal of writes.
//! - `registers`, `alu`, `instruction` and `cpu` are the interpreter: the
//!   register file, the arithmetic, the decoding of instruction words and
//!   what each instruction does.
//! - `tracker` and `executor` are the debugger: frames of history, modes,
//!   breakpoints, cycles and runs; `rewind` holds the laws of taking
//!   instructions back.
//! - `channels`, `scanners`, `random` and `syscall` are the system calls, up
//!   to the point where a call needs the host; `delegate` is the run loop,
//!   one leg at a time.
//! - `execution` is the device that the host drives; `device` builds its
//!   memory for a program, `display` reads its framebuffer, `describe` puts
//!   its faults in words.
//! - `disassemble` and `decode` show instructions; `text` writes numerals.
//! - `elf`, `hex_format` and `regions` read and write program images;
//!   `shortcuts`, `access`, `midi` and `testing` hold what the editor around
//!   the machine shares with it.
//!
//! Every function states in its contract what it returns and changes, over
//! the mathematical views of the values involved, and is proved to keep it.
//! The few places where the proofs rest on another crate are marked: they are
//! the generators of `random`, the word readers of `hex_format`, the base64
//! text of `regions`, and `String::push` in `text`.

pub mod access;
pub mod alu;
pub mod channels;
pub mod cpu;
pub mod decode;
pub mod delegate;
pub mod describe;
pub mod device;
pub mod disassemble;
pub mod display;
pub mod elf;
pub mod error;
pub mod execution;
pub mod executor;
pub mod hex_format;
pub mod instruction;
pub mod keyboard;
pub mod memory;
pub mod midi;
pub mod random;
pub mod regions;
pub mod registers;
pub mod rewind;
pub mod scanners;
pub mod shortcuts;
pub mod syscall;
pub mod testing;
pub mod text;
pub mod tracker;
pub mod watched;
