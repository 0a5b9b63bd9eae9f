//! The framebuffer reader.
//!
//! A pixel is a little-endian word `0xAARRGGBB`. The reader turns each into
//! the four bytes red, green, blue and 255: the alpha of the source is
//! dropped.

use vstd::prelude::*;
use crate::alu::wrap;
use crate::cpu::State;
use crate::memory::{Memory, MemoryView};
use crate::registers::Registers;

verus! {

/// The address of the framebuffer that the machine starts with.
pub const DISPLAY_ADDRESS: u32 = 0x10008000;

/// The four bytes that show one pixel word.
pub open spec fn pixel(word: u32) -> Seq<u8> {
    seq![
        (word / 0x1_0000 % 0x100) as u8,
        (word / 0x100 % 0x100) as u8,
        (word % 0x100) as u8,
        255u8,
    ]
}

/// The bytes that show the `count` pixel words from `address` on, behind
/// `bytes`, and the memory after reading them. The addresses wrap at the end
/// of the address space. One failed read fails the whole.
pub open spec fn render(memory: MemoryView, address: u32, count: nat, bytes: Seq<u8>) -> (
    Option<Seq<u8>>,
    MemoryView,
)
    decreases count,
{
    if count == 0 {
        (Some(bytes), memory)
    } else {
        match memory.get_u32(address).0 {
            Ok(word) => render(
                memory.get_u32(address).1,
                wrap(address + 4),
                (count - 1) as nat,
                bytes + pixel(word),
            ),
            Err(_) => (None, memory.get_u32(address).1),
        }
    }
}

/// The bytes that show a display of `width` by `height` pixels at `address`,
/// and the memory after reading them. A display of more than 2^32 - 1 pixels
/// shows nothing.
pub open spec fn display(memory: MemoryView, address: u32, width: u32, height: u32) -> (
    Option<Seq<u8>>,
    MemoryView,
) {
    if width * height > u32::MAX {
        (None, memory)
    } else {
        render(memory, address, (width * height) as nat, Seq::empty())
    }
}

/// Reads a display of `width` by `height` pixels at `address`.
pub fn read_display(address: u32, width: u32, height: u32, memory: &mut Memory) -> (result: Option<
    Vec<u8>,
>)
    requires
        old(memory).wf(),
    ensures
        final(memory).wf(),
        final(memory)@ == display(old(memory)@, address, width, height).1,
        match display(old(memory)@, address, width, height).0 {
            Some(bytes) => result matches Some(shown) && shown@ == bytes,
            None => result is None,
        },
{
    let pixels: u32 = match width.checked_mul(height) {
        Some(pixels) => pixels,
        None => {
            return None;
        },
    };
    let ghost goal = display(old(memory)@, address, width, height);
    let mut result: Vec<u8> = Vec::new();
    let mut cursor: u32 = address;
    let mut left: u32 = pixels;
    while left > 0
        invariant
            memory.wf(),
            goal == display(old(memory)@, address, width, height),
            goal == render(memory@, cursor, left as nat, result@),
        decreases left,
    {
        let word: u32 = match memory.get_u32(cursor) {
            Ok(word) => word,
            Err(_) => {
                return None;
            },
        };
        let ghost before = result@;
        result.push((word / 0x1_0000 % 0x100) as u8);
        result.push((word / 0x100 % 0x100) as u8);
        result.push((word % 0x100) as u8);
        result.push(255);
        assert(result@ =~= before + pixel(word));
        cursor = cursor.wrapping_add(4);
        left = left - 1;
    }
    Some(result)
}

/// `count` copies of `part`, one behind the other.
pub open spec fn repeated(part: Seq<u8>, count: nat) -> Seq<u8>
    decreases count,
{
    if count == 0 {
        Seq::empty()
    } else {
        part + repeated(part, (count - 1) as nat)
    }
}

/// Whether the word at `address` reads as `word` and reading it changes
/// nothing.
#[verifier::opaque]
pub open spec fn reads_as(memory: MemoryView, address: u32, word: u32) -> bool {
    memory.get_u32(address) == (Ok::<u32, crate::error::Error>(word), memory)
}

/// Where every pixel word of a display reads as `word`, the display shows
/// the bytes of `word` once for each pixel, whatever its size, and reading
/// it changes nothing.
pub proof fn lemma_uniform_display(
    memory: MemoryView,
    address: u32,
    count: nat,
    word: u32,
    bytes: Seq<u8>,
)
    requires
        forall|i: nat| i < count ==> #[trigger] reads_as(memory, wrap(address + 4 * i), word),
    ensures
        render(memory, address, count, bytes) == (
            Some(bytes + repeated(pixel(word), count)),
            memory,
        ),
    decreases count,
{
    if count == 0 {
        assert(bytes + repeated(pixel(word), 0) =~= bytes);
    } else {
        let next = wrap(address + 4);
        assert(memory.get_u32(address) == (Ok::<u32, crate::error::Error>(word), memory)) by {
            assert(wrap(address + 4 * 0nat) == address);
            assert(reads_as(memory, wrap(address + 4 * 0nat), word));
            reveal(reads_as);
        }
        assert forall|i: nat| i < (count - 1) as nat implies #[trigger] reads_as(
            memory,
            wrap(next + 4 * i),
            word,
        ) by {
            assert(wrap(next + 4 * i) == wrap(address + 4 * (i + 1)));
            assert(reads_as(memory, wrap(address + 4 * ((i + 1) as nat)), word));
        }
        lemma_uniform_display(memory, next, (count - 1) as nat, word, bytes + pixel(word));
        assert((bytes + pixel(word)) + repeated(pixel(word), (count - 1) as nat) =~= bytes + repeated(
            pixel(word),
            count,
        ));
    }
}

/// Where the display is read from, and what was read last.
#[derive(Debug)]
pub struct FlushDisplayState {
    /// The address of the display, where no register names it.
    pub address: u32,
    /// The register that holds the address of the display.
    pub register: Option<u8>,
    /// The width in pixels.
    pub width: u32,
    /// The height in pixels.
    pub height: u32,
    /// The bytes read by the last flush.
    pub data: Option<Vec<u8>>,
}

impl Default for FlushDisplayState {
    fn default() -> (state: FlushDisplayState)
        ensures
            state.address == DISPLAY_ADDRESS,
            state.register == None::<u8>,
            state.width == 64,
            state.height == 64,
            state.data is None,
    {
        FlushDisplayState {
            address: DISPLAY_ADDRESS,
            register: None,
            width: 64,
            height: 64,
            data: None,
        }
    }
}

impl FlushDisplayState {
    /// The address that the display is read from: what the named register
    /// holds, or the fixed address where no register below 32 is named.
    pub open spec fn target(&self, registers: Registers) -> u32 {
        match self.register {
            Some(index) => if index < 32 {
                registers.line[index as int]
            } else {
                self.address
            },
            None => self.address,
        }
    }

    /// The address that the display is read from.
    pub fn get_target(&self, registers: &Registers) -> (address: u32)
        ensures
            address == self.target(*registers),
    {
        match self.register {
            Some(index) => {
                if index < 32 {
                    registers.line[index as usize]
                } else {
                    self.address
                }
            },
            None => self.address,
        }
    }

    /// Reads the display from the machine and keeps the bytes.
    pub fn flush(&mut self, state: &mut State)
        requires
            old(state).wf(),
        ensures
            final(state).wf(),
            final(state).registers == old(state).registers,
            final(state)@.memory.log == old(state)@.memory.log,
            final(state)@.memory.backing == display(
                old(state)@.memory.backing,
                old(self).target(old(state).registers),
                old(self).width,
                old(self).height,
            ).1,
            final(self).address == old(self).address,
            final(self).register == old(self).register,
            final(self).width == old(self).width,
            final(self).height == old(self).height,
            match display(
                old(state)@.memory.backing,
                old(self).target(old(state).registers),
                old(self).width,
                old(self).height,
            ).0 {
                Some(bytes) => final(self).data matches Some(shown) && shown@ == bytes,
                None => final(self).data is None,
            },
    {
        let address: u32 = self.get_target(&state.registers);
        self.data = read_display(address, self.width, self.height, &mut state.memory.backing);
    }
}

} // verus!
