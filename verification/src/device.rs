//! Building the machine for a program.
//!
//! The regions of the program are mounted first, then the stack: `heap_size`
//! bytes of zeros that end at `0x7FFFFFFC`. The framebuffer is a region of
//! `0x8000` zero bytes at `0x10008000`, which `$gp` points to. The keyboard
//! listens at selector `0xFFFF`, and the selectors `0x1000` to `0x7FFF` are
//! writable pages that read as `0xCC`.

use vstd::prelude::*;
use crate::alu::wrap;
use crate::cpu::State;
use crate::elf::{Elf, ProgramHeader};
use crate::keyboard::{KeyboardHandler, KeyboardView};
use crate::memory::{Memory, MemoryView, Region};

verus! {

/// The address behind the stack.
pub const STACK_END: u32 = 0x7FFF_FFFC;

/// The address of the framebuffer.
pub const SCREEN_ADDRESS: u32 = 0x1000_8000;

/// The size of the framebuffer in bytes.
pub const SCREEN_SIZE: usize = 0x8000;

/// The first selector that is mounted as a writable page.
pub const WRITABLE_FIRST: usize = 0x1000;

/// The selector behind the last that is mounted as a writable page.
pub const WRITABLE_END: usize = 0x8000;

/// The byte that a writable page reads as before it is written.
pub const WRITABLE_FILL: u8 = 0xCC;

/// What a region of a program may be used for.
#[derive(Clone, Copy, Debug, PartialEq, Eq, Structural)]
pub struct RegionFlags {
    /// The region may be read.
    pub readable: bool,
    /// The region may be written.
    pub writable: bool,
    /// The region holds code.
    pub executable: bool,
}

/// A region of an assembled program.
#[derive(Debug)]
pub struct RawRegion {
    /// The address of the first byte.
    pub address: u32,
    /// The bytes.
    pub data: Vec<u8>,
    /// What the region may be used for.
    pub flags: RegionFlags,
}

/// An assembled program.
#[derive(Debug)]
pub struct Binary {
    /// The address of the first instruction.
    pub entry: u32,
    /// The regions, in the order in which they are mounted.
    pub regions: Vec<RawRegion>,
}

/// The memory after the first `count` regions of a program are mounted.
pub open spec fn mount_all(memory: MemoryView, regions: Seq<RawRegion>, count: nat) -> MemoryView
    decreases count,
{
    if count == 0 || count > regions.len() {
        memory
    } else {
        mount_all(memory, regions, (count - 1) as nat).mount(
            regions[count - 1].address,
            regions[count - 1].data@,
        )
    }
}

/// The end addresses of the executable regions among the first `count`,
/// modulo 2^32: a program that arrives at one of them has run off its code.
pub open spec fn finished_pcs(regions: Seq<RawRegion>, count: nat) -> Seq<u32>
    decreases count,
{
    if count == 0 || count > regions.len() {
        Seq::empty()
    } else if regions[count - 1].flags.executable {
        finished_pcs(regions, (count - 1) as nat).push(
            wrap(regions[count - 1].address + regions[count - 1].data@.len()),
        )
    } else {
        finished_pcs(regions, (count - 1) as nat)
    }
}

/// `count` zero bytes.
pub fn zeros(count: usize) -> (data: Vec<u8>)
    ensures
        data@ == Seq::new(count as nat, |i: int| 0u8),
{
    let mut data: Vec<u8> = Vec::new();
    while data.len() < count
        invariant
            data@.len() <= count,
            data@ == Seq::new(data@.len(), |i: int| 0u8),
        decreases count - data@.len(),
    {
        data.push(0);
        assert(data@ =~= Seq::new(data@.len(), |i: int| 0u8));
    }
    data
}

/// The addresses one past the end of each executable region.
pub fn get_binary_finished_pcs(binary: &Binary) -> (pcs: Vec<u32>)
    ensures
        pcs@ == finished_pcs(binary.regions@, binary.regions@.len()),
{
    let mut pcs: Vec<u32> = Vec::new();
    let mut index: usize = 0;
    while index < binary.regions.len()
        invariant
            index <= binary.regions@.len(),
            pcs@ == finished_pcs(binary.regions@, index as nat),
        decreases binary.regions@.len() - index,
    {
        let region = &binary.regions[index];
        if region.flags.executable {
            let length: u64 = (region.data.len() as u64) % 0x1_0000_0000;
            pcs.push(((region.address as u64 + length) % 0x1_0000_0000) as u32);
        }
        index = index + 1;
    }
    pcs
}

/// Mounts the regions of `binary` and a stack of `heap_size` zero bytes that
/// ends at `0x7FFFFFFC`, and makes the machine that starts at the entry of
/// the program. The stack pointer is left one word below the end of the
/// stack.
pub fn state_from_binary(binary: Binary, heap_size: u32, memory: Memory) -> (state: State)
    requires
        memory.wf(),
        heap_size <= STACK_END,
    ensures
        state.wf(),
        state@.memory.log == Seq::<(u32, u8)>::empty(),
        state@.memory.backing == mount_all(memory@, binary.regions@, binary.regions@.len()).mount(
            (STACK_END - heap_size) as u32,
            Seq::new(heap_size as nat, |i: int| 0u8),
        ),
        state.registers.pc == binary.entry,
        state.registers.hi == 0,
        state.registers.lo == 0,
        forall|i: int| 0 <= i < 32 && i != 29 ==> state.registers.line[i] == 0,
        state.registers.line[29] == STACK_END - 4,
{
    let mut memory = memory;
    let mut binary = binary;
    let ghost regions = binary.regions@;
    let ghost start = memory@;
    let entry: u32 = binary.entry;
    let mut index: usize = 0;
    while index < binary.regions.len()
        invariant
            memory.wf(),
            index <= regions.len(),
            binary.regions@.len() == regions.len(),
            forall|i: int| index <= i < regions.len() ==> binary.regions@[i] == regions[i],
            memory@ == mount_all(start, regions, index as nat),
        decreases regions.len() - index,
    {
        let address: u32 = binary.regions[index].address;
        let mut data: Vec<u8> = Vec::new();
        std::mem::swap(&mut data, &mut binary.regions[index].data);
        memory.mount(Region { start: address, data });
        index = index + 1;
    }
    memory.mount(Region { start: STACK_END - heap_size, data: zeros(heap_size as usize) });
    let mut state = State::new(entry, memory);
    state.registers.line[29] = STACK_END - 4;
    state
}

/// The memory after the bytes of the first `count` entries of a program
/// table are mounted.
pub open spec fn mount_entries(memory: MemoryView, entries: Seq<ProgramHeader>, count: nat) -> MemoryView
    decreases count,
{
    if count == 0 || count > entries.len() {
        memory
    } else {
        mount_entries(memory, entries, (count - 1) as nat).mount(
            entries[count - 1].virtual_address,
            entries[count - 1].data@,
        )
    }
}

/// Mounts the bytes of each entry of the program table of `elf` and a stack
/// of `heap_size` zero bytes that ends at `0x7FFFFFFC`, and makes the machine
/// that starts at the entry of the program. The stack pointer is left at the
/// end of the stack.
pub fn create_elf_state(elf: &Elf, heap_size: u32, memory: Memory) -> (state: State)
    requires
        memory.wf(),
        heap_size <= STACK_END,
    ensures
        state.wf(),
        state@.memory.log == Seq::<(u32, u8)>::empty(),
        state@.memory.backing == mount_entries(
            memory@,
            elf.program_headers@,
            elf.program_headers@.len(),
        ).mount((STACK_END - heap_size) as u32, Seq::new(heap_size as nat, |i: int| 0u8)),
        state.registers.pc == elf.header.program_entry,
        state.registers.hi == 0,
        state.registers.lo == 0,
        forall|i: int| 0 <= i < 32 && i != 29 ==> state.registers.line[i] == 0,
        state.registers.line[29] == STACK_END,
{
    let mut memory = memory;
    let ghost start = memory@;
    let mut index: usize = 0;
    while index < elf.program_headers.len()
        invariant
            memory.wf(),
            index <= elf.program_headers@.len(),
            memory@ == mount_entries(start, elf.program_headers@, index as nat),
        decreases elf.program_headers@.len() - index,
    {
        let entry = &elf.program_headers[index];
        let data = vstd::slice::slice_to_vec(entry.data.as_slice());
        memory.mount(Region { start: entry.virtual_address, data });
        index = index + 1;
    }
    memory.mount(Region { start: STACK_END - heap_size, data: zeros(heap_size as usize) });
    let mut state = State::new(elf.header.program_entry, memory);
    state.registers.line[29] = STACK_END;
    state
}

/// Mounts the framebuffer and points `$gp` to it.
pub fn setup_state(state: &mut State)
    requires
        old(state).wf(),
    ensures
        final(state).wf(),
        final(state)@.memory.log == old(state)@.memory.log,
        final(state)@.memory.backing == old(state)@.memory.backing.mount(
            SCREEN_ADDRESS,
            Seq::new(SCREEN_SIZE as nat, |i: int| 0u8),
        ),
        final(state).registers == old(state).registers.with_line(28, SCREEN_ADDRESS),
{
    state.memory.backing.mount(Region { start: SCREEN_ADDRESS, data: zeros(SCREEN_SIZE) });
    state.registers.line[28] = SCREEN_ADDRESS;
}

/// The memory after the writable pages from selector `first` up to, and
/// without, `end` are mounted.
pub open spec fn mount_pages(memory: MemoryView, first: nat, end: nat) -> MemoryView
    decreases end,
{
    if end <= first {
        memory
    } else {
        mount_pages(memory, first, (end - 1) as nat).mount_writable((end - 1) as u32, WRITABLE_FILL)
    }
}

/// Whether the selectors that `configure_keyboard` mounts are free.
pub open spec fn selectors_free(memory: MemoryView) -> bool {
    &&& memory.selector_free(0xFFFF)
    &&& forall|index: u32| 0x1000 <= index < 0x8000 ==> memory.selector_free(index)
}

/// Mounts a fresh keyboard at selector `0xFFFF`, and writable pages that
/// read as `0xCC` at the selectors `0x1000` to `0x7FFF`.
pub fn configure_keyboard(memory: &mut Memory)
    requires
        old(memory).wf(),
        selectors_free(old(memory)@),
    ensures
        final(memory).wf(),
        final(memory)@ == mount_pages(
            old(memory)@.mount_listen(
                0xFFFF,
                KeyboardView { last: None, keys: Seq::empty(), holding: Seq::new(128, |i: int| false) },
            ),
            0x1000,
            0x8000,
        ),
{
    memory.mount_listen(0xFFFF, KeyboardHandler::new());
    let ghost listening = memory@;
    proof {
        assert forall|other: u32| 0x1000 <= other < 0x8000 implies memory@.selector_free(other) by {
            assert(old(memory)@.selector_free(other));
        }
    }
    let mut index: usize = WRITABLE_FIRST;
    while index < WRITABLE_END
        invariant
            memory.wf(),
            0x1000 <= index <= 0x8000,
            memory@ == mount_pages(listening, 0x1000, index as nat),
            forall|other: u32| index <= other < 0x8000 ==> memory@.selector_free(other),
        decreases 0x8000 - index,
    {
        let ghost before = memory@;
        memory.mount_writable(index, WRITABLE_FILL);
        proof {
            assert forall|other: u32| index + 1 <= other < 0x8000 implies memory@.selector_free(
                other,
            ) by {
                assert(before.selector_free(other));
                assert(crate::memory::selector((other * 0x10000) as u32) == other);
            }
        }
        index = index + 1;
    }
}

} // verus!
