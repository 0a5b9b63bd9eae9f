use saturn::error::Error;
use saturn::keyboard::KeyboardHandler;
use saturn::memory::{ListenResponder, Memory, Region};
use vstd::view::View;

fn memory_with_region() -> Memory {
    let mut memory: Memory = Memory::new();
    memory.mount(Region { start: 0x0040_0000, data: vec![0; 64] });
    memory
}

#[test]
fn word_round_trip_in_a_region() {
    let mut memory = memory_with_region();
    assert_eq!(memory.set_u32(0x0040_0010, 0xAABB_CCDD), Ok(()));
    assert_eq!(memory.get_u32(0x0040_0010), Ok(0xAABB_CCDD));
    assert_eq!(memory.get(0x0040_0010), Ok(0xDD));
    assert_eq!(memory.get(0x0040_0011), Ok(0xCC));
    assert_eq!(memory.get(0x0040_0012), Ok(0xBB));
    assert_eq!(memory.get(0x0040_0013), Ok(0xAA));
    assert_eq!(memory.get_u16(0x0040_0010), Ok(0xCCDD));
    assert_eq!(memory.get_u16(0x0040_0012), Ok(0xAABB));
}

#[test]
fn half_word_and_byte_round_trip() {
    let mut memory = memory_with_region();
    assert_eq!(memory.set_u16(0x0040_0002, 0xBEEF), Ok(()));
    assert_eq!(memory.get_u16(0x0040_0002), Ok(0xBEEF));
    assert_eq!(memory.set(0x0040_0005, 0x7F), Ok(()));
    assert_eq!(memory.get(0x0040_0005), Ok(0x7F));
    assert_eq!(memory.get_u32(0x0040_0000), Ok(0xBEEF_0000));
    assert_eq!(memory.get_u32(0x0040_0004), Ok(0x0000_7F00));
}

#[test]
fn misaligned_access_fails_with_the_address() {
    let mut memory: Memory = Memory::new();
    memory.mount(Region { start: 0x0040_0000, data: vec![7; 64] });
    assert_eq!(memory.get_u16(0x0040_0001), Err(Error::MemoryAlign(0x0040_0001)));
    assert_eq!(memory.get_u32(0x0040_0002), Err(Error::MemoryAlign(0x0040_0002)));
    assert_eq!(memory.set_u16(0x0040_0003, 1), Err(Error::MemoryAlign(0x0040_0003)));
    assert_eq!(memory.set_u32(0x0040_0002, 1), Err(Error::MemoryAlign(0x0040_0002)));
    assert_eq!(memory.get_u32(0x0040_0000), Ok(0x0707_0707));
    assert_eq!(memory.get_u32(0x0040_0004), Ok(0x0707_0707));
}

#[test]
fn misaligned_access_to_unmapped_memory_reports_alignment() {
    let mut memory: Memory = Memory::new();
    assert_eq!(memory.get_u32(0x1234_5671), Err(Error::MemoryAlign(0x1234_5671)));
    assert_eq!(memory.get_u16(0x1234_5671), Err(Error::MemoryAlign(0x1234_5671)));
}

#[test]
fn unmapped_access_fails_with_the_address() {
    let mut memory = memory_with_region();
    assert_eq!(memory.get(0x0030_0000), Err(Error::MemoryUnmapped(0x0030_0000)));
    assert_eq!(memory.set(0x0030_0000, 1), Err(Error::MemoryUnmapped(0x0030_0000)));
    assert_eq!(memory.get(0x0040_0040), Err(Error::MemoryUnmapped(0x0040_0040)));
    assert_eq!(memory.get(0x003F_FFFF), Err(Error::MemoryUnmapped(0x003F_FFFF)));
    assert_eq!(memory.get_u32(0x0040_0040), Err(Error::MemoryUnmapped(0x0040_0040)));
}

#[test]
fn word_across_the_end_of_a_region_fails_at_the_first_missing_byte() {
    let mut memory: Memory = Memory::new();
    memory.mount(Region { start: 0x0040_0000, data: vec![1, 2, 3, 4, 5, 6] });
    assert_eq!(memory.get_u32(0x0040_0004), Err(Error::MemoryUnmapped(0x0040_0006)));
    assert_eq!(memory.set_u32(0x0040_0004, 0xFFFF_FFFF), Err(Error::MemoryUnmapped(0x0040_0006)));
    assert_eq!(memory.get(0x0040_0004), Ok(5));
    assert_eq!(memory.get(0x0040_0005), Ok(6));
    assert_eq!(memory.set_u16(0x0040_0006, 9), Err(Error::MemoryUnmapped(0x0040_0006)));
}

#[test]
fn the_region_mounted_first_answers_where_regions_overlap() {
    let mut memory: Memory = Memory::new();
    memory.mount(Region { start: 0x100, data: vec![1; 8] });
    memory.mount(Region { start: 0x104, data: vec![2; 8] });
    assert_eq!(memory.get(0x103), Ok(1));
    assert_eq!(memory.get(0x104), Ok(1));
    assert_eq!(memory.get(0x107), Ok(1));
    assert_eq!(memory.get(0x108), Ok(2));
    assert_eq!(memory.set(0x105, 9), Ok(()));
    assert_eq!(memory.get(0x105), Ok(9));
    assert_eq!(memory.get(0x10B), Ok(2));
    assert_eq!(memory.get(0x10C), Err(Error::MemoryUnmapped(0x10C)));
}

#[test]
fn writable_page_reads_its_fill_byte_until_written() {
    let mut memory: Memory = Memory::new();
    memory.mount_writable(0x1000, 0xCC);
    assert_eq!(memory.get(0x1000_0000), Ok(0xCC));
    assert_eq!(memory.get_u32(0x1000_FFFC), Ok(0xCCCC_CCCC));
    assert_eq!(memory.get(0x1001_0000), Err(Error::MemoryUnmapped(0x1001_0000)));
    assert_eq!(memory.set_u32(0x1000_0100, 0x0102_0304), Ok(()));
    assert_eq!(memory.get_u32(0x1000_0100), Ok(0x0102_0304));
    assert_eq!(memory.get(0x1000_0104), Ok(0xCC));
    assert_eq!(memory.get(0x1000_00FF), Ok(0xCC));
}

#[test]
fn a_region_answers_before_the_page_of_its_selector() {
    let mut memory: Memory = Memory::new();
    memory.mount_writable(0x1000, 0xCC);
    memory.mount(Region { start: 0x1000_8000, data: vec![0; 16] });
    assert_eq!(memory.get(0x1000_8000), Ok(0));
    assert_eq!(memory.get(0x1000_800F), Ok(0));
    assert_eq!(memory.get(0x1000_8010), Ok(0xCC));
    assert_eq!(memory.get(0x1000_7FFF), Ok(0xCC));
}

#[test]
fn is_writable_tells_regions_pages_and_listeners_apart() {
    let mut memory = memory_with_region();
    memory.mount_writable(0x2000, 0);
    memory.mount_listen(0xFFFF, KeyboardHandler::new());
    assert!(memory.is_writable(0x0040_0000));
    assert!(memory.is_writable(0x2000_1234));
    assert!(!memory.is_writable(0xFFFF_0000));
    assert!(!memory.is_writable(0x3000_0000));
}

#[test]
fn region_contains_its_addresses_only() {
    let region = Region { start: 0xFFFF_FFF0, data: vec![0; 16] };
    assert!(region.contains(0xFFFF_FFF0));
    assert!(region.contains(0xFFFF_FFFF));
    assert!(!region.contains(0xFFFF_FFEF));
    assert!(!region.contains(0));
    let empty = Region { start: 4, data: vec![] };
    assert!(!empty.contains(4));
}

#[test]
fn listener_selector_answers_reads_and_refuses_writes() {
    let mut memory: Memory = Memory::new();
    memory.mount_listen(0xFFFF, KeyboardHandler::new());
    assert_eq!(memory.get(0xFFFF_0000), Ok(0));
    assert_eq!(memory.get_u32(0xFFFF_0000), Ok(0));
    assert_eq!(memory.set(0xFFFF_0000, 1), Err(Error::MemoryUnmapped(0xFFFF_0000)));
    assert_eq!(memory.set_u32(0xFFFF_0004, 1), Err(Error::MemoryUnmapped(0xFFFF_0004)));
    assert_eq!(memory.get(0xFFFF_0008), Err(Error::MemoryUnmapped(0xFFFF_0008)));
    assert_eq!(memory.get(0xFFFF_0100), Err(Error::MemoryUnmapped(0xFFFF_0100)));
}

/// A device with four registers that keep what is written to them, and a
/// fifth that counts the reads it answered.
struct Latches {
    base: u32,
    cells: [u8; 4],
    reads: u8,
}

impl Latches {
    fn at(base: u32) -> Latches {
        Latches { base, cells: [0; 4], reads: 0 }
    }
}

impl View for Latches {
    type V = (u32, [u8; 4], u8);

    fn view(&self) -> (u32, [u8; 4], u8) {
        (self.base, self.cells, self.reads)
    }
}

impl ListenResponder for Latches {
    fn reads(state: (u32, [u8; 4], u8), address: u32) -> (Result<u8, Error>, (u32, [u8; 4], u8)) {
        let mut device = Latches { base: state.0, cells: state.1, reads: state.2 };
        let answer = device.read(address);
        (answer, device.view())
    }

    fn writes(
        state: (u32, [u8; 4], u8),
        address: u32,
        value: u8,
    ) -> (Result<(), Error>, (u32, [u8; 4], u8)) {
        let mut device = Latches { base: state.0, cells: state.1, reads: state.2 };
        let answer = device.write(address, value);
        (answer, device.view())
    }

    fn read(&mut self, address: u32) -> Result<u8, Error> {
        let offset = address.wrapping_sub(self.base);
        if offset < 4 {
            self.reads = self.reads.wrapping_add(1);
            Ok(self.cells[offset as usize])
        } else if offset == 4 {
            Ok(self.reads)
        } else {
            Err(Error::MemoryUnmapped(address))
        }
    }

    fn write(&mut self, address: u32, value: u8) -> Result<(), Error> {
        let offset = address.wrapping_sub(self.base);
        if offset < 4 {
            self.cells[offset as usize] = value;
            Ok(())
        } else {
            Err(Error::MemoryUnmapped(address))
        }
    }
}

#[test]
fn any_listener_answers_the_reads_and_writes_of_its_selector() {
    let mut memory: Memory<Latches> = Memory::new();
    memory.mount(Region { start: 0x0040_0000, data: vec![0; 16] });
    memory.mount_listen(0xA000, Latches::at(0xA000_0000));
    assert!(memory.listens(0xA000_0000));
    assert!(memory.listens(0xA000_FFFF));
    assert!(!memory.listens(0x0040_0000));
    assert!(!memory.is_writable(0xA000_0000));
    assert_eq!(memory.set(0xA000_0001, 0x5A), Ok(()));
    assert_eq!(memory.get(0xA000_0001), Ok(0x5A));
    assert_eq!(memory.get(0xA000_0000), Ok(0));
    assert_eq!(memory.get(0xA000_0004), Ok(2));
    assert_eq!(memory.get(0xA000_0005), Err(Error::MemoryUnmapped(0xA000_0005)));
    assert_eq!(memory.set(0xA000_0004, 1), Err(Error::MemoryUnmapped(0xA000_0004)));
    assert_eq!(memory.set(0x0040_0000, 9), Ok(()));
    assert_eq!(memory.get(0x0040_0000), Ok(9));
    assert_eq!(memory.get(0xA000_0004), Ok(2));
}

#[test]
fn words_reach_a_listener_byte_by_byte_in_address_order() {
    let mut memory: Memory<Latches> = Memory::new();
    memory.mount_listen(0xA000, Latches::at(0xA000_0000));
    assert_eq!(memory.set_u32(0xA000_0000, 0x1122_3344), Ok(()));
    assert_eq!(memory.get(0xA000_0000), Ok(0x44));
    assert_eq!(memory.get(0xA000_0003), Ok(0x11));
    assert_eq!(memory.get_u32(0xA000_0000), Ok(0x1122_3344));
    assert_eq!(memory.get_u16(0xA000_0002), Ok(0x1122));
    assert_eq!(memory.get(0xA000_0004), Ok(8));
    assert_eq!(memory.set_u16(0xA000_0002, 0xBEEF), Ok(()));
    assert_eq!(memory.get_u32(0xA000_0000), Ok(0xBEEF_3344));
    assert_eq!(memory.set_u32(0xA000_0002, 1), Err(Error::MemoryAlign(0xA000_0002)));
    assert_eq!(memory.set_u16(0xA000_0004, 0x0102), Err(Error::MemoryUnmapped(0xA000_0004)));
    assert_eq!(memory.get_u32(0xA000_0004), Err(Error::MemoryUnmapped(0xA000_0005)));
}

#[test]
fn a_word_that_a_listener_refuses_midway_keeps_the_bytes_it_took() {
    let mut memory: Memory<Latches> = Memory::new();
    memory.mount_listen(0xA000, Latches::at(0xA000_0002));
    assert_eq!(memory.set_u32(0xA000_0004, 0xAABB_CCDD), Err(Error::MemoryUnmapped(0xA000_0006)));
    assert_eq!(memory.get(0xA000_0004), Ok(0xDD));
    assert_eq!(memory.get(0xA000_0005), Ok(0xCC));
}

#[test]
fn listeners_at_two_selectors_are_kept_apart() {
    let mut memory: Memory<Latches> = Memory::new();
    memory.mount_listen(0xA000, Latches::at(0xA000_0000));
    memory.mount_listen(0xB000, Latches::at(0xB000_0000));
    assert_eq!(memory.set(0xA000_0000, 1), Ok(()));
    assert_eq!(memory.set(0xB000_0000, 2), Ok(()));
    assert_eq!(memory.get(0xA000_0000), Ok(1));
    assert_eq!(memory.get(0xB000_0000), Ok(2));
    assert_eq!(memory.get(0xB000_0000), Ok(2));
    assert_eq!(memory.get(0xA000_0004), Ok(1));
    assert_eq!(memory.get(0xB000_0004), Ok(2));
}

#[test]
fn a_key_posted_without_a_keyboard_is_dropped() {
    let mut memory: Memory = Memory::new();
    memory.mount_writable(0x1000, 0);
    memory.push_key('a', false);
    assert_eq!(memory.get(0xFFFF_0000), Err(Error::MemoryUnmapped(0xFFFF_0000)));
    memory.mount_listen(0xFFFF, KeyboardHandler::new());
    assert_eq!(memory.get(0xFFFF_0000), Ok(0));
}
