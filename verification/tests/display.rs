use saturn::cpu::State;
use saturn::display::{read_display, FlushDisplayState};
use saturn::memory::{Memory, Region};

fn display_memory(word: u32, words: usize) -> Memory {
    let mut data = Vec::new();
    for _ in 0..words {
        data.extend_from_slice(&word.to_le_bytes());
    }
    let mut memory: Memory = Memory::new();
    memory.mount(Region { start: 0x1000_8000, data });
    memory
}

#[test]
fn uniform_display_shows_red_green_blue_and_full_alpha() {
    let mut memory = display_memory(0xAABB_CCDD, 64);
    let pixels = read_display(0x1000_8000, 4, 3, &mut memory).unwrap();
    assert_eq!(pixels.len(), 48);
    for pixel in pixels.chunks(4) {
        assert_eq!(pixel, &[0xBB, 0xCC, 0xDD, 0xFF]);
    }
    let pixels = read_display(0x1000_8000, 8, 8, &mut memory).unwrap();
    assert_eq!(pixels.len(), 256);
    for pixel in pixels.chunks(4) {
        assert_eq!(pixel, &[0xBB, 0xCC, 0xDD, 0xFF]);
    }
    let pixels = read_display(0x1000_8004, 1, 1, &mut memory).unwrap();
    assert_eq!(pixels, vec![0xBB, 0xCC, 0xDD, 0xFF]);
}

#[test]
fn display_pixels_come_in_address_order() {
    let mut memory: Memory = Memory::new();
    let mut data = Vec::new();
    data.extend_from_slice(&0x0011_2233u32.to_le_bytes());
    data.extend_from_slice(&0xFF44_5566u32.to_le_bytes());
    memory.mount(Region { start: 0x100, data });
    assert_eq!(
        read_display(0x100, 2, 1, &mut memory),
        Some(vec![0x11, 0x22, 0x33, 0xFF, 0x44, 0x55, 0x66, 0xFF])
    );
    assert_eq!(
        read_display(0x100, 1, 2, &mut memory),
        Some(vec![0x11, 0x22, 0x33, 0xFF, 0x44, 0x55, 0x66, 0xFF])
    );
}

#[test]
fn empty_display_shows_no_bytes() {
    let mut memory: Memory = Memory::new();
    assert_eq!(read_display(0x100, 0, 5, &mut memory), Some(vec![]));
    assert_eq!(read_display(0x101, 7, 0, &mut memory), Some(vec![]));
}

#[test]
fn display_fails_on_overflow_and_on_any_failed_read() {
    let mut memory = display_memory(0, 4);
    assert_eq!(read_display(0x1000_8000, 0x1_0000, 0x1_0000, &mut memory), None);
    assert_eq!(read_display(0x1000_8000, 5, 1, &mut memory), None);
    assert_eq!(read_display(0x1000_8002, 1, 1, &mut memory), None);
    assert_eq!(read_display(0x2000_0000, 1, 1, &mut memory), None);
    assert!(read_display(0x1000_8000, 2, 2, &mut memory).is_some());
}

#[test]
fn display_wraps_at_the_end_of_the_address_space() {
    let mut memory: Memory = Memory::new();
    memory.mount(Region { start: 0xFFFF_FFFC, data: vec![1, 2, 3, 4] });
    memory.mount(Region { start: 0, data: vec![5, 6, 7, 8] });
    assert_eq!(
        read_display(0xFFFF_FFFC, 2, 1, &mut memory),
        Some(vec![3, 2, 1, 0xFF, 7, 6, 5, 0xFF])
    );
}

#[test]
fn flush_reads_from_the_address_or_from_the_register() {
    let mut state = State::new(0, display_memory(0x0001_0203, 16));
    let mut display = FlushDisplayState { address: 0x1000_8000, register: None, width: 2, height: 1, data: None };
    display.flush(&mut state);
    assert_eq!(display.data, Some(vec![1, 2, 3, 0xFF, 1, 2, 3, 0xFF]));
    state.registers.line[28] = 0x2000_0000;
    display.register = Some(28);
    display.flush(&mut state);
    assert_eq!(display.data, None);
    state.registers.line[28] = 0x1000_8008;
    display.width = 1;
    display.flush(&mut state);
    assert_eq!(display.data, Some(vec![1, 2, 3, 0xFF]));
    display.register = Some(32);
    display.address = 0x1000_8001;
    display.flush(&mut state);
    assert_eq!(display.data, None);
}

#[test]
fn default_display_is_sixty_four_pixels_square_at_the_framebuffer() {
    let display = FlushDisplayState::default();
    assert_eq!(display.address, 0x1000_8000);
    assert_eq!(display.register, None);
    assert_eq!(display.width, 64);
    assert_eq!(display.height, 64);
    assert_eq!(display.data, None);
}
