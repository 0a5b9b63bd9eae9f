use saturn::error::Error;
use saturn::keyboard::{KeyboardHandler, KeyboardState};
use saturn::memory::Memory;

#[test]
fn pressed_key_shows_in_status_and_data_and_stays_as_last_key() {
    let mut handler = KeyboardHandler::new();
    handler.state.push_key('A', false);
    assert_eq!(handler.read(0xFFFF_0000), Ok(1));
    assert_eq!(handler.read(0xFFFF_0004), Ok(65));
    assert_eq!(handler.read(0xFFFF_0000), Ok(0));
    assert_eq!(handler.read(0xFFFF_0004), Ok(65));
    assert_eq!(handler.read(0xFFFF_0004), Ok(65));
}

#[test]
fn data_word_reads_zero_before_any_key() {
    let mut handler = KeyboardHandler::new();
    assert_eq!(handler.read(0xFFFF_0000), Ok(0));
    assert_eq!(handler.read(0xFFFF_0004), Ok(0));
}

#[test]
fn keys_are_read_in_the_order_in_which_they_were_pressed() {
    let mut state = KeyboardState::new();
    state.push_key('a', false);
    state.push_key('b', false);
    assert!(state.has_key());
    assert_eq!(state.pop_key(), Some('a'));
    assert_eq!(state.pop_key(), Some('b'));
    assert!(!state.has_key());
    assert_eq!(state.pop_key(), Some('b'));
    state.push_key('c', false);
    state.push_key('d', true);
    state.push_key('e', false);
    assert_eq!(state.pop_key(), Some('c'));
    assert_eq!(state.pop_key(), Some('e'));
    assert_eq!(state.pop_key(), Some('e'));
}

#[test]
fn data_word_hands_keys_out_in_arrival_order() {
    let mut handler = KeyboardHandler::new();
    handler.state.push_key('x', false);
    handler.state.push_key('y', false);
    assert_eq!(handler.read(0xFFFF_0004), Ok('x' as u8));
    assert_eq!(handler.read(0xFFFF_0000), Ok(1));
    assert_eq!(handler.read(0xFFFF_0004), Ok('y' as u8));
    assert_eq!(handler.read(0xFFFF_0000), Ok(0));
    assert_eq!(handler.read(0xFFFF_0004), Ok('y' as u8));
}

#[test]
fn release_updates_the_hold_map_and_queues_nothing() {
    let mut handler = KeyboardHandler::new();
    handler.state.push_key('w', false);
    assert_eq!(handler.read(0xFFFF_0080 + 'w' as u32), Ok(1));
    assert_eq!(handler.read(0xFFFF_0080 + 'x' as u32), Ok(0));
    handler.state.push_key('w', true);
    assert_eq!(handler.read(0xFFFF_0080 + 'w' as u32), Ok(0));
    assert_eq!(handler.read(0xFFFF_0000), Ok(1));
    assert_eq!(handler.read(0xFFFF_0004), Ok('w' as u8));
    assert_eq!(handler.read(0xFFFF_0000), Ok(0));
}

#[test]
fn key_beyond_the_hold_map_is_queued_and_shows_its_low_byte() {
    let mut handler = KeyboardHandler::new();
    handler.state.push_key('\u{20AC}', false);
    assert_eq!(handler.read(0xFFFF_0000), Ok(1));
    assert_eq!(handler.read(0xFFFF_0004), Ok(0xAC));
    assert!(!handler.state.is_holding(0x2C));
}

#[test]
fn bytes_beside_the_registers_read_zero() {
    let mut handler = KeyboardHandler::new();
    handler.state.push_key('A', false);
    assert_eq!(handler.read(0xFFFF_0001), Ok(0));
    assert_eq!(handler.read(0xFFFF_0003), Ok(0));
    assert_eq!(handler.read(0xFFFF_0005), Ok(0));
    assert_eq!(handler.read(0xFFFF_0007), Ok(0));
    assert_eq!(handler.read(0xFFFF_0000), Ok(1));
}

#[test]
fn addresses_outside_the_registers_are_unmapped() {
    let mut handler = KeyboardHandler::new();
    assert_eq!(handler.read(0xFFFF_0008), Err(Error::MemoryUnmapped(0xFFFF_0008)));
    assert_eq!(handler.read(0xFFFF_007F), Err(Error::MemoryUnmapped(0xFFFF_007F)));
    assert_eq!(handler.read(0xFFFF_0100), Err(Error::MemoryUnmapped(0xFFFF_0100)));
    assert_eq!(handler.read(0xFFFE_FFFF), Err(Error::MemoryUnmapped(0xFFFE_FFFF)));
    assert_eq!(handler.read(0xFFFF_00FF), Ok(0));
}

#[test]
fn every_write_to_the_keyboard_fails() {
    let mut handler = KeyboardHandler::new();
    assert_eq!(handler.write(0xFFFF_0000, 1), Err(Error::MemoryUnmapped(0xFFFF_0000)));
    assert_eq!(handler.write(0xFFFF_0004, 1), Err(Error::MemoryUnmapped(0xFFFF_0004)));
    assert_eq!(handler.write(0xFFFF_0080, 1), Err(Error::MemoryUnmapped(0xFFFF_0080)));
}

#[test]
fn key_posted_to_memory_is_read_through_the_listener() {
    let mut memory: Memory = Memory::new();
    memory.mount_listen(0xFFFF, KeyboardHandler::new());
    memory.push_key('A', false);
    assert_eq!(memory.get_u32(0xFFFF_0000), Ok(1));
    assert_eq!(memory.get(0xFFFF_0004), Ok(65));
    assert_eq!(memory.get_u32(0xFFFF_0000), Ok(0));
    assert_eq!(memory.get_u32(0xFFFF_0004), Ok(65));
    assert_eq!(memory.get(0xFFFF_0080 + 65), Ok(1));
}
