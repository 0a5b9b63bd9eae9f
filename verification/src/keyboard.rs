//! The memory-mapped keyboard.
//!
//! The device answers every access to the selector `0xFFFF`. The status word at
//! `0xFFFF0000` tells whether a key is waiting, the data word at `0xFFFF0004`
//! hands the waiting key out, and the 128 bytes from `0xFFFF0080` tell which
//! keys are held down.

use vstd::prelude::*;
use crate::error::Error;
use crate::memory::ListenResponder;

verus! {

/// Address of the status word.
pub const KEYBOARD_ADDRESS: u32 = 0xFFFF0000;

/// Address of the first byte of the hold map.
pub const KEYBOARD_HOLDING: u32 = 0xFFFF0080;

/// The selector that the keyboard is mounted at.
pub const KEYBOARD_SELECTOR: u32 = 0xFFFF;

/// The number of key codes that the hold map covers.
pub const KEYBOARD_KEYS: usize = 128;

/// What a keyboard holds, as mathematical values.
pub struct KeyboardView {
    /// The key that the data word handed out last.
    pub last: Option<char>,
    /// The keys that were pressed and not read yet, in the order in which
    /// they were pressed.
    pub keys: Seq<char>,
    /// For each key code below 128, whether that key is down.
    pub holding: Seq<bool>,
}

/// The low eight bits of a key's code: what the data word shows of it.
pub open spec fn key_byte(key: char) -> u8 {
    (key as u32 % 256) as u8
}

impl KeyboardView {
    /// The keyboard after the host reports `key` as released (`up`) or pressed.
    pub open spec fn push_key(self, key: char, up: bool) -> KeyboardView {
        KeyboardView {
            last: self.last,
            keys: if up { self.keys } else { self.keys.push(key) },
            holding: if (key as u32) < 128 {
                self.holding.update(key as u32 as int, !up)
            } else {
                self.holding
            },
        }
    }

    /// The key that a read of the data word shows, and the keyboard after it.
    /// The keys leave in the order in which they were pressed; with none
    /// waiting, the key handed out before is shown again.
    pub open spec fn pop_key(self) -> (Option<char>, KeyboardView) {
        if self.keys.len() > 0 {
            (
                Some(self.keys.first()),
                KeyboardView {
                    last: Some(self.keys.first()),
                    keys: self.keys.skip(1),
                    holding: self.holding,
                },
            )
        } else {
            (self.last, self)
        }
    }

    /// The byte that a read at `address` returns, and the keyboard after it.
    pub open spec fn read(self, address: u32) -> (Result<u8, Error>, KeyboardView) {
        if KEYBOARD_ADDRESS <= address < KEYBOARD_ADDRESS + 8 {
            if address == KEYBOARD_ADDRESS {
                (Ok(if self.keys.len() == 0 { 0u8 } else { 1u8 }), self)
            } else if address == KEYBOARD_ADDRESS + 4 {
                (
                    Ok(
                        match self.pop_key().0 {
                            Some(key) => key_byte(key),
                            None => 0u8,
                        },
                    ),
                    self.pop_key().1,
                )
            } else {
                (Ok(0u8), self)
            }
        } else if KEYBOARD_HOLDING <= address < KEYBOARD_HOLDING + 128 {
            (Ok(if self.holding[address - KEYBOARD_HOLDING] { 1u8 } else { 0u8 }), self)
        } else {
            (Err(Error::MemoryUnmapped(address)), self)
        }
    }
}

/// The keys that wait to be read, the key read last, and the hold map.
pub struct KeyboardState {
    last: Option<char>,
    keys: Vec<char>,
    holding: [bool; 128],
}

impl View for KeyboardState {
    type V = KeyboardView;

    closed spec fn view(&self) -> KeyboardView {
        KeyboardView { last: self.last, keys: self.keys@, holding: self.holding@ }
    }
}

impl KeyboardState {
    /// A keyboard with no key waiting, none read and none held.
    pub fn new() -> (state: KeyboardState)
        ensures
            state@.last == None::<char>,
            state@.keys == Seq::<char>::empty(),
            state@.holding == Seq::new(128, |i: int| false),
    {
        let state = KeyboardState { last: None, keys: Vec::new(), holding: [false; 128] };
        assert(state.holding@ =~= Seq::new(128, |i: int| false));
        state
    }

    /// The hold map of every keyboard has 128 entries.
    pub proof fn lemma_hold_map_length(&self)
        ensures
            self@.holding.len() == 128,
    {
    }

    /// Takes a key event from the host. A press joins the waiting keys behind
    /// those that wait already; press and release both update the hold map
    /// where the key's code is below 128.
    pub fn push_key(&mut self, key: char, up: bool)
        ensures
            final(self)@ == old(self)@.push_key(key, up),
            old(self)@.holding.len() == 128,
            final(self)@.holding.len() == 128,
            (key as u32) < 128 ==> final(self)@.holding[key as u32 as int] == !up,
    {
        if !up {
            self.keys.push(key);
        }
        let offset: u32 = key as u32;
        if offset < 128 {
            self.holding[offset as usize] = !up;
        }
    }

    /// Hands out the key that has waited longest and remembers it; with no
    /// key waiting, hands out the remembered key again.
    pub fn pop_key(&mut self) -> (key: Option<char>)
        ensures
            key == old(self)@.pop_key().0,
            final(self)@ == old(self)@.pop_key().1,
    {
        if self.keys.len() > 0 {
            let value: char = self.keys.remove(0);
            assert(self.keys@ =~= old(self).keys@.skip(1));
            self.last = Some(value);
        }
        self.last
    }

    /// Whether a key waits to be read.
    pub fn has_key(&self) -> (waiting: bool)
        ensures
            waiting == (self@.keys.len() > 0),
    {
        self.keys.len() > 0
    }

    /// Whether the key with code `code` is down.
    pub fn is_holding(&self, code: usize) -> (down: bool)
        requires
            code < 128,
        ensures
            down == self@.holding[code as int],
    {
        self.holding[code]
    }
}

/// The keyboard as a memory listener.
pub struct KeyboardHandler {
    /// The keyboard that the listener answers for.
    pub state: KeyboardState,
}

impl View for KeyboardHandler {
    type V = KeyboardView;

    open spec fn view(&self) -> KeyboardView {
        self.state@
    }
}

impl ListenResponder for KeyboardHandler {
    open spec fn reads(state: KeyboardView, address: u32) -> (Result<u8, Error>, KeyboardView) {
        state.read(address)
    }

    /// The keyboard refuses every write and stays as it is.
    open spec fn writes(state: KeyboardView, address: u32, value: u8) -> (
        Result<(), Error>,
        KeyboardView,
    ) {
        (Err(Error::MemoryUnmapped(address)), state)
    }

    fn read(&mut self, address: u32) -> (result: Result<u8, Error>) {
        KeyboardHandler::read(self, address)
    }

    fn write(&mut self, address: u32, value: u8) -> (result: Result<(), Error>) {
        KeyboardHandler::write(self, address, value)
    }
}

impl KeyboardHandler {
    /// A listener over a fresh keyboard.
    pub fn new() -> (handler: KeyboardHandler)
        ensures
            handler.state@.last == None::<char>,
            handler.state@.keys == Seq::<char>::empty(),
            handler.state@.holding == Seq::new(128, |i: int| false),
    {
        KeyboardHandler { state: KeyboardState::new() }
    }

    /// Answers a byte read at `address`. Reading the data word consumes a key.
    pub fn read(&mut self, address: u32) -> (result: Result<u8, Error>)
        ensures
            result == old(self).state@.read(address).0,
            final(self).state@ == old(self).state@.read(address).1,
    {
        if address >= KEYBOARD_ADDRESS && address - KEYBOARD_ADDRESS < 8 {
            let offset: u32 = address - KEYBOARD_ADDRESS;
            if offset == 0 {
                Ok(if self.state.has_key() { 1 } else { 0 })
            } else if offset == 4 {
                match self.state.pop_key() {
                    Some(key) => Ok((key as u32 % 256) as u8),
                    None => Ok(0),
                }
            } else {
                Ok(0)
            }
        } else if address >= KEYBOARD_HOLDING && address - KEYBOARD_HOLDING < 128 {
            let offset: usize = (address - KEYBOARD_HOLDING) as usize;
            Ok(if self.state.is_holding(offset) { 1 } else { 0 })
        } else {
            Err(Error::MemoryUnmapped(address))
        }
    }

    /// Refuses every write: the keyboard has no writable register.
    pub fn write(&mut self, address: u32, value: u8) -> (result: Result<(), Error>)
        ensures
            result == Err::<(), Error>(Error::MemoryUnmapped(address)),
            final(self).state@ == old(self).state@,
    {
        Err(Error::MemoryUnmapped(address))
    }
}

/// A key pressed on a keyboard with no key waiting shows once in the status
/// word and stays in the data word: the status reads 1, the data word reads
/// the key, the status then reads 0, and the data word reads the key again.
pub proof fn lemma_pressed_key_is_read_once(keyboard: KeyboardView, key: char)
    requires
        keyboard.keys.len() == 0,
    ensures
        ({
            let pressed = keyboard.push_key(key, false);
            let status = pressed.read(KEYBOARD_ADDRESS);
            let data = status.1.read((KEYBOARD_ADDRESS + 4) as u32);
            let status_again = data.1.read(KEYBOARD_ADDRESS);
            let data_again = status_again.1.read((KEYBOARD_ADDRESS + 4) as u32);
            &&& status.0 == Ok::<u8, Error>(1)
            &&& data.0 == Ok::<u8, Error>(key_byte(key))
            &&& status_again.0 == Ok::<u8, Error>(0)
            &&& data_again.0 == Ok::<u8, Error>(key_byte(key))
            &&& data_again.1 == data.1
        }),
{
    let pressed = keyboard.push_key(key, false);
    assert(pressed.keys =~= seq![key]);
    assert(pressed.keys.skip(1) =~= Seq::<char>::empty());
}

/// Keys are read in the order in which they were pressed. A key pressed
/// while others wait changes nothing about the next read, and waits behind
/// them afterwards: pressing and then reading leaves the keyboard that
/// reading and then pressing leaves. A key pressed while none waits is the
/// next that is read.
pub proof fn lemma_keys_leave_in_order(keyboard: KeyboardView, key: char)
    ensures
        keyboard.keys.len() > 0 ==> keyboard.push_key(key, false).pop_key().0
            == keyboard.pop_key().0,
        keyboard.keys.len() > 0 ==> keyboard.push_key(key, false).pop_key().1
            == keyboard.pop_key().1.push_key(key, false),
        keyboard.keys.len() == 0 ==> keyboard.push_key(key, false).pop_key().0 == Some(key),
        keyboard.keys.len() == 0 ==> keyboard.push_key(key, false).pop_key().1.keys.len() == 0,
{
    let pressed = keyboard.push_key(key, false);
    if keyboard.keys.len() > 0 {
        assert(pressed.keys.first() == keyboard.keys.first());
        assert(pressed.keys.skip(1) =~= keyboard.keys.skip(1).push(key));
    } else {
        assert(pressed.keys.first() == key);
    }
}

} // verus!
