//! The scanners with which the machine reads from standard input.

use vstd::prelude::*;
use crate::alu::wrap;
use crate::channels::{ByteChannelConsumption, ByteScanner};

verus! {

/// Whether a byte is white space: a tab, a line feed, a vertical tab, a form
/// feed, a carriage return, a space, a next-line or a no-break space.
pub open spec fn is_space(byte: u8) -> bool {
    9 <= byte <= 13 || byte == 32 || byte == 0x85 || byte == 0xA0
}

/// The sign that a byte stands for: `+` is positive, `-` is negative.
pub open spec fn sign_of(byte: u8) -> Option<bool> {
    if byte == 43 {
        Some(true)
    } else if byte == 45 {
        Some(false)
    } else {
        None
    }
}

/// The value of a decimal digit.
pub open spec fn digit_value(byte: u8) -> Option<u32> {
    if 48 <= byte <= 57 {
        Some((byte - 48) as u32)
    } else {
        None
    }
}

/// Reads a decimal number: white space, then an optional sign, then digits up
/// to the first byte that is no digit, which is left unread. The value is
/// kept modulo 2^32.
#[derive(Clone, Copy, Debug)]
pub struct IntegerScanner {
    /// The sign, once the first byte after the white space was seen.
    pub positive: Option<bool>,
    /// The value of the digits seen, modulo 2^32.
    pub value: u32,
}

impl IntegerScanner {
    /// The verdict on a byte behind the sign.
    pub open spec fn digit(self, byte: u8) -> (ByteChannelConsumption, IntegerScanner) {
        match digit_value(byte) {
            Some(digit) => (
                ByteChannelConsumption::ConsumeAndContinue,
                IntegerScanner { value: wrap(self.value * 10 + digit), ..self },
            ),
            None => (ByteChannelConsumption::IgnoreAndStop, self),
        }
    }

    /// The number read, as a register value: the digits' value, negated
    /// where the sign was `-`.
    pub open spec fn number(self) -> u32 {
        if self.positive == Some(false) {
            wrap(-(self.value as int))
        } else {
            self.value
        }
    }

    /// A scanner that has seen nothing.
    pub fn new() -> (scanner: IntegerScanner)
        ensures
            scanner == (IntegerScanner { positive: None, value: 0 }),
    {
        IntegerScanner { positive: None, value: 0 }
    }

    /// The number read.
    pub fn finish(&self) -> (number: u32)
        ensures
            number == self.number(),
    {
        match self.positive {
            Some(false) => crate::alu::negate(self.value),
            _ => self.value,
        }
    }

    fn feed_digit(&mut self, byte: u8) -> (verdict: ByteChannelConsumption)
        ensures
            (verdict, *final(self)) == old(self).digit(byte),
    {
        if byte >= 48 && byte <= 57 {
            let digit: u64 = (byte - 48) as u64;
            self.value = ((self.value as u64 * 10 + digit) % 0x1_0000_0000) as u32;
            ByteChannelConsumption::ConsumeAndContinue
        } else {
            ByteChannelConsumption::IgnoreAndStop
        }
    }
}

impl ByteScanner for IntegerScanner {
    open spec fn scan(self, byte: u8) -> (ByteChannelConsumption, IntegerScanner) {
        if self.positive is None {
            if is_space(byte) {
                (ByteChannelConsumption::ConsumeAndContinue, self)
            } else if sign_of(byte) is Some {
                (
                    ByteChannelConsumption::ConsumeAndContinue,
                    IntegerScanner { positive: sign_of(byte), ..self },
                )
            } else {
                (IntegerScanner { positive: Some(true), ..self }).digit(byte)
            }
        } else {
            self.digit(byte)
        }
    }

    fn feed(&mut self, byte: u8) -> (verdict: ByteChannelConsumption) {
        if self.positive.is_none() {
            if (byte >= 9 && byte <= 13) || byte == 32 || byte == 0x85 || byte == 0xA0 {
                return ByteChannelConsumption::ConsumeAndContinue;
            }
            if byte == 43 {
                self.positive = Some(true);
                return ByteChannelConsumption::ConsumeAndContinue;
            }
            if byte == 45 {
                self.positive = Some(false);
                return ByteChannelConsumption::ConsumeAndContinue;
            }
            self.positive = Some(true);
        }
        self.feed_digit(byte)
    }
}

/// Reads a line into a buffer with room for `limit` bytes: up to a line feed,
/// which is taken and not counted, or up to the byte that fills the buffer.
#[derive(Clone, Copy, Debug)]
pub struct LineScanner {
    /// The number of bytes taken into the buffer.
    pub stored: usize,
    /// The room in the buffer.
    pub limit: usize,
}

impl LineScanner {
    /// A scanner for a buffer with room for `limit` bytes.
    pub fn new(limit: usize) -> (scanner: LineScanner)
        ensures
            scanner == (LineScanner { stored: 0, limit }),
    {
        LineScanner { stored: 0, limit }
    }
}

impl ByteScanner for LineScanner {
    open spec fn scan(self, byte: u8) -> (ByteChannelConsumption, LineScanner) {
        if self.stored >= self.limit {
            (ByteChannelConsumption::IgnoreAndStop, self)
        } else if byte == 10 {
            (ByteChannelConsumption::ConsumeAndStop, self)
        } else if self.stored + 1 == self.limit {
            (
                ByteChannelConsumption::ConsumeAndStop,
                LineScanner { stored: (self.stored + 1) as usize, ..self },
            )
        } else {
            (
                ByteChannelConsumption::ConsumeAndContinue,
                LineScanner { stored: (self.stored + 1) as usize, ..self },
            )
        }
    }

    fn feed(&mut self, byte: u8) -> (verdict: ByteChannelConsumption) {
        if self.stored >= self.limit {
            ByteChannelConsumption::IgnoreAndStop
        } else if byte == 10 {
            ByteChannelConsumption::ConsumeAndStop
        } else {
            self.stored = self.stored + 1;
            if self.stored == self.limit {
                ByteChannelConsumption::ConsumeAndStop
            } else {
                ByteChannelConsumption::ConsumeAndContinue
            }
        }
    }
}

/// The bytes of a line as they go into the buffer: without the line feed
/// that ended it.
pub open spec fn line_data(read: Seq<u8>) -> Seq<u8> {
    if read.len() > 0 && read.last() == 10 {
        read.drop_last()
    } else {
        read
    }
}

} // verus!
