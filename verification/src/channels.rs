//! The byte channel behind standard input.
//!
//! The host sends text; the machine reads bytes. A read takes either all it
//! asks for or nothing: where the bytes that wait do not suffice, the read
//! returns `None`, the bytes stay for the next attempt, and the caller tries
//! again once more input has arrived.

use vstd::prelude::*;
use std::collections::VecDeque;

verus! {

/// What a scanner says of one byte.
#[derive(Clone, Copy, Debug, PartialEq, Eq, Structural)]
pub enum ByteChannelConsumption {
    /// Take the byte and go on.
    ConsumeAndContinue,
    /// Take the byte and stop.
    ConsumeAndStop,
    /// Leave the byte for the next read and stop.
    IgnoreAndStop,
}

impl ByteChannelConsumption {
    /// Whether the byte is taken.
    pub open spec fn consumes(self) -> bool {
        self != ByteChannelConsumption::IgnoreAndStop
    }

    /// Whether the read ends.
    pub open spec fn stops(self) -> bool {
        self != ByteChannelConsumption::ConsumeAndContinue
    }

    /// Whether the byte is taken.
    pub fn do_consume(&self) -> (taken: bool)
        ensures
            taken == self.consumes(),
    {
        match self {
            ByteChannelConsumption::ConsumeAndContinue => true,
            ByteChannelConsumption::ConsumeAndStop => true,
            _ => false,
        }
    }

    /// Whether the read ends.
    pub fn do_stop(&self) -> (ends: bool)
        ensures
            ends == self.stops(),
    {
        match self {
            ByteChannelConsumption::ConsumeAndStop => true,
            ByteChannelConsumption::IgnoreAndStop => true,
            _ => false,
        }
    }
}

/// A reader's rule for where a read ends: it is shown the waiting bytes one
/// by one and may remember what it saw.
pub trait ByteScanner: Sized {
    /// The verdict on `byte`, and the scanner after it.
    spec fn scan(self, byte: u8) -> (ByteChannelConsumption, Self);

    /// Shows the scanner one byte.
    fn feed(&mut self, byte: u8) -> (verdict: ByteChannelConsumption)
        ensures
            (verdict, *final(self)) == old(self).scan(byte),
    ;
}

/// Where a scan over `bytes` from index `from` ends: the number of bytes
/// taken and the scanner at the end, or `None` with the scanner reached where
/// the bytes run out first.
pub open spec fn scan_until<S: ByteScanner>(scanner: S, bytes: Seq<u8>, from: int) -> (
    Option<int>,
    S,
)
    decreases bytes.len() - from,
{
    if from < 0 || from >= bytes.len() {
        (None, scanner)
    } else if scanner.scan(bytes[from]).0.stops() {
        (
            Some(
                if scanner.scan(bytes[from]).0.consumes() {
                    from + 1
                } else {
                    from
                },
            ),
            scanner.scan(bytes[from]).1,
        )
    } else {
        scan_until(scanner.scan(bytes[from]).1, bytes, from + 1)
    }
}

/// The bytes that were sent and not read yet.
pub struct ByteChannel {
    buffer: VecDeque<u8>,
}

impl View for ByteChannel {
    type V = Seq<u8>;

    closed spec fn view(&self) -> Seq<u8> {
        self.buffer@
    }
}

impl ByteChannel {
    /// A channel with no byte waiting.
    pub fn new() -> (channel: ByteChannel)
        ensures
            channel@ == Seq::<u8>::empty(),
    {
        ByteChannel { buffer: VecDeque::new() }
    }

    /// The number of bytes that wait.
    pub fn len(&self) -> (count: usize)
        ensures
            count == self@.len(),
    {
        self.buffer.len()
    }

    /// Puts `data` behind the bytes that wait.
    pub fn send(&mut self, data: Vec<u8>)
        ensures
            final(self)@ == old(self)@ + data@,
    {
        let mut index: usize = 0;
        while index < data.len()
            invariant
                index <= data@.len(),
                self@ == old(self)@ + data@.take(index as int),
            decreases data@.len() - index,
        {
            self.buffer.push_back(data[index]);
            index = index + 1;
            assert(self@ =~= old(self)@ + data@.take(index as int));
        }
        assert(data@.take(index as int) =~= data@);
    }

    /// Takes the first `count` bytes out.
    fn take(&mut self, count: usize) -> (bytes: Vec<u8>)
        requires
            count <= old(self)@.len(),
        ensures
            bytes@ == old(self)@.take(count as int),
            final(self)@ == old(self)@.skip(count as int),
    {
        let mut bytes: Vec<u8> = Vec::new();
        while bytes.len() < count
            invariant
                bytes@.len() <= count <= old(self)@.len(),
                bytes@ == old(self)@.take(bytes@.len() as int),
                self@ == old(self)@.skip(bytes@.len() as int),
            decreases count - bytes@.len(),
        {
            let ghost taken = bytes@.len() as int;
            match self.buffer.pop_front() {
                Some(byte) => {
                    bytes.push(byte);
                    assert(bytes@ =~= old(self)@.take(taken + 1));
                    assert(self@ =~= old(self)@.skip(taken + 1));
                },
                None => {
                    assert(false);
                },
            }
        }
        bytes
    }

    /// Reads `count` bytes, or nothing where fewer wait.
    pub fn read(&mut self, count: usize) -> (bytes: Option<Vec<u8>>)
        ensures
            match bytes {
                Some(read) => count <= old(self)@.len() && read@ == old(self)@.take(count as int)
                    && final(self)@ == old(self)@.skip(count as int),
                None => count > old(self)@.len() && final(self)@ == old(self)@,
            },
    {
        if count <= self.buffer.len() {
            Some(self.take(count))
        } else {
            None
        }
    }

    /// Reads up to where `scanner` stops, or nothing where the bytes that
    /// wait run out before it stops. Either way the scanner is left as the
    /// scan left it.
    pub fn read_until<S: ByteScanner>(&mut self, scanner: &mut S) -> (bytes: Option<Vec<u8>>)
        ensures
            *final(scanner) == scan_until(*old(scanner), old(self)@, 0).1,
            match scan_until(*old(scanner), old(self)@, 0).0 {
                Some(end) => bytes matches Some(read) && 0 <= end <= old(self)@.len() && read@
                    == old(self)@.take(end) && final(self)@ == old(self)@.skip(end),
                None => bytes is None && final(self)@ == old(self)@,
            },
    {
        let mut index: usize = 0;
        while index < self.buffer.len()
            invariant
                index <= self@.len(),
                self@ == old(self)@,
                scan_until(*old(scanner), old(self)@, 0) == scan_until(
                    *scanner,
                    old(self)@,
                    index as int,
                ),
            decreases self@.len() - index,
        {
            let verdict = scanner.feed(self.buffer[index]);
            if verdict.do_stop() {
                let end: usize = if verdict.do_consume() {
                    index + 1
                } else {
                    index
                };
                return Some(self.take(end));
            }
            index = index + 1;
        }
        None
    }
}

} // verus!
