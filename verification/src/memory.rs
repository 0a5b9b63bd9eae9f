//! The 32-bit address space of the emulated machine.
//!
//! The top 16 bits of an address are its selector. A selector may be answered
//! by a listener, a device that then owns every address of it: each read and
//! each write of a byte there is the listener's to answer. Elsewhere an
//! address resolves to the first mounted region that covers it; failing that,
//! to the writable page of its selector, which reads as a fill byte until it
//! is written; failing that, the address is unmapped. Half-words and words are
//! little-endian and must be naturally aligned.
//!
//! The address space is generic in the kind of its listeners. The machine of
//! this library mounts the keyboard, which is the kind that `Memory` and
//! `MemoryView` stand for where none is named.

use vstd::prelude::*;
use crate::error::Error;
use crate::keyboard::{KeyboardHandler, KEYBOARD_SELECTOR};

verus! {

/// The number of addresses that share one selector.
pub const PAGE_SIZE: u32 = 0x10000;

/// The number of selectors.
pub const PAGE_COUNT: usize = 0x10000;

/// The selector of an address: its top 16 bits.
pub open spec fn selector(address: u32) -> u32 {
    address / 0x10000
}

/// The value of two bytes, the low byte given first.
pub open spec fn le_u16(b0: u8, b1: u8) -> u16 {
    (b0 as int + 0x100 * b1 as int) as u16
}

/// The value of four bytes, the lowest byte given first.
pub open spec fn le_u32(b0: u8, b1: u8, b2: u8, b3: u8) -> u32 {
    (b0 as int + 0x100 * b1 as int + 0x1_0000 * b2 as int + 0x100_0000 * b3 as int) as u32
}

/// Byte `index` of a value, counted from the lowest.
pub open spec fn byte_of(value: u32, index: nat) -> u8 {
    if index == 0 {
        (value % 0x100) as u8
    } else if index == 1 {
        (value / 0x100 % 0x100) as u8
    } else if index == 2 {
        (value / 0x1_0000 % 0x100) as u8
    } else {
        (value / 0x100_0000 % 0x100) as u8
    }
}

/// A run of bytes mounted at a start address.
pub struct Region {
    /// The address of the first byte.
    pub start: u32,
    /// The bytes.
    pub data: Vec<u8>,
}

impl Region {
    /// Whether `address` lies in the region.
    pub open spec fn covers(&self, address: u32) -> bool {
        self.start <= address && address - self.start < self.data@.len()
    }

    /// Whether `address` lies in the region.
    pub fn contains(&self, address: u32) -> (inside: bool)
        ensures
            inside == self.covers(address),
    {
        self.start <= address && ((address - self.start) as usize) < self.data.len()
    }
}

/// A device that answers the byte accesses to the selectors it is mounted
/// at. What it answers, and what becomes of it, depends on its state and on
/// the access alone.
pub trait ListenResponder: View + Sized {
    /// What a read of the byte at `address` returns from a listener in
    /// `state`, and the state after it.
    spec fn reads(state: Self::V, address: u32) -> (Result<u8, Error>, Self::V);

    /// What a write of `value` at `address` returns from a listener in
    /// `state`, and the state after it.
    spec fn writes(state: Self::V, address: u32, value: u8) -> (Result<(), Error>, Self::V);

    /// Answers a read of the byte at `address`.
    fn read(&mut self, address: u32) -> (result: Result<u8, Error>)
        ensures
            result == Self::reads(old(self)@, address).0,
            final(self)@ == Self::reads(old(self)@, address).1,
    ;

    /// Answers a write of `value` at `address`.
    fn write(&mut self, address: u32, value: u8) -> (result: Result<(), Error>)
        ensures
            result == Self::writes(old(self)@, address, value).0,
            final(self)@ == Self::writes(old(self)@, address, value).1,
    ;
}

/// What one selector is backed by, regions aside.
enum Page<L> {
    Unmapped,
    Fill(u8),
    Data(Vec<u8>),
    Listen(L),
}

/// The index of the first region at or after `from` that covers `address`, or
/// the number of regions where none does.
spec fn find_region(regions: Seq<Region>, address: u32, from: int) -> int
    decreases regions.len() - from,
{
    if from < 0 || from >= regions.len() {
        regions.len() as int
    } else if regions[from].covers(address) {
        from
    } else {
        find_region(regions, address, from + 1)
    }
}

proof fn lemma_find_region_bounds(regions: Seq<Region>, address: u32, from: int)
    requires
        0 <= from <= regions.len(),
    ensures
        from <= find_region(regions, address, from) <= regions.len(),
        find_region(regions, address, from) < regions.len() ==> regions[find_region(
            regions,
            address,
            from,
        )].covers(address),
        forall|j: int| from <= j < find_region(regions, address, from) ==> !regions[j].covers(address),
    decreases regions.len() - from,
{
    if from < regions.len() && !regions[from].covers(address) {
        lemma_find_region_bounds(regions, address, from + 1);
    }
}

/// Two region lists of the same extents resolve every address alike.
proof fn lemma_find_region_same_extents(a: Seq<Region>, b: Seq<Region>, address: u32, from: int)
    requires
        0 <= from <= a.len(),
        a.len() == b.len(),
        forall|j: int| 0 <= j < a.len() ==> a[j].start == b[j].start && a[j].data@.len() == b[j].data@.len(),
    ensures
        find_region(a, address, from) == find_region(b, address, from),
    decreases a.len() - from,
{
    if from < a.len() && !a[from].covers(address) {
        lemma_find_region_same_extents(a, b, address, from + 1);
    }
}

/// A region added at the end is found only where no earlier region covers.
proof fn lemma_find_region_push(regions: Seq<Region>, region: Region, address: u32, from: int)
    requires
        0 <= from <= regions.len(),
    ensures
        find_region(regions.push(region), address, from) == if find_region(regions, address, from)
            < regions.len() {
            find_region(regions, address, from)
        } else if region.covers(address) {
            regions.len() as int
        } else {
            regions.len() as int + 1
        },
    decreases regions.len() - from,
{
    let pushed = regions.push(region);
    if from < regions.len() {
        assert(pushed[from] == regions[from]);
        if !regions[from].covers(address) {
            lemma_find_region_push(regions, region, address, from + 1);
        }
    } else {
        assert(pushed[from] == region);
        if !region.covers(address) {
            assert(find_region(pushed, address, from + 1) == pushed.len());
        }
    }
}

/// The address space as mathematical values.
pub struct MemoryView<L: ListenResponder = KeyboardHandler> {
    /// The bytes of the mounted regions. Where regions overlap, the byte is
    /// that of the region mounted first.
    pub mounted: Map<u32, u8>,
    /// The bytes of the writable pages.
    pub filled: Map<u32, u8>,
    /// The listeners: for each selector that a listener answers, the state
    /// of that listener.
    pub listeners: Map<u32, L::V>,
}

impl<L: ListenResponder> MemoryView<L> {
    /// Whether a listener answers at `address`.
    pub open spec fn listens(self, address: u32) -> bool {
        self.listeners.dom().contains(selector(address))
    }

    /// Whether a byte can be stored at `address` as in plain memory.
    pub open spec fn writable(self, address: u32) -> bool {
        !self.listens(address) && (self.mounted.dom().contains(address)
            || self.filled.dom().contains(address))
    }

    /// Whether nothing but regions is mounted at selector `index`.
    pub open spec fn selector_free(self, index: u32) -> bool {
        !self.listeners.dom().contains(index) && !self.filled.dom().contains(
            (index * 0x10000) as u32,
        )
    }

    /// The plain byte at `address`: that of a region, else that of a page.
    pub open spec fn cell(self, address: u32) -> Option<u8> {
        if self.listens(address) {
            None
        } else if self.mounted.dom().contains(address) {
            Some(self.mounted[address])
        } else if self.filled.dom().contains(address) {
            Some(self.filled[address])
        } else {
            None
        }
    }

    /// The address space with the listener at `index` in `state`.
    pub open spec fn with_listener(self, index: u32, state: L::V) -> MemoryView<L> {
        MemoryView { listeners: self.listeners.insert(index, state), ..self }
    }

    /// The outcome of a byte read, and the address space after it. Only a read
    /// that a listener answers can change anything, and only that listener.
    pub open spec fn get(self, address: u32) -> (Result<u8, Error>, MemoryView<L>) {
        if self.listens(address) {
            let answer = L::reads(self.listeners[selector(address)], address);
            (answer.0, self.with_listener(selector(address), answer.1))
        } else if self.mounted.dom().contains(address) {
            (Ok(self.mounted[address]), self)
        } else if self.filled.dom().contains(address) {
            (Ok(self.filled[address]), self)
        } else {
            (Err(Error::MemoryUnmapped(address)), self)
        }
    }

    /// The outcome of a byte write, and the address space after it. At a
    /// listener's selector the write is the listener's to answer, and changes
    /// that listener alone. Elsewhere a refused write changes nothing.
    pub open spec fn set(self, address: u32, value: u8) -> (Result<(), Error>, MemoryView<L>) {
        if self.listens(address) {
            let answer = L::writes(self.listeners[selector(address)], address, value);
            (answer.0, self.with_listener(selector(address), answer.1))
        } else if self.mounted.dom().contains(address) {
            (Ok(()), MemoryView { mounted: self.mounted.insert(address, value), ..self })
        } else if self.filled.dom().contains(address) {
            (Ok(()), MemoryView { filled: self.filled.insert(address, value), ..self })
        } else {
            (Err(Error::MemoryUnmapped(address)), self)
        }
    }

    /// Continues a run of byte reads: after a failure nothing more is read.
    pub open spec fn then_get(self, bytes: Result<Seq<u8>, Error>, address: u32) -> (
        Result<Seq<u8>, Error>,
        MemoryView<L>,
    ) {
        match bytes {
            Err(error) => (Err(error), self),
            Ok(read) => match self.get(address).0 {
                Ok(byte) => (Ok(read.push(byte)), self.get(address).1),
                Err(error) => (Err(error), self.get(address).1),
            },
        }
    }

    /// The bytes of the half-word at an aligned `address`, read in address order.
    pub open spec fn get_pair(self, address: u32) -> (Result<Seq<u8>, Error>, MemoryView<L>) {
        let first = self.then_get(Ok(Seq::empty()), address);
        first.1.then_get(first.0, (address + 1) as u32)
    }

    /// The bytes of the word at an aligned `address`, read in address order.
    pub open spec fn get_quad(self, address: u32) -> (Result<Seq<u8>, Error>, MemoryView<L>) {
        let half = self.get_pair(address);
        let third = half.1.then_get(half.0, (address + 2) as u32);
        third.1.then_get(third.0, (address + 3) as u32)
    }

    /// The outcome of a half-word read, and the address space after it.
    pub open spec fn get_u16(self, address: u32) -> (Result<u16, Error>, MemoryView<L>) {
        if address % 2 != 0 {
            (Err(Error::MemoryAlign(address)), self)
        } else {
            match self.get_pair(address).0 {
                Ok(bytes) => (Ok(le_u16(bytes[0], bytes[1])), self.get_pair(address).1),
                Err(error) => (Err(error), self.get_pair(address).1),
            }
        }
    }

    /// The outcome of a word read, and the address space after it.
    pub open spec fn get_u32(self, address: u32) -> (Result<u32, Error>, MemoryView<L>) {
        if address % 4 != 0 {
            (Err(Error::MemoryAlign(address)), self)
        } else {
            match self.get_quad(address).0 {
                Ok(bytes) => (
                    Ok(le_u32(bytes[0], bytes[1], bytes[2], bytes[3])),
                    self.get_quad(address).1,
                ),
                Err(error) => (Err(error), self.get_quad(address).1),
            }
        }
    }

    /// The first of the `count` addresses from `address` on that cannot be
    /// written, if there is one.
    pub open spec fn first_unwritable(self, address: u32, count: nat) -> Option<u32>
        decreases count,
    {
        if count == 0 {
            None
        } else if !self.writable(address) {
            Some(address)
        } else {
            self.first_unwritable((address + 1) as u32, (count - 1) as nat)
        }
    }

    /// Continues a run of byte writes: after a failure nothing more is
    /// written.
    pub open spec fn then_set(self, done: Result<(), Error>, address: u32, value: u8) -> (
        Result<(), Error>,
        MemoryView<L>,
    ) {
        match done {
            Err(error) => (Err(error), self),
            Ok(_) => self.set(address, value),
        }
    }

    /// The outcome of a half-word write to a listener's selector: the bytes
    /// go to the listener in address order, up to the first that it refuses.
    pub open spec fn set_pair(self, address: u32, value: u16) -> (Result<(), Error>, MemoryView<L>) {
        let first = self.set(address, byte_of(value as u32, 0));
        first.1.then_set(first.0, (address + 1) as u32, byte_of(value as u32, 1))
    }

    /// The outcome of a word write to a listener's selector: the bytes go to
    /// the listener in address order, up to the first that it refuses.
    pub open spec fn set_quad(self, address: u32, value: u32) -> (Result<(), Error>, MemoryView<L>) {
        let first = self.set(address, byte_of(value, 0));
        let second = first.1.then_set(first.0, (address + 1) as u32, byte_of(value, 1));
        let third = second.1.then_set(second.0, (address + 2) as u32, byte_of(value, 2));
        third.1.then_set(third.0, (address + 3) as u32, byte_of(value, 3))
    }

    /// The outcome of a half-word write, and the address space after it. In
    /// plain memory the write stores both bytes or none.
    pub open spec fn set_u16(self, address: u32, value: u16) -> (Result<(), Error>, MemoryView<L>) {
        if address % 2 != 0 {
            (Err(Error::MemoryAlign(address)), self)
        } else if self.listens(address) {
            self.set_pair(address, value)
        } else if !self.writable(address) {
            (Err(Error::MemoryUnmapped(address)), self)
        } else if !self.writable((address + 1) as u32) {
            (Err(Error::MemoryUnmapped((address + 1) as u32)), self)
        } else {
            (
                Ok(()),
                self.set(address, byte_of(value as u32, 0)).1.set(
                    (address + 1) as u32,
                    byte_of(value as u32, 1),
                ).1,
            )
        }
    }

    /// The outcome of a word write, and the address space after it. In plain
    /// memory the write stores all four bytes or none.
    pub open spec fn set_u32(self, address: u32, value: u32) -> (Result<(), Error>, MemoryView<L>) {
        if address % 4 != 0 {
            (Err(Error::MemoryAlign(address)), self)
        } else if self.listens(address) {
            self.set_quad(address, value)
        } else if !self.writable(address) {
            (Err(Error::MemoryUnmapped(address)), self)
        } else if !self.writable((address + 1) as u32) {
            (Err(Error::MemoryUnmapped((address + 1) as u32)), self)
        } else if !self.writable((address + 2) as u32) {
            (Err(Error::MemoryUnmapped((address + 2) as u32)), self)
        } else if !self.writable((address + 3) as u32) {
            (Err(Error::MemoryUnmapped((address + 3) as u32)), self)
        } else {
            (
                Ok(()),
                self.set(address, byte_of(value, 0)).1.set((address + 1) as u32, byte_of(value, 1)).1.set(
                    (address + 2) as u32,
                    byte_of(value, 2),
                ).1.set((address + 3) as u32, byte_of(value, 3)).1,
            )
        }
    }

    /// The address space after the bytes `data` are mounted as a region at
    /// `start`: the region defines those of its addresses that no earlier
    /// region covers.
    pub open spec fn mount(self, start: u32, data: Seq<u8>) -> MemoryView<L> {
        MemoryView {
            mounted: Map::new(
                |a: u32| self.mounted.dom().contains(a) || (start <= a && a - start < data.len()),
                |a: u32|
                    if self.mounted.dom().contains(a) {
                        self.mounted[a]
                    } else {
                        data[a - start]
                    },
            ),
            ..self
        }
    }

    /// The address space after a writable page is mounted at a free selector.
    pub open spec fn mount_writable(self, index: u32, fill: u8) -> MemoryView<L> {
        MemoryView {
            filled: Map::new(
                |a: u32| self.filled.dom().contains(a) || selector(a) == index,
                |a: u32| if selector(a) == index { fill } else { self.filled[a] },
            ),
            ..self
        }
    }

    /// The address space after a listener in `state` is mounted at a free
    /// selector.
    pub open spec fn mount_listen(self, index: u32, state: L::V) -> MemoryView<L> {
        self.with_listener(index, state)
    }
}

impl MemoryView<KeyboardHandler> {
    /// The address space after the host reports `key` as released (`up`) or
    /// pressed to the keyboard at the keyboard's selector. Without a keyboard
    /// there, nothing changes.
    pub open spec fn push_key(self, key: char, up: bool) -> MemoryView {
        if self.listeners.dom().contains(KEYBOARD_SELECTOR) {
            self.with_listener(
                KEYBOARD_SELECTOR,
                self.listeners[KEYBOARD_SELECTOR].push_key(key, up),
            )
        } else {
            self
        }
    }
}

/// The address space: mounted regions, and one page per selector, which may
/// hold a listener.
pub struct Memory<L: ListenResponder = KeyboardHandler> {
    regions: Vec<Region>,
    pages: Vec<Page<L>>,
}

impl<L: ListenResponder> View for Memory<L> {
    type V = MemoryView<L>;

    closed spec fn view(&self) -> MemoryView<L> {
        MemoryView {
            mounted: Map::new(
                |a: u32| find_region(self.regions@, a, 0) < self.regions@.len(),
                |a: u32|
                    self.regions@[find_region(self.regions@, a, 0)].data@[a - self.regions@[find_region(
                        self.regions@,
                        a,
                        0,
                    )].start],
            ),
            filled: Map::new(
                |a: u32|
                    self.pages@[selector(a) as int] is Fill || self.pages@[selector(a) as int] is Data,
                |a: u32|
                    match self.pages@[selector(a) as int] {
                        Page::Fill(fill) => fill,
                        Page::Data(data) => data@[a as int % 0x10000],
                        _ => 0u8,
                    },
            ),
            listeners: Map::new(
                |s: u32| s < 0x10000 && self.pages@[s as int] is Listen,
                |s: u32| self.pages@[s as int]->Listen_0@,
            ),
        }
    }
}

/// A page's worth of one byte.
fn filled_page(fill: u8) -> (data: Vec<u8>)
    ensures
        data@.len() == 0x10000,
        forall|i: int| 0 <= i < 0x10000 ==> data@[i] == fill,
{
    let mut data: Vec<u8> = Vec::new();
    let mut count: u32 = 0;
    while count < PAGE_SIZE
        invariant
            count <= PAGE_SIZE,
            data@.len() == count,
            forall|i: int| 0 <= i < count ==> data@[i] == fill,
        decreases PAGE_SIZE - count,
    {
        data.push(fill);
        count = count + 1;
    }
    data
}

impl<L: ListenResponder> Memory<L> {
    /// The invariant of the representation: one page per selector, each
    /// written page a full page long.
    pub closed spec fn wf(&self) -> bool {
        &&& self.pages@.len() == 0x10000
        &&& forall|s: int|
            0 <= s < 0x10000 ==> (#[trigger] self.pages@[s] matches Page::Data(data)
                ==> data@.len() == 0x10000)
    }

    /// An address space with nothing mounted.
    pub fn new() -> (memory: Memory<L>)
        ensures
            memory.wf(),
            memory@.mounted == Map::<u32, u8>::empty(),
            memory@.filled == Map::<u32, u8>::empty(),
            memory@.listeners == Map::<u32, L::V>::empty(),
    {
        let mut pages: Vec<Page<L>> = Vec::new();
        let mut count: usize = 0;
        while count < PAGE_COUNT
            invariant
                count <= PAGE_COUNT,
                pages@.len() == count,
                forall|s: int| 0 <= s < count ==> pages@[s] is Unmapped,
            decreases PAGE_COUNT - count,
        {
            pages.push(Page::Unmapped);
            count = count + 1;
        }
        let memory = Memory { regions: Vec::new(), pages };
        assert(memory@.mounted =~= Map::<u32, u8>::empty());
        assert(memory@.filled =~= Map::<u32, u8>::empty());
        assert(memory@.listeners =~= Map::<u32, L::V>::empty());
        memory
    }

    /// Mounts a region. Where it overlaps a region mounted before, the earlier
    /// one keeps answering.
    pub fn mount(&mut self, region: Region)
        requires
            old(self).wf(),
        ensures
            final(self).wf(),
            final(self)@ == old(self)@.mount(region.start, region.data@),
    {
        self.regions.push(region);
        proof {
            let before = old(self).regions@;
            assert(self.regions@ == before.push(region));
            assert forall|a: u32|
                #![trigger find_region(self.regions@, a, 0)]
                {
                    &&& find_region(self.regions@, a, 0) < self.regions@.len() <==> (find_region(
                        before,
                        a,
                        0,
                    ) < before.len() || region.covers(a))
                    &&& find_region(before, a, 0) < before.len() ==> find_region(self.regions@, a, 0)
                        == find_region(before, a, 0) && self.regions@[find_region(before, a, 0)]
                        == before[find_region(before, a, 0)]
                    &&& find_region(before, a, 0) >= before.len() && region.covers(a) ==> find_region(
                        self.regions@,
                        a,
                        0,
                    ) == before.len() && self.regions@[before.len() as int] == region
                } by {
                lemma_find_region_push(before, region, a, 0);
                lemma_find_region_bounds(before, a, 0);
            }
        }
        assert(self@.mounted =~= old(self)@.mount(region.start, region.data@).mounted);
        assert(self@.listeners =~= old(self)@.listeners);
    }

    /// Mounts a writable page at selector `index`: every address of it that no
    /// region covers reads as `fill` until it is written.
    pub fn mount_writable(&mut self, index: usize, fill: u8)
        requires
            old(self).wf(),
            index < 0x10000,
            old(self)@.selector_free(index as u32),
        ensures
            final(self).wf(),
            final(self)@ == old(self)@.mount_writable(index as u32, fill),
    {
        assert(selector((index * 0x10000) as u32) == index);
        self.pages[index] = Page::Fill(fill);
        assert(self@.filled =~= old(self)@.mount_writable(index as u32, fill).filled);
        assert(self@.listeners =~= old(self)@.listeners);
    }

    /// Mounts `listener` at selector `index`: from now on it answers every
    /// byte access to that selector.
    pub fn mount_listen(&mut self, index: usize, listener: L)
        requires
            old(self).wf(),
            index < 0x10000,
            old(self)@.selector_free(index as u32),
        ensures
            final(self).wf(),
            final(self)@ == old(self)@.mount_listen(index as u32, listener@),
    {
        assert(selector((index * 0x10000) as u32) == index);
        self.pages[index] = Page::Listen(listener);
        assert(self@.filled =~= old(self)@.filled);
        assert(self@.listeners =~= old(self)@.listeners.insert(index as u32, listener@));
    }

    /// Whether a listener answers at `address`.
    pub fn listens(&self, address: u32) -> (listened: bool)
        requires
            self.wf(),
        ensures
            listened == self@.listens(address),
    {
        let index: usize = (address / PAGE_SIZE) as usize;
        match &self.pages[index] {
            Page::Listen(_) => true,
            _ => false,
        }
    }

    /// The index of the first region that covers `address`.
    fn locate(&self, address: u32) -> (index: usize)
        ensures
            index == find_region(self.regions@, address, 0),
            index <= self.regions@.len(),
            index < self.regions@.len() ==> self.regions@[index as int].covers(address),
    {
        let mut index: usize = 0;
        proof {
            lemma_find_region_bounds(self.regions@, address, 0);
        }
        while index < self.regions.len()
            invariant
                index <= self.regions@.len(),
                find_region(self.regions@, address, 0) == find_region(
                    self.regions@,
                    address,
                    index as int,
                ),
            decreases self.regions@.len() - index,
        {
            if self.regions[index].contains(address) {
                return index;
            }
            index = index + 1;
        }
        index
    }

    /// Whether a byte can be stored at `address` as in plain memory.
    pub fn is_writable(&self, address: u32) -> (writable: bool)
        requires
            self.wf(),
        ensures
            writable == self@.writable(address),
    {
        let index: usize = (address / PAGE_SIZE) as usize;
        match &self.pages[index] {
            Page::Listen(_) => false,
            Page::Unmapped => self.locate(address) < self.regions.len(),
            _ => true,
        }
    }

    /// Reads the byte at `address`.
    pub fn get(&mut self, address: u32) -> (result: Result<u8, Error>)
        requires
            old(self).wf(),
        ensures
            final(self).wf(),
            result == old(self)@.get(address).0,
            final(self)@ == old(self)@.get(address).1,
    {
        let index: usize = (address / PAGE_SIZE) as usize;
        if self.listens(address) {
            let mut answer: Result<u8, Error> = Err(Error::MemoryUnmapped(address));
            match &mut self.pages[index] {
                Page::Listen(listener) => {
                    answer = listener.read(address);
                },
                _ => {},
            }
            proof {
                assert(self.regions@ == old(self).regions@);
                assert(self@.mounted =~= old(self)@.mounted);
                assert(self@.filled =~= old(self)@.filled);
                assert(self@.listeners =~= old(self)@.get(address).1.listeners);
            }
            return answer;
        }
        let found: usize = self.locate(address);
        if found < self.regions.len() {
            let region = &self.regions[found];
            return Ok(region.data[(address - region.start) as usize]);
        }
        match &self.pages[index] {
            Page::Fill(fill) => Ok(*fill),
            Page::Data(data) => Ok(data[(address % PAGE_SIZE) as usize]),
            _ => Err(Error::MemoryUnmapped(address)),
        }
    }

    /// Writes the byte at `address`.
    pub fn set(&mut self, address: u32, value: u8) -> (result: Result<(), Error>)
        requires
            old(self).wf(),
        ensures
            final(self).wf(),
            result == old(self)@.set(address, value).0,
            final(self)@ == old(self)@.set(address, value).1,
    {
        let index: usize = (address / PAGE_SIZE) as usize;
        if self.listens(address) {
            let mut answer: Result<(), Error> = Err(Error::MemoryUnmapped(address));
            match &mut self.pages[index] {
                Page::Listen(listener) => {
                    answer = listener.write(address, value);
                },
                _ => {},
            }
            proof {
                assert(self.regions@ == old(self).regions@);
                assert(self@.mounted =~= old(self)@.mounted);
                assert(self@.filled =~= old(self)@.filled);
                assert(self@.listeners =~= old(self)@.set(address, value).1.listeners);
            }
            return answer;
        }
        let found: usize = self.locate(address);
        if found < self.regions.len() {
            let offset: usize = (address - self.regions[found].start) as usize;
            self.regions[found].data[offset] = value;
            proof {
                let before = old(self).regions@;
                assert(self.regions@.len() == before.len());
                assert(self.regions@[found as int].start == before[found as int].start);
                assert(self.regions@[found as int].data@ == before[found as int].data@.update(
                    offset as int,
                    value,
                ));
                assert forall|j: int| 0 <= j < before.len() && j != found implies self.regions@[j]
                    == before[j] by {}
                assert forall|a: u32|
                    #![trigger find_region(self.regions@, a, 0)]
                    find_region(self.regions@, a, 0) == find_region(before, a, 0) && 0
                        <= find_region(before, a, 0) <= before.len() && (find_region(before, a, 0)
                        < before.len() ==> before[find_region(before, a, 0)].covers(a)) by {
                    lemma_find_region_same_extents(self.regions@, before, a, 0);
                    lemma_find_region_bounds(before, a, 0);
                }
                assert(self.pages@ == old(self).pages@);
                assert(self@.mounted =~= old(self)@.mounted.insert(address, value));
                assert(self@.filled =~= old(self)@.filled);
                assert(self@.listeners =~= old(self)@.listeners);
            }
            return Ok(());
        }
        let offset: usize = (address % PAGE_SIZE) as usize;
        if let Page::Fill(fill) = &self.pages[index] {
            let data = filled_page(*fill);
            self.pages[index] = Page::Data(data);
            assert(self@.filled =~= old(self)@.filled);
            assert(self@.listeners =~= old(self)@.listeners);
        }
        let ghost before = *self;
        match &mut self.pages[index] {
            Page::Data(data) => {
                data[offset] = value;
            },
            _ => {
                proof {
                    assert(self.pages@ =~= old(self).pages@);
                    assert(self@.mounted =~= old(self)@.mounted);
                    assert(self@.filled =~= old(self)@.filled);
                    assert(self@.listeners =~= old(self)@.listeners);
                }
                return Err(Error::MemoryUnmapped(address));
            },
        }
        proof {
            assert(self.regions@ == before.regions@);
            assert(self@.mounted =~= before@.mounted);
            assert(self@.filled =~= before@.filled.insert(address, value));
            assert(self@.listeners =~= before@.listeners);
        }
        Ok(())
    }

    /// Reads the half-word at `address`, low byte first.
    pub fn get_u16(&mut self, address: u32) -> (result: Result<u16, Error>)
        requires
            old(self).wf(),
        ensures
            final(self).wf(),
            result == old(self)@.get_u16(address).0,
            final(self)@ == old(self)@.get_u16(address).1,
    {
        if address % 2 != 0 {
            return Err(Error::MemoryAlign(address));
        }
        let b0: u8 = match self.get(address) {
            Ok(byte) => byte,
            Err(error) => {
                return Err(error);
            },
        };
        let b1: u8 = match self.get(address + 1) {
            Ok(byte) => byte,
            Err(error) => {
                return Err(error);
            },
        };
        Ok(b0 as u16 + 0x100 * (b1 as u16))
    }

    /// Reads the word at `address`, lowest byte first.
    pub fn get_u32(&mut self, address: u32) -> (result: Result<u32, Error>)
        requires
            old(self).wf(),
        ensures
            final(self).wf(),
            result == old(self)@.get_u32(address).0,
            final(self)@ == old(self)@.get_u32(address).1,
    {
        if address % 4 != 0 {
            return Err(Error::MemoryAlign(address));
        }
        let b0: u8 = match self.get(address) {
            Ok(byte) => byte,
            Err(error) => {
                return Err(error);
            },
        };
        let b1: u8 = match self.get(address + 1) {
            Ok(byte) => byte,
            Err(error) => {
                return Err(error);
            },
        };
        let b2: u8 = match self.get(address + 2) {
            Ok(byte) => byte,
            Err(error) => {
                return Err(error);
            },
        };
        let b3: u8 = match self.get(address + 3) {
            Ok(byte) => byte,
            Err(error) => {
                return Err(error);
            },
        };
        Ok(b0 as u32 + 0x100 * (b1 as u32) + 0x1_0000 * (b2 as u32) + 0x100_0000 * (b3 as u32))
    }

    /// Writes the half-word at `address`, low byte first. In plain memory
    /// both bytes are stored or none; a listener gets the bytes one by one.
    pub fn set_u16(&mut self, address: u32, value: u16) -> (result: Result<(), Error>)
        requires
            old(self).wf(),
        ensures
            final(self).wf(),
            result == old(self)@.set_u16(address, value).0,
            final(self)@ == old(self)@.set_u16(address, value).1,
    {
        if address % 2 != 0 {
            return Err(Error::MemoryAlign(address));
        }
        if self.listens(address) {
            let wide: u32 = value as u32;
            return match self.set(address, (wide % 0x100) as u8) {
                Ok(_) => self.set(address + 1, (wide / 0x100 % 0x100) as u8),
                Err(error) => Err(error),
            };
        }
        if !self.is_writable(address) {
            return Err(Error::MemoryUnmapped(address));
        }
        if !self.is_writable(address + 1) {
            return Err(Error::MemoryUnmapped(address + 1));
        }
        let wide: u32 = value as u32;
        let _ = self.set(address, (wide % 0x100) as u8);
        let _ = self.set(address + 1, (wide / 0x100 % 0x100) as u8);
        Ok(())
    }

    /// Writes the word at `address`, lowest byte first. In plain memory all
    /// four bytes are stored or none; a listener gets the bytes one by one.
    pub fn set_u32(&mut self, address: u32, value: u32) -> (result: Result<(), Error>)
        requires
            old(self).wf(),
        ensures
            final(self).wf(),
            result == old(self)@.set_u32(address, value).0,
            final(self)@ == old(self)@.set_u32(address, value).1,
    {
        if address % 4 != 0 {
            return Err(Error::MemoryAlign(address));
        }
        if self.listens(address) {
            if let Err(error) = self.set(address, (value % 0x100) as u8) {
                return Err(error);
            }
            if let Err(error) = self.set(address + 1, (value / 0x100 % 0x100) as u8) {
                return Err(error);
            }
            if let Err(error) = self.set(address + 2, (value / 0x1_0000 % 0x100) as u8) {
                return Err(error);
            }
            return self.set(address + 3, (value / 0x100_0000 % 0x100) as u8);
        }
        if !self.is_writable(address) {
            return Err(Error::MemoryUnmapped(address));
        }
        if !self.is_writable(address + 1) {
            return Err(Error::MemoryUnmapped(address + 1));
        }
        if !self.is_writable(address + 2) {
            return Err(Error::MemoryUnmapped(address + 2));
        }
        if !self.is_writable(address + 3) {
            return Err(Error::MemoryUnmapped(address + 3));
        }
        let _ = self.set(address, (value % 0x100) as u8);
        let _ = self.set(address + 1, (value / 0x100 % 0x100) as u8);
        let _ = self.set(address + 2, (value / 0x1_0000 % 0x100) as u8);
        let _ = self.set(address + 3, (value / 0x100_0000 % 0x100) as u8);
        Ok(())
    }
}

impl Memory<KeyboardHandler> {
    /// Takes a key event from the host for the keyboard at the keyboard's
    /// selector. Without a keyboard there, nothing happens.
    pub fn push_key(&mut self, key: char, up: bool)
        requires
            old(self).wf(),
        ensures
            final(self).wf(),
            final(self)@ == old(self)@.push_key(key, up),
    {
        match &mut self.pages[KEYBOARD_SELECTOR as usize] {
            Page::Listen(keyboard) => {
                keyboard.state.push_key(key, up);
            },
            _ => {},
        }
        proof {
            assert(self.regions@ == old(self).regions@);
            assert(self@.mounted =~= old(self)@.mounted);
            assert(self@.filled =~= old(self)@.filled);
            assert(self@.listeners =~= old(self)@.push_key(key, up).listeners);
        }
    }
}

/// The bytes of a value, put together again, give the value.
pub proof fn lemma_bytes_round_trip(value: u32)
    ensures
        le_u32(byte_of(value, 0), byte_of(value, 1), byte_of(value, 2), byte_of(value, 3)) == value,
        value < 0x10000 ==> le_u16(byte_of(value, 0), byte_of(value, 1)) == value,
{
}

/// A byte written where a byte can be stored is the byte read back there, and
/// the read changes nothing.
pub proof fn lemma_set_get(memory: MemoryView, address: u32, value: u8)
    requires
        memory.set(address, value).0 is Ok,
    ensures
        memory.set(address, value).1.get(address) == (
            Ok::<u8, Error>(value),
            memory.set(address, value).1,
        ),
{
}

/// A half-word written at an aligned address of writable memory is the
/// half-word read back there, and the read changes nothing.
pub proof fn lemma_set_get_u16(memory: MemoryView, address: u32, value: u16)
    requires
        memory.set_u16(address, value).0 is Ok,
    ensures
        memory.set_u16(address, value).1.get_u16(address) == (
            Ok::<u16, Error>(value),
            memory.set_u16(address, value).1,
        ),
{
    lemma_bytes_round_trip(value as u32);
    let after = memory.set_u16(address, value).1;
    let next = (address + 1) as u32;
    assert(after.get(address) == (Ok::<u8, Error>(byte_of(value as u32, 0)), after));
    assert(after.get(next) == (Ok::<u8, Error>(byte_of(value as u32, 1)), after));
    assert(after.get_pair(address).0 == Ok::<Seq<u8>, Error>(
        Seq::<u8>::empty().push(byte_of(value as u32, 0)).push(byte_of(value as u32, 1)),
    ));
}

/// A word written at an aligned address of writable memory is the word read
/// back there, and the read changes nothing.
pub proof fn lemma_set_get_u32(memory: MemoryView, address: u32, value: u32)
    requires
        memory.set_u32(address, value).0 is Ok,
    ensures
        memory.set_u32(address, value).1.get_u32(address) == (
            Ok::<u32, Error>(value),
            memory.set_u32(address, value).1,
        ),
{
    lemma_bytes_round_trip(value);
    let after = memory.set_u32(address, value).1;
    let a1 = (address + 1) as u32;
    let a2 = (address + 2) as u32;
    let a3 = (address + 3) as u32;
    assert(after.get(address) == (Ok::<u8, Error>(byte_of(value, 0)), after));
    assert(after.get(a1) == (Ok::<u8, Error>(byte_of(value, 1)), after));
    assert(after.get(a2) == (Ok::<u8, Error>(byte_of(value, 2)), after));
    assert(after.get(a3) == (Ok::<u8, Error>(byte_of(value, 3)), after));
    assert(after.get_quad(address).0 == Ok::<Seq<u8>, Error>(
        Seq::<u8>::empty().push(byte_of(value, 0)).push(byte_of(value, 1)).push(
            byte_of(value, 2),
        ).push(byte_of(value, 3)),
    ));
}

/// A half-word or word access at a misaligned address fails with the
/// alignment fault for that address and changes nothing.
pub proof fn lemma_misaligned_access(memory: MemoryView, address: u32, half: u16, word: u32)
    ensures
        address % 2 != 0 ==> memory.get_u16(address) == (
            Err::<u16, Error>(Error::MemoryAlign(address)),
            memory,
        ),
        address % 2 != 0 ==> memory.set_u16(address, half) == (
            Err::<(), Error>(Error::MemoryAlign(address)),
            memory,
        ),
        address % 4 != 0 ==> memory.get_u32(address) == (
            Err::<u32, Error>(Error::MemoryAlign(address)),
            memory,
        ),
        address % 4 != 0 ==> memory.set_u32(address, word) == (
            Err::<(), Error>(Error::MemoryAlign(address)),
            memory,
        ),
{
}

/// The keyboard refuses every write to its selector, and the refusal changes
/// nothing.
pub proof fn lemma_keyboard_refuses_writes(memory: MemoryView, address: u32, value: u8)
    requires
        memory.listens(address),
    ensures
        memory.set(address, value) == (Err::<(), Error>(Error::MemoryUnmapped(address)), memory),
{
    let index = selector(address);
    assert(memory.listeners.insert(index, memory.listeners[index]) =~= memory.listeners);
}

/// A write that fails changes nothing.
pub proof fn lemma_failed_write_changes_nothing(
    memory: MemoryView,
    address: u32,
    byte: u8,
    half: u16,
    word: u32,
)
    ensures
        memory.set(address, byte).0 is Err ==> memory.set(address, byte).1 == memory,
        memory.set_u16(address, half).0 is Err ==> memory.set_u16(address, half).1 == memory,
        memory.set_u32(address, word).0 is Err ==> memory.set_u32(address, word).1 == memory,
{
    if memory.listens(address) {
        lemma_keyboard_refuses_writes(memory, address, byte);
        lemma_keyboard_refuses_writes(memory, address, byte_of(half as u32, 0));
        lemma_keyboard_refuses_writes(memory, address, byte_of(word, 0));
    }
}

/// Whatever the listeners are, an access to plain memory leaves every
/// listener as it is, and an access that a listener answers leaves every
/// plain byte and every other listener as they are.
pub proof fn lemma_listeners_apart<L: ListenResponder>(
    memory: MemoryView<L>,
    address: u32,
    value: u8,
)
    ensures
        !memory.listens(address) ==> memory.get(address).1 == memory && memory.set(
            address,
            value,
        ).1.listeners == memory.listeners,
        memory.listens(address) ==> memory.get(address) == (
            L::reads(memory.listeners[selector(address)], address).0,
            memory.with_listener(
                selector(address),
                L::reads(memory.listeners[selector(address)], address).1,
            ),
        ) && memory.set(address, value) == (
            L::writes(memory.listeners[selector(address)], address, value).0,
            memory.with_listener(
                selector(address),
                L::writes(memory.listeners[selector(address)], address, value).1,
            ),
        ),
        forall|other: u32|
            memory.get(address).1.cell(other) == memory.cell(other) && (other != address
                ==> memory.set(address, value).1.cell(other) == memory.cell(other)),
{
}

/// Where regions overlap, the region mounted first answers: mounting a region
/// changes no byte that an earlier region holds, whatever the listeners are.
pub proof fn lemma_first_region_answers<L: ListenResponder>(
    memory: MemoryView<L>,
    start: u32,
    data: Seq<u8>,
    address: u32,
)
    requires
        memory.mounted.dom().contains(address),
    ensures
        memory.mount(start, data).mounted.dom().contains(address),
        memory.mount(start, data).mounted[address] == memory.mounted[address],
        memory.mount(start, data).cell(address) == memory.cell(address),
        !memory.listens(address) ==> memory.mount(start, data).get(address).0 == memory.get(
            address,
        ).0,
{
}

} // verus!
