//! Trackers: what the debugger remembers of each instruction.
//!
//! The empty tracker remembers nothing. The history tracker opens a frame
//! before each instruction, holding the registers as they were, and collects
//! in it what every byte written from then on replaced. Taking the latest
//! frame back and applying it undoes that instruction. The history is
//! bounded: when it is full, its oldest frame is dropped.

use vstd::prelude::*;
use std::collections::VecDeque;
use crate::cpu::State;
use crate::memory::{Memory, MemoryView};
use crate::registers::Registers;

verus! {

/// The number of frames that the debugger keeps for rewinding.
pub const TIME_TRAVEL_HISTORY_SIZE: usize = 1000;

/// A frame as mathematical values.
pub struct FrameView {
    /// The registers before the instruction.
    pub registers: Registers,
    /// Address and replaced byte of each byte written, oldest first.
    pub edits: Seq<(u32, u8)>,
}

/// The memory after the writes behind `edits` are undone: each replaced byte
/// is written back, the latest first.
pub open spec fn undo(memory: MemoryView, edits: Seq<(u32, u8)>) -> MemoryView
    decreases edits.len(),
{
    if edits.len() == 0 {
        memory
    } else {
        undo(memory.set(edits.last().0, edits.last().1).1, edits.drop_last())
    }
}

/// The registers before one instruction, and what its writes replaced.
pub struct HistoryEntry {
    /// The registers before the instruction.
    pub registers: Registers,
    /// Address and replaced byte of each byte written, oldest first.
    pub edits: Vec<(u32, u8)>,
}

impl View for HistoryEntry {
    type V = FrameView;

    open spec fn view(&self) -> FrameView {
        FrameView { registers: self.registers, edits: self.edits@ }
    }
}

impl HistoryEntry {
    /// Rolls one instruction back: restores the registers, then writes the
    /// replaced bytes back, the latest first.
    pub fn apply(&self, registers: &mut Registers, memory: &mut Memory)
        requires
            old(memory).wf(),
        ensures
            final(memory).wf(),
            *final(registers) == self.registers,
            final(memory)@ == undo(old(memory)@, self.edits@),
    {
        *registers = self.registers;
        let mut index: usize = self.edits.len();
        assert(self.edits@.take(index as int) =~= self.edits@);
        while index > 0
            invariant
                memory.wf(),
                index <= self.edits@.len(),
                undo(old(memory)@, self.edits@) == undo(memory@, self.edits@.take(index as int)),
            decreases index,
        {
            index = index - 1;
            let (address, byte) = self.edits[index];
            proof {
                let taken = self.edits@.take(index + 1);
                assert(taken.last() == self.edits@[index as int]);
                assert(taken.drop_last() =~= self.edits@.take(index as int));
            }
            let _ = memory.set(address, byte);
        }
    }
}

/// A history as mathematical values.
pub struct HistoryView {
    /// The frames, oldest first.
    pub frames: Seq<FrameView>,
    /// The number of frames that the history keeps at most.
    pub capacity: nat,
}

impl HistoryView {
    /// The history after a frame with `registers` and no edits is opened. A
    /// full history drops its oldest frame first; a history of capacity 0
    /// stays empty.
    pub open spec fn open(self, registers: Registers) -> HistoryView {
        let fresh = FrameView { registers, edits: Seq::empty() };
        if self.capacity == 0 {
            self
        } else if self.frames.len() >= self.capacity {
            HistoryView { frames: self.frames.skip(1).push(fresh), ..self }
        } else {
            HistoryView { frames: self.frames.push(fresh), ..self }
        }
    }

    /// The history after `edits` join the latest frame. With no frame open
    /// they are dropped.
    pub open spec fn absorb(self, edits: Seq<(u32, u8)>) -> HistoryView {
        if self.frames.len() == 0 {
            self
        } else {
            HistoryView {
                frames: self.frames.drop_last().push(
                    FrameView {
                        registers: self.frames.last().registers,
                        edits: self.frames.last().edits + edits,
                    },
                ),
                ..self
            }
        }
    }

    /// The history without its latest frame.
    pub open spec fn pop(self) -> HistoryView {
        if self.frames.len() == 0 {
            self
        } else {
            HistoryView { frames: self.frames.drop_last(), ..self }
        }
    }
}

/// A bounded history of frames.
pub struct HistoryTracker {
    entries: VecDeque<HistoryEntry>,
    capacity: usize,
}

impl View for HistoryTracker {
    type V = HistoryView;

    closed spec fn view(&self) -> HistoryView {
        HistoryView {
            frames: Seq::new(self.entries@.len(), |i: int| self.entries@[i]@),
            capacity: self.capacity as nat,
        }
    }
}

impl HistoryTracker {
    /// An empty history that keeps at most `capacity` frames.
    pub fn new(capacity: usize) -> (tracker: HistoryTracker)
        ensures
            tracker@.frames == Seq::<FrameView>::empty(),
            tracker@.capacity == capacity,
    {
        let tracker = HistoryTracker { entries: VecDeque::new(), capacity };
        assert(tracker@.frames =~= Seq::<FrameView>::empty());
        tracker
    }

    /// The number of frames held.
    pub fn len(&self) -> (count: usize)
        ensures
            count == self@.frames.len(),
    {
        self.entries.len()
    }

    /// Opens a frame that holds `registers`.
    pub fn open(&mut self, registers: Registers)
        ensures
            final(self)@ == old(self)@.open(registers),
    {
        if self.capacity == 0 {
            return ;
        }
        if self.entries.len() >= self.capacity {
            let _ = self.entries.pop_front();
        }
        self.entries.push_back(HistoryEntry { registers, edits: Vec::new() });
        assert(self@.frames =~= old(self)@.open(registers).frames);
    }

    /// Adds `edits` to the latest frame.
    pub fn absorb(&mut self, edits: Vec<(u32, u8)>)
        ensures
            final(self)@ == old(self)@.absorb(edits@),
    {
        let ghost given = edits@;
        let mut rest = edits;
        match self.entries.pop_back() {
            Some(entry) => {
                let mut entry = entry;
                entry.edits.append(&mut rest);
                self.entries.push_back(entry);
                assert(self@.frames =~= old(self)@.absorb(given).frames);
            },
            None => {
                assert(self@.frames =~= old(self)@.frames);
            },
        }
    }

    /// Takes the latest frame out.
    pub fn pop(&mut self) -> (entry: Option<HistoryEntry>)
        ensures
            final(self)@ == old(self)@.pop(),
            match entry {
                Some(frame) => old(self)@.frames.len() > 0 && frame@ == old(self)@.frames.last(),
                None => old(self)@.frames.len() == 0,
            },
    {
        let entry = self.entries.pop_back();
        assert(self@.frames =~= old(self)@.pop().frames);
        entry
    }

    /// The program counter that the latest frame holds.
    pub fn last_pc(&self) -> (pc: Option<u32>)
        ensures
            pc == if self@.frames.len() > 0 {
                Some(self@.frames.last().registers.pc)
            } else {
                None
            },
    {
        let count: usize = self.entries.len();
        if count > 0 {
            Some(self.entries[count - 1].registers.pc)
        } else {
            None
        }
    }
}

/// What the debugger remembers: nothing, or a history.
pub enum Tracker {
    /// Remembers nothing.
    Empty,
    /// Remembers the latest instructions.
    History(HistoryTracker),
}

/// A tracker as mathematical values: the variants of `Tracker`.
pub enum TrackerView {
    /// Remembers nothing.
    Empty,
    /// Remembers the latest instructions.
    History(HistoryView),
}

impl TrackerView {
    /// The tracker after the journal `pending` is collected and a frame with
    /// `registers` is opened.
    pub open spec fn pre_track(self, registers: Registers, pending: Seq<(u32, u8)>) -> TrackerView {
        match self {
            TrackerView::Empty => TrackerView::Empty,
            TrackerView::History(history) => TrackerView::History(
                history.absorb(pending).open(registers),
            ),
        }
    }

    /// The tracker after the journal `pending` is collected.
    pub open spec fn post_track(self, pending: Seq<(u32, u8)>) -> TrackerView {
        match self {
            TrackerView::Empty => TrackerView::Empty,
            TrackerView::History(history) => TrackerView::History(history.absorb(pending)),
        }
    }

    /// The frames held, oldest first.
    pub open spec fn frames(self) -> Seq<FrameView> {
        match self {
            TrackerView::Empty => Seq::empty(),
            TrackerView::History(history) => history.frames,
        }
    }
}

impl View for Tracker {
    type V = TrackerView;

    open spec fn view(&self) -> TrackerView {
        match self {
            Tracker::Empty => TrackerView::Empty,
            Tracker::History(history) => TrackerView::History(history@),
        }
    }
}

impl Tracker {
    /// Before an instruction: collects the journal into the latest frame and
    /// opens a frame for the instruction.
    pub fn pre_track(&mut self, state: &mut State)
        ensures
            final(self)@ == old(self)@.pre_track(old(state).registers, old(state)@.memory.log),
            final(state).registers == old(state).registers,
            final(state).memory.backing == old(state).memory.backing,
            final(state)@.memory.log == Seq::<(u32, u8)>::empty(),
    {
        let pending = state.memory.take();
        match self {
            Tracker::Empty => {},
            Tracker::History(history) => {
                history.absorb(pending);
                history.open(state.registers);
            },
        }
    }

    /// After an instruction, and before a frame is taken out: collects the
    /// journal into the latest frame.
    pub fn post_track(&mut self, state: &mut State)
        ensures
            final(self)@ == old(self)@.post_track(old(state)@.memory.log),
            final(state).registers == old(state).registers,
            final(state).memory.backing == old(state).memory.backing,
            final(state)@.memory.log == Seq::<(u32, u8)>::empty(),
    {
        let pending = state.memory.take();
        match self {
            Tracker::Empty => {},
            Tracker::History(history) => {
                history.absorb(pending);
            },
        }
    }

    /// Takes the latest frame out, if there is one.
    pub fn pop(&mut self) -> (entry: Option<HistoryEntry>)
        ensures
            match entry {
                Some(frame) => old(self)@.frames().len() > 0 && frame@ == old(self)@.frames().last()
                    && final(self)@.frames() == old(self)@.frames().drop_last(),
                None => old(self)@.frames().len() == 0 && final(self)@ == old(self)@,
            },
            old(self)@ is Empty <==> final(self)@ is Empty,
            old(self)@ matches TrackerView::History(before) ==> (final(self)@ matches TrackerView::History(
                after,
            ) && after.capacity == before.capacity),
    {
        match self {
            Tracker::Empty => None,
            Tracker::History(history) => history.pop(),
        }
    }

    /// The program counter that the latest frame holds.
    pub fn last_pc(&self) -> (pc: Option<u32>)
        ensures
            pc == if self@.frames().len() > 0 {
                Some(self@.frames().last().registers.pc)
            } else {
                None
            },
    {
        match self {
            Tracker::Empty => None,
            Tracker::History(history) => history.last_pc(),
        }
    }
}

} // verus!
