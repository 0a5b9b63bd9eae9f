//! Why rewinding works: undoing the journal of any writes restores the memory
//! that was there before them, and taking back the frames of the latest
//! instructions restores the machine that was there before them.

use vstd::prelude::*;
use crate::cpu::StateView;
use crate::executor::{collected, ExecutorMode, ExecutorView};
use crate::instruction::Instruction;
use crate::memory::MemoryView;
use crate::tracker::{undo, TrackerView};
use crate::watched::WatchedView;

verus! {

/// Whether two memories hold the same bytes at the same addresses and have
/// listeners at the same selectors. The keyboards that listen may differ.
pub open spec fn same_cells(a: MemoryView, b: MemoryView) -> bool {
    &&& a.mounted == b.mounted
    &&& a.filled == b.filled
    &&& forall|index: u32|
        #![trigger a.listeners.dom().contains(index)]
        #![trigger b.listeners.dom().contains(index)]
        a.listeners.dom().contains(index) == b.listeners.dom().contains(index)
}

/// Whether `after` came from `before` by reads and journaled writes: its
/// journal continues that of `before`, and undoing what was added restores
/// the bytes of `before`.
pub open spec fn extends(before: WatchedView, after: WatchedView) -> bool {
    &&& before.log.len() <= after.log.len()
    &&& after.log.take(before.log.len() as int) == before.log
    &&& same_cells(undo(after.backing, after.log.skip(before.log.len() as int)), before.backing)
}

/// The memory after the byte writes `writes`, each an address and a value,
/// are made in order. A write that fails is passed over.
pub open spec fn write_all(memory: WatchedView, writes: Seq<(u32, u8)>) -> WatchedView
    decreases writes.len(),
{
    if writes.len() == 0 {
        memory
    } else {
        write_all(memory, writes.drop_last()).set(writes.last().0, writes.last().1).1
    }
}

/// Undoing leaves every keyboard alone, and treats memories with the same
/// bytes alike.
pub proof fn lemma_undo_same_cells(a: MemoryView, b: MemoryView, edits: Seq<(u32, u8)>)
    requires
        same_cells(a, b),
    ensures
        same_cells(undo(a, edits), undo(b, edits)),
        undo(a, edits).listeners == a.listeners,
    decreases edits.len(),
{
    if edits.len() > 0 {
        lemma_undo_same_cells(
            a.set(edits.last().0, edits.last().1).1,
            b.set(edits.last().0, edits.last().1).1,
            edits.drop_last(),
        );
    }
}

/// Undoing two journals, one after the other, undoes the later one first.
pub proof fn lemma_undo_concat(memory: MemoryView, first: Seq<(u32, u8)>, second: Seq<(u32, u8)>)
    ensures
        undo(memory, first + second) == undo(undo(memory, second), first),
    decreases second.len(),
{
    if second.len() == 0 {
        assert(first + second =~= first);
    } else {
        let whole = first + second;
        assert(whole.last() == second.last());
        assert(whole.drop_last() =~= first + second.drop_last());
        lemma_undo_concat(
            memory.set(second.last().0, second.last().1).1,
            first,
            second.drop_last(),
        );
    }
}

/// Undoing the journal entry of one byte write restores the memory.
pub proof fn lemma_undo_byte(memory: WatchedView, address: u32, value: u8)
    ensures
        extends(memory, memory.set(address, value).1),
        extends(memory, memory.get(address).1),
        extends(memory, memory.get_u16(address).1),
        extends(memory, memory.get_u32(address).1),
{
    let after = memory.set(address, value).1;
    let count = memory.log.len() as int;
    assert(after.log.take(count) =~= memory.log);
    assert(memory.log.take(count) =~= memory.log);
    assert(memory.log.skip(count) =~= Seq::<(u32, u8)>::empty());
    if memory.backing.set(address, value).0 is Ok {
        let added = after.log.skip(count);
        assert(added =~= seq![memory.entry(address)]);
        assert(added.drop_last() =~= Seq::<(u32, u8)>::empty());
        let restored = after.backing.set(address, memory.entry(address).1).1;
        assert(restored.mounted =~= memory.backing.mounted);
        assert(restored.filled =~= memory.backing.filled);
        assert(undo(restored, added.drop_last()) == restored);
    }
}

/// Undoing the journal entries of a half-word write restores the memory.
pub proof fn lemma_undo_half(memory: WatchedView, address: u32, value: u16)
    ensures
        extends(memory, memory.set_u16(address, value).1),
{
    let after = memory.set_u16(address, value).1;
    let count = memory.log.len() as int;
    assert(after.log.take(count) =~= memory.log);
    assert(memory.log.skip(count) =~= Seq::<(u32, u8)>::empty());
    if memory.backing.set_u16(address, value).0 is Ok {
        let a1 = (address + 1) as u32;
        let added = after.log.skip(count);
        assert(added =~= seq![memory.entry(address), memory.entry(a1)]);
        assert(added.drop_last() =~= seq![memory.entry(address)]);
        assert(added.drop_last().drop_last() =~= Seq::<(u32, u8)>::empty());
        let r1 = after.backing.set(a1, memory.entry(a1).1).1;
        let r0 = r1.set(address, memory.entry(address).1).1;
        assert(r0.mounted =~= memory.backing.mounted);
        assert(r0.filled =~= memory.backing.filled);
        assert(undo(r1, added.drop_last()) == undo(r0, added.drop_last().drop_last()));
        assert(undo(after.backing, added) == r0);
    }
}

/// Undoing the journal entries of a word write restores the memory.
pub proof fn lemma_undo_word(memory: WatchedView, address: u32, value: u32)
    ensures
        extends(memory, memory.set_u32(address, value).1),
{
    let after = memory.set_u32(address, value).1;
    let count = memory.log.len() as int;
    assert(after.log.take(count) =~= memory.log);
    assert(memory.log.skip(count) =~= Seq::<(u32, u8)>::empty());
    if memory.backing.set_u32(address, value).0 is Ok {
        let a1 = (address + 1) as u32;
        let a2 = (address + 2) as u32;
        let a3 = (address + 3) as u32;
        let added = after.log.skip(count);
        let e0 = memory.entry(address);
        let e1 = memory.entry(a1);
        let e2 = memory.entry(a2);
        let e3 = memory.entry(a3);
        assert(added =~= seq![e0, e1, e2, e3]);
        let three = added.drop_last();
        let two = three.drop_last();
        let one = two.drop_last();
        assert(three =~= seq![e0, e1, e2]);
        assert(two =~= seq![e0, e1]);
        assert(one =~= seq![e0]);
        assert(one.drop_last() =~= Seq::<(u32, u8)>::empty());
        let r3 = after.backing.set(a3, e3.1).1;
        let r2 = r3.set(a2, e2.1).1;
        let r1 = r2.set(a1, e1.1).1;
        let r0 = r1.set(address, e0.1).1;
        assert(r0.mounted =~= memory.backing.mounted);
        assert(r0.filled =~= memory.backing.filled);
        assert(undo(after.backing, added) == undo(r3, three));
        assert(undo(r3, three) == undo(r2, two));
        assert(undo(r2, two) == undo(r1, one));
        assert(undo(r1, one) == undo(r0, one.drop_last()));
    }
}

/// Extending is transitive.
pub proof fn lemma_extends_transitive(a: WatchedView, b: WatchedView, c: WatchedView)
    requires
        extends(a, b),
        extends(b, c),
    ensures
        extends(a, c),
{
    let na = a.log.len() as int;
    let nb = b.log.len() as int;
    assert(c.log.take(na) =~= c.log.take(nb).take(na));
    let first = b.log.skip(na);
    let second = c.log.skip(nb);
    assert(c.log.skip(na) =~= first + second) by {
        assert(c.log.take(nb) == b.log);
        assert forall|i: int| 0 <= i < first.len() implies c.log.skip(na)[i] == first[i] by {
            assert(c.log.take(nb)[i + na] == b.log[i + na]);
        }
    }
    lemma_undo_concat(c.backing, first, second);
    lemma_undo_same_cells(undo(c.backing, second), b.backing, first);
}

/// Every memory extends itself.
pub proof fn lemma_extends_reflexive(a: WatchedView)
    ensures
        extends(a, a),
{
    assert(a.log.take(a.log.len() as int) =~= a.log);
    assert(a.log.skip(a.log.len() as int) =~= Seq::<(u32, u8)>::empty());
}

/// Whatever bytes are written, in whatever order, undoing the journal that
/// the writes leave restores the bytes that were there before them.
pub proof fn lemma_writes_undone(memory: WatchedView, writes: Seq<(u32, u8)>)
    ensures
        extends(memory, write_all(memory, writes)),
    decreases writes.len(),
{
    if writes.len() == 0 {
        lemma_extends_reflexive(memory);
    } else {
        let earlier = write_all(memory, writes.drop_last());
        lemma_writes_undone(memory, writes.drop_last());
        lemma_undo_byte(earlier, writes.last().0, writes.last().1);
        lemma_extends_transitive(memory, earlier, write_all(memory, writes));
    }
}

/// The memory after an instruction extends the memory before it.
pub proof fn lemma_execute_extends(state: StateView, instruction: Instruction)
    ensures
        extends(state.memory, state.execute(instruction).1.memory),
{
    lemma_extends_reflexive(state.memory);
    match instruction {
        Instruction::Lb { s, t, imm } => {
            lemma_undo_byte(state.memory, state.address(s, imm), 0);
        },
        Instruction::Lbu { s, t, imm } => {
            lemma_undo_byte(state.memory, state.address(s, imm), 0);
        },
        Instruction::Lh { s, t, imm } => {
            lemma_undo_byte(state.memory, state.address(s, imm), 0);
        },
        Instruction::Lhu { s, t, imm } => {
            lemma_undo_byte(state.memory, state.address(s, imm), 0);
        },
        Instruction::Lw { s, t, imm } => {
            lemma_undo_byte(state.memory, state.address(s, imm), 0);
        },
        Instruction::Sb { s, t, imm } => {
            lemma_undo_byte(state.memory, state.address(s, imm), (state.reg(t) % 0x100) as u8);
        },
        Instruction::Sh { s, t, imm } => {
            lemma_undo_half(state.memory, state.address(s, imm), (state.reg(t) % 0x1_0000) as u16);
        },
        Instruction::Sw { s, t, imm } => {
            lemma_undo_word(state.memory, state.address(s, imm), state.reg(t));
        },
        _ => {},
    }
}

/// The memory after a step extends the memory before it.
pub proof fn lemma_step_extends(state: StateView)
    ensures
        extends(state.memory, state.step().1.memory),
{
    reveal(StateView::perform);
    let pc = state.registers.pc;
    let fetched = state.memory.get_u32(pc).1;
    lemma_undo_byte(state.memory, pc, 0);
    match state.memory.get_u32(pc).0 {
        Err(error) => {},
        Ok(word) => {
            let ready = state.with_memory(fetched).goto(crate::alu::wrap(pc + 4));
            match crate::instruction::decode(word) {
                Some(instruction) => {
                    lemma_execute_extends(ready, instruction);
                    lemma_extends_transitive(
                        state.memory,
                        fetched,
                        ready.execute(instruction).1.memory,
                    );
                },
                None => {},
            }
        },
    }
}

/// Whether two debuggers agree in all that rewinding reads: registers, bytes,
/// journal and frames.
pub open spec fn same_past(a: ExecutorView, b: ExecutorView) -> bool {
    &&& a.state.registers == b.state.registers
    &&& same_cells(a.state.memory.backing, b.state.memory.backing)
    &&& a.state.memory.log == b.state.memory.log
    &&& a.tracker == b.tracker
}

impl ExecutorView {
    /// The debugger after `count` cycles that pass breakpoints by.
    pub open spec fn cycles(self, count: nat) -> ExecutorView
        decreases count,
    {
        if count == 0 {
            self
        } else {
            self.cycles((count - 1) as nat).cycle(false).1
        }
    }

    /// Whether each of `count` cycles finds a mode in which the machine
    /// advances, so that each carries an instruction out.
    pub open spec fn advances(self, count: nat) -> bool
        decreases count,
    {
        count == 0 || (self.advances((count - 1) as nat) && !(self.cycles(
            (count - 1) as nat,
        ).mode is Invalid))
    }

    /// Whether the debugger keeps a history with room for `count` more frames
    /// and has an empty journal.
    pub open spec fn has_room(self, count: nat) -> bool {
        &&& self.tracker matches TrackerView::History(history)
        &&& history.frames.len() + count <= history.capacity
        &&& self.state.memory.log.len() == 0
    }
}

/// Rewinding treats debuggers with the same past alike.
pub proof fn lemma_rewind_same_past(a: ExecutorView, b: ExecutorView, count: nat)
    requires
        same_past(a, b),
    ensures
        same_past(a.rewind_frames(count), b.rewind_frames(count)),
    decreases count,
{
    if count > 0 {
        if a.collect().tracker.frames().len() > 0 {
            lemma_undo_same_cells(
                a.state.memory.backing,
                b.state.memory.backing,
                a.collect().tracker.frames().last().edits,
            );
            lemma_rewind_same_past(
                a.collect().rewind_one(),
                b.collect().rewind_one(),
                (count - 1) as nat,
            );
        }
    }
}

/// Taking back the frame of the cycle just taken restores the registers, the
/// bytes and the frames that were there before the cycle.
pub proof fn lemma_rewind_cycle(before: ExecutorView)
    requires
        before.has_room(1),
        !(before.mode is Invalid),
    ensures
        before.cycle(false).1.has_room(0),
        before.cycle(false).1.tracker.frames().len() == before.tracker.frames().len() + 1,
        before.cycle(false).1.tracker->History_0.capacity == before.tracker->History_0.capacity,
        same_past(before.cycle(false).1.collect().rewind_one(), before),
{
    let history = before.tracker->History_0;
    let after = before.cycle(false).1;
    let stepped = collected(before.state).step();
    let pending = Seq::<(u32, u8)>::empty();
    assert(before.state.memory.log =~= pending);
    assert(collected(before.state) == before.state);
    lemma_step_extends(before.state);
    assert(stepped.1.memory.log.skip(0) =~= stepped.1.memory.log);
    let absorbed = history.absorb(pending);
    assert(absorbed.frames =~= history.frames) by {
        if history.frames.len() > 0 {
            assert(history.frames.last().edits + pending =~= history.frames.last().edits);
        }
    }
    let edits = stepped.1.memory.log;
    let opened = absorbed.open(before.state.registers);
    let closed = opened.absorb(edits);
    assert(after.tracker == TrackerView::History(closed));
    assert(closed.frames.last().edits =~= edits);
    assert(closed.frames.drop_last() =~= history.frames);
    let again = closed.absorb(pending);
    assert(again.frames =~= closed.frames) by {
        assert(closed.frames.last().edits + pending =~= closed.frames.last().edits);
    }
    assert(after.collect().tracker == TrackerView::History(again));
    lemma_undo_same_cells(stepped.1.memory.backing, after.state.memory.backing, edits);
    assert(again.pop().frames =~= history.frames);
}

/// After any number of instructions, taking back as many frames restores the
/// registers and the bytes that were there before them, and leaves the frames
/// that were there before. This is for a history with room for the frames: a
/// full history has dropped the oldest of them, and what holds of it is
/// `lemma_rewind_restores`.
pub proof fn lemma_rewind_cycles(before: ExecutorView, count: nat)
    requires
        before.has_room(count),
        before.advances(count),
    ensures
        before.cycles(count).has_room(0),
        before.cycles(count).tracker.frames().len() == before.tracker.frames().len() + count,
        before.cycles(count).tracker->History_0.capacity == before.tracker->History_0.capacity,
        same_past(before.cycles(count).rewind_frames(count), before),
    decreases count,
{
    if count > 0 {
        let earlier = before.cycles((count - 1) as nat);
        let latest = before.cycles(count);
        lemma_rewind_cycles(before, (count - 1) as nat);
        lemma_rewind_cycle(earlier);
        lemma_rewind_same_past(latest.collect().rewind_one(), earlier, (count - 1) as nat);
    }
}

/// Taking frames back leaves the mode and the breakpoints alone.
pub proof fn lemma_rewind_pauses(before: ExecutorView, count: nat)
    ensures
        before.rewind_frames(count).mode == before.mode,
        before.rewind_frames(count).breakpoints == before.breakpoints,
    decreases count,
{
    if count > 0 && before.collect().tracker.frames().len() > 0 {
        lemma_rewind_pauses(before.collect().rewind_one(), (count - 1) as nat);
    }
}

/// Whether two debuggers agree in all that taking back `count` frames reads:
/// the registers, the bytes, and the latest `count` frames once the journal
/// is collected. Older frames, modes and breakpoints may differ.
pub open spec fn same_recent_past(a: ExecutorView, b: ExecutorView, count: nat) -> bool {
    let left = a.collect().tracker.frames();
    let right = b.collect().tracker.frames();
    &&& a.state.registers == b.state.registers
    &&& same_cells(a.state.memory.backing, b.state.memory.backing)
    &&& a.tracker is History
    &&& b.tracker is History
    &&& count <= left.len()
    &&& count <= right.len()
    &&& left.skip(left.len() - count) == right.skip(right.len() - count)
}

/// Collecting an empty journal changes no frame.
pub proof fn lemma_collect_nothing(executor: ExecutorView)
    requires
        executor.state.memory.log.len() == 0,
    ensures
        executor.collect().tracker == executor.tracker,
{
    let pending = executor.state.memory.log;
    match executor.tracker {
        TrackerView::Empty => {},
        TrackerView::History(history) => {
            if history.frames.len() > 0 {
                assert(history.frames.last().edits + pending =~= history.frames.last().edits);
            }
            assert(history.absorb(pending).frames =~= history.frames);
        },
    }
}

/// Taking frames back reads the latest frames only: debuggers that agree in
/// their latest `shared` frames agree in the registers and the bytes after up
/// to `shared` frames are taken back, and in the frames that are left.
pub proof fn lemma_rewind_recent_past(a: ExecutorView, b: ExecutorView, shared: nat, count: nat)
    requires
        same_recent_past(a, b, shared),
        count <= shared,
    ensures
        same_recent_past(a.rewind_frames(count), b.rewind_frames(count), (shared - count) as nat),
    decreases count,
{
    if count > 0 {
        let left = a.collect().tracker.frames();
        let right = b.collect().tracker.frames();
        let left_shared = left.skip(left.len() - shared);
        let right_shared = right.skip(right.len() - shared);
        assert(left.last() == left_shared[shared - 1]);
        assert(right.last() == right_shared[shared - 1]);
        lemma_undo_same_cells(a.state.memory.backing, b.state.memory.backing, left.last().edits);
        let a_back = a.collect().rewind_one();
        let b_back = b.collect().rewind_one();
        lemma_collect_nothing(a_back);
        lemma_collect_nothing(b_back);
        assert(a_back.tracker.frames() =~= left.drop_last());
        assert(b_back.tracker.frames() =~= right.drop_last());
        assert(left.drop_last().skip(left.len() - shared) =~= left_shared.drop_last());
        assert(right.drop_last().skip(right.len() - shared) =~= right_shared.drop_last());
        lemma_rewind_recent_past(a_back, b_back, (shared - 1) as nat, (count - 1) as nat);
    }
}

/// One cycle in a bounded history, full or not: the history keeps its
/// capacity and holds a frame for the cycle, and taking that frame back
/// restores the registers and the bytes, and leaves the latest of the frames
/// that were there before: all of them, but for the oldest where the history
/// was full.
pub proof fn lemma_rewind_cycle_bounded(before: ExecutorView, shared: nat)
    requires
        before.tracker matches TrackerView::History(history) && shared < history.capacity
            && shared <= history.frames.len(),
        !(before.mode is Invalid),
    ensures
        before.cycle(false).1.tracker matches TrackerView::History(history)
            && history.capacity == before.tracker->History_0.capacity
            && history.frames.len() > shared,
        same_recent_past(before.cycle(false).1.collect().rewind_one(), before, shared),
{
    let history = before.tracker->History_0;
    let after = before.cycle(false).1;
    let stepped = collected(before.state).step();
    let edits = stepped.1.memory.log;
    lemma_step_extends(collected(before.state));
    assert(edits.skip(0) =~= edits);
    let kept = history.absorb(before.state.memory.log);
    assert(before.collect().tracker == TrackerView::History(kept));
    let opened = kept.open(before.state.registers);
    let closed = opened.absorb(edits);
    assert(after.tracker == TrackerView::History(closed));
    assert(closed.frames.last().edits =~= edits);
    lemma_collect_nothing(after);
    let back = after.collect().rewind_one();
    lemma_collect_nothing(back);
    let left = back.tracker.frames();
    assert(left =~= opened.frames.drop_last());
    if kept.frames.len() >= kept.capacity {
        assert(left =~= kept.frames.skip(1));
        assert(left.skip(left.len() - shared) =~= kept.frames.skip(kept.frames.len() - shared));
    } else {
        assert(left =~= kept.frames);
    }
}

/// Rewinding restores the machine, whether or not the history was full: after
/// any number of instructions that the history has the capacity for, taking
/// back as many frames restores the registers and the bytes that were there
/// before those instructions. The journal need not be empty at the start, and
/// the history may have dropped older frames on the way.
pub proof fn lemma_rewind_frames_restore(before: ExecutorView, count: nat)
    requires
        before.tracker matches TrackerView::History(history) && count <= history.capacity,
        before.advances(count),
    ensures
        before.cycles(count).tracker matches TrackerView::History(history)
            && history.capacity == before.tracker->History_0.capacity
            && history.frames.len() >= count,
        before.cycles(count).rewind_frames(count).state.registers == before.state.registers,
        same_cells(
            before.cycles(count).rewind_frames(count).state.memory.backing,
            before.state.memory.backing,
        ),
    decreases count,
{
    if count > 0 {
        let earlier = before.cycles((count - 1) as nat);
        let latest = before.cycles(count);
        lemma_rewind_frames_restore(before, (count - 1) as nat);
        lemma_rewind_cycle_bounded(earlier, (count - 1) as nat);
        lemma_collect_nothing(latest);
        let back = latest.collect().rewind_one();
        lemma_rewind_recent_past(back, earlier, (count - 1) as nat, (count - 1) as nat);
    }
}

/// The law of rewinding: let a debugger with a history carry out `count`
/// instructions, no more than the history keeps, and then rewind by `count`.
/// The program counter, the registers, `hi`, `lo` and every byte of memory
/// are then what they were before the instructions, and the debugger is
/// paused. This holds of a history that was full before as of one with room.
pub proof fn lemma_rewind_restores(before: ExecutorView, count: nat)
    requires
        before.tracker matches TrackerView::History(history) && count <= history.capacity,
        before.advances(count),
    ensures
        before.cycles(count).rewind(count).state.registers == before.state.registers,
        same_cells(
            before.cycles(count).rewind(count).state.memory.backing,
            before.state.memory.backing,
        ),
        forall|address: u32|
            before.cycles(count).rewind(count).state.memory.backing.cell(address)
                == before.state.memory.backing.cell(address),
        before.cycles(count).rewind(count).mode == ExecutorMode::Paused,
        before.cycles(count).rewind(count).breakpoints == before.cycles(count).breakpoints,
{
    let latest = before.cycles(count);
    lemma_rewind_pauses(latest.with_mode(ExecutorMode::Paused), count);
    lemma_rewind_frames_restore(before, count);
    let paused = latest.with_mode(ExecutorMode::Paused);
    let frames = latest.collect().tracker.frames();
    assert(paused.collect().tracker == latest.collect().tracker);
    assert(frames.len() >= count) by {
        match latest.tracker {
            TrackerView::Empty => {},
            TrackerView::History(history) => {
                assert(history.absorb(latest.state.memory.log).frames.len()
                    == history.frames.len());
            },
        }
    }
    lemma_rewind_recent_past(paused, latest, count, count);
}

} // verus!
