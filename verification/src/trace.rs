//! Trace ring buffer: fixed size, no heap growth after creation. Producers
//! (IRQ, syscall, scheduler) append entries; the panic handler dumps the
//! most recent ones.

use vstd::prelude::*;

verus! {

/// Number of entries in the ring.
pub const TRACE_CAPACITY: usize = 1024;

/// Entries dumped on panic.
pub const TRACE_DUMP_COUNT: usize = 32;

/// Kind of a trace event.
#[derive(Debug, Clone, Copy, PartialEq, Eq, Structural)]
pub enum TraceEvent {
    ContextSwitch,
    SyscallEnter,
    SyscallExit,
    IrqEnter,
    IrqExit,
    SchedDecision,
    IrqTimerTick,
    /// Full context switch: old tid, old state, new tid, new state.
    SchedSwitch,
    /// Thread state transition: tid, state before, state after, reason.
    SchedState,
    /// Lock event: lock id, owner tid, event type (0 lock, 1 unlock, 2 contend).
    LockEvent,
    /// Timer IRQ preemption decision: decision, tid, interrupted cs, has non-idle.
    TimerIrqInfo,
    Panic,
}

impl TraceEvent {
    /// The event's byte code (its `repr`).
    pub open spec fn spec_code(self) -> u8 {
        match self {
            TraceEvent::ContextSwitch => 0x01,
            TraceEvent::SyscallEnter => 0x02,
            TraceEvent::SyscallExit => 0x03,
            TraceEvent::IrqEnter => 0x04,
            TraceEvent::IrqExit => 0x05,
            TraceEvent::SchedDecision => 0x06,
            TraceEvent::IrqTimerTick => 0x07,
            TraceEvent::SchedSwitch => 0x08,
            TraceEvent::SchedState => 0x09,
            TraceEvent::LockEvent => 0x0A,
            TraceEvent::TimerIrqInfo => 0x0B,
            TraceEvent::Panic => 0xFF,
        }
    }

    /// The event's byte code.
    pub fn code(self) -> (c: u8)
        ensures
            c == self.spec_code(),
    {
        match self {
            TraceEvent::ContextSwitch => 0x01,
            TraceEvent::SyscallEnter => 0x02,
            TraceEvent::SyscallExit => 0x03,
            TraceEvent::IrqEnter => 0x04,
            TraceEvent::IrqExit => 0x05,
            TraceEvent::SchedDecision => 0x06,
            TraceEvent::IrqTimerTick => 0x07,
            TraceEvent::SchedSwitch => 0x08,
            TraceEvent::SchedState => 0x09,
            TraceEvent::LockEvent => 0x0A,
            TraceEvent::TimerIrqInfo => 0x0B,
            TraceEvent::Panic => 0xFF,
        }
    }
}

/// One trace record.
#[derive(Debug, Clone, Copy, PartialEq, Eq, Structural)]
pub struct TraceEntry {
    pub tick: u64,
    pub event: TraceEvent,
    pub arg0: u64,
    pub arg1: u64,
    pub arg2: u64,
    pub arg3: u64,
}

/// The ring: `TRACE_CAPACITY` entries and a 16-bit write counter that wraps.
pub struct TraceBuffer {
    entries: Vec<TraceEntry>,
    head: u16,
}

/// The zero entry the ring is filled with at creation.
pub open spec fn zero_entry() -> TraceEntry {
    TraceEntry { tick: 0, event: TraceEvent::ContextSwitch, arg0: 0, arg1: 0, arg2: 0, arg3: 0 }
}

/// Slot of the ring that the `i`-th write counter value selects.
pub open spec fn slot_of(i: int) -> int {
    i % (TRACE_CAPACITY as int)
}

impl TraceBuffer {
    pub closed spec fn wf(&self) -> bool {
        self.entries@.len() == TRACE_CAPACITY
    }

    /// Contents of the ring slots.
    pub closed spec fn slots(&self) -> Seq<TraceEntry> {
        self.entries@
    }

    /// The write counter.
    pub closed spec fn spec_head(&self) -> u16 {
        self.head
    }

    /// How many entries `dump(count)` reports: `count`, at most the ring's
    /// capacity, at most the writes recorded by the counter.
    pub open spec fn dump_len(&self, count: nat) -> int {
        let n = if count < TRACE_CAPACITY { count as int } else { TRACE_CAPACITY as int };
        if self.spec_head() >= n { n } else { self.spec_head() as int }
    }

    /// The entries that `dump(count)` reports, oldest first: the slots
    /// selected by the last `dump_len(count)` counter values before `head`.
    pub open spec fn spec_dump(&self, count: nat) -> Seq<TraceEntry> {
        let head = self.spec_head() as int;
        let start = head - self.dump_len(count);
        Seq::new((head - start) as nat, |k: int| self.slots()[slot_of(start + k)])
    }

    /// A ring of zero entries with the counter at 0.
    pub fn new() -> (b: Self)
        ensures
            b.wf(),
            b.spec_head() == 0,
            forall|i: int| 0 <= i < TRACE_CAPACITY ==> #[trigger] b.slots()[i] == zero_entry(),
    {
        let mut entries: Vec<TraceEntry> = Vec::new();
        let mut i: usize = 0;
        while i < TRACE_CAPACITY
            invariant
                i <= TRACE_CAPACITY,
                entries@.len() == i,
                forall|j: int| 0 <= j < i ==> #[trigger] entries@[j] == zero_entry(),
            decreases TRACE_CAPACITY - i,
        {
            entries.push(
                TraceEntry {
                    tick: 0,
                    event: TraceEvent::ContextSwitch,
                    arg0: 0,
                    arg1: 0,
                    arg2: 0,
                    arg3: 0,
                },
            );
            i = i + 1;
        }
        TraceBuffer { entries, head: 0 }
    }

    /// The write counter.
    pub fn head(&self) -> (h: u16)
        ensures
            h == self.spec_head(),
    {
        self.head
    }

    /// Record one entry stamped with `tick` in the slot the counter selects,
    /// then advance the counter (wrapping at 2^16).
    pub fn write(&mut self, event: TraceEvent, arg0: u64, arg1: u64, arg2: u64, arg3: u64, tick: u64)
        requires
            old(self).wf(),
        ensures
            final(self).wf(),
            final(self).spec_head() == (if old(self).spec_head() == u16::MAX {
                0
            } else {
                old(self).spec_head() + 1
            }),
            final(self).slots() == old(self).slots().update(
                slot_of(old(self).spec_head() as int),
                TraceEntry { tick, event, arg0, arg1, arg2, arg3 },
            ),
    {
        let idx = (self.head as usize) % TRACE_CAPACITY;
        self.head = self.head.wrapping_add(1);
        self.entries.set(idx, TraceEntry { tick, event, arg0, arg1, arg2, arg3 });
    }

    /// The most recent `count` entries (at most a ring's worth), oldest
    /// first.
    pub fn dump(&self, count: usize) -> (r: Vec<TraceEntry>)
        requires
            self.wf(),
        ensures
            r@ == self.spec_dump(count as nat),
    {
        let head = self.head as usize;
        let n = if count < TRACE_CAPACITY {
            count
        } else {
            TRACE_CAPACITY
        };
        let start = head.saturating_sub(n);
        let mut r: Vec<TraceEntry> = Vec::new();
        let mut i: usize = start;
        while i < head
            invariant
                self.wf(),
                start <= i <= head,
                head == self.spec_head(),
                start == head - self.dump_len(count as nat),
                r@.len() == i - start,
                forall|k: int| 0 <= k < r@.len() ==> #[trigger] r@[k] == self.slots()[slot_of(start + k)],
            decreases head - i,
        {
            r.push(self.entries[i % TRACE_CAPACITY]);
            i = i + 1;
        }
        assert(r@ =~= self.spec_dump(count as nat));
        r
    }

    /// The ring holds the history `hist` of writes: the counter is the
    /// number of writes, and each of the last `TRACE_CAPACITY` writes is in
    /// the slot its counter value selects.
    pub open spec fn holds_history(&self, hist: Seq<TraceEntry>) -> bool {
        &&& self.spec_head() == hist.len()
        &&& forall|i: int|
            0 <= i < hist.len() && hist.len() - TRACE_CAPACITY <= i ==> #[trigger] hist[i]
                == self.slots()[slot_of(i)]
    }

    /// A new ring holds the empty history.
    pub proof fn lemma_new_holds_history(buf: &Self)
        requires
            buf.spec_head() == 0,
        ensures
            buf.holds_history(Seq::empty()),
    {
    }

    /// A write that does not wrap the counter appends its entry to the
    /// history the ring holds.
    pub proof fn lemma_write_extends_history(
        old_buf: &Self,
        new_buf: &Self,
        hist: Seq<TraceEntry>,
        written: TraceEntry,
    )
        requires
            old_buf.wf(),
            old_buf.holds_history(hist),
            hist.len() < u16::MAX,
            new_buf.spec_head() == old_buf.spec_head() + 1,
            new_buf.slots() == old_buf.slots().update(slot_of(old_buf.spec_head() as int), written),
        ensures
            new_buf.holds_history(hist.push(written)),
    {
        let n = hist.len() as int;
        let h2 = hist.push(written);
        assert forall|i: int|
            0 <= i < h2.len() && h2.len() - TRACE_CAPACITY <= i implies #[trigger] h2[i]
                == new_buf.slots()[slot_of(i)] by {
            if i < n {
                assert(slot_of(i) != slot_of(n)) by (nonlinear_arith)
                    requires
                        0 <= i < n,
                        n + 1 - 1024 <= i,
                        slot_of(i) == i % 1024,
                        slot_of(n) == n % 1024,
                ;
                assert(hist[i] == old_buf.slots()[slot_of(i)]);
            }
        }
    }

    /// A dump reports the most recent writes: with the history of writes
    /// held, `dump(count)` gives its last `count` entries (at most a
    /// ring's worth, at most all of them), oldest first.
    pub proof fn lemma_dump_is_most_recent(buf: &Self, hist: Seq<TraceEntry>, count: nat)
        requires
            buf.wf(),
            buf.holds_history(hist),
        ensures
            buf.spec_dump(count) == hist.subrange(
                hist.len() - buf.dump_len(count),
                hist.len() as int,
            ),
    {
        let start = hist.len() - buf.dump_len(count);
        assert forall|k: int| 0 <= k < buf.dump_len(count) implies #[trigger] buf.spec_dump(count)[k]
            == hist[start + k] by {}
        assert(buf.spec_dump(count) =~= hist.subrange(start, hist.len() as int));
    }
}

} // verus!
