//! Two-level deferred work queue (bottom half).
//!
//! Work is queued with two priority levels: the high-priority queue is
//! drained on the syscall return path, the low-priority queue in the idle
//! loop. Each queue is a fixed ring of `CAPACITY` slots that holds at most
//! `CAPACITY - 1` items (`head == tail` means empty) and hands items out in
//! the order they were pushed.

use vstd::prelude::*;

verus! {

/// Number of slots in one ring.
pub const CAPACITY: usize = 64;

/// Number of items in a ring with the given head and tail.
pub open spec fn ring_len(head: int, tail: int) -> int {
    if tail >= head {
        tail - head
    } else {
        CAPACITY - head + tail
    }
}

/// A single FIFO work queue over a fixed ring of `CAPACITY` slots.
pub struct WorkQueue<T> {
    entries: Vec<Option<T>>,
    head: usize,
    tail: usize,
    pending: bool,
}

impl<T: Copy> WorkQueue<T> {
    /// The well-formedness invariant of the ring.
    pub closed spec fn wf(&self) -> bool {
        &&& self.entries@.len() == CAPACITY
        &&& self.head < CAPACITY
        &&& self.tail < CAPACITY
        &&& forall|i: int|
            0 <= i < ring_len(self.head as int, self.tail as int) ==> (#[trigger] self.entries@[(
            self.head + i) % (CAPACITY as int)]) is Some
        &&& self.pending == (ring_len(self.head as int, self.tail as int) > 0)
    }

    /// The queued items, oldest first.
    pub closed spec fn view(&self) -> Seq<T> {
        Seq::new(
            ring_len(self.head as int, self.tail as int) as nat,
            |i: int| self.entries@[(self.head + i) % (CAPACITY as int)]->Some_0,
        )
    }

    /// Whether the pending flag is raised.
    pub closed spec fn spec_pending(&self) -> bool {
        self.pending
    }

    /// An empty queue.
    pub fn new() -> (q: Self)
        ensures
            q.wf(),
            q@ == Seq::<T>::empty(),
            !q.spec_pending(),
    {
        let mut entries: Vec<Option<T>> = Vec::new();
        let mut i: usize = 0;
        while i < CAPACITY
            invariant
                i <= CAPACITY,
                entries@.len() == i,
            decreases CAPACITY - i,
        {
            entries.push(None);
            i = i + 1;
        }
        let q = WorkQueue { entries, head: 0, tail: 0, pending: false };
        assert(q@ =~= Seq::<T>::empty());
        q
    }

    /// Push an item at the back. Returns `false`, leaving the queue
    /// unchanged, when the queue already holds `CAPACITY - 1` items.
    #[verifier::rlimit(30)]
    pub fn push(&mut self, item: T) -> (ok: bool)
        requires
            old(self).wf(),
        ensures
            final(self).wf(),
            ok == (old(self)@.len() < CAPACITY - 1),
            ok ==> final(self)@ == old(self)@.push(item),
            !ok ==> final(self)@ == old(self)@,
            final(self).spec_pending() == (final(self)@.len() > 0),
    {
        let tail = self.tail;
        let head = self.head;
        let next = (tail + 1) % CAPACITY;
        if next == head {
            return false;
        }
        let ghost old_view = self@;
        self.entries.set(tail, Some(item));
        self.tail = next;
        self.pending = true;
        assert forall|i: int|
            0 <= i < ring_len(self.head as int, self.tail as int) implies (#[trigger] self.entries@[(
            self.head + i) % (CAPACITY as int)]) is Some by {
            if i < ring_len(head as int, tail as int) {
                assert((head + i) % (CAPACITY as int) != tail as int);
            }
        }
        assert(self@ =~= old_view.push(item)) by {
            assert forall|i: int| 0 <= i < old_view.len() implies #[trigger] self@[i] == old_view[i] by {
                assert((head + i) % (CAPACITY as int) != tail as int);
            }
        }
        true
    }

    /// Pop the oldest item. On an empty queue returns `None` and lowers the
    /// pending flag; the flag is also lowered when the last item leaves.
    pub fn pop(&mut self) -> (r: Option<T>)
        requires
            old(self).wf(),
        ensures
            final(self).wf(),
            old(self)@.len() == 0 ==> r is None && final(self)@ == old(self)@,
            old(self)@.len() > 0 ==> r == Some(old(self)@[0]) && final(self)@ == old(self)@.drop_first(),
            final(self).spec_pending() == (final(self)@.len() > 0),
    {
        let head = self.head;
        let tail = self.tail;
        if head == tail {
            self.pending = false;
            return None;
        }
        let ghost old_view = self@;
        let entry = self.entries[head];
        let new_head = (head + 1) % CAPACITY;
        self.head = new_head;
        if new_head == tail {
            self.pending = false;
        }
        assert(head % CAPACITY == head);
        assert(self.entries@[(head + 0) % (CAPACITY as int)] is Some);
        assert forall|i: int|
            0 <= i < ring_len(self.head as int, self.tail as int) implies (#[trigger] self.entries@[(
            self.head + i) % (CAPACITY as int)]) is Some by {
            assert((new_head + i) % (CAPACITY as int) == (head + (i + 1)) % (CAPACITY as int));
            assert(self.entries@[(head + (i + 1)) % (CAPACITY as int)] is Some);
        }
        assert(self@ =~= old_view.drop_first()) by {
            assert forall|i: int| 0 <= i < self@.len() implies #[trigger] self@[i] == old_view.drop_first()[i] by {
                assert((new_head + i) % (CAPACITY as int) == (head + (i + 1)) % (CAPACITY as int));
            }
        }
        entry
    }

    /// Whether the queue holds no item.
    pub fn is_empty(&self) -> (b: bool)
        requires
            self.wf(),
        ensures
            b == (self@.len() == 0),
    {
        self.head == self.tail
    }

    /// Number of queued items.
    pub fn pending_count(&self) -> (n: usize)
        requires
            self.wf(),
        ensures
            n == self@.len(),
    {
        let head = self.head;
        let tail = self.tail;
        if tail >= head {
            tail - head
        } else {
            CAPACITY - head + tail
        }
    }

    /// Whether work is pending (raised by a push, lowered when the queue
    /// is found or left empty).
    pub fn pending(&self) -> (b: bool)
        requires
            self.wf(),
        ensures
            b == self.spec_pending(),
            b == (self@.len() > 0),
    {
        self.pending
    }

    /// Drain the queue, running `run` on every item, oldest first. Returns
    /// the outcome of each run in queue order (as many as there were items):
    /// outcome `i` is what `run` gave for the `i`-th queued item.
    pub fn drain<R, F: Fn(T) -> R>(&mut self, run: &F) -> (outcomes: Vec<R>)
        requires
            old(self).wf(),
            forall|t: T| run.requires((t,)),
        ensures
            final(self).wf(),
            outcomes@.len() == old(self)@.len(),
            forall|i: int|
                0 <= i < old(self)@.len() ==> run.ensures((old(self)@[i],), #[trigger] outcomes@[i]),
            final(self)@.len() == 0,
            !final(self).spec_pending(),
    {
        let ghost items = self@;
        let mut outcomes: Vec<R> = Vec::new();
        loop
            invariant
                self.wf(),
                forall|t: T| run.requires((t,)),
                items == old(self)@,
                items.len() < CAPACITY,
                outcomes@.len() + self@.len() == items.len(),
                self@ == items.subrange(outcomes@.len() as int, items.len() as int),
                forall|i: int|
                    0 <= i < outcomes@.len() ==> run.ensures((items[i],), #[trigger] outcomes@[i]),
            ensures
                self.wf(),
                outcomes@.len() == items.len(),
                self@.len() == 0,
                !self.spec_pending(),
                forall|i: int|
                    0 <= i < outcomes@.len() ==> run.ensures((items[i],), #[trigger] outcomes@[i]),
            decreases self@.len(),
        {
            let ghost before = self@;
            match self.pop() {
                Some(item) => {
                    assert(item == items[outcomes@.len() as int]);
                    let r = run(item);
                    outcomes.push(r);
                    assert(self@ =~= items.subrange(outcomes@.len() as int, items.len() as int));
                },
                None => {
                    break;
                },
            }
        }
        outcomes
    }

    /// The ring never holds more than `CAPACITY - 1` items.
    pub proof fn lemma_bounded(&self)
        requires
            self.wf(),
        ensures
            self@.len() < CAPACITY,
    {
    }
}

/// Two-level work queue manager: `high` is drained eagerly on the syscall
/// return path, `low` lazily in the idle loop.
pub struct WorkQueueManager<T> {
    pub high: WorkQueue<T>,
    pub low: WorkQueue<T>,
}

impl<T: Copy> WorkQueueManager<T> {
    pub open spec fn wf(&self) -> bool {
        self.high.wf() && self.low.wf()
    }

    /// Both queues empty.
    pub fn new() -> (m: Self)
        ensures
            m.wf(),
            m.high@ == Seq::<T>::empty(),
            m.low@ == Seq::<T>::empty(),
    {
        WorkQueueManager { high: WorkQueue::new(), low: WorkQueue::new() }
    }

    /// Push a high-priority work item.
    pub fn push_high(&mut self, item: T) -> (ok: bool)
        requires
            old(self).wf(),
        ensures
            final(self).wf(),
            final(self).low@ == old(self).low@,
            ok == (old(self).high@.len() < CAPACITY - 1),
            ok ==> final(self).high@ == old(self).high@.push(item),
            !ok ==> final(self).high@ == old(self).high@,
    {
        self.high.push(item)
    }

    /// Push a low-priority work item.
    pub fn push_low(&mut self, item: T) -> (ok: bool)
        requires
            old(self).wf(),
        ensures
            final(self).wf(),
            final(self).high@ == old(self).high@,
            ok == (old(self).low@.len() < CAPACITY - 1),
            ok ==> final(self).low@ == old(self).low@.push(item),
            !ok ==> final(self).low@ == old(self).low@,
    {
        self.low.push(item)
    }

    /// Run every high-priority item, oldest first, and empty the high
    /// queue; the low queue is left as it is. Returns each run's outcome in
    /// queue order (their number is how many items ran).
    pub fn process_high<R, F: Fn(T) -> R>(&mut self, run: &F) -> (outcomes: Vec<R>)
        requires
            old(self).wf(),
            forall|t: T| run.requires((t,)),
        ensures
            final(self).wf(),
            outcomes@.len() == old(self).high@.len(),
            forall|i: int|
                0 <= i < old(self).high@.len() ==> run.ensures(
                    (old(self).high@[i],),
                    #[trigger] outcomes@[i],
                ),
            final(self).high@.len() == 0,
            final(self).low@ == old(self).low@,
    {
        self.high.drain(run)
    }

    /// Run every low-priority item, oldest first, and empty the low queue;
    /// the high queue is left as it is. Returns each run's outcome in queue
    /// order.
    pub fn process_low<R, F: Fn(T) -> R>(&mut self, run: &F) -> (outcomes: Vec<R>)
        requires
            old(self).wf(),
            forall|t: T| run.requires((t,)),
        ensures
            final(self).wf(),
            outcomes@.len() == old(self).low@.len(),
            forall|i: int|
                0 <= i < old(self).low@.len() ==> run.ensures(
                    (old(self).low@[i],),
                    #[trigger] outcomes@[i],
                ),
            final(self).low@.len() == 0,
            final(self).high@ == old(self).high@,
    {
        self.low.drain(run)
    }

    /// Process both queues: every high-priority item first, then every
    /// low-priority item, each queue oldest first. Returns the outcomes of
    /// the high and of the low runs, each in queue order.
    pub fn process_all<R, F: Fn(T) -> R>(&mut self, run: &F) -> (outcomes: (Vec<R>, Vec<R>))
        requires
            old(self).wf(),
            forall|t: T| run.requires((t,)),
        ensures
            final(self).wf(),
            outcomes.0@.len() == old(self).high@.len(),
            outcomes.1@.len() == old(self).low@.len(),
            forall|i: int|
                0 <= i < old(self).high@.len() ==> run.ensures(
                    (old(self).high@[i],),
                    #[trigger] outcomes.0@[i],
                ),
            forall|i: int|
                0 <= i < old(self).low@.len() ==> run.ensures(
                    (old(self).low@[i],),
                    #[trigger] outcomes.1@[i],
                ),
            final(self).high@.len() == 0,
            final(self).low@.len() == 0,
    {
        let high = self.process_high(run);
        let low = self.process_low(run);
        (high, low)
    }
}

} // verus!
