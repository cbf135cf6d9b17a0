//! Terminate-and-stay-resident programs: images loaded into a dedicated
//! memory window and bound to an interrupt vector.

use vstd::prelude::*;

verus! {

/// Largest TSR image.
pub const MAX_TSR_SIZE: usize = 65536;

/// Number of TSR slots.
pub const MAX_TSRS: usize = 16;

/// Start of the TSR memory window.
pub const TSR_WINDOW_START: u64 = 0x430000;

/// End of the TSR memory window.
pub const TSR_WINDOW_END: u64 = 0x500000;

/// A resident program.
#[derive(Debug, Clone, Copy)]
pub struct TsrInfo {
    /// Name: the first (at most) 16 bytes of the file name, zero padded.
    pub name: [u8; 16],
    pub base_address: u64,
    pub size: usize,
    pub interrupt_num: u8,
}

/// The resident programs and the next load address.
pub struct TsrRegistry {
    pub programs: Vec<Option<TsrInfo>>,
    pub next_address: u64,
}

/// `x` rounded up to a multiple of 4 KiB.
pub open spec fn align_4k(x: int) -> int {
    ((x + 0xFFF) / 0x1000) * 0x1000
}

/// Index of the first free slot (`s.len()` if none).
pub open spec fn first_free(s: Seq<Option<TsrInfo>>) -> int
    decreases s.len(),
{
    if s.len() == 0 {
        0
    } else if s[0] is None {
        0
    } else {
        1 + first_free(s.drop_first())
    }
}

proof fn lemma_first_free_at(s: Seq<Option<TsrInfo>>, i: int)
    requires
        0 <= i <= s.len(),
        forall|j: int| 0 <= j < i ==> (#[trigger] s[j]) is Some,
        i < s.len() ==> s[i] is None,
    ensures
        first_free(s) == i,
    decreases s.len(),
{
    if s.len() > 0 && i > 0 {
        assert forall|j: int| 0 <= j < i - 1 implies (#[trigger] s.drop_first()[j]) is Some by {
            assert(s.drop_first()[j] == s[j + 1]);
        }
        lemma_first_free_at(s.drop_first(), i - 1);
    }
}

/// Whether some program is bound to `vector`.
pub open spec fn vector_claimed(s: Seq<Option<TsrInfo>>, vector: u8) -> bool {
    exists|j: int| 0 <= j < s.len() && ((#[trigger] s[j]) matches Some(info) && info.interrupt_num == vector)
}

/// The name field for a file name: its first (at most) 16 bytes, zero
/// padded.
pub open spec fn spec_tsr_name(filename: Seq<u8>) -> Seq<u8> {
    Seq::new(16, |i: int| if i < filename.len() { filename[i] } else { 0u8 })
}

impl TsrRegistry {
    /// The program slots.
    pub open spec fn slots(&self) -> Seq<Option<TsrInfo>> {
        self.programs@
    }

    pub open spec fn wf(&self) -> bool {
        self.slots().len() == MAX_TSRS && self.next_address <= TSR_WINDOW_END
    }

    /// The loaded images lie in the window, below the next load address,
    /// and do not overlap.
    pub open spec fn layout_ok(&self) -> bool {
        &&& TSR_WINDOW_START <= self.next_address
        &&& forall|i: int|
            0 <= i < self.slots().len() ==> (#[trigger] self.slots()[i] matches Some(p) ==> {
                &&& TSR_WINDOW_START <= p.base_address
                &&& p.base_address + p.size <= self.next_address
            })
        &&& forall|i: int, j: int|
            0 <= i < self.slots().len() && 0 <= j < self.slots().len() && i != j ==> (
            #[trigger] self.slots()[i] matches Some(p) ==> (#[trigger] self.slots()[j] matches Some(
                q,
            ) ==> p.base_address + p.size <= q.base_address || q.base_address + q.size
                <= p.base_address))
    }

    /// No programs; loading starts at the beginning of the window.
    pub fn new() -> (r: Self)
        ensures
            r.wf(),
            r.layout_ok(),
            r.next_address == TSR_WINDOW_START,
            forall|i: int| 0 <= i < MAX_TSRS ==> (#[trigger] r.slots()[i]) is None,
    {
        let mut programs: Vec<Option<TsrInfo>> = Vec::new();
        let mut i: usize = 0;
        while i < MAX_TSRS
            invariant
                i <= MAX_TSRS,
                programs@.len() == i,
                forall|j: int| 0 <= j < i ==> (#[trigger] programs@[j]) is None,
            decreases MAX_TSRS - i,
        {
            programs.push(None);
            i = i + 1;
        }
        TsrRegistry { programs, next_address: TSR_WINDOW_START }
    }

    /// Register a program image of `size` bytes read from `filename`, bound
    /// to `interrupt_num`. It is placed at the next load address (the caller
    /// copies the image there). Refused when it does not fit in the window,
    /// when the vector is already claimed, or when every slot is taken;
    /// otherwise it takes the first free slot and the next load address
    /// moves to the 4 KiB boundary after the image.
    pub fn install(&mut self, filename: &[u8], interrupt_num: u8, size: usize) -> (r: Result<u64, ()>)
        requires
            old(self).wf(),
            size <= MAX_TSR_SIZE,
        ensures
            final(self).wf(),
            old(self).layout_ok() ==> final(self).layout_ok(),
            r matches Ok(a) ==> spec_handlers_for(final(self).slots(), interrupt_num) == seq![a],
            old(self).next_address + size > TSR_WINDOW_END ==> r is Err && final(self).slots() == old(
                self,
            ).slots() && final(self).next_address == old(self).next_address,
            old(self).next_address + size <= TSR_WINDOW_END && vector_claimed(
                old(self).slots(),
                interrupt_num,
            ) ==> r is Err && final(self).slots() == old(self).slots() && final(self).next_address
                == old(self).next_address,
            old(self).next_address + size <= TSR_WINDOW_END && !vector_claimed(
                old(self).slots(),
                interrupt_num,
            ) && first_free(old(self).slots()) >= MAX_TSRS ==> r is Err && final(self).slots()
                == old(self).slots() && final(self).next_address == old(self).next_address,
            old(self).next_address + size <= TSR_WINDOW_END && !vector_claimed(
                old(self).slots(),
                interrupt_num,
            ) && first_free(old(self).slots()) < MAX_TSRS ==> r == Ok::<u64, ()>(
                old(self).next_address,
            ) && final(self).next_address == align_4k(old(self).next_address + size)
                && final(self).slots() == old(self).slots().update(
                first_free(old(self).slots()),
                Some(
                    TsrInfo {
                        name: final(self).slots()[first_free(old(self).slots())]->0.name,
                        base_address: old(self).next_address,
                        size,
                        interrupt_num,
                    },
                ),
            ) && final(self).slots()[first_free(old(self).slots())]->0.name@ == spec_tsr_name(
                filename@,
            ),
    {
        let addr = self.next_address;
        if addr + size as u64 > TSR_WINDOW_END {
            return Err(());
        }
        let mut j: usize = 0;
        while j < MAX_TSRS
            invariant
                self.wf(),
                self.slots() == old(self).slots(),
                self.next_address == old(self).next_address,
                j <= MAX_TSRS,
                forall|k: int|
                    0 <= k < j ==> !((#[trigger] self.slots()[k]) matches Some(info)
                        && info.interrupt_num == interrupt_num),
            decreases MAX_TSRS - j,
        {
            match self.programs[j] {
                Some(info) => {
                    if info.interrupt_num == interrupt_num {
                        return Err(());
                    }
                },
                None => {},
            }
            j = j + 1;
        }
        let mut i: usize = 0;
        while i < MAX_TSRS
            invariant
                self.wf(),
                self.slots() == old(self).slots(),
                self.next_address == old(self).next_address,
                !vector_claimed(self.slots(), interrupt_num),
                addr == old(self).next_address,
                addr + size <= TSR_WINDOW_END,
                i <= MAX_TSRS,
                forall|k: int| 0 <= k < i ==> (#[trigger] self.slots()[k]) is Some,
            decreases MAX_TSRS - i,
        {
            if self.programs[i].is_none() {
                proof {
                    lemma_first_free_at(self.slots(), i as int);
                }
                let mut name = [0u8; 16];
                let len = if filename.len() < 16 {
                    filename.len()
                } else {
                    16
                };
                let mut k: usize = 0;
                while k < len
                    invariant
                        len <= 16,
                        len <= filename@.len(),
                        len == (if filename@.len() < 16 { filename@.len() } else { 16 }),
                        k <= len,
                        name@.len() == 16,
                        forall|m: int| 0 <= m < k ==> name@[m] == filename@[m],
                        forall|m: int| k <= m < 16 ==> name@[m] == 0u8,
                    decreases len - k,
                {
                    name[k] = filename[k];
                    k = k + 1;
                }
                assert(name@ =~= spec_tsr_name(filename@));
                self.programs.set(
                    i,
                    Some(TsrInfo { name, base_address: addr, size, interrupt_num }),
                );
                let end = addr + size as u64;
                let e2 = end + 0xFFF;
                self.next_address = e2 & !0xFFFu64;
                assert(e2 & !0xFFFu64 == (e2 / 0x1000) * 0x1000) by (bit_vector)
                    requires
                        e2 <= 0x501000,
                ;
                assert(self.slots() =~= old(self).slots().update(
                    i as int,
                    Some(TsrInfo { name, base_address: addr, size, interrupt_num }),
                ));
                proof {
                    lemma_single_handler(old(self).slots(), i as int, Some(TsrInfo { name, base_address: addr, size, interrupt_num }));
                    assert(addr <= align_4k(addr + size)) by (nonlinear_arith)
                        requires addr >= 0, size >= 0, ;
                    assert(addr + size <= align_4k(addr + size)) by (nonlinear_arith)
                        requires addr >= 0, size >= 0, ;
                }
                return Ok(addr);
            }
            i = i + 1;
        }
        proof {
            lemma_first_free_at(self.slots(), MAX_TSRS as int);
        }
        Err(())
    }

    /// Entry addresses of the programs bound to `interrupt_num`, in slot
    /// order (each is called in turn when the interrupt is dispatched).
    pub fn handlers_for(&self, interrupt_num: u8) -> (r: Vec<u64>)
        requires
            self.wf(),
        ensures
            r@ == spec_handlers_for(self.slots(), interrupt_num),
    {
        let mut r: Vec<u64> = Vec::new();
        let mut i: usize = 0;
        while i < MAX_TSRS
            invariant
                self.wf(),
                i <= MAX_TSRS,
                r@ == spec_handlers_for(self.slots().subrange(0, i as int), interrupt_num),
            decreases MAX_TSRS - i,
        {
            let ghost pre = self.slots().subrange(0, i as int);
            assert(self.slots().subrange(0, i + 1).drop_last() =~= pre);
            match self.programs[i] {
                Some(info) => {
                    if info.interrupt_num == interrupt_num {
                        r.push(info.base_address);
                    }
                },
                None => {},
            }
            i = i + 1;
        }
        assert(self.slots().subrange(0, MAX_TSRS as int) =~= self.slots());
        r
    }
}

/// Entry addresses of the programs in `s` bound to `vector`, in order.
pub open spec fn spec_handlers_for(s: Seq<Option<TsrInfo>>, vector: u8) -> Seq<u64>
    decreases s.len(),
{
    if s.len() == 0 {
        Seq::empty()
    } else {
        let rest = spec_handlers_for(s.drop_last(), vector);
        match s.last() {
            Some(info) => if info.interrupt_num == vector {
                rest.push(info.base_address)
            } else {
                rest
            },
            None => rest,
        }
    }
}

/// With no program bound to `vector`, putting one bound to it into a free
/// slot leaves exactly its entry address as the vector's handlers.
proof fn lemma_single_handler(s: Seq<Option<TsrInfo>>, i: int, new: Option<TsrInfo>)
    requires
        0 <= i < s.len(),
        new is Some,
        !vector_claimed(s, new->0.interrupt_num),
    ensures
        spec_handlers_for(s.update(i, new), new->0.interrupt_num) == seq![new->0.base_address],
    decreases s.len(),
{
    let v = new->0.interrupt_num;
    let t = s.update(i, new);
    if i == s.len() - 1 {
        assert(t.drop_last() =~= s.drop_last());
        lemma_no_handlers(s.drop_last(), v);
        assert(seq![new->0.base_address] =~= Seq::<u64>::empty().push(new->0.base_address));
    } else {
        assert(t.drop_last() =~= s.drop_last().update(i, new));
        assert(!vector_claimed(s.drop_last(), v)) by {
            if vector_claimed(s.drop_last(), v) {
                let j = choose|j: int| 0 <= j < s.drop_last().len() && ((#[trigger] s.drop_last()[j]) matches Some(info) && info.interrupt_num == v);
                assert(s[j] == s.drop_last()[j]);
            }
        }
        lemma_single_handler(s.drop_last(), i, new);
        assert(t.last() == s.last());
        assert(!(s[s.len() - 1] matches Some(info) && info.interrupt_num == v));
    }
}

proof fn lemma_no_handlers(s: Seq<Option<TsrInfo>>, v: u8)
    requires
        !vector_claimed(s, v),
    ensures
        spec_handlers_for(s, v) == Seq::<u64>::empty(),
    decreases s.len(),
{
    if s.len() > 0 {
        assert(!vector_claimed(s.drop_last(), v)) by {
            if vector_claimed(s.drop_last(), v) {
                let j = choose|j: int| 0 <= j < s.drop_last().len() && ((#[trigger] s.drop_last()[j]) matches Some(info) && info.interrupt_num == v);
                assert(s[j] == s.drop_last()[j]);
            }
        }
        lemma_no_handlers(s.drop_last(), v);
        assert(!(s[s.len() - 1] matches Some(info) && info.interrupt_num == v));
    }
}

} // verus!
