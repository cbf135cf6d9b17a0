//! Where a syscall returns after rescheduling: a syscall entered from ring 3
//! must return to a ring-3 frame, so a kernel thread picked by the scheduler
//! is put back and the caller resumes, unless the caller can no longer run;
//! then the highest-priority ready user thread runs, else the idle thread.

use vstd::prelude::*;
use crate::vfs::kdrive::ThreadRunState;

verus! {

/// A thread the fallback search may pick.
#[derive(Clone, Copy, Debug, PartialEq, Eq, Structural)]
pub struct ReschedCandidate {
    pub tid: u32,
    pub priority: u8,
    pub ready: bool,
    /// It has a saved stack (its saved `rsp` is not 0).
    pub has_frame: bool,
    /// Its saved frame returns to ring 3.
    pub user_mode: bool,
}

/// The thread the scheduler picked.
#[derive(Clone, Copy, Debug, PartialEq, Eq, Structural)]
pub struct NextThread {
    pub tid: u32,
    pub rsp: u64,
    pub kernel_stack_top: u64,
    /// Its saved frame returns to ring 3.
    pub user_mode: bool,
}

/// Where the syscall returns.
#[derive(Clone, Copy, Debug, PartialEq, Eq, Structural)]
pub enum ReschedDecision {
    /// Only the idle thread exists: return on the caller's stack untouched.
    Stay,
    /// The scheduler picked nothing: return on the caller's stack, the
    /// caller left as the scheduler left it (ready).
    NothingScheduled,
    /// The scheduler picked a kernel thread while the caller can still run:
    /// put the pick back on its run queue as ready, mark the caller running
    /// again and prepare its ring-3 return.
    KeepCurrent,
    /// Switch to the thread the scheduler picked.
    SwitchNext,
    /// The picked thread was a kernel thread and the caller cannot run:
    /// switch to candidate `i`.
    SwitchCandidate(usize),
    /// Nothing else can run: switch to the idle thread.
    SwitchIdle,
    /// No consistent target exists (a picked thread without a stack, or no
    /// thread at all to return to): the kernel stops.
    Stuck,
}

/// Whether candidate `c` may be picked with `priority_count` levels.
pub open spec fn eligible(c: ReschedCandidate, priority_count: u8) -> bool {
    c.ready && c.has_frame && c.user_mode && c.priority < priority_count
}

/// Index of the first eligible candidate at priority `p` (`cs.len()` if none).
pub open spec fn first_at(cs: Seq<ReschedCandidate>, p: u8, priority_count: u8) -> int
    decreases cs.len(),
{
    if cs.len() == 0 {
        0
    } else if eligible(cs[0], priority_count) && cs[0].priority == p {
        0
    } else {
        1 + first_at(cs.drop_first(), p, priority_count)
    }
}

/// The first eligible candidate of the best (lowest-numbered) priority from
/// `p` on, or `None`.
pub open spec fn pick_from(cs: Seq<ReschedCandidate>, p: int, priority_count: u8) -> Option<int>
    decreases priority_count - p,
{
    if p >= priority_count || p < 0 {
        None
    } else if first_at(cs, p as u8, priority_count) < cs.len() {
        Some(first_at(cs, p as u8, priority_count))
    } else {
        pick_from(cs, p + 1, priority_count)
    }
}

/// The decision for a syscall return (see `ReschedDecision`). `current` is
/// the caller's state after it yielded (`None`: no record); `next` is the
/// scheduler's pick; `idle_runnable` whether the idle thread exists and has
/// not terminated.
pub open spec fn spec_resched(
    has_non_idle: bool,
    current: Option<ThreadRunState>,
    next: Option<NextThread>,
    cs: Seq<ReschedCandidate>,
    priority_count: u8,
    idle_runnable: bool,
) -> ReschedDecision {
    if !has_non_idle {
        ReschedDecision::Stay
    } else {
        match next {
            None => ReschedDecision::NothingScheduled,
            Some(n) => if n.rsp == 0 {
                ReschedDecision::Stuck
            } else if !n.user_mode {
                let blocked = current == Some(ThreadRunState::Blocked);
                let terminated = current == Some(ThreadRunState::Terminated);
                if !terminated && !blocked {
                    ReschedDecision::KeepCurrent
                } else {
                    match pick_from(cs, 0, priority_count) {
                        Some(i) => ReschedDecision::SwitchCandidate(i as usize),
                        None => if idle_runnable {
                            ReschedDecision::SwitchIdle
                        } else {
                            ReschedDecision::Stuck
                        },
                    }
                }
            } else if n.kernel_stack_top == 0 {
                ReschedDecision::Stuck
            } else {
                ReschedDecision::SwitchNext
            },
        }
    }
}

proof fn lemma_first_at(cs: Seq<ReschedCandidate>, p: u8, pc: u8)
    ensures
        0 <= first_at(cs, p, pc) <= cs.len(),
        first_at(cs, p, pc) < cs.len() ==> eligible(cs[first_at(cs, p, pc)], pc) && cs[first_at(
            cs,
            p,
            pc,
        )].priority == p,
        forall|j: int|
            0 <= j < first_at(cs, p, pc) ==> !(eligible(#[trigger] cs[j], pc) && cs[j].priority
                == p),
    decreases cs.len(),
{
    if cs.len() > 0 && !(eligible(cs[0], pc) && cs[0].priority == p) {
        lemma_first_at(cs.drop_first(), p, pc);
        assert forall|j: int| 0 <= j < first_at(cs, p, pc) implies !(eligible(#[trigger] cs[j], pc)
            && cs[j].priority == p) by {
            if j > 0 {
                assert(cs[j] == cs.drop_first()[j - 1]);
            }
        }
    }
}

fn find_at(cs: &[ReschedCandidate], p: u8, priority_count: u8) -> (i: usize)
    ensures
        i == first_at(cs@, p, priority_count),
{
    proof {
        lemma_first_at(cs@, p, priority_count);
    }
    let mut i: usize = 0;
    while i < cs.len()
        invariant
            i <= cs@.len(),
            forall|j: int|
                0 <= j < i ==> !(eligible(#[trigger] cs@[j], priority_count) && cs@[j].priority
                    == p),
            0 <= first_at(cs@, p, priority_count) <= cs@.len(),
            first_at(cs@, p, priority_count) < cs@.len() ==> eligible(
                cs@[first_at(cs@, p, priority_count)],
                priority_count,
            ) && cs@[first_at(cs@, p, priority_count)].priority == p,
            forall|j: int|
                0 <= j < first_at(cs@, p, priority_count) ==> !(eligible(
                    #[trigger] cs@[j],
                    priority_count,
                ) && cs@[j].priority == p),
        decreases cs@.len() - i,
    {
        let c = cs[i];
        if c.ready && c.has_frame && c.user_mode && c.priority < priority_count && c.priority == p {
            proof {
                let f = first_at(cs@, p, priority_count);
                assert(cs@[i as int] == c);
                if f < i {
                    assert(eligible(cs@[f], priority_count));
                }
            }
            return i;
        }
        assert(cs@[i as int] == c);
        i = i + 1;
    }
    proof {
        let f = first_at(cs@, p, priority_count);
        if f < i {
            assert(eligible(cs@[f], priority_count));
        }
    }
    i
}

/// The fallback search: the first ready ring-3 thread of the best priority.
pub fn pick_user_thread(cs: &[ReschedCandidate], priority_count: u8) -> (r: Option<usize>)
    ensures
        match pick_from(cs@, 0, priority_count) {
            Some(i) => r == Some(i as usize),
            None => r is None,
        },
{
    let mut p: u8 = 0;
    while p < priority_count
        invariant
            p <= priority_count,
            pick_from(cs@, 0, priority_count) == pick_from(cs@, p as int, priority_count),
        decreases priority_count - p,
    {
        let i = find_at(cs, p, priority_count);
        if i < cs.len() {
            return Some(i);
        }
        p = p + 1;
    }
    None
}

/// Decides where a syscall returns after rescheduling (see `spec_resched`).
pub fn resched_decision(
    has_non_idle: bool,
    current: Option<ThreadRunState>,
    next: Option<NextThread>,
    cs: &[ReschedCandidate],
    priority_count: u8,
    idle_runnable: bool,
) -> (d: ReschedDecision)
    ensures
        d == spec_resched(has_non_idle, current, next, cs@, priority_count, idle_runnable),
{
    if !has_non_idle {
        return ReschedDecision::Stay;
    }
    let n = match next {
        None => return ReschedDecision::NothingScheduled,
        Some(n) => n,
    };
    if n.rsp == 0 {
        return ReschedDecision::Stuck;
    }
    if !n.user_mode {
        let blocked = match current {
            Some(ThreadRunState::Blocked) => true,
            _ => false,
        };
        let terminated = match current {
            Some(ThreadRunState::Terminated) => true,
            _ => false,
        };
        if !terminated && !blocked {
            return ReschedDecision::KeepCurrent;
        }
        match pick_user_thread(cs, priority_count) {
            Some(i) => ReschedDecision::SwitchCandidate(i),
            None => if idle_runnable {
                ReschedDecision::SwitchIdle
            } else {
                ReschedDecision::Stuck
            },
        }
    } else if n.kernel_stack_top == 0 {
        ReschedDecision::Stuck
    } else {
        ReschedDecision::SwitchNext
    }
}

proof fn lemma_pick_from(cs: Seq<ReschedCandidate>, p: int, pc: u8)
    requires
        0 <= p,
    ensures
        pick_from(cs, p, pc) matches Some(i) ==> {
            &&& 0 <= i < cs.len()
            &&& eligible(cs[i], pc)
            &&& cs[i].priority >= p
            &&& forall|j: int|
                0 <= j < cs.len() && eligible(#[trigger] cs[j], pc) && cs[j].priority >= p
                    ==> cs[j].priority >= cs[i].priority
            &&& forall|j: int|
                0 <= j < i && eligible(#[trigger] cs[j], pc) ==> cs[j].priority != cs[i].priority
        },
        pick_from(cs, p, pc) is None ==> forall|j: int|
            0 <= j < cs.len() && eligible(#[trigger] cs[j], pc) ==> cs[j].priority < p,
    decreases pc - p,
{
    if p < pc {
        lemma_first_at(cs, p as u8, pc);
        lemma_pick_from(cs, p + 1, pc);
        let f = first_at(cs, p as u8, pc);
        if f < cs.len() {
            assert forall|j: int|
                0 <= j < cs.len() && eligible(#[trigger] cs[j], pc) && cs[j].priority >= p
                    implies cs[j].priority >= cs[f].priority by {}
        } else {
            assert forall|j: int|
                0 <= j < cs.len() && eligible(#[trigger] cs[j], pc) && cs[j].priority >= p
                    implies cs[j].priority >= p + 1 by {
                if cs[j].priority == p {
                    assert(!(eligible(cs[j], pc) && cs[j].priority == p as u8));
                }
            }
        }
    } else {
        assert forall|j: int| 0 <= j < cs.len() && eligible(#[trigger] cs[j], pc) implies cs[j].priority < p by {}
    }
}

/// A syscall never returns into a kernel thread's frame: the scheduler's
/// pick is taken only when it returns to ring 3 and has a stack; a fallback
/// is a ready ring-3 thread of the best priority among them, the first of
/// that priority; and the caller is resumed over a kernel pick only while it
/// can still run.
pub proof fn lemma_resched_returns_to_user(
    has_non_idle: bool,
    current: Option<ThreadRunState>,
    next: Option<NextThread>,
    cs: Seq<ReschedCandidate>,
    priority_count: u8,
    idle_runnable: bool,
)
    requires
        cs.len() <= usize::MAX,
    ensures
        ({
            let d = spec_resched(has_non_idle, current, next, cs, priority_count, idle_runnable);
            &&& d == ReschedDecision::SwitchNext ==> (next matches Some(n) && n.user_mode && n.rsp
                != 0 && n.kernel_stack_top != 0)
            &&& d matches ReschedDecision::SwitchCandidate(i) ==> {
                &&& i < cs.len()
                &&& eligible(cs[i as int], priority_count)
                &&& forall|j: int|
                    0 <= j < cs.len() && eligible(#[trigger] cs[j], priority_count)
                        ==> cs[j].priority >= cs[i as int].priority
                &&& forall|j: int|
                    0 <= j < i && eligible(#[trigger] cs[j], priority_count) ==> cs[j].priority
                        != cs[i as int].priority
            }
            &&& d == ReschedDecision::NothingScheduled ==> next is None
            &&& d == ReschedDecision::KeepCurrent ==> (next matches Some(n) && !n.user_mode
                && current != Some(ThreadRunState::Blocked) && current != Some(
                ThreadRunState::Terminated,
            ))
            &&& d == ReschedDecision::SwitchIdle ==> pick_from(cs, 0, priority_count) is None
        }),
{
    lemma_pick_from(cs, 0, priority_count);
}

/// A caller that can no longer run never resumes over a kernel-thread
/// pick: with other threads present and the scheduler's pick a kernel thread
/// with a stack, a blocked or terminated caller is replaced by a ready
/// ring-3 candidate whenever one exists, else by the idle thread when it can
/// run; only when neither exists does the kernel stop. And the syscall
/// returns on its own stack untouched only when nothing but the idle thread
/// exists.
pub proof fn lemma_unrunnable_caller_is_replaced(
    has_non_idle: bool,
    current: Option<ThreadRunState>,
    next: Option<NextThread>,
    cs: Seq<ReschedCandidate>,
    priority_count: u8,
    idle_runnable: bool,
)
    requires
        cs.len() <= usize::MAX,
    ensures
        ({
            let d = spec_resched(has_non_idle, current, next, cs, priority_count, idle_runnable);
            &&& d == ReschedDecision::Stay <==> !has_non_idle
            &&& (has_non_idle && next is Some && next->0.rsp != 0 && !next->0.user_mode && (current
                == Some(ThreadRunState::Blocked) || current == Some(ThreadRunState::Terminated)))
                ==> {
                &&& (d is SwitchCandidate <==> exists|j: int|
                    0 <= j < cs.len() && eligible(#[trigger] cs[j], priority_count))
                &&& d == ReschedDecision::SwitchIdle <==> ((forall|j: int|
                    0 <= j < cs.len() ==> !eligible(#[trigger] cs[j], priority_count))
                    && idle_runnable)
                &&& d == ReschedDecision::Stuck <==> ((forall|j: int|
                    0 <= j < cs.len() ==> !eligible(#[trigger] cs[j], priority_count))
                    && !idle_runnable)
            }
        }),
{
    lemma_pick_from(cs, 0, priority_count);
    let d = spec_resched(has_non_idle, current, next, cs, priority_count, idle_runnable);
    if has_non_idle && next is Some && next->0.rsp != 0 && !next->0.user_mode && (current
        == Some(ThreadRunState::Blocked) || current == Some(ThreadRunState::Terminated)) {
        match pick_from(cs, 0, priority_count) {
            Some(i) => {
                assert(eligible(cs[i], priority_count));
            },
            None => {
                assert forall|j: int| 0 <= j < cs.len() implies !eligible(#[trigger] cs[j], priority_count) by {
                    if eligible(cs[j], priority_count) {
                        assert(cs[j].priority < 0);
                    }
                }
            },
        }
    }
}

/// The user return frame recorded when a syscall was entered.
#[derive(Clone, Copy, Debug, PartialEq, Eq, Structural)]
pub struct SavedUserFrame {
    pub rsp: u64,
    pub rip: u64,
}

/// What the frame trace saw: the user stack pointer of the frame (0 for a
/// frame that returns to ring 0) and whether the frame changed between entry
/// and exit.
#[derive(Clone, Copy, Debug, PartialEq, Eq, Structural)]
pub struct FrameTrace {
    pub user_rsp: u64,
    pub corrupt: bool,
}

/// The frame returns to ring 3 (requested privilege level 3 in `cs`).
pub open spec fn ring3(cs: u64) -> bool {
    cs & 3 == 3
}

/// The frame's user stack pointer: the word after `rflags` for a ring-3
/// frame, else 0.
pub open spec fn spec_user_rsp(cs: u64, stack_word: u64) -> u64 {
    if ring3(cs) {
        stack_word
    } else {
        0
    }
}

/// The record after the trace at `phase` (0: syscall entry, 1: exit).
pub open spec fn spec_saved_after(saved: SavedUserFrame, phase: u64, rip: u64, cs: u64, stack_word: u64) -> SavedUserFrame {
    if phase == 0 && ring3(cs) {
        SavedUserFrame { rsp: stack_word, rip }
    } else {
        saved
    }
}

/// At exit, a ring-3 frame whose return address or stack differs from the
/// one recorded at entry is reported.
pub open spec fn spec_frame_corrupt(saved: SavedUserFrame, phase: u64, rip: u64, cs: u64, stack_word: u64) -> bool {
    phase == 1 && ring3(cs) && (saved.rsp != stack_word || saved.rip != rip)
}

/// The check made on the syscall frame at entry and exit: `rip`, `cs` are
/// the frame's return address and code segment, `stack_word` the word that
/// holds the user stack pointer when the frame returns to ring 3.
pub fn syscall_trace_frame(saved: &mut SavedUserFrame, phase: u64, rip: u64, cs: u64, stack_word: u64) -> (t: FrameTrace)
    ensures
        t.user_rsp == spec_user_rsp(cs, stack_word),
        t.corrupt == spec_frame_corrupt(*old(saved), phase, rip, cs, stack_word),
        *final(saved) == spec_saved_after(*old(saved), phase, rip, cs, stack_word),
{
    let user = cs & 3 == 3;
    let user_rsp = if user {
        stack_word
    } else {
        0
    };
    if phase == 0 && user {
        *saved = SavedUserFrame { rsp: user_rsp, rip };
    }
    let corrupt = phase == 1 && user && (saved.rsp != user_rsp || saved.rip != rip);
    FrameTrace { user_rsp, corrupt }
}

/// A ring-3 frame that leaves a syscall as it entered is never reported.
pub proof fn lemma_unchanged_frame_not_corrupt(saved: SavedUserFrame, rip: u64, cs: u64, stack_word: u64)
    requires
        ring3(cs),
    ensures
        !spec_frame_corrupt(spec_saved_after(saved, 0, rip, cs, stack_word), 1, rip, cs, stack_word),
{
}

} // verus!
