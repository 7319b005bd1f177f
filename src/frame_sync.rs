//! The per-frame synchronization protocol of buffered rendering: each of
//! `frames_count` slots owns a fence, a pair of semaphores and a command
//! buffer; a slot's command buffer is recorded only once the fence of its
//! previous submission is signaled.
use vstd::prelude::*;

verus! {

/// Where the current frame stands.
#[derive(Clone, Copy, Debug, PartialEq, Eq, Structural)]
pub enum FramePhase {
    /// Waiting to begin the frame of the current slot.
    Idle,
    /// The slot's command buffer is being recorded.
    Recording,
    /// The slot's work is submitted and awaits presentation.
    Submitted,
}

/// The abstract state of frame synchronization: the current slot, which
/// fences are signaled, and how often each fence was waited on and reset.
pub struct FrameState {
    pub frames_count: nat,
    pub frame_index: nat,
    pub signaled: Seq<bool>,
    pub phase: FramePhase,
    pub waits: Seq<nat>,
    pub resets: Seq<nat>,
}

impl FrameState {
    /// Sizes agree, the slot index is in range, and a command buffer is
    /// recorded only while its slot's fence is signaled.
    pub open spec fn wf(self) -> bool {
        &&& self.frames_count >= 1
        &&& self.frame_index < self.frames_count
        &&& self.signaled.len() == self.frames_count
        &&& self.waits.len() == self.frames_count
        &&& self.resets.len() == self.frames_count
        &&& self.phase == FramePhase::Recording ==> self.signaled[self.frame_index as int]
    }
}

/// The device signals the fence of `slot`: the slot's last submission
/// completed.
pub open spec fn signal_spec(s: FrameState, slot: nat) -> FrameState {
    FrameState { signaled: s.signaled.update(slot as int, true), ..s }
}

/// Beginning a frame waits on the current slot's fence; where it is
/// signaled, recording starts.
pub open spec fn begin_spec(s: FrameState) -> FrameState {
    let i = s.frame_index as int;
    if s.signaled[i] {
        FrameState { phase: FramePhase::Recording, waits: s.waits.update(i, s.waits[i] + 1), ..s }
    } else {
        s
    }
}

/// Ending a frame resets the slot's fence and submits the command buffer,
/// which the fence will signal on completion.
pub open spec fn end_spec(s: FrameState) -> FrameState {
    let i = s.frame_index as int;
    FrameState {
        signaled: s.signaled.update(i, false),
        resets: s.resets.update(i, s.resets[i] + 1),
        phase: FramePhase::Submitted,
        ..s
    }
}

/// Presenting hands the image over and moves on to the next slot.
pub open spec fn present_spec(s: FrameState) -> FrameState {
    FrameState {
        phase: FramePhase::Idle,
        frame_index: ((s.frame_index as int + 1) % (s.frames_count as int)) as nat,
        ..s
    }
}

/// One frame without a stall: the slot's previous work has completed by the
/// time the frame begins.
pub open spec fn frame_spec(s: FrameState) -> FrameState {
    present_spec(end_spec(begin_spec(signal_spec(s, s.frame_index))))
}

/// `k` frames in a row without a stall.
pub open spec fn frames_spec(s: FrameState, k: nat) -> FrameState
    decreases k,
{
    if k == 0 {
        s
    } else {
        frame_spec(frames_spec(s, (k - 1) as nat))
    }
}

/// What a frame step asks the caller to do.
#[derive(Clone, Copy, Debug, PartialEq, Eq, Structural)]
pub enum FrameStep {
    /// Block on the fence of this slot, report it signaled, and begin again.
    WaitForFence(usize),
    /// Acquire a swapchain image with this slot's present-complete semaphore
    /// and begin recording this slot's command buffer.
    Record(usize),
}

/// The synchronization state of `frames_count` buffered frames.
pub struct FrameSync {
    pub frames_count: usize,
    pub frame_index: usize,
    pub fence_signaled: Vec<bool>,
    pub phase: FramePhase,
    pub waits: Ghost<Seq<nat>>,
    pub resets: Ghost<Seq<nat>>,
}

impl FrameSync {
    pub open spec fn view(&self) -> FrameState {
        FrameState {
            frames_count: self.frames_count as nat,
            frame_index: self.frame_index as nat,
            signaled: self.fence_signaled@,
            phase: self.phase,
            waits: self.waits@,
            resets: self.resets@,
        }
    }

    pub open spec fn wf(&self) -> bool {
        self.view().wf()
    }

    /// `frames_count` slots, all fences created signaled, starting at slot 0.
    pub fn new(frames_count: usize) -> (r: FrameSync)
        requires
            frames_count >= 1,
        ensures
            r.wf(),
            r.frames_count == frames_count,
            r.frame_index == 0,
            r.phase == FramePhase::Idle,
            r.fence_signaled@ == Seq::new(frames_count as nat, |i: int| true),
            r.waits@ == Seq::new(frames_count as nat, |i: int| 0nat),
            r.resets@ == Seq::new(frames_count as nat, |i: int| 0nat),
    {
        let mut fences: Vec<bool> = Vec::new();
        let mut i: usize = 0;
        while i < frames_count
            invariant
                i <= frames_count,
                fences@ == Seq::new(i as nat, |j: int| true),
            decreases frames_count - i,
        {
            fences.push(true);
            assert(fences@ =~= Seq::new((i + 1) as nat, |j: int| true));
            i = i + 1;
        }
        FrameSync {
            frames_count,
            frame_index: 0,
            fence_signaled: fences,
            phase: FramePhase::Idle,
            waits: Ghost(Seq::new(frames_count as nat, |i: int| 0nat)),
            resets: Ghost(Seq::new(frames_count as nat, |i: int| 0nat)),
        }
    }

    /// The device reports the fence of `slot` signaled.
    pub fn fence_signaled(&mut self, slot: usize)
        requires
            old(self).wf(),
            slot < old(self).frames_count,
        ensures
            final(self).wf(),
            final(self).view() == signal_spec(old(self).view(), slot as nat),
    {
        self.fence_signaled.set(slot, true);
    }

    /// Begins the frame of the current slot: recording starts once the
    /// slot's fence is signaled, otherwise the caller must wait on it.
    pub fn begin_frame(&mut self) -> (r: FrameStep)
        requires
            old(self).wf(),
            old(self).phase == FramePhase::Idle,
        ensures
            final(self).wf(),
            final(self).view() == begin_spec(old(self).view()),
            r == if old(self).fence_signaled@[old(self).frame_index as int] {
                FrameStep::Record(old(self).frame_index)
            } else {
                FrameStep::WaitForFence(old(self).frame_index)
            },
    {
        let i = self.frame_index;
        if self.fence_signaled[i] {
            self.phase = FramePhase::Recording;
            self.waits = Ghost(self.waits@.update(i as int, self.waits@[i as int] + 1));
            FrameStep::Record(i)
        } else {
            FrameStep::WaitForFence(i)
        }
    }

    /// Ends the frame: the slot's fence is reset and its command buffer
    /// submitted; returns the slot.
    pub fn end_frame(&mut self) -> (r: usize)
        requires
            old(self).wf(),
            old(self).phase == FramePhase::Recording,
        ensures
            final(self).wf(),
            final(self).view() == end_spec(old(self).view()),
            r == old(self).frame_index,
    {
        let i = self.frame_index;
        self.fence_signaled.set(i, false);
        self.resets = Ghost(self.resets@.update(i as int, self.resets@[i as int] + 1));
        self.phase = FramePhase::Submitted;
        i
    }

    /// Presents the frame and advances to the next slot, cyclically.
    pub fn present(&mut self)
        requires
            old(self).wf(),
            old(self).phase == FramePhase::Submitted,
        ensures
            final(self).wf(),
            final(self).view() == present_spec(old(self).view()),
    {
        self.phase = FramePhase::Idle;
        self.frame_index = if self.frame_index + 1 == self.frames_count {
            0
        } else {
            self.frame_index + 1
        };
        proof {
            let n = old(self).frames_count as int;
            let i = old(self).frame_index as int;
            if i + 1 == n {
                vstd::arithmetic::div_mod::lemma_fundamental_div_mod_converse(i + 1, n, 1, 0);
            } else {
                vstd::arithmetic::div_mod::lemma_fundamental_div_mod_converse(i + 1, n, 0, i + 1);
            }
        }
    }
}

/// The distance from slot `from` forward to slot `j`, going round the ring
/// of `n` slots.
pub open spec fn ring_distance(from: int, j: int, n: int) -> int {
    (j - from + n) % n
}

proof fn lemma_frame_step(s: FrameState)
    requires
        s.wf(),
        s.phase == FramePhase::Idle,
    ensures
        frame_spec(s).wf(),
        frame_spec(s).phase == FramePhase::Idle,
        frame_spec(s).frames_count == s.frames_count,
        frame_spec(s).frame_index == (s.frame_index as int + 1) % (s.frames_count as int),
        forall|j: int|
            0 <= j < s.frames_count ==> #[trigger] frame_spec(s).waits[j] == s.waits[j] + (if j
                == s.frame_index {
                1int
            } else {
                0int
            }),
        forall|j: int|
            0 <= j < s.frames_count ==> #[trigger] frame_spec(s).resets[j] == s.resets[j] + (if j
                == s.frame_index {
                1int
            } else {
                0int
            }),
{
    let n = s.frames_count as int;
    let i = s.frame_index as int;
    if i + 1 == n {
        vstd::arithmetic::div_mod::lemma_fundamental_div_mod_converse(i + 1, n, 1, 0);
    } else {
        vstd::arithmetic::div_mod::lemma_fundamental_div_mod_converse(i + 1, n, 0, i + 1);
    }
}

proof fn lemma_ring_distance(from: int, j: int, n: int)
    requires
        0 <= from < n,
        0 <= j < n,
    ensures
        0 <= ring_distance(from, j, n) < n,
        j >= from ==> ring_distance(from, j, n) == j - from,
        j < from ==> ring_distance(from, j, n) == j - from + n,
{
    if j >= from {
        vstd::arithmetic::div_mod::lemma_fundamental_div_mod_converse(j - from + n, n, 1, j - from);
    } else {
        vstd::arithmetic::div_mod::lemma_fundamental_div_mod_converse(j - from + n, n, 0, j - from + n);
    }
}

proof fn lemma_frames_prefix(s: FrameState, k: nat)
    requires
        s.wf(),
        s.phase == FramePhase::Idle,
        k <= s.frames_count,
    ensures
        frames_spec(s, k).wf(),
        frames_spec(s, k).phase == FramePhase::Idle,
        frames_spec(s, k).frames_count == s.frames_count,
        frames_spec(s, k).frame_index == (s.frame_index as int + k) % (s.frames_count as int),
        forall|j: int|
            0 <= j < s.frames_count ==> #[trigger] frames_spec(s, k).waits[j] == s.waits[j] + (if ring_distance(
                s.frame_index as int,
                j,
                s.frames_count as int,
            ) < k {
                1int
            } else {
                0int
            }),
        forall|j: int|
            0 <= j < s.frames_count ==> #[trigger] frames_spec(s, k).resets[j] == s.resets[j] + (if ring_distance(
                s.frame_index as int,
                j,
                s.frames_count as int,
            ) < k {
                1int
            } else {
                0int
            }),
    decreases k,
{
    let n = s.frames_count as int;
    let i0 = s.frame_index as int;
    if k == 0 {
        vstd::arithmetic::div_mod::lemma_fundamental_div_mod_converse(i0, n, 0, i0);
        assert forall|j: int| 0 <= j < n implies ring_distance(i0, j, n) >= 0 by {
            lemma_ring_distance(i0, j, n);
        }
    } else {
        let km = (k - 1) as nat;
        lemma_frames_prefix(s, km);
        let prev = frames_spec(s, km);
        lemma_frame_step(prev);
        let c = prev.frame_index as int;
        // the slot of the k-th frame is at ring distance k - 1 from the start
        if i0 + km < n {
            vstd::arithmetic::div_mod::lemma_fundamental_div_mod_converse(i0 + km, n, 0, i0 + km);
        } else {
            vstd::arithmetic::div_mod::lemma_fundamental_div_mod_converse(i0 + km, n, 1, i0 + km - n);
        }
        lemma_ring_distance(i0, c, n);
        assert(ring_distance(i0, c, n) == km);
        if i0 + k < 2 * n {
            if i0 + k < n {
                vstd::arithmetic::div_mod::lemma_fundamental_div_mod_converse(i0 + k, n, 0, i0 + k);
            } else {
                vstd::arithmetic::div_mod::lemma_fundamental_div_mod_converse(i0 + k, n, 1, i0 + k - n);
            }
        }
        if c + 1 < n {
            vstd::arithmetic::div_mod::lemma_fundamental_div_mod_converse(c + 1, n, 0, c + 1);
        } else {
            vstd::arithmetic::div_mod::lemma_fundamental_div_mod_converse(c + 1, n, 1, 0);
        }
        assert forall|j: int| 0 <= j < n implies #[trigger] frames_spec(s, k).waits[j] == s.waits[j]
            + (if ring_distance(i0, j, n) < k {
            1int
        } else {
            0int
        }) by {
            lemma_ring_distance(i0, j, n);
            assert(prev.waits[j] == s.waits[j] + (if ring_distance(i0, j, n) < km {
                1int
            } else {
                0int
            }));
            assert(frame_spec(prev).waits[j] == prev.waits[j] + (if j == c {
                1int
            } else {
                0int
            }));
        }
        assert forall|j: int| 0 <= j < n implies #[trigger] frames_spec(s, k).resets[j] == s.resets[j]
            + (if ring_distance(i0, j, n) < k {
            1int
        } else {
            0int
        }) by {
            lemma_ring_distance(i0, j, n);
            assert(prev.resets[j] == s.resets[j] + (if ring_distance(i0, j, n) < km {
                1int
            } else {
                0int
            }));
            assert(frame_spec(prev).resets[j] == prev.resets[j] + (if j == c {
                1int
            } else {
                0int
            }));
        }
    }
}

/// Frame synchronization is cyclic: starting between frames, running
/// `frames_count` frames without a stall waits on and resets every slot's
/// fence exactly once and returns to the starting slot; throughout, a slot's
/// command buffer is recorded only while its fence is signaled.
pub proof fn lemma_frame_cycle(s: FrameState)
    requires
        s.wf(),
        s.phase == FramePhase::Idle,
    ensures
        ({
            let e = frames_spec(s, s.frames_count);
            &&& e.wf()
            &&& e.phase == FramePhase::Idle
            &&& e.frame_index == s.frame_index
            &&& forall|j: int| 0 <= j < s.frames_count ==> #[trigger] e.waits[j] == s.waits[j] + 1
            &&& forall|j: int| 0 <= j < s.frames_count ==> #[trigger] e.resets[j] == s.resets[j] + 1
        }),
{
    let n = s.frames_count as int;
    let i0 = s.frame_index as int;
    lemma_frames_prefix(s, s.frames_count);
    vstd::arithmetic::div_mod::lemma_fundamental_div_mod_converse(i0 + n, n, 1, i0);
    let e = frames_spec(s, s.frames_count);
    assert forall|j: int| 0 <= j < n implies #[trigger] e.waits[j] == s.waits[j] + 1 by {
        lemma_ring_distance(i0, j, n);
    }
    assert forall|j: int| 0 <= j < n implies #[trigger] e.resets[j] == s.resets[j] + 1 by {
        lemma_ring_distance(i0, j, n);
    }
}

} // verus!
