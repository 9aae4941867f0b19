//! Per-frame synchronization state machine for double-buffered rendering.
//!
//! The pipeline rotates through its frame slots in fixed order (slot index =
//! frame counter modulo slot count).  A frame passes through the phases
//! idle, acquiring a swapchain image, waiting on the slot's completion fence
//! from its previous use, recording, submitted, and presenting.  The fence
//! wait before recording is the sole mechanism that keeps the CPU from
//! re-recording a slot's command buffer or touching its resources while the
//! GPU still reads them: the machine refuses to enter the recording phase
//! until the slot's previous submission has been observed to retire.
//!
//! The machine only decides; the caller performs the device work each phase
//! asks for and reports the outcome back.

use vstd::prelude::*;

verus! {

/// Phase of the frame currently being prepared.
#[derive(Clone, Copy, PartialEq, Eq, Structural, Debug)]
pub enum FramePhase {
    /// No frame is being prepared.
    Idle,
    /// A swapchain image is being acquired; on a suboptimal surface the
    /// swapchain is rebuilt and acquisition retried.
    Acquiring,
    /// Waiting for the slot's completion fence from its previous use.
    FenceWait,
    /// The slot's command buffer is being recorded.
    Recording,
    /// The slot's work has been submitted to the graphics queue.
    Submitted,
    /// Presentation of the acquired image has been requested.
    Presenting,
}

/// One step of the graphics command buffer, in recording order.
#[derive(Clone, Copy, PartialEq, Eq, Structural, Debug)]
pub enum FrameCommand {
    /// Emit the pending transfer end barriers, acquiring image ownership
    /// from the transfer queue family for the graphics queue family.
    TransferEndBarriers,
    /// Draw and compute work consuming the transferred resources.
    DrawScene,
    /// Blit the internal render target into the acquired swapchain image.
    BlitToSwapchain,
    /// Transition the swapchain image into the presentation layout.
    TransitionToPresent,
}

/// What one graphics submission must wait for and signal: the slot's
/// image-acquired semaphore, the transfer counter reaching
/// `transfer_wait_value`, and on completion the slot's fence and its
/// ready-to-present semaphore.
pub struct FrameSubmitInfo {
    /// The frame slot whose image-acquired semaphore is waited on and whose
    /// fence and present semaphore are signaled.
    pub slot: usize,
    /// Transfer counter value to wait for before consuming uploaded data.
    pub transfer_wait_value: u64,
}

/// Submission bookkeeping of one frame slot.
#[derive(Clone, Copy, PartialEq, Eq, Structural, Debug)]
pub struct SlotStatus {
    /// Submissions issued on this slot so far.
    pub submitted: u64,
    /// Submissions on this slot whose fence has been observed.
    pub retired: u64,
}

/// How many of the first `c` frames land on slot `s` of `n`.
pub open spec fn submissions_on_slot(c: int, n: int, s: int) -> int
    decreases c,
{
    if c <= 0 {
        0
    } else {
        submissions_on_slot(c - 1, n, s) + if (c - 1) % n == s {
            1int
        } else {
            0int
        }
    }
}

pub struct FramePipeline {
    slots: Vec<SlotStatus>,
    frame_counter: u64,
    phase: FramePhase,
}

impl FramePipeline {
    pub closed spec fn slot_count(&self) -> int {
        self.slots@.len() as int
    }

    pub closed spec fn phase(&self) -> FramePhase {
        self.phase
    }

    /// Frames completed so far; also the index of the frame being prepared.
    pub closed spec fn frame_count(&self) -> u64 {
        self.frame_counter
    }

    /// The slot the frame being prepared lands on.
    pub closed spec fn current_slot(&self) -> int {
        self.frame_counter as int % self.slot_count()
    }

    pub closed spec fn submitted_of(&self, s: int) -> u64 {
        self.slots@[s].submitted
    }

    pub closed spec fn retired_of(&self, s: int) -> u64 {
        self.slots@[s].retired
    }

    /// Whether the frame being prepared has already been submitted.
    pub open spec fn in_submitted_phases(&self) -> bool {
        self.phase() == FramePhase::Submitted || self.phase() == FramePhase::Presenting
    }

    pub closed spec fn wf(&self) -> bool {
        &&& self.slot_count() >= 1
        &&& forall|s: int|
            0 <= s < self.slots@.len() ==> (#[trigger] self.slots@[s]).retired
                <= self.slots@[s].submitted <= self.slots@[s].retired + 1
        &&& forall|s: int|
            0 <= s < self.slots@.len() ==> (#[trigger] self.slots@[s]).submitted as int
                == submissions_on_slot(
                self.frame_counter as int,
                self.slots@.len() as int,
                s,
            ) + if self.in_submitted_phases() && s == self.current_slot() {
                1int
            } else {
                0int
            }
        &&& self.phase() == FramePhase::Recording ==> self.retired_of(self.current_slot())
            == self.submitted_of(self.current_slot())
    }

    /// An idle pipeline with `slot_count` fresh slots.
    #[verifier::loop_isolation(false)]
    pub fn new(slot_count: usize) -> (p: FramePipeline)
        requires
            slot_count >= 1,
        ensures
            p.wf(),
            p.slot_count() == slot_count,
            p.phase() == FramePhase::Idle,
            p.frame_count() == 0,
            forall|s: int| 0 <= s < slot_count ==> p.submitted_of(s) == 0,
            forall|s: int| 0 <= s < slot_count ==> p.retired_of(s) == 0,
    {
        let mut slots: Vec<SlotStatus> = Vec::new();
        let mut i: usize = 0;
        while i < slot_count
            invariant
                i <= slot_count,
                slots@.len() == i,
                forall|s: int| 0 <= s < i ==> slots@[s] == (SlotStatus { submitted: 0, retired: 0 }),
            decreases slot_count - i,
        {
            slots.push(SlotStatus { submitted: 0, retired: 0 });
            i = i + 1;
        }
        FramePipeline { slots, frame_counter: 0, phase: FramePhase::Idle }
    }

    /// Starts preparing the next frame and names the slot it lands on.
    pub fn begin_frame(&mut self) -> (slot: usize)
        requires
            old(self).wf(),
            old(self).phase() == FramePhase::Idle,
        ensures
            final(self).wf(),
            slot == old(self).current_slot(),
            final(self).phase() == FramePhase::Acquiring,
            final(self).frame_count() == old(self).frame_count(),
            final(self).slot_count() == old(self).slot_count(),
            forall|s: int|
                0 <= s < old(self).slot_count() ==> final(self).submitted_of(s) == old(
                    self,
                ).submitted_of(s) && final(self).retired_of(s) == old(self).retired_of(s),
    {
        self.phase = FramePhase::Acquiring;
        (self.frame_counter % (self.slots.len() as u64)) as usize
    }

    /// Reports one acquisition attempt.  A suboptimal or out-of-date
    /// surface keeps the machine acquiring: the caller must rebuild the
    /// swapchain and retry until acquisition succeeds cleanly.
    pub fn acquire_result(&mut self, suboptimal: bool) -> (retry: bool)
        requires
            old(self).wf(),
            old(self).phase() == FramePhase::Acquiring,
        ensures
            final(self).wf(),
            retry == suboptimal,
            final(self).phase() == if suboptimal {
                FramePhase::Acquiring
            } else {
                FramePhase::FenceWait
            },
            final(self).frame_count() == old(self).frame_count(),
            final(self).slot_count() == old(self).slot_count(),
            forall|s: int|
                0 <= s < old(self).slot_count() ==> final(self).submitted_of(s) == old(
                    self,
                ).submitted_of(s) && final(self).retired_of(s) == old(self).retired_of(s),
    {
        if !suboptimal {
            self.phase = FramePhase::FenceWait;
        }
        suboptimal
    }

    /// Reports that the current slot's completion fence from its previous
    /// use has been observed: its outstanding submission retires and
    /// recording may begin.  Overwriting the slot's resources is safe from
    /// here on.
    pub fn fence_observed(&mut self)
        requires
            old(self).wf(),
            old(self).phase() == FramePhase::FenceWait,
        ensures
            final(self).wf(),
            final(self).phase() == FramePhase::Recording,
            final(self).frame_count() == old(self).frame_count(),
            final(self).slot_count() == old(self).slot_count(),
            final(self).retired_of(old(self).current_slot()) == final(self).submitted_of(
                old(self).current_slot(),
            ),
            forall|s: int|
                0 <= s < old(self).slot_count() ==> final(self).submitted_of(s) == old(
                    self,
                ).submitted_of(s),
            forall|s: int|
                0 <= s < old(self).slot_count() && s != old(self).current_slot() ==> final(self).retired_of(s) == old(self).retired_of(s),
    {
        let cur = (self.frame_counter % (self.slots.len() as u64)) as usize;
        let submitted = self.slots[cur].submitted;
        self.slots.set(cur, SlotStatus { submitted, retired: submitted });
        self.phase = FramePhase::Recording;
    }

    /// The graphics command buffer's contents for this frame, in order:
    /// transfer end barriers first (they acquire ownership of freshly
    /// uploaded images for the graphics family), then scene work, then the
    /// blit into the acquired swapchain image, then its transition to the
    /// presentation layout.
    pub fn record(&self) -> (commands: Vec<FrameCommand>)
        requires
            self.wf(),
            self.phase() == FramePhase::Recording,
        ensures
            commands@ == seq![
                FrameCommand::TransferEndBarriers,
                FrameCommand::DrawScene,
                FrameCommand::BlitToSwapchain,
                FrameCommand::TransitionToPresent,
            ],
    {
        let mut commands: Vec<FrameCommand> = Vec::new();
        commands.push(FrameCommand::TransferEndBarriers);
        commands.push(FrameCommand::DrawScene);
        commands.push(FrameCommand::BlitToSwapchain);
        commands.push(FrameCommand::TransitionToPresent);
        proof {
            assert(commands@ =~= seq![
                FrameCommand::TransferEndBarriers,
                FrameCommand::DrawScene,
                FrameCommand::BlitToSwapchain,
                FrameCommand::TransitionToPresent,
            ]);
        }
        commands
    }

    /// Issues the frame's submission.  The returned info names the slot
    /// whose image-acquired semaphore is waited on and whose fence and
    /// present semaphore are signaled, and carries the transfer counter
    /// value (from the matching transfer submission) the GPU must reach
    /// before the recorded work may consume uploaded data.
    pub fn submit(&mut self, transfer_wait_value: u64) -> (info: FrameSubmitInfo)
        requires
            old(self).wf(),
            old(self).phase() == FramePhase::Recording,
            old(self).submitted_of(old(self).current_slot()) < u64::MAX,
        ensures
            final(self).wf(),
            final(self).phase() == FramePhase::Submitted,
            info.slot == old(self).current_slot(),
            info.transfer_wait_value == transfer_wait_value,
            final(self).frame_count() == old(self).frame_count(),
            final(self).slot_count() == old(self).slot_count(),
            final(self).submitted_of(old(self).current_slot()) == old(self).submitted_of(
                old(self).current_slot(),
            ) + 1,
            forall|s: int|
                0 <= s < old(self).slot_count() && s != old(self).current_slot() ==> final(self).submitted_of(s) == old(self).submitted_of(s),
            forall|s: int|
                0 <= s < old(self).slot_count() ==> final(self).retired_of(s) == old(
                    self,
                ).retired_of(s),
    {
        let cur = (self.frame_counter % (self.slots.len() as u64)) as usize;
        let status = self.slots[cur];
        self.slots.set(
            cur,
            SlotStatus { submitted: status.submitted + 1, retired: status.retired },
        );
        self.phase = FramePhase::Submitted;
        FrameSubmitInfo { slot: cur, transfer_wait_value }
    }

    /// Requests presentation of the acquired image, waiting on the slot's
    /// ready-to-present semaphore.
    pub fn present(&mut self)
        requires
            old(self).wf(),
            old(self).phase() == FramePhase::Submitted,
        ensures
            final(self).wf(),
            final(self).phase() == FramePhase::Presenting,
            final(self).frame_count() == old(self).frame_count(),
            final(self).slot_count() == old(self).slot_count(),
            forall|s: int|
                0 <= s < old(self).slot_count() ==> final(self).submitted_of(s) == old(
                    self,
                ).submitted_of(s) && final(self).retired_of(s) == old(self).retired_of(s),
    {
        self.phase = FramePhase::Presenting;
    }

    /// Closes the frame: the pipeline advances to the next frame counter,
    /// moving on to the next slot in fixed rotation.
    pub fn end_frame(&mut self)
        requires
            old(self).wf(),
            old(self).phase() == FramePhase::Presenting,
            old(self).frame_count() < u64::MAX,
        ensures
            final(self).wf(),
            final(self).phase() == FramePhase::Idle,
            final(self).frame_count() == old(self).frame_count() + 1,
            final(self).slot_count() == old(self).slot_count(),
            final(self).current_slot() == (old(self).frame_count() + 1) as int % old(
                self,
            ).slot_count(),
            forall|s: int|
                0 <= s < old(self).slot_count() ==> final(self).submitted_of(s) == old(
                    self,
                ).submitted_of(s) && final(self).retired_of(s) == old(self).retired_of(s),
    {
        self.frame_counter = self.frame_counter + 1;
        self.phase = FramePhase::Idle;
        proof {
            let c = self.frame_counter as int;
            let n = self.slot_count();
            assert forall|s: int| 0 <= s < n implies (#[trigger] self.slots@[s]).submitted as int
                == submissions_on_slot(c, n, s) by {
                assert(submissions_on_slot(c, n, s) == submissions_on_slot(c - 1, n, s)
                    + if (c - 1) % n == s {
                    1int
                } else {
                    0int
                });
                assert(old(self).submitted_of(s) as int == submissions_on_slot(c - 1, n, s)
                    + if s == old(self).current_slot() {
                    1int
                } else {
                    0int
                });
            }
        }
    }

    /// Number of submissions issued on `slot` so far.
    pub fn submitted_count(&self, slot: usize) -> (r: u64)
        requires
            slot < self.slot_count(),
        ensures
            r == self.submitted_of(slot as int),
    {
        self.slots[slot].submitted
    }

    /// Number of submissions on `slot` whose fence has been observed.
    pub fn retired_count(&self, slot: usize) -> (r: u64)
        requires
            slot < self.slot_count(),
        ensures
            r == self.retired_of(slot as int),
    {
        self.slots[slot].retired
    }

    /// The phase of the frame currently being prepared.
    pub fn current_phase(&self) -> (r: FramePhase)
        ensures
            r == self.phase(),
    {
        self.phase
    }

    /// Whether the machine currently allows recording.
    pub fn is_recording(&self) -> (r: bool)
        ensures
            r == (self.phase() == FramePhase::Recording),
    {
        matches!(self.phase, FramePhase::Recording)
    }
}

/// No frame lands on `s` strictly between `lo` and `hi`, so the count of
/// frames on `s` does not change over that span.
proof fn lemma_no_frames_between(lo: int, hi: int, n: int, s: int)
    requires
        n >= 1,
        lo <= hi,
        forall|j: int| lo <= j < hi ==> #[trigger] (j % n) != s,
    ensures
        submissions_on_slot(hi, n, s) == submissions_on_slot(lo, n, s),
    decreases hi - lo,
{
    if hi > lo {
        lemma_no_frames_between(lo, hi - 1, n, s);
    }
}

/// Of the frames before `f`, exactly one more lands on `f`'s own slot than
/// of the frames before `f - n`: frame `f - n` itself, the slot's previous
/// use.
pub proof fn lemma_slot_revisited(f: int, n: int)
    requires
        n >= 1,
        f >= n,
    ensures
        submissions_on_slot(f, n, f % n) == submissions_on_slot(f - n, n, f % n) + 1,
{
    let s = f % n;
    vstd::arithmetic::div_mod::lemma_mod_sub_multiples_vanish(f, n);
    assert((f - n) % n == s);
    vstd::arithmetic::div_mod::lemma_mod_bound(f, n);
    assert forall|j: int| f - n + 1 <= j < f implies #[trigger] (j % n) != s by {
        if j % n == s {
            vstd::arithmetic::div_mod::lemma_mod_equivalence(j, f - n, n);
            vstd::arithmetic::div_mod::lemma_small_mod((j - (f - n)) as nat, n as nat);
        }
    }
    lemma_no_frames_between(f - n + 1, f, n, s);
    assert(submissions_on_slot(f - n + 1, n, s) == submissions_on_slot(f - n, n, s) + 1);
}

/// True double buffering: whenever recording of frame `f` begins on slot
/// `f % n`, every one of that slot's earlier submissions has had its fence
/// observed — in particular, once `f >= n`, the slot's previous use at
/// frame `f - n` has retired.  The CPU therefore never rewrites a slot the
/// GPU might still be reading.
pub proof fn lemma_double_buffering(p: FramePipeline)
    requires
        p.wf(),
        p.phase() == FramePhase::Recording,
    ensures
        p.retired_of(p.current_slot()) == p.submitted_of(p.current_slot()),
        p.retired_of(p.current_slot()) as int == submissions_on_slot(
            p.frame_count() as int,
            p.slot_count(),
            p.current_slot(),
        ),
        p.frame_count() >= p.slot_count() ==> p.retired_of(p.current_slot()) as int
            == submissions_on_slot(
            p.frame_count() - p.slot_count(),
            p.slot_count(),
            p.current_slot(),
        ) + 1,
{
    if p.frame_count() >= p.slot_count() {
        lemma_slot_revisited(p.frame_count() as int, p.slot_count());
    }
}

} // verus!
