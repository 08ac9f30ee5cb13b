//! The begin/end-frame protocol.
//!
//! A [`FrameScheduler`] drives one CPU thread's render loop over N frame
//! slots. Each slot owns a command buffer, an image-available semaphore, a
//! render-finished semaphore and an in-flight fence. The scheduler is the
//! decision half of the protocol: the application shell performs the fence
//! wait, the image acquisition, the submit and the present, and feeds their
//! outcomes in as [`AcquireOutcome`] and [`PresentOutcome`] values.
//!
//! The state machine enforces the protocol's invariants: `begin_frame` and
//! `end_frame` alternate strictly; the frame index advances only on
//! `end_frame`, modulo N; and a slot whose work was submitted counts as
//! in flight — no CPU write to its resources is permitted — until a later
//! `begin_frame` on that slot completes the wait on its fence.

use crate::config::RenderConfig;
use crate::error::{VkError, VkResult};
use vstd::prelude::*;

verus! {

/// What the platform's image acquisition reported. `Acquired` also means
/// the wait on the slot's in-flight fence completed, since acquisition
/// waits on that fence first.
#[derive(Clone, Copy, Debug, PartialEq, Eq, Structural)]
pub enum AcquireOutcome {
    /// The wait succeeded and the platform handed out this image.
    Acquired { image_index: u32 },
    /// The surface is stale; no image was acquired.
    OutOfDate,
    /// A fatal device error, by its raw code.
    Failed(i32),
}

/// What the combined submit-and-present step reported.
#[derive(Clone, Copy, Debug, PartialEq, Eq, Structural)]
pub enum PresentOutcome {
    /// Submitted and presented.
    Success,
    /// Presented, but the surface no longer matches the window exactly.
    Suboptimal,
    /// The surface is stale.
    OutOfDate,
    /// A fatal device error, by its raw code.
    Failed(i32),
}

/// What a successful `begin_frame` tells the caller to do.
#[derive(Clone, Copy, Debug, PartialEq, Eq, Structural)]
pub enum BeginFrame {
    /// Record into `slot`'s command buffer, targeting image `image_index`.
    Started { slot: usize, image_index: u32 },
    /// The surface was stale: rebuild it and skip drawing this tick.
    RebuildNeeded,
}

/// What a successful `end_frame` tells the caller.
#[derive(Clone, Copy, Debug, PartialEq, Eq, Structural)]
pub struct EndFrameStatus {
    /// The surface must be rebuilt before the next frame: presentation
    /// reported it stale or suboptimal, or the window layer flagged a
    /// resize.
    pub rebuild_needed: bool,
}

/// The parameters `end_frame`'s submit-and-present step must use: all four
/// synchronization objects are the current slot's.
#[derive(Clone, Copy, Debug, PartialEq, Eq, Structural)]
pub struct SubmitPlan {
    /// The slot whose command buffer is submitted.
    pub slot: usize,
    /// Wait on this slot's image-available semaphore.
    pub wait_semaphore_slot: usize,
    /// Signal this slot's render-finished semaphore.
    pub signal_semaphore_slot: usize,
    /// Reset and signal this slot's in-flight fence.
    pub fence_slot: usize,
    /// Present this image, waiting on the render-finished semaphore.
    pub image_index: u32,
}

/// The abstract state of the scheduler.
#[verifier::ext_equal]
pub struct SchedulerState {
    /// Number of frame slots (N).
    pub frames_in_flight: int,
    /// The slot the next frame records into.
    pub current_frame_index: int,
    /// A frame is being recorded.
    pub is_frame_started: bool,
    /// The image the frame being recorded targets; `Some` exactly while
    /// recording.
    pub acquired_image_index: Option<u32>,
    /// The window layer reported a resize that no `end_frame` has consumed
    /// yet.
    pub resize_requested: bool,
    /// Per slot: work was submitted and the fence wait for it has not
    /// completed, so the GPU may still be reading the slot's resources.
    pub slot_in_flight: Seq<bool>,
}

impl SchedulerState {
    pub open spec fn wf(self) -> bool {
        &&& 1 <= self.frames_in_flight <= usize::MAX
        &&& 0 <= self.current_frame_index < self.frames_in_flight
        &&& self.slot_in_flight.len() == self.frames_in_flight
        &&& (self.is_frame_started <==> self.acquired_image_index is Some)
        &&& self.is_frame_started ==> !self.slot_in_flight[self.current_frame_index]
    }

    /// The CPU may write slot `slot`'s per-frame resources: only the slot
    /// of the frame being recorded, and only once its fence wait completed.
    pub open spec fn may_write(self, slot: int) -> bool {
        &&& self.is_frame_started
        &&& slot == self.current_frame_index
        &&& 0 <= slot < self.slot_in_flight.len()
        &&& !self.slot_in_flight[slot]
    }
}

/// `begin_frame` succeeds — hands out a command buffer — exactly when no
/// frame is being recorded and an image was acquired.
pub open spec fn begin_frame_succeeds(pre: SchedulerState, acquire: AcquireOutcome) -> bool {
    !pre.is_frame_started && acquire is Acquired
}

/// The state `begin_frame` leaves: on success the frame is recording and
/// the current slot's completed fence wait takes the slot out of flight;
/// every other outcome leaves the state untouched.
pub open spec fn begin_frame_transition(
    pre: SchedulerState,
    acquire: AcquireOutcome,
) -> SchedulerState {
    if begin_frame_succeeds(pre, acquire) {
        SchedulerState {
            is_frame_started: true,
            acquired_image_index: Some(acquire->image_index),
            slot_in_flight: pre.slot_in_flight.update(pre.current_frame_index, false),
            ..pre
        }
    } else {
        pre
    }
}

/// `end_frame` succeeds exactly when a frame is being recorded.
pub open spec fn end_frame_succeeds(pre: SchedulerState) -> bool {
    pre.is_frame_started
}

/// The state `end_frame` leaves: the submitted slot goes in flight, the
/// frame index advances modulo N, the resize flag is consumed, and the
/// machine returns to idle. Called while idle, it changes nothing.
pub open spec fn end_frame_transition(
    pre: SchedulerState,
    present: PresentOutcome,
) -> SchedulerState {
    if end_frame_succeeds(pre) {
        SchedulerState {
            is_frame_started: false,
            current_frame_index: (pre.current_frame_index + 1) % pre.frames_in_flight,
            acquired_image_index: None,
            resize_requested: false,
            slot_in_flight: pre.slot_in_flight.update(pre.current_frame_index, true),
            ..pre
        }
    } else {
        pre
    }
}

/// The scheduler driving the begin/end-frame protocol.
pub struct FrameScheduler {
    frames_in_flight: usize,
    current_frame_index: usize,
    is_frame_started: bool,
    acquired_image_index: Option<u32>,
    resize_requested: bool,
    slot_in_flight: Vec<bool>,
}

impl View for FrameScheduler {
    type V = SchedulerState;

    closed spec fn view(&self) -> SchedulerState {
        SchedulerState {
            frames_in_flight: self.frames_in_flight as int,
            current_frame_index: self.current_frame_index as int,
            is_frame_started: self.is_frame_started,
            acquired_image_index: self.acquired_image_index,
            resize_requested: self.resize_requested,
            slot_in_flight: self.slot_in_flight@,
        }
    }
}

impl FrameScheduler {
    /// A fresh scheduler: slot 0 is next, nothing is recording, and no slot
    /// is in flight — the in-flight fences are created signaled, so the
    /// first wait on each never blocks.
    pub fn new(config: &RenderConfig) -> (s: Self)
        requires
            config.wf(),
        ensures
            s@.wf(),
            s@.frames_in_flight == config.max_frames_in_flight,
            s@.current_frame_index == 0,
            !s@.is_frame_started,
            !s@.resize_requested,
            forall|slot: int| 0 <= slot < s@.slot_in_flight.len() ==> !s@.slot_in_flight[slot],
    {
        let n = config.max_frames_in_flight;
        let mut slot_in_flight: Vec<bool> = Vec::new();
        let mut i: usize = 0;
        while i < n
            invariant
                i <= n,
                slot_in_flight@.len() == i,
                forall|j: int| 0 <= j < i ==> !slot_in_flight@[j],
            decreases n - i,
        {
            slot_in_flight.push(false);
            i = i + 1;
        }
        FrameScheduler {
            frames_in_flight: n,
            current_frame_index: 0,
            is_frame_started: false,
            acquired_image_index: None,
            resize_requested: false,
            slot_in_flight,
        }
    }

    /// Starts recording a frame from the outcome of the acquisition step
    /// (fence wait plus image request) the caller performed for the current
    /// slot.
    ///
    /// Fails with `FrameAlreadyStarted` when called while recording — the
    /// alternation of `begin_frame` and `end_frame` is strict. A stale
    /// surface asks the caller to rebuild and retry without starting a
    /// frame; a device error is passed through as fatal. Only `Acquired`
    /// starts the frame, and it also records that the current slot's fence
    /// wait completed, making the slot's resources writable.
    pub fn begin_frame(&mut self, acquire: AcquireOutcome) -> (r: VkResult<BeginFrame>)
        requires
            old(self)@.wf(),
        ensures
            final(self)@.wf(),
            final(self)@ == begin_frame_transition(old(self)@, acquire),
            old(self)@.is_frame_started ==> r == VkResult::<BeginFrame>::Err(
                VkError::FrameAlreadyStarted,
            ),
            !old(self)@.is_frame_started ==> match acquire {
                AcquireOutcome::Acquired { image_index } => r == VkResult::<BeginFrame>::Ok(
                    BeginFrame::Started {
                        slot: old(self)@.current_frame_index as usize,
                        image_index,
                    },
                ),
                AcquireOutcome::OutOfDate => r == VkResult::<BeginFrame>::Ok(
                    BeginFrame::RebuildNeeded,
                ),
                AcquireOutcome::Failed(code) => r == VkResult::<BeginFrame>::Err(VkError::Vk(code)),
            },
            r matches Ok(BeginFrame::Started { slot, image_index }) ==> final(self)@.may_write(
                slot as int,
            ) && final(self)@.acquired_image_index == Some(image_index),
    {
        if self.is_frame_started {
            return Err(VkError::FrameAlreadyStarted);
        }
        match acquire {
            AcquireOutcome::Acquired { image_index } => {
                let slot = self.current_frame_index;
                self.is_frame_started = true;
                self.acquired_image_index = Some(image_index);
                self.slot_in_flight.set(slot, false);
                proof {
                    assert(self@ =~= begin_frame_transition(old(self)@, acquire));
                }
                Ok(BeginFrame::Started { slot, image_index })
            },
            AcquireOutcome::OutOfDate => Ok(BeginFrame::RebuildNeeded),
            AcquireOutcome::Failed(code) => Err(VkError::Vk(code)),
        }
    }

    /// The submit parameters for the frame being recorded: the command
    /// buffer, both semaphores and the fence are all the current slot's,
    /// and the acquired image is presented.
    pub fn submit_plan(&self) -> (p: SubmitPlan)
        requires
            self@.wf(),
            self@.is_frame_started,
        ensures
            p.slot == self@.current_frame_index,
            p.wait_semaphore_slot == self@.current_frame_index,
            p.signal_semaphore_slot == self@.current_frame_index,
            p.fence_slot == self@.current_frame_index,
            Some(p.image_index) == self@.acquired_image_index,
    {
        let image_index = match self.acquired_image_index {
            Some(i) => i,
            None => 0,
        };
        SubmitPlan {
            slot: self.current_frame_index,
            wait_semaphore_slot: self.current_frame_index,
            signal_semaphore_slot: self.current_frame_index,
            fence_slot: self.current_frame_index,
            image_index,
        }
    }

    /// Finishes the frame from the outcome of the submit-and-present step
    /// the caller performed with `submit_plan`'s parameters.
    ///
    /// Fails with `FrameNotStarted`, changing nothing, when no frame is
    /// being recorded. Otherwise the submitted slot goes in flight, the
    /// frame index advances modulo N, and the resize flag is read and
    /// cleared — this is its only reader. The status says whether the
    /// surface must be rebuilt (stale or suboptimal presentation, or a
    /// pending resize); presentation itself already happened, so a pending
    /// resize never skips it. A fatal present error is passed through after
    /// the state is updated.
    pub fn end_frame(&mut self, present: PresentOutcome) -> (r: VkResult<EndFrameStatus>)
        requires
            old(self)@.wf(),
        ensures
            final(self)@.wf(),
            final(self)@ == end_frame_transition(old(self)@, present),
            !old(self)@.is_frame_started ==> r == VkResult::<EndFrameStatus>::Err(
                VkError::FrameNotStarted,
            ),
            old(self)@.is_frame_started ==> match present {
                PresentOutcome::Failed(code) => r == VkResult::<EndFrameStatus>::Err(
                    VkError::Vk(code),
                ),
                _ => r == VkResult::<EndFrameStatus>::Ok(
                    EndFrameStatus {
                        rebuild_needed: (present is OutOfDate || present is Suboptimal || old(
                            self,
                        )@.resize_requested),
                    },
                ),
            },
    {
        if !self.is_frame_started {
            return Err(VkError::FrameNotStarted);
        }
        let slot = self.current_frame_index;
        let resized = self.resize_requested;
        self.is_frame_started = false;
        self.acquired_image_index = None;
        self.resize_requested = false;
        self.slot_in_flight.set(slot, true);
        self.current_frame_index = (slot + 1) % self.frames_in_flight;
        proof {
            assert(self@ =~= end_frame_transition(old(self)@, present));
        }
        match present {
            PresentOutcome::Failed(code) => Err(VkError::Vk(code)),
            PresentOutcome::OutOfDate => Ok(EndFrameStatus { rebuild_needed: true }),
            PresentOutcome::Suboptimal => Ok(EndFrameStatus { rebuild_needed: true }),
            PresentOutcome::Success => Ok(EndFrameStatus { rebuild_needed: resized }),
        }
    }

    /// The window layer reports a resize. Consumed by the next successful
    /// `end_frame`; no other code clears it.
    pub fn notify_resize(&mut self)
        requires
            old(self)@.wf(),
        ensures
            final(self)@.wf(),
            final(self)@ == (SchedulerState { resize_requested: true, ..old(self)@ }),
    {
        self.resize_requested = true;
    }

    /// The slot the next frame records into.
    pub fn get_frame_index(&self) -> (i: usize)
        ensures
            i == self@.current_frame_index,
    {
        self.current_frame_index
    }

    /// Whether a frame is being recorded.
    pub fn is_frame_started(&self) -> (b: bool)
        ensures
            b == self@.is_frame_started,
    {
        self.is_frame_started
    }

    /// Whether the CPU may write `slot`'s per-frame resources now.
    pub fn may_write_slot(&self, slot: usize) -> (b: bool)
        requires
            self@.wf(),
        ensures
            b == self@.may_write(slot as int),
    {
        self.is_frame_started && slot == self.current_frame_index && !self.slot_in_flight[slot]
    }

    /// Whether `slot`'s submitted work may still be read by the GPU.
    pub fn slot_in_flight(&self, slot: usize) -> (b: bool)
        requires
            self@.wf(),
            slot < self@.frames_in_flight,
        ensures
            b == self@.slot_in_flight[slot as int],
    {
        self.slot_in_flight[slot]
    }
}

/// Alternation of the frame protocol: after a `begin_frame` succeeds, no
/// `begin_frame` can succeed again — whatever was acquired — until an
/// `end_frame` intervenes; the second call reports `FrameAlreadyStarted`.
pub proof fn lemma_begin_frame_alternation(
    pre: SchedulerState,
    a1: AcquireOutcome,
    a2: AcquireOutcome,
)
    requires
        pre.wf(),
        begin_frame_succeeds(pre, a1),
    ensures
        !begin_frame_succeeds(begin_frame_transition(pre, a1), a2),
{
}

/// Dually, `end_frame` cannot succeed twice without an intervening
/// successful `begin_frame`.
pub proof fn lemma_end_frame_alternation(pre: SchedulerState, p1: PresentOutcome)
    requires
        pre.wf(),
        end_frame_succeeds(pre),
    ensures
        !end_frame_succeeds(end_frame_transition(pre, p1)),
{
}

/// Fence-gated reuse: while a slot is in flight the CPU may not write its
/// resources.
pub proof fn lemma_fence_gated_reuse(s: SchedulerState, slot: int)
    requires
        s.wf(),
        0 <= slot < s.slot_in_flight.len(),
        s.slot_in_flight[slot],
    ensures
        !s.may_write(slot),
{
}

/// A successful `end_frame` puts the submitted slot in flight, and from
/// that state no write to it is permitted.
pub proof fn lemma_end_frame_locks_slot(pre: SchedulerState, present: PresentOutcome)
    requires
        pre.wf(),
        end_frame_succeeds(pre),
    ensures
        end_frame_transition(pre, present).slot_in_flight[pre.current_frame_index],
        !end_frame_transition(pre, present).may_write(pre.current_frame_index),
{
}

/// `end_frame` never takes a slot out of flight.
pub proof fn lemma_end_frame_keeps_slots_in_flight(
    pre: SchedulerState,
    present: PresentOutcome,
    slot: int,
)
    requires
        pre.wf(),
        0 <= slot < pre.slot_in_flight.len(),
        pre.slot_in_flight[slot],
    ensures
        end_frame_transition(pre, present).slot_in_flight[slot],
{
}

/// The only transition that takes an in-flight slot back out of flight is
/// a `begin_frame` that succeeds while that very slot is current — the
/// step whose acquisition completed the wait on that slot's fence. So
/// between `end_frame` returning for slot `i` and the next `begin_frame`
/// on slot `i`, no CPU write to slot `i` is possible.
pub proof fn lemma_slot_cleared_only_by_begin(
    pre: SchedulerState,
    acquire: AcquireOutcome,
    slot: int,
)
    requires
        pre.wf(),
        0 <= slot < pre.slot_in_flight.len(),
        pre.slot_in_flight[slot],
    ensures
        !begin_frame_transition(pre, acquire).slot_in_flight[slot] <==> (begin_frame_succeeds(
            pre,
            acquire,
        ) && slot == pre.current_frame_index),
{
}

/// Both transitions preserve the scheduler's invariant, so it holds in
/// every reachable state.
pub proof fn lemma_wf_preserved(s: SchedulerState, acquire: AcquireOutcome, present: PresentOutcome)
    requires
        s.wf(),
    ensures
        begin_frame_transition(s, acquire).wf(),
        end_frame_transition(s, present).wf(),
{
}

/// The frame index after `k` completed begin/end cycles of a scheduler
/// with `n` slots that started at index 0.
pub open spec fn frame_index_after_cycles(k: nat, n: int) -> int
    decreases k,
{
    if k == 0 {
        0
    } else {
        (frame_index_after_cycles((k - 1) as nat, n) + 1) % n
    }
}

/// Frame index wraparound: after exactly `k` successful `end_frame` calls
/// starting from index 0, the current frame index is `k % n` — in
/// particular it returns to 0 after `n` frames and stands at 1 after
/// `n + 1`.
pub proof fn lemma_frame_index_wraparound(k: nat, n: int)
    requires
        n >= 1,
    ensures
        frame_index_after_cycles(k, n) == (k as int) % n,
    decreases k,
{
    if k == 0 {
        vstd::arithmetic::div_mod::lemma_small_mod(0nat, n as nat);
    } else {
        lemma_frame_index_wraparound((k - 1) as nat, n);
        if n == 1 {
            vstd::arithmetic::div_mod::lemma_mod_bound(frame_index_after_cycles((k - 1) as nat, n)
                + 1, n);
            vstd::arithmetic::div_mod::lemma_mod_bound(k as int, n);
        } else {
            assert(((k as int - 1) % n + 1) % n == (k as int) % n) by {
                vstd::arithmetic::div_mod::lemma_add_mod_noop((k - 1) as int, 1int, n);
                vstd::arithmetic::div_mod::lemma_small_mod(1nat, n as nat);
            }
        }
    }
}

/// Each successful cycle — a `begin_frame` that starts a frame followed by
/// the `end_frame` that finishes it — advances the frame index by exactly
/// one, modulo the slot count; the `begin_frame` itself leaves it alone.
pub proof fn lemma_cycle_advances_index(
    pre: SchedulerState,
    acquire: AcquireOutcome,
    present: PresentOutcome,
)
    requires
        pre.wf(),
        begin_frame_succeeds(pre, acquire),
    ensures
        begin_frame_transition(pre, acquire).current_frame_index == pre.current_frame_index,
        end_frame_transition(
            begin_frame_transition(pre, acquire),
            present,
        ).current_frame_index == (pre.current_frame_index + 1) % pre.frames_in_flight,
{
}

} // verus!
