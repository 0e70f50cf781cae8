//! The frame synchroniser: which driver call comes next while a frame is
//! acquired, rendered and presented, and what each reply changes.
//!
//! The synchroniser never calls the driver. It hands out one
//! [`PresentAction`] at a time; whoever drives it performs the action and
//! reports what the driver answered as a [`PresentEvent`].

use vstd::prelude::*;
use crate::teardown::{append_live, destroy_live, HandleKind, TeardownStep};
use crate::vulkan::{
    fence_is_null, FENCE_CREATE_SIGNALED, NULL_HANDLE, RESULT_ERROR_OUT_OF_DATE,
    RESULT_SUBOPTIMAL, RESULT_SUCCESS,
};

verus! {

/// The synchronisation primitives of one frame in flight.
#[derive(Clone, Copy, Debug, PartialEq, Eq, Structural)]
pub struct FrameSlot {
    /// Semaphore the driver signals when the acquired image is ready.
    pub img_aquired_gpu: u64,
    /// Semaphore the submitted work signals for the present call to wait on.
    pub img_rendered_gpu: u64,
    /// Fence the submitted work signals for the CPU to wait on.
    pub img_rendered_cpu: u64,
}

/// A frame slot together with what the CPU knows of the work on it.
#[derive(Clone, Copy, Debug, PartialEq, Eq, Structural)]
pub struct SlotState {
    pub sync: FrameSlot,
    /// Frames begun on the slot whose completion has not been waited for.
    pub outstanding: u32,
    /// The image that the frame last begun on the slot renders into.
    pub image: u32,
}

/// Where in the per-frame protocol the synchroniser stands.
#[derive(Clone, Copy, Debug, PartialEq, Eq, Structural)]
pub enum PresentPhase {
    /// Between frames.
    Idle,
    /// Waiting for the fence of the current slot.
    SlotWait,
    /// Waiting for the driver to hand out the next image.
    ImageRequest,
    /// Waiting for the fence of the frame that still renders into the image.
    ImageWait,
    /// Waiting for the fence of the current slot to be reset.
    FenceReset,
    /// The caller records and submits the frame.
    Recording,
    /// Waiting for the present call.
    Presenting,
    /// Waiting for the swapchain to be rebuilt.
    Rebuilding,
    /// A fatal failure was reported; nothing more can be done.
    Failed,
}

/// What the driver answered to the last action.
#[derive(Clone, Copy, Debug, PartialEq, Eq, Structural)]
pub enum PresentEvent {
    /// The fence wait returned with this raw result.
    Waited(i32),
    /// The image request returned with this raw result and, on success,
    /// this image index.
    Acquired { result: i32, index: u32 },
    /// The fence reset returned with this raw result.
    Reset(i32),
    /// The present call returned with this raw result.
    Presented(i32),
    /// The swapchain rebuild ended, successfully or not.
    Rebuilt(bool),
}

/// Why presentation cannot go on.
#[derive(Clone, Copy, Debug, PartialEq, Eq, Structural)]
pub enum PresentationFailure {
    /// The current slot has no synchronisation primitives.
    Incomplete,
    /// The driver reported this raw error.
    Driver(i32),
    /// A call or an event came at a point of the protocol where it has no
    /// place.
    OutOfTurn,
    /// The number of frame slots differs from the number of primitives
    /// supplied.
    SlotCount,
}

/// What a frame is submitted with.
#[derive(Clone, Copy, Debug, PartialEq, Eq, Structural)]
pub struct ToRenderInfo {
    /// Semaphore the submission waits on.
    pub img_aquired_gpu: u64,
    /// Index of the image to render into.
    pub img_aquired_index: u32,
    /// Fence the submission signals.
    pub done_rendering_cpu: u64,
    /// Semaphore the submission signals.
    pub done_rendering_gpu: u64,
    /// The slot the frame runs on.
    pub frame_in_flight: u32,
}

/// What the driver of the synchroniser is to do next.
#[derive(Clone, Copy, Debug, PartialEq, Eq, Structural)]
pub enum PresentAction {
    /// Block on the fence, without a timeout, and report `Waited`.
    WaitForFence(u64),
    /// Request the next image, signalling the semaphore, without a timeout,
    /// and report `Acquired`.
    AcquireImage { signal: u64 },
    /// Reset the fence and report `Reset`.
    ResetFence(u64),
    /// Record and submit the frame, then call `present_frame`.
    Render(ToRenderInfo),
    /// Queue the image for presentation, waiting on the semaphore, and
    /// report `Presented`.
    Present { image_index: u32, wait: u64 },
    /// Wait for the device to be idle, rebuild the swapchain and report
    /// `Rebuilt`.
    Rebuild,
    /// Nothing: the frame is over, presented or dropped.
    Done,
    /// Stop the render loop.
    Fail(PresentationFailure),
}

/// The synchroniser as a mathematical value.
pub struct PresentState {
    /// The slot the current or next frame runs on.
    pub frame: u32,
    /// The number of frames that may be in flight.
    pub max_frames: u32,
    pub slots: Seq<SlotState>,
    /// The image handed out for the frame under way.
    pub img_aquired_index: u32,
    /// Per image, the fence of the frame that renders into it, or null.
    pub img_in_flight: Seq<u64>,
    /// Whether the swapchain is to be rebuilt after the next present.
    pub swap_invalid: bool,
    pub phase: PresentPhase,
}

/// Whether a raw result stands for a recoverable mismatch between swapchain
/// and surface.
pub open spec fn is_stale(result: i32) -> bool {
    result == RESULT_SUBOPTIMAL || result == RESULT_ERROR_OUT_OF_DATE
}

/// `table` extended with null entries until it has an entry at `index`.
pub open spec fn grown(table: Seq<u64>, index: int) -> Seq<u64> {
    if index < table.len() {
        table
    } else {
        table + Seq::new((index + 1 - table.len()) as nat, |i: int| NULL_HANDLE)
    }
}

impl PresentState {
    /// No slot has more than one frame outstanding.
    pub open spec fn one_outstanding_per_slot(self) -> bool {
        forall|f: int| 0 <= f < self.slots.len() ==> (#[trigger] self.slots[f]).outstanding <= 1
    }

    /// Whether slot `f` has a frame outstanding that renders into image `i`
    /// and signals `fence`.
    pub open spec fn renders_into(self, f: int, i: int, fence: u64) -> bool {
        &&& 0 <= f < self.slots.len()
        &&& self.slots[f].sync.img_rendered_cpu == fence
        &&& self.slots[f].outstanding == 1
        &&& self.slots[f].image == i
    }

    /// An image has a fence on record only while a frame that acquired the
    /// image is outstanding on the slot of that fence.
    pub open spec fn in_flight_only_while_rendering(self) -> bool {
        forall|i: int|
            0 <= i < self.img_in_flight.len() && #[trigger] self.img_in_flight[i] != NULL_HANDLE
                ==> exists|f: int| self.renders_into(f, i, self.img_in_flight[i])
    }

    /// Whether a frame is under way on the current slot.
    pub open spec fn mid_frame(self) -> bool {
        self.phase == PresentPhase::SlotWait || self.phase == PresentPhase::ImageRequest
            || self.phase == PresentPhase::ImageWait || self.phase == PresentPhase::FenceReset
            || self.phase == PresentPhase::Recording || self.phase == PresentPhase::Presenting
    }

    /// What holds of the synchroniser at every point of its life.
    pub open spec fn wf(self) -> bool {
        &&& self.slots.len() == 0 || self.slots.len() == self.max_frames
        &&& self.frame < self.max_frames || (self.max_frames == 0 && self.frame == 0)
        &&& self.one_outstanding_per_slot()
        &&& self.in_flight_only_while_rendering()
        &&& self.mid_frame() ==> self.frame < self.slots.len()
        &&& self.phase == PresentPhase::ImageRequest || self.phase == PresentPhase::ImageWait
            ==> self.slots[self.frame as int].outstanding == 0
        &&& self.phase == PresentPhase::ImageWait ==> self.img_aquired_index
            < self.img_in_flight.len()
    }

    /// The state after a fatal failure.
    pub open spec fn failed(self) -> PresentState {
        PresentState { phase: PresentPhase::Failed, ..self }
    }

    /// The state after the CPU has seen `fence` signalled: no slot with that
    /// fence has a frame outstanding, and no image has that fence on record.
    pub open spec fn observed(self, fence: u64) -> PresentState {
        PresentState {
            slots: Seq::new(
                self.slots.len(),
                |f: int|
                    if self.slots[f].sync.img_rendered_cpu == fence {
                        SlotState { outstanding: 0, ..self.slots[f] }
                    } else {
                        self.slots[f]
                    },
            ),
            img_in_flight: Seq::new(
                self.img_in_flight.len(),
                |i: int|
                    if self.img_in_flight[i] == fence {
                        NULL_HANDLE
                    } else {
                        self.img_in_flight[i]
                    },
            ),
            ..self
        }
    }

    /// The state after the frame on the current slot has taken image
    /// `index`: the image has the slot's fence on record and the slot has
    /// one more frame outstanding.
    pub open spec fn claimed(self, index: u32) -> PresentState {
        let slot = self.slots[self.frame as int];
        PresentState {
            slots: self.slots.update(
                self.frame as int,
                SlotState { outstanding: (slot.outstanding + 1) as u32, image: index, ..slot },
            ),
            img_in_flight: grown(self.img_in_flight, index as int).update(
                index as int,
                slot.sync.img_rendered_cpu,
            ),
            img_aquired_index: index,
            phase: PresentPhase::FenceReset,
            ..self
        }
    }

    /// The state after the device was idle and the swapchain replaced: no
    /// frame is outstanding and no image has a fence on record.
    pub open spec fn rebuilt(self) -> PresentState {
        PresentState {
            slots: Seq::new(
                self.slots.len(),
                |f: int| SlotState { outstanding: 0, ..self.slots[f] },
            ),
            img_in_flight: Seq::empty(),
            swap_invalid: false,
            phase: PresentPhase::Idle,
            ..self
        }
    }

    /// What a frame on the current slot is submitted with.
    pub open spec fn render_info(self) -> ToRenderInfo {
        let slot = self.slots[self.frame as int];
        ToRenderInfo {
            img_aquired_gpu: slot.sync.img_aquired_gpu,
            img_aquired_index: self.img_aquired_index,
            done_rendering_cpu: slot.sync.img_rendered_cpu,
            done_rendering_gpu: slot.sync.img_rendered_gpu,
            frame_in_flight: self.frame,
        }
    }

    /// Starting a frame: from idle, with primitives on the current slot, the
    /// slot's fence is waited for. Without primitives nothing changes and
    /// the frame fails as incomplete. In any other phase the call is out of
    /// turn, which is fatal.
    pub open spec fn begin_acquire(self) -> (PresentState, PresentAction) {
        if self.phase != PresentPhase::Idle {
            (self.failed(), PresentAction::Fail(PresentationFailure::OutOfTurn))
        } else if self.frame >= self.slots.len() {
            (self, PresentAction::Fail(PresentationFailure::Incomplete))
        } else {
            (
                PresentState { phase: PresentPhase::SlotWait, ..self },
                PresentAction::WaitForFence(self.slots[self.frame as int].sync.img_rendered_cpu),
            )
        }
    }

    /// Handing the frame over for presentation: without primitives on the
    /// current slot nothing changes and the present fails as incomplete.
    /// From recording, the acquired image is presented once the slot's
    /// render semaphore is signalled. In any other phase the call is out of
    /// turn, which is fatal.
    pub open spec fn begin_present(self) -> (PresentState, PresentAction) {
        if self.frame >= self.slots.len() {
            (self, PresentAction::Fail(PresentationFailure::Incomplete))
        } else if self.phase == PresentPhase::Recording {
            (
                PresentState { phase: PresentPhase::Presenting, ..self },
                PresentAction::Present {
                    image_index: self.img_aquired_index,
                    wait: self.slots[self.frame as int].sync.img_rendered_gpu,
                },
            )
        } else {
            (self.failed(), PresentAction::Fail(PresentationFailure::OutOfTurn))
        }
    }

    /// The slot's fence was waited for: its frame is over, and the next
    /// image is requested.
    pub open spec fn after_slot_wait(self, result: i32) -> (PresentState, PresentAction) {
        if result == RESULT_SUCCESS {
            let slot = self.slots[self.frame as int];
            (
                PresentState {
                    phase: PresentPhase::ImageRequest,
                    ..self.observed(slot.sync.img_rendered_cpu)
                },
                PresentAction::AcquireImage { signal: slot.sync.img_aquired_gpu },
            )
        } else {
            (self.failed(), PresentAction::Fail(PresentationFailure::Driver(result)))
        }
    }

    /// The driver answered the image request. A suboptimal image is used
    /// and the swapchain marked for rebuild. An image that an older frame
    /// still renders into is waited for before it is taken. An out of date
    /// swapchain drops the frame and is rebuilt at once.
    pub open spec fn after_image_request(self, result: i32, index: u32) -> (
        PresentState,
        PresentAction,
    ) {
        if result == RESULT_SUCCESS || result == RESULT_SUBOPTIMAL {
            let marked = PresentState {
                swap_invalid: self.swap_invalid || result == RESULT_SUBOPTIMAL,
                ..self
            };
            if index < self.img_in_flight.len() && self.img_in_flight[index as int]
                != NULL_HANDLE {
                (
                    PresentState {
                        phase: PresentPhase::ImageWait,
                        img_aquired_index: index,
                        ..marked
                    },
                    PresentAction::WaitForFence(self.img_in_flight[index as int]),
                )
            } else {
                (
                    marked.claimed(index),
                    PresentAction::ResetFence(
                        self.slots[self.frame as int].sync.img_rendered_cpu,
                    ),
                )
            }
        } else if result == RESULT_ERROR_OUT_OF_DATE {
            (
                PresentState { swap_invalid: true, phase: PresentPhase::Rebuilding, ..self },
                PresentAction::Rebuild,
            )
        } else {
            (self.failed(), PresentAction::Fail(PresentationFailure::Driver(result)))
        }
    }

    /// The fence on record for the acquired image was waited for: that frame
    /// is over and the image is taken.
    pub open spec fn after_image_wait(self, result: i32) -> (PresentState, PresentAction) {
        if result == RESULT_SUCCESS {
            (
                self.observed(self.img_in_flight[self.img_aquired_index as int]).claimed(
                    self.img_aquired_index,
                ),
                PresentAction::ResetFence(self.slots[self.frame as int].sync.img_rendered_cpu),
            )
        } else {
            (self.failed(), PresentAction::Fail(PresentationFailure::Driver(result)))
        }
    }

    /// The slot's fence was reset: the frame is handed out for recording.
    pub open spec fn after_fence_reset(self, result: i32) -> (PresentState, PresentAction) {
        if result == RESULT_SUCCESS {
            (
                PresentState { phase: PresentPhase::Recording, ..self },
                PresentAction::Render(self.render_info()),
            )
        } else {
            (self.failed(), PresentAction::Fail(PresentationFailure::Driver(result)))
        }
    }

    /// The driver answered the present call: the next slot becomes current,
    /// and a stale swapchain is rebuilt before the next frame.
    pub open spec fn after_present(self, result: i32) -> (PresentState, PresentAction) {
        if result == RESULT_SUCCESS || is_stale(result) {
            let next = PresentState {
                frame: ((self.frame + 1) % (self.max_frames as int)) as u32,
                swap_invalid: self.swap_invalid || is_stale(result),
                ..self
            };
            if next.swap_invalid {
                (PresentState { phase: PresentPhase::Rebuilding, ..next }, PresentAction::Rebuild)
            } else {
                (PresentState { phase: PresentPhase::Idle, ..next }, PresentAction::Done)
            }
        } else {
            (self.failed(), PresentAction::Fail(PresentationFailure::Driver(result)))
        }
    }

    /// The rebuild ended. A failed rebuild leaves the swapchain marked, to be
    /// tried again after a later present.
    pub open spec fn after_rebuild(self, success: bool) -> (PresentState, PresentAction) {
        if success {
            (self.rebuilt(), PresentAction::Done)
        } else {
            (PresentState { phase: PresentPhase::Idle, ..self }, PresentAction::Done)
        }
    }

    /// The state and the next action after the driver's answer `event`. An
    /// answer that the current phase is not waiting for is fatal.
    pub open spec fn advance(self, event: PresentEvent) -> (PresentState, PresentAction) {
        match (self.phase, event) {
            (PresentPhase::SlotWait, PresentEvent::Waited(result)) => self.after_slot_wait(result),
            (PresentPhase::ImageRequest, PresentEvent::Acquired { result, index }) =>
                self.after_image_request(result, index),
            (PresentPhase::ImageWait, PresentEvent::Waited(result)) => self.after_image_wait(
                result,
            ),
            (PresentPhase::FenceReset, PresentEvent::Reset(result)) => self.after_fence_reset(
                result,
            ),
            (PresentPhase::Presenting, PresentEvent::Presented(result)) => self.after_present(
                result,
            ),
            (PresentPhase::Rebuilding, PresentEvent::Rebuilt(success)) => self.after_rebuild(
                success,
            ),
            _ => (self.failed(), PresentAction::Fail(PresentationFailure::OutOfTurn)),
        }
    }
}

/// Seeing a fence signalled keeps the synchroniser well formed, whatever
/// the fence, and leaves no frame outstanding on a slot with that fence.
pub proof fn lemma_observed_keeps_wf(state: PresentState, fence: u64)
    requires
        state.wf(),
    ensures
        state.observed(fence).wf(),
        forall|f: int|
            0 <= f < state.slots.len() && (#[trigger] state.slots[f]).sync.img_rendered_cpu
                == fence ==> state.observed(fence).slots[f].outstanding == 0,
        forall|f: int|
            0 <= f < state.slots.len() ==> (#[trigger] state.observed(fence).slots[f]).outstanding
                <= state.slots[f].outstanding,
{
    let after = state.observed(fence);
    assert forall|i: int|
        0 <= i < after.img_in_flight.len() && #[trigger] after.img_in_flight[i]
            != NULL_HANDLE implies exists|f: int|
        after.renders_into(f, i, after.img_in_flight[i]) by {
        assert(state.img_in_flight[i] != NULL_HANDLE);
        let f = choose|f: int| state.renders_into(f, i, state.img_in_flight[i]);
        assert(after.renders_into(f, i, after.img_in_flight[i]));
    }
}

/// Taking an image for the frame on the current slot keeps the synchroniser
/// well formed, provided the slot has no frame outstanding.
pub proof fn lemma_claimed_keeps_wf(state: PresentState, index: u32)
    requires
        state.wf(),
        state.frame < state.slots.len(),
        state.slots[state.frame as int].outstanding == 0,
    ensures
        state.claimed(index).wf(),
        state.claimed(index).slots[state.frame as int].outstanding == 1,
{
    let after = state.claimed(index);
    let table = grown(state.img_in_flight, index as int);
    assert forall|i: int|
        0 <= i < after.img_in_flight.len() && #[trigger] after.img_in_flight[i]
            != NULL_HANDLE implies exists|f: int|
        after.renders_into(f, i, after.img_in_flight[i]) by {
        if i == index {
            assert(after.renders_into(state.frame as int, i, after.img_in_flight[i]));
        } else {
            assert(i < state.img_in_flight.len());
            assert(state.img_in_flight[i] == after.img_in_flight[i]);
            let f = choose|f: int| state.renders_into(f, i, state.img_in_flight[i]);
            assert(f != state.frame);
            assert(after.renders_into(f, i, after.img_in_flight[i]));
        }
    }
}

/// Changing nothing but the phase, the marked flag, the current slot or the
/// acquired index leaves the two invariants on slots and images as they are.
proof fn lemma_same_tables(before: PresentState, after: PresentState)
    requires
        before.one_outstanding_per_slot(),
        before.in_flight_only_while_rendering(),
        after.slots == before.slots,
        after.img_in_flight == before.img_in_flight,
    ensures
        after.one_outstanding_per_slot(),
        after.in_flight_only_while_rendering(),
{
    assert forall|i: int|
        0 <= i < after.img_in_flight.len() && #[trigger] after.img_in_flight[i]
            != NULL_HANDLE implies exists|f: int|
        after.renders_into(f, i, after.img_in_flight[i]) by {
        let f = choose|f: int| before.renders_into(f, i, before.img_in_flight[i]);
        assert(after.renders_into(f, i, after.img_in_flight[i]));
    }
}

/// Starting a frame keeps the synchroniser well formed.
pub proof fn lemma_begin_acquire_keeps_wf(state: PresentState)
    requires
        state.wf(),
    ensures
        state.begin_acquire().0.wf(),
{
    lemma_same_tables(state, state.begin_acquire().0);
}

/// Handing a frame over for presentation keeps the synchroniser well formed.
pub proof fn lemma_begin_present_keeps_wf(state: PresentState)
    requires
        state.wf(),
    ensures
        state.begin_present().0.wf(),
{
    lemma_same_tables(state, state.begin_present().0);
}

/// Every answer of the driver, expected or not, keeps the synchroniser well
/// formed. With the two lemmas on starting and presenting a frame this makes
/// well-formedness hold at every point of every run: at no time does a slot
/// have more than one frame outstanding, and at no time does an image have
/// a fence on record unless a frame that acquired it is still outstanding.
pub proof fn lemma_advance_keeps_wf(state: PresentState, event: PresentEvent)
    requires
        state.wf(),
    ensures
        state.advance(event).0.wf(),
{
    let after = state.advance(event).0;
    match (state.phase, event) {
        (PresentPhase::SlotWait, PresentEvent::Waited(result)) => {
            if result == RESULT_SUCCESS {
                let fence = state.slots[state.frame as int].sync.img_rendered_cpu;
                lemma_observed_keeps_wf(state, fence);
                lemma_same_tables(state.observed(fence), after);
            } else {
                lemma_same_tables(state, after);
            }
        },
        (PresentPhase::ImageRequest, PresentEvent::Acquired { result, index }) => {
            if result == RESULT_SUCCESS || result == RESULT_SUBOPTIMAL {
                let marked = PresentState {
                    swap_invalid: state.swap_invalid || result == RESULT_SUBOPTIMAL,
                    ..state
                };
                lemma_same_tables(state, marked);
                if index < state.img_in_flight.len() && state.img_in_flight[index as int]
                    != NULL_HANDLE {
                    lemma_same_tables(state, after);
                } else {
                    lemma_claimed_keeps_wf(marked, index);
                }
            } else {
                lemma_same_tables(state, after);
            }
        },
        (PresentPhase::ImageWait, PresentEvent::Waited(result)) => {
            if result == RESULT_SUCCESS {
                let fence = state.img_in_flight[state.img_aquired_index as int];
                lemma_observed_keeps_wf(state, fence);
                lemma_claimed_keeps_wf(state.observed(fence), state.img_aquired_index);
            } else {
                lemma_same_tables(state, after);
            }
        },
        (PresentPhase::Rebuilding, PresentEvent::Rebuilt(success)) => {
            if !success {
                lemma_same_tables(state, after);
            }
        },
        _ => {
            lemma_same_tables(state, after);
        },
    }
}

/// One thing that can be done to a synchroniser with frame slots.
pub enum PresentCall {
    /// `aquire_img` is called.
    Acquire,
    /// `present_frame` is called.
    Present,
    /// `invalidate_swap` is called.
    Invalidate,
    /// `advance` is called with this answer of the driver.
    Answer(PresentEvent),
}

/// The state after `call`.
pub open spec fn after_call(state: PresentState, call: PresentCall) -> PresentState {
    match call {
        PresentCall::Acquire => state.begin_acquire().0,
        PresentCall::Present => state.begin_present().0,
        PresentCall::Invalidate => PresentState { swap_invalid: true, ..state },
        PresentCall::Answer(event) => state.advance(event).0,
    }
}

/// The state after every call of `calls`, first to last.
pub open spec fn after_calls(state: PresentState, calls: Seq<PresentCall>) -> PresentState
    decreases calls.len(),
{
    if calls.len() == 0 {
        state
    } else {
        after_call(after_calls(state, calls.drop_last()), calls.last())
    }
}

/// Whatever is done to a well formed synchroniser, in whatever order and
/// with whatever answers of the driver, at every point no slot has more
/// than one frame outstanding, and an image has a fence on record only
/// while a frame that acquired it is outstanding on the slot of that fence.
pub proof fn lemma_invariants_hold_throughout(state: PresentState, calls: Seq<PresentCall>)
    requires
        state.wf(),
    ensures
        after_calls(state, calls).wf(),
        after_calls(state, calls).one_outstanding_per_slot(),
        after_calls(state, calls).in_flight_only_while_rendering(),
    decreases calls.len(),
{
    if calls.len() > 0 {
        lemma_invariants_hold_throughout(state, calls.drop_last());
        let before = after_calls(state, calls.drop_last());
        match calls.last() {
            PresentCall::Acquire => lemma_begin_acquire_keeps_wf(before),
            PresentCall::Present => lemma_begin_present_keeps_wf(before),
            PresentCall::Invalidate => lemma_same_tables(
                before,
                PresentState { swap_invalid: true, ..before },
            ),
            PresentCall::Answer(event) => lemma_advance_keeps_wf(before, event),
        }
    }
}

/// A synchroniser whose frame slots were just installed is well formed, so
/// the invariants hold from the start.
pub proof fn lemma_fresh_is_wf(sync: Seq<FrameSlot>, frames: u32, frame: u32)
    requires
        frames > 0,
        sync.len() == frames,
        frame < frames,
    ensures
        (PresentState {
            frame,
            max_frames: frames,
            slots: fresh_slots(sync),
            img_aquired_index: 0,
            img_in_flight: Seq::empty(),
            swap_invalid: false,
            phase: PresentPhase::Idle,
        }).wf(),
{
}

/// A frame that meets no trouble goes all the way round: started between
/// frames on a synchroniser whose swapchain is not marked, with every
/// driver call succeeding, it is handed out for rendering with the
/// primitives of the current slot and the image the driver gave, and after
/// the present the synchroniser is between frames again, the next slot is
/// current, the frame is the one outstanding on its slot and its fence is
/// on record for its image.
pub proof fn lemma_untroubled_frame(state: PresentState, index: u32)
    requires
        state.wf(),
        state.phase == PresentPhase::Idle,
        state.frame < state.slots.len(),
        !state.swap_invalid,
    ensures
        ({
            let slot = state.slots[state.frame as int];
            let waited = state.begin_acquire().0.advance(PresentEvent::Waited(RESULT_SUCCESS)).0;
            let acquired = waited.advance(PresentEvent::Acquired { result: RESULT_SUCCESS, index });
            let taken = if acquired.1 is WaitForFence {
                acquired.0.advance(PresentEvent::Waited(RESULT_SUCCESS))
            } else {
                acquired
            };
            let recording = taken.0.advance(PresentEvent::Reset(RESULT_SUCCESS));
            let done = recording.0.begin_present().0.advance(
                PresentEvent::Presented(RESULT_SUCCESS),
            );
            &&& state.begin_acquire().1 == PresentAction::WaitForFence(slot.sync.img_rendered_cpu)
            &&& taken.1 == PresentAction::ResetFence(slot.sync.img_rendered_cpu)
            &&& recording.1 == PresentAction::Render(
                ToRenderInfo {
                    img_aquired_gpu: slot.sync.img_aquired_gpu,
                    img_aquired_index: index,
                    done_rendering_cpu: slot.sync.img_rendered_cpu,
                    done_rendering_gpu: slot.sync.img_rendered_gpu,
                    frame_in_flight: state.frame,
                },
            )
            &&& done.1 == PresentAction::Done
            &&& done.0.phase == PresentPhase::Idle
            &&& done.0.frame == (state.frame + 1) % (state.max_frames as int)
            &&& done.0.slots[state.frame as int].outstanding == 1
            &&& done.0.img_in_flight[index as int] == slot.sync.img_rendered_cpu
            &&& done.0.wf()
        }),
{
    let slot = state.slots[state.frame as int];
    let started = state.begin_acquire().0;
    lemma_begin_acquire_keeps_wf(state);
    let waited = started.advance(PresentEvent::Waited(RESULT_SUCCESS)).0;
    lemma_advance_keeps_wf(started, PresentEvent::Waited(RESULT_SUCCESS));
    assert(waited.slots[state.frame as int].sync == slot.sync);
    let acquired = waited.advance(PresentEvent::Acquired { result: RESULT_SUCCESS, index });
    lemma_advance_keeps_wf(waited, PresentEvent::Acquired { result: RESULT_SUCCESS, index });
    let taken = if acquired.1 is WaitForFence {
        acquired.0.advance(PresentEvent::Waited(RESULT_SUCCESS))
    } else {
        acquired
    };
    if acquired.1 is WaitForFence {
        lemma_advance_keeps_wf(acquired.0, PresentEvent::Waited(RESULT_SUCCESS));
        let fence = acquired.0.img_in_flight[index as int];
        lemma_observed_keeps_wf(acquired.0, fence);
        lemma_claimed_keeps_wf(acquired.0.observed(fence), index);
        assert(acquired.0.observed(fence).slots[state.frame as int].sync == slot.sync);
    } else {
        lemma_claimed_keeps_wf(
            PresentState {
                swap_invalid: waited.swap_invalid || RESULT_SUCCESS == RESULT_SUBOPTIMAL,
                ..waited
            },
            index,
        );
    }
    assert(taken.0.phase == PresentPhase::FenceReset);
    assert(taken.0.slots[state.frame as int].sync == slot.sync);
    assert(taken.0.slots[state.frame as int].outstanding == 1);
    assert(taken.0.img_in_flight[index as int] == slot.sync.img_rendered_cpu);
    let recording = taken.0.advance(PresentEvent::Reset(RESULT_SUCCESS));
    lemma_advance_keeps_wf(taken.0, PresentEvent::Reset(RESULT_SUCCESS));
    let presenting = recording.0.begin_present().0;
    lemma_begin_present_keeps_wf(recording.0);
    lemma_advance_keeps_wf(presenting, PresentEvent::Presented(RESULT_SUCCESS));
}

/// The driver calls of a frame come in one order, whatever state the
/// synchroniser is in. An image is requested only as the answer to a wait
/// for the current slot's fence that returned. That fence is reset only as
/// the answer to an image that was handed out, or to a wait for that image
/// that returned; at that point the slot has no frame outstanding, and the
/// reset makes the frame the one outstanding on it. A frame is handed out
/// for rendering only as the answer to that reset.
pub proof fn lemma_calls_come_in_order(state: PresentState, event: PresentEvent)
    requires
        state.wf(),
    ensures
        state.advance(event).1 matches PresentAction::AcquireImage { signal } ==> {
            &&& state.phase == PresentPhase::SlotWait
            &&& event == PresentEvent::Waited(RESULT_SUCCESS)
            &&& signal == state.slots[state.frame as int].sync.img_aquired_gpu
        },
        state.advance(event).1 matches PresentAction::WaitForFence(fence) ==> {
            &&& state.phase == PresentPhase::ImageRequest
            &&& event is Acquired
            &&& fence != NULL_HANDLE
            &&& fence == state.img_in_flight[event->index as int]
        },
        state.advance(event).1 matches PresentAction::ResetFence(fence) ==> {
            &&& state.phase == PresentPhase::ImageRequest && event is Acquired || state.phase
                == PresentPhase::ImageWait && event == PresentEvent::Waited(RESULT_SUCCESS)
            &&& fence == state.slots[state.frame as int].sync.img_rendered_cpu
            &&& state.slots[state.frame as int].outstanding == 0
            &&& state.advance(event).0.slots[state.frame as int].outstanding == 1
            &&& state.advance(event).0.phase == PresentPhase::FenceReset
        },
        state.advance(event).1 matches PresentAction::Render(info) ==> {
            &&& state.phase == PresentPhase::FenceReset
            &&& event == PresentEvent::Reset(RESULT_SUCCESS)
            &&& info == state.render_info()
        },
        !(state.advance(event).1 matches PresentAction::Present { .. }),
        state.begin_acquire().1 matches PresentAction::WaitForFence(fence) ==> {
            &&& state.phase == PresentPhase::Idle
            &&& fence == state.slots[state.frame as int].sync.img_rendered_cpu
        },
        state.begin_present().1 matches PresentAction::Present { image_index, wait } ==> {
            &&& state.phase == PresentPhase::Recording
            &&& image_index == state.img_aquired_index
            &&& wait == state.slots[state.frame as int].sync.img_rendered_gpu
        },
{
    if state.phase == PresentPhase::ImageWait && event == PresentEvent::Waited(RESULT_SUCCESS) {
        lemma_observed_keeps_wf(state, state.img_in_flight[state.img_aquired_index as int]);
    }
}

/// A swapchain marked as stale is rebuilt once: the present that follows
/// the mark asks for the rebuild, whether or not the driver complains too;
/// a rebuild that succeeds takes the mark away, leaves no frame outstanding
/// and no fence on record, and the synchroniser is between frames; and
/// from there a present that the driver does not complain about asks for
/// no rebuild.
pub proof fn lemma_marked_swapchain_is_rebuilt_once(state: PresentState, later: PresentState)
    requires
        state.wf(),
        state.phase == PresentPhase::Presenting,
        state.swap_invalid,
        later.wf(),
        later.phase == PresentPhase::Presenting,
        !later.swap_invalid,
    ensures
        state.advance(PresentEvent::Presented(RESULT_SUCCESS)).1 == PresentAction::Rebuild,
        ({
            let presented = state.advance(PresentEvent::Presented(RESULT_SUCCESS)).0;
            let rebuilt = presented.advance(PresentEvent::Rebuilt(true));
            &&& presented.phase == PresentPhase::Rebuilding
            &&& rebuilt.1 == PresentAction::Done
            &&& rebuilt.0.phase == PresentPhase::Idle
            &&& !rebuilt.0.swap_invalid
            &&& rebuilt.0.img_in_flight.len() == 0
            &&& forall|f: int|
                0 <= f < rebuilt.0.slots.len() ==> (#[trigger] rebuilt.0.slots[f]).outstanding == 0
            &&& rebuilt.0.wf()
        }),
        later.advance(PresentEvent::Presented(RESULT_SUCCESS)).1 == PresentAction::Done,
{
    let presented = state.advance(PresentEvent::Presented(RESULT_SUCCESS)).0;
    lemma_advance_keeps_wf(state, PresentEvent::Presented(RESULT_SUCCESS));
    lemma_advance_keeps_wf(presented, PresentEvent::Rebuilt(true));
}

/// Slots made of `sync`, none with a frame outstanding.
pub open spec fn fresh_slots(sync: Seq<FrameSlot>) -> Seq<SlotState> {
    Seq::new(sync.len(), |f: int| SlotState { sync: sync[f], outstanding: 0, image: 0 })
}

/// The semaphores that signal an acquired image, slot by slot.
pub open spec fn acquire_semaphores(slots: Seq<SlotState>) -> Seq<u64> {
    Seq::new(slots.len(), |f: int| slots[f].sync.img_aquired_gpu)
}

/// The semaphores that signal a rendered image, slot by slot.
pub open spec fn render_semaphores(slots: Seq<SlotState>) -> Seq<u64> {
    Seq::new(slots.len(), |f: int| slots[f].sync.img_rendered_gpu)
}

/// The fences that signal a rendered image, slot by slot.
pub open spec fn render_fences(slots: Seq<SlotState>) -> Seq<u64> {
    Seq::new(slots.len(), |f: int| slots[f].sync.img_rendered_cpu)
}

/// The steps that release the primitives of `slots`: the device is waited
/// for, then the acquire semaphores, the render semaphores and the fences
/// go, null handles left out.
pub open spec fn sync_teardown(slots: Seq<SlotState>) -> Seq<TeardownStep> {
    seq![TeardownStep::WaitDeviceIdle] + destroy_live(
        HandleKind::Semaphore,
        acquire_semaphores(slots),
    ) + destroy_live(HandleKind::Semaphore, render_semaphores(slots)) + destroy_live(
        HandleKind::Fence,
        render_fences(slots),
    )
}

/// What the synchronisation primitives are created with.
#[derive(Clone, Copy, Debug, PartialEq, Eq, Structural)]
pub struct SyncPlan {
    /// The number of frame slots to create primitives for.
    pub slots: u32,
    /// The raw creation flags of every fence.
    pub fence_flags: u32,
}

/// The frame synchroniser.
///
/// A frame goes through it in this order: `aquire_img`, then `advance` with
/// each answer of the driver until the action is `Render`; the caller
/// records and submits; then `present_frame`, and `advance` again until the
/// action is `Done`.
#[derive(Debug)]
pub struct VKPresent {
    frame: u32,
    max_frames: u32,
    slots: Vec<SlotState>,
    img_aquired_index: u32,
    img_in_flight: Vec<u64>,
    swap_invalid: bool,
    phase: PresentPhase,
}

impl View for VKPresent {
    type V = PresentState;

    closed spec fn view(&self) -> PresentState {
        PresentState {
            frame: self.frame,
            max_frames: self.max_frames,
            slots: self.slots@,
            img_aquired_index: self.img_aquired_index,
            img_in_flight: self.img_in_flight@,
            swap_invalid: self.swap_invalid,
            phase: self.phase,
        }
    }
}

impl Default for VKPresent {
    /// A synchroniser without frame slots, between frames.
    fn default() -> (present: Self)
        ensures
            present@ == (PresentState {
                frame: 0,
                max_frames: 0,
                slots: Seq::empty(),
                img_aquired_index: 0,
                img_in_flight: Seq::empty(),
                swap_invalid: false,
                phase: PresentPhase::Idle,
            }),
            present@.wf(),
    {
        VKPresent {
            frame: 0,
            max_frames: 0,
            slots: Vec::new(),
            img_aquired_index: 0,
            img_in_flight: Vec::new(),
            swap_invalid: false,
            phase: PresentPhase::Idle,
        }
    }
}

impl VKPresent {
    /// The number of frames that may be in flight.
    pub fn get_max_frames(self) -> (frames: u32)
        ensures
            frames == self@.max_frames,
    {
        self.max_frames
    }

    /// The slot the current or next frame runs on.
    pub fn current_frame(&self) -> (frame: u32)
        ensures
            frame == self@.frame,
    {
        self.frame
    }

    /// Where in the protocol the synchroniser stands.
    pub fn phase(&self) -> (phase: PresentPhase)
        ensures
            phase == self@.phase,
    {
        self.phase
    }

    /// Whether the swapchain is marked for rebuild.
    pub fn swap_invalid(&self) -> (invalid: bool)
        ensures
            invalid == self@.swap_invalid,
    {
        self.swap_invalid
    }

    /// The number of frames outstanding on `slot`, where there is such a
    /// slot.
    pub fn outstanding(&self, slot: u32) -> (count: Option<u32>)
        ensures
            count == if slot < self@.slots.len() {
                Some(self@.slots[slot as int].outstanding)
            } else {
                None
            },
    {
        if (slot as usize) < self.slots.len() {
            Some(self.slots[slot as usize].outstanding)
        } else {
            None
        }
    }

    /// The fence on record for `image`; null where there is none.
    pub fn image_in_flight(&self, image: u32) -> (fence: u64)
        ensures
            fence == if image < self@.img_in_flight.len() {
                self@.img_in_flight[image as int]
            } else {
                NULL_HANDLE
            },
    {
        if (image as usize) < self.img_in_flight.len() {
            self.img_in_flight[image as usize]
        } else {
            NULL_HANDLE
        }
    }

    /// What to create the primitives of `frames` frames in flight with: two
    /// semaphores and a fence per frame, every fence signalled from the
    /// start, so that the first wait for a slot that never ran a frame
    /// returns at once.
    pub fn sync_plan(frames: u32) -> (plan: SyncPlan)
        ensures
            plan == (SyncPlan { slots: frames, fence_flags: FENCE_CREATE_SIGNALED }),
    {
        SyncPlan { slots: frames, fence_flags: FENCE_CREATE_SIGNALED }
    }

    /// Sets the number of frames in flight, at least one, and installs
    /// their primitives, one entry of `sync` per slot, each fence created
    /// signalled. This needs a synchroniser between frames that holds no
    /// primitives: a new one, or one whose primitives `destroy` has
    /// released.
    pub fn max_frames(self, frames: u32, sync: Vec<FrameSlot>) -> (installed: Result<
        Self,
        PresentationFailure,
    >)
        requires
            self@.wf(),
            frames >= 1,
        ensures
            match installed {
                Ok(present) => {
                    &&& sync.len() == frames
                    &&& self@.phase == PresentPhase::Idle
                    &&& self@.slots.len() == 0
                    &&& present@ == (PresentState {
                        frame: self@.frame % frames,
                        max_frames: frames,
                        slots: fresh_slots(sync@),
                        img_in_flight: Seq::empty(),
                        ..self@
                    })
                    &&& present@.wf()
                },
                Err(failure) => if sync.len() != frames {
                    failure == PresentationFailure::SlotCount
                } else {
                    failure == PresentationFailure::OutOfTurn && (self@.phase
                        != PresentPhase::Idle || self@.slots.len() != 0)
                },
            },
    {
        if sync.len() != frames as usize {
            return Err(PresentationFailure::SlotCount);
        }
        if self.phase != PresentPhase::Idle || self.slots.len() != 0 {
            return Err(PresentationFailure::OutOfTurn);
        }
        let mut slots: Vec<SlotState> = Vec::new();
        let mut f: usize = 0;
        while f < sync.len()
            invariant
                f <= sync.len(),
                slots@ == fresh_slots(sync@.take(f as int)),
            decreases sync.len() - f,
        {
            slots.push(SlotState { sync: sync[f], outstanding: 0, image: 0 });
            proof {
                assert(slots@ =~= fresh_slots(sync@.take(f + 1)));
            }
            f += 1;
        }
        proof {
            assert(sync@.take(f as int) =~= sync@);
        }
        let present = VKPresent {
            frame: self.frame % frames,
            max_frames: frames,
            slots,
            img_aquired_index: self.img_aquired_index,
            img_in_flight: Vec::new(),
            swap_invalid: self.swap_invalid,
            phase: PresentPhase::Idle,
        };
        Ok(present)
    }

    /// Marks the swapchain as stale: it is rebuilt after the next present.
    pub fn invalidate_swap(&mut self)
        requires
            old(self)@.wf(),
        ensures
            final(self)@ == (PresentState { swap_invalid: true, ..old(self)@ }),
            final(self)@.wf(),
    {
        self.swap_invalid = true;
        proof {
            lemma_same_tables(old(self)@, self@);
        }
    }

    /// Fails for good.
    fn fail(&mut self, failure: PresentationFailure) -> (action: PresentAction)
        ensures
            final(self)@ == old(self)@.failed(),
            action == PresentAction::Fail(failure),
    {
        self.phase = PresentPhase::Failed;
        PresentAction::Fail(failure)
    }

    /// Takes note that `fence` was seen signalled.
    fn observe(&mut self, fence: u64)
        ensures
            final(self)@ == old(self)@.observed(fence),
    {
        let ghost before = self@;
        let mut f: usize = 0;
        while f < self.slots.len()
            invariant
                f <= self.slots.len(),
                self.slots.len() == before.slots.len(),
                self@ == (PresentState { slots: self.slots@, ..before }),
                forall|k: int| 0 <= k < f ==> self.slots[k] == before.observed(fence).slots[k],
                forall|k: int| f <= k < self.slots.len() ==> self.slots[k] == before.slots[k],
            decreases self.slots.len() - f,
        {
            let slot = self.slots[f];
            if slot.sync.img_rendered_cpu == fence {
                self.slots.set(f, SlotState { outstanding: 0, ..slot });
            }
            f += 1;
        }
        let ghost midway = self@;
        let mut i: usize = 0;
        while i < self.img_in_flight.len()
            invariant
                i <= self.img_in_flight.len(),
                self.img_in_flight.len() == before.img_in_flight.len(),
                self@ == (PresentState { img_in_flight: self.img_in_flight@, ..midway }),
                forall|k: int|
                    0 <= k < i ==> self.img_in_flight[k] == before.observed(
                        fence,
                    ).img_in_flight[k],
                forall|k: int|
                    i <= k < self.img_in_flight.len() ==> self.img_in_flight[k]
                        == before.img_in_flight[k],
            decreases self.img_in_flight.len() - i,
        {
            if self.img_in_flight[i] == fence {
                self.img_in_flight.set(i, NULL_HANDLE);
            }
            i += 1;
        }
        proof {
            assert(self@.slots =~= before.observed(fence).slots);
            assert(self@.img_in_flight =~= before.observed(fence).img_in_flight);
        }
    }

    /// Takes image `index` for the frame on the current slot.
    fn claim(&mut self, index: u32) -> (action: PresentAction)
        requires
            old(self)@.frame < old(self)@.slots.len(),
            old(self)@.slots[old(self)@.frame as int].outstanding == 0,
        ensures
            final(self)@ == old(self)@.claimed(index),
            action == PresentAction::ResetFence(
                old(self)@.slots[old(self)@.frame as int].sync.img_rendered_cpu,
            ),
    {
        let ghost before = self@;
        let slot = self.slots[self.frame as usize];
        while self.img_in_flight.len() <= index as usize
            invariant
                self@ == (PresentState { img_in_flight: self.img_in_flight@, ..before }),
                self.img_in_flight.len() >= before.img_in_flight.len(),
                self.img_in_flight.len() <= index + 1 || self.img_in_flight.len()
                    == before.img_in_flight.len(),
                self.img_in_flight@ == before.img_in_flight + Seq::new(
                    (self.img_in_flight.len() - before.img_in_flight.len()) as nat,
                    |i: int| NULL_HANDLE,
                ),
            decreases index + 1 - self.img_in_flight.len(),
        {
            self.img_in_flight.push(NULL_HANDLE);
            proof {
                assert(self.img_in_flight@ =~= before.img_in_flight + Seq::new(
                    (self.img_in_flight.len() - before.img_in_flight.len()) as nat,
                    |i: int| NULL_HANDLE,
                ));
            }
        }
        proof {
            assert(self.img_in_flight@ =~= grown(before.img_in_flight, index as int));
        }
        self.img_in_flight.set(index as usize, slot.sync.img_rendered_cpu);
        self.slots.set(
            self.frame as usize,
            SlotState { outstanding: slot.outstanding + 1, image: index, ..slot },
        );
        self.img_aquired_index = index;
        self.phase = PresentPhase::FenceReset;
        PresentAction::ResetFence(slot.sync.img_rendered_cpu)
    }

    /// Releases the primitives: returns the steps that destroy them, the
    /// wait for the device first, and forgets them together with every
    /// fence on record. The synchroniser is then between frames, without
    /// slots.
    pub fn destroy(&mut self) -> (steps: Vec<TeardownStep>)
        requires
            old(self)@.wf(),
        ensures
            steps@ == sync_teardown(old(self)@.slots),
            final(self)@ == (PresentState {
                slots: Seq::empty(),
                img_in_flight: Seq::empty(),
                phase: PresentPhase::Idle,
                ..old(self)@
            }),
            final(self)@.wf(),
    {
        let mut acquired: Vec<u64> = Vec::new();
        let mut rendered: Vec<u64> = Vec::new();
        let mut fences: Vec<u64> = Vec::new();
        let mut f: usize = 0;
        while f < self.slots.len()
            invariant
                f <= self.slots.len(),
                self@ == old(self)@,
                acquired@ == acquire_semaphores(self.slots@.take(f as int)),
                rendered@ == render_semaphores(self.slots@.take(f as int)),
                fences@ == render_fences(self.slots@.take(f as int)),
            decreases self.slots.len() - f,
        {
            let sync = self.slots[f].sync;
            acquired.push(sync.img_aquired_gpu);
            rendered.push(sync.img_rendered_gpu);
            fences.push(sync.img_rendered_cpu);
            proof {
                assert(acquired@ =~= acquire_semaphores(self.slots@.take(f + 1)));
                assert(rendered@ =~= render_semaphores(self.slots@.take(f + 1)));
                assert(fences@ =~= render_fences(self.slots@.take(f + 1)));
            }
            f += 1;
        }
        proof {
            assert(self.slots@.take(f as int) =~= self.slots@);
        }
        let mut steps: Vec<TeardownStep> = Vec::new();
        steps.push(TeardownStep::WaitDeviceIdle);
        proof {
            assert(steps@ =~= seq![TeardownStep::WaitDeviceIdle]);
        }
        append_live(&mut steps, HandleKind::Semaphore, &acquired);
        append_live(&mut steps, HandleKind::Semaphore, &rendered);
        append_live(&mut steps, HandleKind::Fence, &fences);
        self.slots.clear();
        self.img_in_flight.clear();
        self.phase = PresentPhase::Idle;
        steps
    }

    /// Starts a frame on the current slot and says what to do first.
    pub fn aquire_img(&mut self) -> (action: PresentAction)
        requires
            old(self)@.wf(),
        ensures
            final(self)@ == old(self)@.begin_acquire().0,
            action == old(self)@.begin_acquire().1,
            final(self)@.wf(),
    {
        proof {
            lemma_begin_acquire_keeps_wf(self@);
        }
        if self.phase != PresentPhase::Idle {
            self.fail(PresentationFailure::OutOfTurn)
        } else if self.frame as usize >= self.slots.len() {
            PresentAction::Fail(PresentationFailure::Incomplete)
        } else {
            self.phase = PresentPhase::SlotWait;
            PresentAction::WaitForFence(self.slots[self.frame as usize].sync.img_rendered_cpu)
        }
    }

    /// Hands the recorded and submitted frame over for presentation.
    pub fn present_frame(&mut self) -> (action: PresentAction)
        requires
            old(self)@.wf(),
        ensures
            final(self)@ == old(self)@.begin_present().0,
            action == old(self)@.begin_present().1,
            final(self)@.wf(),
    {
        proof {
            lemma_begin_present_keeps_wf(self@);
        }
        if self.frame as usize >= self.slots.len() {
            PresentAction::Fail(PresentationFailure::Incomplete)
        } else if self.phase == PresentPhase::Recording {
            self.phase = PresentPhase::Presenting;
            PresentAction::Present {
                image_index: self.img_aquired_index,
                wait: self.slots[self.frame as usize].sync.img_rendered_gpu,
            }
        } else {
            self.fail(PresentationFailure::OutOfTurn)
        }
    }

    /// Takes the driver's answer to the last action and says what to do
    /// next.
    pub fn advance(&mut self, event: PresentEvent) -> (action: PresentAction)
        requires
            old(self)@.wf(),
        ensures
            final(self)@ == old(self)@.advance(event).0,
            action == old(self)@.advance(event).1,
            final(self)@.wf(),
    {
        proof {
            lemma_advance_keeps_wf(self@, event);
        }
        match (self.phase, event) {
            (PresentPhase::SlotWait, PresentEvent::Waited(result)) => {
                if result == RESULT_SUCCESS {
                    let slot = self.slots[self.frame as usize];
                    self.observe(slot.sync.img_rendered_cpu);
                    self.phase = PresentPhase::ImageRequest;
                    PresentAction::AcquireImage { signal: slot.sync.img_aquired_gpu }
                } else {
                    self.fail(PresentationFailure::Driver(result))
                }
            },
            (PresentPhase::ImageRequest, PresentEvent::Acquired { result, index }) => {
                if result == RESULT_SUCCESS || result == RESULT_SUBOPTIMAL {
                    if result == RESULT_SUBOPTIMAL {
                        self.swap_invalid = true;
                    }
                    let on_record = self.image_in_flight(index);
                    if !fence_is_null(on_record) {
                        self.phase = PresentPhase::ImageWait;
                        self.img_aquired_index = index;
                        PresentAction::WaitForFence(on_record)
                    } else {
                        self.claim(index)
                    }
                } else if result == RESULT_ERROR_OUT_OF_DATE {
                    self.swap_invalid = true;
                    self.phase = PresentPhase::Rebuilding;
                    PresentAction::Rebuild
                } else {
                    self.fail(PresentationFailure::Driver(result))
                }
            },
            (PresentPhase::ImageWait, PresentEvent::Waited(result)) => {
                if result == RESULT_SUCCESS {
                    let index = self.img_aquired_index;
                    let on_record = self.img_in_flight[index as usize];
                    proof {
                        lemma_observed_keeps_wf(self@, on_record);
                    }
                    self.observe(on_record);
                    self.claim(index)
                } else {
                    self.fail(PresentationFailure::Driver(result))
                }
            },
            (PresentPhase::FenceReset, PresentEvent::Reset(result)) => {
                if result == RESULT_SUCCESS {
                    let slot = self.slots[self.frame as usize];
                    self.phase = PresentPhase::Recording;
                    PresentAction::Render(
                        ToRenderInfo {
                            img_aquired_gpu: slot.sync.img_aquired_gpu,
                            img_aquired_index: self.img_aquired_index,
                            done_rendering_cpu: slot.sync.img_rendered_cpu,
                            done_rendering_gpu: slot.sync.img_rendered_gpu,
                            frame_in_flight: self.frame,
                        },
                    )
                } else {
                    self.fail(PresentationFailure::Driver(result))
                }
            },
            (PresentPhase::Presenting, PresentEvent::Presented(result)) => {
                if result == RESULT_SUCCESS || result == RESULT_SUBOPTIMAL || result
                    == RESULT_ERROR_OUT_OF_DATE {
                    proof {
                        let frame = self.frame as int;
                        let frames = self.max_frames as int;
                        assert((frame + 1) % frames == if frame + 1 == frames {
                            0
                        } else {
                            frame + 1
                        }) by (nonlinear_arith)
                            requires
                                0 <= frame < frames,
                        ;
                    }
                    self.frame = if self.frame + 1 == self.max_frames {
                        0
                    } else {
                        self.frame + 1
                    };
                    if result != RESULT_SUCCESS {
                        self.swap_invalid = true;
                    }
                    if self.swap_invalid {
                        self.phase = PresentPhase::Rebuilding;
                        PresentAction::Rebuild
                    } else {
                        self.phase = PresentPhase::Idle;
                        PresentAction::Done
                    }
                } else {
                    self.fail(PresentationFailure::Driver(result))
                }
            },
            (PresentPhase::Rebuilding, PresentEvent::Rebuilt(success)) => {
                if success {
                    let ghost before = self@;
                    let mut f: usize = 0;
                    while f < self.slots.len()
                        invariant
                            f <= self.slots.len(),
                            self.slots.len() == before.slots.len(),
                            self@ == (PresentState { slots: self.slots@, ..before }),
                            forall|k: int|
                                0 <= k < f ==> self.slots[k] == before.rebuilt().slots[k],
                            forall|k: int|
                                f <= k < self.slots.len() ==> self.slots[k] == before.slots[k],
                        decreases self.slots.len() - f,
                    {
                        let slot = self.slots[f];
                        self.slots.set(f, SlotState { outstanding: 0, ..slot });
                        f += 1;
                    }
                    self.img_in_flight.clear();
                    self.swap_invalid = false;
                    self.phase = PresentPhase::Idle;
                    proof {
                        assert(self@.slots =~= before.rebuilt().slots);
                    }
                    PresentAction::Done
                } else {
                    self.phase = PresentPhase::Idle;
                    PresentAction::Done
                }
            },
            _ => self.fail(PresentationFailure::OutOfTurn),
        }
    }
}

} // verus!
