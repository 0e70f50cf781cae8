//! The order in which driver objects are destroyed.

use vstd::prelude::*;
use crate::vulkan::{fence_is_null, semaphore_is_null, NULL_HANDLE};

verus! {

/// One step of tearing the engine down, for the caller to perform.
#[derive(Clone, Copy, Debug, PartialEq, Eq, Structural)]
pub enum TeardownStep {
    /// Block until the device has finished all submitted work.
    WaitDeviceIdle,
    DestroySemaphore(u64),
    DestroyFence(u64),
    DestroyImageView(u64),
    DestroySwapchain(u64),
    DestroySurface(u64),
    DestroyDevice(u64),
    DestroyInstance(u64),
    /// Release the device memory allocator.
    DropAllocator,
    DestroyPipeline(u64),
    DestroyPipelineLayout(u64),
    /// Return the allocation behind the vertex buffer to the allocator.
    FreeVertexAllocation,
    DestroyBuffer(u64),
    DestroyShaderModule(u64),
    DestroyCommandPool(u64),
}

/// The kind of object a list of handles holds.
#[derive(Clone, Copy, Debug, PartialEq, Eq, Structural)]
pub enum HandleKind {
    Semaphore,
    Fence,
    ImageView,
}

/// The step that destroys `handle`, an object of kind `kind`.
pub open spec fn destroy_step(kind: HandleKind, handle: u64) -> TeardownStep {
    match kind {
        HandleKind::Semaphore => TeardownStep::DestroySemaphore(handle),
        HandleKind::Fence => TeardownStep::DestroyFence(handle),
        HandleKind::ImageView => TeardownStep::DestroyImageView(handle),
    }
}

/// One destroy step per handle of `handles`, in order.
pub open spec fn destroy_all(kind: HandleKind, handles: Seq<u64>) -> Seq<TeardownStep> {
    Seq::new(handles.len(), |i: int| destroy_step(kind, handles[i]))
}

/// One destroy step per handle of `handles` that is not null, in order.
pub open spec fn destroy_live(kind: HandleKind, handles: Seq<u64>) -> Seq<TeardownStep>
    decreases handles.len(),
{
    if handles.len() == 0 {
        Seq::empty()
    } else if handles.last() != NULL_HANDLE {
        destroy_live(kind, handles.drop_last()).push(destroy_step(kind, handles.last()))
    } else {
        destroy_live(kind, handles.drop_last())
    }
}

/// The step that destroys `handle`, an object of kind `kind`.
pub fn step_for(kind: HandleKind, handle: u64) -> (step: TeardownStep)
    ensures
        step == destroy_step(kind, handle),
{
    match kind {
        HandleKind::Semaphore => TeardownStep::DestroySemaphore(handle),
        HandleKind::Fence => TeardownStep::DestroyFence(handle),
        HandleKind::ImageView => TeardownStep::DestroyImageView(handle),
    }
}

/// Whether `handle`, an object of kind `kind`, is null.
fn is_null(kind: HandleKind, handle: u64) -> (null: bool)
    ensures
        null == (handle == NULL_HANDLE),
{
    match kind {
        HandleKind::Semaphore => semaphore_is_null(handle),
        HandleKind::Fence => fence_is_null(handle),
        HandleKind::ImageView => handle == NULL_HANDLE,
    }
}

/// Appends to `steps` one destroy step per handle of `handles` that is not
/// null, in order.
pub fn append_live(steps: &mut Vec<TeardownStep>, kind: HandleKind, handles: &Vec<u64>)
    ensures
        final(steps)@ == old(steps)@ + destroy_live(kind, handles@),
{
    let ghost before = steps@;
    let mut i: usize = 0;
    proof {
        assert(handles@.take(0) =~= Seq::<u64>::empty());
        assert(steps@ =~= before + destroy_live(kind, handles@.take(0)));
    }
    while i < handles.len()
        invariant
            i <= handles.len(),
            steps@ == before + destroy_live(kind, handles@.take(i as int)),
        decreases handles.len() - i,
    {
        let handle = handles[i];
        proof {
            let next = handles@.take(i + 1);
            assert(next.drop_last() =~= handles@.take(i as int));
            assert(next.last() == handle);
        }
        if !is_null(kind, handle) {
            steps.push(step_for(kind, handle));
            proof {
                assert(steps@ =~= before + destroy_live(kind, handles@.take(i + 1)));
            }
        }
        i += 1;
    }
    proof {
        assert(handles@.take(i as int) =~= handles@);
    }
}

/// Appends to `steps` one destroy step per handle of `handles`, in order.
pub fn append_all(steps: &mut Vec<TeardownStep>, kind: HandleKind, handles: &Vec<u64>)
    ensures
        final(steps)@ == old(steps)@ + destroy_all(kind, handles@),
{
    let ghost before = steps@;
    let mut i: usize = 0;
    proof {
        assert(steps@ =~= before + destroy_all(kind, handles@.take(0)));
    }
    while i < handles.len()
        invariant
            i <= handles.len(),
            steps@ == before + destroy_all(kind, handles@.take(i as int)),
        decreases handles.len() - i,
    {
        steps.push(step_for(kind, handles[i]));
        proof {
            assert(steps@ =~= before + destroy_all(kind, handles@.take(i + 1)));
        }
        i += 1;
    }
    proof {
        assert(handles@.take(i as int) =~= handles@);
    }
}

} // verus!
