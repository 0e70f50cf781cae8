//! Raw values of the Vulkan API that the engine's rules speak of, and the
//! few helpers of the `ash` bindings that the rules are computed with.

use vstd::prelude::*;

verus! {

/// Queue family flag: graphics operations.
pub const QUEUE_GRAPHICS: u32 = 0x1;

/// Queue family flag: compute operations.
pub const QUEUE_COMPUTE: u32 = 0x2;

/// Memory heap flag: the heap is device memory.
pub const MEMORY_HEAP_DEVICE_LOCAL: u32 = 0x1;

/// Adapter type: a GPU embedded in or tightly coupled with the host.
pub const DEVICE_TYPE_INTEGRATED_GPU: i32 = 1;

/// Adapter type: a separate GPU connected over an interlink.
pub const DEVICE_TYPE_DISCRETE_GPU: i32 = 2;

/// Present mode: low latency, triple buffered.
pub const PRESENT_MODE_MAILBOX: i32 = 1;

/// Present mode: vsync, offered by every surface.
pub const PRESENT_MODE_FIFO: i32 = 2;

/// Format: 8 bit per channel BGRA with sRGB encoding.
pub const FORMAT_B8G8R8A8_SRGB: i32 = 50;

/// Image usage flag: colour attachment.
pub const IMAGE_USAGE_COLOR_ATTACHMENT: u32 = 0x10;

/// Sharing mode: one queue family at a time.
pub const SHARING_MODE_EXCLUSIVE: i32 = 0;

/// Composite alpha flag: ignore the alpha channel when compositing.
pub const COMPOSITE_ALPHA_OPAQUE: u32 = 0x1;

/// Image view type: a two dimensional image.
pub const IMAGE_VIEW_TYPE_2D: i32 = 1;

/// Component swizzle: the component keeps its own value.
pub const COMPONENT_SWIZZLE_IDENTITY: i32 = 0;

/// Image aspect flag: the colour aspect.
pub const IMAGE_ASPECT_COLOR: u32 = 0x1;

/// Image layout: contents undefined, any use.
pub const IMAGE_LAYOUT_UNDEFINED: i32 = 0;

/// Image layout: best for use as a colour attachment.
pub const IMAGE_LAYOUT_COLOR_ATTACHMENT_OPTIMAL: i32 = 2;

/// Image layout: ready to be presented.
pub const IMAGE_LAYOUT_PRESENT_SRC: i32 = 1000001002;

/// Pipeline stage flag: colour attachment output.
pub const PIPELINE_STAGE_COLOR_ATTACHMENT_OUTPUT: u64 = 0x400;

/// Pipeline stage flag: every command.
pub const PIPELINE_STAGE_ALL_COMMANDS: u64 = 0x1_0000;

/// Access flag: writes to a colour attachment.
pub const ACCESS_COLOR_ATTACHMENT_WRITE: u64 = 0x100;

/// Access flag: any read.
pub const ACCESS_MEMORY_READ: u64 = 0x8000;

/// Fence creation flag: the fence starts out signalled.
pub const FENCE_CREATE_SIGNALED: u32 = 0x1;

/// Command pool flag: command buffers can be reset one by one.
pub const COMMAND_POOL_RESET_COMMAND_BUFFER: u32 = 0x2;

/// Command buffer level: submitted to a queue directly.
pub const COMMAND_BUFFER_LEVEL_PRIMARY: i32 = 0;

/// Result code: the command succeeded.
pub const RESULT_SUCCESS: i32 = 0;

/// Result code: the swapchain still works but no longer matches the surface.
pub const RESULT_SUBOPTIMAL: i32 = 1000001003;

/// Result code: the swapchain no longer works with the surface.
pub const RESULT_ERROR_OUT_OF_DATE: i32 = -1000001004;

/// Result code: a surface is no longer available.
pub const RESULT_ERROR_SURFACE_LOST: i32 = -1000000000;

/// Result code: a host memory allocation failed.
pub const RESULT_ERROR_OUT_OF_HOST_MEMORY: i32 = -1;

/// Result code: a device memory allocation failed.
pub const RESULT_ERROR_OUT_OF_DEVICE_MEMORY: i32 = -2;

/// The raw value every null handle has.
pub const NULL_HANDLE: u64 = 0;

/// Whether the flag set `flags` holds every bit of `wanted`.
pub open spec fn flags_hold(flags: u32, wanted: u32) -> bool {
    flags & wanted == wanted
}

/// A Vulkan API version number packed from its four parts; bits that do not
/// fit their field are shifted out or overlap the next field, as in the C
/// macro.
pub open spec fn packed_version(variant: u32, major: u32, minor: u32, patch: u32) -> u32 {
    (variant << 29) | (major << 22) | (minor << 12) | patch
}

/// `ash::vk::QueueFlags::contains`: true exactly when every bit set in
/// `wanted` is also set in `flags`.
#[verifier::external_body]
pub(crate) fn queue_flags_contain(flags: u32, wanted: u32) -> (held: bool)
    ensures
        held == flags_hold(flags, wanted),
{
    ash::vk::QueueFlags::from_raw(flags).contains(ash::vk::QueueFlags::from_raw(wanted))
}

/// `ash::vk::MemoryHeapFlags::contains`: true exactly when every bit set in
/// `wanted` is also set in `flags`.
#[verifier::external_body]
pub(crate) fn heap_flags_contain(flags: u32, wanted: u32) -> (held: bool)
    ensures
        held == flags_hold(flags, wanted),
{
    ash::vk::MemoryHeapFlags::from_raw(flags).contains(ash::vk::MemoryHeapFlags::from_raw(wanted))
}

/// `ash::vk::Handle::is_null` on a fence: true exactly when the raw handle
/// is zero.
#[verifier::external_body]
pub(crate) fn fence_is_null(fence: u64) -> (null: bool)
    ensures
        null == (fence == NULL_HANDLE),
{
    ash::vk::Handle::is_null(<ash::vk::Fence as ash::vk::Handle>::from_raw(fence))
}

/// `ash::vk::Handle::is_null` on a semaphore: true exactly when the raw
/// handle is zero.
#[verifier::external_body]
pub(crate) fn semaphore_is_null(semaphore: u64) -> (null: bool)
    ensures
        null == (semaphore == NULL_HANDLE),
{
    ash::vk::Handle::is_null(<ash::vk::Semaphore as ash::vk::Handle>::from_raw(semaphore))
}

/// `ash::vk::make_api_version`: the four parts shifted to their fields and
/// or-ed together.
pub assume_specification[ ash::vk::make_api_version ](
    variant: u32,
    major: u32,
    minor: u32,
    patch: u32,
) -> (version: u32)
    ensures
        version == packed_version(variant, major, minor, patch),
;

/// A packed version gives back the four parts it was packed from, as long
/// as each part fits its field: three bits of variant, seven of major, ten
/// of minor and twelve of patch.
pub proof fn lemma_packed_version_fields(variant: u32, major: u32, minor: u32, patch: u32)
    requires
        variant < 8,
        major < 128,
        minor < 1024,
        patch < 4096,
    ensures
        packed_version(variant, major, minor, patch) >> 29 == variant,
        (packed_version(variant, major, minor, patch) >> 22) & 0x7f == major,
        (packed_version(variant, major, minor, patch) >> 12) & 0x3ff == minor,
        packed_version(variant, major, minor, patch) & 0xfff == patch,
{
    assert(((variant << 29) | (major << 22) | (minor << 12) | patch) >> 29 == variant
        && ((((variant << 29) | (major << 22) | (minor << 12) | patch) >> 22) & 0x7f) == major
        && ((((variant << 29) | (major << 22) | (minor << 12) | patch) >> 12) & 0x3ff) == minor
        && (((variant << 29) | (major << 22) | (minor << 12) | patch) & 0xfff) == patch)
        by (bit_vector)
        requires
            variant < 8,
            major < 128,
            minor < 1024,
            patch < 4096,
    ;
}

} // verus!
