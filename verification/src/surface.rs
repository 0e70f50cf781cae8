//! Surface capabilities and the choices a swapchain is built from.

use vstd::prelude::*;
use crate::teardown::{append_all, destroy_all, HandleKind, TeardownStep};
use crate::vulkan::{
    COMPONENT_SWIZZLE_IDENTITY, COMPOSITE_ALPHA_OPAQUE, FORMAT_B8G8R8A8_SRGB, IMAGE_ASPECT_COLOR,
    IMAGE_USAGE_COLOR_ATTACHMENT, IMAGE_VIEW_TYPE_2D, PRESENT_MODE_FIFO, PRESENT_MODE_MAILBOX,
    RESULT_ERROR_OUT_OF_DEVICE_MEMORY, RESULT_ERROR_OUT_OF_HOST_MEMORY, RESULT_ERROR_SURFACE_LOST,
    SHARING_MODE_EXCLUSIVE,
};

verus! {

/// Width a surface reports when it leaves the extent to the swapchain.
pub const EXTENT_SENTINEL: u32 = 0xFFFF_FFFF;

/// Image count aimed at for triple buffering.
pub const TRIPLE_BUFFERED: u32 = 3;

/// Image count aimed at for double buffering.
pub const DOUBLE_BUFFERED: u32 = 2;

/// A width and height in pixels.
#[derive(Clone, Copy, Debug, PartialEq, Eq, Structural)]
pub struct Extent2D {
    pub width: u32,
    pub height: u32,
}

/// A pixel format paired with the colour space it is presented in.
#[derive(Clone, Copy, Debug, PartialEq, Eq, Structural)]
pub struct SurfaceFormat {
    pub format: i32,
    pub color_space: i32,
}

/// What a surface reports about image counts, extents and transform.
#[derive(Clone, Copy, Debug, PartialEq, Eq, Structural)]
pub struct SurfaceCapabilities {
    pub min_image_count: u32,
    /// Zero means that there is no upper bound.
    pub max_image_count: u32,
    pub current_extent: Extent2D,
    pub min_image_extent: Extent2D,
    pub max_image_extent: Extent2D,
    pub current_transform: u32,
}

/// `value` moved into `[low, high]`; `low` wins where the bounds cross.
pub open spec fn clamped(value: u32, low: u32, high: u32) -> u32 {
    if value < low {
        low
    } else if value > high {
        high
    } else {
        value
    }
}

/// Whether a surface bounded by `min` and `max` can hold `count` images.
pub open spec fn count_in_bounds(count: u32, min: u32, max: u32) -> bool {
    min <= count && (max == 0 || count <= max)
}

/// The image count to ask for: three if the bounds allow, else two, else
/// the surface minimum.
pub open spec fn ideal_count(min: u32, max: u32) -> u32 {
    if count_in_bounds(TRIPLE_BUFFERED, min, max) {
        TRIPLE_BUFFERED
    } else if count_in_bounds(DOUBLE_BUFFERED, min, max) {
        DOUBLE_BUFFERED
    } else {
        min
    }
}

/// The extent to build with: the reported one when the sentinel is set,
/// else the window size clamped per axis.
pub open spec fn resolved_extent(caps: SurfaceCapabilities, width: u32, height: u32) -> Extent2D {
    if caps.current_extent.width == EXTENT_SENTINEL {
        caps.current_extent
    } else {
        Extent2D {
            width: clamped(width, caps.min_image_extent.width, caps.max_image_extent.width),
            height: clamped(height, caps.min_image_extent.height, caps.max_image_extent.height),
        }
    }
}

/// Whether `index` is the first place in `formats` that holds the preferred
/// format.
pub open spec fn first_preferred(formats: Seq<SurfaceFormat>, index: int) -> bool {
    &&& 0 <= index < formats.len()
    &&& formats[index].format == FORMAT_B8G8R8A8_SRGB
    &&& forall|j: int| 0 <= j < index ==> formats[j].format != FORMAT_B8G8R8A8_SRGB
}

/// Whether `formats` holds the preferred format anywhere.
pub open spec fn has_preferred(formats: Seq<SurfaceFormat>) -> bool {
    exists|i: int| 0 <= i < formats.len() && formats[i].format == FORMAT_B8G8R8A8_SRGB
}

/// The format to build with: the first preferred one, or the first at all
/// where none is preferred.
pub open spec fn ideal_format(formats: Seq<SurfaceFormat>) -> SurfaceFormat {
    if has_preferred(formats) {
        formats[choose|i: int| first_preferred(formats, i)]
    } else {
        formats[0]
    }
}

/// Where the bounds leave room for fewer than two images, the image count
/// to ask for is the surface minimum.
pub proof fn lemma_ideal_count_is_minimum_below_two(min: u32, max: u32)
    requires
        max != 0,
        max < DOUBLE_BUFFERED,
    ensures
        ideal_count(min, max) == min,
{
}

/// Where the sentinel is set, the extent to build with is the reported one,
/// whatever the size of the window.
pub proof fn lemma_sentinel_keeps_current_extent(caps: SurfaceCapabilities, width: u32, height: u32)
    requires
        caps.current_extent.width == EXTENT_SENTINEL,
    ensures
        resolved_extent(caps, width, height) == caps.current_extent,
{
}

/// The preferred format has one first place.
pub proof fn lemma_first_preferred_is_unique(formats: Seq<SurfaceFormat>, first: int, second: int)
    requires
        first_preferred(formats, first),
        first_preferred(formats, second),
    ensures
        first == second,
{
}

/// The format to build with is the entry at the first place of the
/// preferred format, and the first entry where there is no such place.
pub proof fn lemma_ideal_format_is_first_preferred(formats: Seq<SurfaceFormat>)
    ensures
        has_preferred(formats) ==> exists|i: int|
            first_preferred(formats, i) && ideal_format(formats) == formats[i],
        !has_preferred(formats) ==> ideal_format(formats) == formats[0],
        forall|i: int| first_preferred(formats, i) ==> ideal_format(formats) == formats[i],
{
    if has_preferred(formats) {
        let some = choose|i: int| 0 <= i < formats.len() && formats[i].format == FORMAT_B8G8R8A8_SRGB;
        lemma_has_first_preferred(formats, some);
    }
    assert forall|i: int| first_preferred(formats, i) implies ideal_format(formats)
        == formats[i] by {
        assert(has_preferred(formats));
        lemma_first_preferred_is_unique(
            formats,
            i,
            choose|k: int| first_preferred(formats, k),
        );
    }
}

/// Where the preferred format stands at `place`, it has a first place.
proof fn lemma_has_first_preferred(formats: Seq<SurfaceFormat>, place: int)
    requires
        0 <= place < formats.len(),
        formats[place].format == FORMAT_B8G8R8A8_SRGB,
    ensures
        exists|i: int| first_preferred(formats, i),
    decreases place,
{
    if exists|j: int| 0 <= j < place && formats[j].format == FORMAT_B8G8R8A8_SRGB {
        let j = choose|j: int| 0 <= j < place && formats[j].format == FORMAT_B8G8R8A8_SRGB;
        lemma_has_first_preferred(formats, j);
    } else {
        assert(first_preferred(formats, place));
    }
}

/// A snapshot of what a surface supports on one adapter.
#[derive(Debug)]
pub struct VKSwapchainCapabilities {
    pub surface_capibilities: SurfaceCapabilities,
    pub surface_formats: Vec<SurfaceFormat>,
    pub present_modes: Vec<i32>,
}

fn clamp_axis(value: u32, low: u32, high: u32) -> (r: u32)
    ensures
        r == clamped(value, low, high),
{
    if value < low {
        low
    } else if value > high {
        high
    } else {
        value
    }
}

impl VKSwapchainCapabilities {
    /// Mailbox where the surface offers it, FIFO otherwise.
    pub fn ideal_present_mode(&self) -> (mode: i32)
        ensures
            mode == if self.present_modes@.contains(PRESENT_MODE_MAILBOX) {
                PRESENT_MODE_MAILBOX
            } else {
                PRESENT_MODE_FIFO
            },
    {
        let mut i: usize = 0;
        while i < self.present_modes.len()
            invariant
                i <= self.present_modes.len(),
                forall|j: int| 0 <= j < i ==> self.present_modes[j] != PRESENT_MODE_MAILBOX,
            decreases self.present_modes.len() - i,
        {
            if self.present_modes[i] == PRESENT_MODE_MAILBOX {
                return PRESENT_MODE_MAILBOX;
            }
            i += 1;
        }
        PRESENT_MODE_FIFO
    }

    /// The first entry with the preferred format, or the first entry at all
    /// where none has it.
    pub fn ideal_surface_format(&self) -> (format: SurfaceFormat)
        requires
            self.surface_formats.len() > 0,
        ensures
            format == ideal_format(self.surface_formats@),
    {
        let mut i: usize = 0;
        while i < self.surface_formats.len()
            invariant
                i <= self.surface_formats.len(),
                forall|j: int| 0 <= j < i ==> self.surface_formats[j].format != FORMAT_B8G8R8A8_SRGB,
            decreases self.surface_formats.len() - i,
        {
            if self.surface_formats[i].format == FORMAT_B8G8R8A8_SRGB {
                proof {
                    assert(first_preferred(self.surface_formats@, i as int));
                    let chosen = choose|k: int| first_preferred(self.surface_formats@, k);
                    lemma_first_preferred_is_unique(self.surface_formats@, i as int, chosen);
                }
                return self.surface_formats[i];
            }
            i += 1;
        }
        self.surface_formats[0]
    }

    /// Three images where the bounds allow, else two, else the minimum.
    pub fn ideal_n_images(&self) -> (count: u32)
        ensures
            count == ideal_count(
                self.surface_capibilities.min_image_count,
                self.surface_capibilities.max_image_count,
            ),
    {
        let min: u32 = self.surface_capibilities.min_image_count;
        let max: u32 = self.surface_capibilities.max_image_count;
        if min <= TRIPLE_BUFFERED && (max == 0 || TRIPLE_BUFFERED <= max) {
            TRIPLE_BUFFERED
        } else if min <= DOUBLE_BUFFERED && (max == 0 || DOUBLE_BUFFERED <= max) {
            DOUBLE_BUFFERED
        } else {
            min
        }
    }

    /// The extent a swapchain for a window of the given size is built with.
    pub fn get_extent(&self, init_width: u32, init_height: u32) -> (extent: Extent2D)
        ensures
            extent == resolved_extent(self.surface_capibilities, init_width, init_height),
    {
        let caps = &self.surface_capibilities;
        if caps.current_extent.width == EXTENT_SENTINEL {
            caps.current_extent
        } else {
            Extent2D {
                width: clamp_axis(init_width, caps.min_image_extent.width, caps.max_image_extent.width),
                height: clamp_axis(
                    init_height,
                    caps.min_image_extent.height,
                    caps.max_image_extent.height,
                ),
            }
        }
    }
}

/// A clamped value lies within bounds that do not cross, and a value
/// already within them is left alone.
pub proof fn lemma_clamped_in_bounds(value: u32, low: u32, high: u32)
    requires
        low <= high,
    ensures
        low <= clamped(value, low, high) <= high,
        low <= value <= high ==> clamped(value, low, high) == value,
{
}

/// The ideal image count lies within the bounds of the surface, where the
/// bounds do not cross.
pub proof fn lemma_ideal_count_in_bounds(min: u32, max: u32)
    requires
        max == 0 || min <= max,
    ensures
        count_in_bounds(ideal_count(min, max), min, max),
{
}

/// Why a swapchain could not be built.
#[derive(Clone, Copy, Debug, PartialEq, Eq, Structural)]
pub enum SwapchainError {
    /// The surface is gone.
    SurfaceLost,
    /// Host or device memory ran out.
    OutOfMemory,
    /// The driver reported this other raw error.
    Driver(i32),
    /// The surface offers no format.
    NoFormat,
    /// An answer came that the build was not waiting for, or the build was
    /// ended before it was done.
    OutOfTurn,
}

/// The error a raw driver result stands for when a swapchain is built.
pub open spec fn build_error(result: i32) -> SwapchainError {
    if result == RESULT_ERROR_SURFACE_LOST {
        SwapchainError::SurfaceLost
    } else if result == RESULT_ERROR_OUT_OF_HOST_MEMORY || result
        == RESULT_ERROR_OUT_OF_DEVICE_MEMORY {
        SwapchainError::OutOfMemory
    } else {
        SwapchainError::Driver(result)
    }
}

impl SwapchainError {
    /// The error a raw driver result stands for when a swapchain is built.
    pub fn from_result(result: i32) -> (error: SwapchainError)
        ensures
            error == build_error(result),
    {
        if result == RESULT_ERROR_SURFACE_LOST {
            SwapchainError::SurfaceLost
        } else if result == RESULT_ERROR_OUT_OF_HOST_MEMORY || result
            == RESULT_ERROR_OUT_OF_DEVICE_MEMORY {
            SwapchainError::OutOfMemory
        } else {
            SwapchainError::Driver(result)
        }
    }
}

/// What a swapchain is created with.
#[derive(Clone, Copy, Debug, PartialEq, Eq, Structural)]
pub struct SwapchainPlan {
    /// Raw handle of the surface to present to.
    pub surface: u64,
    pub min_image_count: u32,
    pub image_format: i32,
    pub image_color_space: i32,
    pub image_extent: Extent2D,
    pub image_array_layers: u32,
    pub image_usage: u32,
    pub image_sharing_mode: i32,
    pub pre_transform: u32,
    pub composite_alpha: u32,
    pub present_mode: i32,
    pub clipped: bool,
    /// Raw handle of the swapchain that this one replaces, or null.
    pub old_swapchain: u64,
}

/// What the view onto one swapchain image is created with.
#[derive(Clone, Copy, Debug, PartialEq, Eq, Structural)]
pub struct ImageViewPlan {
    /// Raw handle of the image.
    pub image: u64,
    pub view_type: i32,
    pub format: i32,
    /// The swizzle of each of the four components.
    pub swizzle: i32,
    pub aspect_mask: u32,
    pub base_mip_level: u32,
    pub level_count: u32,
    pub base_array_layer: u32,
    pub layer_count: u32,
}

/// The plan of a view onto `image`: the whole image, two dimensional, in
/// the swapchain's format, colour only, no component swapped.
pub open spec fn view_plan(image: u64, format: i32) -> ImageViewPlan {
    ImageViewPlan {
        image,
        view_type: IMAGE_VIEW_TYPE_2D,
        format,
        swizzle: COMPONENT_SWIZZLE_IDENTITY,
        aspect_mask: IMAGE_ASPECT_COLOR,
        base_mip_level: 0,
        level_count: 1,
        base_array_layer: 0,
        layer_count: 1,
    }
}

/// The presentable target bound to the window.
#[derive(Clone, Copy, Debug, PartialEq, Eq, Structural)]
pub struct VKSurface {
    /// Raw handle of the surface.
    pub surface: u64,
}

impl VKSurface {
    /// The step that releases the surface; it comes before the instance
    /// goes.
    pub fn destroy(&self) -> (step: TeardownStep)
        ensures
            step == TeardownStep::DestroySurface(self.surface),
    {
        TeardownStep::DestroySurface(self.surface)
    }
}

/// The ring of presentable images with a view onto each.
#[derive(Debug)]
pub struct VKSwapchain {
    /// Raw handle of the swapchain.
    pub swapchain: u64,
    /// Raw handles of the views, one per image, owned by the swapchain.
    pub image_views: Vec<u64>,
    /// Raw handles of the images, owned by the driver.
    pub images: Vec<u64>,
    /// What the surface reported when the swapchain was built.
    pub capibilities: VKSwapchainCapabilities,
    pub image_extent: Extent2D,
}

/// What a rebuild leaves behind.
#[derive(Debug)]
pub struct Rebuild {
    /// The swapchain to go on with: the new one, or the old one where the
    /// build failed.
    pub current: VKSwapchain,
    /// The steps that release what was replaced.
    pub teardown: Vec<TeardownStep>,
    /// Whether the swapchain was replaced.
    pub rebuilt: bool,
}

impl VKSwapchainCapabilities {
    /// The plan this snapshot asks for: see `VKSwapchain::plan`.
    pub open spec fn planned(
        &self,
        surface: u64,
        width: u32,
        height: u32,
        old_swapchain: u64,
    ) -> SwapchainPlan {
        let format = ideal_format(self.surface_formats@);
        SwapchainPlan {
            surface,
            min_image_count: ideal_count(
                self.surface_capibilities.min_image_count,
                self.surface_capibilities.max_image_count,
            ),
            image_format: format.format,
            image_color_space: format.color_space,
            image_extent: resolved_extent(self.surface_capibilities, width, height),
            image_array_layers: 1,
            image_usage: IMAGE_USAGE_COLOR_ATTACHMENT,
            image_sharing_mode: SHARING_MODE_EXCLUSIVE,
            pre_transform: self.surface_capibilities.current_transform,
            composite_alpha: COMPOSITE_ALPHA_OPAQUE,
            present_mode: if self.present_modes@.contains(PRESENT_MODE_MAILBOX) {
                PRESENT_MODE_MAILBOX
            } else {
                PRESENT_MODE_FIFO
            },
            clipped: true,
            old_swapchain,
        }
    }
}

impl VKSwapchain {
    /// Whether there is one view per image.
    pub open spec fn wf(&self) -> bool {
        self.image_views.len() == self.images.len()
    }

    /// Whether the swapchain has the ideal image count of the capabilities
    /// it was built with.
    pub open spec fn has_ideal_count(&self) -> bool {
        self.images.len() == ideal_count(
            self.capibilities.surface_capibilities.min_image_count,
            self.capibilities.surface_capibilities.max_image_count,
        )
    }

    /// The steps that release the swapchain: every view in order, then the
    /// swapchain itself.
    pub open spec fn teardown(&self) -> Seq<TeardownStep> {
        destroy_all(HandleKind::ImageView, self.image_views@).push(
            TeardownStep::DestroySwapchain(self.swapchain),
        )
    }

    /// What to create a swapchain with, for a window of the given size on a
    /// surface that reports `capibilities`: the ideal image count, format
    /// and present mode, the resolved extent, one layer of colour
    /// attachment images used by one queue, untransformed beyond what the
    /// surface does, opaque, clipped, replacing `old_swapchain`.
    pub fn plan(
        surface: u64,
        capibilities: &VKSwapchainCapabilities,
        width: u32,
        height: u32,
        old_swapchain: u64,
    ) -> (plan: SwapchainPlan)
        requires
            capibilities.surface_formats.len() > 0,
        ensures
            plan == capibilities.planned(surface, width, height, old_swapchain),
    {
        let format = capibilities.ideal_surface_format();
        SwapchainPlan {
            surface,
            min_image_count: capibilities.ideal_n_images(),
            image_format: format.format,
            image_color_space: format.color_space,
            image_extent: capibilities.get_extent(width, height),
            image_array_layers: 1,
            image_usage: IMAGE_USAGE_COLOR_ATTACHMENT,
            image_sharing_mode: SHARING_MODE_EXCLUSIVE,
            pre_transform: capibilities.surface_capibilities.current_transform,
            composite_alpha: COMPOSITE_ALPHA_OPAQUE,
            present_mode: capibilities.ideal_present_mode(),
            clipped: true,
            old_swapchain,
        }
    }

    /// What to create the view onto `image` with: the whole image, two
    /// dimensional, in the swapchain's format, colour only, no component
    /// swapped.
    pub fn image_view(image: u64, image_format: i32) -> (plan: ImageViewPlan)
        ensures
            plan == view_plan(image, image_format),
    {
        ImageViewPlan {
            image,
            view_type: IMAGE_VIEW_TYPE_2D,
            format: image_format,
            swizzle: COMPONENT_SWIZZLE_IDENTITY,
            aspect_mask: IMAGE_ASPECT_COLOR,
            base_mip_level: 0,
            level_count: 1,
            base_array_layer: 0,
            layer_count: 1,
        }
    }

    /// What to create the views with: one plan per image, in the order of
    /// the images.
    pub fn create_image_views(swapchain_images: &Vec<u64>, image_format: i32) -> (plans: Vec<
        ImageViewPlan,
    >)
        ensures
            plans@ == Seq::new(
                swapchain_images.len() as nat,
                |i: int| view_plan(swapchain_images[i], image_format),
            ),
    {
        let mut plans: Vec<ImageViewPlan> = Vec::new();
        let mut i: usize = 0;
        while i < swapchain_images.len()
            invariant
                i <= swapchain_images.len(),
                plans@ == Seq::new(
                    i as nat,
                    |k: int| view_plan(swapchain_images[k], image_format),
                ),
            decreases swapchain_images.len() - i,
        {
            plans.push(VKSwapchain::image_view(swapchain_images[i], image_format));
            proof {
                assert(plans@ =~= Seq::new(
                    (i + 1) as nat,
                    |k: int| view_plan(swapchain_images[k], image_format),
                ));
            }
            i += 1;
        }
        plans
    }

    /// Starts the build of a swapchain on `surface` for a window of the
    /// given size, replacing `old_swapchain` where that is not null, and
    /// says what to do first. The swapchain comes out of the build's
    /// `finish`.
    pub fn new(surface: u64, width: u32, height: u32, old_swapchain: u64) -> (started: (
        SwapchainBuilder,
        BuildAction,
    ))
        ensures
            started.0@ == BuildState::started(surface, width, height, old_swapchain),
            started.0@.wf(),
            started.1 == (BuildAction::QueryCapabilities { surface }),
    {
        SwapchainBuilder::start(surface, width, height, old_swapchain)
    }

    /// The steps that release the swapchain: every view first, in order,
    /// then the swapchain itself.
    pub fn destroy(&self) -> (steps: Vec<TeardownStep>)
        ensures
            steps@ == self.teardown(),
    {
        let mut steps: Vec<TeardownStep> = Vec::new();
        append_all(&mut steps, HandleKind::ImageView, &self.image_views);
        steps.push(TeardownStep::DestroySwapchain(self.swapchain));
        proof {
            assert(steps@ =~= self.teardown());
        }
        steps
    }

    /// Ends a rebuild. `built` is what building the replacement gave, with
    /// this swapchain's handle as the one to replace. A replacement takes
    /// over and this swapchain is released, views first; a failed build
    /// changes nothing and releases nothing, so that this swapchain stays
    /// in use and the rebuild can be tried again.
    pub fn rebuild_swapchain(self, built: Result<VKSwapchain, SwapchainError>) -> (outcome: Rebuild)
        ensures
            outcome.rebuilt == built is Ok,
            match built {
                Ok(replacement) => outcome.current == replacement && outcome.teardown@
                    == self.teardown(),
                Err(_) => outcome.current == self && outcome.teardown@.len() == 0,
            },
            built matches Ok(replacement) && replacement.wf() ==> outcome.current.wf(),
            built matches Ok(replacement) && replacement.has_ideal_count()
                ==> outcome.current.has_ideal_count(),
    {
        match built {
            Ok(replacement) => {
                let teardown = self.destroy();
                Rebuild { current: replacement, teardown, rebuilt: true }
            },
            Err(_) => Rebuild { current: self, teardown: Vec::new(), rebuilt: false },
        }
    }
}

/// Where a swapchain build stands.
#[derive(Clone, Copy, Debug, PartialEq, Eq, Structural)]
pub enum BuildPhase {
    /// Waiting for what the surface supports.
    Capabilities,
    /// Waiting for the swapchain to be created.
    Swapchain,
    /// Waiting for the images of the swapchain.
    Images,
    /// Waiting for the view onto the next image.
    Views,
    /// Everything is created.
    Done,
    /// The build failed.
    Failed,
}

/// What the driver answered to the last action of a build.
#[derive(Debug)]
pub enum BuildEvent {
    /// What the surface supports, or the raw error of asking.
    Capabilities(Result<VKSwapchainCapabilities, i32>),
    /// The raw handle of the new swapchain, or the raw error.
    Created(Result<u64, i32>),
    /// The raw handles of the swapchain's images, or the raw error.
    Images(Result<Vec<u64>, i32>),
    /// The raw handle of the new image view, or the raw error.
    View(Result<u64, i32>),
}

/// What whoever drives a build is to do next.
#[derive(Clone, Copy, Debug, PartialEq, Eq, Structural)]
pub enum BuildAction {
    /// Ask what the surface supports and report `Capabilities`.
    QueryCapabilities { surface: u64 },
    /// Create the swapchain and report `Created`.
    CreateSwapchain(SwapchainPlan),
    /// Ask for the images of the swapchain and report `Images`.
    GetImages { swapchain: u64 },
    /// Create the image view and report `View`.
    CreateImageView(ImageViewPlan),
    /// Nothing: call `finish` for the swapchain.
    Done,
    /// Give up; `leftovers` says what to release.
    Fail(SwapchainError),
}

/// A swapchain build as a mathematical value.
pub struct BuildState {
    pub surface: u64,
    pub width: u32,
    pub height: u32,
    pub old_swapchain: u64,
    pub phase: BuildPhase,
    pub capibilities: Option<VKSwapchainCapabilities>,
    pub plan: Option<SwapchainPlan>,
    pub swapchain: u64,
    pub images: Seq<u64>,
    pub image_views: Seq<u64>,
    pub failure: Option<SwapchainError>,
}

impl BuildState {
    /// A build that has just asked what the surface supports.
    pub open spec fn started(surface: u64, width: u32, height: u32, old_swapchain: u64) -> BuildState {
        BuildState {
            surface,
            width,
            height,
            old_swapchain,
            phase: BuildPhase::Capabilities,
            capibilities: None,
            plan: None,
            swapchain: 0,
            images: Seq::empty(),
            image_views: Seq::empty(),
            failure: None,
        }
    }

    /// What holds of a build at every point.
    pub open spec fn wf(self) -> bool {
        &&& self.phase != BuildPhase::Capabilities && self.phase != BuildPhase::Failed ==> {
            &&& self.capibilities is Some
            &&& self.capibilities->0.surface_formats.len() > 0
            &&& self.plan == Some(
                self.capibilities->0.planned(
                    self.surface,
                    self.width,
                    self.height,
                    self.old_swapchain,
                ),
            )
        }
        &&& self.phase == BuildPhase::Capabilities || self.phase == BuildPhase::Swapchain
            || self.phase == BuildPhase::Images ==> self.image_views.len() == 0
        &&& self.phase == BuildPhase::Views ==> self.image_views.len() < self.images.len()
        &&& self.phase == BuildPhase::Done ==> self.image_views.len() == self.images.len()
        &&& self.phase == BuildPhase::Failed <==> self.failure is Some
    }

    /// The state and the action after a failure.
    pub open spec fn failed(self, error: SwapchainError) -> (BuildState, BuildAction) {
        (
            BuildState { phase: BuildPhase::Failed, failure: Some(error), ..self },
            BuildAction::Fail(error),
        )
    }

    /// The state and the action once the images are known or a view was
    /// added: the view onto the next image is created, or the build is done
    /// where every image has its view.
    pub open spec fn next_view(self) -> (BuildState, BuildAction) {
        if self.image_views.len() < self.images.len() {
            (
                BuildState { phase: BuildPhase::Views, ..self },
                BuildAction::CreateImageView(
                    view_plan(self.images[self.image_views.len() as int], self.plan->0.image_format),
                ),
            )
        } else {
            (BuildState { phase: BuildPhase::Done, ..self }, BuildAction::Done)
        }
    }

    /// The state and the next action after the driver's answer `event`. The
    /// capabilities are asked for anew by every build; the swapchain is
    /// created as they plan it, its images are fetched, and the views are
    /// created one by one in the order of the images. The first error ends
    /// the build, and so does an answer that the build is not waiting for.
    pub open spec fn advance(self, event: BuildEvent) -> (BuildState, BuildAction) {
        match (self.phase, event) {
            (BuildPhase::Capabilities, BuildEvent::Capabilities(Ok(capibilities))) => {
                if capibilities.surface_formats.len() == 0 {
                    self.failed(SwapchainError::NoFormat)
                } else {
                    let plan = capibilities.planned(
                        self.surface,
                        self.width,
                        self.height,
                        self.old_swapchain,
                    );
                    (
                        BuildState {
                            phase: BuildPhase::Swapchain,
                            capibilities: Some(capibilities),
                            plan: Some(plan),
                            ..self
                        },
                        BuildAction::CreateSwapchain(plan),
                    )
                }
            },
            (BuildPhase::Capabilities, BuildEvent::Capabilities(Err(result))) => self.failed(
                build_error(result),
            ),
            (BuildPhase::Swapchain, BuildEvent::Created(Ok(swapchain))) => (
                BuildState { phase: BuildPhase::Images, swapchain, ..self },
                BuildAction::GetImages { swapchain },
            ),
            (BuildPhase::Swapchain, BuildEvent::Created(Err(result))) => self.failed(
                build_error(result),
            ),
            (BuildPhase::Images, BuildEvent::Images(Ok(images))) => (BuildState {
                images: images@,
                ..self
            }).next_view(),
            (BuildPhase::Images, BuildEvent::Images(Err(result))) => self.failed(
                build_error(result),
            ),
            (BuildPhase::Views, BuildEvent::View(Ok(view))) => (BuildState {
                image_views: self.image_views.push(view),
                ..self
            }).next_view(),
            (BuildPhase::Views, BuildEvent::View(Err(result))) => self.failed(build_error(result)),
            _ => self.failed(SwapchainError::OutOfTurn),
        }
    }

    /// Whether the driver has created the swapchain.
    pub open spec fn has_swapchain(self) -> bool {
        self.phase == BuildPhase::Images || self.phase == BuildPhase::Views || self.phase
            == BuildPhase::Done || (self.phase == BuildPhase::Failed && self.swapchain != 0)
    }

    /// The steps that release what the build has created so far: the views
    /// in order, then the swapchain where there is one.
    pub open spec fn leftovers(self) -> Seq<TeardownStep> {
        destroy_all(HandleKind::ImageView, self.image_views) + (if self.has_swapchain() {
            seq![TeardownStep::DestroySwapchain(self.swapchain)]
        } else {
            Seq::<TeardownStep>::empty()
        })
    }
}

/// Every answer of the driver keeps a build well formed.
pub proof fn lemma_build_keeps_wf(state: BuildState, event: BuildEvent)
    requires
        state.wf(),
    ensures
        state.advance(event).0.wf(),
{
}

/// A swapchain build: asks for the capabilities, creates the swapchain as
/// they plan it, fetches its images and creates a view onto each.
#[derive(Debug)]
pub struct SwapchainBuilder {
    surface: u64,
    width: u32,
    height: u32,
    old_swapchain: u64,
    phase: BuildPhase,
    capibilities: Option<VKSwapchainCapabilities>,
    plan: Option<SwapchainPlan>,
    swapchain: u64,
    images: Vec<u64>,
    image_views: Vec<u64>,
    failure: Option<SwapchainError>,
}

impl View for SwapchainBuilder {
    type V = BuildState;

    closed spec fn view(&self) -> BuildState {
        BuildState {
            surface: self.surface,
            width: self.width,
            height: self.height,
            old_swapchain: self.old_swapchain,
            phase: self.phase,
            capibilities: self.capibilities,
            plan: self.plan,
            swapchain: self.swapchain,
            images: self.images@,
            image_views: self.image_views@,
            failure: self.failure,
        }
    }
}

impl SwapchainBuilder {
    /// Starts the build of a swapchain on `surface` for a window of the
    /// given size, replacing `old_swapchain` where that is not null, and
    /// says what to do first.
    pub fn start(surface: u64, width: u32, height: u32, old_swapchain: u64) -> (started: (
        Self,
        BuildAction,
    ))
        ensures
            started.0@ == BuildState::started(surface, width, height, old_swapchain),
            started.0@.wf(),
            started.1 == (BuildAction::QueryCapabilities { surface }),
    {
        (
            SwapchainBuilder {
                surface,
                width,
                height,
                old_swapchain,
                phase: BuildPhase::Capabilities,
                capibilities: None,
                plan: None,
                swapchain: 0,
                images: Vec::new(),
                image_views: Vec::new(),
                failure: None,
            },
            BuildAction::QueryCapabilities { surface },
        )
    }

    /// Where the build stands.
    pub fn phase(&self) -> (phase: BuildPhase)
        ensures
            phase == self@.phase,
    {
        self.phase
    }

    /// Ends the build with a failure.
    fn fail(&mut self, error: SwapchainError) -> (action: BuildAction)
        ensures
            (final(self)@, action) == old(self)@.failed(error),
    {
        self.phase = BuildPhase::Failed;
        self.failure = Some(error);
        BuildAction::Fail(error)
    }

    /// Asks for the view onto the next image, or ends the build.
    fn next_view(&mut self) -> (action: BuildAction)
        requires
            old(self)@.plan is Some,
        ensures
            (final(self)@, action) == old(self)@.next_view(),
    {
        if self.image_views.len() < self.images.len() {
            let format = match self.plan {
                Some(plan) => plan.image_format,
                None => 0,
            };
            self.phase = BuildPhase::Views;
            BuildAction::CreateImageView(
                VKSwapchain::image_view(self.images[self.image_views.len()], format),
            )
        } else {
            self.phase = BuildPhase::Done;
            BuildAction::Done
        }
    }

    /// Takes the driver's answer to the last action and says what to do
    /// next.
    pub fn advance(&mut self, event: BuildEvent) -> (action: BuildAction)
        requires
            old(self)@.wf(),
        ensures
            (final(self)@, action) == old(self)@.advance(event),
            final(self)@.wf(),
    {
        proof {
            lemma_build_keeps_wf(self@, event);
        }
        match event {
            BuildEvent::Capabilities(answer) => {
                if self.phase != BuildPhase::Capabilities {
                    return self.fail(SwapchainError::OutOfTurn);
                }
                match answer {
                    Ok(capibilities) => {
                        if capibilities.surface_formats.len() == 0 {
                            self.fail(SwapchainError::NoFormat)
                        } else {
                            let plan = VKSwapchain::plan(
                                self.surface,
                                &capibilities,
                                self.width,
                                self.height,
                                self.old_swapchain,
                            );
                            self.phase = BuildPhase::Swapchain;
                            self.capibilities = Some(capibilities);
                            self.plan = Some(plan);
                            BuildAction::CreateSwapchain(plan)
                        }
                    },
                    Err(result) => self.fail(SwapchainError::from_result(result)),
                }
            },
            BuildEvent::Created(answer) => {
                if self.phase != BuildPhase::Swapchain {
                    return self.fail(SwapchainError::OutOfTurn);
                }
                match answer {
                    Ok(swapchain) => {
                        self.phase = BuildPhase::Images;
                        self.swapchain = swapchain;
                        BuildAction::GetImages { swapchain }
                    },
                    Err(result) => self.fail(SwapchainError::from_result(result)),
                }
            },
            BuildEvent::Images(answer) => {
                if self.phase != BuildPhase::Images {
                    return self.fail(SwapchainError::OutOfTurn);
                }
                match answer {
                    Ok(images) => {
                        self.images = images;
                        self.next_view()
                    },
                    Err(result) => self.fail(SwapchainError::from_result(result)),
                }
            },
            BuildEvent::View(answer) => {
                if self.phase != BuildPhase::Views {
                    return self.fail(SwapchainError::OutOfTurn);
                }
                match answer {
                    Ok(view) => {
                        self.image_views.push(view);
                        self.next_view()
                    },
                    Err(result) => self.fail(SwapchainError::from_result(result)),
                }
            },
        }
    }

    /// The steps that release what the build has created so far. After a
    /// failure they leave nothing behind.
    pub fn leftovers(&self) -> (steps: Vec<TeardownStep>)
        ensures
            steps@ == self@.leftovers(),
    {
        let mut steps: Vec<TeardownStep> = Vec::new();
        append_all(&mut steps, HandleKind::ImageView, &self.image_views);
        let created = match self.phase {
            BuildPhase::Images | BuildPhase::Views | BuildPhase::Done => true,
            BuildPhase::Failed => self.swapchain != 0,
            BuildPhase::Capabilities | BuildPhase::Swapchain => false,
        };
        if created {
            steps.push(TeardownStep::DestroySwapchain(self.swapchain));
        }
        proof {
            assert(steps@ =~= self@.leftovers());
        }
        steps
    }

    /// Ends the build: the swapchain where the build is done, the error
    /// where it failed, and where it is neither, the complaint that it was
    /// ended out of turn. A swapchain that comes out has one view per
    /// image, in the order of the images, and where the driver created
    /// exactly as many images as the plan asked for, the ideal image count
    /// of the capabilities that the build found.
    pub fn finish(self) -> (built: Result<VKSwapchain, SwapchainError>)
        requires
            self@.wf(),
        ensures
            match built {
                Ok(chain) => {
                    &&& self@.phase == BuildPhase::Done
                    &&& chain.swapchain == self@.swapchain
                    &&& chain.images@ == self@.images
                    &&& chain.image_views@ == self@.image_views
                    &&& Some(chain.capibilities) == self@.capibilities
                    &&& chain.image_extent == self@.plan->0.image_extent
                    &&& chain.wf()
                    &&& chain.images.len() == self@.plan->0.min_image_count
                        ==> chain.has_ideal_count()
                },
                Err(error) => match self@.failure {
                    Some(failure) => error == failure,
                    None => self@.phase != BuildPhase::Done && error == SwapchainError::OutOfTurn,
                },
            },
    {
        match self.phase {
            BuildPhase::Done => {
                match (self.capibilities, self.plan) {
                    (Some(capibilities), Some(plan)) => Ok(
                        VKSwapchain {
                            swapchain: self.swapchain,
                            image_views: self.image_views,
                            images: self.images,
                            capibilities,
                            image_extent: plan.image_extent,
                        },
                    ),
                    _ => Err(SwapchainError::OutOfTurn),
                }
            },
            _ => match self.failure {
                Some(failure) => Err(failure),
                None => Err(SwapchainError::OutOfTurn),
            },
        }
    }
}

} // verus!
