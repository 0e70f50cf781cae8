//! The composition root: what the instance is created with, what the
//! context owns and in which order it lets go of it.

use vstd::prelude::*;
use crate::device::VKDevice;
use crate::presentation::{
    fresh_slots, lemma_advance_keeps_wf, lemma_begin_acquire_keeps_wf,
    lemma_begin_present_keeps_wf, sync_teardown, FrameSlot, PresentAction, PresentEvent,
    PresentPhase, PresentState, PresentationFailure, ToRenderInfo, VKPresent,
};
use crate::surface::{Extent2D, SwapchainError, VKSurface, VKSwapchain};
use crate::teardown::TeardownStep;
use crate::utils::GameInfo;
use crate::vulkan::{
    packed_version, ACCESS_COLOR_ATTACHMENT_WRITE, ACCESS_MEMORY_READ,
    COMMAND_BUFFER_LEVEL_PRIMARY, COMMAND_POOL_RESET_COMMAND_BUFFER, IMAGE_ASPECT_COLOR,
    IMAGE_LAYOUT_COLOR_ATTACHMENT_OPTIMAL, IMAGE_LAYOUT_PRESENT_SRC, IMAGE_LAYOUT_UNDEFINED,
    NULL_HANDLE, PIPELINE_STAGE_ALL_COMMANDS, PIPELINE_STAGE_COLOR_ATTACHMENT_OUTPUT,
    RESULT_SUCCESS,
};

verus! {

/// Major version of the engine.
pub const ENGINE_MAJOR: u32 = 0;

/// Minor version of the engine.
pub const ENGINE_MINOR: u32 = 1;

/// Patch version of the engine.
pub const ENGINE_PATCH: u32 = 0;

/// The name the engine reports to the driver.
pub open spec fn engine_name() -> Seq<char> {
    "Alcor"@
}

/// What the instance is created with.
#[derive(Debug)]
pub struct InstancePlan {
    /// The packed version of the API asked for.
    pub api_version: u32,
    pub application_name: String,
    /// The packed version of the application.
    pub application_version: u32,
    pub engine_name: String,
    /// The packed version of the engine.
    pub engine_version: u32,
    /// Names of the instance extensions to enable.
    pub extension_names: Vec<String>,
}

/// The top level driver object.
#[derive(Clone, Copy, Debug, PartialEq, Eq, Structural)]
pub struct VKInstance {
    /// Raw handle of the instance.
    pub instance: u64,
}

impl VKInstance {
    /// What to create the instance with: API version 1.3.0, the
    /// application's name and version, the engine's name and version, and
    /// the given instance extensions, none where none are given.
    pub fn plan(game_info: &GameInfo, extension_names: Option<Vec<String>>) -> (plan: InstancePlan)
        ensures
            plan.api_version == packed_version(0, 1, 3, 0),
            plan.application_name@ == game_info.app_name@,
            plan.application_version == packed_version(
                0,
                game_info.major,
                game_info.minor,
                game_info.patch,
            ),
            plan.engine_name@ == engine_name(),
            plan.engine_version == packed_version(0, ENGINE_MAJOR, ENGINE_MINOR, ENGINE_PATCH),
            match extension_names {
                Some(names) => plan.extension_names == names,
                None => plan.extension_names@.len() == 0,
            },
    {
        let extension_names = match extension_names {
            Some(names) => names,
            None => Vec::new(),
        };
        InstancePlan {
            api_version: ash::vk::make_api_version(0, 1, 3, 0),
            application_name: game_info.app_name.clone(),
            application_version: ash::vk::make_api_version(
                0,
                game_info.major,
                game_info.minor,
                game_info.patch,
            ),
            engine_name: "Alcor".to_owned(),
            engine_version: ash::vk::make_api_version(0, ENGINE_MAJOR, ENGINE_MINOR, ENGINE_PATCH),
            extension_names,
        }
    }

    /// The step that releases the instance; it comes after every other
    /// object is gone.
    pub fn destroy(&self) -> (step: TeardownStep)
        ensures
            step == TeardownStep::DestroyInstance(self.instance),
    {
        TeardownStep::DestroyInstance(self.instance)
    }
}

/// The place of a step in the teardown of a context: steps of a lower
/// place come first.
pub open spec fn teardown_place(step: TeardownStep) -> nat {
    match step {
        TeardownStep::DropAllocator => 0,
        TeardownStep::DestroyImageView(_) => 1,
        TeardownStep::DestroySwapchain(_) => 2,
        TeardownStep::DestroySurface(_) => 3,
        TeardownStep::WaitDeviceIdle => 4,
        TeardownStep::DestroyDevice(_) => 5,
        TeardownStep::DestroyInstance(_) => 6,
        _ => 7,
    }
}

/// Everything the renderer builds on: instance, device, surface, swapchain
/// and the device memory allocator.
#[derive(Debug)]
pub struct VKContext {
    /// Whether the device memory allocator is alive.
    pub mem_allocator: bool,
    pub vulkan_swapchain: VKSwapchain,
    pub vulkan_surface: VKSurface,
    pub vulkan_device: VKDevice,
    pub vulkan_instance: VKInstance,
}

impl VKContext {
    /// The steps that release the context, in the reverse of the order it
    /// was built in: the allocator where there is one, the swapchain with
    /// its views, the surface, the device once it is idle, the instance.
    pub open spec fn teardown(&self) -> Seq<TeardownStep> {
        (if self.mem_allocator {
            seq![TeardownStep::DropAllocator]
        } else {
            Seq::<TeardownStep>::empty()
        }) + self.vulkan_swapchain.teardown() + seq![
            TeardownStep::DestroySurface(self.vulkan_surface.surface),
            TeardownStep::WaitDeviceIdle,
            TeardownStep::DestroyDevice(self.vulkan_device.device),
            TeardownStep::DestroyInstance(self.vulkan_instance.instance),
        ]
    }

    /// Lets go of everything: returns the steps that release the context,
    /// in order, and marks the allocator as gone.
    pub fn destroy(&mut self) -> (steps: Vec<TeardownStep>)
        ensures
            steps@ == old(self).teardown(),
            !final(self).mem_allocator,
            final(self).vulkan_swapchain == old(self).vulkan_swapchain,
            final(self).vulkan_surface == old(self).vulkan_surface,
            final(self).vulkan_device == old(self).vulkan_device,
            final(self).vulkan_instance == old(self).vulkan_instance,
    {
        let mut steps: Vec<TeardownStep> = Vec::new();
        if self.mem_allocator {
            steps.push(TeardownStep::DropAllocator);
        }
        let mut chain = self.vulkan_swapchain.destroy();
        steps.append(&mut chain);
        steps.push(self.vulkan_surface.destroy());
        let mut device = self.vulkan_device.destroy();
        steps.append(&mut device);
        steps.push(self.vulkan_instance.destroy());
        proof {
            assert(steps@ =~= old(self).teardown());
        }
        self.mem_allocator = false;
        steps
    }
}

/// The teardown of a context never releases an object before one that was
/// built on it: views go before their swapchain, the swapchain before the
/// surface, the surface before the device, the device before the instance.
pub proof fn lemma_teardown_in_order(context: VKContext, i: int, j: int)
    requires
        0 <= i <= j < context.teardown().len(),
    ensures
        teardown_place(context.teardown()[i]) <= teardown_place(context.teardown()[j]),
{
    let head = if context.mem_allocator {
        seq![TeardownStep::DropAllocator]
    } else {
        Seq::<TeardownStep>::empty()
    };
    let chain = context.vulkan_swapchain.teardown();
    assert forall|k: int| 0 <= k < chain.len() implies 1 <= teardown_place(#[trigger] chain[k])
        <= 2 && (k < chain.len() - 1 ==> teardown_place(chain[k]) == 1) by {}
}

/// What a frame draws: a pipeline and the vertices it runs on.
#[derive(Clone, Copy, Debug, PartialEq, Eq, Structural)]
pub struct Drawable {
    /// Raw handle of the graphics pipeline.
    pub pipeline: u64,
    /// Raw handle of the vertex buffer.
    pub vertex_buffer: u64,
    pub vertices_len: u32,
}

/// A change of layout of one whole colour image, with what it waits for
/// and what waits for it.
#[derive(Clone, Copy, Debug, PartialEq, Eq, Structural)]
pub struct ImageBarrier {
    /// Raw handle of the image.
    pub image: u64,
    pub old_layout: i32,
    pub new_layout: i32,
    pub src_stage_mask: u64,
    pub src_access_mask: u64,
    pub dst_stage_mask: u64,
    pub dst_access_mask: u64,
    pub aspect_mask: u32,
    pub level_count: u32,
    pub layer_count: u32,
}

/// One command of a frame's command buffer.
#[derive(Clone, Copy, Debug, PartialEq, Eq, Structural)]
pub enum RecordCommand {
    Begin,
    PipelineBarrier(ImageBarrier),
    /// Begin rendering into the view, over the whole area, clearing it
    /// first and keeping what is drawn.
    BeginRendering { image_view: u64, render_area: Extent2D },
    /// Bind the graphics pipeline.
    BindPipeline(u64),
    /// Bind the vertex buffer at binding 0, offset 0.
    BindVertexBuffer(u64),
    /// Set the viewport to the whole area, depth from 0 to 1.
    SetViewport(Extent2D),
    /// Set the scissor to the whole area.
    SetScissor(Extent2D),
    /// Draw one instance of this many vertices, from the first.
    Draw { vertex_count: u32 },
    EndRendering,
    End,
}

/// Everything recording one frame needs.
#[derive(Clone, Copy, Debug, PartialEq, Eq, Structural)]
pub struct FrameWork {
    /// Raw handle of the frame slot's command buffer.
    pub cmd_buffer: u64,
    /// Raw handle of the acquired image.
    pub image: u64,
    /// Raw handle of the view onto the acquired image.
    pub image_view: u64,
    pub render_area: Extent2D,
    /// What to draw; nothing but the clear where there is none.
    pub drawable: Option<Drawable>,
}

/// What a frame is submitted with.
#[derive(Clone, Copy, Debug, PartialEq, Eq, Structural)]
pub struct SubmitPlan {
    pub cmd_buffer: u64,
    /// Semaphore to wait on before colour output.
    pub wait_semaphore: u64,
    pub wait_stage_mask: u64,
    /// Semaphore to signal after colour output.
    pub signal_semaphore: u64,
    pub signal_stage_mask: u64,
    /// Fence to signal when the work is done.
    pub fence: u64,
}

/// The barrier that makes `image` drawable, whatever it held.
pub open spec fn to_drawable(image: u64) -> ImageBarrier {
    ImageBarrier {
        image,
        old_layout: IMAGE_LAYOUT_UNDEFINED,
        new_layout: IMAGE_LAYOUT_COLOR_ATTACHMENT_OPTIMAL,
        src_stage_mask: PIPELINE_STAGE_ALL_COMMANDS,
        src_access_mask: 0,
        dst_stage_mask: PIPELINE_STAGE_COLOR_ATTACHMENT_OUTPUT,
        dst_access_mask: ACCESS_COLOR_ATTACHMENT_WRITE,
        aspect_mask: IMAGE_ASPECT_COLOR,
        level_count: 1,
        layer_count: 1,
    }
}

/// The barrier that makes the drawn `image` presentable.
pub open spec fn to_presentable(image: u64) -> ImageBarrier {
    ImageBarrier {
        image,
        old_layout: IMAGE_LAYOUT_COLOR_ATTACHMENT_OPTIMAL,
        new_layout: IMAGE_LAYOUT_PRESENT_SRC,
        src_stage_mask: PIPELINE_STAGE_COLOR_ATTACHMENT_OUTPUT,
        src_access_mask: ACCESS_COLOR_ATTACHMENT_WRITE,
        dst_stage_mask: PIPELINE_STAGE_COLOR_ATTACHMENT_OUTPUT,
        dst_access_mask: ACCESS_MEMORY_READ,
        aspect_mask: IMAGE_ASPECT_COLOR,
        level_count: 1,
        layer_count: 1,
    }
}

/// The commands that draw `drawable`.
pub open spec fn draw_commands(drawable: Drawable, render_area: Extent2D) -> Seq<RecordCommand> {
    seq![
        RecordCommand::BindPipeline(drawable.pipeline),
        RecordCommand::BindVertexBuffer(drawable.vertex_buffer),
        RecordCommand::SetViewport(render_area),
        RecordCommand::SetScissor(render_area),
        RecordCommand::Draw { vertex_count: drawable.vertices_len },
    ]
}

/// The commands of one frame: the image is made drawable, cleared and
/// drawn into, and made presentable.
pub open spec fn frame_commands(work: FrameWork) -> Seq<RecordCommand> {
    seq![
        RecordCommand::Begin,
        RecordCommand::PipelineBarrier(to_drawable(work.image)),
        RecordCommand::BeginRendering {
            image_view: work.image_view,
            render_area: work.render_area,
        },
    ] + (match work.drawable {
        Some(drawable) => draw_commands(drawable, work.render_area),
        None => Seq::<RecordCommand>::empty(),
    }) + seq![
        RecordCommand::EndRendering,
        RecordCommand::PipelineBarrier(to_presentable(work.image)),
        RecordCommand::End,
    ]
}

/// What the frame described by `info` is submitted with: it waits for the
/// image, signals the render semaphore and the fence.
pub open spec fn submit_plan(info: ToRenderInfo, cmd_buffer: u64) -> SubmitPlan {
    SubmitPlan {
        cmd_buffer,
        wait_semaphore: info.img_aquired_gpu,
        wait_stage_mask: PIPELINE_STAGE_COLOR_ATTACHMENT_OUTPUT,
        signal_semaphore: info.done_rendering_gpu,
        signal_stage_mask: PIPELINE_STAGE_COLOR_ATTACHMENT_OUTPUT,
        fence: info.done_rendering_cpu,
    }
}

/// Where in a frame the renderer stands.
#[derive(Clone, Copy, Debug, PartialEq, Eq, Structural)]
pub enum RenderPhase {
    /// Between frames.
    Idle,
    /// The frame synchroniser is waiting for an answer of the driver.
    Driving,
    /// Waiting for the frame to be recorded.
    Recording,
    /// Waiting for the frame to be submitted.
    Submitting,
    /// Waiting for the window to be told that a present is at hand.
    Notifying,
    /// Waiting for the device to be idle before the swapchain is rebuilt.
    Idling,
    /// Waiting for the swapchain to be rebuilt.
    Rebuilding,
    /// A fatal failure was reported.
    Failed,
}

/// What happened to the last action.
#[derive(Clone, Copy, Debug, PartialEq, Eq, Structural)]
pub enum RenderEvent {
    /// The driver answered an action of the frame synchroniser.
    Present(PresentEvent),
    /// Recording ended with this raw result.
    Recorded(i32),
    /// The submission returned with this raw result.
    Submitted(i32),
    /// The window was told.
    Notified,
    /// The wait for the device returned with this raw result.
    DeviceIdle(i32),
}

/// Why rendering cannot go on.
#[derive(Clone, Copy, Debug, PartialEq, Eq, Structural)]
pub enum RenderFailure {
    /// The frame synchroniser failed.
    Presentation(PresentationFailure),
    /// The driver reported this raw error on recording or submitting.
    Driver(i32),
    /// The frame slot has no command buffer.
    NoCommandBuffer(u32),
    /// The swapchain has no image of this index.
    NoImage(u32),
    /// A call or an event came at a point where it has no place.
    OutOfTurn,
}

/// What whoever drives the renderer is to do next.
#[derive(Clone, Copy, Debug, PartialEq, Eq, Structural)]
pub enum RenderAction {
    /// Perform the action and report `RenderEvent::Present`.
    Present(PresentAction),
    /// Record `record_cmd_buffer` of this work into its command buffer and
    /// report `Recorded`.
    Record(FrameWork),
    /// Submit to the graphics queue and report `Submitted`.
    Submit(SubmitPlan),
    /// Tell the window that a present is at hand and report `Notified`.
    NotifyPrePresent,
    /// Block until the device has finished all submitted work and report
    /// `DeviceIdle`.
    WaitDeviceIdle,
    /// Build a swapchain that replaces this one on this surface, for the
    /// size the window has now, and call `finish_rebuild`.
    Rebuild { surface: u64, old_swapchain: u64 },
    /// Nothing: the frame is over.
    Done,
    /// Stop the render loop.
    Fail(RenderFailure),
}

/// The renderer as a mathematical value.
pub struct RenderState {
    pub present: PresentState,
    pub phase: RenderPhase,
    /// What the frame under way is submitted with.
    pub info: ToRenderInfo,
    pub context: VKContext,
    pub cmd_pool: u64,
    pub cmd_buffs: Seq<u64>,
    pub vertex_shader: u64,
    pub fragment_shader: u64,
    pub vertex_buffer: u64,
    /// The graphics pipeline; null where nothing is drawn.
    pub pipeline: u64,
    pub pipeline_layout: u64,
    pub vertices_len: u32,
}

impl RenderState {
    /// The surface frames are presented to.
    pub open spec fn surface(self) -> u64 {
        self.context.vulkan_surface.surface
    }

    /// The swapchain frames render into.
    pub open spec fn swapchain(self) -> u64 {
        self.context.vulkan_swapchain.swapchain
    }

    /// The images of the swapchain.
    pub open spec fn images(self) -> Seq<u64> {
        self.context.vulkan_swapchain.images@
    }

    /// The views onto the images of the swapchain.
    pub open spec fn image_views(self) -> Seq<u64> {
        self.context.vulkan_swapchain.image_views@
    }

    /// What is drawn: nothing where the pipeline is null.
    pub open spec fn drawable(self) -> Option<Drawable> {
        if self.pipeline == NULL_HANDLE {
            None
        } else {
            Some(
                Drawable {
                    pipeline: self.pipeline,
                    vertex_buffer: self.vertex_buffer,
                    vertices_len: self.vertices_len,
                },
            )
        }
    }

    /// The state after a fatal failure.
    pub open spec fn failed(self, failure: RenderFailure) -> (RenderState, RenderAction) {
        (RenderState { phase: RenderPhase::Failed, ..self }, RenderAction::Fail(failure))
    }

    /// What recording the frame described by `info` needs.
    pub open spec fn frame_work(self, info: ToRenderInfo) -> FrameWork {
        FrameWork {
            cmd_buffer: self.cmd_buffs[info.frame_in_flight as int],
            image: self.images()[info.img_aquired_index as int],
            image_view: self.image_views()[info.img_aquired_index as int],
            render_area: self.context.vulkan_swapchain.image_extent,
            drawable: self.drawable(),
        }
    }

    /// What the renderer makes of an action of the frame synchroniser: a
    /// driver call is passed on, a frame to render becomes work to record,
    /// on the slot's command buffer and the acquired image, and the end of
    /// the frame ends the frame.
    pub open spec fn relay(self, action: PresentAction) -> (RenderState, RenderAction) {
        match action {
            PresentAction::Render(info) => if info.frame_in_flight >= self.cmd_buffs.len() {
                self.failed(RenderFailure::NoCommandBuffer(info.frame_in_flight))
            } else if info.img_aquired_index >= self.images().len() || info.img_aquired_index
                >= self.image_views().len() {
                self.failed(RenderFailure::NoImage(info.img_aquired_index))
            } else {
                (
                    RenderState { phase: RenderPhase::Recording, info, ..self },
                    RenderAction::Record(self.frame_work(info)),
                )
            },
            PresentAction::Rebuild => (
                RenderState { phase: RenderPhase::Idling, ..self },
                RenderAction::WaitDeviceIdle,
            ),
            PresentAction::Done => (
                RenderState { phase: RenderPhase::Idle, ..self },
                RenderAction::Done,
            ),
            PresentAction::Fail(failure) => self.failed(RenderFailure::Presentation(failure)),
            _ => (
                RenderState { phase: RenderPhase::Driving, ..self },
                RenderAction::Present(action),
            ),
        }
    }

    /// Starting a frame: between frames the synchroniser starts to acquire;
    /// at any other point the call is out of turn, which is fatal.
    pub open spec fn begin_render(self) -> (RenderState, RenderAction) {
        if self.phase == RenderPhase::Idle {
            let (present, action) = self.present.begin_acquire();
            (RenderState { present, ..self }).relay(action)
        } else {
            self.failed(RenderFailure::OutOfTurn)
        }
    }

    /// The state and the next action after `event`: the frame is acquired,
    /// recorded, submitted, announced to the window and presented, in this
    /// order. A rebuild starts once the device is idle; where the wait for
    /// the device fails, the rebuild counts as failed. An event that the
    /// current phase is not waiting for is fatal, and so is a failure to
    /// record or to submit.
    pub open spec fn advance(self, event: RenderEvent) -> (RenderState, RenderAction) {
        match (self.phase, event) {
            (RenderPhase::Driving, RenderEvent::Present(answer)) => {
                let (present, action) = self.present.advance(answer);
                (RenderState { present, ..self }).relay(action)
            },
            (RenderPhase::Recording, RenderEvent::Recorded(result)) => if result
                != RESULT_SUCCESS {
                self.failed(RenderFailure::Driver(result))
            } else if self.info.frame_in_flight >= self.cmd_buffs.len() {
                self.failed(RenderFailure::NoCommandBuffer(self.info.frame_in_flight))
            } else {
                (
                    RenderState { phase: RenderPhase::Submitting, ..self },
                    RenderAction::Submit(
                        submit_plan(self.info, self.cmd_buffs[self.info.frame_in_flight as int]),
                    ),
                )
            },
            (RenderPhase::Submitting, RenderEvent::Submitted(result)) => if result
                == RESULT_SUCCESS {
                (
                    RenderState { phase: RenderPhase::Notifying, ..self },
                    RenderAction::NotifyPrePresent,
                )
            } else {
                self.failed(RenderFailure::Driver(result))
            },
            (RenderPhase::Notifying, RenderEvent::Notified) => {
                let (present, action) = self.present.begin_present();
                (RenderState { present, ..self }).relay(action)
            },
            (RenderPhase::Idling, RenderEvent::DeviceIdle(result)) => if result == RESULT_SUCCESS {
                (
                    RenderState { phase: RenderPhase::Rebuilding, ..self },
                    RenderAction::Rebuild {
                        surface: self.surface(),
                        old_swapchain: self.swapchain(),
                    },
                )
            } else {
                let (present, action) = self.present.advance(PresentEvent::Rebuilt(false));
                (RenderState { present, ..self }).relay(action)
            },
            _ => self.failed(RenderFailure::OutOfTurn),
        }
    }

    /// The state and the next action after a rebuild ended with or without
    /// a replacement: the synchroniser is told, and a replacement becomes
    /// the swapchain that frames render into.
    pub open spec fn after_rebuild(self, replacement: Option<VKSwapchain>) -> (
        RenderState,
        RenderAction,
    ) {
        if self.phase == RenderPhase::Rebuilding {
            let (present, action) = self.present.advance(
                PresentEvent::Rebuilt(replacement is Some),
            );
            let installed = match replacement {
                Some(chain) => RenderState {
                    context: VKContext { vulkan_swapchain: chain, ..self.context },
                    ..self
                },
                None => self,
            };
            (RenderState { present, ..installed }).relay(action)
        } else {
            self.failed(RenderFailure::OutOfTurn)
        }
    }
}

/// Whatever happens to the renderer, its frame synchroniser stays well
/// formed: starting a frame, any event and the end of any rebuild leave it
/// so.
pub proof fn lemma_render_keeps_wf(
    state: RenderState,
    event: RenderEvent,
    replacement: Option<VKSwapchain>,
)
    requires
        state.present.wf(),
    ensures
        state.begin_render().0.present.wf(),
        state.advance(event).0.present.wf(),
        state.after_rebuild(replacement).0.present.wf(),
{
    lemma_begin_acquire_keeps_wf(state.present);
    lemma_begin_present_keeps_wf(state.present);
    lemma_advance_keeps_wf(state.present, PresentEvent::Rebuilt(replacement is Some));
    lemma_advance_keeps_wf(state.present, PresentEvent::Rebuilt(false));
    match event {
        RenderEvent::Present(answer) => lemma_advance_keeps_wf(state.present, answer),
        _ => {},
    }
}

/// A rebuild that ends with a replacement makes it the swapchain of the
/// context: the frames that follow are recorded on its images and views,
/// and the next rebuild names it as the one to replace. The primitives and
/// everything else the renderer owns stay as they are.
pub proof fn lemma_replacement_is_used(state: RenderState, replacement: VKSwapchain)
    requires
        state.phase == RenderPhase::Rebuilding,
    ensures
        ({
            let after = state.after_rebuild(Some(replacement)).0;
            &&& after.context == (VKContext { vulkan_swapchain: replacement, ..state.context })
            &&& after.swapchain() == replacement.swapchain
            &&& after.images() == replacement.images@
            &&& after.image_views() == replacement.image_views@
            &&& after.cmd_buffs == state.cmd_buffs
            &&& after.present == state.present.advance(PresentEvent::Rebuilt(true)).0
            &&& forall|info: ToRenderInfo| #[trigger]
                after.frame_work(info).image
                    == replacement.images[info.img_aquired_index as int]
                    && after.frame_work(info).image_view
                    == replacement.image_views[info.img_aquired_index as int]
        }),
        ({
            let kept = state.after_rebuild(None).0;
            &&& kept.context == state.context
            &&& kept.present == state.present.advance(PresentEvent::Rebuilt(false)).0
        }),
{
}

/// A frame is only ever submitted right after it was recorded, and the
/// window is only ever told of a present right after the frame was
/// submitted.
pub proof fn lemma_submit_follows_record(state: RenderState, event: RenderEvent)
    ensures
        state.advance(event).1 is Submit ==> state.phase == RenderPhase::Recording && event
            == RenderEvent::Recorded(RESULT_SUCCESS),
        state.advance(event).1 is NotifyPrePresent ==> state.phase == RenderPhase::Submitting
            && event == RenderEvent::Submitted(RESULT_SUCCESS),
        state.advance(event).1 matches RenderAction::Present(PresentAction::Present { .. })
            ==> state.phase == RenderPhase::Notifying && event == RenderEvent::Notified,
{
}

/// The commands of one frame, in the order they are recorded.
pub fn record_cmd_buffer(work: &FrameWork) -> (commands: Vec<RecordCommand>)
    ensures
        commands@ == frame_commands(*work),
{
    let mut commands: Vec<RecordCommand> = Vec::new();
    commands.push(RecordCommand::Begin);
    commands.push(
        RecordCommand::PipelineBarrier(
            ImageBarrier {
                image: work.image,
                old_layout: IMAGE_LAYOUT_UNDEFINED,
                new_layout: IMAGE_LAYOUT_COLOR_ATTACHMENT_OPTIMAL,
                src_stage_mask: PIPELINE_STAGE_ALL_COMMANDS,
                src_access_mask: 0,
                dst_stage_mask: PIPELINE_STAGE_COLOR_ATTACHMENT_OUTPUT,
                dst_access_mask: ACCESS_COLOR_ATTACHMENT_WRITE,
                aspect_mask: IMAGE_ASPECT_COLOR,
                level_count: 1,
                layer_count: 1,
            },
        ),
    );
    commands.push(
        RecordCommand::BeginRendering {
            image_view: work.image_view,
            render_area: work.render_area,
        },
    );
    match work.drawable {
        Some(drawable) => {
            commands.push(RecordCommand::BindPipeline(drawable.pipeline));
            commands.push(RecordCommand::BindVertexBuffer(drawable.vertex_buffer));
            commands.push(RecordCommand::SetViewport(work.render_area));
            commands.push(RecordCommand::SetScissor(work.render_area));
            commands.push(RecordCommand::Draw { vertex_count: drawable.vertices_len });
        },
        None => {},
    }
    commands.push(RecordCommand::EndRendering);
    commands.push(
        RecordCommand::PipelineBarrier(
            ImageBarrier {
                image: work.image,
                old_layout: IMAGE_LAYOUT_COLOR_ATTACHMENT_OPTIMAL,
                new_layout: IMAGE_LAYOUT_PRESENT_SRC,
                src_stage_mask: PIPELINE_STAGE_COLOR_ATTACHMENT_OUTPUT,
                src_access_mask: ACCESS_COLOR_ATTACHMENT_WRITE,
                dst_stage_mask: PIPELINE_STAGE_COLOR_ATTACHMENT_OUTPUT,
                dst_access_mask: ACCESS_MEMORY_READ,
                aspect_mask: IMAGE_ASPECT_COLOR,
                level_count: 1,
                layer_count: 1,
            },
        ),
    );
    commands.push(RecordCommand::End);
    proof {
        assert(commands@ =~= frame_commands(*work));
    }
    commands
}

/// What the command pool and its buffers are created with.
#[derive(Clone, Copy, Debug, PartialEq, Eq, Structural)]
pub struct CommandPlan {
    pub pool_flags: u32,
    pub queue_family_index: u32,
    pub buffer_count: u32,
    pub buffer_level: i32,
}

/// The driver objects a renderer is assembled from, besides the context
/// and the synchronisation primitives.
#[derive(Debug)]
pub struct RenderResources {
    /// Raw handle of the command pool.
    pub cmd_pool: u64,
    /// Raw handles of the command buffers, one per frame slot.
    pub cmd_buffs: Vec<u64>,
    pub vertex_shader: u64,
    pub fragment_shader: u64,
    pub vertex_buffer: u64,
    /// Raw handle of the graphics pipeline; null where nothing is drawn.
    pub pipeline: u64,
    pub pipeline_layout: u64,
    pub vertices_len: u32,
}

/// The renderer: the context, the frame synchroniser, one command buffer
/// per frame slot and what is drawn.
#[derive(Debug)]
pub struct VKRenderer {
    pub vulkan_ctx: VKContext,
    pub vulkan_present: VKPresent,
    /// Raw handle of the command pool.
    pub vulkan_cmd_pool: u64,
    /// Raw handles of the command buffers, one per frame slot.
    pub vulkan_cmd_buffs: Vec<u64>,
    /// Raw handle of the vertex shader module.
    pub vertex_shader: u64,
    /// Raw handle of the fragment shader module.
    pub fragment_shader: u64,
    /// Raw handle of the vertex buffer.
    pub vertex_buffer: u64,
    /// Raw handle of the graphics pipeline; null where nothing is drawn.
    pub pipeline: u64,
    /// Raw handle of the pipeline layout.
    pub pipeline_layout: u64,
    pub vertices_len: u32,
    pub phase: RenderPhase,
    /// What the frame under way is submitted with.
    pub info: ToRenderInfo,
}

impl View for VKRenderer {
    type V = RenderState;

    open spec fn view(&self) -> RenderState {
        RenderState {
            present: self.vulkan_present@,
            phase: self.phase,
            info: self.info,
            context: self.vulkan_ctx,
            cmd_pool: self.vulkan_cmd_pool,
            cmd_buffs: self.vulkan_cmd_buffs@,
            vertex_shader: self.vertex_shader,
            fragment_shader: self.fragment_shader,
            vertex_buffer: self.vertex_buffer,
            pipeline: self.pipeline,
            pipeline_layout: self.pipeline_layout,
            vertices_len: self.vertices_len,
        }
    }
}

impl VKRenderer {
    /// Whether the frame synchroniser is well formed.
    pub open spec fn wf(&self) -> bool {
        self.vulkan_present@.wf()
    }

    /// The steps that release the renderer and everything it owns: once the
    /// device is idle, the pipeline and its layout, the vertex memory and
    /// buffer, the shaders, the synchroniser's primitives, the command
    /// pool, and the context last.
    pub open spec fn teardown(&self) -> Seq<TeardownStep> {
        seq![
            TeardownStep::WaitDeviceIdle,
            TeardownStep::DestroyPipeline(self.pipeline),
            TeardownStep::DestroyPipelineLayout(self.pipeline_layout),
            TeardownStep::FreeVertexAllocation,
            TeardownStep::DestroyBuffer(self.vertex_buffer),
            TeardownStep::DestroyShaderModule(self.fragment_shader),
            TeardownStep::DestroyShaderModule(self.vertex_shader),
        ] + sync_teardown(self.vulkan_present@.slots) + seq![
            TeardownStep::DestroyCommandPool(self.vulkan_cmd_pool),
        ] + self.vulkan_ctx.teardown()
    }

    /// What to create the command pool and its buffers with: a pool on the
    /// device's queue family whose buffers can be reset one by one, and one
    /// primary buffer per frame in flight.
    pub fn command_plan(vulkan_ctx: &VKContext, frames_in_flight: u32) -> (plan: CommandPlan)
        ensures
            plan == (CommandPlan {
                pool_flags: COMMAND_POOL_RESET_COMMAND_BUFFER,
                queue_family_index: vulkan_ctx.vulkan_device.queue_index,
                buffer_count: frames_in_flight,
                buffer_level: COMMAND_BUFFER_LEVEL_PRIMARY,
            }),
    {
        CommandPlan {
            pool_flags: COMMAND_POOL_RESET_COMMAND_BUFFER,
            queue_family_index: vulkan_ctx.vulkan_device.queue_index,
            buffer_count: frames_in_flight,
            buffer_level: COMMAND_BUFFER_LEVEL_PRIMARY,
        }
    }

    /// Assembles a renderer for `frames_in_flight` frames in flight, at
    /// least one, from the context, the primitives of each frame slot and
    /// the other driver objects. There must be one set of primitives and
    /// one command buffer for each frame in flight.
    pub fn new(
        vulkan_ctx: VKContext,
        frames_in_flight: u32,
        sync: Vec<FrameSlot>,
        resources: RenderResources,
    ) -> (built: Result<Self, RenderFailure>)
        requires
            frames_in_flight >= 1,
        ensures
            match built {
                Ok(renderer) => {
                    &&& sync.len() == frames_in_flight
                    &&& resources.cmd_buffs.len() == frames_in_flight
                    &&& renderer.wf()
                    &&& renderer.vulkan_ctx == vulkan_ctx
                    &&& renderer.vulkan_present@ == (PresentState {
                        frame: 0,
                        max_frames: frames_in_flight,
                        slots: fresh_slots(sync@),
                        img_aquired_index: 0,
                        img_in_flight: Seq::empty(),
                        swap_invalid: false,
                        phase: PresentPhase::Idle,
                    })
                    &&& renderer.vulkan_cmd_pool == resources.cmd_pool
                    &&& renderer.vulkan_cmd_buffs == resources.cmd_buffs
                    &&& renderer.vertex_shader == resources.vertex_shader
                    &&& renderer.fragment_shader == resources.fragment_shader
                    &&& renderer.vertex_buffer == resources.vertex_buffer
                    &&& renderer.pipeline == resources.pipeline
                    &&& renderer.pipeline_layout == resources.pipeline_layout
                    &&& renderer.vertices_len == resources.vertices_len
                    &&& renderer.phase == RenderPhase::Idle
                },
                Err(failure) => if sync.len() != frames_in_flight {
                    failure == RenderFailure::Presentation(PresentationFailure::SlotCount)
                } else {
                    resources.cmd_buffs.len() != frames_in_flight && failure
                        == RenderFailure::NoCommandBuffer(frames_in_flight)
                },
            },
    {
        let vulkan_present = match VKPresent::default().max_frames(frames_in_flight, sync) {
            Ok(present) => present,
            Err(failure) => {
                return Err(RenderFailure::Presentation(failure));
            },
        };
        if resources.cmd_buffs.len() != frames_in_flight as usize {
            return Err(RenderFailure::NoCommandBuffer(frames_in_flight));
        }
        proof {
            assert(0int % (frames_in_flight as int) == 0) by (nonlinear_arith)
                requires
                    frames_in_flight > 0,
            ;
        }
        Ok(
            VKRenderer {
                vulkan_ctx,
                vulkan_present,
                vulkan_cmd_pool: resources.cmd_pool,
                vulkan_cmd_buffs: resources.cmd_buffs,
                vertex_shader: resources.vertex_shader,
                fragment_shader: resources.fragment_shader,
                vertex_buffer: resources.vertex_buffer,
                pipeline: resources.pipeline,
                pipeline_layout: resources.pipeline_layout,
                vertices_len: resources.vertices_len,
                phase: RenderPhase::Idle,
                info: ToRenderInfo {
                    img_aquired_gpu: NULL_HANDLE,
                    img_aquired_index: 0,
                    done_rendering_cpu: NULL_HANDLE,
                    done_rendering_gpu: NULL_HANDLE,
                    frame_in_flight: 0,
                },
            },
        )
    }

    /// Fails for good.
    fn fail(&mut self, failure: RenderFailure) -> (action: RenderAction)
        ensures
            (final(self)@, action) == old(self)@.failed(failure),
            final(self).wf() == old(self).wf(),
    {
        self.phase = RenderPhase::Failed;
        RenderAction::Fail(failure)
    }

    /// Turns an action of the frame synchroniser into one of the renderer.
    fn relay(&mut self, action: PresentAction) -> (next: RenderAction)
        ensures
            (final(self)@, next) == old(self)@.relay(action),
            final(self).wf() == old(self).wf(),
    {
        match action {
            PresentAction::Render(info) => {
                let images = &self.vulkan_ctx.vulkan_swapchain.images;
                let image_views = &self.vulkan_ctx.vulkan_swapchain.image_views;
                if info.frame_in_flight as usize >= self.vulkan_cmd_buffs.len() {
                    self.fail(RenderFailure::NoCommandBuffer(info.frame_in_flight))
                } else if info.img_aquired_index as usize >= images.len()
                    || info.img_aquired_index as usize >= image_views.len() {
                    self.fail(RenderFailure::NoImage(info.img_aquired_index))
                } else {
                    let work = FrameWork {
                        cmd_buffer: self.vulkan_cmd_buffs[info.frame_in_flight as usize],
                        image: images[info.img_aquired_index as usize],
                        image_view: image_views[info.img_aquired_index as usize],
                        render_area: self.vulkan_ctx.vulkan_swapchain.image_extent,
                        drawable: if self.pipeline == NULL_HANDLE {
                            None
                        } else {
                            Some(
                                Drawable {
                                    pipeline: self.pipeline,
                                    vertex_buffer: self.vertex_buffer,
                                    vertices_len: self.vertices_len,
                                },
                            )
                        },
                    };
                    self.phase = RenderPhase::Recording;
                    self.info = info;
                    RenderAction::Record(work)
                }
            },
            PresentAction::Rebuild => {
                self.phase = RenderPhase::Idling;
                RenderAction::WaitDeviceIdle
            },
            PresentAction::Done => {
                self.phase = RenderPhase::Idle;
                RenderAction::Done
            },
            PresentAction::Fail(failure) => self.fail(RenderFailure::Presentation(failure)),
            _ => {
                self.phase = RenderPhase::Driving;
                RenderAction::Present(action)
            },
        }
    }

    /// Starts a frame and says what to do first.
    pub fn render(&mut self) -> (action: RenderAction)
        requires
            old(self).wf(),
        ensures
            (final(self)@, action) == old(self)@.begin_render(),
            final(self).wf(),
    {
        if self.phase == RenderPhase::Idle {
            let first = self.vulkan_present.aquire_img();
            self.relay(first)
        } else {
            self.fail(RenderFailure::OutOfTurn)
        }
    }

    /// Takes what happened to the last action and says what to do next.
    pub fn advance(&mut self, event: RenderEvent) -> (action: RenderAction)
        requires
            old(self).wf(),
        ensures
            (final(self)@, action) == old(self)@.advance(event),
            final(self).wf(),
    {
        match (self.phase, event) {
            (RenderPhase::Driving, RenderEvent::Present(answer)) => {
                let next = self.vulkan_present.advance(answer);
                self.relay(next)
            },
            (RenderPhase::Recording, RenderEvent::Recorded(result)) => {
                if result == RESULT_SUCCESS {
                    let slot = self.info.frame_in_flight as usize;
                    if slot < self.vulkan_cmd_buffs.len() {
                        self.phase = RenderPhase::Submitting;
                        RenderAction::Submit(
                            SubmitPlan {
                                cmd_buffer: self.vulkan_cmd_buffs[slot],
                                wait_semaphore: self.info.img_aquired_gpu,
                                wait_stage_mask: PIPELINE_STAGE_COLOR_ATTACHMENT_OUTPUT,
                                signal_semaphore: self.info.done_rendering_gpu,
                                signal_stage_mask: PIPELINE_STAGE_COLOR_ATTACHMENT_OUTPUT,
                                fence: self.info.done_rendering_cpu,
                            },
                        )
                    } else {
                        self.fail(RenderFailure::NoCommandBuffer(self.info.frame_in_flight))
                    }
                } else {
                    self.fail(RenderFailure::Driver(result))
                }
            },
            (RenderPhase::Submitting, RenderEvent::Submitted(result)) => {
                if result == RESULT_SUCCESS {
                    self.phase = RenderPhase::Notifying;
                    RenderAction::NotifyPrePresent
                } else {
                    self.fail(RenderFailure::Driver(result))
                }
            },
            (RenderPhase::Notifying, RenderEvent::Notified) => {
                let next = self.vulkan_present.present_frame();
                self.relay(next)
            },
            (RenderPhase::Idling, RenderEvent::DeviceIdle(result)) => {
                if result == RESULT_SUCCESS {
                    self.phase = RenderPhase::Rebuilding;
                    RenderAction::Rebuild {
                        surface: self.vulkan_ctx.vulkan_surface.surface,
                        old_swapchain: self.vulkan_ctx.vulkan_swapchain.swapchain,
                    }
                } else {
                    let next = self.vulkan_present.advance(PresentEvent::Rebuilt(false));
                    self.relay(next)
                }
            },
            _ => self.fail(RenderFailure::OutOfTurn),
        }
    }

    /// Ends a rebuild with what building the replacement gave. While the
    /// renderer waits for a rebuild, a replacement becomes the swapchain of
    /// the context, the steps that release the replaced one are returned,
    /// and the synchroniser is told how the rebuild went; a failed build
    /// leaves the swapchain in place. At any other point the call is out of
    /// turn, which is fatal, and the steps returned release the replacement.
    pub fn finish_rebuild(&mut self, built: Result<VKSwapchain, SwapchainError>) -> (outcome: (
        RenderAction,
        Vec<TeardownStep>,
    ))
        requires
            old(self).wf(),
        ensures
            (final(self)@, outcome.0) == old(self)@.after_rebuild(
                match built {
                    Ok(chain) => Some(chain),
                    Err(_) => None,
                },
            ),
            outcome.1@ == match built {
                Ok(chain) => if old(self).phase == RenderPhase::Rebuilding {
                    old(self).vulkan_ctx.vulkan_swapchain.teardown()
                } else {
                    chain.teardown()
                },
                Err(_) => Seq::<TeardownStep>::empty(),
            },
            final(self).wf(),
    {
        if self.phase == RenderPhase::Rebuilding {
            let rebuilt = built.is_ok();
            let steps = match built {
                Ok(chain) => {
                    let steps = self.vulkan_ctx.vulkan_swapchain.destroy();
                    self.vulkan_ctx.vulkan_swapchain = chain;
                    steps
                },
                Err(_) => Vec::new(),
            };
            let next = self.vulkan_present.advance(PresentEvent::Rebuilt(rebuilt));
            let action = self.relay(next);
            (action, steps)
        } else {
            let steps = match built {
                Ok(chain) => chain.destroy(),
                Err(_) => Vec::new(),
            };
            let action = self.fail(RenderFailure::OutOfTurn);
            (action, steps)
        }
    }

    /// Lets go of everything: returns the steps that release the renderer,
    /// in order. The synchroniser is left without slots and the context
    /// without its allocator.
    pub fn destroy(&mut self) -> (steps: Vec<TeardownStep>)
        requires
            old(self).wf(),
        ensures
            steps@ == old(self).teardown(),
            final(self)@ == (RenderState {
                present: PresentState {
                    slots: Seq::empty(),
                    img_in_flight: Seq::empty(),
                    phase: PresentPhase::Idle,
                    ..old(self)@.present
                },
                context: VKContext { mem_allocator: false, ..old(self)@.context },
                ..old(self)@
            }),
            final(self).wf(),
    {
        let mut steps: Vec<TeardownStep> = Vec::new();
        steps.push(TeardownStep::WaitDeviceIdle);
        steps.push(TeardownStep::DestroyPipeline(self.pipeline));
        steps.push(TeardownStep::DestroyPipelineLayout(self.pipeline_layout));
        steps.push(TeardownStep::FreeVertexAllocation);
        steps.push(TeardownStep::DestroyBuffer(self.vertex_buffer));
        steps.push(TeardownStep::DestroyShaderModule(self.fragment_shader));
        steps.push(TeardownStep::DestroyShaderModule(self.vertex_shader));
        let mut sync = self.vulkan_present.destroy();
        steps.append(&mut sync);
        steps.push(TeardownStep::DestroyCommandPool(self.vulkan_cmd_pool));
        let mut context = self.vulkan_ctx.destroy();
        steps.append(&mut context);
        proof {
            assert(steps@ =~= old(self).teardown());
        }
        steps
    }
}

} // verus!
