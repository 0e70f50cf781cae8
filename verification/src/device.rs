//! Adapter selection: which adapters meet a set of requirements, how the
//! survivors are ranked, and which one is picked.

use vstd::prelude::*;
use crate::surface::VKSwapchainCapabilities;
use crate::teardown::TeardownStep;
use crate::vulkan::{
    flags_hold, heap_flags_contain, queue_flags_contain, DEVICE_TYPE_DISCRETE_GPU,
    DEVICE_TYPE_INTEGRATED_GPU, MEMORY_HEAP_DEVICE_LOCAL, QUEUE_COMPUTE, QUEUE_GRAPHICS,
};

verus! {

/// Bytes in a mebibyte.
pub const MIB: u64 = 1048576;

/// Mebibytes in a gibibyte.
pub const MIB_PER_GIB: u64 = 1024;

/// The most that device memory adds to a score, in gibibytes.
pub const MEMORY_SCORE_CAP: u64 = 64;

/// Score of a discrete adapter.
pub const SCORE_DISCRETE: u64 = 100;

/// Score of an integrated adapter.
pub const SCORE_INTEGRATED: u64 = 50;

/// Bonus for mesh shading, for a compute queue and for geometry shaders.
pub const SCORE_FEATURE: u64 = 10;

/// Bonus for 64 bit floats in shaders.
pub const SCORE_FLOAT64: u64 = 5;

/// One queue family of an adapter.
#[derive(Clone, Copy, Debug, PartialEq, Eq)]
pub struct QueueFamilyInfo {
    /// Raw capability flags of the family.
    pub queue_flags: u32,
    /// What the driver answered when asked whether the family can present
    /// to the surface in question: yes or no, or the raw error.
    pub supports_surface: Result<bool, i32>,
}

/// One memory heap of an adapter.
#[derive(Clone, Copy, Debug, PartialEq, Eq, Structural)]
pub struct MemoryHeapInfo {
    /// Size in bytes.
    pub size: u64,
    /// Raw heap flags.
    pub flags: u32,
}

/// Everything selection reads of one physical adapter.
#[derive(Debug)]
pub struct PhysicalAdapterInfo {
    /// Raw handle of the adapter.
    pub handle: u64,
    pub device_name: String,
    /// Raw adapter type.
    pub device_type: i32,
    /// Names of the device extensions the adapter offers.
    pub extensions: Vec<String>,
    /// Queue families in the order the adapter lists them.
    pub queue_families: Vec<QueueFamilyInfo>,
    pub memory_heaps: Vec<MemoryHeapInfo>,
    pub geometry_shader: bool,
    pub shader_float64: bool,
    /// What the surface reports on this adapter, where there is a surface.
    pub surface: Option<VKSwapchainCapabilities>,
}

/// A feature structure to chain into device creation.
#[derive(Clone, Copy, Debug, PartialEq, Eq, Structural)]
pub enum DeviceFeature {
    DynamicRendering,
    Synchronization2,
}

/// Why no device could be set up.
#[derive(Clone, Copy, Debug, PartialEq, Eq, Structural)]
pub enum DeviceError {
    /// No adapter meets the requirements.
    NoSuitableDevice,
}

/// The name of the mesh shading extension.
pub open spec fn mesh_shader_name() -> Seq<char> {
    "VK_EXT_mesh_shader"@
}

/// The device name prefix of the software rasteriser that is never picked.
pub open spec fn software_prefix() -> Seq<char> {
    "llvmpipe"@
}

/// Whether `name` is among `extensions`.
pub open spec fn extension_listed(extensions: Seq<String>, name: Seq<char>) -> bool {
    exists|i: int| 0 <= i < extensions.len() && (#[trigger] extensions[i])@ == name
}

/// Whether every name of `required` is among `extensions`.
pub open spec fn extensions_cover(extensions: Seq<String>, required: Seq<String>) -> bool {
    forall|i: int|
        0 <= i < required.len() ==> extension_listed(extensions, (#[trigger] required[i])@)
}

/// Whether a queue family has the wanted flags and, where a surface is to be
/// presented to, is known to present to it. A family of which the driver
/// failed to say counts as one that cannot.
pub open spec fn family_suits(
    family: QueueFamilyInfo,
    required_flags: u32,
    surface_requirment: bool,
) -> bool {
    flags_hold(family.queue_flags, required_flags) && (surface_requirment
        ==> family.supports_surface == Ok::<bool, i32>(true))
}

/// Whether `index` is the first family of `families` that suits. A family
/// whose index does not fit a `u32` cannot be named and never suits.
pub open spec fn first_suiting_family(
    families: Seq<QueueFamilyInfo>,
    required_flags: u32,
    surface_requirment: bool,
    index: int,
) -> bool {
    &&& 0 <= index < families.len()
    &&& index <= u32::MAX
    &&& family_suits(families[index], required_flags, surface_requirment)
    &&& forall|j: int|
        0 <= j < index ==> !family_suits(
            #[trigger] families[j],
            required_flags,
            surface_requirment,
        )
}

/// Whether some family of `families` suits.
pub open spec fn some_family_suits(
    families: Seq<QueueFamilyInfo>,
    required_flags: u32,
    surface_requirment: bool,
) -> bool {
    exists|i: int|
        0 <= i < families.len() && i <= u32::MAX && family_suits(
            #[trigger] families[i],
            required_flags,
            surface_requirment,
        )
}

/// Whether some family of `families` can run compute work.
pub open spec fn has_compute_queue(families: Seq<QueueFamilyInfo>) -> bool {
    exists|i: int|
        0 <= i < families.len() && flags_hold((#[trigger] families[i]).queue_flags, QUEUE_COMPUTE)
}

/// Mebibytes of device local memory in `heaps`: each device local heap
/// counts with its size rounded down to whole mebibytes.
pub open spec fn device_local_mib(heaps: Seq<MemoryHeapInfo>) -> nat
    decreases heaps.len(),
{
    if heaps.len() == 0 {
        0
    } else {
        let last = heaps.last();
        let rest = device_local_mib(heaps.drop_last());
        if flags_hold(last.flags, MEMORY_HEAP_DEVICE_LOCAL) {
            rest + (last.size / MIB) as nat
        } else {
            rest
        }
    }
}

/// What device memory adds to a score: whole gibibytes, capped.
pub open spec fn memory_score(mib: nat) -> nat {
    if mib / (MIB_PER_GIB as nat) < MEMORY_SCORE_CAP {
        mib / (MIB_PER_GIB as nat)
    } else {
        MEMORY_SCORE_CAP as nat
    }
}

/// What the adapter type adds to a score.
pub open spec fn type_score(device_type: i32) -> nat {
    if device_type == DEVICE_TYPE_DISCRETE_GPU {
        SCORE_DISCRETE as nat
    } else if device_type == DEVICE_TYPE_INTEGRATED_GPU {
        SCORE_INTEGRATED as nat
    } else {
        0
    }
}

/// The score of an adapter; the adapter with the highest score is picked.
pub open spec fn adapter_score(adapter: PhysicalAdapterInfo) -> nat {
    type_score(adapter.device_type) + (if extension_listed(
        adapter.extensions@,
        mesh_shader_name(),
    ) {
        SCORE_FEATURE as nat
    } else {
        0
    }) + (if has_compute_queue(adapter.queue_families@) {
        SCORE_FEATURE as nat
    } else {
        0
    }) + (if adapter.geometry_shader {
        SCORE_FEATURE as nat
    } else {
        0
    }) + (if adapter.shader_float64 {
        SCORE_FLOAT64 as nat
    } else {
        0
    }) + memory_score(device_local_mib(adapter.memory_heaps@))
}

/// `str::starts_with` with a string as the pattern: whether `prefix` is a
/// prefix of `name`.
#[verifier::external_body]
pub(crate) fn name_starts_with(name: &str, prefix: &str) -> (found: bool)
    ensures
        found == prefix@.is_prefix_of(name@),
{
    name.starts_with(prefix)
}

/// Whether the adapter is real hardware: its name does not start with the
/// name of the software rasteriser. For use as a custom test.
pub fn is_hardware(adapter: &PhysicalAdapterInfo) -> (hardware: bool)
    ensures
        hardware == !software_prefix().is_prefix_of(adapter.device_name@),
{
    !name_starts_with(adapter.device_name.as_str(), "llvmpipe")
}

/// Whether the surface can be presented to from the adapter: it asks for
/// at least one image or offers a present mode. Without a surface there is
/// nothing to object to. For use as a custom test.
pub fn can_present(adapter: &PhysicalAdapterInfo) -> (presentable: bool)
    ensures
        presentable == match adapter.surface {
            Some(capabilities) => capabilities.surface_capibilities.min_image_count > 0
                || capabilities.present_modes@.len() > 0,
            None => true,
        },
{
    match &adapter.surface {
        Some(capabilities) => capabilities.surface_capibilities.min_image_count > 0
            || capabilities.present_modes.len() > 0,
        None => true,
    }
}

/// Whether `name` is among `extensions`.
pub fn has_extension(extensions: &Vec<String>, name: &String) -> (listed: bool)
    ensures
        listed == extension_listed(extensions@, name@),
{
    let mut i: usize = 0;
    while i < extensions.len()
        invariant
            i <= extensions.len(),
            forall|j: int| 0 <= j < i ==> (#[trigger] extensions[j])@ != name@,
        decreases extensions.len() - i,
    {
        if extensions[i] == *name {
            return true;
        }
        i += 1;
    }
    false
}

/// Device local memory of an adapter in mebibytes, saturating at the
/// largest `u64`.
pub fn physical_device_memory_size(adapter: &PhysicalAdapterInfo) -> (mib: u64)
    ensures
        mib == if device_local_mib(adapter.memory_heaps@) <= u64::MAX {
            device_local_mib(adapter.memory_heaps@)
        } else {
            u64::MAX as nat
        },
{
    let mut total: u64 = 0;
    let mut i: usize = 0;
    while i < adapter.memory_heaps.len()
        invariant
            i <= adapter.memory_heaps.len(),
            total == if device_local_mib(adapter.memory_heaps@.take(i as int)) <= u64::MAX {
                device_local_mib(adapter.memory_heaps@.take(i as int))
            } else {
                u64::MAX as nat
            },
        decreases adapter.memory_heaps.len() - i,
    {
        let heap = adapter.memory_heaps[i];
        proof {
            let next = adapter.memory_heaps@.take(i + 1);
            assert(next.drop_last() =~= adapter.memory_heaps@.take(i as int));
            assert(next.last() == heap);
        }
        if heap_flags_contain(heap.flags, MEMORY_HEAP_DEVICE_LOCAL) {
            total = total.saturating_add(heap.size / MIB);
        }
        i += 1;
    }
    proof {
        assert(adapter.memory_heaps@.take(i as int) =~= adapter.memory_heaps@);
    }
    total
}

/// Whether some queue family of the adapter can run compute work.
fn any_compute_queue(families: &Vec<QueueFamilyInfo>) -> (found: bool)
    ensures
        found == has_compute_queue(families@),
{
    let mut i: usize = 0;
    while i < families.len()
        invariant
            i <= families.len(),
            forall|j: int|
                0 <= j < i ==> !flags_hold((#[trigger] families[j]).queue_flags, QUEUE_COMPUTE),
        decreases families.len() - i,
    {
        if queue_flags_contain(families[i].queue_flags, QUEUE_COMPUTE) {
            return true;
        }
        i += 1;
    }
    false
}

/// The score of an adapter: its type, the features that mark a capable
/// card, and its device local memory.
pub fn score_physical_device(adapter: &PhysicalAdapterInfo) -> (score: u64)
    ensures
        score == adapter_score(*adapter),
        score <= 199,
{
    let mut score: u64 = 0;
    if adapter.device_type == DEVICE_TYPE_DISCRETE_GPU {
        score += SCORE_DISCRETE;
    } else if adapter.device_type == DEVICE_TYPE_INTEGRATED_GPU {
        score += SCORE_INTEGRATED;
    }
    let mesh_shader: String = "VK_EXT_mesh_shader".to_owned();
    if has_extension(&adapter.extensions, &mesh_shader) {
        score += SCORE_FEATURE;
    }
    if any_compute_queue(&adapter.queue_families) {
        score += SCORE_FEATURE;
    }
    if adapter.geometry_shader {
        score += SCORE_FEATURE;
    }
    if adapter.shader_float64 {
        score += SCORE_FLOAT64;
    }
    let gib: u64 = physical_device_memory_size(adapter) / MIB_PER_GIB;
    if gib < MEMORY_SCORE_CAP {
        score += gib;
    } else {
        score += MEMORY_SCORE_CAP;
    }
    score
}

/// Whether `test` never turns `adapter` down.
pub open spec fn test_accepts<F: Fn(&PhysicalAdapterInfo) -> bool>(
    test: F,
    adapter: &PhysicalAdapterInfo,
) -> bool {
    !call_ensures(test, (adapter,), false)
}

/// Whether `test` may be called on `adapter` and its contract settles the
/// answer: it cannot both accept and turn down.
pub open spec fn test_decides<F: Fn(&PhysicalAdapterInfo) -> bool>(
    test: F,
    adapter: &PhysicalAdapterInfo,
) -> bool {
    &&& call_requires(test, (adapter,))
    &&& !call_ensures(test, (adapter,), true) || !call_ensures(test, (adapter,), false)
}

/// What a device must offer to be picked: extensions, queue capabilities
/// and any number of custom tests, all of which must hold.
pub struct VKDeviceRequirments<F: Fn(&PhysicalAdapterInfo) -> bool> {
    pub required_extentions: Vec<String>,
    pub device_extended_info: Vec<DeviceFeature>,
    pub requirement_functions: Vec<F>,
    pub required_queue_flags: u32,
}

impl<F: Fn(&PhysicalAdapterInfo) -> bool> Default for VKDeviceRequirments<F> {
    fn default() -> (requirements: Self)
        ensures
            requirements.required_extentions@.len() == 0,
            requirements.device_extended_info@.len() == 0,
            requirements.requirement_functions@.len() == 0,
            requirements.required_queue_flags == 0,
    {
        VKDeviceRequirments {
            required_extentions: Vec::new(),
            device_extended_info: Vec::new(),
            requirement_functions: Vec::new(),
            required_queue_flags: 0,
        }
    }
}

impl<F: Fn(&PhysicalAdapterInfo) -> bool> VKDeviceRequirments<F> {
    /// Whether every custom test can be called on `adapter` and settles its
    /// answer.
    pub open spec fn tests_decide(&self, adapter: &PhysicalAdapterInfo) -> bool {
        forall|i: int|
            0 <= i < self.requirement_functions.len() ==> test_decides(
                #[trigger] self.requirement_functions[i],
                adapter,
            )
    }

    /// Whether every custom test accepts `adapter`.
    pub open spec fn tests_accept(&self, adapter: &PhysicalAdapterInfo) -> bool {
        forall|i: int|
            0 <= i < self.requirement_functions.len() ==> test_accepts(
                #[trigger] self.requirement_functions[i],
                adapter,
            )
    }

    /// Whether `adapter` meets the requirements: it offers every required
    /// extension, every custom test accepts it, and one of its queue
    /// families suits.
    pub open spec fn admits(&self, adapter: &PhysicalAdapterInfo, surface_requirment: bool) -> bool {
        &&& extensions_cover(adapter.extensions@, self.required_extentions@)
        &&& self.tests_accept(adapter)
        &&& some_family_suits(
            adapter.queue_families@,
            self.required_queue_flags,
            surface_requirment,
        )
    }

    /// Adds the name of a device extension to the requirements.
    pub fn push_ext(self, ext_name: &str) -> (requirements: Self)
        ensures
            requirements.required_extentions.deep_view()
                == self.required_extentions.deep_view().push(ext_name@),
            requirements.device_extended_info == self.device_extended_info,
            requirements.requirement_functions == self.requirement_functions,
            requirements.required_queue_flags == self.required_queue_flags,
    {
        let mut requirements = self;
        let ghost before = requirements.required_extentions.deep_view();
        requirements.required_extentions.push(ext_name.to_owned());
        proof {
            assert(requirements.required_extentions.deep_view() =~= before.push(ext_name@));
        }
        requirements
    }

    /// Adds a feature structure to chain into device creation.
    pub fn push_info(self, dev_ext_info: DeviceFeature) -> (requirements: Self)
        ensures
            requirements.device_extended_info@ == self.device_extended_info@.push(dev_ext_info),
            requirements.required_extentions == self.required_extentions,
            requirements.requirement_functions == self.requirement_functions,
            requirements.required_queue_flags == self.required_queue_flags,
    {
        let mut requirements = self;
        requirements.device_extended_info.push(dev_ext_info);
        requirements
    }

    /// Adds a custom test; a device must pass it to be compatible.
    pub fn push_fn(self, fn_test: F) -> (requirements: Self)
        ensures
            requirements.requirement_functions@ == self.requirement_functions@.push(fn_test),
            requirements.required_extentions == self.required_extentions,
            requirements.device_extended_info == self.device_extended_info,
            requirements.required_queue_flags == self.required_queue_flags,
    {
        let mut requirements = self;
        requirements.requirement_functions.push(fn_test);
        requirements
    }

    /// Adds queue capability flags to the requirements.
    pub fn add_queue_flag(self, queue_flag: u32) -> (requirements: Self)
        ensures
            requirements.required_queue_flags == self.required_queue_flags | queue_flag,
            requirements.required_extentions == self.required_extentions,
            requirements.device_extended_info == self.device_extended_info,
            requirements.requirement_functions == self.requirement_functions,
    {
        let mut requirements = self;
        requirements.required_queue_flags = requirements.required_queue_flags | queue_flag;
        requirements
    }

    /// The names of the required extensions, in the order they were added.
    pub fn get_requirments(&self) -> (names: &[String])
        ensures
            names@ == self.required_extentions@,
    {
        self.required_extentions.as_slice()
    }

    /// The index of the first queue family of `adapter` that suits.
    pub fn suitable_queue(&self, adapter: &PhysicalAdapterInfo, surface_requirment: bool) -> (queue:
        Option<u32>)
        ensures
            match queue {
                Some(index) => first_suiting_family(
                    adapter.queue_families@,
                    self.required_queue_flags,
                    surface_requirment,
                    index as int,
                ),
                None => !some_family_suits(
                    adapter.queue_families@,
                    self.required_queue_flags,
                    surface_requirment,
                ),
            },
    {
        let mut i: usize = 0;
        while i < adapter.queue_families.len() && i <= u32::MAX as usize
            invariant
                i <= adapter.queue_families.len(),
                i <= u32::MAX + 1,
                forall|j: int|
                    0 <= j < i ==> !family_suits(
                        #[trigger] adapter.queue_families[j],
                        self.required_queue_flags,
                        surface_requirment,
                    ),
            decreases adapter.queue_families.len() - i,
        {
            let family = adapter.queue_families[i];
            let presents = match family.supports_surface {
                Ok(supported) => supported,
                Err(_) => false,
            };
            if queue_flags_contain(family.queue_flags, self.required_queue_flags) && (
            !surface_requirment || presents) {
                return Some(i as u32);
            }
            i += 1;
        }
        None
    }

    /// Whether every required extension is among those of `adapter`.
    fn covers_extensions(&self, adapter: &PhysicalAdapterInfo) -> (covered: bool)
        ensures
            covered == extensions_cover(adapter.extensions@, self.required_extentions@),
    {
        let mut i: usize = 0;
        while i < self.required_extentions.len()
            invariant
                i <= self.required_extentions.len(),
                forall|j: int|
                    0 <= j < i ==> extension_listed(
                        adapter.extensions@,
                        (#[trigger] self.required_extentions[j])@,
                    ),
            decreases self.required_extentions.len() - i,
        {
            if !has_extension(&adapter.extensions, &self.required_extentions[i]) {
                return false;
            }
            i += 1;
        }
        true
    }

    /// Whether every custom test accepts `adapter`. Every test is run.
    fn passes_tests(&self, adapter: &PhysicalAdapterInfo) -> (passed: bool)
        requires
            self.tests_decide(adapter),
        ensures
            passed == self.tests_accept(adapter),
    {
        let mut passed = true;
        let mut i: usize = 0;
        while i < self.requirement_functions.len()
            invariant
                i <= self.requirement_functions.len(),
                self.tests_decide(adapter),
                passed == (forall|j: int|
                    0 <= j < i ==> test_accepts(#[trigger] self.requirement_functions[j], adapter)),
            decreases self.requirement_functions.len() - i,
        {
            let test = &self.requirement_functions[i];
            assert(test_decides(self.requirement_functions[i as int], adapter));
            let accepted = test(adapter);
            if !accepted {
                passed = false;
            }
            i += 1;
        }
        passed
    }

    /// Checks whether `adapter` meets the requirements. `surface_requirment`
    /// says whether the queue family must also present to the surface.
    /// Where a queue family suits, the index of the first such family is
    /// written to `checked_queue`, whatever the verdict.
    pub fn device_compat(
        &self,
        adapter: &PhysicalAdapterInfo,
        surface_requirment: bool,
        checked_queue: Option<&mut u32>,
    ) -> (compatible: bool)
        requires
            self.tests_decide(adapter),
        ensures
            compatible == self.admits(adapter, surface_requirment),
            match checked_queue {
                Some(queue) => if some_family_suits(
                    adapter.queue_families@,
                    self.required_queue_flags,
                    surface_requirment,
                ) {
                    first_suiting_family(
                        adapter.queue_families@,
                        self.required_queue_flags,
                        surface_requirment,
                        *final(queue) as int,
                    )
                } else {
                    *final(queue) == *queue
                },
                None => true,
            },
    {
        let has_extentions = self.covers_extensions(adapter);
        let funcs_passes = self.passes_tests(adapter);
        let queue = self.suitable_queue(adapter, surface_requirment);
        let queue_passes = queue.is_some();
        match checked_queue {
            Some(slot) => {
                if let Some(index) = queue {
                    *slot = index;
                }
            },
            None => {},
        }
        has_extentions && funcs_passes && queue_passes
    }
}

/// Whether the adapter at `index` is the pick among the first `limit`
/// adapters: it meets the requirements, none that meets them scores higher,
/// and none that scores the same comes after it.
pub open spec fn best_among<F: Fn(&PhysicalAdapterInfo) -> bool>(
    adapters: Seq<PhysicalAdapterInfo>,
    requirements: &VKDeviceRequirments<F>,
    surface_requirment: bool,
    limit: int,
    index: int,
) -> bool {
    &&& 0 <= index < limit <= adapters.len()
    &&& requirements.admits(&adapters[index], surface_requirment)
    &&& forall|j: int|
        0 <= j < limit && requirements.admits(&#[trigger] adapters[j], surface_requirment) ==> {
            ||| adapter_score(adapters[j]) < adapter_score(adapters[index])
            ||| adapter_score(adapters[j]) == adapter_score(adapters[index]) && j <= index
        }
}

/// The logical device that was set up on the picked adapter.
#[derive(Clone, Copy, Debug, PartialEq, Eq, Structural)]
pub struct VKDevice {
    /// Raw handle of the adapter.
    pub p_device: u64,
    /// The queue family the graphics queue belongs to.
    pub queue_index: u32,
    /// Raw handle of the queue all work is submitted to.
    pub graphics_queue: u64,
    /// Raw handle of the logical device.
    pub device: u64,
}

/// What a logical device is created with.
#[derive(Debug)]
pub struct DeviceCreatePlan {
    /// Raw handle of the adapter.
    pub p_device: u64,
    /// The family of the one queue to create.
    pub queue_family_index: u32,
    /// Names of the device extensions to enable.
    pub extension_names: Vec<String>,
    /// The feature structures to chain in, in order.
    pub extended_info: Vec<DeviceFeature>,
}

impl VKDevice {
    /// What to create the logical device with: one queue of the picked
    /// family on the picked adapter, every required extension enabled and
    /// every required feature structure chained in.
    pub fn plan<F: Fn(&PhysicalAdapterInfo) -> bool>(
        picked: (u64, u32),
        dev_requirments: &VKDeviceRequirments<F>,
    ) -> (plan: DeviceCreatePlan)
        ensures
            plan.p_device == picked.0,
            plan.queue_family_index == picked.1,
            plan.extension_names.deep_view() == dev_requirments.required_extentions.deep_view(),
            plan.extended_info@ == dev_requirments.device_extended_info@,
    {
        let mut extension_names: Vec<String> = Vec::new();
        let mut i: usize = 0;
        while i < dev_requirments.required_extentions.len()
            invariant
                i <= dev_requirments.required_extentions.len(),
                extension_names.len() == i,
                forall|k: int|
                    0 <= k < i ==> (#[trigger] extension_names[k])@
                        == dev_requirments.required_extentions[k]@,
            decreases dev_requirments.required_extentions.len() - i,
        {
            extension_names.push(dev_requirments.required_extentions[i].clone());
            i += 1;
        }
        let mut extended_info: Vec<DeviceFeature> = Vec::new();
        let mut j: usize = 0;
        while j < dev_requirments.device_extended_info.len()
            invariant
                j <= dev_requirments.device_extended_info.len(),
                extended_info@ == dev_requirments.device_extended_info@.take(j as int),
            decreases dev_requirments.device_extended_info.len() - j,
        {
            extended_info.push(dev_requirments.device_extended_info[j]);
            proof {
                assert(extended_info@ =~= dev_requirments.device_extended_info@.take(j + 1));
            }
            j += 1;
        }
        proof {
            assert(extension_names.deep_view()
                =~= dev_requirments.required_extentions.deep_view());
            assert(dev_requirments.device_extended_info@.take(j as int)
                =~= dev_requirments.device_extended_info@);
        }
        DeviceCreatePlan {
            p_device: picked.0,
            queue_family_index: picked.1,
            extension_names,
            extended_info,
        }
    }

    /// The steps that release the device: it is waited for, then destroyed.
    pub fn destroy(&self) -> (steps: Vec<TeardownStep>)
        ensures
            steps@ == seq![TeardownStep::WaitDeviceIdle, TeardownStep::DestroyDevice(self.device)],
    {
        let mut steps: Vec<TeardownStep> = Vec::new();
        steps.push(TeardownStep::WaitDeviceIdle);
        steps.push(TeardownStep::DestroyDevice(self.device));
        steps
    }

    /// What the engine asks of a device before any custom test: a graphics
    /// queue, the swapchain, dynamic rendering and synchronisation
    /// extensions, and the features of the latter two switched on.
    pub fn requirements<F: Fn(&PhysicalAdapterInfo) -> bool>() -> (requirements:
        VKDeviceRequirments<F>)
        ensures
            requirements.required_queue_flags == QUEUE_GRAPHICS,
            requirements.required_extentions.deep_view() == seq![
                "VK_KHR_swapchain"@,
                "VK_KHR_dynamic_rendering"@,
                "VK_KHR_synchronization2"@,
            ],
            requirements.device_extended_info@ == seq![
                DeviceFeature::DynamicRendering,
                DeviceFeature::Synchronization2,
            ],
            requirements.requirement_functions@.len() == 0,
    {
        let requirements = VKDeviceRequirments::default().add_queue_flag(QUEUE_GRAPHICS).push_ext(
            "VK_KHR_swapchain",
        ).push_ext("VK_KHR_dynamic_rendering").push_ext("VK_KHR_synchronization2").push_info(
            DeviceFeature::DynamicRendering,
        ).push_info(DeviceFeature::Synchronization2);
        proof {
            assert(0u32 | QUEUE_GRAPHICS == QUEUE_GRAPHICS) by (bit_vector);
            assert(requirements.required_extentions.deep_view() =~= seq![
                "VK_KHR_swapchain"@,
                "VK_KHR_dynamic_rendering"@,
                "VK_KHR_synchronization2"@,
            ]);
            assert(requirements.device_extended_info@ =~= seq![
                DeviceFeature::DynamicRendering,
                DeviceFeature::Synchronization2,
            ]);
        }
        requirements
    }

    /// Picks the adapter to run on: of those that meet the requirements the
    /// one with the highest score, and of several with that score the one
    /// listed last. Returns its handle and the index of its first suiting
    /// queue family.
    pub fn pick_device<F: Fn(&PhysicalAdapterInfo) -> bool>(
        adapters: &Vec<PhysicalAdapterInfo>,
        dev_requirments: &VKDeviceRequirments<F>,
        surface_requirment: bool,
    ) -> (picked: Result<(u64, u32), DeviceError>)
        requires
            forall|i: int|
                0 <= i < adapters.len() ==> dev_requirments.tests_decide(&#[trigger] adapters[i]),
        ensures
            match picked {
                Ok((handle, queue_index)) => exists|i: int|
                    {
                        &&& best_among(
                            adapters@,
                            dev_requirments,
                            surface_requirment,
                            adapters.len() as int,
                            i,
                        )
                        &&& handle == adapters[i].handle
                        &&& first_suiting_family(
                            adapters[i].queue_families@,
                            dev_requirments.required_queue_flags,
                            surface_requirment,
                            queue_index as int,
                        )
                    },
                Err(error) => error == DeviceError::NoSuitableDevice && forall|i: int|
                    0 <= i < adapters.len() ==> !dev_requirments.admits(
                        &#[trigger] adapters[i],
                        surface_requirment,
                    ),
            },
    {
        let mut best: Option<(u64, usize, u32)> = None;
        let mut i: usize = 0;
        while i < adapters.len()
            invariant
                i <= adapters.len(),
                forall|k: int|
                    0 <= k < adapters.len() ==> dev_requirments.tests_decide(
                        &#[trigger] adapters[k],
                    ),
                match best {
                    Some((score, index, queue_index)) => {
                        &&& best_among(
                            adapters@,
                            dev_requirments,
                            surface_requirment,
                            i as int,
                            index as int,
                        )
                        &&& score == adapter_score(adapters[index as int])
                        &&& first_suiting_family(
                            adapters[index as int].queue_families@,
                            dev_requirments.required_queue_flags,
                            surface_requirment,
                            queue_index as int,
                        )
                    },
                    None => forall|j: int|
                        0 <= j < i ==> !dev_requirments.admits(
                            &#[trigger] adapters[j],
                            surface_requirment,
                        ),
                },
            decreases adapters.len() - i,
        {
            let adapter = &adapters[i];
            let mut queue_index: u32 = 0;
            let compatible = dev_requirments.device_compat(
                adapter,
                surface_requirment,
                Some(&mut queue_index),
            );
            if compatible {
                let score = score_physical_device(adapter);
                let better = match best {
                    Some((best_score, _, _)) => score >= best_score,
                    None => true,
                };
                if better {
                    best = Some((score, i, queue_index));
                }
            }
            i += 1;
        }
        match best {
            Some((_, index, queue_index)) => Ok((adapters[index].handle, queue_index)),
            None => Err(DeviceError::NoSuitableDevice),
        }
    }
}

/// There is at most one pick: two adapters cannot both be the best among
/// the same adapters.
pub proof fn lemma_best_is_unique<F: Fn(&PhysicalAdapterInfo) -> bool>(
    adapters: Seq<PhysicalAdapterInfo>,
    requirements: &VKDeviceRequirments<F>,
    surface_requirment: bool,
    limit: int,
    first: int,
    second: int,
)
    requires
        best_among(adapters, requirements, surface_requirment, limit, first),
        best_among(adapters, requirements, surface_requirment, limit, second),
    ensures
        first == second,
{
    assert(requirements.admits(&adapters[first], surface_requirment));
    assert(requirements.admits(&adapters[second], surface_requirment));
}

/// An adapter that lacks a required extension is never the pick, whatever
/// it scores.
pub proof fn lemma_missing_extension_excludes<F: Fn(&PhysicalAdapterInfo) -> bool>(
    adapters: Seq<PhysicalAdapterInfo>,
    requirements: &VKDeviceRequirments<F>,
    surface_requirment: bool,
    limit: int,
    index: int,
    missing: int,
)
    requires
        0 <= index < adapters.len(),
        0 <= missing < requirements.required_extentions.len(),
        !extension_listed(adapters[index].extensions@, requirements.required_extentions[missing]@),
    ensures
        !best_among(adapters, requirements, surface_requirment, limit, index),
{
}

/// The first suiting queue family is unique.
pub proof fn lemma_first_family_is_unique(
    families: Seq<QueueFamilyInfo>,
    required_flags: u32,
    surface_requirment: bool,
    first: int,
    second: int,
)
    requires
        first_suiting_family(families, required_flags, surface_requirment, first),
        first_suiting_family(families, required_flags, surface_requirment, second),
    ensures
        first == second,
{
}

} // verus!
