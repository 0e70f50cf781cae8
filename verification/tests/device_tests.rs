use vulkan_engine::device::{
    can_present, has_extension, is_hardware, physical_device_memory_size, score_physical_device,
    DeviceError, DeviceFeature, MemoryHeapInfo, PhysicalAdapterInfo, QueueFamilyInfo, VKDevice,
    VKDeviceRequirments,
};
use vulkan_engine::surface::{Extent2D, SurfaceCapabilities, SurfaceFormat, VKSwapchainCapabilities};

type Test = fn(&PhysicalAdapterInfo) -> bool;

const GIB: u64 = 1024 * 1024 * 1024;

fn adapter(handle: u64, device_type: i32, extensions: &[&str]) -> PhysicalAdapterInfo {
    PhysicalAdapterInfo {
        handle,
        device_name: format!("adapter {}", handle),
        device_type,
        extensions: extensions.iter().map(|name| name.to_string()).collect(),
        queue_families: vec![QueueFamilyInfo { queue_flags: 0x1, supports_surface: Ok(true) }],
        memory_heaps: vec![],
        geometry_shader: false,
        shader_float64: false,
        surface: None,
    }
}

fn swapchain_only() -> VKDeviceRequirments<Test> {
    VKDeviceRequirments::<Test>::default().add_queue_flag(0x1).push_ext("VK_KHR_swapchain")
}

fn surface(min_image_count: u32, present_modes: Vec<i32>) -> VKSwapchainCapabilities {
    VKSwapchainCapabilities {
        surface_capibilities: SurfaceCapabilities {
            min_image_count,
            max_image_count: 0,
            current_extent: Extent2D { width: 800, height: 600 },
            min_image_extent: Extent2D { width: 1, height: 1 },
            max_image_extent: Extent2D { width: 4096, height: 4096 },
            current_transform: 1,
        },
        surface_formats: vec![SurfaceFormat { format: 50, color_space: 0 }],
        present_modes,
    }
}

fn reject_all(_adapter: &PhysicalAdapterInfo) -> bool {
    false
}

fn accept_all(_adapter: &PhysicalAdapterInfo) -> bool {
    true
}

#[test]
fn builders_accumulate_requirements() {
    let requirements = VKDeviceRequirments::<Test>::default()
        .add_queue_flag(0x1)
        .add_queue_flag(0x4)
        .push_ext("VK_KHR_swapchain")
        .push_ext("VK_KHR_dynamic_rendering")
        .push_info(DeviceFeature::DynamicRendering)
        .push_fn(is_hardware)
        .push_fn(can_present);
    assert_eq!(requirements.required_queue_flags, 0x5);
    assert_eq!(
        requirements.get_requirments().to_vec(),
        vec!["VK_KHR_swapchain".to_string(), "VK_KHR_dynamic_rendering".to_string()]
    );
    assert_eq!(requirements.device_extended_info, vec![DeviceFeature::DynamicRendering]);
    assert_eq!(requirements.requirement_functions.len(), 2);
}

#[test]
fn default_requirements_are_empty() {
    let requirements = VKDeviceRequirments::<Test>::default();
    assert!(requirements.required_extentions.is_empty());
    assert!(requirements.device_extended_info.is_empty());
    assert!(requirements.requirement_functions.is_empty());
    assert_eq!(requirements.required_queue_flags, 0);
}

#[test]
fn engine_requirements_name_the_three_extensions() {
    let requirements = VKDevice::requirements::<Test>();
    assert_eq!(requirements.required_queue_flags, ash::vk::QueueFlags::GRAPHICS.as_raw());
    assert_eq!(
        requirements.required_extentions,
        vec![
            ash::khr::swapchain::NAME.to_str().unwrap().to_string(),
            ash::khr::dynamic_rendering::NAME.to_str().unwrap().to_string(),
            ash::khr::synchronization2::NAME.to_str().unwrap().to_string(),
        ]
    );
    assert_eq!(
        requirements.device_extended_info,
        vec![DeviceFeature::DynamicRendering, DeviceFeature::Synchronization2]
    );
    assert!(requirements.requirement_functions.is_empty());
}

#[test]
fn has_extension_finds_exact_names_only() {
    let names = vec!["VK_KHR_swapchain".to_string(), "VK_EXT_mesh_shader".to_string()];
    assert!(has_extension(&names, &"VK_EXT_mesh_shader".to_string()));
    assert!(!has_extension(&names, &"VK_EXT_mesh".to_string()));
    assert!(!has_extension(&vec![], &"VK_KHR_swapchain".to_string()));
}

#[test]
fn device_compat_needs_every_extension() {
    let requirements = swapchain_only().push_ext("VK_KHR_synchronization2");
    let full = adapter(1, 2, &["VK_KHR_synchronization2", "VK_KHR_swapchain", "VK_EXT_other"]);
    let partial = adapter(2, 2, &["VK_KHR_swapchain"]);
    assert!(requirements.device_compat(&full, true, None));
    assert!(!requirements.device_compat(&partial, true, None));
}

#[test]
fn device_compat_needs_flags_and_presentation_on_one_family() {
    let requirements = swapchain_only();
    let mut split = adapter(1, 2, &["VK_KHR_swapchain"]);
    split.queue_families = vec![
        QueueFamilyInfo { queue_flags: 0x1, supports_surface: Ok(false) },
        QueueFamilyInfo { queue_flags: 0x2, supports_surface: Ok(true) },
    ];
    let mut queue = 99;
    assert!(!requirements.device_compat(&split, true, Some(&mut queue)));
    assert_eq!(queue, 99);
    assert!(requirements.device_compat(&split, false, Some(&mut queue)));
    assert_eq!(queue, 0);
}

#[test]
fn device_compat_reports_the_first_suiting_family() {
    let requirements = swapchain_only();
    let mut device = adapter(1, 2, &["VK_KHR_swapchain"]);
    device.queue_families = vec![
        QueueFamilyInfo { queue_flags: 0x2, supports_surface: Ok(true) },
        QueueFamilyInfo { queue_flags: 0x4, supports_surface: Ok(true) },
        QueueFamilyInfo { queue_flags: 0x7, supports_surface: Ok(true) },
        QueueFamilyInfo { queue_flags: 0x1, supports_surface: Ok(true) },
    ];
    let mut queue = 99;
    assert!(requirements.device_compat(&device, true, Some(&mut queue)));
    assert_eq!(queue, 2);
    assert_eq!(requirements.suitable_queue(&device, true), Some(2));
}

#[test]
fn device_compat_writes_the_queue_even_when_incompatible() {
    let requirements = swapchain_only();
    let device = adapter(1, 2, &[]);
    let mut queue = 99;
    assert!(!requirements.device_compat(&device, true, Some(&mut queue)));
    assert_eq!(queue, 0);
}

#[test]
fn family_whose_surface_query_failed_cannot_present() {
    let requirements = swapchain_only();
    let mut device = adapter(1, 2, &["VK_KHR_swapchain"]);
    device.queue_families = vec![
        QueueFamilyInfo { queue_flags: 0x1, supports_surface: Err(-1000000000) },
        QueueFamilyInfo { queue_flags: 0x1, supports_surface: Ok(true) },
    ];
    assert_eq!(requirements.suitable_queue(&device, true), Some(1));
    assert_eq!(requirements.suitable_queue(&device, false), Some(0));
}

#[test]
fn device_plan_copies_the_requirements() {
    let requirements = VKDevice::requirements::<Test>();
    let plan = VKDevice::plan((20, 3), &requirements);
    assert_eq!(plan.p_device, 20);
    assert_eq!(plan.queue_family_index, 3);
    assert_eq!(plan.extension_names, requirements.required_extentions);
    assert_eq!(plan.extended_info, requirements.device_extended_info);
}

#[test]
fn device_destroy_waits_first() {
    let device = VKDevice { p_device: 80, queue_index: 2, graphics_queue: 81, device: 82 };
    assert_eq!(
        device.destroy(),
        vec![
            vulkan_engine::teardown::TeardownStep::WaitDeviceIdle,
            vulkan_engine::teardown::TeardownStep::DestroyDevice(82)
        ]
    );
}

#[test]
fn device_compat_without_families_fails() {
    let requirements = swapchain_only();
    let mut device = adapter(1, 2, &["VK_KHR_swapchain"]);
    device.queue_families = vec![];
    assert!(!requirements.device_compat(&device, false, None));
    assert_eq!(requirements.suitable_queue(&device, false), None);
}

#[test]
fn custom_tests_must_all_pass() {
    let device = adapter(1, 2, &["VK_KHR_swapchain"]);
    assert!(swapchain_only().device_compat(&device, true, None));
    assert!(swapchain_only().push_fn(accept_all).device_compat(&device, true, None));
    assert!(!swapchain_only().push_fn(reject_all).device_compat(&device, true, None));
    assert!(!swapchain_only()
        .push_fn(accept_all)
        .push_fn(reject_all)
        .device_compat(&device, true, None));
    assert!(!swapchain_only()
        .push_fn(reject_all)
        .push_fn(accept_all)
        .device_compat(&device, true, None));
}

#[test]
fn software_rasteriser_is_not_hardware() {
    let mut device = adapter(1, 4, &["VK_KHR_swapchain"]);
    device.device_name = "llvmpipe (LLVM 15.0.7, 256 bits)".to_string();
    assert!(!is_hardware(&device));
    device.device_name = "NVIDIA llvmpipe".to_string();
    assert!(is_hardware(&device));
    device.device_name = "llvmpip".to_string();
    assert!(is_hardware(&device));
    device.device_name = String::new();
    assert!(is_hardware(&device));
    let requirements = swapchain_only().push_fn(is_hardware);
    device.device_name = "llvmpipe".to_string();
    assert!(!requirements.device_compat(&device, true, None));
}

#[test]
fn can_present_reads_the_surface() {
    let mut device = adapter(1, 2, &[]);
    assert!(can_present(&device));
    device.surface = Some(surface(0, vec![]));
    assert!(!can_present(&device));
    device.surface = Some(surface(1, vec![]));
    assert!(can_present(&device));
    device.surface = Some(surface(0, vec![2]));
    assert!(can_present(&device));
}

#[test]
fn memory_size_counts_device_local_heaps_in_mib() {
    let mut device = adapter(1, 2, &[]);
    device.memory_heaps = vec![
        MemoryHeapInfo { size: 8 * GIB, flags: 0x1 },
        MemoryHeapInfo { size: 16 * GIB, flags: 0x0 },
        MemoryHeapInfo { size: 256 * 1024 * 1024 + 1024 * 1024 - 1, flags: 0x3 },
        MemoryHeapInfo { size: 1024 * 1024 - 1, flags: 0x1 },
        MemoryHeapInfo { size: 4 * GIB, flags: 0x2 },
    ];
    assert_eq!(physical_device_memory_size(&device), 8 * 1024 + 256);
    device.memory_heaps = vec![];
    assert_eq!(physical_device_memory_size(&device), 0);
}

#[test]
fn memory_size_saturates() {
    let mut device = adapter(1, 2, &[]);
    device.memory_heaps = vec![MemoryHeapInfo { size: u64::MAX, flags: 0x1 }; 16];
    assert_eq!(physical_device_memory_size(&device), 16 * (u64::MAX / (1024 * 1024)));
    device.memory_heaps = vec![MemoryHeapInfo { size: u64::MAX, flags: 0x1 }; 1 << 21];
    assert_eq!(physical_device_memory_size(&device), u64::MAX);
    assert_eq!(score_physical_device(&device), 100 + 64);
}

#[test]
fn score_adds_type_features_and_memory() {
    let mut device = adapter(1, 2, &[]);
    assert_eq!(score_physical_device(&device), 100);
    device.device_type = 1;
    assert_eq!(score_physical_device(&device), 50);
    device.device_type = 0;
    assert_eq!(score_physical_device(&device), 0);
    device.device_type = 3;
    assert_eq!(score_physical_device(&device), 0);
    device.extensions = vec![ash::ext::mesh_shader::NAME.to_str().unwrap().to_string()];
    assert_eq!(score_physical_device(&device), 10);
    device.queue_families.push(QueueFamilyInfo { queue_flags: 0x6, supports_surface: Ok(false) });
    assert_eq!(score_physical_device(&device), 20);
    device.geometry_shader = true;
    assert_eq!(score_physical_device(&device), 30);
    device.shader_float64 = true;
    assert_eq!(score_physical_device(&device), 35);
    device.memory_heaps = vec![MemoryHeapInfo { size: 8 * GIB, flags: 0x1 }];
    assert_eq!(score_physical_device(&device), 43);
    device.device_type = 2;
    assert_eq!(score_physical_device(&device), 143);
}

#[test]
fn score_caps_memory_at_sixty_four() {
    let mut device = adapter(1, 0, &[]);
    device.memory_heaps = vec![MemoryHeapInfo { size: 63 * GIB + GIB - 1, flags: 0x1 }];
    assert_eq!(score_physical_device(&device), 63);
    device.memory_heaps = vec![MemoryHeapInfo { size: 64 * GIB, flags: 0x1 }];
    assert_eq!(score_physical_device(&device), 64);
    device.memory_heaps = vec![MemoryHeapInfo { size: 512 * GIB, flags: 0x1 }];
    assert_eq!(score_physical_device(&device), 64);
    device.memory_heaps = vec![MemoryHeapInfo { size: GIB - 1, flags: 0x1 }];
    assert_eq!(score_physical_device(&device), 0);
}

#[test]
fn filtered_adapter_never_wins() {
    let integrated = adapter(10, 1, &["VK_KHR_swapchain"]);
    let discrete = adapter(20, 2, &["VK_EXT_mesh_shader"]);
    let picked = VKDevice::pick_device(&vec![integrated, discrete], &swapchain_only(), true);
    assert_eq!(picked, Ok((10, 0)));
    let integrated = adapter(10, 1, &["VK_KHR_swapchain"]);
    let discrete = adapter(20, 2, &["VK_EXT_mesh_shader"]);
    let picked = VKDevice::pick_device(&vec![discrete, integrated], &swapchain_only(), true);
    assert_eq!(picked, Ok((10, 0)));
}

#[test]
fn discrete_beats_integrated_with_extra_feature() {
    let discrete = adapter(20, 2, &["VK_KHR_swapchain"]);
    let integrated = adapter(10, 1, &["VK_KHR_swapchain", "VK_EXT_mesh_shader"]);
    assert_eq!(score_physical_device(&discrete), 100);
    assert_eq!(score_physical_device(&integrated), 60);
    let picked = VKDevice::pick_device(&vec![discrete, integrated], &swapchain_only(), true);
    assert_eq!(picked, Ok((20, 0)));
    let discrete = adapter(20, 2, &["VK_KHR_swapchain"]);
    let integrated = adapter(10, 1, &["VK_KHR_swapchain", "VK_EXT_mesh_shader"]);
    let picked = VKDevice::pick_device(&vec![integrated, discrete], &swapchain_only(), true);
    assert_eq!(picked, Ok((20, 0)));
}

#[test]
fn pick_device_takes_the_last_of_equal_scores() {
    let adapters = vec![
        adapter(1, 2, &["VK_KHR_swapchain"]),
        adapter(2, 1, &["VK_KHR_swapchain"]),
        adapter(3, 2, &["VK_KHR_swapchain"]),
        adapter(4, 2, &[]),
        adapter(5, 0, &["VK_KHR_swapchain"]),
    ];
    assert_eq!(VKDevice::pick_device(&adapters, &swapchain_only(), true), Ok((3, 0)));
}

#[test]
fn pick_device_returns_the_queue_of_the_pick() {
    let mut first = adapter(1, 1, &["VK_KHR_swapchain"]);
    first.queue_families = vec![
        QueueFamilyInfo { queue_flags: 0x2, supports_surface: Ok(true) },
        QueueFamilyInfo { queue_flags: 0x1, supports_surface: Ok(true) },
    ];
    let mut second = adapter(2, 2, &["VK_KHR_swapchain"]);
    second.queue_families = vec![
        QueueFamilyInfo { queue_flags: 0x4, supports_surface: Ok(true) },
        QueueFamilyInfo { queue_flags: 0x1, supports_surface: Ok(false) },
        QueueFamilyInfo { queue_flags: 0x3, supports_surface: Ok(true) },
    ];
    let mut third = adapter(3, 0, &["VK_KHR_swapchain"]);
    third.queue_families = vec![QueueFamilyInfo { queue_flags: 0x1, supports_surface: Ok(true) }];
    let adapters = vec![first, second, third];
    assert_eq!(VKDevice::pick_device(&adapters, &swapchain_only(), true), Ok((2, 2)));
    assert_eq!(VKDevice::pick_device(&adapters, &swapchain_only(), false), Ok((2, 1)));
}

#[test]
fn pick_device_fails_without_a_suitable_adapter() {
    let adapters = vec![adapter(1, 2, &[]), adapter(2, 1, &["VK_KHR_surface"])];
    assert_eq!(
        VKDevice::pick_device(&adapters, &swapchain_only(), true),
        Err(DeviceError::NoSuitableDevice)
    );
    assert_eq!(
        VKDevice::pick_device(&vec![], &swapchain_only(), true),
        Err(DeviceError::NoSuitableDevice)
    );
    let adapters = vec![adapter(1, 2, &["VK_KHR_swapchain"])];
    assert_eq!(
        VKDevice::pick_device(&adapters, &swapchain_only().push_fn(reject_all), true),
        Err(DeviceError::NoSuitableDevice)
    );
}

#[test]
fn pick_device_skips_the_software_rasteriser() {
    let mut software = adapter(1, 2, &["VK_KHR_swapchain"]);
    software.device_name = "llvmpipe (LLVM 17)".to_string();
    let hardware = adapter(2, 1, &["VK_KHR_swapchain"]);
    let requirements = swapchain_only().push_fn(is_hardware).push_fn(can_present);
    assert_eq!(VKDevice::pick_device(&vec![software, hardware], &requirements, true), Ok((2, 0)));
}
