use ash::vk;
use ash::vk::Handle;
use vulkan_engine::renderer::VKInstance;
use vulkan_engine::utils::GameInfo;
use vulkan_engine::vulkan::{
    ACCESS_COLOR_ATTACHMENT_WRITE, ACCESS_MEMORY_READ, COMMAND_BUFFER_LEVEL_PRIMARY,
    COMMAND_POOL_RESET_COMMAND_BUFFER, COMPONENT_SWIZZLE_IDENTITY, COMPOSITE_ALPHA_OPAQUE,
    DEVICE_TYPE_DISCRETE_GPU, DEVICE_TYPE_INTEGRATED_GPU, FORMAT_B8G8R8A8_SRGB,
    IMAGE_ASPECT_COLOR, IMAGE_LAYOUT_COLOR_ATTACHMENT_OPTIMAL, IMAGE_LAYOUT_PRESENT_SRC,
    IMAGE_LAYOUT_UNDEFINED, IMAGE_USAGE_COLOR_ATTACHMENT, IMAGE_VIEW_TYPE_2D,
    MEMORY_HEAP_DEVICE_LOCAL, NULL_HANDLE, PIPELINE_STAGE_ALL_COMMANDS,
    PIPELINE_STAGE_COLOR_ATTACHMENT_OUTPUT, PRESENT_MODE_FIFO, PRESENT_MODE_MAILBOX,
    QUEUE_COMPUTE, QUEUE_GRAPHICS, RESULT_ERROR_OUT_OF_DATE, RESULT_ERROR_OUT_OF_DEVICE_MEMORY,
    RESULT_ERROR_OUT_OF_HOST_MEMORY, RESULT_ERROR_SURFACE_LOST, RESULT_SUBOPTIMAL, RESULT_SUCCESS,
    SHARING_MODE_EXCLUSIVE,
};

#[test]
fn flag_values_are_those_of_the_bindings() {
    assert_eq!(QUEUE_GRAPHICS, vk::QueueFlags::GRAPHICS.as_raw());
    assert_eq!(QUEUE_COMPUTE, vk::QueueFlags::COMPUTE.as_raw());
    assert_eq!(MEMORY_HEAP_DEVICE_LOCAL, vk::MemoryHeapFlags::DEVICE_LOCAL.as_raw());
    assert_eq!(IMAGE_USAGE_COLOR_ATTACHMENT, vk::ImageUsageFlags::COLOR_ATTACHMENT.as_raw());
    assert_eq!(COMPOSITE_ALPHA_OPAQUE, vk::CompositeAlphaFlagsKHR::OPAQUE.as_raw());
    assert_eq!(IMAGE_ASPECT_COLOR, vk::ImageAspectFlags::COLOR.as_raw());
    assert_eq!(
        COMMAND_POOL_RESET_COMMAND_BUFFER,
        vk::CommandPoolCreateFlags::RESET_COMMAND_BUFFER.as_raw()
    );
    assert_eq!(
        PIPELINE_STAGE_COLOR_ATTACHMENT_OUTPUT,
        vk::PipelineStageFlags2::COLOR_ATTACHMENT_OUTPUT.as_raw()
    );
    assert_eq!(PIPELINE_STAGE_ALL_COMMANDS, vk::PipelineStageFlags2::ALL_COMMANDS.as_raw());
    assert_eq!(ACCESS_COLOR_ATTACHMENT_WRITE, vk::AccessFlags2::COLOR_ATTACHMENT_WRITE.as_raw());
    assert_eq!(ACCESS_MEMORY_READ, vk::AccessFlags2::MEMORY_READ.as_raw());
}

#[test]
fn enumerant_values_are_those_of_the_bindings() {
    assert_eq!(DEVICE_TYPE_INTEGRATED_GPU, vk::PhysicalDeviceType::INTEGRATED_GPU.as_raw());
    assert_eq!(DEVICE_TYPE_DISCRETE_GPU, vk::PhysicalDeviceType::DISCRETE_GPU.as_raw());
    assert_eq!(PRESENT_MODE_MAILBOX, vk::PresentModeKHR::MAILBOX.as_raw());
    assert_eq!(PRESENT_MODE_FIFO, vk::PresentModeKHR::FIFO.as_raw());
    assert_eq!(FORMAT_B8G8R8A8_SRGB, vk::Format::B8G8R8A8_SRGB.as_raw());
    assert_eq!(SHARING_MODE_EXCLUSIVE, vk::SharingMode::EXCLUSIVE.as_raw());
    assert_eq!(IMAGE_VIEW_TYPE_2D, vk::ImageViewType::TYPE_2D.as_raw());
    assert_eq!(COMPONENT_SWIZZLE_IDENTITY, vk::ComponentSwizzle::IDENTITY.as_raw());
    assert_eq!(IMAGE_LAYOUT_UNDEFINED, vk::ImageLayout::UNDEFINED.as_raw());
    assert_eq!(
        IMAGE_LAYOUT_COLOR_ATTACHMENT_OPTIMAL,
        vk::ImageLayout::COLOR_ATTACHMENT_OPTIMAL.as_raw()
    );
    assert_eq!(IMAGE_LAYOUT_PRESENT_SRC, vk::ImageLayout::PRESENT_SRC_KHR.as_raw());
    assert_eq!(COMMAND_BUFFER_LEVEL_PRIMARY, vk::CommandBufferLevel::PRIMARY.as_raw());
}

#[test]
fn result_codes_are_those_of_the_bindings() {
    assert_eq!(RESULT_SUCCESS, vk::Result::SUCCESS.as_raw());
    assert_eq!(RESULT_SUBOPTIMAL, vk::Result::SUBOPTIMAL_KHR.as_raw());
    assert_eq!(RESULT_ERROR_OUT_OF_DATE, vk::Result::ERROR_OUT_OF_DATE_KHR.as_raw());
    assert_eq!(RESULT_ERROR_SURFACE_LOST, vk::Result::ERROR_SURFACE_LOST_KHR.as_raw());
    assert_eq!(RESULT_ERROR_OUT_OF_HOST_MEMORY, vk::Result::ERROR_OUT_OF_HOST_MEMORY.as_raw());
    assert_eq!(
        RESULT_ERROR_OUT_OF_DEVICE_MEMORY,
        vk::Result::ERROR_OUT_OF_DEVICE_MEMORY.as_raw()
    );
}

#[test]
fn null_handle_is_that_of_the_bindings() {
    assert_eq!(NULL_HANDLE, vk::Fence::null().as_raw());
    assert_eq!(NULL_HANDLE, vk::Semaphore::null().as_raw());
}

#[test]
fn instance_plan_packs_versions() {
    let info = GameInfo { app_name: "Test".to_string(), major: 1, minor: 2, patch: 3 };
    let plan = VKInstance::plan(&info, None);
    assert_eq!(plan.api_version, 0x0040_3000);
    assert_eq!(plan.api_version, vk::API_VERSION_1_3);
    assert_eq!(plan.application_version, (1 << 22) | (2 << 12) | 3);
    assert_eq!(plan.engine_version, 1 << 12);
    assert_eq!(plan.application_name, "Test");
    assert_eq!(plan.engine_name, "Alcor");
    assert!(plan.extension_names.is_empty());
}

#[test]
fn instance_plan_keeps_extensions() {
    let info = GameInfo::default();
    let names = vec!["VK_KHR_surface".to_string(), "VK_KHR_xcb_surface".to_string()];
    let plan = VKInstance::plan(&info, Some(names.clone()));
    assert_eq!(plan.extension_names, names);
    assert_eq!(plan.application_version, 0);
    assert_eq!(plan.application_name, "");
}

#[test]
fn game_info_default_is_empty() {
    let info = GameInfo::default();
    assert_eq!(info.app_name, "");
    assert_eq!((info.major, info.minor, info.patch), (0, 0, 0));
}
