use vulkan_engine::surface::{
    BuildAction, BuildEvent, BuildPhase, Extent2D, ImageViewPlan, SurfaceCapabilities,
    SurfaceFormat, SwapchainBuilder, SwapchainError, VKSurface, VKSwapchain,
    VKSwapchainCapabilities,
};
use vulkan_engine::teardown::TeardownStep;

fn caps_with(min: u32, max: u32, current_width: u32) -> VKSwapchainCapabilities {
    VKSwapchainCapabilities {
        surface_capibilities: SurfaceCapabilities {
            min_image_count: min,
            max_image_count: max,
            current_extent: Extent2D { width: current_width, height: 600 },
            min_image_extent: Extent2D { width: 100, height: 50 },
            max_image_extent: Extent2D { width: 4096, height: 2048 },
            current_transform: 1,
        },
        surface_formats: vec![
            SurfaceFormat { format: 44, color_space: 0 },
            SurfaceFormat { format: 50, color_space: 0 },
            SurfaceFormat { format: 50, color_space: 7 },
        ],
        present_modes: vec![2, 0, 1],
    }
}

fn chain(handle: u64, images: Vec<u64>, views: Vec<u64>) -> VKSwapchain {
    VKSwapchain {
        swapchain: handle,
        image_views: views,
        images,
        capibilities: caps_with(2, 0, 800),
        image_extent: Extent2D { width: 800, height: 600 },
    }
}

#[test]
fn ideal_n_images_prefers_three() {
    assert_eq!(caps_with(1, 0, 800).ideal_n_images(), 3);
    assert_eq!(caps_with(2, 8, 800).ideal_n_images(), 3);
    assert_eq!(caps_with(3, 3, 800).ideal_n_images(), 3);
    assert_eq!(caps_with(0, 0, 800).ideal_n_images(), 3);
}

#[test]
fn ideal_n_images_falls_back_to_two() {
    assert_eq!(caps_with(1, 2, 800).ideal_n_images(), 2);
    assert_eq!(caps_with(2, 2, 800).ideal_n_images(), 2);
}

#[test]
fn ideal_n_images_is_minimum_when_max_below_two() {
    assert_eq!(caps_with(1, 1, 800).ideal_n_images(), 1);
    assert_eq!(caps_with(0, 1, 800).ideal_n_images(), 0);
}

#[test]
fn ideal_n_images_is_minimum_when_min_above_three() {
    assert_eq!(caps_with(4, 0, 800).ideal_n_images(), 4);
    assert_eq!(caps_with(5, 8, 800).ideal_n_images(), 5);
}

#[test]
fn ideal_present_mode_prefers_mailbox() {
    assert_eq!(caps_with(2, 0, 800).ideal_present_mode(), 1);
    let mut caps = caps_with(2, 0, 800);
    caps.present_modes = vec![0, 2, 3];
    assert_eq!(caps.ideal_present_mode(), 2);
    caps.present_modes = vec![];
    assert_eq!(caps.ideal_present_mode(), 2);
}

#[test]
fn ideal_surface_format_takes_first_srgb() {
    assert_eq!(
        caps_with(2, 0, 800).ideal_surface_format(),
        SurfaceFormat { format: 50, color_space: 0 }
    );
}

#[test]
fn ideal_surface_format_falls_back_to_first() {
    let mut caps = caps_with(2, 0, 800);
    caps.surface_formats =
        vec![SurfaceFormat { format: 37, color_space: 1 }, SurfaceFormat { format: 44, color_space: 0 }];
    assert_eq!(caps.ideal_surface_format(), SurfaceFormat { format: 37, color_space: 1 });
}

#[test]
fn get_extent_returns_current_extent_when_sentinel_set() {
    let caps = caps_with(2, 0, u32::MAX);
    assert_eq!(caps.get_extent(800, 600), Extent2D { width: u32::MAX, height: 600 });
    assert_eq!(caps.get_extent(1, 1), Extent2D { width: u32::MAX, height: 600 });
    assert_eq!(caps.get_extent(9999, 9999), Extent2D { width: u32::MAX, height: 600 });
}

#[test]
fn get_extent_clamps_each_axis() {
    let caps = caps_with(2, 0, 800);
    assert_eq!(caps.get_extent(800, 600), Extent2D { width: 800, height: 600 });
    assert_eq!(caps.get_extent(10, 10), Extent2D { width: 100, height: 50 });
    assert_eq!(caps.get_extent(10000, 10000), Extent2D { width: 4096, height: 2048 });
    assert_eq!(caps.get_extent(10, 10000), Extent2D { width: 100, height: 2048 });
    assert_eq!(caps.get_extent(100, 2048), Extent2D { width: 100, height: 2048 });
}

#[test]
fn get_extent_with_crossed_bounds_takes_the_lower_bound() {
    let mut caps = caps_with(2, 0, 800);
    caps.surface_capibilities.min_image_extent = Extent2D { width: 500, height: 500 };
    caps.surface_capibilities.max_image_extent = Extent2D { width: 400, height: 400 };
    assert_eq!(caps.get_extent(450, 100), Extent2D { width: 500, height: 500 });
    assert_eq!(caps.get_extent(600, 450), Extent2D { width: 400, height: 500 });
}

#[test]
fn plan_holds_the_ideal_choices() {
    let caps = caps_with(2, 0, 800);
    let plan = VKSwapchain::plan(77, &caps, 1024, 768, 5);
    assert_eq!(plan.surface, 77);
    assert_eq!(plan.min_image_count, 3);
    assert_eq!(plan.image_format, 50);
    assert_eq!(plan.image_color_space, 0);
    assert_eq!(plan.image_extent, Extent2D { width: 1024, height: 768 });
    assert_eq!(plan.image_array_layers, 1);
    assert_eq!(plan.image_usage, 0x10);
    assert_eq!(plan.image_sharing_mode, 0);
    assert_eq!(plan.pre_transform, 1);
    assert_eq!(plan.composite_alpha, 1);
    assert_eq!(plan.present_mode, 1);
    assert!(plan.clipped);
    assert_eq!(plan.old_swapchain, 5);
}

#[test]
fn create_image_views_plans_one_view_per_image() {
    let plans = VKSwapchain::create_image_views(&vec![11, 12, 13], 50);
    assert_eq!(plans.len(), 3);
    assert_eq!(
        plans[1],
        ImageViewPlan {
            image: 12,
            view_type: 1,
            format: 50,
            swizzle: 0,
            aspect_mask: 1,
            base_mip_level: 0,
            level_count: 1,
            base_array_layer: 0,
            layer_count: 1,
        }
    );
    assert_eq!(plans[0].image, 11);
    assert_eq!(plans[2].image, 13);
    assert!(VKSwapchain::create_image_views(&vec![], 50).is_empty());
}

fn build(images: Vec<u64>) -> (SwapchainBuilder, Vec<BuildAction>) {
    let (mut builder, first) = VKSwapchain::new(77, 1024, 768, 5);
    let mut actions = vec![first];
    actions.push(builder.advance(BuildEvent::Capabilities(Ok(caps_with(2, 0, 800)))));
    actions.push(builder.advance(BuildEvent::Created(Ok(9))));
    let mut action = builder.advance(BuildEvent::Images(Ok(images)));
    actions.push(action);
    while let BuildAction::CreateImageView(plan) = action {
        action = builder.advance(BuildEvent::View(Ok(plan.image + 20)));
        actions.push(action);
    }
    (builder, actions)
}

#[test]
fn build_goes_capabilities_swapchain_images_views() {
    let (builder, actions) = build(vec![1, 2, 3]);
    let plan = VKSwapchain::plan(77, &caps_with(2, 0, 800), 1024, 768, 5);
    assert_eq!(
        actions,
        vec![
            BuildAction::QueryCapabilities { surface: 77 },
            BuildAction::CreateSwapchain(plan),
            BuildAction::GetImages { swapchain: 9 },
            BuildAction::CreateImageView(VKSwapchain::image_view(1, 50)),
            BuildAction::CreateImageView(VKSwapchain::image_view(2, 50)),
            BuildAction::CreateImageView(VKSwapchain::image_view(3, 50)),
            BuildAction::Done,
        ]
    );
    assert_eq!(builder.phase(), BuildPhase::Done);
    let chain = builder.finish().unwrap();
    assert_eq!(chain.swapchain, 9);
    assert_eq!(chain.images, vec![1, 2, 3]);
    assert_eq!(chain.image_views, vec![21, 22, 23]);
    assert_eq!(chain.image_extent, Extent2D { width: 1024, height: 768 });
    assert_eq!(chain.images.len() as u32, chain.capibilities.ideal_n_images());
    assert_eq!(chain.image_views.len(), chain.images.len());
}

#[test]
fn build_without_images_is_done_at_once() {
    let (builder, actions) = build(vec![]);
    assert_eq!(actions.last(), Some(&BuildAction::Done));
    assert_eq!(actions.len(), 4);
    let chain = builder.finish().unwrap();
    assert!(chain.images.is_empty());
    assert!(chain.image_views.is_empty());
}

#[test]
fn build_keeps_more_images_than_asked_for() {
    let (builder, _) = build(vec![1, 2, 3, 4]);
    let chain = builder.finish().unwrap();
    assert_eq!(chain.images.len(), 4);
    assert_eq!(chain.image_views, vec![21, 22, 23, 24]);
}

#[test]
fn build_fails_with_the_first_error() {
    let (mut builder, _) = VKSwapchain::new(77, 1024, 768, 0);
    assert_eq!(
        builder.advance(BuildEvent::Capabilities(Err(-1000000000))),
        BuildAction::Fail(SwapchainError::SurfaceLost)
    );
    assert_eq!(builder.phase(), BuildPhase::Failed);
    assert!(builder.leftovers().is_empty());
    assert_eq!(builder.finish().err(), Some(SwapchainError::SurfaceLost));

    let (mut builder, _) = VKSwapchain::new(77, 1024, 768, 0);
    builder.advance(BuildEvent::Capabilities(Ok(caps_with(2, 0, 800))));
    assert_eq!(
        builder.advance(BuildEvent::Created(Err(-2))),
        BuildAction::Fail(SwapchainError::OutOfMemory)
    );
    assert!(builder.leftovers().is_empty());

    let (mut builder, _) = VKSwapchain::new(77, 1024, 768, 0);
    builder.advance(BuildEvent::Capabilities(Ok(caps_with(2, 0, 800))));
    builder.advance(BuildEvent::Created(Ok(9)));
    assert_eq!(
        builder.advance(BuildEvent::Images(Err(-1))),
        BuildAction::Fail(SwapchainError::OutOfMemory)
    );
    assert_eq!(builder.leftovers(), vec![TeardownStep::DestroySwapchain(9)]);

    let (mut builder, _) = VKSwapchain::new(77, 1024, 768, 0);
    builder.advance(BuildEvent::Capabilities(Ok(caps_with(2, 0, 800))));
    builder.advance(BuildEvent::Created(Ok(9)));
    builder.advance(BuildEvent::Images(Ok(vec![1, 2, 3])));
    builder.advance(BuildEvent::View(Ok(21)));
    assert_eq!(
        builder.advance(BuildEvent::View(Err(-4))),
        BuildAction::Fail(SwapchainError::Driver(-4))
    );
    assert_eq!(
        builder.leftovers(),
        vec![TeardownStep::DestroyImageView(21), TeardownStep::DestroySwapchain(9)]
    );
    assert_eq!(builder.finish().err(), Some(SwapchainError::Driver(-4)));
}

#[test]
fn build_fails_without_a_format() {
    let (mut builder, _) = VKSwapchain::new(77, 1024, 768, 0);
    let mut caps = caps_with(2, 0, 800);
    caps.surface_formats = vec![];
    assert_eq!(
        builder.advance(BuildEvent::Capabilities(Ok(caps))),
        BuildAction::Fail(SwapchainError::NoFormat)
    );
}

#[test]
fn build_answers_out_of_turn_fail() {
    let (mut builder, _) = VKSwapchain::new(77, 1024, 768, 0);
    assert_eq!(
        builder.advance(BuildEvent::Created(Ok(9))),
        BuildAction::Fail(SwapchainError::OutOfTurn)
    );
    let (builder, _) = VKSwapchain::new(77, 1024, 768, 0);
    assert_eq!(builder.finish().err(), Some(SwapchainError::OutOfTurn));
    let (mut builder, _) = build(vec![1]);
    assert_eq!(
        builder.advance(BuildEvent::View(Ok(30))),
        BuildAction::Fail(SwapchainError::OutOfTurn)
    );
    assert_eq!(
        builder.leftovers(),
        vec![TeardownStep::DestroyImageView(21), TeardownStep::DestroySwapchain(9)]
    );
}

#[test]
fn swapchain_error_from_result_classifies() {
    assert_eq!(SwapchainError::from_result(-1000000000), SwapchainError::SurfaceLost);
    assert_eq!(SwapchainError::from_result(-1), SwapchainError::OutOfMemory);
    assert_eq!(SwapchainError::from_result(-2), SwapchainError::OutOfMemory);
    assert_eq!(SwapchainError::from_result(-3), SwapchainError::Driver(-3));
}

#[test]
fn destroy_releases_views_before_swapchain() {
    let steps = chain(9, vec![1, 2], vec![21, 22]).destroy();
    assert_eq!(
        steps,
        vec![
            TeardownStep::DestroyImageView(21),
            TeardownStep::DestroyImageView(22),
            TeardownStep::DestroySwapchain(9),
        ]
    );
}

#[test]
fn rebuild_swaps_in_the_replacement_and_releases_the_old() {
    let old = chain(8, vec![1, 2], vec![21, 22]);
    let wanted = caps_with(2, 0, 800).ideal_n_images();
    let (builder, _) = build(vec![4, 5, 6]);
    let outcome = old.rebuild_swapchain(builder.finish());
    assert!(outcome.rebuilt);
    assert_eq!(outcome.current.swapchain, 9);
    assert_eq!(outcome.current.images.len(), wanted as usize);
    assert_eq!(outcome.current.image_views.len(), outcome.current.images.len());
    assert_eq!(
        outcome.teardown,
        vec![
            TeardownStep::DestroyImageView(21),
            TeardownStep::DestroyImageView(22),
            TeardownStep::DestroySwapchain(8),
        ]
    );
}

#[test]
fn surface_destroy_names_the_surface() {
    assert_eq!(VKSurface { surface: 70 }.destroy(), TeardownStep::DestroySurface(70));
}

#[test]
fn failed_rebuild_keeps_the_old_swapchain() {
    let old = chain(9, vec![1, 2], vec![21, 22]);
    let outcome = old.rebuild_swapchain(Err(SwapchainError::OutOfMemory));
    assert!(!outcome.rebuilt);
    assert_eq!(outcome.current.swapchain, 9);
    assert_eq!(outcome.current.images, vec![1, 2]);
    assert_eq!(outcome.current.image_views, vec![21, 22]);
    assert!(outcome.teardown.is_empty());
}
