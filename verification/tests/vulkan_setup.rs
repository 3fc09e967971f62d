use ac_mini_model_viewer::graphics::vulkan::{
    Extent2D, ImageViewConfig, RenderPassConfig, QueueFamilyIndices, SurfaceCapabilities, SurfaceFormat, SwapChainSupportDetails, VulkanGraphics,
};
use ac_mini_model_viewer::graphics::GraphicsError;

fn message(e: &GraphicsError) -> String {
    match e {
        GraphicsError::VulkanError(s) => s.clone(),
    }
}

fn strings(names: &[&str]) -> Vec<String> {
    names.iter().map(|s| s.to_string()).collect()
}

fn capabilities(min: u32, max: u32, current: (u32, u32)) -> SurfaceCapabilities {
    SurfaceCapabilities {
        min_image_count: min,
        max_image_count: max,
        current_extent: Extent2D { width: current.0, height: current.1 },
        min_image_extent: Extent2D { width: 100, height: 50 },
        max_image_extent: Extent2D { width: 1920, height: 1080 },
        current_transform: 1,
    }
}

#[test]
fn queue_families_are_the_first_that_qualify() {
    // Flags: compute only, graphics|compute, graphics.
    let flags = vec![0b10u32, 0b11, 0b1];
    let present = vec![false, false, true];
    let indices = VulkanGraphics::find_queue_family_indice(&flags, &present);
    assert_eq!(indices.graphics_family, Some(1));
    assert_eq!(indices.present_family, Some(2));
    assert!(indices.is_complete());
}

#[test]
fn queue_families_missing_present_are_incomplete() {
    let indices = VulkanGraphics::find_queue_family_indice(&vec![1u32], &vec![false]);
    assert_eq!(indices.graphics_family, Some(0));
    assert_eq!(indices.present_family, None);
    assert!(!indices.is_complete());
}

#[test]
fn queue_families_of_no_families_are_empty() {
    let indices = VulkanGraphics::find_queue_family_indice(&vec![], &vec![]);
    assert_eq!(indices, QueueFamilyIndices { graphics_family: None, present_family: None });
}

#[test]
fn format_prefers_bgra_srgb() {
    let formats = vec![
        SurfaceFormat { format: 44, color_space: 0 },
        SurfaceFormat { format: 50, color_space: 1 },
        SurfaceFormat { format: 50, color_space: 0 },
    ];
    assert_eq!(VulkanGraphics::choose_swap_chain_format(&formats), SurfaceFormat { format: 50, color_space: 0 });
}

#[test]
fn format_falls_back_to_the_first() {
    let formats = vec![SurfaceFormat { format: 44, color_space: 0 }, SurfaceFormat { format: 50, color_space: 7 }];
    assert_eq!(VulkanGraphics::choose_swap_chain_format(&formats), SurfaceFormat { format: 44, color_space: 0 });
}

#[test]
fn present_mode_prefers_mailbox() {
    assert_eq!(VulkanGraphics::choose_swap_chain_present_mode(&vec![0, 2, 1]), 1);
}

#[test]
fn present_mode_falls_back_to_fifo() {
    assert_eq!(VulkanGraphics::choose_swap_chain_present_mode(&vec![0, 3]), 2);
    assert_eq!(VulkanGraphics::choose_swap_chain_present_mode(&vec![]), 2);
}

#[test]
fn extent_is_the_current_one_when_set() {
    let caps = capabilities(2, 8, (640, 480));
    assert_eq!(VulkanGraphics::choose_swap_chain_extent(&caps, 800, 600), Extent2D { width: 640, height: 480 });
}

#[test]
fn extent_is_the_window_size_clamped() {
    let caps = capabilities(2, 8, (u32::MAX, u32::MAX));
    assert_eq!(VulkanGraphics::choose_swap_chain_extent(&caps, 800, 600), Extent2D { width: 800, height: 600 });
    assert_eq!(VulkanGraphics::choose_swap_chain_extent(&caps, 4000, 10), Extent2D { width: 1920, height: 50 });
}

#[test]
fn image_count_is_one_more_than_minimum_capped_by_maximum() {
    assert_eq!(VulkanGraphics::swap_chain_image_count(&capabilities(2, 8, (1, 1))), 3);
    assert_eq!(VulkanGraphics::swap_chain_image_count(&capabilities(3, 3, (1, 1))), 3);
    assert_eq!(VulkanGraphics::swap_chain_image_count(&capabilities(3, 0, (1, 1))), 4);
}

#[test]
fn extension_support_needs_every_required_name() {
    let available = strings(&["VK_KHR_swapchain", "VK_EXT_other"]);
    assert!(VulkanGraphics::check_device_extension_support(&available, &strings(&["VK_KHR_swapchain"])));
    assert!(VulkanGraphics::check_device_extension_support(&available, &vec![]));
    assert!(!VulkanGraphics::check_device_extension_support(
        &available,
        &strings(&["VK_KHR_swapchain", "VK_KHR_portability_subset"])
    ));
}

#[test]
fn device_extensions_name_the_swap_chain() {
    assert_eq!(VulkanGraphics::get_device_extensions(false), strings(&["VK_KHR_swapchain"]));
    assert_eq!(
        VulkanGraphics::get_device_extensions(true),
        strings(&["VK_KHR_swapchain", "VK_KHR_portability_subset"])
    );
}

#[test]
fn instance_extensions_follow_the_window_system() {
    let window = strings(&["VK_KHR_surface", "VK_KHR_xlib_surface"]);
    assert_eq!(
        VulkanGraphics::get_instance_extensions(window.clone(), false),
        strings(&["VK_KHR_surface", "VK_KHR_xlib_surface", "VK_EXT_debug_utils", "VK_KHR_get_physical_device_properties2"])
    );
    assert_eq!(
        VulkanGraphics::get_instance_extensions(window, true),
        strings(&[
            "VK_KHR_surface",
            "VK_KHR_xlib_surface",
            "VK_KHR_portability_enumeration",
            "VK_EXT_debug_utils",
            "VK_KHR_get_physical_device_properties2"
        ])
    );
}

#[test]
fn instance_flags_and_api_version() {
    assert_eq!(VulkanGraphics::get_instance_features_flags(false), 0);
    assert_eq!(VulkanGraphics::get_instance_features_flags(true), 1);
    assert_eq!(VulkanGraphics::instance_api_version(), 4194304);
}

fn details(formats: usize, modes: usize) -> SwapChainSupportDetails {
    SwapChainSupportDetails {
        capabilities: capabilities(2, 8, (640, 480)),
        formats: vec![SurfaceFormat { format: 44, color_space: 0 }; formats],
        present_modes: vec![2; modes],
    }
}

#[test]
fn device_suitability_needs_every_condition() {
    let complete = QueueFamilyIndices { graphics_family: Some(0), present_family: Some(1) };
    let incomplete = QueueFamilyIndices { graphics_family: Some(0), present_family: None };
    assert!(VulkanGraphics::is_device_suitable(&complete, true, &Some(details(1, 1))));
    assert!(!VulkanGraphics::is_device_suitable(&incomplete, true, &Some(details(1, 1))));
    assert!(!VulkanGraphics::is_device_suitable(&complete, false, &Some(details(1, 1))));
    assert!(!VulkanGraphics::is_device_suitable(&complete, true, &None));
    assert!(!VulkanGraphics::is_device_suitable(&complete, true, &Some(details(0, 1))));
    assert!(!VulkanGraphics::is_device_suitable(&complete, true, &Some(details(1, 0))));
}

#[test]
fn pick_takes_the_first_suitable_device() {
    let mut graphics = VulkanGraphics::default();
    assert!(graphics.pick_physical_device(&vec![10, 20, 30], &vec![false, true, true]).is_ok());
    assert_eq!(graphics.physical_device, Some(20));
}

#[test]
fn pick_accepts_a_search_that_stopped_at_the_first_suitable_device() {
    let mut graphics = VulkanGraphics::default();
    assert!(graphics.pick_physical_device(&vec![10, 20, 30], &vec![false, true]).is_ok());
    assert_eq!(graphics.physical_device, Some(20));
}

#[test]
fn present_family_from_a_search_that_stopped_early() {
    let indices = VulkanGraphics::find_queue_family_indice(&vec![1, 1, 1], &vec![false, true]);
    assert_eq!(indices.present_family, Some(1));
    assert_eq!(indices.graphics_family, Some(0));
}

#[test]
fn render_pass_has_one_presentable_color_attachment() {
    let mut graphics = VulkanGraphics::default();
    graphics.swap_chain_format = Some(SurfaceFormat { format: 50, color_space: 0 });
    assert_eq!(
        graphics.render_pass_config(),
        RenderPassConfig {
            format: 50,
            samples: 1,
            load_op: 1,
            store_op: 0,
            stencil_load_op: 2,
            stencil_store_op: 1,
            initial_layout: 0,
            final_layout: 1000001002,
            color_attachment: 0,
            color_attachment_layout: 2,
            bind_point: 0,
        }
    );
    graphics.record_render_pass(42);
    assert_eq!(graphics.render_pass, Some(42));
}

#[test]
fn pick_fails_without_a_suitable_device() {
    let mut graphics = VulkanGraphics::default();
    let r = graphics.pick_physical_device(&vec![10, 20], &vec![false, false]);
    assert_eq!(message(&r.unwrap_err()), "Failed to find a suitable GPU");
    assert_eq!(graphics.physical_device, None);
}

#[test]
fn queue_families_for_the_logical_device() {
    let same = QueueFamilyIndices { graphics_family: Some(2), present_family: Some(2) };
    let different = QueueFamilyIndices { graphics_family: Some(0), present_family: Some(3) };
    let incomplete = QueueFamilyIndices { graphics_family: None, present_family: Some(3) };
    assert_eq!(VulkanGraphics::logical_device_queue_families(&same).unwrap(), vec![2]);
    assert_eq!(VulkanGraphics::logical_device_queue_families(&different).unwrap(), vec![0, 3]);
    assert_eq!(
        message(&VulkanGraphics::logical_device_queue_families(&incomplete).unwrap_err()),
        "Failed to find suitable queue families"
    );
}

#[test]
fn swap_chain_config_shares_between_distinct_families() {
    let support = SwapChainSupportDetails {
        capabilities: capabilities(2, 0, (u32::MAX, u32::MAX)),
        formats: vec![SurfaceFormat { format: 50, color_space: 0 }],
        present_modes: vec![2, 1],
    };
    let indices = QueueFamilyIndices { graphics_family: Some(0), present_family: Some(1) };
    let config = VulkanGraphics::swap_chain_config(&support, &indices, 800, 600);
    assert_eq!(config.surface_format, SurfaceFormat { format: 50, color_space: 0 });
    assert_eq!(config.present_mode, 1);
    assert_eq!(config.extent, Extent2D { width: 800, height: 600 });
    assert_eq!(config.min_image_count, 3);
    assert_eq!(config.pre_transform, 1);
    assert_eq!(config.image_array_layers, 1);
    assert_eq!(config.image_usage, 0x10);
    assert_eq!(config.composite_alpha, 0x1);
    assert!(config.clipped);
    assert_eq!(config.queue_family_indices, vec![0, 1]);
    assert_eq!(config.image_sharing_mode, 1);

    let single = QueueFamilyIndices { graphics_family: Some(1), present_family: Some(1) };
    let config = VulkanGraphics::swap_chain_config(&support, &single, 800, 600);
    assert!(config.queue_family_indices.is_empty());
    assert_eq!(config.image_sharing_mode, 0);
}

#[test]
fn recording_and_releasing_the_swap_chain() {
    let support = details(1, 1);
    let indices = QueueFamilyIndices { graphics_family: Some(0), present_family: Some(0) };
    let config = VulkanGraphics::swap_chain_config(&support, &indices, 800, 600);
    let mut graphics = VulkanGraphics::default();
    graphics.record_swap_chain(77, vec![1, 2, 3], &config);
    assert_eq!(graphics.swap_chain, Some(77));
    assert_eq!(graphics.images, vec![1, 2, 3]);
    assert_eq!(graphics.swap_chain_format, Some(SurfaceFormat { format: 44, color_space: 0 }));
    assert_eq!(graphics.swap_chain_present_mode, Some(2));
    assert_eq!(graphics.swap_chain_extent, Some(Extent2D { width: 640, height: 480 }));

    assert_eq!(graphics.take_swap_chain(), Some(77));
    assert_eq!(graphics.swap_chain, None);
    assert!(graphics.images.is_empty());
    assert_eq!(graphics.swap_chain_format, None);
    assert_eq!(graphics.take_swap_chain(), None);
}

#[test]
fn teardown_twice_releases_once() {
    let mut graphics = VulkanGraphics::default();
    graphics.swap_chain = Some(5);
    graphics.images = vec![8, 9];
    graphics.image_views = vec![11, 12];
    graphics.debug_messenger = Some(4);
    let first = graphics.teardown();
    assert_eq!(first.image_views, vec![11, 12]);
    assert_eq!(first.swap_chain, Some(5));
    assert!(first.logical_device.is_none());
    assert_eq!(first.debug_messenger, Some(4));
    assert!(first.instance.is_none());
    assert!(graphics.images.is_empty());
    let second = graphics.teardown();
    assert_eq!(second.swap_chain, None);
    // The image views and the debug messenger stay recorded.
    assert_eq!(second.image_views, vec![11, 12]);
    assert_eq!(second.debug_messenger, Some(4));
}

#[test]
fn shader_files_follow_the_shader_path() {
    let graphics = VulkanGraphics::default();
    assert_eq!(message(&graphics.shader_file_names().unwrap_err()), "Shader path not set");
    let graphics = graphics.set_shader_path("assets/shaders");
    assert_eq!(graphics.shader_path.as_deref(), Some("assets/shaders"));
    let (vert, frag) = graphics.shader_file_names().unwrap();
    assert_eq!(vert, "assets/shaders/main.vert.spv");
    assert_eq!(frag, "assets/shaders/main.frag.spv");
}

#[test]
fn shader_code_is_read_in_host_byte_order() {
    let code = vec![0x03, 0x02, 0x23, 0x07, 0x00, 0x00, 0x01, 0x00, 0xff];
    assert_eq!(
        VulkanGraphics::shader_code_words(&code),
        vec![u32::from_ne_bytes([0x03, 0x02, 0x23, 0x07]), u32::from_ne_bytes([0x00, 0x00, 0x01, 0x00])]
    );
    assert!(VulkanGraphics::shader_code_words(&vec![1, 2, 3]).is_empty());
}

#[test]
fn shader_code_in_either_byte_order() {
    let code = vec![0x03, 0x02, 0x23, 0x07, 0x00, 0x00, 0x01, 0x00, 0xff];
    assert_eq!(VulkanGraphics::shader_code_words_in_order(&code, true), vec![0x0723_0203, 0x0001_0000]);
    assert_eq!(VulkanGraphics::shader_code_words_in_order(&code, false), vec![0x0302_2307, 0x0000_0100]);
}

#[test]
fn default_state_is_empty() {
    let graphics = VulkanGraphics::default();
    assert!(graphics.entry.is_none() && graphics.instance.is_none() && graphics.logical_device.is_none());
    assert!(graphics.queues.is_empty() && graphics.images.is_empty() && graphics.image_views.is_empty());
    assert!(graphics.shader_path.is_none() && graphics.swap_chain.is_none());
}

#[test]
fn errors_carry_their_messages() {
    assert_eq!(message(&GraphicsError::from_vk_result(-1)), "Vulkan error: ERROR_OUT_OF_HOST_MEMORY");
    assert_eq!(message(&GraphicsError::from_vk_result(-1000001004)), "Vulkan error: ERROR_OUT_OF_DATE_KHR");
    assert_eq!(message(&GraphicsError::from_vk_result(12345)), "Vulkan error: 12345");
    assert_eq!(message(&GraphicsError::io("NotFound")), "IO error: NotFound");
    assert_eq!(message(&GraphicsError::vulkan("x")), "x");
}

#[test]
fn one_color_view_per_swap_chain_image() {
    let mut graphics = VulkanGraphics::default();
    assert!(graphics.image_view_configs().is_empty());
    graphics.images = vec![7, 9];
    graphics.swap_chain_format = Some(SurfaceFormat { format: 50, color_space: 0 });
    let views = graphics.image_view_configs();
    let view = |image| ImageViewConfig {
        image,
        view_type: 1,
        format: 50,
        swizzle: 0,
        aspect_mask: 1,
        base_mip_level: 0,
        level_count: 1,
        base_array_layer: 0,
        layer_count: 1,
    };
    assert_eq!(views, vec![view(7), view(9)]);
}
