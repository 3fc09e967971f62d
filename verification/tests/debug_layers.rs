use ac_mini_model_viewer::graphics::vulkan::debug::{compose_debug_message, DebugMessengerFilter};
use ac_mini_model_viewer::graphics::vulkan::VulkanGraphics;
use ac_mini_model_viewer::graphics::GraphicsError;

fn strings(names: &[&str]) -> Vec<String> {
    names.iter().map(|s| s.to_string()).collect()
}

#[test]
fn layer_support_looks_for_the_exact_name() {
    let available = strings(&["VK_LAYER_KHRONOS_validation", "VK_LAYER_MESA_overlay"]);
    assert!(VulkanGraphics::check_validation_layer_support(&available, &"VK_LAYER_MESA_overlay".to_string()));
    assert!(!VulkanGraphics::check_validation_layer_support(&available, &"VK_LAYER_KHRONOS".to_string()));
    assert!(!VulkanGraphics::check_validation_layer_support(&vec![], &"VK_LAYER_KHRONOS_validation".to_string()));
}

#[test]
fn validation_layers_depend_on_the_profile() {
    assert!(VulkanGraphics::get_validation_layer_names("debug").is_empty());
    assert_eq!(VulkanGraphics::get_validation_layer_names("release"), strings(&["VK_LAYER_KHRONOS_validation"]));
    assert_eq!(VulkanGraphics::get_validation_layer_names(""), strings(&["VK_LAYER_KHRONOS_validation"]));
}

#[test]
fn instance_requires_the_validation_layer() {
    assert!(VulkanGraphics::require_validation_layer(&strings(&["VK_LAYER_KHRONOS_validation"])).is_ok());
    match VulkanGraphics::require_validation_layer(&strings(&["other"])) {
        Err(GraphicsError::VulkanError(s)) => {
            assert_eq!(s, "Validation layer VK_LAYER_KHRONOS_validation not found")
        },
        Ok(()) => panic!("the layer is missing"),
    }
}

#[test]
fn debug_messages_name_flags_and_fill_in_missing_text() {
    let text = VulkanGraphics::debug_message_text(
        0x1000,
        0x2,
        &Some("VUID-x".to_string()),
        -42,
        &Some("bad thing".to_string()),
    );
    assert_eq!(text, "ERROR:\nVALIDATION [VUID-x (-42)] : bad thing\n");
    let text = VulkanGraphics::debug_message_text(0x101, 0x5, &None, 7, &None);
    assert_eq!(text, "VERBOSE | WARNING:\nGENERAL | PERFORMANCE [<no message id name> (7)] : <no message>\n");
}

#[test]
fn composed_debug_message_layout() {
    let text = compose_debug_message("S", "T", &None, "0", &Some("m".to_string()));
    assert_eq!(text, "S:\nT [<no message id name> (0)] : m\n");
}

#[test]
fn debug_messenger_skips_info_messages() {
    assert_eq!(
        VulkanGraphics::debug_messenger_filter(),
        DebugMessengerFilter { severity: 0x1 | 0x100 | 0x1000, message_types: 0x1 | 0x2 | 0x4 }
    );
}
