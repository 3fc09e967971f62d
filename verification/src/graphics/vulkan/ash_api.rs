//! The points where the renderer's logic meets `ash`, the Vulkan bindings:
//! the handle-carrying types it stores, the flag and enum values it compares
//! against, the names of the extensions it asks for, and the text that `ash`
//! prints for a Vulkan result code or a set of debug flags.
//!
//! Every item here is trusted: Verus believes the contract and does not read
//! the body.

use vstd::prelude::*;

verus! {

/// `ash::Entry`, the loaded Vulkan library; carried through, never read.
#[verifier::external_type_specification]
#[verifier::external_body]
pub struct ExEntry(ash::Entry);

/// `ash::Instance`, a Vulkan instance with its function table; carried through.
#[verifier::external_type_specification]
#[verifier::external_body]
pub struct ExInstance(ash::Instance);

/// `ash::Device`, a logical device with its function table; carried through.
#[verifier::external_type_specification]
#[verifier::external_body]
pub struct ExDevice(ash::Device);

/// `ash::khr::surface::Instance`, the surface extension loader; carried through.
#[verifier::external_type_specification]
#[verifier::external_body]
pub struct ExSurfaceLoader(ash::khr::surface::Instance);

/// `ash::khr::swapchain::Device`, the swap chain extension loader; carried through.
#[verifier::external_type_specification]
#[verifier::external_body]
pub struct ExSwapchainLoader(ash::khr::swapchain::Device);

/// `ash::ext::debug_utils::Instance`, the debug utils extension loader; carried through.
#[verifier::external_type_specification]
#[verifier::external_body]
pub struct ExDebugUtils(ash::ext::debug_utils::Instance);

/// Whether the raw queue flags `bits` hold the graphics bit.
///
/// Calls `vk::QueueFlags::contains` with `vk::QueueFlags::GRAPHICS`, which
/// `ash` defines as the bit `0b1`; `contains` is `self & other == other`.
#[verifier::external_body]
pub(crate) fn queue_flags_contain_graphics(bits: u32) -> (r: bool)
    ensures
        r == (bits & 1u32 == 1u32),
{
    ash::vk::QueueFlags::from_raw(bits).contains(ash::vk::QueueFlags::GRAPHICS)
}

/// The raw value of `vk::Format::B8G8R8A8_SRGB`, which `ash` defines as 50.
#[verifier::external_body]
pub(crate) fn b8g8r8a8_srgb_format() -> (r: i32)
    ensures
        r == 50,
{
    ash::vk::Format::B8G8R8A8_SRGB.as_raw()
}

/// The raw value of `vk::ColorSpaceKHR::SRGB_NONLINEAR`, which `ash` defines as 0.
#[verifier::external_body]
pub(crate) fn srgb_nonlinear_color_space() -> (r: i32)
    ensures
        r == 0,
{
    ash::vk::ColorSpaceKHR::SRGB_NONLINEAR.as_raw()
}

/// The raw value of `vk::PresentModeKHR::MAILBOX`, which `ash` defines as 1.
#[verifier::external_body]
pub(crate) fn mailbox_present_mode() -> (r: i32)
    ensures
        r == 1,
{
    ash::vk::PresentModeKHR::MAILBOX.as_raw()
}

/// The raw value of `vk::PresentModeKHR::FIFO`, which `ash` defines as 2.
#[verifier::external_body]
pub(crate) fn fifo_present_mode() -> (r: i32)
    ensures
        r == 2,
{
    ash::vk::PresentModeKHR::FIFO.as_raw()
}

/// The raw value of `vk::ImageUsageFlags::COLOR_ATTACHMENT`, which `ash`
/// defines as the bit `0b1_0000`.
#[verifier::external_body]
pub(crate) fn color_attachment_image_usage() -> (r: u32)
    ensures
        r == 0x10,
{
    ash::vk::ImageUsageFlags::COLOR_ATTACHMENT.as_raw()
}

/// The raw value of `vk::CompositeAlphaFlagsKHR::OPAQUE`, which `ash` defines
/// as the bit `0b1`.
#[verifier::external_body]
pub(crate) fn opaque_composite_alpha() -> (r: u32)
    ensures
        r == 0x1,
{
    ash::vk::CompositeAlphaFlagsKHR::OPAQUE.as_raw()
}

/// The raw value of `vk::SharingMode::EXCLUSIVE`, which `ash` defines as 0.
#[verifier::external_body]
pub(crate) fn exclusive_sharing_mode() -> (r: i32)
    ensures
        r == 0,
{
    ash::vk::SharingMode::EXCLUSIVE.as_raw()
}

/// The raw value of `vk::SharingMode::CONCURRENT`, which `ash` defines as 1.
#[verifier::external_body]
pub(crate) fn concurrent_sharing_mode() -> (r: i32)
    ensures
        r == 1,
{
    ash::vk::SharingMode::CONCURRENT.as_raw()
}

/// The raw value of `vk::ImageViewType::TYPE_2D`, which `ash` defines as 1.
#[verifier::external_body]
pub(crate) fn image_view_type_2d() -> (r: i32)
    ensures
        r == 1,
{
    ash::vk::ImageViewType::TYPE_2D.as_raw()
}

/// The raw value of `vk::ComponentSwizzle::IDENTITY`, which `ash` defines as 0.
#[verifier::external_body]
pub(crate) fn identity_swizzle() -> (r: i32)
    ensures
        r == 0,
{
    ash::vk::ComponentSwizzle::IDENTITY.as_raw()
}

/// The raw value of `vk::ImageAspectFlags::COLOR`, which `ash` defines as the
/// bit `0b1`.
#[verifier::external_body]
pub(crate) fn color_aspect() -> (r: u32)
    ensures
        r == 0x1,
{
    ash::vk::ImageAspectFlags::COLOR.as_raw()
}

/// The raw value of `vk::SampleCountFlags::TYPE_1`, which `ash` defines as the bit `0b1`.
#[verifier::external_body]
pub(crate) fn sample_count_1() -> (r: u32)
    ensures
        r == 0x1,
{
    ash::vk::SampleCountFlags::TYPE_1.as_raw()
}

/// The raw value of `vk::AttachmentLoadOp::CLEAR`, which `ash` defines as 1.
#[verifier::external_body]
pub(crate) fn load_op_clear() -> (r: i32)
    ensures
        r == 1,
{
    ash::vk::AttachmentLoadOp::CLEAR.as_raw()
}

/// The raw value of `vk::AttachmentLoadOp::DONT_CARE`, which `ash` defines as 2.
#[verifier::external_body]
pub(crate) fn load_op_dont_care() -> (r: i32)
    ensures
        r == 2,
{
    ash::vk::AttachmentLoadOp::DONT_CARE.as_raw()
}

/// The raw value of `vk::AttachmentStoreOp::STORE`, which `ash` defines as 0.
#[verifier::external_body]
pub(crate) fn store_op_store() -> (r: i32)
    ensures
        r == 0,
{
    ash::vk::AttachmentStoreOp::STORE.as_raw()
}

/// The raw value of `vk::AttachmentStoreOp::DONT_CARE`, which `ash` defines as 1.
#[verifier::external_body]
pub(crate) fn store_op_dont_care() -> (r: i32)
    ensures
        r == 1,
{
    ash::vk::AttachmentStoreOp::DONT_CARE.as_raw()
}

/// The raw value of `vk::ImageLayout::UNDEFINED`, which `ash` defines as 0.
#[verifier::external_body]
pub(crate) fn image_layout_undefined() -> (r: i32)
    ensures
        r == 0,
{
    ash::vk::ImageLayout::UNDEFINED.as_raw()
}

/// The raw value of `vk::ImageLayout::COLOR_ATTACHMENT_OPTIMAL`, which `ash` defines as 2.
#[verifier::external_body]
pub(crate) fn image_layout_color_attachment_optimal() -> (r: i32)
    ensures
        r == 2,
{
    ash::vk::ImageLayout::COLOR_ATTACHMENT_OPTIMAL.as_raw()
}

/// The raw value of `vk::ImageLayout::PRESENT_SRC_KHR`, which `ash` defines as 1_000_001_002.
#[verifier::external_body]
pub(crate) fn image_layout_present_src() -> (r: i32)
    ensures
        r == 1000001002,
{
    ash::vk::ImageLayout::PRESENT_SRC_KHR.as_raw()
}

/// The raw value of `vk::PipelineBindPoint::GRAPHICS`, which `ash` defines as 0.
#[verifier::external_body]
pub(crate) fn pipeline_bind_point_graphics() -> (r: i32)
    ensures
        r == 0,
{
    ash::vk::PipelineBindPoint::GRAPHICS.as_raw()
}

/// The raw value of `vk::InstanceCreateFlags::empty()`, which is 0.
#[verifier::external_body]
pub(crate) fn empty_instance_create_flags() -> (r: u32)
    ensures
        r == 0,
{
    ash::vk::InstanceCreateFlags::empty().as_raw()
}

/// The raw value of `vk::InstanceCreateFlags::ENUMERATE_PORTABILITY_KHR`,
/// which `ash` defines as the bit `0b1`.
#[verifier::external_body]
pub(crate) fn enumerate_portability_instance_flag() -> (r: u32)
    ensures
        r == 1,
{
    ash::vk::InstanceCreateFlags::ENUMERATE_PORTABILITY_KHR.as_raw()
}

/// `vk::make_api_version`, which `ash` defines as
/// `(variant << 29) | (major << 22) | (minor << 12) | patch` on `u32`.
#[verifier::external_body]
pub(crate) fn make_api_version(variant: u32, major: u32, minor: u32, patch: u32) -> (r: u32)
    ensures
        r == ((variant << 29u32) | (major << 22u32) | (minor << 12u32) | patch),
{
    ash::vk::make_api_version(variant, major, minor, patch)
}

/// `ash::khr::swapchain::NAME`, the C string `"VK_KHR_swapchain"`, as a `String`.
#[verifier::external_body]
pub(crate) fn khr_swapchain_name() -> (r: String)
    ensures
        r@ == "VK_KHR_swapchain"@,
{
    ash::khr::swapchain::NAME.to_string_lossy().into_owned()
}

/// `ash::khr::portability_subset::NAME`, the C string
/// `"VK_KHR_portability_subset"`, as a `String`.
#[verifier::external_body]
pub(crate) fn khr_portability_subset_name() -> (r: String)
    ensures
        r@ == "VK_KHR_portability_subset"@,
{
    ash::khr::portability_subset::NAME.to_string_lossy().into_owned()
}

/// `ash::khr::portability_enumeration::NAME`, the C string
/// `"VK_KHR_portability_enumeration"`, as a `String`.
#[verifier::external_body]
pub(crate) fn khr_portability_enumeration_name() -> (r: String)
    ensures
        r@ == "VK_KHR_portability_enumeration"@,
{
    ash::khr::portability_enumeration::NAME.to_string_lossy().into_owned()
}

/// `ash::ext::debug_utils::NAME`, the C string `"VK_EXT_debug_utils"`, as a `String`.
#[verifier::external_body]
pub(crate) fn ext_debug_utils_name() -> (r: String)
    ensures
        r@ == "VK_EXT_debug_utils"@,
{
    ash::ext::debug_utils::NAME.to_string_lossy().into_owned()
}

/// `ash::khr::get_physical_device_properties2::NAME`, the C string
/// `"VK_KHR_get_physical_device_properties2"`, as a `String`.
#[verifier::external_body]
pub(crate) fn khr_get_physical_device_properties2_name() -> (r: String)
    ensures
        r@ == "VK_KHR_get_physical_device_properties2"@,
{
    ash::khr::get_physical_device_properties2::NAME.to_string_lossy().into_owned()
}

/// The raw value of `vk::DebugUtilsMessageSeverityFlagsEXT::VERBOSE`, which
/// `ash` defines as the bit `0b1`.
#[verifier::external_body]
pub(crate) fn severity_verbose() -> (r: u32)
    ensures
        r == 0x1,
{
    ash::vk::DebugUtilsMessageSeverityFlagsEXT::VERBOSE.as_raw()
}

/// The raw value of `vk::DebugUtilsMessageSeverityFlagsEXT::WARNING`, which
/// `ash` defines as the bit `0b1_0000_0000`.
#[verifier::external_body]
pub(crate) fn severity_warning() -> (r: u32)
    ensures
        r == 0x100,
{
    ash::vk::DebugUtilsMessageSeverityFlagsEXT::WARNING.as_raw()
}

/// The raw value of `vk::DebugUtilsMessageSeverityFlagsEXT::ERROR`, which
/// `ash` defines as the bit `0b1_0000_0000_0000`.
#[verifier::external_body]
pub(crate) fn severity_error() -> (r: u32)
    ensures
        r == 0x1000,
{
    ash::vk::DebugUtilsMessageSeverityFlagsEXT::ERROR.as_raw()
}

/// The raw value of `vk::DebugUtilsMessageTypeFlagsEXT::GENERAL`, which `ash`
/// defines as the bit `0b1`.
#[verifier::external_body]
pub(crate) fn message_type_general() -> (r: u32)
    ensures
        r == 0x1,
{
    ash::vk::DebugUtilsMessageTypeFlagsEXT::GENERAL.as_raw()
}

/// The raw value of `vk::DebugUtilsMessageTypeFlagsEXT::VALIDATION`, which
/// `ash` defines as the bit `0b10`.
#[verifier::external_body]
pub(crate) fn message_type_validation() -> (r: u32)
    ensures
        r == 0x2,
{
    ash::vk::DebugUtilsMessageTypeFlagsEXT::VALIDATION.as_raw()
}

/// The raw value of `vk::DebugUtilsMessageTypeFlagsEXT::PERFORMANCE`, which
/// `ash` defines as the bit `0b100`.
#[verifier::external_body]
pub(crate) fn message_type_performance() -> (r: u32)
    ensures
        r == 0x4,
{
    ash::vk::DebugUtilsMessageTypeFlagsEXT::PERFORMANCE.as_raw()
}

/// What `ash`'s `Debug` for `vk::Result` prints for the raw code: the name of
/// a known code (such as `ERROR_OUT_OF_HOST_MEMORY` for -1), else the number.
pub uninterp spec fn vk_result_debug_text(code: i32) -> Seq<char>;

/// Formats `vk::Result::from_raw(code)` with `ash`'s `Debug` impl.
#[verifier::external_body]
pub(crate) fn vk_result_text(code: i32) -> (s: String)
    ensures
        s@ == vk_result_debug_text(code),
{
    format!("{:?}", ash::vk::Result::from_raw(code))
}

/// What `ash`'s `Debug` for `vk::DebugUtilsMessageSeverityFlagsEXT` prints for
/// the raw bits: the names of the known flags joined by ` | `.
pub uninterp spec fn severity_debug_text(bits: u32) -> Seq<char>;

/// Formats `vk::DebugUtilsMessageSeverityFlagsEXT::from_raw(bits)` with `ash`'s `Debug` impl.
#[verifier::external_body]
pub(crate) fn severity_text(bits: u32) -> (s: String)
    ensures
        s@ == severity_debug_text(bits),
{
    format!("{:?}", ash::vk::DebugUtilsMessageSeverityFlagsEXT::from_raw(bits))
}

/// What `ash`'s `Debug` for `vk::DebugUtilsMessageTypeFlagsEXT` prints for the
/// raw bits: the names of the known flags joined by ` | `.
pub uninterp spec fn message_types_debug_text(bits: u32) -> Seq<char>;

/// Formats `vk::DebugUtilsMessageTypeFlagsEXT::from_raw(bits)` with `ash`'s `Debug` impl.
#[verifier::external_body]
pub(crate) fn message_types_text(bits: u32) -> (s: String)
    ensures
        s@ == message_types_debug_text(bits),
{
    format!("{:?}", ash::vk::DebugUtilsMessageTypeFlagsEXT::from_raw(bits))
}

} // verus!
