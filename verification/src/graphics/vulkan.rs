//! The Vulkan renderer: the plain values that its setup reads (queue family
//! flags, surface capabilities, formats, present modes, extension names), the
//! choices it makes from them, and the renderer state that setup fills and
//! teardown empties.
//!
//! The calls into the Vulkan driver themselves are made by the program around
//! this library; they hand their results here as plain values and perform
//! what the functions here decide.

use vstd::prelude::*;

mod ash_api;
pub mod debug;

use crate::graphics::{GraphicsError, GraphicsResult};
use ash_api::{
    b8g8r8a8_srgb_format, color_aspect, image_layout_color_attachment_optimal, image_layout_present_src,
    image_layout_undefined, load_op_clear, load_op_dont_care, pipeline_bind_point_graphics, sample_count_1,
    store_op_dont_care, store_op_store, color_attachment_image_usage, identity_swizzle, image_view_type_2d, concurrent_sharing_mode, empty_instance_create_flags,
    exclusive_sharing_mode, opaque_composite_alpha, enumerate_portability_instance_flag, ext_debug_utils_name,
    fifo_present_mode, khr_get_physical_device_properties2_name, khr_portability_enumeration_name,
    khr_portability_subset_name, khr_swapchain_name, mailbox_present_mode, make_api_version,
    queue_flags_contain_graphics, srgb_nonlinear_color_space, vk_result_text,
};
pub use ash_api::{message_types_debug_text, severity_debug_text, vk_result_debug_text};

verus! {

/// A surface format: a raw `vk::Format` and a raw `vk::ColorSpaceKHR`.
#[derive(Clone, Copy, Debug, PartialEq, Eq, Structural)]
pub struct SurfaceFormat {
    pub format: i32,
    pub color_space: i32,
}

/// A two-dimensional extent in pixels.
#[derive(Clone, Copy, Debug, PartialEq, Eq, Structural)]
pub struct Extent2D {
    pub width: u32,
    pub height: u32,
}

/// What a surface reports of the swap chains it supports (the fields of
/// `vk::SurfaceCapabilitiesKHR` that the renderer reads; the transform as raw
/// flags).
#[derive(Clone, Copy, Debug, PartialEq, Eq, Structural)]
pub struct SurfaceCapabilities {
    pub min_image_count: u32,
    pub max_image_count: u32,
    pub current_extent: Extent2D,
    pub min_image_extent: Extent2D,
    pub max_image_extent: Extent2D,
    pub current_transform: u32,
}

/// What a physical device supports for presenting to a surface.
pub struct SwapChainSupportDetails {
    pub capabilities: SurfaceCapabilities,
    pub formats: Vec<SurfaceFormat>,
    /// Raw `vk::PresentModeKHR` values.
    pub present_modes: Vec<i32>,
}

/// The queue families chosen on a physical device: one that does graphics
/// and one that can present to the surface.
#[derive(Clone, Copy, Debug, PartialEq, Eq, Structural)]
pub struct QueueFamilyIndices {
    pub graphics_family: Option<u32>,
    pub present_family: Option<u32>,
}

/// Whether raw queue flags hold the graphics bit (`vk::QueueFlags::GRAPHICS`).
pub open spec fn has_graphics(bits: u32) -> bool {
    bits & 1u32 == 1u32
}

/// `found` is the first index of `s` whose element meets `pred`, or `None`
/// when no element does.
pub open spec fn is_first_index<A>(s: Seq<A>, pred: spec_fn(A) -> bool, found: Option<u32>) -> bool {
    match found {
        Some(i) => {
            &&& i < s.len()
            &&& pred(s[i as int])
            &&& forall|j: int| 0 <= j < i ==> !pred(#[trigger] s[j])
        },
        None => forall|j: int| 0 <= j < s.len() ==> !pred(#[trigger] s[j]),
    }
}

/// The format that the renderer prefers: `B8G8R8A8_SRGB` (50) in the
/// `SRGB_NONLINEAR` color space (0).
pub open spec fn preferred_format() -> SurfaceFormat {
    SurfaceFormat { format: 50, color_space: 0 }
}

/// The format chosen among `available`: the preferred one when it is offered,
/// else the first offered.
pub open spec fn chosen_format(available: Seq<SurfaceFormat>) -> SurfaceFormat {
    if available.contains(preferred_format()) {
        preferred_format()
    } else {
        available[0]
    }
}

/// The present mode chosen among `available`: `MAILBOX` (1) when it is
/// offered, else `FIFO` (2), which every surface supports.
pub open spec fn chosen_present_mode(available: Seq<i32>) -> i32 {
    if available.contains(1i32) {
        1
    } else {
        2
    }
}

/// `x` brought into `[lo, hi]`.
pub open spec fn clamped(x: u32, lo: u32, hi: u32) -> u32 {
    if x < lo {
        lo
    } else if x > hi {
        hi
    } else {
        x
    }
}

/// The swap chain extent: the surface's current extent, unless the surface
/// leaves it to the application (width `u32::MAX`), in which case the window
/// size brought into the surface's bounds.
pub open spec fn chosen_extent(capabilities: SurfaceCapabilities, width: u32, height: u32) -> Extent2D {
    if capabilities.current_extent.width != u32::MAX {
        capabilities.current_extent
    } else {
        Extent2D {
            width: clamped(width, capabilities.min_image_extent.width, capabilities.max_image_extent.width),
            height: clamped(height, capabilities.min_image_extent.height, capabilities.max_image_extent.height),
        }
    }
}

/// The extent can be chosen without a panic: when the window size is used,
/// each lower bound is at most its upper bound.
pub open spec fn extent_bounds_ordered(capabilities: SurfaceCapabilities) -> bool {
    capabilities.current_extent.width == u32::MAX ==> {
        &&& capabilities.min_image_extent.width <= capabilities.max_image_extent.width
        &&& capabilities.min_image_extent.height <= capabilities.max_image_extent.height
    }
}

/// The number of swap chain images to ask for: one more than the minimum,
/// but no more than the maximum when the surface sets one (a maximum of 0
/// means no limit).
pub open spec fn chosen_image_count(capabilities: SurfaceCapabilities) -> u32 {
    let wanted = (capabilities.min_image_count + 1) as u32;
    if capabilities.max_image_count > 0 && capabilities.max_image_count < wanted {
        capabilities.max_image_count
    } else {
        wanted
    }
}

/// The distinct queue families of complete indices, graphics first.
pub open spec fn unique_families(indices: QueueFamilyIndices) -> Seq<u32> {
    let g = indices.graphics_family->0;
    let p = indices.present_family->0;
    if g == p {
        seq![g]
    } else {
        seq![g, p]
    }
}

impl QueueFamilyIndices {
    /// Both a graphics and a present family were found.
    pub open spec fn complete(self) -> bool {
        self.graphics_family is Some && self.present_family is Some
    }

    /// Whether both a graphics and a present family were found.
    pub fn is_complete(&self) -> (r: bool)
        ensures
            r == self.complete(),
            r <==> (self.graphics_family is Some && self.present_family is Some),
    {
        self.graphics_family.is_some() && self.present_family.is_some()
    }
}

/// `x` brought into `[lo, hi]`, as `u32::clamp` does: `lo` when `x < lo`,
/// `hi` when `x > hi`, else `x`; `u32::clamp` panics when `lo > hi`, which
/// `requires` rules out.
fn clamp_u32(x: u32, lo: u32, hi: u32) -> (r: u32)
    requires
        lo <= hi,
    ensures
        r == clamped(x, lo, hi),
{
    if x < lo {
        lo
    } else if x > hi {
        hi
    } else {
        x
    }
}

/// The smaller of `a` and `b`, as `u32::min` gives it (`a` when they are equal).
fn min_u32(a: u32, b: u32) -> (r: u32)
    ensures
        r == (if b < a { b } else { a }),
{
    if b < a {
        b
    } else {
        a
    }
}

/// The first index whose queue flags hold the graphics bit.
fn first_graphics_family(queue_flags: &Vec<u32>) -> (r: Option<u32>)
    requires
        queue_flags.len() <= u32::MAX,
    ensures
        is_first_index(queue_flags@, |bits: u32| has_graphics(bits), r),
{
    let mut i: usize = 0;
    while i < queue_flags.len()
        invariant
            i <= queue_flags.len() <= u32::MAX,
            forall|j: int| 0 <= j < i ==> !has_graphics(#[trigger] queue_flags@[j]),
        decreases queue_flags.len() - i,
    {
        if queue_flags_contain_graphics(queue_flags[i]) {
            return Some(i as u32);
        }
        i = i + 1;
    }
    None
}

/// The first index whose family can present to the surface.
fn first_present_family(present_support: &Vec<bool>) -> (r: Option<u32>)
    requires
        present_support.len() <= u32::MAX,
    ensures
        is_first_index(present_support@, |b: bool| b, r),
{
    let mut i: usize = 0;
    while i < present_support.len()
        invariant
            i <= present_support.len() <= u32::MAX,
            forall|j: int| 0 <= j < i ==> !(#[trigger] present_support@[j]),
        decreases present_support.len() - i,
    {
        if present_support[i] {
            return Some(i as u32);
        }
        i = i + 1;
    }
    None
}


/// How a swap chain is to be created.
pub struct SwapChainConfig {
    pub surface_format: SurfaceFormat,
    /// A raw `vk::PresentModeKHR`.
    pub present_mode: i32,
    pub extent: Extent2D,
    pub min_image_count: u32,
    /// The raw `vk::SurfaceTransformFlagsKHR` to apply before presentation.
    pub pre_transform: u32,
    /// Layers of each image.
    pub image_array_layers: u32,
    /// The raw `vk::ImageUsageFlags` of the images.
    pub image_usage: u32,
    /// The raw `vk::CompositeAlphaFlagsKHR` for compositing with other windows.
    pub composite_alpha: u32,
    /// Whether pixels hidden by other windows may be left undrawn.
    pub clipped: bool,
    /// The queue families to name as users of the images: the distinct
    /// graphics and present families when the images are shared, none when
    /// one family owns them.
    pub queue_family_indices: Vec<u32>,
    /// The raw `vk::SharingMode` of the images: `CONCURRENT` (1) when several
    /// queue families use them, `EXCLUSIVE` (0) when one owns them.
    pub image_sharing_mode: i32,
}


/// How to create the view of one swap chain image: a 2D view of its color
/// aspect, one mip level and one array layer from the first, each component
/// mapped to itself.
#[derive(Clone, Copy, Debug, PartialEq, Eq, Structural)]
pub struct ImageViewConfig {
    /// The raw `vk::Image`.
    pub image: u64,
    /// The raw `vk::ImageViewType`.
    pub view_type: i32,
    /// The raw `vk::Format`.
    pub format: i32,
    /// The raw `vk::ComponentSwizzle` of each of the red, green, blue and
    /// alpha components.
    pub swizzle: i32,
    /// The raw `vk::ImageAspectFlags`.
    pub aspect_mask: u32,
    pub base_mip_level: u32,
    pub level_count: u32,
    pub base_array_layer: u32,
    pub layer_count: u32,
}

/// The view of `image` in `format`.
pub open spec fn image_view_of(image: u64, format: i32) -> ImageViewConfig {
    ImageViewConfig {
        image,
        view_type: 1,
        format,
        swizzle: 0,
        aspect_mask: 0x1,
        base_mip_level: 0,
        level_count: 1,
        base_array_layer: 0,
        layer_count: 1,
    }
}

/// How to create the render pass: one color attachment in the swap chain's
/// format, single-sampled, cleared on load and stored, stencil ignored, from
/// an undefined layout to the layout for presentation; one graphics subpass
/// that writes attachment 0 in the color attachment layout.
#[derive(Clone, Copy, Debug, PartialEq, Eq, Structural)]
pub struct RenderPassConfig {
    /// The raw `vk::Format` of the color attachment.
    pub format: i32,
    /// The raw `vk::SampleCountFlags`.
    pub samples: u32,
    /// The raw `vk::AttachmentLoadOp` and `vk::AttachmentStoreOp` of the color
    /// and of the stencil contents.
    pub load_op: i32,
    pub store_op: i32,
    pub stencil_load_op: i32,
    pub stencil_store_op: i32,
    /// The raw `vk::ImageLayout` before and after the render pass.
    pub initial_layout: i32,
    pub final_layout: i32,
    /// The attachment that the subpass writes, and the raw `vk::ImageLayout`
    /// it is in meanwhile.
    pub color_attachment: u32,
    pub color_attachment_layout: i32,
    /// The raw `vk::PipelineBindPoint` of the subpass.
    pub bind_point: i32,
}

/// What a teardown hands to the caller to destroy, in the order in which the
/// renderer destroys them: the image views, the swap chain, the logical
/// device, the debug messenger, the instance.
pub struct Teardown {
    pub image_views: Vec<u64>,
    pub swap_chain: Option<u64>,
    pub logical_device: Option<ash::Device>,
    pub debug_messenger: Option<u64>,
    pub instance: Option<ash::Instance>,
}

/// The state of the Vulkan renderer.
///
/// Handles that are plain values in Vulkan (the physical device, the surface,
/// queues, the swap chain and its images, image views, the render pass, the
/// debug messenger) are held as their raw `u64` values; the loaded library,
/// the instance, the logical device and the extension loaders are held as
/// `ash` values.
pub struct VulkanGraphics {
    pub entry: Option<ash::Entry>,
    pub instance: Option<ash::Instance>,
    pub surface_loader: Option<ash::khr::surface::Instance>,
    pub swapchain_loader: Option<ash::khr::swapchain::Device>,
    pub physical_device: Option<u64>,
    pub logical_device: Option<ash::Device>,
    pub surface: Option<u64>,
    pub queues: Vec<u64>,
    pub swap_chain: Option<u64>,
    pub images: Vec<u64>,
    pub swap_chain_format: Option<SurfaceFormat>,
    pub swap_chain_present_mode: Option<i32>,
    pub swap_chain_extent: Option<Extent2D>,
    pub image_views: Vec<u64>,
    pub render_pass: Option<u64>,
    pub debug_util: Option<ash::ext::debug_utils::Instance>,
    pub debug_messenger: Option<u64>,
    pub shader_path: Option<String>,
}

/// `after` is `before` with its swap chain released: no swap chain, no
/// images, no format, present mode or extent; all else as it was.
pub open spec fn swap_chain_released(before: VulkanGraphics, after: VulkanGraphics) -> bool {
    &&& after.images@ == Seq::<u64>::empty()
    &&& after == (VulkanGraphics {
        swap_chain: None,
        images: after.images,
        swap_chain_format: None,
        swap_chain_present_mode: None,
        swap_chain_extent: None,
        ..before
    })
}

/// `after` is `before` with the swap chain `swap_chain`, created with
/// `config`, and its `images` recorded; all else as it was.
pub open spec fn swap_chain_recorded(
    before: VulkanGraphics,
    after: VulkanGraphics,
    swap_chain: u64,
    images: Vec<u64>,
    config: SwapChainConfig,
) -> bool {
    after == (VulkanGraphics {
        swap_chain: Some(swap_chain),
        images: images,
        swap_chain_format: Some(config.surface_format),
        swap_chain_present_mode: Some(config.present_mode),
        swap_chain_extent: Some(config.extent),
        ..before
    })
}

/// The swap chain's format, present mode and extent are recorded together,
/// and only while a swap chain is recorded.
pub open spec fn swap_chain_record_consistent(s: VulkanGraphics) -> bool {
    &&& (s.swap_chain_format is Some <==> s.swap_chain_present_mode is Some)
    &&& (s.swap_chain_format is Some <==> s.swap_chain_extent is Some)
    &&& (s.swap_chain_format is Some ==> s.swap_chain is Some)
}

/// Where the shaders are read from when the shader directory is `path`: the
/// vertex shader `main.vert.spv` and the fragment shader `main.frag.spv` in it.
pub open spec fn shader_files(path: Seq<char>) -> (Seq<char>, Seq<char>) {
    (path + "/main.vert.spv"@, path + "/main.frag.spv"@)
}

/// Where the renderer reads its shaders from, if it knows.
pub open spec fn shader_files_of(s: VulkanGraphics) -> Option<(Seq<char>, Seq<char>)> {
    match s.shader_path {
        Some(path) => Some(shader_files(path@)),
        None => None,
    }
}

/// `after` is the state that a teardown of `before` leaves: the swap chain
/// released, and no logical device and no instance; the image views, the
/// debug messenger and all else as they were.
pub open spec fn torn_down(before: VulkanGraphics, after: VulkanGraphics) -> bool {
    &&& after.images@ == Seq::<u64>::empty()
    &&& after == (VulkanGraphics {
        swap_chain: None,
        images: after.images,
        swap_chain_format: None,
        swap_chain_present_mode: None,
        swap_chain_extent: None,
        logical_device: None,
        instance: None,
        ..before
    })
}

impl VulkanGraphics {
    /// No resource has been created and no shader path set.
    pub open spec fn is_initial(self) -> bool {
        &&& self.entry is None
        &&& self.instance is None
        &&& self.surface_loader is None
        &&& self.swapchain_loader is None
        &&& self.physical_device is None
        &&& self.logical_device is None
        &&& self.surface is None
        &&& self.queues@ == Seq::<u64>::empty()
        &&& self.swap_chain is None
        &&& self.images@ == Seq::<u64>::empty()
        &&& self.swap_chain_format is None
        &&& self.swap_chain_present_mode is None
        &&& self.swap_chain_extent is None
        &&& self.image_views@ == Seq::<u64>::empty()
        &&& self.render_pass is None
        &&& self.debug_util is None
        &&& self.debug_messenger is None
        &&& self.shader_path is None
    }

    /// Sets the directory that holds the compiled shaders; nothing else changes.
    pub fn set_shader_path(self, path: &str) -> (r: Self)
        ensures
            r.shader_path is Some,
            r.shader_path->0@ == path@,
            r == (VulkanGraphics { shader_path: r.shader_path, ..self }),
    {
        let mut this = self;
        this.shader_path = Some(path.to_owned());
        this
    }

    /// The queue families to use on a physical device whose queue families
    /// have the raw flags `queue_flags` and, index for index, can present to
    /// the surface as `present_support` says, for the families asked, in
    /// order (asking may stop at the first that can present): the first
    /// family that does graphics and the first that can present.
    pub fn find_queue_family_indice(queue_flags: &Vec<u32>, present_support: &Vec<bool>) -> (r: QueueFamilyIndices)
        requires
            queue_flags.len() <= u32::MAX,
            present_support.len() <= queue_flags.len(),
        ensures
            is_first_index(queue_flags@, |bits: u32| has_graphics(bits), r.graphics_family),
            is_first_index(present_support@, |b: bool| b, r.present_family),
            r.graphics_family matches Some(g) ==> {
                &&& g < queue_flags@.len()
                &&& queue_flags@[g as int] & 1u32 == 1u32
                &&& forall|j: int| 0 <= j < g ==> #[trigger] queue_flags@[j] & 1u32 != 1u32
            },
            r.graphics_family is None ==> forall|j: int|
                0 <= j < queue_flags@.len() ==> #[trigger] queue_flags@[j] & 1u32 != 1u32,
            r.present_family matches Some(p) ==> {
                &&& p < present_support@.len()
                &&& present_support@[p as int]
                &&& forall|j: int| 0 <= j < p ==> !#[trigger] present_support@[j]
            },
            r.present_family is None ==> forall|j: int| 0 <= j < present_support@.len() ==> !#[trigger] present_support@[j],
    {
        QueueFamilyIndices {
            graphics_family: first_graphics_family(queue_flags),
            present_family: first_present_family(present_support),
        }
    }

    /// The surface format to use: `B8G8R8A8_SRGB` in `SRGB_NONLINEAR` when
    /// offered, else the first format offered.
    pub fn choose_swap_chain_format(available_formats: &Vec<SurfaceFormat>) -> (r: SurfaceFormat)
        requires
            available_formats.len() > 0,
        ensures
            r == chosen_format(available_formats@),
            (exists|j: int|
                0 <= j < available_formats@.len() && #[trigger] available_formats@[j].format == 50
                    && available_formats@[j].color_space == 0) ==> r.format == 50 && r.color_space == 0,
            !(exists|j: int|
                0 <= j < available_formats@.len() && #[trigger] available_formats@[j].format == 50
                    && available_formats@[j].color_space == 0) ==> r == available_formats@[0],
    {
        let wanted_format = b8g8r8a8_srgb_format();
        let wanted_color_space = srgb_nonlinear_color_space();
        let mut i: usize = 0;
        while i < available_formats.len()
            invariant
                i <= available_formats.len(),
                wanted_format == 50,
                wanted_color_space == 0,
                forall|j: int| 0 <= j < i ==> available_formats@[j] != preferred_format(),
            decreases available_formats.len() - i,
        {
            let format = available_formats[i];
            if format.format == wanted_format && format.color_space == wanted_color_space {
                return format;
            }
            i = i + 1;
        }
        available_formats[0]
    }

    /// The present mode to use: `MAILBOX` when offered, else `FIFO`.
    pub fn choose_swap_chain_present_mode(available_present_modes: &Vec<i32>) -> (r: i32)
        ensures
            r == chosen_present_mode(available_present_modes@),
            (exists|j: int| 0 <= j < available_present_modes@.len() && #[trigger] available_present_modes@[j] == 1)
                ==> r == 1,
            !(exists|j: int| 0 <= j < available_present_modes@.len() && #[trigger] available_present_modes@[j] == 1)
                ==> r == 2,
    {
        let mailbox = mailbox_present_mode();
        let mut i: usize = 0;
        while i < available_present_modes.len()
            invariant
                mailbox == 1,
                i <= available_present_modes.len(),
                forall|j: int| 0 <= j < i ==> available_present_modes@[j] != 1i32,
            decreases available_present_modes.len() - i,
        {
            if available_present_modes[i] == mailbox {
                return mailbox;
            }
            i = i + 1;
        }
        fifo_present_mode()
    }

    /// The swap chain extent for a window of `width` by `height` pixels.
    pub fn choose_swap_chain_extent(capabilities: &SurfaceCapabilities, width: u32, height: u32) -> (r: Extent2D)
        requires
            extent_bounds_ordered(*capabilities),
        ensures
            r == chosen_extent(*capabilities, width, height),
            capabilities.current_extent.width != u32::MAX ==> r == capabilities.current_extent,
            capabilities.current_extent.width == u32::MAX ==> {
                &&& width < capabilities.min_image_extent.width ==> r.width == capabilities.min_image_extent.width
                &&& width > capabilities.max_image_extent.width ==> r.width == capabilities.max_image_extent.width
                &&& capabilities.min_image_extent.width <= width <= capabilities.max_image_extent.width ==> r.width
                    == width
                &&& height < capabilities.min_image_extent.height ==> r.height == capabilities.min_image_extent.height
                &&& height > capabilities.max_image_extent.height ==> r.height == capabilities.max_image_extent.height
                &&& capabilities.min_image_extent.height <= height <= capabilities.max_image_extent.height
                    ==> r.height == height
            },
    {
        if capabilities.current_extent.width != u32::MAX {
            capabilities.current_extent
        } else {
            Extent2D {
                width: clamp_u32(width, capabilities.min_image_extent.width, capabilities.max_image_extent.width),
                height: clamp_u32(height, capabilities.min_image_extent.height, capabilities.max_image_extent.height),
            }
        }
    }

    /// The number of swap chain images to ask for.
    pub fn swap_chain_image_count(capabilities: &SurfaceCapabilities) -> (r: u32)
        requires
            capabilities.min_image_count < u32::MAX,
        ensures
            r == chosen_image_count(*capabilities),
            capabilities.max_image_count > 0 && capabilities.max_image_count <= capabilities.min_image_count
                ==> r == capabilities.max_image_count,
            capabilities.max_image_count == 0 || capabilities.max_image_count > capabilities.min_image_count
                ==> r == capabilities.min_image_count + 1,
    {
        let image_count = capabilities.min_image_count + 1;
        if capabilities.max_image_count > 0 {
            min_u32(image_count, capabilities.max_image_count)
        } else {
            image_count
        }
    }

    /// Whether every extension in `required_extensions` is among
    /// `available_extensions`.
    pub fn check_device_extension_support(
        available_extensions: &Vec<String>,
        required_extensions: &Vec<String>,
    ) -> (r: bool)
        ensures
            r == extensions_supported(available_extensions@, required_extensions@),
            r <==> forall|k: int|
                #![trigger required_extensions@[k]]
                0 <= k < required_extensions@.len() ==> exists|j: int|
                    #![trigger available_extensions@[j]]
                    0 <= j < available_extensions@.len() && available_extensions@[j]@ == required_extensions@[k]@,
    {
        proof {
            lemma_extension_support_means_each_available(available_extensions@, required_extensions@);
        }
        let mut i: usize = 0;
        while i < required_extensions.len()
            invariant
                i <= required_extensions.len(),
                forall|k: int| 0 <= k < i ==> names_contain(available_extensions@, #[trigger] required_extensions@[k]@),
            decreases required_extensions.len() - i,
        {
            if !contains_name(available_extensions, &required_extensions[i]) {
                return false;
            }
            i = i + 1;
        }
        true
    }

    /// The device extensions the renderer needs: the swap chain, and the
    /// portability subset where the driver implements Vulkan on top of another
    /// API (`portability_subset`, true on Apple silicon).
    pub fn get_device_extensions(portability_subset: bool) -> (r: Vec<String>)
        ensures
            r@.map_values(|s: String| s@) == device_extensions(portability_subset),
            r@.len() == (if portability_subset { 2int } else { 1int }),
            r@[0]@ == "VK_KHR_swapchain"@,
            portability_subset ==> r@[1]@ == "VK_KHR_portability_subset"@,
    {
        let mut extensions = Vec::new();
        extensions.push(khr_swapchain_name());
        if portability_subset {
            extensions.push(khr_portability_subset_name());
        }
        assert(extensions@.map_values(|s: String| s@) =~= device_extensions(portability_subset));
        extensions
    }

    /// The instance extensions the renderer needs: those the window system
    /// requires, then portability enumeration (`portability_enumeration`, true
    /// on Apple silicon), then debug utils and the physical device properties 2
    /// extension.
    pub fn get_instance_extensions(window_extensions: Vec<String>, portability_enumeration: bool) -> (r: Vec<String>)
        ensures
            r@.map_values(|s: String| s@) == window_extensions@.map_values(|s: String| s@) + instance_extensions_after_window(
                portability_enumeration,
            ),
            r@.len() == window_extensions@.len() + (if portability_enumeration { 3int } else { 2int }),
            forall|i: int| 0 <= i < window_extensions@.len() ==> (#[trigger] r@[i])@ == window_extensions@[i]@,
            portability_enumeration ==> r@[window_extensions@.len() as int]@ == "VK_KHR_portability_enumeration"@,
            r@[r@.len() - 2]@ == "VK_EXT_debug_utils"@,
            r@[r@.len() - 1]@ == "VK_KHR_get_physical_device_properties2"@,
    {
        let mut extensions = window_extensions;
        let ghost start = extensions@;
        if portability_enumeration {
            extensions.push(khr_portability_enumeration_name());
        }
        extensions.push(ext_debug_utils_name());
        extensions.push(khr_get_physical_device_properties2_name());
        assert(extensions@.map_values(|s: String| s@) =~= start.map_values(|s: String| s@)
            + instance_extensions_after_window(portability_enumeration));
        extensions
    }

    /// The raw `vk::InstanceCreateFlags` the instance is created with:
    /// `ENUMERATE_PORTABILITY_KHR` (1) where portability enumeration is used,
    /// else none.
    pub fn get_instance_features_flags(portability_enumeration: bool) -> (r: u32)
        ensures
            r == (if portability_enumeration { 1u32 } else { 0u32 }),
    {
        let mut flags = empty_instance_create_flags();
        if portability_enumeration {
            let portability = enumerate_portability_instance_flag();
            flags = flags | portability;
            assert(0u32 | 1u32 == 1u32) by (bit_vector);
        }
        flags
    }

    /// The Vulkan API version the application asks for: 1.0.0, variant 0.
    pub fn instance_api_version() -> (r: u32)
        ensures
            r == 1u32 << 22u32,
            r == 4194304,
    {
        let v = make_api_version(0, 1, 0, 0);
        assert(((0u32 << 29u32) | (1u32 << 22u32) | (0u32 << 12u32) | 0u32) == 4194304u32) by (bit_vector);
        assert(1u32 << 22u32 == 4194304u32) by (bit_vector);
        v
    }

    /// Whether a physical device can be used: it has a graphics and a present
    /// queue family, it supports the needed extensions, and, when it does, the
    /// surface offers it at least one format and one present mode
    /// (`swap_chain_support` is what the surface reported, `None` when the
    /// query failed or was not made).
    pub fn is_device_suitable(
        indices: &QueueFamilyIndices,
        extensions_supported: bool,
        swap_chain_support: &Option<SwapChainSupportDetails>,
    ) -> (r: bool)
        ensures
            r == device_suitable(*indices, extensions_supported, *swap_chain_support),
            r <==> {
                &&& indices.graphics_family is Some
                &&& indices.present_family is Some
                &&& extensions_supported
                &&& swap_chain_support is Some
                &&& swap_chain_support->0.formats@.len() > 0
                &&& swap_chain_support->0.present_modes@.len() > 0
            },
    {
        let queue_family_complete = indices.is_complete();
        let swap_chain_adequate = if extensions_supported {
            match swap_chain_support {
                Some(details) => details.formats.len() > 0 && details.present_modes.len() > 0,
                None => false,
            }
        } else {
            false
        };
        queue_family_complete && extensions_supported && swap_chain_adequate
    }

    /// Chooses the first suitable device of `devices` (raw handles) as the
    /// physical device; `suitable[i]` says whether `devices[i]` is suitable,
    /// for the devices examined, in order (the search may stop at the first
    /// suitable one). Fails, changing nothing, when none examined is suitable.
    pub fn pick_physical_device(&mut self, devices: &Vec<u64>, suitable: &Vec<bool>) -> (r: GraphicsResult<()>)
        requires
            suitable.len() <= devices.len(),
            suitable.len() <= u32::MAX,
        ensures
            r is Ok <==> suitable@.contains(true),
            r is Ok <==> exists|i: int| 0 <= i < suitable@.len() && #[trigger] suitable@[i],
            r is Ok ==> exists|i: int| {
                &&& 0 <= i < suitable@.len()
                &&& suitable@[i]
                &&& forall|j: int| 0 <= j < i ==> !#[trigger] suitable@[j]
                &&& final(self).physical_device == Some(devices@[i])
            },
            r is Ok ==> exists|i: u32| {
                &&& is_first_index(suitable@, |b: bool| b, Some(i))
                &&& *final(self) == (VulkanGraphics { physical_device: Some(devices@[i as int]), ..*old(self) })
            },
            r matches Err(e) ==> {
                &&& e.message() == "Failed to find a suitable GPU"@
                &&& *final(self) == *old(self)
            },
    {
        match first_present_family(suitable) {
            Some(i) => {
                self.physical_device = Some(devices[i as usize]);
                assert(suitable@[i as int]);
                Ok(())
            },
            None => {
                proof {
                    assert forall|j: int| 0 <= j < suitable@.len() implies !suitable@[j] by {}
                }
                Err(GraphicsError::vulkan("Failed to find a suitable GPU"))
            },
        }
    }

    /// The distinct queue families of complete indices, graphics first: the
    /// families for which queues are created and retrieved, and that share
    /// the swap chain images.
    pub fn unique_queue_families(indices: &QueueFamilyIndices) -> (r: Vec<u32>)
        requires
            indices.complete(),
        ensures
            r@ == unique_families(*indices),
            r@[0] == indices.graphics_family->0,
            indices.graphics_family == indices.present_family ==> r@.len() == 1,
            indices.graphics_family != indices.present_family ==> r@.len() == 2 && r@[1]
                == indices.present_family->0,
    {
        let g = indices.graphics_family.unwrap();
        let p = indices.present_family.unwrap();
        let mut families = Vec::new();
        families.push(g);
        if p != g {
            families.push(p);
        }
        assert(families@ =~= unique_families(*indices));
        families
    }

    /// The queue families to create a logical device with; fails when the
    /// physical device lacks a graphics or a present family.
    pub fn logical_device_queue_families(indices: &QueueFamilyIndices) -> (r: GraphicsResult<Vec<u32>>)
        ensures
            r is Ok <==> indices.complete(),
            r matches Ok(v) ==> v@ == unique_families(*indices),
            r matches Ok(v) ==> {
                &&& v@[0] == indices.graphics_family->0
                &&& indices.graphics_family == indices.present_family ==> v@.len() == 1
                &&& indices.graphics_family != indices.present_family ==> v@.len() == 2 && v@[1]
                    == indices.present_family->0
            },
            r matches Err(e) ==> e.message() == "Failed to find suitable queue families"@,
    {
        if !indices.is_complete() {
            return Err(GraphicsError::vulkan("Failed to find suitable queue families"));
        }
        Ok(Self::unique_queue_families(indices))
    }

    /// How to create the swap chain for a window of `width` by `height`
    /// pixels, from what the surface supports and the chosen queue families.
    pub fn swap_chain_config(
        support: &SwapChainSupportDetails,
        indices: &QueueFamilyIndices,
        width: u32,
        height: u32,
    ) -> (r: SwapChainConfig)
        requires
            support.formats.len() > 0,
            support.capabilities.min_image_count < u32::MAX,
            extent_bounds_ordered(support.capabilities),
            indices.complete(),
        ensures
            r.surface_format == chosen_format(support.formats@),
            r.present_mode == chosen_present_mode(support.present_modes@),
            r.extent == chosen_extent(support.capabilities, width, height),
            r.min_image_count == chosen_image_count(support.capabilities),
            r.pre_transform == support.capabilities.current_transform,
            r.image_array_layers == 1,
            r.image_usage == 0x10,
            r.composite_alpha == 0x1,
            r.clipped,
            r.image_sharing_mode == (if indices.graphics_family != indices.present_family { 1i32 } else { 0i32 }),
            r.queue_family_indices@ == (if indices.graphics_family != indices.present_family {
                unique_families(*indices)
            } else {
                Seq::<u32>::empty()
            }),
    {
        let surface_format = Self::choose_swap_chain_format(&support.formats);
        let present_mode = Self::choose_swap_chain_present_mode(&support.present_modes);
        let extent = Self::choose_swap_chain_extent(&support.capabilities, width, height);
        let min_image_count = Self::swap_chain_image_count(&support.capabilities);
        let queue_family_indices = Self::unique_queue_families(indices);
        let (image_sharing_mode, queue_family_indices) = if queue_family_indices.len() > 1 {
            (concurrent_sharing_mode(), queue_family_indices)
        } else {
            (exclusive_sharing_mode(), Vec::new())
        };
        SwapChainConfig {
            surface_format,
            present_mode,
            extent,
            min_image_count,
            pre_transform: support.capabilities.current_transform,
            image_array_layers: 1,
            image_usage: color_attachment_image_usage(),
            composite_alpha: opaque_composite_alpha(),
            clipped: true,
            queue_family_indices,
            image_sharing_mode,
        }
    }

    /// Records a swap chain created with `config`, and its images.
    pub fn record_swap_chain(&mut self, swap_chain: u64, images: Vec<u64>, config: &SwapChainConfig)
        ensures
            swap_chain_recorded(*old(self), *final(self), swap_chain, images, *config),
            final(self).swap_chain == Some(swap_chain),
            final(self).images@ == images@,
            final(self).swap_chain_format == Some(config.surface_format),
            final(self).swap_chain_present_mode == Some(config.present_mode),
            final(self).swap_chain_extent == Some(config.extent),
    {
        self.swap_chain = Some(swap_chain);
        self.images = images;
        self.swap_chain_format = Some(config.surface_format);
        self.swap_chain_present_mode = Some(config.present_mode);
        self.swap_chain_extent = Some(config.extent);
    }

    /// How to create a view of each swap chain image, in the order of the
    /// images, in the swap chain's format.
    pub fn image_view_configs(&self) -> (r: Vec<ImageViewConfig>)
        requires
            self.images@.len() > 0 ==> self.swap_chain_format is Some,
        ensures
            r@.len() == self.images@.len(),
            forall|i: int|
                0 <= i < r@.len() ==> #[trigger] r@[i] == image_view_of(
                    self.images@[i],
                    self.swap_chain_format->0.format,
                ),
            forall|i: int|
                0 <= i < r@.len() ==> {
                    &&& (#[trigger] r@[i]).image == self.images@[i]
                    &&& r@[i].format == self.swap_chain_format->0.format
                    &&& r@[i].view_type == 1
                    &&& r@[i].swizzle == 0
                    &&& r@[i].aspect_mask == 1
                    &&& r@[i].base_mip_level == 0
                    &&& r@[i].level_count == 1
                    &&& r@[i].base_array_layer == 0
                    &&& r@[i].layer_count == 1
                },
    {
        let mut views: Vec<ImageViewConfig> = Vec::new();
        let view_type = image_view_type_2d();
        let swizzle = identity_swizzle();
        let aspect_mask = color_aspect();
        let mut i: usize = 0;
        while i < self.images.len()
            invariant
                i <= self.images@.len(),
                self.images@.len() > 0 ==> self.swap_chain_format is Some,
                view_type == 1,
                swizzle == 0,
                aspect_mask == 0x1,
                views@.len() == i,
                forall|k: int|
                    0 <= k < i ==> #[trigger] views@[k] == image_view_of(
                        self.images@[k],
                        self.swap_chain_format->0.format,
                    ),
            decreases self.images@.len() - i,
        {
            let format = self.swap_chain_format.unwrap().format;
            views.push(
                ImageViewConfig {
                    image: self.images[i],
                    view_type,
                    format,
                    swizzle,
                    aspect_mask,
                    base_mip_level: 0,
                    level_count: 1,
                    base_array_layer: 0,
                    layer_count: 1,
                },
            );
            i = i + 1;
        }
        views
    }

    /// How to create the render pass for the swap chain's format.
    pub fn render_pass_config(&self) -> (r: RenderPassConfig)
        requires
            self.swap_chain_format is Some,
        ensures
            r.format == self.swap_chain_format->0.format,
            r.samples == 1,
            r.load_op == 1,
            r.store_op == 0,
            r.stencil_load_op == 2,
            r.stencil_store_op == 1,
            r.initial_layout == 0,
            r.final_layout == 1000001002,
            r.color_attachment == 0,
            r.color_attachment_layout == 2,
            r.bind_point == 0,
    {
        RenderPassConfig {
            format: self.swap_chain_format.unwrap().format,
            samples: sample_count_1(),
            load_op: load_op_clear(),
            store_op: store_op_store(),
            stencil_load_op: load_op_dont_care(),
            stencil_store_op: store_op_dont_care(),
            initial_layout: image_layout_undefined(),
            final_layout: image_layout_present_src(),
            color_attachment: 0,
            color_attachment_layout: image_layout_color_attachment_optimal(),
            bind_point: pipeline_bind_point_graphics(),
        }
    }

    /// Records the render pass.
    pub fn record_render_pass(&mut self, render_pass: u64)
        ensures
            *final(self) == (VulkanGraphics { render_pass: Some(render_pass), ..*old(self) }),
    {
        self.render_pass = Some(render_pass);
    }

    /// Forgets the swap chain, its images, format, present mode and extent,
    /// and hands back the swap chain, which the caller destroys.
    pub fn take_swap_chain(&mut self) -> (r: Option<u64>)
        ensures
            r == old(self).swap_chain,
            swap_chain_released(*old(self), *final(self)),
            final(self).swap_chain is None,
            final(self).images@.len() == 0,
            final(self).swap_chain_format is None,
            final(self).swap_chain_present_mode is None,
            final(self).swap_chain_extent is None,
            final(self).logical_device == old(self).logical_device,
            final(self).instance == old(self).instance,
            final(self).image_views@ == old(self).image_views@,
    {
        self.swap_chain_format = None;
        self.swap_chain_present_mode = None;
        self.swap_chain_extent = None;
        self.images.clear();
        self.swap_chain.take()
    }

    /// Forgets the logical device and hands it back; the caller destroys it.
    pub fn take_logical_device(&mut self) -> (r: Option<ash::Device>)
        ensures
            r == old(self).logical_device,
            *final(self) == (VulkanGraphics { logical_device: None, ..*old(self) }),
    {
        self.logical_device.take()
    }

    /// Forgets the instance and hands it back; the caller destroys it.
    pub fn take_instance(&mut self) -> (r: Option<ash::Instance>)
        ensures
            r == old(self).instance,
            *final(self) == (VulkanGraphics { instance: None, ..*old(self) }),
    {
        self.instance.take()
    }

    /// Tears the renderer down: hands back, for the caller to destroy in this
    /// order, the image views, the swap chain, the logical device, the debug
    /// messenger and the instance. The state keeps its image views and its
    /// debug messenger.
    pub fn teardown(&mut self) -> (t: Teardown)
        ensures
            t.image_views@ == old(self).image_views@,
            t.swap_chain == old(self).swap_chain,
            t.logical_device == old(self).logical_device,
            t.debug_messenger == old(self).debug_messenger,
            t.instance == old(self).instance,
            torn_down(*old(self), *final(self)),
            final(self).swap_chain is None,
            final(self).images@.len() == 0,
            final(self).swap_chain_format is None,
            final(self).swap_chain_present_mode is None,
            final(self).swap_chain_extent is None,
            final(self).logical_device is None,
            final(self).instance is None,
            final(self).image_views@ == old(self).image_views@,
            final(self).debug_messenger == old(self).debug_messenger,
    {
        let image_views = clone_handles(&self.image_views);
        let swap_chain = self.take_swap_chain();
        let logical_device = self.take_logical_device();
        let debug_messenger = self.debug_messenger;
        let instance = self.take_instance();
        Teardown { image_views, swap_chain, logical_device, debug_messenger, instance }
    }

    /// The paths of the vertex and fragment shaders: `main.vert.spv` and
    /// `main.frag.spv` in the shader directory; fails when none was set.
    pub fn shader_file_names(&self) -> (r: GraphicsResult<(String, String)>)
        ensures
            r is Ok <==> shader_files_of(*self) is Some,
            r matches Ok(names) ==> shader_files_of(*self) == Some((names.0@, names.1@)),
            r is Ok <==> self.shader_path is Some,
            r matches Ok(names) ==> {
                &&& names.0@ == self.shader_path->0@ + "/main.vert.spv"@
                &&& names.1@ == self.shader_path->0@ + "/main.frag.spv"@
            },
            r matches Err(e) ==> e.message() == "Shader path not set"@,
    {
        match &self.shader_path {
            None => Err(GraphicsError::vulkan("Shader path not set")),
            Some(path) => {
                let vert = path.clone().concat("/main.vert.spv");
                let frag = path.clone().concat("/main.frag.spv");
                Ok((vert, frag))
            },
        }
    }

    /// The 32-bit words of a SPIR-V binary: each group of four bytes read as
    /// one word in the host's byte order (that of `u32::from_ne_bytes`, vstd's
    /// `endianness()`); trailing bytes that do not fill a word are
    /// dropped.
    pub fn shader_code_words(code: &Vec<u8>) -> (r: Vec<u32>)
        ensures
            r@.len() == code@.len() / 4,
            words_in_order(r@, code@, host_little_endian()),
            forall|i: int|
                0 <= i < r@.len() ==> #[trigger] r@[i] == (if host_little_endian() {
                    code@[4 * i] + code@[4 * i + 1] * 256 + code@[4 * i + 2] * 65536 + code@[4 * i + 3] * 16777216
                } else {
                    code@[4 * i + 3] + code@[4 * i + 2] * 256 + code@[4 * i + 1] * 65536 + code@[4 * i] * 16777216
                }),
    {
        let probe = u32_from_ne_bytes(1, 0, 0, 0);
        Self::shader_code_words_in_order(code, probe == 1)
    }

    /// The 32-bit words of a SPIR-V binary read in a given byte order: each
    /// group of four bytes least significant first when `little_endian`, most
    /// significant first otherwise; trailing bytes that do not fill a word are
    /// dropped.
    pub fn shader_code_words_in_order(code: &Vec<u8>, little_endian: bool) -> (r: Vec<u32>)
        ensures
            r@.len() == code@.len() / 4,
            words_in_order(r@, code@, little_endian),
            forall|i: int|
                0 <= i < r@.len() ==> #[trigger] r@[i] == (if little_endian {
                    code@[4 * i] + code@[4 * i + 1] * 256 + code@[4 * i + 2] * 65536 + code@[4 * i + 3] * 16777216
                } else {
                    code@[4 * i + 3] + code@[4 * i + 2] * 256 + code@[4 * i + 1] * 65536 + code@[4 * i] * 16777216
                }),
    {
        let len = code.len();
        let n = len / 4;
        let mut words: Vec<u32> = Vec::new();
        let mut i: usize = 0;
        while i < n
            invariant
                len == code@.len(),
                n == len / 4,
                i <= n,
                words@.len() == i,
                forall|k: int| 0 <= k < i ==> #[trigger] words@[k] == word_at(code@, k, little_endian),
            decreases n - i,
        {
            assert(4 * i + 3 < len) by (nonlinear_arith)
                requires
                    i < n,
                    n == len / 4,
            ;
            let b0 = code[4 * i];
            let b1 = code[4 * i + 1];
            let b2 = code[4 * i + 2];
            let b3 = code[4 * i + 3];
            let w = if little_endian {
                word_from_bytes(b0, b1, b2, b3)
            } else {
                word_from_bytes(b3, b2, b1, b0)
            };
            words.push(w);
            i = i + 1;
        }
        words
    }
}

impl Default for VulkanGraphics {
    /// A renderer with nothing created and no shader path.
    fn default() -> (r: Self)
        ensures
            r.is_initial(),
            r.entry is None && r.instance is None && r.logical_device is None && r.physical_device is None,
            r.surface is None && r.swap_chain is None && r.render_pass is None && r.debug_messenger is None,
            r.queues@.len() == 0 && r.images@.len() == 0 && r.image_views@.len() == 0,
            r.swap_chain_format is None && r.swap_chain_present_mode is None && r.swap_chain_extent is None,
            r.shader_path is None,
    {
        VulkanGraphics {
            entry: None,
            instance: None,
            surface_loader: None,
            swapchain_loader: None,
            physical_device: None,
            logical_device: None,
            surface: None,
            queues: Vec::new(),
            swap_chain: None,
            images: Vec::new(),
            swap_chain_format: None,
            swap_chain_present_mode: None,
            swap_chain_extent: None,
            image_views: Vec::new(),
            render_pass: None,
            debug_util: None,
            debug_messenger: None,
            shader_path: None,
        }
    }
}

impl GraphicsError {
    /// The error for a failed Vulkan call whose result `ash` prints as `detail`:
    /// `Vulkan error: ` followed by `detail`.
    pub fn vulkan_result(detail: &str) -> (e: GraphicsError)
        ensures
            e.message() == "Vulkan error: "@ + detail@,
    {
        GraphicsError::VulkanError(String::from_str("Vulkan error: ").concat(detail))
    }

    /// The error for a Vulkan call that returned the raw result `code`.
    pub fn from_vk_result(code: i32) -> (e: GraphicsError)
        ensures
            e.message() == "Vulkan error: "@ + vk_result_debug_text(code),
    {
        let detail = vk_result_text(code);
        Self::vulkan_result(detail.as_str())
    }

    /// The error for a failed read whose `std::io::Error` prints as `detail`:
    /// `IO error: ` followed by `detail`.
    pub fn io(detail: &str) -> (e: GraphicsError)
        ensures
            e.message() == "IO error: "@ + detail@,
    {
        GraphicsError::VulkanError(String::from_str("IO error: ").concat(detail))
    }
}


/// When the window size is used, the chosen extent lies within the surface's
/// bounds; otherwise it is the surface's current extent.
pub proof fn lemma_extent_within_bounds(capabilities: SurfaceCapabilities, width: u32, height: u32)
    requires
        extent_bounds_ordered(capabilities),
    ensures
        ({
            let e = chosen_extent(capabilities, width, height);
            if capabilities.current_extent.width == u32::MAX {
                &&& capabilities.min_image_extent.width <= e.width <= capabilities.max_image_extent.width
                &&& capabilities.min_image_extent.height <= e.height <= capabilities.max_image_extent.height
            } else {
                e == capabilities.current_extent
            }
        }),
{
}

/// The swap chain asks for at least one image, for no more than the surface's
/// maximum when it sets one, and for at least its minimum whenever the maximum
/// allows that.
pub proof fn lemma_image_count_within_bounds(capabilities: SurfaceCapabilities)
    requires
        capabilities.min_image_count < u32::MAX,
    ensures
        chosen_image_count(capabilities) >= 1,
        capabilities.max_image_count > 0 ==> chosen_image_count(capabilities) <= capabilities.max_image_count,
        (capabilities.max_image_count == 0 || capabilities.max_image_count >= capabilities.min_image_count)
            ==> chosen_image_count(capabilities) >= capabilities.min_image_count,
{
}

/// The chosen surface format is one of those offered, and the chosen present
/// mode is either offered or `FIFO`.
pub proof fn lemma_choices_are_offered(formats: Seq<SurfaceFormat>, present_modes: Seq<i32>)
    requires
        formats.len() > 0,
    ensures
        formats.contains(chosen_format(formats)),
        present_modes.contains(chosen_present_mode(present_modes)) || chosen_present_mode(present_modes) == 2,
{
}

/// The distinct queue families hold the graphics and the present family,
/// each once: one family when they coincide, two otherwise.
pub proof fn lemma_unique_families(indices: QueueFamilyIndices)
    requires
        indices.complete(),
    ensures
        unique_families(indices).contains(indices.graphics_family->0),
        unique_families(indices).contains(indices.present_family->0),
        unique_families(indices).no_duplicates(),
        unique_families(indices).len() == 1 <==> indices.graphics_family == indices.present_family,
        forall|f: u32| #[trigger] unique_families(indices).contains(f) ==> f == indices.graphics_family->0 || f
            == indices.present_family->0,
{
    let u = unique_families(indices);
    assert(u[0] == indices.graphics_family->0);
    if indices.graphics_family != indices.present_family {
        assert(u[1] == indices.present_family->0);
    } else {
        assert(u[0] == indices.present_family->0);
    }
}

/// A device that is found suitable can be set up: its queue families are
/// complete, so the logical device gets its queue families, and the surface
/// offers it a format and a present mode, so a swap chain can be configured.
pub proof fn lemma_suitable_device_can_be_set_up(
    indices: QueueFamilyIndices,
    extensions_supported: bool,
    swap_chain_support: Option<SwapChainSupportDetails>,
)
    requires
        device_suitable(indices, extensions_supported, swap_chain_support),
    ensures
        indices.complete(),
        extensions_supported,
        swap_chain_support is Some,
        swap_chain_support->0.formats@.len() > 0,
        swap_chain_support->0.present_modes@.len() > 0,
{
}

/// A teardown leaves no swap chain, logical device or instance behind, so a
/// second teardown hands back none of them and changes nothing more.
pub proof fn lemma_teardown_twice(first: VulkanGraphics, second: VulkanGraphics, third: VulkanGraphics)
    requires
        torn_down(first, second),
        torn_down(second, third),
    ensures
        second.swap_chain is None,
        second.logical_device is None,
        second.instance is None,
        second.images@ == Seq::<u64>::empty(),
        third == (VulkanGraphics { images: third.images, ..second }),
        third.images@ == second.images@,
{
}

/// Recording, releasing and tearing down the swap chain each leave its format,
/// present mode and extent recorded together, and only beside a swap chain;
/// the initial state has none of them.
pub proof fn lemma_swap_chain_record_kept(
    before: VulkanGraphics,
    after: VulkanGraphics,
    swap_chain: u64,
    images: Vec<u64>,
    config: SwapChainConfig,
)
    requires
        swap_chain_recorded(before, after, swap_chain, images, config) || swap_chain_released(before, after)
            || torn_down(before, after) || after.is_initial(),
    ensures
        swap_chain_record_consistent(after),
{
}

/// Setting the shader directory to `path` fixes where the shaders are read
/// from: `main.vert.spv` and `main.frag.spv` in `path`, whatever was set before.
pub proof fn lemma_shader_files_follow_path(before: VulkanGraphics, after: VulkanGraphics, path: Seq<char>)
    requires
        after.shader_path is Some,
        after.shader_path->0@ == path,
        after == (VulkanGraphics { shader_path: after.shader_path, ..before }),
    ensures
        shader_files_of(after) == Some(shader_files(path)),
        shader_files(path).0 == path + "/main.vert.spv"@,
        shader_files(path).1 == path + "/main.frag.spv"@,
{
}

/// A device supports the required extensions exactly when each required
/// name, at every index, is the name of some available extension.
pub proof fn lemma_extension_support_means_each_available(available: Seq<String>, required: Seq<String>)
    ensures
        extensions_supported(available, required) <==> forall|k: int|
            #![trigger required[k]]
            0 <= k < required.len() ==> exists|j: int|
                #![trigger available[j]]
                0 <= j < available.len() && available[j]@ == required[k]@,
        required.len() > 0 && (forall|j: int| 0 <= j < available.len() ==> (#[trigger] available[j])@ != required[0]@)
            ==> !extensions_supported(available, required),
{
    if extensions_supported(available, required) {
        assert forall|k: int| #![trigger required[k]] 0 <= k < required.len() implies exists|j: int|
            #![trigger available[j]]
            0 <= j < available.len() && available[j]@ == required[k]@ by {
            assert(names_contain(available, required[k]@));
        }
    }
    if forall|k: int|
        #![trigger required[k]]
        0 <= k < required.len() ==> exists|j: int|
            #![trigger available[j]]
            0 <= j < available.len() && available[j]@ == required[k]@ {
        assert forall|k: int| 0 <= k < required.len() implies names_contain(available, #[trigger] required[k]@) by {
            let j = choose|j: int| #![trigger available[j]] 0 <= j < available.len() && available[j]@ == required[k]@;
            assert(available[j]@ == required[k]@);
        }
    }
    if required.len() > 0 && (forall|j: int| 0 <= j < available.len() ==> (#[trigger] available[j])@ != required[0]@) {
        assert(!names_contain(available, required[0]@));
    }
}

/// The shader words are read in the host's byte order: on a little-endian
/// host a word's least significant byte is the first of its four bytes and its
/// most significant byte the last; on a big-endian host the reverse. The two
/// readings of the same four bytes are byte-reversals of each other.
pub proof fn lemma_words_follow_host_byte_order(words: Seq<u32>, code: Seq<u8>, i: int)
    requires
        words_in_order(words, code, host_little_endian()),
        0 <= i < words.len(),
        words.len() == code.len() / 4,
    ensures
        host_little_endian() ==> words[i] % 256 == code[4 * i] && words[i] / 16777216 == code[4 * i + 3],
        !host_little_endian() ==> words[i] % 256 == code[4 * i + 3] && words[i] / 16777216 == code[4 * i],
        word_at(code, i, true) % 256 == word_at(code, i, false) / 16777216,
        word_at(code, i, false) % 256 == word_at(code, i, true) / 16777216,
{
    assert(4 * i + 3 < code.len()) by (nonlinear_arith)
        requires
            0 <= i < code.len() / 4,
    ;
    let (b0, b1, b2, b3) = (code[4 * i], code[4 * i + 1], code[4 * i + 2], code[4 * i + 3]);
    lemma_word_bytes(b0, b1, b2, b3);
    lemma_word_bytes(b3, b2, b1, b0);
}

/// The least and the most significant byte of the word read least
/// significant byte first.
proof fn lemma_word_bytes(b0: u8, b1: u8, b2: u8, b3: u8)
    ensures
        le_word(b0, b1, b2, b3) % 256 == b0,
        le_word(b0, b1, b2, b3) / 16777216 == b3,
{
    let w: int = b0 as int + b1 as int * 256 + b2 as int * 65536 + b3 as int * 16777216;
    assert(0 <= w <= u32::MAX) by (nonlinear_arith)
        requires
            w == b0 as int + b1 as int * 256 + b2 as int * 65536 + b3 as int * 16777216,
            0 <= b0 <= 255,
            0 <= b1 <= 255,
            0 <= b2 <= 255,
            0 <= b3 <= 255,
    ;
    assert(w % 256 == b0 && w / 16777216 == b3) by (nonlinear_arith)
        requires
            w == b0 as int + b1 as int * 256 + b2 as int * 65536 + b3 as int * 16777216,
            0 <= b0 <= 255,
            0 <= b1 <= 255,
            0 <= b2 <= 255,
            0 <= b3 <= 255,
    ;
}

/// MAILBOX is chosen whenever it is offered, at any position, and FIFO
/// otherwise.
pub proof fn lemma_mailbox_whenever_offered(available: Seq<i32>)
    ensures
        (exists|j: int| 0 <= j < available.len() && #[trigger] available[j] == 1) ==> chosen_present_mode(available)
            == 1,
        (forall|j: int| 0 <= j < available.len() ==> #[trigger] available[j] != 1) ==> chosen_present_mode(
            available,
        ) == 2,
{
    if exists|j: int| 0 <= j < available.len() && #[trigger] available[j] == 1 {
        let j = choose|j: int| 0 <= j < available.len() && #[trigger] available[j] == 1;
        assert(available.contains(available[j]));
    }
}

/// The preferred format is chosen whenever it is offered, at any position,
/// and the first offered format otherwise.
pub proof fn lemma_preferred_format_whenever_offered(available: Seq<SurfaceFormat>)
    requires
        available.len() > 0,
    ensures
        (exists|j: int| 0 <= j < available.len() && #[trigger] available[j].format == 50 && available[j].color_space
            == 0) ==> chosen_format(available).format == 50 && chosen_format(available).color_space == 0,
        (forall|j: int|
            0 <= j < available.len() ==> !(#[trigger] available[j].format == 50 && available[j].color_space == 0))
            ==> chosen_format(available) == available[0],
{
    if exists|j: int| 0 <= j < available.len() && #[trigger] available[j].format == 50 && available[j].color_space == 0 {
        let j = choose|j: int|
            0 <= j < available.len() && #[trigger] available[j].format == 50 && available[j].color_space == 0;
        assert(available[j] == preferred_format());
        assert(available.contains(available[j]));
    } else {
        assert forall|j: int| 0 <= j < available.len() implies available[j] != preferred_format() by {
            if available[j] == preferred_format() {
                assert(available[j].format == 50 && available[j].color_space == 0);
            }
        }
    }
}

/// A device is suitable exactly when it has a graphics and a present family,
/// supports the extensions, and its surface offers a format and a present
/// mode; nothing else about the surface, its capabilities in particular,
/// matters.
pub proof fn lemma_suitability_conditions(
    indices: QueueFamilyIndices,
    extensions_supported: bool,
    swap_chain_support: Option<SwapChainSupportDetails>,
)
    ensures
        device_suitable(indices, extensions_supported, swap_chain_support) <==> {
            &&& indices.graphics_family is Some
            &&& indices.present_family is Some
            &&& extensions_supported
            &&& swap_chain_support is Some
            &&& swap_chain_support->0.formats@.len() > 0
            &&& swap_chain_support->0.present_modes@.len() > 0
        },
{
}

/// Two surfaces that offer as many formats and present modes make a device
/// equally suitable, whatever their capabilities.
pub proof fn lemma_suitability_ignores_capabilities(
    indices: QueueFamilyIndices,
    extensions_supported: bool,
    a: SwapChainSupportDetails,
    b: SwapChainSupportDetails,
)
    requires
        a.formats@.len() == b.formats@.len(),
        a.present_modes@.len() == b.present_modes@.len(),
    ensures
        device_suitable(indices, extensions_supported, Some(a)) == device_suitable(indices, extensions_supported, Some(b)),
{
}

/// Each image view is of its own image, in the swap chain's format.
pub proof fn lemma_views_in_swap_chain_format(image: u64, format: i32)
    ensures
        image_view_of(image, format).image == image,
        image_view_of(image, format).format == format,
        image_view_of(image, format).view_type == 1,
        image_view_of(image, format).aspect_mask == 1,
{
}

/// The device extensions the renderer asks for.
pub open spec fn device_extensions(portability_subset: bool) -> Seq<Seq<char>> {
    if portability_subset {
        seq!["VK_KHR_swapchain"@, "VK_KHR_portability_subset"@]
    } else {
        seq!["VK_KHR_swapchain"@]
    }
}

/// The instance extensions the renderer asks for after the window system's.
pub open spec fn instance_extensions_after_window(portability_enumeration: bool) -> Seq<Seq<char>> {
    if portability_enumeration {
        seq!["VK_KHR_portability_enumeration"@, "VK_EXT_debug_utils"@, "VK_KHR_get_physical_device_properties2"@]
    } else {
        seq!["VK_EXT_debug_utils"@, "VK_KHR_get_physical_device_properties2"@]
    }
}

/// Some name in `names` is `name`.
pub open spec fn names_contain(names: Seq<String>, name: Seq<char>) -> bool {
    exists|j: int| 0 <= j < names.len() && (#[trigger] names[j])@ == name
}

/// Every required extension is available.
pub open spec fn extensions_supported(available: Seq<String>, required: Seq<String>) -> bool {
    forall|k: int| 0 <= k < required.len() ==> names_contain(available, #[trigger] required[k]@)
}

/// A physical device is suitable: complete queue families, the extensions,
/// and at least one surface format and one present mode.
pub open spec fn device_suitable(
    indices: QueueFamilyIndices,
    extensions_supported: bool,
    swap_chain_support: Option<SwapChainSupportDetails>,
) -> bool {
    &&& indices.complete()
    &&& extensions_supported
    &&& swap_chain_support matches Some(details)
    &&& details.formats@.len() > 0
    &&& details.present_modes@.len() > 0
}

/// The word whose bytes, most significant last, are `b0` to `b3`.
pub open spec fn le_word(b0: u8, b1: u8, b2: u8, b3: u8) -> u32 {
    (b0 as int + b1 as int * 256 + b2 as int * 65536 + b3 as int * 16777216) as u32
}

/// The `i`-th word of `code`, read least significant byte first when
/// `little_endian`, most significant byte first otherwise.
pub open spec fn word_at(code: Seq<u8>, i: int, little_endian: bool) -> u32 {
    if little_endian {
        le_word(code[4 * i], code[4 * i + 1], code[4 * i + 2], code[4 * i + 3])
    } else {
        le_word(code[4 * i + 3], code[4 * i + 2], code[4 * i + 1], code[4 * i])
    }
}

/// The host stores the least significant byte of a word first.
pub open spec fn host_little_endian() -> bool {
    vstd::endian::endianness() is Little
}

/// Each of `words` is the word at its index in `code`, all read in the same
/// byte order.
pub open spec fn words_in_order(words: Seq<u32>, code: Seq<u8>, little_endian: bool) -> bool {
    forall|i: int| 0 <= i < words.len() ==> #[trigger] words[i] == word_at(code, i, little_endian)
}

/// `u32::from_ne_bytes` from std: the word whose memory representation in the
/// host's byte order is `[b0, b1, b2, b3]`. Rust targets are either
/// little-endian or big-endian, so it is the reading of the bytes least
/// significant first on a little-endian host and most significant first on a
/// big-endian one; the host's byte order is vstd's `endianness()`, which is
/// not stated.
#[verifier::external_body]
fn u32_from_ne_bytes(b0: u8, b1: u8, b2: u8, b3: u8) -> (r: u32)
    ensures
        r == (if host_little_endian() { le_word(b0, b1, b2, b3) } else { le_word(b3, b2, b1, b0) }),
{
    u32::from_ne_bytes([b0, b1, b2, b3])
}

/// The word whose bytes, least significant first, are `b0` to `b3`.
fn word_from_bytes(b0: u8, b1: u8, b2: u8, b3: u8) -> (r: u32)
    ensures
        r == le_word(b0, b1, b2, b3),
{
    let (w0, w1, w2, w3) = (b0 as u32, b1 as u32, b2 as u32, b3 as u32);
    assert(w0 + w1 * 256 + w2 * 65536 + w3 * 16777216 <= u32::MAX) by (nonlinear_arith)
        requires
            w0 <= 255,
            w1 <= 255,
            w2 <= 255,
            w3 <= 255,
    ;
    w0 + w1 * 256 + w2 * 65536 + w3 * 16777216
}

/// Whether some name in `names` equals `name`.
pub fn contains_name(names: &Vec<String>, name: &String) -> (r: bool)
    ensures
        r == names_contain(names@, name@),
        r <==> exists|j: int| 0 <= j < names@.len() && (#[trigger] names@[j])@ == name@,
{
    let mut j: usize = 0;
    while j < names.len()
        invariant
            j <= names.len(),
            forall|k: int| 0 <= k < j ==> (#[trigger] names@[k])@ != name@,
        decreases names.len() - j,
    {
        if names[j] == *name {
            return true;
        }
        j = j + 1;
    }
    false
}

/// A copy of a list of raw handles.
fn clone_handles(handles: &Vec<u64>) -> (r: Vec<u64>)
    ensures
        r@ == handles@,
{
    let mut out: Vec<u64> = Vec::new();
    let mut i: usize = 0;
    while i < handles.len()
        invariant
            i <= handles.len(),
            out@ == handles@.subrange(0, i as int),
        decreases handles.len() - i,
    {
        out.push(handles[i]);
        i = i + 1;
    }
    assert(out@ =~= handles@);
    out
}

} // verus!
