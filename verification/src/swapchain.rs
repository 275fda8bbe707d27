//! Sizing an image chain against what the surface allows, and describing the
//! views and framebuffers that go with its images.

use crate::codes::{
    COMPOSITE_ALPHA_OPAQUE, FORMAT_B8G8R8A8_SRGB, IMAGE_ASPECT_COLOR,
    IMAGE_USAGE_COLOR_ATTACHMENT, IMAGE_VIEW_TYPE_2D, PRESENT_MODE_FIFO, SHARING_MODE_EXCLUSIVE,
};
use crate::error::{BootstrapError, ConfigIssue, Stage};
use crate::queue::QueueFamilies;
use crate::resource::{Resource, ResourceKind};
use crate::surface::{Extent2D, SurfaceCapabilities, SurfaceFormat};
use vstd::prelude::*;

verus! {

/// The number of images that is asked for where the surface allows it.
pub const PREFERRED_IMAGE_COUNT: u32 = 3;

/// The chain that is asked of the driver.
///
/// The images are used as colour attachments by one queue family only, the
/// graphics family; they are presented opaque, in the order in which they
/// were queued.
#[derive(Clone, Copy, Debug, PartialEq, Eq, Structural)]
pub struct SwapChain {
    pub min_image_count: u32,
    pub surface_format: SurfaceFormat,
    pub extent: Extent2D,
    pub array_layers: u32,
    pub usage: u32,
    pub sharing_mode: i32,
    pub queue_family_index: u32,
    pub pre_transform: u32,
    pub composite_alpha: u32,
    pub present_mode: i32,
}

/// One 2D colour view of one chain image.
#[derive(Clone, Copy, Debug, PartialEq, Eq, Structural)]
pub struct ImageViewDescription {
    pub image: u64,
    pub view_type: i32,
    pub format: i32,
    pub aspect_mask: u32,
    pub base_mip_level: u32,
    pub level_count: u32,
    pub base_array_layer: u32,
    pub layer_count: u32,
}

/// One framebuffer over one image view.
#[derive(Clone, Copy, Debug, PartialEq, Eq, Structural)]
pub struct FramebufferDescription {
    pub render_pass: u64,
    pub attachment: u64,
    pub width: u32,
    pub height: u32,
    pub layers: u32,
}

pub open spec fn larger(a: int, b: int) -> int {
    if a >= b {
        a
    } else {
        b
    }
}

/// `value` brought into `low..=high`: raised to `low` where it is below,
/// else lowered to `high` where it is above.
pub open spec fn clamped(value: int, low: int, high: int) -> int {
    if value < low {
        low
    } else if value > high {
        high
    } else {
        value
    }
}

/// The image count for a surface that wants at least `min_count` images and
/// allows at most `max_count`, where `max_count == 0` stands for no limit:
/// three, or the minimum if that is more, but never more than the limit.
pub open spec fn image_count(min_count: u32, max_count: u32) -> int {
    let wanted = larger(PREFERRED_IMAGE_COUNT as int, min_count as int);
    if max_count == 0 || wanted <= max_count {
        wanted
    } else {
        max_count as int
    }
}

pub fn choose_image_count(min_count: u32, max_count: u32) -> (count: u32)
    ensures
        count == image_count(min_count, max_count),
        max_count == 0 ==> count >= PREFERRED_IMAGE_COUNT && count >= min_count,
        max_count > 0 ==> count == clamped(
            larger(PREFERRED_IMAGE_COUNT as int, min_count as int),
            min_count as int,
            max_count as int,
        ),
{
    let wanted = if min_count > PREFERRED_IMAGE_COUNT {
        min_count
    } else {
        PREFERRED_IMAGE_COUNT
    };
    if max_count != 0 && wanted > max_count {
        max_count
    } else {
        wanted
    }
}

/// Without an upper limit the count is at least three and at least the
/// surface's minimum.
pub proof fn lemma_unbounded_image_count(min_count: u32)
    ensures
        image_count(min_count, 0) >= 3,
        image_count(min_count, 0) >= min_count,
        image_count(min_count, 0) == larger(3, min_count as int),
{
}

/// With an upper limit the count is three or the minimum, whichever is more,
/// clamped to the surface's bounds.
pub proof fn lemma_bounded_image_count(min_count: u32, max_count: u32)
    requires
        max_count > 0,
    ensures
        image_count(min_count, max_count) == clamped(
            larger(3, min_count as int),
            min_count as int,
            max_count as int,
        ),
        image_count(min_count, max_count) <= max_count,
        min_count <= max_count ==> image_count(min_count, max_count) >= min_count,
        max_count >= 3 ==> image_count(min_count, max_count) >= 3,
{
}

/// The chain for a surface with these capabilities, in `format`, used by the
/// queue family `family`.
pub open spec fn chain_for(
    capabilities: SurfaceCapabilities,
    format: SurfaceFormat,
    family: u32,
) -> SwapChain {
    SwapChain {
        min_image_count: image_count(
            capabilities.min_image_count,
            capabilities.max_image_count,
        ) as u32,
        surface_format: format,
        extent: capabilities.current_extent,
        array_layers: 1,
        usage: IMAGE_USAGE_COLOR_ATTACHMENT,
        sharing_mode: SHARING_MODE_EXCLUSIVE,
        queue_family_index: family,
        pre_transform: capabilities.current_transform,
        composite_alpha: COMPOSITE_ALPHA_OPAQUE,
        present_mode: PRESENT_MODE_FIFO,
    }
}

/// What is amiss with the surface's answers, if anything: the first of no
/// format, no present mode, no graphics family.
pub open spec fn chain_issue(
    formats: Seq<SurfaceFormat>,
    present_modes: Seq<i32>,
    families: QueueFamilies,
) -> Option<ConfigIssue> {
    if formats.len() == 0 {
        Some(ConfigIssue::NoSurfaceFormat)
    } else if present_modes.len() == 0 {
        Some(ConfigIssue::NoPresentMode)
    } else if families.graphics_queue_index is None {
        Some(ConfigIssue::NoGraphicsQueue)
    } else {
        None
    }
}

/// The view of chain image `image`. Its format is fixed, whatever format the
/// chain itself has.
pub open spec fn view_of(image: u64) -> ImageViewDescription {
    ImageViewDescription {
        image,
        view_type: IMAGE_VIEW_TYPE_2D,
        format: FORMAT_B8G8R8A8_SRGB,
        aspect_mask: IMAGE_ASPECT_COLOR,
        base_mip_level: 0,
        level_count: 1,
        base_array_layer: 0,
        layer_count: 1,
    }
}

pub open spec fn as_resource(kind: ResourceKind, handle: u64) -> Resource {
    Resource { kind, handle }
}

/// The order in which a chain's objects are destroyed: the framebuffers and
/// then the views, each from the last made to the first, then the chain.
pub open spec fn chain_cleanup(
    swapchain: u64,
    image_views: Seq<u64>,
    framebuffers: Seq<u64>,
) -> Seq<Resource> {
    framebuffers.reverse().map_values(|h: u64| as_resource(ResourceKind::Framebuffer, h))
        + image_views.reverse().map_values(|h: u64| as_resource(ResourceKind::ImageView, h))
        + seq![as_resource(ResourceKind::Swapchain, swapchain)]
}

impl SwapChain {
    /// The framebuffer over `attachment` for this chain: as large as the
    /// chain's images, with a single layer.
    pub open spec fn framebuffer_over(self, render_pass: u64, attachment: u64)
        -> FramebufferDescription {
        FramebufferDescription {
            render_pass,
            attachment,
            width: self.extent.width,
            height: self.extent.height,
            layers: 1,
        }
    }

    /// Settles the chain from what the surface reported.
    ///
    /// The first reported format is taken. The extent is the surface's
    /// current one. Fails where the surface lists no format or no present
    /// mode, or where no graphics family was found.
    pub fn init(
        capabilities: &SurfaceCapabilities,
        formats: &Vec<SurfaceFormat>,
        present_modes: &Vec<i32>,
        queue_families: &QueueFamilies,
    ) -> (chain: Result<SwapChain, BootstrapError>)
        ensures
            match chain {
                Ok(chain) => {
                    &&& chain_issue(formats@, present_modes@, *queue_families) is None
                    &&& chain == chain_for(
                        *capabilities,
                        formats@[0],
                        queue_families.graphics_queue_index.unwrap(),
                    )
                },
                Err(error) => {
                    &&& chain_issue(formats@, present_modes@, *queue_families) matches Some(issue)
                    &&& error == (BootstrapError::Configuration { stage: Stage::ImageChain, issue })
                },
            },
    {
        if formats.len() == 0 {
            return Err(
                BootstrapError::Configuration {
                    stage: Stage::ImageChain,
                    issue: ConfigIssue::NoSurfaceFormat,
                },
            );
        }
        if present_modes.len() == 0 {
            return Err(
                BootstrapError::Configuration {
                    stage: Stage::ImageChain,
                    issue: ConfigIssue::NoPresentMode,
                },
            );
        }
        let family = match queue_families.graphics_queue_index {
            Some(family) => family,
            None => {
                return Err(
                    BootstrapError::Configuration {
                        stage: Stage::ImageChain,
                        issue: ConfigIssue::NoGraphicsQueue,
                    },
                );
            },
        };
        Ok(
            SwapChain {
                min_image_count: choose_image_count(
                    capabilities.min_image_count,
                    capabilities.max_image_count,
                ),
                surface_format: formats[0],
                extent: capabilities.current_extent,
                array_layers: 1,
                usage: IMAGE_USAGE_COLOR_ATTACHMENT,
                sharing_mode: SHARING_MODE_EXCLUSIVE,
                queue_family_index: family,
                pre_transform: capabilities.current_transform,
                composite_alpha: COMPOSITE_ALPHA_OPAQUE,
                present_mode: PRESENT_MODE_FIFO,
            },
        )
    }

    /// Describes one view for each image that the driver made for the chain,
    /// in the order of the images.
    pub fn image_views(&self, images: &Vec<u64>) -> (views: Vec<ImageViewDescription>)
        ensures
            views@ == images@.map_values(|image: u64| view_of(image)),
    {
        let mut views: Vec<ImageViewDescription> = Vec::new();
        let mut i: usize = 0;
        while i < images.len()
            invariant
                i <= images@.len(),
                views@ == images@.take(i as int).map_values(|image: u64| view_of(image)),
            decreases images@.len() - i,
        {
            let image = images[i];
            views.push(
                ImageViewDescription {
                    image,
                    view_type: IMAGE_VIEW_TYPE_2D,
                    format: FORMAT_B8G8R8A8_SRGB,
                    aspect_mask: IMAGE_ASPECT_COLOR,
                    base_mip_level: 0,
                    level_count: 1,
                    base_array_layer: 0,
                    layer_count: 1,
                },
            );
            i = i + 1;
        }
        views
    }

    /// Describes one framebuffer for each image view, in the order of the
    /// views, for use with the render pass `render_pass`.
    pub fn create_framebuffers(&self, image_views: &Vec<u64>, render_pass: u64) -> (framebuffers:
        Vec<FramebufferDescription>)
        ensures
            framebuffers@ == image_views@.map_values(
                |view: u64| self.framebuffer_over(render_pass, view),
            ),
    {
        let mut framebuffers: Vec<FramebufferDescription> = Vec::new();
        let mut i: usize = 0;
        while i < image_views.len()
            invariant
                i <= image_views@.len(),
                framebuffers@ == image_views@.take(i as int).map_values(
                    |view: u64| self.framebuffer_over(render_pass, view),
                ),
            decreases image_views@.len() - i,
        {
            let view = image_views[i];
            framebuffers.push(
                FramebufferDescription {
                    render_pass,
                    attachment: view,
                    width: self.extent.width,
                    height: self.extent.height,
                    layers: 1,
                },
            );
            i = i + 1;
        }
        framebuffers
    }

    /// The chain's objects in the order in which they have to be destroyed.
    /// The images themselves are not listed: they go with the chain.
    pub fn cleanup(swapchain: u64, image_views: &Vec<u64>, framebuffers: &Vec<u64>) -> (order: Vec<
        Resource,
    >)
        ensures
            order@ == chain_cleanup(swapchain, image_views@, framebuffers@),
    {
        let mut order: Vec<Resource> = Vec::new();
        let ghost fb_part = framebuffers@.reverse().map_values(
            |h: u64| as_resource(ResourceKind::Framebuffer, h),
        );
        let ghost view_part = image_views@.reverse().map_values(
            |h: u64| as_resource(ResourceKind::ImageView, h),
        );
        let mut i: usize = framebuffers.len();
        while i > 0
            invariant
                i <= framebuffers@.len(),
                fb_part == framebuffers@.reverse().map_values(
                    |h: u64| as_resource(ResourceKind::Framebuffer, h),
                ),
                order@ == fb_part.take(framebuffers@.len() - i),
            decreases i,
        {
            i = i - 1;
            order.push(Resource { kind: ResourceKind::Framebuffer, handle: framebuffers[i] });
        }
        let mut j: usize = image_views.len();
        while j > 0
            invariant
                j <= image_views@.len(),
                view_part == image_views@.reverse().map_values(
                    |h: u64| as_resource(ResourceKind::ImageView, h),
                ),
                order@ == fb_part + view_part.take(image_views@.len() - j),
            decreases j,
        {
            j = j - 1;
            order.push(Resource { kind: ResourceKind::ImageView, handle: image_views[j] });
        }
        order.push(Resource { kind: ResourceKind::Swapchain, handle: swapchain });
        order
    }
}

} // verus!
