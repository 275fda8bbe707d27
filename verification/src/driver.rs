//! The few computations that are taken from `ash` rather than restated here.
//! Each contract below is believed, not proved.

use ash::vk;
use vstd::prelude::*;

verus! {

/// `ash::vk::QueueFlags::contains`: whether every bit of `wanted` is set in
/// `flags`. Both masks travel as raw bits and are rebuilt with `from_raw`.
#[verifier::external_body]
pub(crate) fn queue_flags_contain(flags: u32, wanted: u32) -> (held: bool)
    ensures
        held == (flags & wanted == wanted),
{
    vk::QueueFlags::from_raw(flags).contains(vk::QueueFlags::from_raw(wanted))
}

/// `ash::vk::make_api_version`: the four parts of a version packed into one
/// number. The variant is shifted left by 29 bits, the major part by 22 and
/// the minor part by 12; these and the patch are or-ed together. Bits that a
/// shift moves past the top are lost.
#[verifier::external_body]
pub(crate) fn make_api_version(variant: u32, major: u32, minor: u32, patch: u32) -> (packed: u32)
    ensures
        packed == (variant << 29) | (major << 22) | (minor << 12) | patch,
{
    vk::make_api_version(variant, major, minor, patch)
}

/// `ash::extensions::ext::DebugUtils::name`: the name under which the driver
/// knows the debug-utils extension.
#[verifier::external_body]
pub(crate) fn debug_utils_extension_name() -> (name: String)
    ensures
        name@ == "VK_EXT_debug_utils"@,
{
    ash::extensions::ext::DebugUtils::name().to_string_lossy().into_owned()
}

/// `ash::extensions::khr::Surface::name`: the name under which the driver
/// knows the surface extension.
#[verifier::external_body]
pub(crate) fn surface_extension_name() -> (name: String)
    ensures
        name@ == "VK_KHR_surface"@,
{
    ash::extensions::khr::Surface::name().to_string_lossy().into_owned()
}

/// `ash::extensions::khr::XlibSurface::name`: the name under which the driver
/// knows the Xlib surface extension.
#[verifier::external_body]
pub(crate) fn xlib_surface_extension_name() -> (name: String)
    ensures
        name@ == "VK_KHR_xlib_surface"@,
{
    ash::extensions::khr::XlibSurface::name().to_string_lossy().into_owned()
}

/// `ash::extensions::khr::Swapchain::name`: the name under which the driver
/// knows the swapchain extension.
#[verifier::external_body]
pub(crate) fn swapchain_extension_name() -> (name: String)
    ensures
        name@ == "VK_KHR_swapchain"@,
{
    ash::extensions::khr::Swapchain::name().to_string_lossy().into_owned()
}

} // verus!
