//! What the driver instance is created with.

use crate::debug::{
    CATEGORY_GENERAL, CATEGORY_PERFORMANCE, CATEGORY_VALIDATION, SEVERITY_ERROR,
    SEVERITY_VERBOSE, SEVERITY_WARNING,
};
use crate::driver::{
    debug_utils_extension_name, make_api_version, surface_extension_name,
    xlib_surface_extension_name,
};
use crate::error::{BootstrapError, ConfigIssue, Stage};
use vstd::prelude::*;
use vstd::utf8::encode_utf8;

verus! {

/// What an instance is created with.
#[derive(Debug)]
pub struct InstanceConfig {
    pub application_name: String,
    pub application_version: u32,
    pub api_version: u32,
    pub layers: Vec<String>,
    pub extensions: Vec<String>,
    /// The messages to receive while the instance itself is being created.
    pub diagnostics: crate::debug::Debug,
}

/// Version 1.0.0, variant 0, as one number.
pub const VERSION_1_0_0: u32 = 0x40_0000;

/// The text has a zero byte in it, so it cannot be passed to the driver as a
/// zero-terminated string.
pub open spec fn has_nul(text: Seq<char>) -> bool {
    exists|i: int| 0 <= i < encode_utf8(text).len() && #[trigger] encode_utf8(text)[i] == 0
}

/// Every name can be passed to the driver.
pub open spec fn names_usable(names: Seq<String>) -> bool {
    forall|i: int| 0 <= i < names.len() ==> !has_nul((#[trigger] names[i])@)
}

pub fn contains_nul(text: &str) -> (found: bool)
    ensures
        found == has_nul(text@),
{
    let bytes = text.as_bytes();
    let mut i: usize = 0;
    while i < bytes.len()
        invariant
            i <= bytes@.len(),
            bytes@ == encode_utf8(text@),
            forall|j: int| 0 <= j < i ==> #[trigger] bytes@[j] != 0,
        decreases bytes@.len() - i,
    {
        if bytes[i] == 0 {
            return true;
        }
        i = i + 1;
    }
    false
}

pub fn all_usable(names: &Vec<String>) -> (usable: bool)
    ensures
        usable == names_usable(names@),
{
    let mut i: usize = 0;
    while i < names.len()
        invariant
            i <= names@.len(),
            forall|j: int| 0 <= j < i ==> !has_nul((#[trigger] names@[j])@),
        decreases names@.len() - i,
    {
        if contains_nul(names[i].as_str()) {
            return false;
        }
        i = i + 1;
    }
    true
}

/// The layers that are enabled where nothing else is asked for: the standard
/// validation layer alone.
pub fn default_layers() -> (layers: Vec<String>)
    ensures
        layers@.len() == 1,
        layers@[0]@ == "VK_LAYER_KHRONOS_validation"@,
{
    let mut layers: Vec<String> = Vec::new();
    layers.push("VK_LAYER_KHRONOS_validation".to_owned());
    layers
}

/// Settles what the instance is created with: the application `hi :)` at
/// version 1.0.0 for API version 1.0.0, the given layers, and the extensions
/// for diagnostics, surfaces and Xlib surfaces. While the instance is being
/// created, messages of every category are received, at every severity but
/// `info`.
///
/// Fails where a layer name cannot be passed to the driver.
pub fn init_instance(layer_names: Vec<String>) -> (config: Result<InstanceConfig, BootstrapError>)
    ensures
        match config {
            Ok(config) => {
                &&& names_usable(layer_names@)
                &&& config.application_name@ == "hi :)"@
                &&& config.application_version == VERSION_1_0_0
                &&& config.api_version == VERSION_1_0_0
                &&& config.layers == layer_names
                &&& config.extensions@.len() == 3
                &&& config.extensions@[0]@ == "VK_EXT_debug_utils"@
                &&& config.extensions@[1]@ == "VK_KHR_surface"@
                &&& config.extensions@[2]@ == "VK_KHR_xlib_surface"@
                &&& config.diagnostics.severity == 0x1101
                &&& config.diagnostics.message_type == 0x7
                &&& config.diagnostics.valid()
            },
            Err(error) => {
                &&& !names_usable(layer_names@)
                &&& error == (BootstrapError::Configuration {
                    stage: Stage::Instance,
                    issue: ConfigIssue::InvalidName,
                })
            },
        },
{
    if !all_usable(&layer_names) {
        return Err(
            BootstrapError::Configuration {
                stage: Stage::Instance,
                issue: ConfigIssue::InvalidName,
            },
        );
    }
    let version = make_api_version(0, 1, 0, 0);
    assert(version == 0x40_0000) by (bit_vector)
        requires
            version == (0u32 << 29) | (1u32 << 22) | (0u32 << 12) | 0u32,
    ;
    let mut extensions: Vec<String> = Vec::new();
    extensions.push(debug_utils_extension_name());
    extensions.push(surface_extension_name());
    extensions.push(xlib_surface_extension_name());
    let severity: u32 = SEVERITY_WARNING | SEVERITY_VERBOSE | SEVERITY_ERROR;
    let message_type: u32 = CATEGORY_GENERAL | CATEGORY_PERFORMANCE | CATEGORY_VALIDATION;
    assert(severity == 0x1101 && severity & !0x1111u32 == 0) by (bit_vector)
        requires
            severity == 0x100u32 | 0x1u32 | 0x1000u32,
    ;
    assert(message_type == 0x7 && message_type & !0x7u32 == 0) by (bit_vector)
        requires
            message_type == 0x1u32 | 0x4u32 | 0x2u32,
    ;
    Ok(
        InstanceConfig {
            application_name: "hi :)".to_owned(),
            application_version: version,
            api_version: version,
            layers: layer_names,
            extensions,
            diagnostics: crate::debug::Debug { severity, message_type },
        },
    )
}

} // verus!
