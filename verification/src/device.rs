//! Picking the physical device and settling what the logical device is
//! opened with.

use crate::driver::swapchain_extension_name;
use crate::error::{BootstrapError, ConfigIssue, Stage};
use crate::instance::{all_usable, names_usable};
use crate::queue::QueueFamilies;
use vstd::prelude::*;

verus! {

/// Queues asked of one family.
#[derive(Clone, Copy, Debug, PartialEq, Eq, Structural)]
pub struct QueueRequest {
    pub family_index: u32,
    pub queue_count: u32,
    /// Priority of each queue, in hundredths of the highest priority.
    pub priority_percent: u32,
}

/// What a logical device is opened with, and where its queues are found
/// afterwards: queue 0 of the family named for each purpose.
#[derive(Debug)]
pub struct DevicePlan {
    pub queue_requests: Vec<QueueRequest>,
    pub graphics_family: u32,
    pub transfer_family: u32,
    pub extensions: Vec<String>,
    pub layers: Vec<String>,
}

/// One queue of family `family_index`, at the highest priority.
pub open spec fn one_queue_of(family_index: u32) -> QueueRequest {
    QueueRequest { family_index, queue_count: 1, priority_percent: 100 }
}

/// The family that transfers go to: the transfer family where one was found,
/// else the graphics family.
pub open spec fn transfer_family_of(graphics: u32, transfer: Option<u32>) -> u32 {
    match transfer {
        Some(family) => family,
        None => graphics,
    }
}

/// The queues to ask for: one of the graphics family, and one of the
/// transfer family where that is another family.
pub open spec fn queue_requests_for(graphics: u32, transfer: Option<u32>) -> Seq<QueueRequest> {
    if transfer_family_of(graphics, transfer) == graphics {
        seq![one_queue_of(graphics)]
    } else {
        seq![one_queue_of(graphics), one_queue_of(transfer_family_of(graphics, transfer))]
    }
}

/// Picks the physical device: the first that the driver lists. Fails where
/// it lists none.
pub fn init_physical_devices_and_properties(devices: &Vec<u64>) -> (device: Result<
    u64,
    BootstrapError,
>)
    ensures
        match device {
            Ok(device) => devices@.len() > 0 && device == devices@[0],
            Err(error) => {
                &&& devices@.len() == 0
                &&& error == (BootstrapError::Configuration {
                    stage: Stage::PhysicalDevice,
                    issue: ConfigIssue::NoPhysicalDevice,
                })
            },
        },
{
    if devices.len() == 0 {
        Err(
            BootstrapError::Configuration {
                stage: Stage::PhysicalDevice,
                issue: ConfigIssue::NoPhysicalDevice,
            },
        )
    } else {
        Ok(devices[0])
    }
}

/// What is amiss with a request for a device, if anything: first a layer
/// name that cannot be passed on, then a missing graphics family.
pub open spec fn device_issue(families: QueueFamilies, layer_names: Seq<String>) -> Option<
    ConfigIssue,
> {
    if !names_usable(layer_names) {
        Some(ConfigIssue::InvalidName)
    } else if families.graphics_queue_index is None {
        Some(ConfigIssue::NoGraphicsQueue)
    } else {
        None
    }
}

/// Settles what the logical device is opened with.
///
/// A device without a graphics family is of no use, so that is an error. A
/// missing transfer family is none: transfers then share the graphics queue.
/// The only device extension is the one for swapchains.
pub fn init_devices_and_queues(queue_families: &QueueFamilies, layer_names: Vec<String>) -> (plan:
    Result<DevicePlan, BootstrapError>)
    ensures
        match plan {
            Ok(plan) => {
                &&& device_issue(*queue_families, layer_names@) is None
                &&& plan.graphics_family == queue_families.graphics_queue_index.unwrap()
                &&& plan.transfer_family == transfer_family_of(
                    plan.graphics_family,
                    queue_families.transfer_queue_index,
                )
                &&& plan.queue_requests@ == queue_requests_for(
                    plan.graphics_family,
                    queue_families.transfer_queue_index,
                )
                &&& plan.extensions@.len() == 1
                &&& plan.extensions@[0]@ == "VK_KHR_swapchain"@
                &&& plan.layers == layer_names
            },
            Err(error) => {
                &&& device_issue(*queue_families, layer_names@) matches Some(issue)
                &&& error == (BootstrapError::Configuration { stage: Stage::Device, issue })
            },
        },
{
    if !all_usable(&layer_names) {
        return Err(
            BootstrapError::Configuration { stage: Stage::Device, issue: ConfigIssue::InvalidName },
        );
    }
    let graphics = match queue_families.graphics_queue_index {
        Some(family) => family,
        None => {
            return Err(
                BootstrapError::Configuration {
                    stage: Stage::Device,
                    issue: ConfigIssue::NoGraphicsQueue,
                },
            );
        },
    };
    let transfer = match queue_families.transfer_queue_index {
        Some(family) => family,
        None => graphics,
    };
    let mut queue_requests: Vec<QueueRequest> = Vec::new();
    queue_requests.push(QueueRequest { family_index: graphics, queue_count: 1, priority_percent: 100 });
    if transfer != graphics {
        queue_requests.push(
            QueueRequest { family_index: transfer, queue_count: 1, priority_percent: 100 },
        );
    }
    let mut extensions: Vec<String> = Vec::new();
    extensions.push(swapchain_extension_name());
    Ok(
        DevicePlan {
            queue_requests,
            graphics_family: graphics,
            transfer_family: transfer,
            extensions,
            layers: layer_names,
        },
    )
}

} // verus!
