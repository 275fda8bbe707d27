//! The driver objects a context owns.

use crate::error::Stage;
use vstd::prelude::*;

verus! {

/// The kinds of driver object that are created and have to be destroyed.
#[derive(Clone, Copy, Debug, PartialEq, Eq, Structural)]
pub enum ResourceKind {
    Instance,
    DebugMessenger,
    Surface,
    Device,
    Swapchain,
    ImageView,
    RenderPass,
    PipelineLayout,
    Pipeline,
    Framebuffer,
}

/// One driver object: what it is, and the driver's handle for it.
#[derive(Clone, Copy, Debug, PartialEq, Eq, Structural)]
pub struct Resource {
    pub kind: ResourceKind,
    pub handle: u64,
}

impl ResourceKind {
    /// The stage of construction that creates objects of this kind.
    /// Framebuffers belong to no stage: they are made once construction is
    /// over.
    pub open spec fn made_in(self) -> Option<Stage> {
        match self {
            ResourceKind::Instance => Some(Stage::Instance),
            ResourceKind::DebugMessenger => Some(Stage::Diagnostics),
            ResourceKind::Surface => Some(Stage::Surface),
            ResourceKind::Device => Some(Stage::Device),
            ResourceKind::Swapchain => Some(Stage::ImageChain),
            ResourceKind::ImageView => Some(Stage::ImageChain),
            ResourceKind::RenderPass => Some(Stage::RenderTarget),
            ResourceKind::PipelineLayout => Some(Stage::Pipeline),
            ResourceKind::Pipeline => Some(Stage::Pipeline),
            ResourceKind::Framebuffer => None,
        }
    }

    /// A context holds at most one object of this kind.
    pub open spec fn single(self) -> bool {
        self != ResourceKind::ImageView && self != ResourceKind::Framebuffer
    }

    /// An object of this kind cannot exist without one of kind `parent`, and
    /// must be destroyed before it.
    pub open spec fn needs(self, parent: ResourceKind) -> bool {
        match self {
            ResourceKind::Instance => false,
            ResourceKind::DebugMessenger => parent == ResourceKind::Instance,
            ResourceKind::Surface => parent == ResourceKind::Instance,
            ResourceKind::Device => parent == ResourceKind::Instance,
            ResourceKind::Swapchain => parent == ResourceKind::Device || parent
                == ResourceKind::Surface,
            ResourceKind::ImageView => parent == ResourceKind::Swapchain,
            ResourceKind::RenderPass => parent == ResourceKind::Device,
            ResourceKind::PipelineLayout => parent == ResourceKind::Device,
            ResourceKind::Pipeline => parent == ResourceKind::PipelineLayout || parent
                == ResourceKind::RenderPass,
            ResourceKind::Framebuffer => parent == ResourceKind::RenderPass || parent
                == ResourceKind::ImageView,
        }
    }

    pub fn stage(self) -> (stage: Option<Stage>)
        ensures
            stage == self.made_in(),
    {
        match self {
            ResourceKind::Instance => Some(Stage::Instance),
            ResourceKind::DebugMessenger => Some(Stage::Diagnostics),
            ResourceKind::Surface => Some(Stage::Surface),
            ResourceKind::Device => Some(Stage::Device),
            ResourceKind::Swapchain => Some(Stage::ImageChain),
            ResourceKind::ImageView => Some(Stage::ImageChain),
            ResourceKind::RenderPass => Some(Stage::RenderTarget),
            ResourceKind::PipelineLayout => Some(Stage::Pipeline),
            ResourceKind::Pipeline => Some(Stage::Pipeline),
            ResourceKind::Framebuffer => None,
        }
    }

    pub fn is_single(self) -> (single: bool)
        ensures
            single == self.single(),
    {
        match self {
            ResourceKind::ImageView => false,
            ResourceKind::Framebuffer => false,
            _ => true,
        }
    }

    /// The kinds an object of this kind cannot exist without.
    pub fn parents(self) -> (parents: Vec<ResourceKind>)
        ensures
            forall|parent: ResourceKind| parents@.contains(parent) <==> self.needs(parent),
    {
        let mut parents: Vec<ResourceKind> = Vec::new();
        match self {
            ResourceKind::Instance => {},
            ResourceKind::DebugMessenger => {
                parents.push(ResourceKind::Instance);
            },
            ResourceKind::Surface => {
                parents.push(ResourceKind::Instance);
            },
            ResourceKind::Device => {
                parents.push(ResourceKind::Instance);
            },
            ResourceKind::Swapchain => {
                parents.push(ResourceKind::Device);
                parents.push(ResourceKind::Surface);
            },
            ResourceKind::ImageView => {
                parents.push(ResourceKind::Swapchain);
            },
            ResourceKind::RenderPass => {
                parents.push(ResourceKind::Device);
            },
            ResourceKind::PipelineLayout => {
                parents.push(ResourceKind::Device);
            },
            ResourceKind::Pipeline => {
                parents.push(ResourceKind::PipelineLayout);
                parents.push(ResourceKind::RenderPass);
            },
            ResourceKind::Framebuffer => {
                parents.push(ResourceKind::RenderPass);
                parents.push(ResourceKind::ImageView);
            },
        }
        proof {
            assert forall|parent: ResourceKind| parents@.contains(parent) <==> self.needs(
                parent,
            ) by {
                if self.needs(parent) {
                    if parents@.len() > 0 && parents@[0] == parent {
                    } else {
                        assert(parents@.len() > 1 && parents@[1] == parent);
                    }
                }
            }
        }
        parents
    }
}

impl Stage {
    /// The kinds of which a stage has to leave exactly one object behind.
    pub fn products(self) -> (kinds: Vec<ResourceKind>)
        ensures
            forall|kind: ResourceKind|
                kinds@.contains(kind) <==> kind.single() && kind.made_in() == Some(self),
    {
        let mut kinds: Vec<ResourceKind> = Vec::new();
        match self {
            Stage::Instance => {
                kinds.push(ResourceKind::Instance);
            },
            Stage::Diagnostics => {
                kinds.push(ResourceKind::DebugMessenger);
            },
            Stage::Surface => {
                kinds.push(ResourceKind::Surface);
            },
            Stage::PhysicalDevice => {},
            Stage::QueueFamilies => {},
            Stage::Device => {
                kinds.push(ResourceKind::Device);
            },
            Stage::ImageChain => {
                kinds.push(ResourceKind::Swapchain);
            },
            Stage::RenderTarget => {
                kinds.push(ResourceKind::RenderPass);
            },
            Stage::Pipeline => {
                kinds.push(ResourceKind::PipelineLayout);
                kinds.push(ResourceKind::Pipeline);
            },
        }
        proof {
            assert forall|kind: ResourceKind|
                kinds@.contains(kind) <==> kind.single() && kind.made_in() == Some(self) by {
                if kind.single() && kind.made_in() == Some(self) {
                    if kinds@.len() > 0 && kinds@[0] == kind {
                    } else {
                        assert(kinds@.len() > 1 && kinds@[1] == kind);
                    }
                }
            }
        }
        kinds
    }
}

/// An object is made no earlier than what it cannot exist without.
pub proof fn lemma_parents_come_from_earlier_stages(child: ResourceKind, parent: ResourceKind)
    requires
        child.needs(parent),
    ensures
        parent.made_in() is Some,
        child.made_in() matches Some(stage) ==> parent.made_in().unwrap().position()
            <= stage.position(),
        child != parent,
{
}

} // verus!
