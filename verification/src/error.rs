//! The stages of bringing a context up, and the one error a failed attempt
//! ends with.

use vstd::prelude::*;

verus! {

/// Driver status for a lost logical device.
pub const ERROR_DEVICE_LOST: i32 = -4;

/// Driver status for a surface that is no longer available.
pub const ERROR_SURFACE_LOST: i32 = -1000000000;

/// The stages of construction, in the order in which they run.
#[derive(Clone, Copy, Debug, PartialEq, Eq, Structural)]
pub enum Stage {
    Instance,
    Diagnostics,
    Surface,
    PhysicalDevice,
    QueueFamilies,
    Device,
    ImageChain,
    RenderTarget,
    Pipeline,
}

/// What a configuration error found wanting.
#[derive(Clone, Copy, Debug, PartialEq, Eq, Structural)]
pub enum ConfigIssue {
    /// The driver lists no physical device.
    NoPhysicalDevice,
    /// No queue family does graphics and presents to the surface.
    NoGraphicsQueue,
    /// The surface reports no format.
    NoSurfaceFormat,
    /// The surface reports no present mode.
    NoPresentMode,
    /// A diagnostics mask names a severity or category that does not exist.
    UnknownDiagnosticsBits,
    /// A stage was closed without the handle it has to leave behind.
    MissingHandle,
    /// A layer name holds a zero byte and cannot be passed to the driver.
    InvalidName,
}

/// The terminal error of a failed construction. It always names the stage
/// that failed.
#[derive(Clone, Copy, Debug, PartialEq, Eq, Structural)]
pub enum BootstrapError {
    /// What the driver offers cannot be used.
    Configuration { stage: Stage, issue: ConfigIssue },
    /// A driver call returned a failure status, kept here unchanged.
    DriverCall { stage: Stage, code: i32 },
}

impl Stage {
    /// Place of the stage in the construction order, from 0.
    pub open spec fn position(self) -> nat {
        match self {
            Stage::Instance => 0,
            Stage::Diagnostics => 1,
            Stage::Surface => 2,
            Stage::PhysicalDevice => 3,
            Stage::QueueFamilies => 4,
            Stage::Device => 5,
            Stage::ImageChain => 6,
            Stage::RenderTarget => 7,
            Stage::Pipeline => 8,
        }
    }

    /// The stage that construction begins with.
    pub fn first() -> (stage: Stage)
        ensures
            stage.position() == 0,
    {
        Stage::Instance
    }

    /// The stage that follows this one; nothing follows the last.
    pub fn next(self) -> (following: Option<Stage>)
        ensures
            match following {
                Some(stage) => stage.position() == self.position() + 1,
                None => self == Stage::Pipeline,
            },
    {
        match self {
            Stage::Instance => Some(Stage::Diagnostics),
            Stage::Diagnostics => Some(Stage::Surface),
            Stage::Surface => Some(Stage::PhysicalDevice),
            Stage::PhysicalDevice => Some(Stage::QueueFamilies),
            Stage::QueueFamilies => Some(Stage::Device),
            Stage::Device => Some(Stage::ImageChain),
            Stage::ImageChain => Some(Stage::RenderTarget),
            Stage::RenderTarget => Some(Stage::Pipeline),
            Stage::Pipeline => None,
        }
    }

    /// The name under which the stage appears in a diagnosis.
    pub open spec fn name_text(self) -> Seq<char> {
        match self {
            Stage::Instance => "instance"@,
            Stage::Diagnostics => "diagnostics"@,
            Stage::Surface => "surface"@,
            Stage::PhysicalDevice => "physical device"@,
            Stage::QueueFamilies => "queue families"@,
            Stage::Device => "device"@,
            Stage::ImageChain => "image chain"@,
            Stage::RenderTarget => "render target"@,
            Stage::Pipeline => "pipeline"@,
        }
    }

    pub fn name(self) -> (text: &'static str)
        ensures
            text@ == self.name_text(),
    {
        match self {
            Stage::Instance => "instance",
            Stage::Diagnostics => "diagnostics",
            Stage::Surface => "surface",
            Stage::PhysicalDevice => "physical device",
            Stage::QueueFamilies => "queue families",
            Stage::Device => "device",
            Stage::ImageChain => "image chain",
            Stage::RenderTarget => "render target",
            Stage::Pipeline => "pipeline",
        }
    }
}

/// Stages are told apart by their position.
pub proof fn lemma_position_identifies_stage(a: Stage, b: Stage)
    requires
        a.position() == b.position(),
    ensures
        a == b,
{
}

impl BootstrapError {
    pub open spec fn failed_stage(self) -> Stage {
        match self {
            BootstrapError::Configuration { stage, .. } => stage,
            BootstrapError::DriverCall { stage, .. } => stage,
        }
    }

    /// The error stands for a surface or device that ceased to exist under
    /// the caller. Such an error is fatal like any other driver failure.
    pub open spec fn resource_lost(self) -> bool {
        match self {
            BootstrapError::Configuration { .. } => false,
            BootstrapError::DriverCall { code, .. } => code == ERROR_DEVICE_LOST || code
                == ERROR_SURFACE_LOST,
        }
    }

    /// The stage at which construction stopped.
    pub fn stage(&self) -> (stage: Stage)
        ensures
            stage == self.failed_stage(),
    {
        match self {
            BootstrapError::Configuration { stage, .. } => *stage,
            BootstrapError::DriverCall { stage, .. } => *stage,
        }
    }

    pub fn is_resource_loss(&self) -> (lost: bool)
        ensures
            lost == self.resource_lost(),
    {
        match self {
            BootstrapError::Configuration { .. } => false,
            BootstrapError::DriverCall { code, .. } => *code == ERROR_DEVICE_LOST || *code
                == ERROR_SURFACE_LOST,
        }
    }
}

} // verus!
