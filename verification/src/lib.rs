//! Planning core for bringing up a Vulkan rendering context.
//!
//! The crate decides; it never talks to the driver. A caller hands in what the
//! driver reported (queue families, surface capabilities, handles it created)
//! and gets back the choices to make, the structures to create and the order
//! in which everything has to be destroyed again.

pub mod debug;
pub mod device;
pub mod driver;
pub mod engine;
pub mod error;
pub mod codes;
pub mod instance;
pub mod pipeline;
pub mod queue;
pub mod render_pass;
pub mod resource;
pub mod surface;
pub mod swapchain;
