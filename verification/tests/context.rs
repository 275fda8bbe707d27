use render_bootstrap::engine::{GameEngine, Progress};
use render_bootstrap::error::{
    BootstrapError, ConfigIssue, Stage, ERROR_DEVICE_LOST, ERROR_SURFACE_LOST,
};
use render_bootstrap::resource::{Resource, ResourceKind};

fn resource(kind: ResourceKind, handle: u64) -> Resource {
    Resource { kind, handle }
}

/// Runs every stage, entering the objects a real construction creates.
fn ready_engine() -> GameEngine {
    let mut engine = GameEngine::init();
    assert!(engine.record(ResourceKind::Instance, 1));
    assert_eq!(engine.complete_stage(), Progress::Running(Stage::Diagnostics));
    assert!(engine.record(ResourceKind::DebugMessenger, 2));
    assert_eq!(engine.complete_stage(), Progress::Running(Stage::Surface));
    assert!(engine.record(ResourceKind::Surface, 3));
    assert_eq!(engine.complete_stage(), Progress::Running(Stage::PhysicalDevice));
    assert_eq!(engine.complete_stage(), Progress::Running(Stage::QueueFamilies));
    assert_eq!(engine.complete_stage(), Progress::Running(Stage::Device));
    assert!(engine.record(ResourceKind::Device, 4));
    assert_eq!(engine.complete_stage(), Progress::Running(Stage::ImageChain));
    assert!(engine.record(ResourceKind::Swapchain, 5));
    assert!(engine.record(ResourceKind::ImageView, 6));
    assert!(engine.record(ResourceKind::ImageView, 7));
    assert!(engine.record(ResourceKind::ImageView, 8));
    assert_eq!(engine.complete_stage(), Progress::Running(Stage::RenderTarget));
    assert!(engine.record(ResourceKind::RenderPass, 9));
    assert_eq!(engine.complete_stage(), Progress::Running(Stage::Pipeline));
    assert!(engine.record(ResourceKind::PipelineLayout, 10));
    assert!(engine.record(ResourceKind::Pipeline, 11));
    assert_eq!(engine.complete_stage(), Progress::Ready);
    engine
}

fn created() -> Vec<Resource> {
    vec![
        resource(ResourceKind::Instance, 1),
        resource(ResourceKind::DebugMessenger, 2),
        resource(ResourceKind::Surface, 3),
        resource(ResourceKind::Device, 4),
        resource(ResourceKind::Swapchain, 5),
        resource(ResourceKind::ImageView, 6),
        resource(ResourceKind::ImageView, 7),
        resource(ResourceKind::ImageView, 8),
        resource(ResourceKind::RenderPass, 9),
        resource(ResourceKind::PipelineLayout, 10),
        resource(ResourceKind::Pipeline, 11),
    ]
}

#[test]
fn new_context_runs_the_instance_stage() {
    let engine = GameEngine::init();
    assert_eq!(engine.progress(), Progress::Running(Stage::Instance));
    assert_eq!(engine.pending_stage(), Some(Stage::Instance));
    assert!(engine.resources().is_empty());
    assert_eq!(Stage::first(), Stage::Instance);
}

#[test]
fn stages_run_in_order() {
    let engine = ready_engine();
    assert_eq!(engine.progress(), Progress::Ready);
    assert_eq!(engine.pending_stage(), None);
    assert_eq!(engine.resources(), created());
    assert!(engine.has(ResourceKind::Pipeline));
    assert!(!engine.has(ResourceKind::Framebuffer));
}

#[test]
fn stage_order_is_fixed() {
    let expected = [
        Stage::Instance,
        Stage::Diagnostics,
        Stage::Surface,
        Stage::PhysicalDevice,
        Stage::QueueFamilies,
        Stage::Device,
        Stage::ImageChain,
        Stage::RenderTarget,
        Stage::Pipeline,
    ];
    let mut stage = Some(Stage::first());
    for wanted in expected {
        assert_eq!(stage, Some(wanted));
        stage = wanted.next();
    }
    assert_eq!(stage, None);
}

#[test]
fn teardown_is_creation_in_reverse() {
    let mut engine = ready_engine();
    let mut order = engine.teardown();
    assert_eq!(order.first(), Some(&resource(ResourceKind::Pipeline, 11)));
    assert_eq!(order.last(), Some(&resource(ResourceKind::Instance, 1)));
    order.reverse();
    assert_eq!(order, created());
    assert_eq!(engine.progress(), Progress::TornDown);
}

#[test]
fn teardown_order_of_a_full_context() {
    let mut engine = ready_engine();
    assert!(engine.record(ResourceKind::Framebuffer, 20));
    assert!(engine.record(ResourceKind::Framebuffer, 21));
    let order = engine.teardown();
    let expected = vec![
        resource(ResourceKind::Framebuffer, 21),
        resource(ResourceKind::Framebuffer, 20),
        resource(ResourceKind::Pipeline, 11),
        resource(ResourceKind::PipelineLayout, 10),
        resource(ResourceKind::RenderPass, 9),
        resource(ResourceKind::ImageView, 8),
        resource(ResourceKind::ImageView, 7),
        resource(ResourceKind::ImageView, 6),
        resource(ResourceKind::Swapchain, 5),
        resource(ResourceKind::Device, 4),
        resource(ResourceKind::Surface, 3),
        resource(ResourceKind::DebugMessenger, 2),
        resource(ResourceKind::Instance, 1),
    ];
    assert_eq!(order, expected);
}

#[test]
fn nothing_is_destroyed_twice() {
    let mut engine = ready_engine();
    assert_eq!(engine.teardown().len(), 11);
    assert!(engine.teardown().is_empty());
    assert!(engine.resources().is_empty());
    assert!(!engine.record(ResourceKind::Framebuffer, 20));
    assert!(!engine.record(ResourceKind::Instance, 1));
    assert_eq!(engine.complete_stage(), Progress::TornDown);
}

#[test]
fn failed_driver_call_ends_construction_at_its_stage() {
    let mut engine = GameEngine::init();
    assert!(engine.record(ResourceKind::Instance, 1));
    engine.complete_stage();
    assert!(engine.record(ResourceKind::DebugMessenger, 2));
    engine.complete_stage();
    let reported = BootstrapError::DriverCall { stage: Stage::Surface, code: -3 };
    let kept = BootstrapError::DriverCall { stage: Stage::Surface, code: -3 };
    assert_eq!(engine.fail(reported), Progress::Aborted(kept));
    assert_eq!(engine.pending_stage(), None);
    // nothing of this or a later stage comes to exist
    assert!(!engine.record(ResourceKind::Surface, 3));
    assert!(!engine.record(ResourceKind::Device, 4));
    assert!(!engine.record(ResourceKind::Swapchain, 5));
    assert!(!engine.record(ResourceKind::Framebuffer, 6));
    assert_eq!(engine.complete_stage(), Progress::Aborted(kept));
    // the first failure is the one that is kept
    let later = BootstrapError::DriverCall { stage: Stage::Device, code: -4 };
    assert_eq!(engine.fail(later), Progress::Aborted(kept));
    // what exists is still destroyed, in reverse
    let order = engine.teardown();
    assert_eq!(
        order,
        vec![resource(ResourceKind::DebugMessenger, 2), resource(ResourceKind::Instance, 1)]
    );
    assert_eq!(engine.progress(), Progress::Aborted(kept));
}

#[test]
fn failure_at_every_stage_names_that_stage() {
    let stages = [
        Stage::Instance,
        Stage::Diagnostics,
        Stage::Surface,
        Stage::PhysicalDevice,
        Stage::QueueFamilies,
        Stage::Device,
        Stage::ImageChain,
        Stage::RenderTarget,
        Stage::Pipeline,
    ];
    let products = [
        vec![ResourceKind::Instance],
        vec![ResourceKind::DebugMessenger],
        vec![ResourceKind::Surface],
        vec![],
        vec![],
        vec![ResourceKind::Device],
        vec![ResourceKind::Swapchain],
        vec![ResourceKind::RenderPass],
        vec![ResourceKind::PipelineLayout, ResourceKind::Pipeline],
    ];
    for failing in 0..stages.len() {
        let mut engine = GameEngine::init();
        let mut handle = 0u64;
        for stage in 0..failing {
            for kind in &products[stage] {
                handle += 1;
                assert!(engine.record(*kind, handle));
            }
            engine.complete_stage();
        }
        let before = engine.resources();
        let progress = engine.fail(BootstrapError::DriverCall { stage: stages[failing], code: -1 });
        match progress {
            Progress::Aborted(error) => {
                assert_eq!(error.stage(), stages[failing]);
                assert_eq!(error, BootstrapError::DriverCall { stage: stages[failing], code: -1 });
            }
            _ => panic!("construction went on after a failure"),
        }
        for later in failing..stages.len() {
            for kind in &products[later] {
                assert!(!engine.record(*kind, 1000));
            }
        }
        assert_eq!(engine.resources(), before);
    }
}

#[test]
fn error_is_put_down_to_the_running_stage() {
    let mut engine = GameEngine::init();
    let reported = BootstrapError::Configuration {
        stage: Stage::Pipeline,
        issue: ConfigIssue::NoPhysicalDevice,
    };
    assert_eq!(
        engine.fail(reported),
        Progress::Aborted(BootstrapError::Configuration {
            stage: Stage::Instance,
            issue: ConfigIssue::NoPhysicalDevice,
        })
    );
}

#[test]
fn object_of_a_later_stage_is_refused() {
    let mut engine = GameEngine::init();
    assert!(!engine.record(ResourceKind::Device, 4));
    assert!(!engine.record(ResourceKind::DebugMessenger, 2));
    assert!(engine.record(ResourceKind::Instance, 1));
    assert!(!engine.record(ResourceKind::Surface, 3));
    assert_eq!(engine.resources(), vec![resource(ResourceKind::Instance, 1)]);
}

#[test]
fn child_without_parent_is_refused() {
    let mut engine = GameEngine::init();
    assert!(engine.record(ResourceKind::Instance, 1));
    engine.complete_stage();
    assert!(engine.record(ResourceKind::DebugMessenger, 2));
    engine.complete_stage();
    assert!(engine.record(ResourceKind::Surface, 3));
    engine.complete_stage();
    engine.complete_stage();
    engine.complete_stage();
    assert!(engine.record(ResourceKind::Device, 4));
    engine.complete_stage();
    // no view before the chain it views
    assert!(!engine.record(ResourceKind::ImageView, 6));
    assert!(engine.record(ResourceKind::Swapchain, 5));
    assert!(engine.record(ResourceKind::ImageView, 6));
    engine.complete_stage();
    assert!(engine.record(ResourceKind::RenderPass, 9));
    engine.complete_stage();
    // no pipeline before its layout
    assert!(!engine.record(ResourceKind::Pipeline, 11));
    assert!(engine.record(ResourceKind::PipelineLayout, 10));
    assert!(engine.record(ResourceKind::Pipeline, 11));
}

#[test]
fn repeated_object_is_refused() {
    let mut engine = GameEngine::init();
    assert!(engine.record(ResourceKind::Instance, 1));
    assert!(!engine.record(ResourceKind::Instance, 1));
    assert!(!engine.record(ResourceKind::Instance, 2));
    let mut engine = ready_engine();
    assert!(engine.record(ResourceKind::Framebuffer, 20));
    assert!(!engine.record(ResourceKind::Framebuffer, 20));
    assert!(engine.record(ResourceKind::Framebuffer, 21));
    assert!(!engine.record(ResourceKind::ImageView, 30));
}

#[test]
fn stage_without_its_object_cannot_complete() {
    let mut engine = GameEngine::init();
    let expected = Progress::Aborted(BootstrapError::Configuration {
        stage: Stage::Instance,
        issue: ConfigIssue::MissingHandle,
    });
    assert_eq!(engine.complete_stage(), expected);
    assert_eq!(engine.progress(), expected);
    assert!(!engine.record(ResourceKind::Instance, 1));
}

#[test]
fn framebuffers_wait_for_a_ready_context() {
    let mut engine = GameEngine::init();
    assert!(!engine.record(ResourceKind::Framebuffer, 20));
    let mut engine = ready_engine();
    assert!(engine.record(ResourceKind::Framebuffer, 20));
    assert!(engine.has(ResourceKind::Framebuffer));
}

#[test]
fn kinds_know_their_stage_and_parents() {
    assert_eq!(ResourceKind::Instance.stage(), Some(Stage::Instance));
    assert_eq!(ResourceKind::ImageView.stage(), Some(Stage::ImageChain));
    assert_eq!(ResourceKind::Pipeline.stage(), Some(Stage::Pipeline));
    assert_eq!(ResourceKind::Framebuffer.stage(), None);
    assert!(ResourceKind::Swapchain.is_single());
    assert!(!ResourceKind::ImageView.is_single());
    assert!(!ResourceKind::Framebuffer.is_single());
    assert!(ResourceKind::Instance.parents().is_empty());
    assert_eq!(
        ResourceKind::Swapchain.parents(),
        vec![ResourceKind::Device, ResourceKind::Surface]
    );
    assert_eq!(
        ResourceKind::Framebuffer.parents(),
        vec![ResourceKind::RenderPass, ResourceKind::ImageView]
    );
    assert_eq!(
        Stage::Pipeline.products(),
        vec![ResourceKind::PipelineLayout, ResourceKind::Pipeline]
    );
    assert!(Stage::QueueFamilies.products().is_empty());
}

#[test]
fn stage_names() {
    assert_eq!(Stage::Instance.name(), "instance");
    assert_eq!(Stage::Diagnostics.name(), "diagnostics");
    assert_eq!(Stage::Surface.name(), "surface");
    assert_eq!(Stage::PhysicalDevice.name(), "physical device");
    assert_eq!(Stage::QueueFamilies.name(), "queue families");
    assert_eq!(Stage::Device.name(), "device");
    assert_eq!(Stage::ImageChain.name(), "image chain");
    assert_eq!(Stage::RenderTarget.name(), "render target");
    assert_eq!(Stage::Pipeline.name(), "pipeline");
}

#[test]
fn lost_surface_or_device_is_a_resource_loss() {
    let lost = BootstrapError::DriverCall { stage: Stage::ImageChain, code: ERROR_SURFACE_LOST };
    assert!(lost.is_resource_loss());
    assert_eq!(lost.stage(), Stage::ImageChain);
    assert!(BootstrapError::DriverCall { stage: Stage::Device, code: ERROR_DEVICE_LOST }
        .is_resource_loss());
    assert!(!BootstrapError::DriverCall { stage: Stage::Device, code: -3 }.is_resource_loss());
    let config = BootstrapError::Configuration {
        stage: Stage::ImageChain,
        issue: ConfigIssue::NoSurfaceFormat,
    };
    assert!(!config.is_resource_loss());
    assert_eq!(ERROR_DEVICE_LOST, ash::vk::Result::ERROR_DEVICE_LOST.as_raw());
    assert_eq!(ERROR_SURFACE_LOST, ash::vk::Result::ERROR_SURFACE_LOST_KHR.as_raw());
}
