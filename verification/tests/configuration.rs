use ash::vk;
use ash::vk::DebugUtilsMessageSeverityFlagsEXT as Severity;
use ash::vk::DebugUtilsMessageTypeFlagsEXT as Category;
use render_bootstrap::codes::{
    ACCESS_COLOR_ATTACHMENT_READ, ACCESS_COLOR_ATTACHMENT_WRITE,
    IMAGE_LAYOUT_COLOR_ATTACHMENT_OPTIMAL, IMAGE_LAYOUT_PRESENT_SRC, IMAGE_LAYOUT_UNDEFINED,
    LOAD_OP_CLEAR, LOAD_OP_DONT_CARE, PIPELINE_BIND_POINT_GRAPHICS,
    PIPELINE_STAGE_COLOR_ATTACHMENT_OUTPUT, SAMPLE_COUNT_1, STORE_OP_DONT_CARE, STORE_OP_STORE,
    SUBPASS_EXTERNAL,
};
use render_bootstrap::debug::{
    ALL_CATEGORIES, ALL_SEVERITIES, CATEGORY_GENERAL, CATEGORY_PERFORMANCE,
    CATEGORY_VALIDATION, SEVERITY_ERROR, SEVERITY_INFO, SEVERITY_VERBOSE, SEVERITY_WARNING,
};
use render_bootstrap::device::{
    init_devices_and_queues, init_physical_devices_and_properties, QueueRequest,
};
use render_bootstrap::error::{BootstrapError, ConfigIssue, Stage};
use render_bootstrap::instance::{
    all_usable, contains_nul, default_layers, init_instance, VERSION_1_0_0,
};
use render_bootstrap::queue::QueueFamilies;
use render_bootstrap::render_pass::{
    init_render_pass, AttachmentDescription, AttachmentReference, SubpassDependency,
    SubpassDescription,
};

fn layers() -> Vec<String> {
    vec!["VK_LAYER_KHRONOS_validation".to_string()]
}

#[test]
fn validation_layer_is_the_default() {
    assert_eq!(default_layers(), layers());
    assert!(all_usable(&default_layers()));
    assert!(init_instance(default_layers()).is_ok());
}

#[test]
fn instance_is_created_for_version_one() {
    let config = init_instance(layers()).unwrap();
    assert_eq!(config.application_name, "hi :)");
    assert_eq!(config.application_version, 0x40_0000);
    assert_eq!(config.api_version, 0x40_0000);
    assert_eq!(VERSION_1_0_0, vk::make_api_version(0, 1, 0, 0));
    assert_eq!(VERSION_1_0_0, vk::API_VERSION_1_0);
    assert_eq!(config.layers, layers());
}

#[test]
fn instance_extensions_are_fixed() {
    let config = init_instance(Vec::new()).unwrap();
    assert_eq!(
        config.extensions,
        vec![
            "VK_EXT_debug_utils".to_string(),
            "VK_KHR_surface".to_string(),
            "VK_KHR_xlib_surface".to_string(),
        ]
    );
    assert!(config.layers.is_empty());
}

#[test]
fn instance_creation_is_watched_at_all_severities_but_info() {
    let config = init_instance(layers()).unwrap();
    assert_eq!(config.diagnostics.severity, 0x1101);
    assert_eq!(
        config.diagnostics.severity,
        SEVERITY_WARNING | SEVERITY_VERBOSE | SEVERITY_ERROR
    );
    assert_eq!(config.diagnostics.message_type, ALL_CATEGORIES);
}

#[test]
fn layer_name_with_a_zero_byte_is_refused() {
    let names = vec!["VK_LAYER_KHRONOS_validation".to_string(), "bad\0name".to_string()];
    assert_eq!(
        init_instance(names).unwrap_err(),
        BootstrapError::Configuration { stage: Stage::Instance, issue: ConfigIssue::InvalidName }
    );
    assert!(contains_nul("\0"));
    assert!(contains_nul("a\0"));
    assert!(!contains_nul(""));
    assert!(!contains_nul("VK_LAYER_KHRONOS_validation"));
    assert!(!contains_nul("h\u{e9}llo \u{1F600}"));
    assert!(all_usable(&layers()));
    assert!(all_usable(&Vec::new()));
    assert!(!all_usable(&vec!["ok".to_string(), "\0".to_string()]));
}

#[test]
fn channel_receives_everything_by_default() {
    let channel = render_bootstrap::debug::Debug::init();
    assert_eq!(channel.severity, 0x1111);
    assert_eq!(channel.message_type, 0x7);
    assert_eq!(channel.severity, ALL_SEVERITIES);
    assert_eq!(channel.message_type, ALL_CATEGORIES);
}

#[test]
fn channel_masks_are_checked() {
    assert_eq!(
        render_bootstrap::debug::Debug::with_masks(SEVERITY_ERROR | SEVERITY_WARNING, CATEGORY_VALIDATION),
        Ok(render_bootstrap::debug::Debug { severity: 0x1100, message_type: 0x2 })
    );
    assert_eq!(render_bootstrap::debug::Debug::with_masks(0, 0), Ok(render_bootstrap::debug::Debug { severity: 0, message_type: 0 }));
    assert_eq!(render_bootstrap::debug::Debug::with_masks(0x1111, 0x7), Ok(render_bootstrap::debug::Debug::init()));
    let refused = Err(BootstrapError::Configuration {
        stage: Stage::Diagnostics,
        issue: ConfigIssue::UnknownDiagnosticsBits,
    });
    assert_eq!(render_bootstrap::debug::Debug::with_masks(0x2, 0x1), refused);
    assert_eq!(render_bootstrap::debug::Debug::with_masks(0x1, 0x8), refused);
    assert_eq!(render_bootstrap::debug::Debug::with_masks(0x1_0000, 0x1), refused);
    assert_eq!(render_bootstrap::debug::Debug::with_masks(u32::MAX, u32::MAX), refused);
}

#[test]
fn diagnostics_bits_are_the_drivers() {
    assert_eq!(SEVERITY_VERBOSE, Severity::VERBOSE.as_raw());
    assert_eq!(SEVERITY_INFO, Severity::INFO.as_raw());
    assert_eq!(SEVERITY_WARNING, Severity::WARNING.as_raw());
    assert_eq!(SEVERITY_ERROR, Severity::ERROR.as_raw());
    assert_eq!(CATEGORY_GENERAL, Category::GENERAL.as_raw());
    assert_eq!(CATEGORY_VALIDATION, Category::VALIDATION.as_raw());
    assert_eq!(CATEGORY_PERFORMANCE, Category::PERFORMANCE.as_raw());
    let all = Severity::WARNING | Severity::ERROR | Severity::INFO | Severity::VERBOSE;
    assert_eq!(ALL_SEVERITIES, all.as_raw());
    let all = Category::VALIDATION | Category::GENERAL | Category::PERFORMANCE;
    assert_eq!(ALL_CATEGORIES, all.as_raw());
}

#[test]
fn first_physical_device_is_taken() {
    assert_eq!(init_physical_devices_and_properties(&vec![70, 80]), Ok(70));
    assert_eq!(init_physical_devices_and_properties(&vec![9]), Ok(9));
    assert_eq!(
        init_physical_devices_and_properties(&Vec::new()),
        Err(BootstrapError::Configuration {
            stage: Stage::PhysicalDevice,
            issue: ConfigIssue::NoPhysicalDevice,
        })
    );
}

fn one_queue(family_index: u32) -> QueueRequest {
    QueueRequest { family_index, queue_count: 1, priority_percent: 100 }
}

#[test]
fn device_gets_one_queue_of_each_family() {
    let families = QueueFamilies { graphics_queue_index: Some(1), transfer_queue_index: Some(0) };
    let plan = init_devices_and_queues(&families, layers()).unwrap();
    assert_eq!(plan.queue_requests, vec![one_queue(1), one_queue(0)]);
    assert_eq!(plan.graphics_family, 1);
    assert_eq!(plan.transfer_family, 0);
    assert_eq!(plan.extensions, vec!["VK_KHR_swapchain".to_string()]);
    assert_eq!(plan.layers, layers());
}

#[test]
fn transfers_share_the_graphics_queue_without_a_transfer_family() {
    let families = QueueFamilies { graphics_queue_index: Some(2), transfer_queue_index: None };
    let plan = init_devices_and_queues(&families, Vec::new()).unwrap();
    assert_eq!(plan.queue_requests, vec![one_queue(2)]);
    assert_eq!(plan.graphics_family, 2);
    assert_eq!(plan.transfer_family, 2);

    let families = QueueFamilies { graphics_queue_index: Some(2), transfer_queue_index: Some(2) };
    let plan = init_devices_and_queues(&families, Vec::new()).unwrap();
    assert_eq!(plan.queue_requests, vec![one_queue(2)]);
    assert_eq!(plan.transfer_family, 2);
}

#[test]
fn device_needs_a_graphics_family_and_usable_layer_names() {
    let none = QueueFamilies { graphics_queue_index: None, transfer_queue_index: Some(0) };
    assert_eq!(
        init_devices_and_queues(&none, layers()).unwrap_err(),
        BootstrapError::Configuration { stage: Stage::Device, issue: ConfigIssue::NoGraphicsQueue }
    );
    let some = QueueFamilies { graphics_queue_index: Some(0), transfer_queue_index: None };
    assert_eq!(
        init_devices_and_queues(&some, vec!["\0".to_string()]).unwrap_err(),
        BootstrapError::Configuration { stage: Stage::Device, issue: ConfigIssue::InvalidName }
    );
    assert_eq!(
        init_devices_and_queues(&none, vec!["\0".to_string()]).unwrap_err(),
        BootstrapError::Configuration { stage: Stage::Device, issue: ConfigIssue::InvalidName }
    );
}

#[test]
fn render_pass_clears_draws_and_presents() {
    let pass = init_render_pass(44);
    assert_eq!(
        pass.attachment,
        AttachmentDescription {
            format: 44,
            samples: SAMPLE_COUNT_1,
            load_op: LOAD_OP_CLEAR,
            store_op: STORE_OP_STORE,
            stencil_load_op: LOAD_OP_DONT_CARE,
            stencil_store_op: STORE_OP_DONT_CARE,
            initial_layout: IMAGE_LAYOUT_UNDEFINED,
            final_layout: IMAGE_LAYOUT_PRESENT_SRC,
        }
    );
    assert_eq!(
        pass.subpass,
        SubpassDescription {
            bind_point: PIPELINE_BIND_POINT_GRAPHICS,
            color_attachment: AttachmentReference {
                attachment: 0,
                layout: IMAGE_LAYOUT_COLOR_ATTACHMENT_OPTIMAL,
            },
        }
    );
    assert_eq!(
        pass.dependency,
        SubpassDependency {
            src_subpass: SUBPASS_EXTERNAL,
            dst_subpass: 0,
            src_stage_mask: PIPELINE_STAGE_COLOR_ATTACHMENT_OUTPUT,
            dst_stage_mask: PIPELINE_STAGE_COLOR_ATTACHMENT_OUTPUT,
            src_access_mask: 0,
            dst_access_mask: 0x180,
        }
    );
    assert_eq!(init_render_pass(-1).attachment.format, -1);
}

#[test]
fn render_pass_codes_are_the_drivers() {
    assert_eq!(LOAD_OP_CLEAR, vk::AttachmentLoadOp::CLEAR.as_raw());
    assert_eq!(LOAD_OP_DONT_CARE, vk::AttachmentLoadOp::DONT_CARE.as_raw());
    assert_eq!(STORE_OP_STORE, vk::AttachmentStoreOp::STORE.as_raw());
    assert_eq!(STORE_OP_DONT_CARE, vk::AttachmentStoreOp::DONT_CARE.as_raw());
    assert_eq!(IMAGE_LAYOUT_UNDEFINED, vk::ImageLayout::UNDEFINED.as_raw());
    assert_eq!(
        IMAGE_LAYOUT_COLOR_ATTACHMENT_OPTIMAL,
        vk::ImageLayout::COLOR_ATTACHMENT_OPTIMAL.as_raw()
    );
    assert_eq!(IMAGE_LAYOUT_PRESENT_SRC, vk::ImageLayout::PRESENT_SRC_KHR.as_raw());
    assert_eq!(PIPELINE_BIND_POINT_GRAPHICS, vk::PipelineBindPoint::GRAPHICS.as_raw());
    assert_eq!(SUBPASS_EXTERNAL, vk::SUBPASS_EXTERNAL);
    assert_eq!(
        PIPELINE_STAGE_COLOR_ATTACHMENT_OUTPUT,
        vk::PipelineStageFlags::COLOR_ATTACHMENT_OUTPUT.as_raw()
    );
    assert_eq!(ACCESS_COLOR_ATTACHMENT_READ, vk::AccessFlags::COLOR_ATTACHMENT_READ.as_raw());
    assert_eq!(ACCESS_COLOR_ATTACHMENT_WRITE, vk::AccessFlags::COLOR_ATTACHMENT_WRITE.as_raw());
    let access = vk::AccessFlags::COLOR_ATTACHMENT_READ | vk::AccessFlags::COLOR_ATTACHMENT_WRITE;
    assert_eq!(init_render_pass(0).dependency.dst_access_mask, access.as_raw());
}
