use ash::vk;
use render_bootstrap::error::{BootstrapError, ConfigIssue, Stage};
use render_bootstrap::queue::{QueueFamilies, QueueFamily, QUEUE_GRAPHICS, QUEUE_TRANSFER};

fn family(flags: u32, queue_count: u32, surface_support: bool) -> QueueFamily {
    QueueFamily { flags, queue_count, surface_support }
}

#[test]
fn capability_bits_are_the_drivers() {
    assert_eq!(QUEUE_GRAPHICS, vk::QueueFlags::GRAPHICS.as_raw());
    assert_eq!(QUEUE_TRANSFER, vk::QueueFlags::TRANSFER.as_raw());
}

#[test]
fn transfer_family_before_graphics_family() {
    let table = vec![family(QUEUE_TRANSFER, 1, false), family(QUEUE_GRAPHICS, 1, true)];
    let picked = QueueFamilies::init(&table);
    assert_eq!(picked.graphics_queue_index, Some(1));
    assert_eq!(picked.transfer_queue_index, Some(0));
}

#[test]
fn combined_family_that_presents_is_graphics_only() {
    let table = vec![family(QUEUE_GRAPHICS | QUEUE_TRANSFER, 1, true)];
    let picked = QueueFamilies::init(&table);
    assert_eq!(picked.graphics_queue_index, Some(0));
    assert_eq!(picked.transfer_queue_index, None);
}

#[test]
fn empty_table_selects_nothing() {
    let picked = QueueFamilies::init(&Vec::new());
    assert_eq!(picked.graphics_queue_index, None);
    assert_eq!(picked.transfer_queue_index, None);
}

#[test]
fn first_graphics_family_that_presents_wins() {
    let table = vec![
        family(QUEUE_GRAPHICS, 1, false),
        family(QUEUE_GRAPHICS, 2, true),
        family(QUEUE_GRAPHICS | QUEUE_TRANSFER, 4, true),
    ];
    let picked = QueueFamilies::init(&table);
    assert_eq!(picked.graphics_queue_index, Some(1));
    assert_eq!(picked.transfer_queue_index, None);
}

#[test]
fn graphics_family_without_surface_support_is_never_picked() {
    let table = vec![family(QUEUE_GRAPHICS, 1, false), family(QUEUE_GRAPHICS | 0x2, 1, false)];
    let picked = QueueFamilies::init(&table);
    assert_eq!(picked.graphics_queue_index, None);
}

#[test]
fn families_without_queues_are_skipped() {
    let table = vec![
        family(QUEUE_GRAPHICS, 0, true),
        family(QUEUE_TRANSFER, 0, false),
        family(QUEUE_GRAPHICS, 1, true),
        family(QUEUE_TRANSFER, 1, false),
    ];
    let picked = QueueFamilies::init(&table);
    assert_eq!(picked.graphics_queue_index, Some(2));
    assert_eq!(picked.transfer_queue_index, Some(3));
}

#[test]
fn last_transfer_only_family_wins() {
    let table = vec![
        family(QUEUE_GRAPHICS | QUEUE_TRANSFER, 1, false),
        family(QUEUE_TRANSFER, 1, false),
        family(QUEUE_GRAPHICS | QUEUE_TRANSFER, 1, false),
        family(QUEUE_TRANSFER | 0x2, 1, true),
        family(QUEUE_GRAPHICS | QUEUE_TRANSFER, 1, true),
    ];
    let picked = QueueFamilies::init(&table);
    assert_eq!(picked.graphics_queue_index, Some(4));
    assert_eq!(picked.transfer_queue_index, Some(3));
}

#[test]
fn first_combined_family_is_kept_when_none_is_transfer_only() {
    let table = vec![
        family(0x2, 1, false),
        family(QUEUE_GRAPHICS | QUEUE_TRANSFER, 1, false),
        family(QUEUE_GRAPHICS | QUEUE_TRANSFER, 1, false),
    ];
    let picked = QueueFamilies::init(&table);
    assert_eq!(picked.graphics_queue_index, None);
    assert_eq!(picked.transfer_queue_index, Some(1));
}

#[test]
fn picked_families_differ() {
    let table = vec![
        family(QUEUE_GRAPHICS | QUEUE_TRANSFER, 1, true),
        family(QUEUE_GRAPHICS | QUEUE_TRANSFER, 1, true),
    ];
    let picked = QueueFamilies::init(&table);
    assert_eq!(picked.graphics_queue_index, Some(0));
    assert_eq!(picked.transfer_queue_index, None);
}

#[test]
fn surface_is_asked_only_about_graphics_families_with_queues() {
    assert!(family(QUEUE_GRAPHICS, 1, false).needs_surface_query());
    assert!(family(QUEUE_GRAPHICS | QUEUE_TRANSFER, 3, false).needs_surface_query());
    assert!(!family(QUEUE_GRAPHICS, 0, false).needs_surface_query());
    assert!(!family(QUEUE_TRANSFER, 1, false).needs_surface_query());
    assert!(!family(0x2 | 0x8, 1, true).needs_surface_query());
}

#[test]
fn unasked_surface_answers_change_nothing() {
    let asked = vec![
        family(QUEUE_TRANSFER, 1, false),
        family(QUEUE_GRAPHICS, 0, false),
        family(QUEUE_GRAPHICS, 1, true),
    ];
    let all_true = vec![
        family(QUEUE_TRANSFER, 1, true),
        family(QUEUE_GRAPHICS, 0, true),
        family(QUEUE_GRAPHICS, 1, true),
    ];
    let a = QueueFamilies::init(&asked);
    let b = QueueFamilies::init(&all_true);
    assert_eq!(a.graphics_queue_index, b.graphics_queue_index);
    assert_eq!(a.transfer_queue_index, b.transfer_queue_index);
    assert_eq!(a.graphics_queue_index, Some(2));
    assert_eq!(a.transfer_queue_index, Some(0));
}

#[test]
fn missing_graphics_family_is_a_configuration_error() {
    let picked = QueueFamilies::init(&vec![family(QUEUE_TRANSFER, 1, false)]);
    assert_eq!(
        picked.require_graphics(),
        Err(BootstrapError::Configuration {
            stage: Stage::QueueFamilies,
            issue: ConfigIssue::NoGraphicsQueue,
        })
    );
    let picked = QueueFamilies::init(&vec![family(QUEUE_GRAPHICS, 1, true)]);
    assert_eq!(picked.require_graphics(), Ok(0));
}
