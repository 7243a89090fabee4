use gaia_core::{
    choose_config, choose_extent, choose_image_count, choose_pre_transform, choose_present_mode,
    Extent, PresentMode, SurfaceCapabilities, SurfaceFormat, SwapchainError, SwapchainManager,
    TRANSFORM_IDENTITY, UNDEFINED_EXTENT_WIDTH,
};

fn extent(width: u32, height: u32) -> Extent {
    Extent { width, height }
}

fn caps(min: u32, max: u32, current: Extent) -> SurfaceCapabilities {
    SurfaceCapabilities {
        min_image_count: min,
        max_image_count: max,
        current_extent: current,
        supported_transforms: TRANSFORM_IDENTITY | 2,
        current_transform: 2,
        present_modes: vec![PresentMode::Fifo, PresentMode::Mailbox],
        formats: vec![
            SurfaceFormat { format: 44, color_space: 0 },
            SurfaceFormat { format: 50, color_space: 0 },
        ],
    }
}

fn undefined() -> Extent {
    extent(UNDEFINED_EXTENT_WIDTH, UNDEFINED_EXTENT_WIDTH)
}

#[test]
fn undefined_extent_two_to_three_images() {
    let c = choose_config(&caps(2, 3, undefined()), extent(800, 600)).unwrap();
    assert_eq!(c.image_count, 3);
    assert_eq!(c.extent, extent(800, 600));
}

#[test]
fn undefined_extent_takes_desired_size() {
    assert_eq!(choose_extent(undefined(), extent(1024, 768)), extent(1024, 768));
    assert_eq!(choose_extent(extent(UNDEFINED_EXTENT_WIDTH, 5), extent(7, 9)), extent(7, 9));
}

#[test]
fn defined_extent_is_used_verbatim() {
    assert_eq!(choose_extent(extent(640, 480), extent(800, 600)), extent(640, 480));
    let c = choose_config(&caps(2, 3, extent(640, 480)), extent(800, 600)).unwrap();
    assert_eq!(c.extent, extent(640, 480));
}

#[test]
fn min_above_max_is_tolerated() {
    assert_eq!(choose_image_count(3, 2), 3);
    assert_eq!(choose_image_count(4, 4), 4);
    let c = choose_config(&caps(3, 2, extent(100, 100)), extent(1, 1));
    assert_eq!(c.unwrap().image_count, 3);
}

#[test]
fn image_count_is_min_plus_one_within_bounds() {
    assert_eq!(choose_image_count(2, 8), 3);
    assert_eq!(choose_image_count(1, 2), 2);
}

#[test]
fn zero_max_means_unbounded() {
    assert_eq!(choose_image_count(2, 0), 3);
    assert_eq!(choose_image_count(0, 0), 1);
}

#[test]
fn image_count_saturates_at_largest() {
    assert_eq!(choose_image_count(u32::MAX, 0), u32::MAX);
    assert_eq!(choose_image_count(u32::MAX, 5), u32::MAX);
    assert_eq!(choose_image_count(u32::MAX - 1, 0), u32::MAX);
}

#[test]
fn identity_transform_preferred() {
    assert_eq!(choose_pre_transform(TRANSFORM_IDENTITY | 4, 4), TRANSFORM_IDENTITY);
    assert_eq!(choose_pre_transform(4 | 8, 8), 8);
    assert_eq!(choose_pre_transform(0, 2), 2);
}

#[test]
fn mailbox_preferred_else_fifo() {
    assert_eq!(choose_present_mode(&vec![PresentMode::Fifo, PresentMode::Mailbox]), PresentMode::Mailbox);
    assert_eq!(choose_present_mode(&vec![PresentMode::Immediate, PresentMode::FifoRelaxed]), PresentMode::Fifo);
    assert_eq!(choose_present_mode(&vec![]), PresentMode::Fifo);
}

#[test]
fn first_format_and_fixed_fields() {
    let c = choose_config(&caps(2, 3, extent(10, 20)), extent(1, 1)).unwrap();
    assert_eq!(c.format, SurfaceFormat { format: 44, color_space: 0 });
    assert_eq!(c.pre_transform, TRANSFORM_IDENTITY);
    assert_eq!(c.present_mode, PresentMode::Mailbox);
    assert_eq!(c.array_layers, 1);
    assert!(c.clipped);
}

#[test]
fn zero_extent_is_window_minimized() {
    assert_eq!(
        choose_config(&caps(2, 3, extent(0, 600)), extent(800, 600)),
        Err(SwapchainError::WindowMinimized)
    );
    assert_eq!(
        choose_config(&caps(2, 3, undefined()), extent(800, 0)),
        Err(SwapchainError::WindowMinimized)
    );
}

#[test]
fn recreate_twice_gives_same_config() {
    let report = caps(2, 3, undefined());
    let mut manager = SwapchainManager::new();
    assert_eq!(manager.current(), None);
    let first = manager.recreate(&report, extent(800, 600)).unwrap();
    let second = manager.recreate(&report, extent(800, 600)).unwrap();
    assert_eq!(first, second);
    assert_eq!(first.format, second.format);
    assert_eq!(first.extent, second.extent);
    assert_eq!(first.present_mode, second.present_mode);
    assert_eq!(manager.current(), Some(second));
}

#[test]
fn minimized_recreation_keeps_previous() {
    let mut manager = SwapchainManager::new();
    let first = manager.recreate(&caps(2, 3, extent(300, 200)), extent(1, 1)).unwrap();
    let skipped = manager.recreate(&caps(2, 3, extent(0, 0)), extent(1, 1));
    assert_eq!(skipped, Err(SwapchainError::WindowMinimized));
    assert_eq!(manager.current(), Some(first));
    manager.destroy();
    assert_eq!(manager.current(), None);
}
