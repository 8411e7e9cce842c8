use hello_triangle::device::SharingMode;
use hello_triangle::device::choose_sharing_mode;
use hello_triangle::device::plan_queue_open;
use hello_triangle::probe::QueueFamilyAssignment;
use hello_triangle::surface::ColorSpace;
use hello_triangle::surface::Extent2D;
use hello_triangle::surface::PixelFormat;
use hello_triangle::surface::PresentMode;
use hello_triangle::surface::SurfaceCaps;
use hello_triangle::surface::SurfaceFormat;
use hello_triangle::swapchain::choose_extent;
use hello_triangle::swapchain::choose_format;
use hello_triangle::swapchain::choose_image_count;
use hello_triangle::swapchain::choose_present_mode;

fn bgra_srgb() -> SurfaceFormat {
    SurfaceFormat { format: PixelFormat::Bgra8, color_space: ColorSpace::SrgbNonlinear }
}

fn rgba_linear() -> SurfaceFormat {
    SurfaceFormat { format: PixelFormat::Rgba8, color_space: ColorSpace::Linear }
}

fn caps_without_fixed_extent(min: (u32, u32), max: (u32, u32)) -> SurfaceCaps {
    SurfaceCaps {
        min_image_count: 2,
        max_image_count: 8,
        current_extent: None,
        min_image_extent: Extent2D { width: min.0, height: min.1 },
        max_image_extent: Extent2D { width: max.0, height: max.1 },
    }
}

#[test]
fn preferred_format_chosen_regardless_of_position() {
    let at_front = vec![bgra_srgb(), rgba_linear()];
    let at_back = vec![rgba_linear(), bgra_srgb()];
    assert_eq!(choose_format(&at_front), bgra_srgb());
    assert_eq!(choose_format(&at_back), bgra_srgb());
}

#[test]
fn format_selection_is_idempotent_and_deterministic() {
    let formats = vec![rgba_linear(), bgra_srgb()];
    let first = choose_format(&formats);
    let second = choose_format(&formats);
    assert_eq!(first, second);
}

#[test]
fn format_falls_back_to_first_supported() {
    let formats = vec![
        rgba_linear(),
        SurfaceFormat { format: PixelFormat::Bgra8, color_space: ColorSpace::Linear },
    ];
    assert_eq!(choose_format(&formats), rgba_linear());
}

#[test]
fn present_mode_fifo_when_nothing_better() {
    assert_eq!(choose_present_mode(&vec![PresentMode::Fifo]), PresentMode::Fifo);
}

#[test]
fn present_mode_mailbox_preferred() {
    let modes = vec![PresentMode::Fifo, PresentMode::Mailbox];
    assert_eq!(choose_present_mode(&modes), PresentMode::Mailbox);
}

#[test]
fn present_mode_immediate_before_fifo() {
    let modes = vec![PresentMode::Fifo, PresentMode::Immediate];
    assert_eq!(choose_present_mode(&modes), PresentMode::Immediate);
}

#[test]
fn present_mode_stays_in_supported_set() {
    let sets = vec![
        vec![PresentMode::Fifo],
        vec![PresentMode::Fifo, PresentMode::Immediate],
        vec![PresentMode::Mailbox, PresentMode::Fifo],
        vec![PresentMode::Immediate, PresentMode::Mailbox, PresentMode::Fifo],
    ];
    for modes in sets {
        let chosen = choose_present_mode(&modes);
        assert!(modes.contains(&chosen));
    }
}

#[test]
fn extent_uses_current_when_surface_reports_one() {
    let mut caps = caps_without_fixed_extent((1, 1), (4096, 4096));
    caps.current_extent = Some(Extent2D { width: 640, height: 480 });
    let window = Extent2D { width: 1920, height: 1080 };
    assert_eq!(choose_extent(&caps, window), Extent2D { width: 640, height: 480 });
}

#[test]
fn extent_clamps_window_size_componentwise() {
    let caps = caps_without_fixed_extent((100, 100), (1000, 1000));
    let window = Extent2D { width: 2000, height: 10 };
    assert_eq!(choose_extent(&caps, window), Extent2D { width: 1000, height: 100 });
    let inside = Extent2D { width: 500, height: 500 };
    assert_eq!(choose_extent(&caps, inside), inside);
}

#[test]
fn image_count_is_min_plus_one() {
    let caps = caps_without_fixed_extent((1, 1), (10, 10));
    assert_eq!(choose_image_count(&caps), 3);
}

#[test]
fn image_count_clamped_to_finite_max() {
    let mut caps = caps_without_fixed_extent((1, 1), (10, 10));
    caps.min_image_count = 8;
    caps.max_image_count = 8;
    assert_eq!(choose_image_count(&caps), 8);
}

#[test]
fn image_count_unbounded_when_max_is_zero() {
    let mut caps = caps_without_fixed_extent((1, 1), (10, 10));
    caps.min_image_count = 7;
    caps.max_image_count = 0;
    assert_eq!(choose_image_count(&caps), 8);
}

#[test]
fn sharing_exclusive_when_families_coincide() {
    let a = QueueFamilyAssignment { graphics_family: Some(2), present_family: Some(2) };
    assert_eq!(choose_sharing_mode(&a), SharingMode::Exclusive { family: 2 });
}

#[test]
fn sharing_concurrent_when_families_differ() {
    let a = QueueFamilyAssignment { graphics_family: Some(0), present_family: Some(3) };
    assert_eq!(
        choose_sharing_mode(&a),
        SharingMode::Concurrent { graphics_family: 0, present_family: 3 }
    );
}

#[test]
fn queue_open_plan_deduplicates_families() {
    let same = QueueFamilyAssignment { graphics_family: Some(1), present_family: Some(1) };
    let plan = plan_queue_open(&same);
    assert_eq!(plan.family_indices, vec![1]);
    assert!(plan.present_aliases_graphics);

    let distinct = QueueFamilyAssignment { graphics_family: Some(0), present_family: Some(2) };
    let plan = plan_queue_open(&distinct);
    assert_eq!(plan.family_indices, vec![0, 2]);
    assert!(!plan.present_aliases_graphics);
}
