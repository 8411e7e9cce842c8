use hello_triangle::errors::FatalError;
use hello_triangle::probe::PhysicalDeviceInfo;
use hello_triangle::probe::QueueFamilyIndices;
use hello_triangle::probe::QueueFamilyProps;
use hello_triangle::probe::is_suitable;
use hello_triangle::probe::pick_physical_device;
use hello_triangle::probe::resolve_queue_families;
use hello_triangle::surface::ColorSpace;
use hello_triangle::surface::Extent2D;
use hello_triangle::surface::PixelFormat;
use hello_triangle::surface::PresentMode;
use hello_triangle::surface::SurfaceCaps;
use hello_triangle::surface::SurfaceFormat;
use hello_triangle::surface::SurfaceReport;

fn family(graphics: bool, present: bool) -> QueueFamilyProps {
    QueueFamilyProps { supports_graphics: graphics, supports_present: present }
}

fn simple_report() -> SurfaceReport {
    SurfaceReport {
        caps: SurfaceCaps {
            min_image_count: 2,
            max_image_count: 8,
            current_extent: Some(Extent2D { width: 800, height: 600 }),
            min_image_extent: Extent2D { width: 1, height: 1 },
            max_image_extent: Extent2D { width: 4096, height: 4096 },
        },
        formats: vec![
            SurfaceFormat { format: PixelFormat::Bgra8, color_space: ColorSpace::SrgbNonlinear },
        ],
        present_modes: vec![PresentMode::Fifo],
    }
}

fn suitable_device() -> PhysicalDeviceInfo {
    PhysicalDeviceInfo {
        queue_families: vec![family(true, true)],
        supports_required_extensions: true,
        surface_support: simple_report(),
    }
}

#[test]
fn queue_family_indices_new_starts_unresolved() {
    let indices = QueueFamilyIndices::new();
    assert_eq!(indices.graphics_family, -1);
}

#[test]
fn resolution_picks_first_matching_indices() {
    let families = vec![
        family(false, false),
        family(true, false),
        family(true, true),
        family(false, true),
    ];
    let a = resolve_queue_families(&families);
    assert_eq!(a.graphics_family, Some(1));
    assert_eq!(a.present_family, Some(2));
    assert!(a.complete());
}

#[test]
fn resolution_is_deterministic_across_retries() {
    let families = vec![family(false, true), family(true, false)];
    let first = resolve_queue_families(&families);
    let second = resolve_queue_families(&families);
    assert_eq!(first.graphics_family, second.graphics_family);
    assert_eq!(first.present_family, second.present_family);
    assert_eq!(first.graphics_family, Some(1));
    assert_eq!(first.present_family, Some(0));
}

#[test]
fn resolution_incomplete_without_present_support() {
    let families = vec![family(true, false), family(true, false)];
    let a = resolve_queue_families(&families);
    assert_eq!(a.graphics_family, Some(0));
    assert_eq!(a.present_family, None);
    assert!(!a.complete());
}

#[test]
fn resolution_on_empty_table_is_empty() {
    let families: Vec<QueueFamilyProps> = vec![];
    let a = resolve_queue_families(&families);
    assert_eq!(a.graphics_family, None);
    assert_eq!(a.present_family, None);
}

#[test]
fn suitability_holds_only_with_every_condition() {
    assert!(is_suitable(&suitable_device()));

    let mut no_graphics = suitable_device();
    no_graphics.queue_families = vec![family(false, true)];
    assert!(!is_suitable(&no_graphics));

    let mut no_present = suitable_device();
    no_present.queue_families = vec![family(true, false)];
    assert!(!is_suitable(&no_present));

    let mut no_extensions = suitable_device();
    no_extensions.supports_required_extensions = false;
    assert!(!is_suitable(&no_extensions));

    let mut no_formats = suitable_device();
    no_formats.surface_support.formats = vec![];
    assert!(!is_suitable(&no_formats));

    let mut no_modes = suitable_device();
    no_modes.surface_support.present_modes = vec![];
    assert!(!is_suitable(&no_modes));
}

#[test]
fn first_suitable_device_is_picked() {
    let mut unsuitable = suitable_device();
    unsuitable.supports_required_extensions = false;
    let devices = vec![unsuitable, suitable_device(), suitable_device()];
    assert_eq!(pick_physical_device(&devices), Ok(1));
}

#[test]
fn no_suitable_device_is_an_error() {
    let mut unsuitable = suitable_device();
    unsuitable.surface_support.present_modes = vec![];
    let devices = vec![unsuitable];
    assert_eq!(pick_physical_device(&devices), Err(FatalError::NoSuitableDevice));
    let none: Vec<PhysicalDeviceInfo> = vec![];
    assert_eq!(pick_physical_device(&none), Err(FatalError::NoSuitableDevice));
}
