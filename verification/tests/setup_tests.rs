use hello_triangle::setup::DebugMessengerConfig;
use hello_triangle::setup::debug_messenger_config;
use hello_triangle::setup::default_window_extent;
use hello_triangle::setup::plan_instance;
use hello_triangle::setup::validation_layers_supported;

fn all_enabled(c: &DebugMessengerConfig) -> bool {
    c.severity_error && c.severity_warning && c.severity_information && c.severity_verbose
        && c.type_general && c.type_validation && c.type_performance
}

#[test]
fn default_window_is_800_by_600() {
    let e = default_window_extent();
    assert_eq!(e.width, 800);
    assert_eq!(e.height, 600);
}

#[test]
fn validation_layers_found_in_available_list() {
    let available = vec![
        String::from("VK_LAYER_KHRONOS_validation"),
        String::from("VK_LAYER_LUNARG_standard_validation"),
    ];
    let required = vec![String::from("VK_LAYER_LUNARG_standard_validation")];
    assert!(validation_layers_supported(&available, &required));
}

#[test]
fn missing_validation_layer_detected() {
    let available = vec![String::from("VK_LAYER_KHRONOS_validation")];
    let required = vec![String::from("VK_LAYER_LUNARG_standard_validation")];
    assert!(!validation_layers_supported(&available, &required));
    let none: Vec<String> = vec![];
    assert!(!validation_layers_supported(&none, &required));
}

#[test]
fn no_required_layers_is_always_supported() {
    let available: Vec<String> = vec![];
    let required: Vec<String> = vec![];
    assert!(validation_layers_supported(&available, &required));
}

#[test]
fn instance_plan_warns_only_when_layers_missing() {
    assert!(plan_instance(true, false).warn_missing_layers);
    assert!(!plan_instance(true, true).warn_missing_layers);
    assert!(!plan_instance(false, false).warn_missing_layers);
    assert!(!plan_instance(false, true).warn_missing_layers);
}

#[test]
fn debug_utils_extension_follows_validation_toggle() {
    assert!(plan_instance(true, true).enable_debug_utils_extension);
    assert!(!plan_instance(false, true).enable_debug_utils_extension);
}

#[test]
fn debug_messenger_subscribes_to_everything_or_nothing() {
    match debug_messenger_config(true) {
        Some(c) => assert!(all_enabled(&c)),
        None => panic!("validation enabled must configure a messenger"),
    }
    assert!(debug_messenger_config(false).is_none());
}
