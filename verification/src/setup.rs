//! Startup decisions: window configuration, validation-layer support,
//! instance extensions and the debug messenger, all on plain values. The
//! platform calls that act on them stay with the application shell.

use vstd::prelude::*;

use crate::surface::Extent2D;

verus! {

/// Default window width in pixels.
pub const DEFAULT_WINDOW_WIDTH: u32 = 800;

/// Default window height in pixels.
pub const DEFAULT_WINDOW_HEIGHT: u32 = 600;

/// The window size the renderer opens with.
pub fn default_window_extent() -> (e: Extent2D)
    ensures
        e.width == DEFAULT_WINDOW_WIDTH,
        e.height == DEFAULT_WINDOW_HEIGHT,
{
    Extent2D { width: DEFAULT_WINDOW_WIDTH, height: DEFAULT_WINDOW_HEIGHT }
}

/// The list holds a layer of this name.
pub open spec fn contains_layer(list: Seq<String>, name: Seq<char>) -> bool {
    exists|j: int| 0 <= j < list.len() && (#[trigger] list[j])@ == name
}

/// Every required layer appears in the available list.
pub open spec fn all_layers_supported(available: Seq<String>, required: Seq<String>) -> bool {
    forall|i: int| 0 <= i < required.len() ==> contains_layer(available, (#[trigger] required[i])@)
}

fn list_contains(list: &Vec<String>, name: &String) -> (r: bool)
    ensures
        r == contains_layer(list@, name@),
{
    let mut j: usize = 0;
    while j < list.len()
        invariant
            j <= list@.len(),
            forall|k: int| 0 <= k < j ==> (#[trigger] list@[k])@ != name@,
        decreases list@.len() - j,
    {
        if list[j].eq(name) {
            return true;
        }
        j = j + 1;
    }
    false
}

/// Whether every required validation layer is among the layers the platform
/// lists as available.
pub fn validation_layers_supported(available: &Vec<String>, required: &Vec<String>) -> (r: bool)
    ensures
        r == all_layers_supported(available@, required@),
{
    let mut i: usize = 0;
    while i < required.len()
        invariant
            i <= required@.len(),
            forall|k: int| 0 <= k < i ==> contains_layer(available@, (#[trigger] required@[k])@),
        decreases required@.len() - i,
    {
        if !list_contains(available, &required[i]) {
            return false;
        }
        i = i + 1;
    }
    true
}

/// What instance creation decides before the platform call: whether to warn
/// that requested validation layers are missing, and whether the
/// debug-messaging extension joins the windowing collaborator's required
/// extension list.
#[derive(Clone, Copy, PartialEq, Eq, Structural, Debug)]
pub struct InstancePlan {
    pub warn_missing_layers: bool,
    pub enable_debug_utils_extension: bool,
}

pub fn plan_instance(validation_requested: bool, layers_supported: bool) -> (p: InstancePlan)
    ensures
        p.warn_missing_layers == (validation_requested && !layers_supported),
        p.enable_debug_utils_extension == validation_requested,
{
    InstancePlan {
        warn_missing_layers: validation_requested && !layers_supported,
        enable_debug_utils_extension: validation_requested,
    }
}

/// Which messages the debug messenger subscribes to: every severity and
/// every type.
#[derive(Clone, Copy, PartialEq, Eq, Structural, Debug)]
pub struct DebugMessengerConfig {
    pub severity_error: bool,
    pub severity_warning: bool,
    pub severity_information: bool,
    pub severity_verbose: bool,
    pub type_general: bool,
    pub type_validation: bool,
    pub type_performance: bool,
}

impl DebugMessengerConfig {
    pub open spec fn all_enabled(self) -> bool {
        &&& self.severity_error
        &&& self.severity_warning
        &&& self.severity_information
        &&& self.severity_verbose
        &&& self.type_general
        &&& self.type_validation
        &&& self.type_performance
    }
}

/// A debug messenger is set up, subscribed to everything, exactly when
/// validation is enabled.
pub fn debug_messenger_config(validation_enabled: bool) -> (r: Option<DebugMessengerConfig>)
    ensures
        validation_enabled ==> (r matches Some(c) && c.all_enabled()),
        !validation_enabled ==> r is None,
{
    if validation_enabled {
        Some(
            DebugMessengerConfig {
                severity_error: true,
                severity_warning: true,
                severity_information: true,
                severity_verbose: true,
                type_general: true,
                type_validation: true,
                type_performance: true,
            },
        )
    } else {
        None
    }
}

} // verus!
