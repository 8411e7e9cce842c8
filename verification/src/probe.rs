//! Capability prober: queue-family resolution and physical-device
//! suitability.

use vstd::prelude::*;

use crate::errors::FatalError;
use crate::surface::SurfaceReport;

verus! {

/// Sentinel-based record of a graphics queue family, filled while probing a
/// device's queue-family table; `-1` marks "not yet found".
pub struct QueueFamilyIndices {
    pub graphics_family: i32,
}

impl QueueFamilyIndices {
    pub fn new() -> (r: Self)
        ensures
            r.graphics_family == -1,
    {
        Self { graphics_family: -1 }
    }
}

/// Capability flags of one queue family; a device's table lists these in
/// family-index order.
#[derive(Clone, Copy, PartialEq, Eq, Structural, Debug)]
pub struct QueueFamilyProps {
    /// The family's flags include graphics.
    pub supports_graphics: bool,
    /// The presentation surface reports support for this family.
    pub supports_present: bool,
}

/// The resolved pair of queue-family indices; the two roles may coincide.
#[derive(Clone, Copy, Debug)]
pub struct QueueFamilyAssignment {
    pub graphics_family: Option<usize>,
    pub present_family: Option<usize>,
}

impl QueueFamilyAssignment {
    /// Both roles have been assigned a family.
    pub open spec fn spec_complete(self) -> bool {
        self.graphics_family is Some && self.present_family is Some
    }

    pub fn complete(&self) -> (r: bool)
        ensures
            r == self.spec_complete(),
    {
        self.graphics_family.is_some() && self.present_family.is_some()
    }
}

/// `i` is the first family in the table whose flags include graphics.
pub open spec fn is_first_graphics(families: Seq<QueueFamilyProps>, i: int) -> bool {
    &&& 0 <= i < families.len()
    &&& families[i].supports_graphics
    &&& forall|j: int| 0 <= j < i ==> !families[j].supports_graphics
}

/// `i` is the first family for which the surface reports present support.
pub open spec fn is_first_present(families: Seq<QueueFamilyProps>, i: int) -> bool {
    &&& 0 <= i < families.len()
    &&& families[i].supports_present
    &&& forall|j: int| 0 <= j < i ==> !families[j].supports_present
}

/// The assignment `r` is exactly what first-match resolution yields on
/// `families`: each role is the first matching index, and a role is empty
/// only when no family matches it.
pub open spec fn resolution_ok(families: Seq<QueueFamilyProps>, r: QueueFamilyAssignment) -> bool {
    &&& (r.graphics_family matches Some(g) ==> is_first_graphics(families, g as int))
    &&& (r.graphics_family is None ==> forall|j: int|
        0 <= j < families.len() ==> !families[j].supports_graphics)
    &&& (r.present_family matches Some(p) ==> is_first_present(families, p as int))
    &&& (r.present_family is None ==> forall|j: int|
        0 <= j < families.len() ==> !families[j].supports_present)
}

/// Scan the queue-family table in index order; the first graphics-capable
/// family and the first present-capable family win, and the scan stops as
/// soon as both are set.
pub fn resolve_queue_families(families: &Vec<QueueFamilyProps>) -> (r: QueueFamilyAssignment)
    ensures
        resolution_ok(families@, r),
{
    let mut graphics_family: Option<usize> = None;
    let mut present_family: Option<usize> = None;
    let mut i: usize = 0;
    while i < families.len() && !(graphics_family.is_some() && present_family.is_some())
        invariant
            i <= families@.len(),
            graphics_family matches Some(g) ==> is_first_graphics(families@, g as int),
            graphics_family is None ==> forall|j: int|
                0 <= j < i ==> !families@[j].supports_graphics,
            present_family matches Some(p) ==> is_first_present(families@, p as int),
            present_family is None ==> forall|j: int|
                0 <= j < i ==> !families@[j].supports_present,
        decreases families@.len() - i,
    {
        let f = families[i];
        if graphics_family.is_none() && f.supports_graphics {
            graphics_family = Some(i);
        }
        if present_family.is_none() && f.supports_present {
            present_family = Some(i);
        }
        i = i + 1;
    }
    QueueFamilyAssignment { graphics_family, present_family }
}

/// One enumerated GPU adapter: its queue-family table, whether it supports
/// the required device-level extension set, and what the surface reports
/// for it.
#[derive(Clone, Debug)]
pub struct PhysicalDeviceInfo {
    pub queue_families: Vec<QueueFamilyProps>,
    pub supports_required_extensions: bool,
    pub surface_support: SurfaceReport,
}

/// A device is suitable iff its queue-family assignment is complete, it
/// supports the required extensions, and the surface reports at least one
/// format and one present mode for it.
pub open spec fn spec_is_suitable(d: PhysicalDeviceInfo) -> bool {
    &&& (exists|i: int|
        0 <= i < d.queue_families@.len() && (#[trigger] d.queue_families@[i]).supports_graphics)
    &&& (exists|i: int|
        0 <= i < d.queue_families@.len() && (#[trigger] d.queue_families@[i]).supports_present)
    &&& d.supports_required_extensions
    &&& d.surface_support.formats@.len() > 0
    &&& d.surface_support.present_modes@.len() > 0
}

pub fn is_suitable(d: &PhysicalDeviceInfo) -> (r: bool)
    ensures
        r == spec_is_suitable(*d),
{
    let assignment = resolve_queue_families(&d.queue_families);
    assignment.complete() && d.supports_required_extensions && d.surface_support.formats.len() > 0
        && d.surface_support.present_modes.len() > 0
}

/// Pick the first suitable candidate in enumeration order; fail with
/// `NoSuitableDevice` iff none qualifies.
pub fn pick_physical_device(devices: &Vec<PhysicalDeviceInfo>) -> (r: Result<usize, FatalError>)
    ensures
        (r matches Ok(i) ==> {
            &&& i < devices@.len()
            &&& spec_is_suitable(devices@[i as int])
            &&& forall|j: int| 0 <= j < i ==> !spec_is_suitable(#[trigger] devices@[j])
        }),
        (r matches Err(e) ==> {
            &&& e is NoSuitableDevice
            &&& forall|j: int| 0 <= j < devices@.len() ==> !spec_is_suitable(#[trigger] devices@[j])
        }),
{
    let mut i: usize = 0;
    while i < devices.len()
        invariant
            i <= devices@.len(),
            forall|j: int| 0 <= j < i ==> !spec_is_suitable(#[trigger] devices@[j]),
        decreases devices@.len() - i,
    {
        if is_suitable(&devices[i]) {
            return Ok(i);
        }
        i = i + 1;
    }
    Err(FatalError::NoSuitableDevice)
}

/// First-match resolution is deterministic: any two assignments that both
/// satisfy `resolution_ok` on the same table agree on both roles.
pub proof fn lemma_resolution_deterministic(
    families: Seq<QueueFamilyProps>,
    r1: QueueFamilyAssignment,
    r2: QueueFamilyAssignment,
)
    requires
        resolution_ok(families, r1),
        resolution_ok(families, r2),
    ensures
        r1.graphics_family == r2.graphics_family,
        r1.present_family == r2.present_family,
{
}

} // verus!
