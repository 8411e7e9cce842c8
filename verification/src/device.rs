//! Device/queue factory decisions: which queue families to open and how the
//! swapchain images are shared between them.

use vstd::prelude::*;

use crate::probe::QueueFamilyAssignment;

verus! {

/// Whether the swapchain images are owned by a single queue family or
/// accessed concurrently by the graphics and the present family.
#[derive(Clone, Copy, PartialEq, Eq, Structural, Debug)]
pub enum SharingMode {
    Exclusive { family: usize },
    Concurrent { graphics_family: usize, present_family: usize },
}

/// The sharing mode a complete assignment dictates: exclusive when one
/// family serves both roles, concurrent when they differ.
pub open spec fn spec_sharing_mode(a: QueueFamilyAssignment) -> SharingMode
    recommends
        a.spec_complete(),
{
    match (a.graphics_family, a.present_family) {
        (Some(g), Some(p)) => if g == p {
            SharingMode::Exclusive { family: g }
        } else {
            SharingMode::Concurrent { graphics_family: g, present_family: p }
        },
        _ => SharingMode::Exclusive { family: 0 },
    }
}

pub fn choose_sharing_mode(a: &QueueFamilyAssignment) -> (r: SharingMode)
    requires
        a.spec_complete(),
    ensures
        r == spec_sharing_mode(*a),
{
    match (a.graphics_family, a.present_family) {
        (Some(g), Some(p)) => if g == p {
            SharingMode::Exclusive { family: g }
        } else {
            SharingMode::Concurrent { graphics_family: g, present_family: p }
        },
        _ => SharingMode::Exclusive { family: 0 },
    }
}

/// The de-duplicated list of queue family indices a logical-device open
/// requests: the graphics family, then the present family only if distinct.
pub open spec fn spec_unique_family_indices(a: QueueFamilyAssignment) -> Seq<usize>
    recommends
        a.spec_complete(),
{
    match (a.graphics_family, a.present_family) {
        (Some(g), Some(p)) => if g == p {
            seq![g]
        } else {
            seq![g, p]
        },
        _ => Seq::empty(),
    }
}

/// What a logical-device open needs: the families to request (each with one
/// queue at equal priority) and whether the present queue handle aliases the
/// graphics queue.
pub struct QueueOpenPlan {
    pub family_indices: Vec<usize>,
    pub present_aliases_graphics: bool,
}

pub fn plan_queue_open(a: &QueueFamilyAssignment) -> (r: QueueOpenPlan)
    requires
        a.spec_complete(),
    ensures
        r.family_indices@ == spec_unique_family_indices(*a),
        (r.present_aliases_graphics <==> a.graphics_family == a.present_family),
{
    match (a.graphics_family, a.present_family) {
        (Some(g), Some(p)) => {
            if g == p {
                let mut family_indices: Vec<usize> = Vec::new();
                family_indices.push(g);
                proof {
                    assert(family_indices@ =~= spec_unique_family_indices(*a));
                }
                QueueOpenPlan { family_indices, present_aliases_graphics: true }
            } else {
                let mut family_indices: Vec<usize> = Vec::new();
                family_indices.push(g);
                family_indices.push(p);
                proof {
                    assert(family_indices@ =~= spec_unique_family_indices(*a));
                }
                QueueOpenPlan { family_indices, present_aliases_graphics: false }
            }
        },
        _ => QueueOpenPlan { family_indices: Vec::new(), present_aliases_graphics: true },
    }
}

} // verus!
