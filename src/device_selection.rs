//! Choice of a graphics device and of the queue families it will use, from
//! what each device reports about itself.
use vstd::prelude::*;

verus! {

/// The queue families that rendering needs. One family may serve both
/// graphics and presentation, and then both indices are the same.
#[derive(Clone, Copy, Debug, PartialEq, Eq, Structural)]
pub struct QueueFamilyIndices {
    pub graphics_queue_family_index: u32,
    pub present_queue_family_index: u32,
}

impl Default for QueueFamilyIndices {
    fn default() -> (r: QueueFamilyIndices)
        ensures
            r.graphics_queue_family_index == 0,
            r.present_queue_family_index == 0,
    {
        QueueFamilyIndices { graphics_queue_family_index: 0, present_queue_family_index: 0 }
    }
}

/// The kind of a physical device.
#[derive(Clone, Copy, Debug, PartialEq, Eq, Structural)]
pub enum PhysicalDeviceKind {
    DiscreteGpu,
    VirtualGpu,
    IntegratedGpu,
    Other,
}

/// What one queue family of a device can do.
#[derive(Clone, Copy, Debug, PartialEq, Eq, Structural)]
pub struct QueueFamilySupport {
    /// The family has graphics queues.
    pub graphics: bool,
    /// The family can present to the window's surface.
    pub present: bool,
}

pub open spec fn kind_score(kind: PhysicalDeviceKind) -> int {
    match kind {
        PhysicalDeviceKind::DiscreteGpu => 1000,
        PhysicalDeviceKind::VirtualGpu => 500,
        PhysicalDeviceKind::IntegratedGpu => 100,
        PhysicalDeviceKind::Other => 0,
    }
}

/// `i` is the last family of `families` with graphics queues.
pub open spec fn is_last_graphics(families: Seq<QueueFamilySupport>, i: int) -> bool {
    &&& 0 <= i < families.len()
    &&& families[i].graphics
    &&& forall|k: int| i < k < families.len() ==> !(#[trigger] families[k]).graphics
}

/// `i` is the last family of `families` that can present.
pub open spec fn is_last_present(families: Seq<QueueFamilySupport>, i: int) -> bool {
    &&& 0 <= i < families.len()
    &&& families[i].present
    &&& forall|k: int| i < k < families.len() ==> !(#[trigger] families[k]).present
}

pub open spec fn has_graphics(families: Seq<QueueFamilySupport>) -> bool {
    exists|i: int| 0 <= i < families.len() && (#[trigger] families[i]).graphics
}

pub open spec fn has_present(families: Seq<QueueFamilySupport>) -> bool {
    exists|i: int| 0 <= i < families.len() && (#[trigger] families[i]).present
}

/// A device that can be chosen at all: it was scored, and not below zero.
pub open spec fn eligible(score: Option<i32>) -> bool {
    score matches Some(s) && s >= 0
}

pub open spec fn score_of(score: Option<i32>) -> int {
    match score {
        Some(s) => s as int,
        None => -1,
    }
}

/// `i` is the first of the best-scored eligible devices.
pub open spec fn is_best(scores: Seq<Option<i32>>, i: int) -> bool {
    &&& 0 <= i < scores.len()
    &&& eligible(scores[i])
    &&& forall|j: int| 0 <= j < i ==> score_of(#[trigger] scores[j]) < score_of(scores[i])
    &&& forall|j: int| i < j < scores.len() ==> score_of(#[trigger] scores[j]) <= score_of(scores[i])
}

/// Score of a device of kind `kind`: discrete before virtual before
/// integrated before anything else.
pub fn device_type_score(kind: PhysicalDeviceKind) -> (r: i32)
    ensures
        r == kind_score(kind),
{
    match kind {
        PhysicalDeviceKind::DiscreteGpu => 1000,
        PhysicalDeviceKind::VirtualGpu => 500,
        PhysicalDeviceKind::IntegratedGpu => 100,
        PhysicalDeviceKind::Other => 0,
    }
}

/// The last family with graphics queues and the last one that can present,
/// or `None` where either is missing.
pub fn find_queue_families(families: &Vec<QueueFamilySupport>) -> (r: Option<QueueFamilyIndices>)
    requires
        families@.len() <= u32::MAX as int + 1,
    ensures
        r is Some <==> has_graphics(families@) && has_present(families@),
        r matches Some(q) ==> is_last_graphics(families@, q.graphics_queue_family_index as int)
            && is_last_present(families@, q.present_queue_family_index as int),
{
    let mut graphics_queue_family_index: Option<u32> = None;
    let mut present_queue_family_index: Option<u32> = None;
    let mut i: usize = 0;
    while i < families.len()
        invariant
            i <= families@.len() <= u32::MAX as int + 1,
            graphics_queue_family_index is Some <==> exists|k: int|
                0 <= k < i && (#[trigger] families@[k]).graphics,
            graphics_queue_family_index matches Some(g) ==> is_last_graphics(
                families@.subrange(0, i as int),
                g as int,
            ),
            present_queue_family_index is Some <==> exists|k: int|
                0 <= k < i && (#[trigger] families@[k]).present,
            present_queue_family_index matches Some(p) ==> is_last_present(
                families@.subrange(0, i as int),
                p as int,
            ),
        decreases families@.len() - i,
    {
        let family = families[i];
        if family.graphics {
            graphics_queue_family_index = Some(i as u32);
        }
        if family.present {
            present_queue_family_index = Some(i as u32);
        }
        i = i + 1;
    }
    assert(families@.subrange(0, i as int) =~= families@);
    match (graphics_queue_family_index, present_queue_family_index) {
        (Some(g), Some(p)) => Some(
            QueueFamilyIndices { graphics_queue_family_index: g, present_queue_family_index: p },
        ),
        _ => None,
    }
}

/// Scores a device from what it reports: none where it lacks sampler
/// anisotropy or a needed queue family, else its kind's score with the
/// families that it would use.
pub fn score_physical_device(
    supports_sampler_anisotropy: bool,
    kind: PhysicalDeviceKind,
    families: &Vec<QueueFamilySupport>,
) -> (r: Option<(i32, QueueFamilyIndices)>)
    requires
        families@.len() <= u32::MAX as int + 1,
    ensures
        r is Some <==> supports_sampler_anisotropy && has_graphics(families@) && has_present(
            families@,
        ),
        r matches Some((score, q)) ==> score == kind_score(kind) && is_last_graphics(
            families@,
            q.graphics_queue_family_index as int,
        ) && is_last_present(families@, q.present_queue_family_index as int),
{
    if !supports_sampler_anisotropy {
        return None;
    }
    match find_queue_families(families) {
        Some(queue_family_indices) => Some((device_type_score(kind), queue_family_indices)),
        None => None,
    }
}

/// The index of the first device with the highest score among those scored
/// zero or more, or `None` where there is no such device.
pub fn choose_physical_device(scores: &Vec<Option<i32>>) -> (r: Option<usize>)
    ensures
        r is None <==> forall|j: int| 0 <= j < scores@.len() ==> !eligible(#[trigger] scores@[j]),
        r matches Some(i) ==> is_best(scores@, i as int),
{
    let mut best: Option<usize> = None;
    let mut best_score: i32 = -1;
    let mut i: usize = 0;
    while i < scores.len()
        invariant
            i <= scores@.len(),
            best is None ==> best_score == -1,
            best is None <==> forall|j: int| 0 <= j < i ==> !eligible(#[trigger] scores@[j]),
            best matches Some(b) ==> b < i && best_score == score_of(scores@[b as int])
                && is_best(scores@.subrange(0, i as int), b as int),
            forall|j: int| 0 <= j < i ==> score_of(#[trigger] scores@[j]) <= best_score,
        decreases scores@.len() - i,
    {
        if let Some(score) = scores[i] {
            if score > best_score {
                best = Some(i);
                best_score = score;
            }
        }
        i = i + 1;
    }
    assert(scores@.subrange(0, i as int) =~= scores@);
    best
}

/// The distinct queue families to create queues in: the graphics family,
/// then the present family where it differs.
pub fn queue_families_to_create(indices: &QueueFamilyIndices) -> (r: Vec<u32>)
    ensures
        indices.graphics_queue_family_index == indices.present_queue_family_index ==> r@ == seq![
            indices.graphics_queue_family_index,
        ],
        indices.graphics_queue_family_index != indices.present_queue_family_index ==> r@ == seq![
            indices.graphics_queue_family_index,
            indices.present_queue_family_index,
        ],
{
    let mut r: Vec<u32> = Vec::new();
    r.push(indices.graphics_queue_family_index);
    if indices.present_queue_family_index != indices.graphics_queue_family_index {
        r.push(indices.present_queue_family_index);
    }
    r
}

} // verus!
