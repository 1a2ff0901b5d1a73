//! Choice of a physical device, its queue families and its memory types.

use vstd::prelude::*;

verus! {

/// The queue-capability bit that marks graphics support.
pub const QUEUE_GRAPHICS_BIT: u32 = 1;

/// Number of memory-type entries that a device reports at most.
pub const MAX_MEMORY_TYPES: usize = 32;

/// What one queue family of a physical device offers.
#[derive(Clone, Copy, PartialEq, Eq, Structural, Debug)]
pub struct QueueFamilyProperties {
    pub queue_count: u32,
    pub queue_flags: u32,
}

/// The queue families chosen for graphics submission and for presentation.
#[derive(Clone, Copy, PartialEq, Eq, Structural, Debug)]
pub struct QueueFamilyIndices {
    pub graphics_family: Option<u32>,
    pub present_family: Option<u32>,
}

impl QueueFamilyIndices {
    pub open spec fn complete(self) -> bool {
        self.graphics_family.is_some() && self.present_family.is_some()
    }

    /// Neither family chosen yet.
    pub fn new() -> (r: QueueFamilyIndices)
        ensures
            r.graphics_family.is_none(),
            r.present_family.is_none(),
    {
        QueueFamilyIndices { graphics_family: None, present_family: None }
    }

    /// Both families are chosen.
    pub fn is_complete(&self) -> (r: bool)
        ensures
            r == self.complete(),
    {
        self.graphics_family.is_some() && self.present_family.is_some()
    }
}

pub open spec fn supports_graphics(p: QueueFamilyProperties) -> bool {
    p.queue_count > 0 && p.queue_flags & QUEUE_GRAPHICS_BIT == QUEUE_GRAPHICS_BIT
}

/// The choice after looking at family `i`: a family that can do a job takes
/// it over from any earlier one.
pub open spec fn queue_family_step(
    acc: QueueFamilyIndices,
    p: QueueFamilyProperties,
    present: bool,
    i: int,
) -> QueueFamilyIndices {
    QueueFamilyIndices {
        graphics_family: if supports_graphics(p) {
            Some(i as u32)
        } else {
            acc.graphics_family
        },
        present_family: if p.queue_count > 0 && present {
            Some(i as u32)
        } else {
            acc.present_family
        },
    }
}

/// The choice after looking at the first `n` families, where the search
/// stops as soon as both jobs have a family.
pub open spec fn queue_family_scan(
    props: Seq<QueueFamilyProperties>,
    present: Seq<bool>,
    n: nat,
) -> QueueFamilyIndices
    decreases n,
{
    if n == 0 {
        QueueFamilyIndices { graphics_family: None, present_family: None }
    } else {
        let prev = queue_family_scan(props, present, (n - 1) as nat);
        if prev.complete() {
            prev
        } else {
            queue_family_step(prev, props[n - 1], present[n - 1], n - 1)
        }
    }
}

proof fn lemma_scan_stays_complete(
    props: Seq<QueueFamilyProperties>,
    present: Seq<bool>,
    k: nat,
    m: nat,
)
    requires
        k <= m,
        queue_family_scan(props, present, k).complete(),
    ensures
        queue_family_scan(props, present, m) == queue_family_scan(props, present, k),
    decreases m - k,
{
    if k < m {
        lemma_scan_stays_complete(props, present, k, (m - 1) as nat);
    }
}

/// Finds the graphics and the present queue family. `present_support[i]`
/// says whether family `i` can present to the surface.
pub fn find_queue_family(
    queue_families: &Vec<QueueFamilyProperties>,
    present_support: &Vec<bool>,
) -> (r: QueueFamilyIndices)
    requires
        present_support@.len() == queue_families@.len(),
        queue_families@.len() <= u32::MAX,
    ensures
        r == queue_family_scan(queue_families@, present_support@, queue_families@.len()),
{
    let mut indices = QueueFamilyIndices::new();
    let n = queue_families.len();
    let mut i: usize = 0;
    while i < n
        invariant_except_break
            i <= n,
            indices == queue_family_scan(queue_families@, present_support@, i as nat),
            !indices.complete(),
        invariant
            n == queue_families@.len(),
            present_support@.len() == n,
            n <= u32::MAX,
        ensures
            indices == queue_family_scan(queue_families@, present_support@, n as nat),
        decreases n - i,
    {
        let family = queue_families[i];
        if family.queue_count > 0 && family.queue_flags & QUEUE_GRAPHICS_BIT == QUEUE_GRAPHICS_BIT {
            indices.graphics_family = Some(i as u32);
        }
        if family.queue_count > 0 && present_support[i] {
            indices.present_family = Some(i as u32);
        }
        i = i + 1;
        if indices.is_complete() {
            proof {
                lemma_scan_stays_complete(queue_families@, present_support@, i as nat, n as nat);
            }
            break;
        }
    }
    indices
}

/// `name` occurs among `available`.
pub open spec fn name_in(available: Seq<String>, name: String) -> bool {
    exists|j: int| 0 <= j < available.len() && (#[trigger] available[j])@ == name@
}

/// Every required name occurs among the available ones.
pub open spec fn names_present(available: Seq<String>, required: Seq<String>) -> bool {
    forall|i: int| 0 <= i < required.len() ==> name_in(available, #[trigger] required[i])
}

fn all_names_present(available: &Vec<String>, required: &Vec<String>) -> (r: bool)
    ensures
        r == names_present(available@, required@),
{
    let mut i: usize = 0;
    while i < required.len()
        invariant
            i <= required@.len(),
            forall|k: int| 0 <= k < i ==> name_in(available@, #[trigger] required@[k]),
        decreases required@.len() - i,
    {
        let mut found = false;
        let mut j: usize = 0;
        while j < available.len()
            invariant
                i < required@.len(),
                j <= available@.len(),
                found ==> name_in(available@, required@[i as int]),
                !found ==> forall|t: int| 0 <= t < j ==> (#[trigger] available@[t])@ != required@[i as int]@,
            decreases available@.len() - j,
        {
            if available[j] == required[i] {
                found = true;
            }
            j = j + 1;
        }
        if !found {
            assert(!name_in(available@, required@[i as int]));
            return false;
        }
        i = i + 1;
    }
    true
}

/// Whether the device offers every required extension, by name.
pub fn check_device_extension_support(available: &Vec<String>, required: &Vec<String>) -> (r: bool)
    ensures
        r == names_present(available@, required@),
{
    all_names_present(available, required)
}

/// Whether the instance offers every requested validation layer, by name.
pub fn check_validation_layer_support(available: &Vec<String>, required: &Vec<String>) -> (r: bool)
    ensures
        r == names_present(available@, required@),
{
    all_names_present(available, required)
}

/// What the engine learned of one physical device.
#[derive(Clone, Copy, PartialEq, Eq, Structural, Debug)]
pub struct DeviceSurvey {
    pub queue_family: QueueFamilyIndices,
    pub extensions_supported: bool,
    pub format_count: usize,
    pub present_mode_count: usize,
    pub sampler_anisotropy: bool,
}

pub open spec fn suitable(s: DeviceSurvey) -> bool {
    &&& s.queue_family.complete()
    &&& s.extensions_supported
    &&& s.format_count > 0
    &&& s.present_mode_count > 0
    &&& s.sampler_anisotropy
}

/// A device is suitable when it has both queue families, every required
/// extension, at least one surface format and present mode, and
/// anisotropic sampling.
pub fn is_physical_device_suitable(survey: &DeviceSurvey) -> (r: bool)
    ensures
        r == suitable(*survey),
{
    let is_swapchain_supported = if survey.extensions_supported {
        survey.format_count > 0 && survey.present_mode_count > 0
    } else {
        false
    };
    survey.queue_family.is_complete() && survey.extensions_supported && is_swapchain_supported
        && survey.sampler_anisotropy
}

/// The first suitable device, in enumeration order.
pub fn pick_physical_device(surveys: &Vec<DeviceSurvey>) -> (r: Option<usize>)
    ensures
        match r {
            Some(i) => i < surveys@.len() && suitable(surveys@[i as int]) && forall|k: int|
                0 <= k < i ==> !suitable(#[trigger] surveys@[k]),
            None => forall|k: int| 0 <= k < surveys@.len() ==> !suitable(#[trigger] surveys@[k]),
        },
{
    let mut i: usize = 0;
    while i < surveys.len()
        invariant
            i <= surveys@.len(),
            forall|k: int| 0 <= k < i ==> !suitable(#[trigger] surveys@[k]),
        decreases surveys@.len() - i,
    {
        if is_physical_device_suitable(&surveys[i]) {
            return Some(i);
        }
        i = i + 1;
    }
    None
}

/// The distinct queue families to create queues on: the graphics family,
/// then the present family when it differs.
pub fn unique_queue_families(indices: &QueueFamilyIndices) -> (r: Vec<u32>)
    requires
        indices.complete(),
    ensures
        r@ == if indices.graphics_family == indices.present_family {
            seq![indices.graphics_family.unwrap()]
        } else {
            seq![indices.graphics_family.unwrap(), indices.present_family.unwrap()]
        },
{
    let g = indices.graphics_family.unwrap();
    let p = indices.present_family.unwrap();
    let mut r: Vec<u32> = Vec::new();
    r.push(g);
    if g != p {
        r.push(p);
    }
    r
}

/// Memory type `i` is allowed by the filter and has every required property.
pub open spec fn memory_type_fits(type_filter: u32, required: u32, flags: u32, i: int) -> bool {
    &&& type_filter & (1u32 << (i as u32)) != 0
    &&& flags & required == required
}

/// The first memory type that the buffer allows and that has every required
/// property; `None` when there is none.
pub fn find_memory_type(type_filter: u32, required_properties: u32, memory_type_flags: &Vec<u32>) -> (r: Option<u32>)
    requires
        memory_type_flags@.len() <= MAX_MEMORY_TYPES,
    ensures
        match r {
            Some(i) => i < memory_type_flags@.len() && memory_type_fits(
                type_filter,
                required_properties,
                memory_type_flags@[i as int],
                i as int,
            ) && forall|k: int|
                0 <= k < i ==> !memory_type_fits(type_filter, required_properties, #[trigger] memory_type_flags@[k], k),
            None => forall|k: int|
                0 <= k < memory_type_flags@.len() ==> !memory_type_fits(
                    type_filter,
                    required_properties,
                    #[trigger] memory_type_flags@[k],
                    k,
                ),
        },
{
    let mut i: usize = 0;
    while i < memory_type_flags.len()
        invariant
            i <= memory_type_flags@.len(),
            memory_type_flags@.len() <= MAX_MEMORY_TYPES,
            forall|k: int|
                0 <= k < i ==> !memory_type_fits(type_filter, required_properties, #[trigger] memory_type_flags@[k], k),
        decreases memory_type_flags@.len() - i,
    {
        let bit: u32 = 1u32 << (i as u32);
        if type_filter & bit != 0 && memory_type_flags[i] & required_properties == required_properties {
            return Some(i as u32);
        }
        i = i + 1;
    }
    None
}

} // verus!
