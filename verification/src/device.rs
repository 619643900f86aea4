//! Choice of queue families and ranking of physical devices.

use vstd::prelude::*;

use crate::vk::{
    device_type_discrete_gpu, device_type_discrete_gpu_raw, device_type_integrated_gpu,
    device_type_integrated_gpu_raw, flags_contain, queue_graphics, queue_graphics_bit,
    swapchain_extension_name, swapchain_extension_name_bytes,
};

verus! {

/// Error that can happen while choosing queue families or creating a device.
#[derive(Debug, Clone, Copy, PartialEq, Eq, Structural)]
pub enum DeviceError {
    /// No queue family of the device supports graphics.
    NoGraphicsQueue,
    /// No queue family of the device can present to the surface.
    NoPresentQueue,
    /// The surface and the physical device belong to different instances.
    ParentMismatch,
}

impl DeviceError {
    /// The message that describes this error.
    pub fn message(&self) -> (text: &'static str)
        ensures
            text@ == self.message_spec(),
    {
        proof {
            reveal_strlit("no queues with graphics support");
            reveal_strlit("no queues with surface present support");
            reveal_strlit("surface and physical device parents must be the same");
        }
        match self {
            DeviceError::NoGraphicsQueue => "no queues with graphics support",
            DeviceError::NoPresentQueue => "no queues with surface present support",
            DeviceError::ParentMismatch => "surface and physical device parents must be the same",
        }
    }

    pub open spec fn message_spec(&self) -> Seq<char> {
        match self {
            DeviceError::NoGraphicsQueue => "no queues with graphics support"@,
            DeviceError::NoPresentQueue => "no queues with surface present support"@,
            DeviceError::ParentMismatch => "surface and physical device parents must be the same"@,
        }
    }
}

/// Indices, in increasing order, of the first `n` queue families whose
/// flags hold every bit of `flags`.
pub open spec fn indices_with(families: Seq<u32>, flags: u32, n: int) -> Seq<usize>
    decreases n,
{
    if n <= 0 {
        seq![]
    } else {
        let earlier = indices_with(families, flags, n - 1);
        if flags_contain(families[n - 1], flags) {
            earlier.push((n - 1) as usize)
        } else {
            earlier
        }
    }
}

/// Indices, in increasing order, of the first `n` entries of `support`
/// that hold `true`.
pub open spec fn supported_indices(support: Seq<bool>, n: int) -> Seq<usize>
    decreases n,
{
    if n <= 0 {
        seq![]
    } else {
        let earlier = supported_indices(support, n - 1);
        if support[n - 1] {
            earlier.push((n - 1) as usize)
        } else {
            earlier
        }
    }
}

/// The graphics queue family: the first family with graphics support.
pub open spec fn graphics_family_spec(families: Seq<u32>) -> Result<u32, DeviceError> {
    let found = indices_with(families, queue_graphics_bit(), families.len() as int);
    if found.len() > 0 {
        Ok(found[0] as u32)
    } else {
        Err(DeviceError::NoGraphicsQueue)
    }
}

/// The present queue family: the first family that can present to the surface.
pub open spec fn present_family_spec(support: Seq<bool>) -> Result<u32, DeviceError> {
    let found = supported_indices(support, support.len() as int);
    if found.len() > 0 {
        Ok(found[0] as u32)
    } else {
        Err(DeviceError::NoPresentQueue)
    }
}

/// Indices of the queue families whose flags (`families`, the raw
/// `VkQueueFlags` of each family in order) hold every bit of `flags`.
pub fn queue_family_indices_with(families: &Vec<u32>, flags: u32) -> (indices: Vec<usize>)
    ensures
        indices@ == indices_with(families@, flags, families.len() as int),
{
    let mut indices: Vec<usize> = Vec::new();
    let mut i: usize = 0;
    while i < families.len()
        invariant
            0 <= i <= families.len(),
            indices@ == indices_with(families@, flags, i as int),
        decreases families.len() - i,
    {
        if families[i] & flags == flags {
            indices.push(i);
        }
        i = i + 1;
    }
    indices
}

/// Index of the first queue family with graphics support.
pub fn graphics_family_index(families: &Vec<u32>) -> (index: Result<u32, DeviceError>)
    ensures
        index == graphics_family_spec(families@),
{
    let graphics = queue_graphics();
    let found = queue_family_indices_with(families, graphics);
    if found.len() > 0 {
        Ok(found[0] as u32)
    } else {
        Err(DeviceError::NoGraphicsQueue)
    }
}

/// Index of the first queue family that can present to the surface;
/// `support[i]` tells whether family `i` can.
pub fn present_family_index(support: &Vec<bool>) -> (index: Result<u32, DeviceError>)
    ensures
        index == present_family_spec(support@),
{
    let mut i: usize = 0;
    while i < support.len()
        invariant
            0 <= i <= support.len(),
            supported_indices(support@, i as int).len() == 0,
        decreases support.len() - i,
    {
        if support[i] {
            proof {
                lemma_supported_indices_prefix(support@, i as int + 1, support.len() as int);
            }
            return Ok(i as u32);
        }
        i = i + 1;
    }
    Err(DeviceError::NoPresentQueue)
}

/// A longer prefix keeps the indices found in a shorter one.
proof fn lemma_supported_indices_prefix(support: Seq<bool>, m: int, n: int)
    requires
        0 <= m <= n <= support.len(),
    ensures
        supported_indices(support, n).len() >= supported_indices(support, m).len(),
        forall|k: int|
            0 <= k < supported_indices(support, m).len() ==> #[trigger] supported_indices(
                support,
                n,
            )[k] == supported_indices(support, m)[k],
    decreases n - m,
{
    if m < n {
        lemma_supported_indices_prefix(support, m, n - 1);
    }
}

/// Whether two byte strings are equal.
pub fn bytes_equal(a: &Vec<u8>, b: &Vec<u8>) -> (equal: bool)
    ensures
        equal == (a@ == b@),
{
    if a.len() != b.len() {
        return false;
    }
    let mut i: usize = 0;
    while i < a.len()
        invariant
            0 <= i <= a.len(),
            a.len() == b.len(),
            forall|j: int| 0 <= j < i ==> a@[j] == b@[j],
        decreases a.len() - i,
    {
        if a[i] != b[i] {
            return false;
        }
        i = i + 1;
    }
    assert(a@ =~= b@);
    true
}

/// Whether one of `names` is the name of the swapchain extension.
pub open spec fn has_swapchain_extension(names: Seq<Vec<u8>>) -> bool {
    exists|i: int| 0 <= i < names.len() && #[trigger] names[i]@ == swapchain_extension_name_bytes()
}

/// Whether a physical device can be used by the engine: one of its queue
/// families supports graphics and it offers the swapchain extension.
/// `families` holds the raw `VkQueueFlags` of each queue family and
/// `extension_names` the names of the device's extensions, as bytes.
pub fn is_suitable(families: &Vec<u32>, extension_names: &Vec<Vec<u8>>) -> (suitable: bool)
    ensures
        suitable == (indices_with(families@, queue_graphics_bit(), families.len() as int).len() > 0
            && has_swapchain_extension(extension_names@)),
{
    let graphics = queue_graphics();
    let graphics_families = queue_family_indices_with(families, graphics);
    let required = swapchain_extension_name();
    let mut found = false;
    let mut i: usize = 0;
    while i < extension_names.len()
        invariant
            0 <= i <= extension_names.len(),
            required@ == swapchain_extension_name_bytes(),
            found == exists|j: int|
                0 <= j < i && #[trigger] extension_names@[j]@ == swapchain_extension_name_bytes(),
        decreases extension_names.len() - i,
    {
        if bytes_equal(&extension_names[i], &required) {
            found = true;
        }
        i = i + 1;
    }
    graphics_families.len() > 0 && found
}

/// Base of the score of a physical device by its raw `VkPhysicalDeviceType`.
pub open spec fn device_type_score(device_type: i32) -> int {
    if device_type == device_type_discrete_gpu_raw() {
        1000
    } else if device_type == device_type_integrated_gpu_raw() {
        100
    } else {
        0
    }
}

/// Score of a physical device: discrete GPUs before integrated ones before
/// all others, then by the largest two-dimensional image they support.
pub fn score(device_type: i32, max_image_dimension2_d: u32) -> (score: u32)
    requires
        device_type_score(device_type) + max_image_dimension2_d <= u32::MAX,
    ensures
        score == device_type_score(device_type) + max_image_dimension2_d,
        device_type == device_type_discrete_gpu_raw() ==> score == 1000 + max_image_dimension2_d,
        device_type == device_type_integrated_gpu_raw() ==> score == 100 + max_image_dimension2_d,
        device_type != device_type_discrete_gpu_raw() && device_type
            != device_type_integrated_gpu_raw() ==> score == max_image_dimension2_d,
{
    let discrete = device_type_discrete_gpu();
    let integrated = device_type_integrated_gpu();
    let base: u32 = if device_type == discrete {
        1000
    } else if device_type == integrated {
        100
    } else {
        0
    };
    base + max_image_dimension2_d
}

/// The base of a device's score is 1000 for a discrete GPU, 100 for an
/// integrated GPU and 0 for every other type of device (CPU, virtual GPU,
/// other); so with equal image dimensions a discrete GPU outranks an
/// integrated one, which outranks every other device.
pub proof fn lemma_score_ranks_device_types(other_type: i32, dimension: u32)
    requires
        other_type != device_type_discrete_gpu_raw(),
        other_type != device_type_integrated_gpu_raw(),
    ensures
        device_type_score(device_type_discrete_gpu_raw()) == 1000,
        device_type_score(device_type_integrated_gpu_raw()) == 100,
        device_type_score(other_type) == 0,
        device_type_score(other_type) + dimension < device_type_score(
            device_type_integrated_gpu_raw(),
        ) + dimension,
        device_type_score(device_type_integrated_gpu_raw()) + dimension < device_type_score(
            device_type_discrete_gpu_raw(),
        ) + dimension,
{
}

/// Indices, in increasing order, of the first `n` extension names that are
/// required by the engine, that is, are the swapchain extension's name.
pub open spec fn required_indices(names: Seq<Vec<u8>>, n: int) -> Seq<usize>
    decreases n,
{
    if n <= 0 {
        seq![]
    } else {
        let earlier = required_indices(names, n - 1);
        if names[n - 1]@ == swapchain_extension_name_bytes() {
            earlier.push((n - 1) as usize)
        } else {
            earlier
        }
    }
}

/// The extensions to enable on a new device: those of the device's
/// extensions, given by name, that the engine requires.
pub fn enabled_extension_indices(extension_names: &Vec<Vec<u8>>) -> (enabled: Vec<usize>)
    ensures
        enabled@ == required_indices(extension_names@, extension_names.len() as int),
{
    let required = swapchain_extension_name();
    let mut enabled: Vec<usize> = Vec::new();
    let mut i: usize = 0;
    while i < extension_names.len()
        invariant
            0 <= i <= extension_names.len(),
            required@ == swapchain_extension_name_bytes(),
            enabled@ == required_indices(extension_names@, i as int),
        decreases extension_names.len() - i,
    {
        if bytes_equal(&extension_names[i], &required) {
            enabled.push(i);
        }
        i = i + 1;
    }
    enabled
}

/// Queue families to create queues from: each of `graphics` and `present`,
/// once.
pub open spec fn unique_families_spec(graphics: u32, present: u32) -> Seq<u32> {
    if graphics == present {
        seq![graphics]
    } else {
        seq![graphics, present]
    }
}

/// The families of a new device are distinct and are the graphics and the
/// present family.
pub proof fn lemma_unique_families(graphics: u32, present: u32)
    ensures
        unique_families_spec(graphics, present).no_duplicates(),
        unique_families_spec(graphics, present).contains(graphics),
        unique_families_spec(graphics, present).contains(present),
        forall|f: u32|
            #[trigger] unique_families_spec(graphics, present).contains(f) ==> f == graphics || f
                == present,
{
    let s = unique_families_spec(graphics, present);
    assert(s[0] == graphics);
    if graphics != present {
        assert(s[1] == present);
    }
}

/// Decides the queue families of a new logical device: the surface and the
/// physical device must belong to the same instance, and the device needs a
/// graphics family and a family that can present to the surface.
/// `families` holds the raw `VkQueueFlags` of each queue family and
/// `present_support[i]` whether family `i` can present to the surface.
pub fn device_queue_families(
    surface_instance: u64,
    physical_device_instance: u64,
    families: &Vec<u32>,
    present_support: &Vec<bool>,
) -> (chosen: Result<Vec<u32>, DeviceError>)
    ensures
        surface_instance != physical_device_instance ==> chosen == Err::<Vec<u32>, DeviceError>(
            DeviceError::ParentMismatch,
        ),
        surface_instance == physical_device_instance ==> match chosen {
            Ok(list) => graphics_family_spec(families@) is Ok && present_family_spec(
                present_support@,
            ) is Ok && list@ == unique_families_spec(
                graphics_family_spec(families@)->Ok_0,
                present_family_spec(present_support@)->Ok_0,
            ),
            Err(e) => {
                ||| graphics_family_spec(families@) == Err::<u32, DeviceError>(e)
                ||| graphics_family_spec(families@) is Ok && present_family_spec(present_support@)
                    == Err::<u32, DeviceError>(e)
            },
        },
{
    if surface_instance != physical_device_instance {
        return Err(DeviceError::ParentMismatch);
    }
    let graphics = match graphics_family_index(families) {
        Ok(index) => index,
        Err(e) => return Err(e),
    };
    let present = match present_family_index(present_support) {
        Ok(index) => index,
        Err(e) => return Err(e),
    };
    let mut list: Vec<u32> = Vec::new();
    list.push(graphics);
    if present != graphics {
        list.push(present);
    }
    Ok(list)
}

/// The queues to fetch from a device created with `create_infos`: for each
/// pair of a family index and a number of queues, that family's queues in
/// order.
pub open spec fn queue_slots(create_infos: Seq<(u32, usize)>, n: int) -> Seq<(u32, u32)>
    decreases n,
{
    if n <= 0 {
        seq![]
    } else {
        queue_slots(create_infos, n - 1) + Seq::new(
            create_infos[n - 1].1 as nat,
            |k: int| (create_infos[n - 1].0, k as u32),
        )
    }
}

/// Lists, for each queue create info (a family index with its number of
/// queues), the family and index of every queue to fetch, in order.
pub fn enumerate_queue_slots(create_infos: &Vec<(u32, usize)>) -> (slots: Vec<(u32, u32)>)
    ensures
        slots@ == queue_slots(create_infos@, create_infos.len() as int),
{
    let mut slots: Vec<(u32, u32)> = Vec::new();
    let mut i: usize = 0;
    while i < create_infos.len()
        invariant
            0 <= i <= create_infos.len(),
            slots@ == queue_slots(create_infos@, i as int),
        decreases create_infos.len() - i,
    {
        let (family, count) = create_infos[i];
        let ghost before = slots@;
        let mut k: usize = 0;
        while k < count
            invariant
                0 <= k <= count,
                count == create_infos@[i as int].1,
                family == create_infos@[i as int].0,
                slots@ == before + Seq::new(k as nat, |m: int| (family, m as u32)),
            decreases count - k,
        {
            slots.push((family, k as u32));
            assert(slots@ =~= before + Seq::new((k + 1) as nat, |m: int| (family, m as u32)));
            k = k + 1;
        }
        assert(slots@ =~= queue_slots(create_infos@, i as int + 1));
        i = i + 1;
    }
    slots
}

} // verus!
