//! Choice of the physical device that the renderer runs on.

use vstd::prelude::*;

verus! {

/// Kind of a physical device.
#[derive(Debug, Clone, Copy, PartialEq, Eq, Structural)]
pub enum PhysicalDeviceType {
    DiscreteGpu,
    IntegratedGpu,
    VirtualGpu,
    Cpu,
    Other,
}

/// What the choice of a device reads of one of its queue families.
#[derive(Debug, Clone, Copy, PartialEq, Eq, Structural)]
pub struct QueueFamilyInfo {
    /// Identifier of the family within its device.
    pub id: u32,
    /// Whether the family supports graphics operations.
    pub supports_graphics: bool,
    /// Whether the family can present to the window's surface.
    pub supports_present: bool,
    /// Whether the family explicitly supports transfer operations.
    pub explicitly_supports_transfers: bool,
}

/// What the choice of a device reads of one physical device.
#[derive(Debug, Clone, PartialEq, Eq)]
pub struct PhysicalDeviceInfo {
    /// Whether the device supports every required device extension.
    pub supports_required_extensions: bool,
    /// Whether the device supports every required feature.
    pub supports_required_features: bool,
    pub device_type: PhysicalDeviceType,
    /// Largest width or height of a two-dimensional image on the device.
    pub max_image_dimension2_d: u32,
    /// The device's queue families, in the order the device lists them.
    pub queue_families: Vec<QueueFamilyInfo>,
}

/// The chosen device, by its index in the list it was chosen from, with
/// the queue families to use on it.
#[derive(Debug, Clone, Copy, PartialEq, Eq, Structural)]
pub struct SuitablePhysicalDevice {
    pub physical_device: usize,
    pub graphics_family: u32,
    pub present_family: Option<u32>,
    pub transfer_family: Option<u32>,
}

/// Which capability of a queue family a search looks for.
#[derive(Debug, Clone, Copy, PartialEq, Eq, Structural)]
pub enum QueueCapability {
    Graphics,
    Present,
    Transfer,
}

pub open spec fn has_capability(family: QueueFamilyInfo, capability: QueueCapability) -> bool {
    match capability {
        QueueCapability::Graphics => family.supports_graphics,
        QueueCapability::Present => family.supports_present,
        QueueCapability::Transfer => family.explicitly_supports_transfers,
    }
}

/// Identifier of the first of the first `n` families with `capability`.
pub open spec fn first_with(
    families: Seq<QueueFamilyInfo>,
    capability: QueueCapability,
    n: int,
) -> Option<u32>
    decreases n,
{
    if n <= 0 {
        None
    } else {
        let earlier = first_with(families, capability, n - 1);
        if earlier is Some {
            earlier
        } else if has_capability(families[n - 1], capability) {
            Some(families[n - 1].id)
        } else {
            None
        }
    }
}

/// Queue families chosen on `device`, if it is suitable: it must support the
/// required extensions and features and have a graphics family; a present
/// family is taken when there is one, and a transfer family only together
/// with a present family.
pub open spec fn device_choice(device: PhysicalDeviceInfo) -> Option<(u32, Option<u32>, Option<u32>)> {
    let families = device.queue_families@;
    let n = families.len() as int;
    if !(device.supports_required_extensions && device.supports_required_features) {
        None
    } else {
        match (
            first_with(families, QueueCapability::Graphics, n),
            first_with(families, QueueCapability::Present, n),
            first_with(families, QueueCapability::Transfer, n),
        ) {
            (Some(g), Some(p), Some(t)) => Some((g, Some(p), Some(t))),
            (Some(g), Some(p), None) => Some((g, Some(p), None)),
            (Some(g), None, None) => Some((g, None, None)),
            _ => None,
        }
    }
}

/// Base of a device's score by its kind.
pub open spec fn device_type_score(device_type: PhysicalDeviceType) -> int {
    match device_type {
        PhysicalDeviceType::DiscreteGpu => 10000,
        PhysicalDeviceType::IntegratedGpu => 1000,
        PhysicalDeviceType::VirtualGpu => 100,
        PhysicalDeviceType::Cpu => 10,
        PhysicalDeviceType::Other => 0,
    }
}

/// Score of a device: by its kind, then by its largest image dimension.
pub open spec fn device_score(device: PhysicalDeviceInfo) -> int {
    device_type_score(device.device_type) + device.max_image_dimension2_d
}

/// Among devices with the same largest image dimension, discrete GPUs score
/// above integrated ones, which score above virtual ones, then CPUs, then
/// other devices.
pub proof fn lemma_score_prefers_discrete(a: PhysicalDeviceInfo, b: PhysicalDeviceInfo)
    requires
        a.max_image_dimension2_d == b.max_image_dimension2_d,
    ensures
        a.device_type == PhysicalDeviceType::DiscreteGpu && b.device_type
            != PhysicalDeviceType::DiscreteGpu ==> device_score(a) > device_score(b),
        a.device_type == PhysicalDeviceType::IntegratedGpu && b.device_type
            != PhysicalDeviceType::DiscreteGpu && b.device_type != PhysicalDeviceType::IntegratedGpu
            ==> device_score(a) > device_score(b),
        a.device_type == b.device_type ==> device_score(a) == device_score(b),
{
}

/// Whether every suitable device's score fits in a `u32`.
pub open spec fn scores_fit(devices: Seq<PhysicalDeviceInfo>) -> bool {
    forall|i: int|
        0 <= i < devices.len() && (#[trigger] device_choice(devices[i])) is Some
            ==> device_score(devices[i]) <= u32::MAX
}

/// Computes the score of a physical device.
pub fn score(device: &PhysicalDeviceInfo) -> (score: u32)
    requires
        device_score(*device) <= u32::MAX,
    ensures
        score == device_score(*device),
{
    let base: u32 = match device.device_type {
        PhysicalDeviceType::DiscreteGpu => 10000,
        PhysicalDeviceType::IntegratedGpu => 1000,
        PhysicalDeviceType::VirtualGpu => 100,
        PhysicalDeviceType::Cpu => 10,
        PhysicalDeviceType::Other => 0,
    };
    base + device.max_image_dimension2_d
}

/// Identifier of the first queue family of `families` with `capability`.
pub fn find_queue_family(families: &Vec<QueueFamilyInfo>, capability: QueueCapability) -> (found:
    Option<u32>)
    ensures
        found == first_with(families@, capability, families.len() as int),
{
    let mut i: usize = 0;
    while i < families.len()
        invariant
            0 <= i <= families.len(),
            first_with(families@, capability, i as int) is None,
        decreases families.len() - i,
    {
        let family = families[i];
        let has = match capability {
            QueueCapability::Graphics => family.supports_graphics,
            QueueCapability::Present => family.supports_present,
            QueueCapability::Transfer => family.explicitly_supports_transfers,
        };
        if has {
            proof {
                lemma_first_with_stable(families@, capability, i as int + 1, families.len() as int);
            }
            return Some(family.id);
        }
        i = i + 1;
    }
    None
}

/// Once found among a prefix, the first family with a capability stays the
/// same for every longer prefix.
proof fn lemma_first_with_stable(
    families: Seq<QueueFamilyInfo>,
    capability: QueueCapability,
    m: int,
    n: int,
)
    requires
        0 <= m <= n,
        first_with(families, capability, m) is Some,
    ensures
        first_with(families, capability, n) == first_with(families, capability, m),
    decreases n - m,
{
    if m < n {
        lemma_first_with_stable(families, capability, m, n - 1);
    }
}

/// The queue families to use on `device`, if it is suitable.
pub fn choose_queue_families(device: &PhysicalDeviceInfo) -> (choice: Option<
    (u32, Option<u32>, Option<u32>),
>)
    ensures
        choice == device_choice(*device),
{
    if !(device.supports_required_extensions && device.supports_required_features) {
        return None;
    }
    let graphics = find_queue_family(&device.queue_families, QueueCapability::Graphics);
    let present = find_queue_family(&device.queue_families, QueueCapability::Present);
    let transfer = find_queue_family(&device.queue_families, QueueCapability::Transfer);
    match (graphics, present, transfer) {
        (Some(g), Some(p), Some(t)) => Some((g, Some(p), Some(t))),
        (Some(g), Some(p), None) => Some((g, Some(p), None)),
        (Some(g), None, None) => Some((g, None, None)),
        _ => None,
    }
}

/// Whether `chosen` is what the choice among `devices` gives: a suitable
/// device with the highest score, the last one among equals, with its queue
/// families; none when no device is suitable.
pub open spec fn is_best_choice(
    devices: Seq<PhysicalDeviceInfo>,
    chosen: Option<SuitablePhysicalDevice>,
) -> bool {
    match chosen {
        None => forall|i: int| 0 <= i < devices.len() ==> (#[trigger] device_choice(devices[i])) is None,
        Some(s) => {
            let k = s.physical_device as int;
            &&& 0 <= k < devices.len()
            &&& device_choice(devices[k]) == Some(
                (s.graphics_family, s.present_family, s.transfer_family),
            )
            &&& forall|j: int|
                0 <= j < devices.len() && (#[trigger] device_choice(devices[j])) is Some
                    ==> device_score(devices[j]) <= device_score(devices[k])
            &&& forall|j: int|
                k < j < devices.len() && (#[trigger] device_choice(devices[j])) is Some
                    ==> device_score(devices[j]) < device_score(devices[k])
        },
    }
}

/// Chooses, among the physical devices of an instance, the suitable one
/// with the highest score, and the queue families to use on it.
pub fn suitable_physical_device(devices: &Vec<PhysicalDeviceInfo>) -> (chosen: Option<
    SuitablePhysicalDevice,
>)
    requires
        scores_fit(devices@),
    ensures
        is_best_choice(devices@, chosen),
{
    let mut best: Option<SuitablePhysicalDevice> = None;
    let mut best_score: u32 = 0;
    let mut i: usize = 0;
    while i < devices.len()
        invariant
            0 <= i <= devices.len(),
            scores_fit(devices@),
            match best {
                None => forall|j: int| 0 <= j < i ==> (#[trigger] device_choice(devices@[j])) is None,
                Some(s) => {
                    let k = s.physical_device as int;
                    &&& 0 <= k < i
                    &&& best_score == device_score(devices@[k])
                    &&& device_choice(devices@[k]) == Some(
                        (s.graphics_family, s.present_family, s.transfer_family),
                    )
                    &&& forall|j: int|
                        0 <= j < i && (#[trigger] device_choice(devices@[j])) is Some
                            ==> device_score(devices@[j]) <= device_score(devices@[k])
                    &&& forall|j: int|
                        k < j < i && (#[trigger] device_choice(devices@[j])) is Some
                            ==> device_score(devices@[j]) < device_score(devices@[k])
                },
            },
        decreases devices.len() - i,
    {
        let device = &devices[i];
        match choose_queue_families(device) {
            Some((g, p, t)) => {
                assert(device_choice(devices@[i as int]) is Some);
                let s = score(device);
                let better = match best {
                    None => true,
                    Some(_) => s >= best_score,
                };
                if better {
                    best = Some(
                        SuitablePhysicalDevice {
                            physical_device: i,
                            graphics_family: g,
                            present_family: p,
                            transfer_family: t,
                        },
                    );
                    best_score = s;
                }
            },
            None => {},
        }
        i = i + 1;
    }
    best
}

/// The queue families to create queues on: the graphics family, and the
/// present and transfer families where they were found, each once, in that
/// order of first appearance.
pub open spec fn unique_queue_families_spec(
    graphics: u32,
    present: Option<u32>,
    transfer: Option<u32>,
) -> Seq<u32> {
    let p = match present {
        Some(p) => p,
        None => graphics,
    };
    let t = match transfer {
        Some(t) => t,
        None => graphics,
    };
    let first = if p == graphics {
        seq![graphics]
    } else {
        seq![graphics, p]
    };
    if first.contains(t) {
        first
    } else {
        first.push(t)
    }
}

/// Lists the distinct queue families to create queues on.
pub fn unique_queue_families(graphics: u32, present: Option<u32>, transfer: Option<u32>) -> (families:
    Vec<u32>)
    ensures
        families@ == unique_queue_families_spec(graphics, present, transfer),
        families@.no_duplicates(),
        families@.contains(graphics),
        forall|f: u32|
            #[trigger] families@.contains(f) <==> (f == graphics || present == Some(f)
                || transfer == Some(f)),
{
    let p = match present {
        Some(p) => p,
        None => graphics,
    };
    let t = match transfer {
        Some(t) => t,
        None => graphics,
    };
    let mut families: Vec<u32> = Vec::new();
    families.push(graphics);
    if p != graphics {
        families.push(p);
    }
    if t != graphics && t != p {
        families.push(t);
    }
    proof {
        let first = if p == graphics {
            seq![graphics]
        } else {
            seq![graphics, p]
        };
        if t == graphics {
            assert(first[0] == t);
        } else if t == p {
            assert(first[1] == t);
        } else {
            assert forall|k: int| 0 <= k < first.len() implies first[k] != t by {}
        }
        assert(families@ =~= unique_queue_families_spec(graphics, present, transfer));
        assert(families@[0] == graphics);
        assert forall|f: u32|
            #[trigger] families@.contains(f) <==> (f == graphics || present == Some(f)
                || transfer == Some(f)) by {
            if f == graphics {
                assert(families@[0] == f);
            }
            if present == Some(f) && f != graphics {
                assert(families@[1] == f);
            }
            if transfer == Some(f) && f != graphics && f != p {
                assert(families@[families@.len() - 1] == f);
            }
            if transfer == Some(f) && f == p && f != graphics {
                assert(families@[1] == f);
            }
        }
    }
    families
}

/// Which of the created queues serves each role, by position among the
/// queues the device returned: the first serves graphics, the second (or
/// the first, when there is only one) presentation, the third (or the
/// first) transfers.
#[derive(Debug, Clone, Copy, PartialEq, Eq, Structural)]
pub struct QueueRoles {
    pub graphics: usize,
    pub present: usize,
    pub transfer: usize,
}

/// Assigns roles to the `created` queues of a new device.
pub fn queue_roles(created: usize) -> (roles: QueueRoles)
    requires
        created >= 1,
    ensures
        roles.graphics == 0,
        roles.present == (if created > 1 {
            1usize
        } else {
            0usize
        }),
        roles.transfer == (if created > 2 {
            2usize
        } else {
            0usize
        }),
{
    QueueRoles {
        graphics: 0,
        present: if created > 1 {
            1
        } else {
            0
        },
        transfer: if created > 2 {
            2
        } else {
            0
        },
    }
}

/// Position of the first of `families` that is `family`, if any.
pub open spec fn first_position(families: Seq<u32>, family: u32) -> Option<usize> {
    if families.contains(family) {
        Some(
            (choose|i: int|
                0 <= i < families.len() && families[i] == family && forall|j: int|
                    0 <= j < i ==> families[j] != family) as usize,
        )
    } else {
        None
    }
}

/// Finds the position of the first of `families` that is `family`.
pub fn position_of_family(families: &Vec<u32>, family: u32) -> (position: Option<usize>)
    ensures
        position == first_position(families@, family),
        position matches Some(i) ==> i < families.len() && families@[i as int] == family,
        position is None <==> !families@.contains(family),
{
    let mut i: usize = 0;
    while i < families.len()
        invariant
            0 <= i <= families.len(),
            forall|j: int| 0 <= j < i ==> families@[j] != family,
        decreases families.len() - i,
    {
        if families[i] == family {
            proof {
                assert(families@.contains(family));
                assert(exists|k: int|
                    0 <= k < families@.len() && families@[k] == family && forall|j: int|
                        0 <= j < k ==> families@[j] != family);
                let k = choose|k: int|
                    0 <= k < families@.len() && families@[k] == family && forall|j: int|
                        0 <= j < k ==> families@[j] != family;
                if k < i {
                    assert(families@[k] != family);
                } else if k > i {
                    assert(families@[i as int] == family);
                }
                assert(k == i);
            }
            return Some(i);
        }
        i = i + 1;
    }
    proof {
        if families@.contains(family) {
            let k = choose|k: int| 0 <= k < families@.len() && families@[k] == family;
            assert(families@[k] != family);
        }
    }
    None
}

/// Which of the created queues serves each role, by the queue families of
/// the created queues in order: each role gets the first queue on its
/// family, presentation and transfers falling back to the graphics family
/// where no family of their own was found; none when a family has no queue.
pub open spec fn roles_by_family_spec(
    families: Seq<u32>,
    graphics: u32,
    present: Option<u32>,
    transfer: Option<u32>,
) -> Option<QueueRoles> {
    let p = match present {
        Some(p) => p,
        None => graphics,
    };
    let t = match transfer {
        Some(t) => t,
        None => graphics,
    };
    match (first_position(families, graphics), first_position(families, p), first_position(families, t)) {
        (Some(g), Some(pi), Some(ti)) => Some(QueueRoles { graphics: g, present: pi, transfer: ti }),
        _ => None,
    }
}

/// Assigns roles to the created queues by the family each queue belongs to.
pub fn queue_roles_by_family(
    families: &Vec<u32>,
    graphics: u32,
    present: Option<u32>,
    transfer: Option<u32>,
) -> (roles: Option<QueueRoles>)
    ensures
        roles == roles_by_family_spec(families@, graphics, present, transfer),
        roles matches Some(r) ==> {
            &&& r.graphics < families.len() && families@[r.graphics as int] == graphics
            &&& r.present < families.len() && families@[r.present as int] == (match present {
                Some(p) => p,
                None => graphics,
            })
            &&& r.transfer < families.len() && families@[r.transfer as int] == (match transfer {
                Some(t) => t,
                None => graphics,
            })
        },
{
    let p = match present {
        Some(p) => p,
        None => graphics,
    };
    let t = match transfer {
        Some(t) => t,
        None => graphics,
    };
    match (
        position_of_family(families, graphics),
        position_of_family(families, p),
        position_of_family(families, t),
    ) {
        (Some(g), Some(pi), Some(ti)) => Some(QueueRoles { graphics: g, present: pi, transfer: ti }),
        _ => None,
    }
}

/// With one queue created on each family that `unique_queue_families` lists,
/// every role finds a queue on its own family.
pub proof fn lemma_unique_families_give_roles(graphics: u32, present: Option<u32>, transfer: Option<u32>)
    ensures
        roles_by_family_spec(
            unique_queue_families_spec(graphics, present, transfer),
            graphics,
            present,
            transfer,
        ) is Some,
{
    let families = unique_queue_families_spec(graphics, present, transfer);
    let p = match present {
        Some(p) => p,
        None => graphics,
    };
    let t = match transfer {
        Some(t) => t,
        None => graphics,
    };
    let first = if p == graphics {
        seq![graphics]
    } else {
        seq![graphics, p]
    };
    assert(first[0] == graphics);
    if p != graphics {
        assert(first[1] == p);
    }
    if first.contains(t) {
        assert(families == first);
    } else {
        assert(families == first.push(t));
        assert(families[families.len() - 1] == t);
    }
    assert(families[0] == graphics);
    assert(families.contains(graphics));
    if p != graphics {
        assert(families[1] == p);
    }
    assert(families.contains(p));
    assert(families.contains(t));
}

/// Depth formats the renderer can use, in order of preference.
#[derive(Debug, Clone, Copy, PartialEq, Eq, Structural)]
pub enum DepthFormat {
    D32Sfloat,
    D32SfloatS8Uint,
    D24UnormS8Uint,
    D16Unorm,
}

/// The depth format of the renderer: the first of 32-bit float, 32-bit float
/// with stencil and 24-bit with stencil that the device supports as a depth
/// attachment with optimal tiling, else 16-bit.
pub open spec fn depth_format_spec(supported: [bool; 3]) -> DepthFormat {
    if supported@[0] {
        DepthFormat::D32Sfloat
    } else if supported@[1] {
        DepthFormat::D32SfloatS8Uint
    } else if supported@[2] {
        DepthFormat::D24UnormS8Uint
    } else {
        DepthFormat::D16Unorm
    }
}

/// Picks the depth format; `supported[i]` tells whether the `i`-th of the
/// three preferred formats can be a depth attachment on the device.
pub fn suitable_depth_format(supported: [bool; 3]) -> (format: DepthFormat)
    ensures
        format == depth_format_spec(supported),
{
    if supported[0] {
        DepthFormat::D32Sfloat
    } else if supported[1] {
        DepthFormat::D32SfloatS8Uint
    } else if supported[2] {
        DepthFormat::D24UnormS8Uint
    } else {
        DepthFormat::D16Unorm
    }
}

/// The depth format is the first of the three preferred formats that the
/// device supports, and 16-bit only when it supports none of them.
pub proof fn lemma_depth_format_first_supported(supported: [bool; 3])
    ensures
        supported@[0] ==> depth_format_spec(supported) == DepthFormat::D32Sfloat,
        !supported@[0] && supported@[1] ==> depth_format_spec(supported)
            == DepthFormat::D32SfloatS8Uint,
        !supported@[0] && !supported@[1] && supported@[2] ==> depth_format_spec(supported)
            == DepthFormat::D24UnormS8Uint,
        depth_format_spec(supported) == DepthFormat::D16Unorm <==> (!supported@[0]
            && !supported@[1] && !supported@[2]),
{
}

/// The family found for a capability among the first `n` families has that
/// capability and comes before every other one that has it; none is found
/// exactly when no family among them has it.
pub proof fn lemma_first_with_finds_first(
    families: Seq<QueueFamilyInfo>,
    capability: QueueCapability,
    n: int,
)
    requires
        0 <= n <= families.len(),
    ensures
        first_with(families, capability, n) is None <==> forall|i: int|
            0 <= i < n ==> !has_capability(#[trigger] families[i], capability),
        first_with(families, capability, n) matches Some(id) ==> exists|i: int|
            0 <= i < n && has_capability(#[trigger] families[i], capability) && families[i].id
                == id && forall|j: int| 0 <= j < i ==> !has_capability(#[trigger] families[j], capability),
    decreases n,
{
    if n > 0 {
        lemma_first_with_finds_first(families, capability, n - 1);
        if first_with(families, capability, n - 1) is None {
            if has_capability(families[n - 1], capability) {
                assert(forall|j: int| 0 <= j < n - 1 ==> !has_capability(#[trigger] families[j], capability));
            }
        } else {
            let id = first_with(families, capability, n - 1)->0;
            let i = choose|i: int|
                0 <= i < n - 1 && has_capability(#[trigger] families[i], capability) && families[i].id
                    == id && forall|j: int| 0 <= j < i ==> !has_capability(#[trigger] families[j], capability);
            assert(has_capability(families[i], capability));
        }
    }
}

/// A device is chosen only when it supports the required extensions and
/// features and has a graphics family; the families chosen have the
/// capability of their role, and a transfer family only comes with a
/// present family.
pub proof fn lemma_device_choice_families_capable(device: PhysicalDeviceInfo)
    ensures
        device_choice(device) matches Some((g, p, t)) ==> {
            let families = device.queue_families@;
            &&& device.supports_required_extensions && device.supports_required_features
            &&& exists|i: int| 0 <= i < families.len() && #[trigger] families[i].id == g
                && families[i].supports_graphics
            &&& (p matches Some(pid) ==> exists|i: int|
                0 <= i < families.len() && #[trigger] families[i].id == pid
                    && families[i].supports_present)
            &&& (t matches Some(tid) ==> p is Some && exists|i: int|
                0 <= i < families.len() && #[trigger] families[i].id == tid
                    && families[i].explicitly_supports_transfers)
        },
        (device.supports_required_extensions && device.supports_required_features && exists|i: int|
            0 <= i < device.queue_families@.len()
                && (#[trigger] device.queue_families@[i]).supports_graphics
                && device.queue_families@[i].supports_present) ==> device_choice(device) is Some,
        (forall|i: int| 0 <= i < device.queue_families@.len()
            ==> !(#[trigger] device.queue_families@[i]).supports_graphics) ==> device_choice(device) is None,
{
    let families = device.queue_families@;
    let n = families.len() as int;
    lemma_first_with_finds_first(families, QueueCapability::Graphics, n);
    lemma_first_with_finds_first(families, QueueCapability::Present, n);
    lemma_first_with_finds_first(families, QueueCapability::Transfer, n);
    if exists|i: int| 0 <= i < n && (#[trigger] families[i]).supports_graphics && families[i].supports_present {
        let i = choose|i: int| 0 <= i < n && (#[trigger] families[i]).supports_graphics && families[i].supports_present;
        assert(has_capability(families[i], QueueCapability::Graphics));
        assert(has_capability(families[i], QueueCapability::Present));
    }
    if forall|i: int| 0 <= i < n ==> !(#[trigger] families[i]).supports_graphics {
        assert forall|i: int| 0 <= i < n implies !has_capability(#[trigger] families[i], QueueCapability::Graphics) by {
            assert(!families[i].supports_graphics);
        }
    }
}

} // verus!
