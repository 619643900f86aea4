use titan_core::device::{
    bytes_equal, device_queue_families, enabled_extension_indices, enumerate_queue_slots,
    graphics_family_index, is_suitable, present_family_index, queue_family_indices_with, score,
    DeviceError,
};
use titan_core::selection::{
    choose_queue_families, find_queue_family, queue_roles, queue_roles_by_family, score as device_score,
    suitable_depth_format, suitable_physical_device, unique_queue_families, DepthFormat,
    PhysicalDeviceInfo, PhysicalDeviceType, QueueCapability, QueueFamilyInfo, QueueRoles,
    SuitablePhysicalDevice,
};

const GRAPHICS: u32 = 0b1;
const COMPUTE: u32 = 0b10;
const TRANSFER: u32 = 0b100;

#[test]
fn queue_families_with_flags_in_order() {
    let families = vec![TRANSFER, GRAPHICS | COMPUTE, GRAPHICS | COMPUTE | TRANSFER, COMPUTE];
    assert_eq!(queue_family_indices_with(&families, GRAPHICS), vec![1, 2]);
    assert_eq!(queue_family_indices_with(&families, COMPUTE | TRANSFER), vec![2]);
    assert_eq!(queue_family_indices_with(&families, 0), vec![0, 1, 2, 3]);
    assert_eq!(queue_family_indices_with(&Vec::new(), GRAPHICS), Vec::<usize>::new());
}

#[test]
fn graphics_and_present_families_are_the_first() {
    assert_eq!(graphics_family_index(&vec![TRANSFER, GRAPHICS, GRAPHICS]), Ok(1));
    assert_eq!(graphics_family_index(&vec![TRANSFER]), Err(DeviceError::NoGraphicsQueue));
    assert_eq!(present_family_index(&vec![false, true, true]), Ok(1));
    assert_eq!(present_family_index(&vec![false]), Err(DeviceError::NoPresentQueue));
    assert_eq!(present_family_index(&Vec::new()), Err(DeviceError::NoPresentQueue));
}

#[test]
fn suitability_needs_graphics_and_swapchain_extension() {
    let swapchain = b"VK_KHR_swapchain".to_vec();
    let other = b"VK_KHR_maintenance1".to_vec();
    assert!(is_suitable(&vec![GRAPHICS], &vec![other.clone(), swapchain.clone()]));
    assert!(!is_suitable(&vec![GRAPHICS], &vec![other.clone()]));
    assert!(!is_suitable(&vec![TRANSFER], &vec![swapchain.clone()]));
    assert!(!is_suitable(&vec![GRAPHICS], &vec![b"VK_KHR_swapchain_mutable_format".to_vec()]));
    assert_eq!(enabled_extension_indices(&vec![other, swapchain.clone(), swapchain]), vec![1, 2]);
}

#[test]
fn byte_strings_compare_by_content() {
    assert!(bytes_equal(&vec![1, 2, 3], &vec![1, 2, 3]));
    assert!(!bytes_equal(&vec![1, 2, 3], &vec![1, 2]));
    assert!(!bytes_equal(&vec![1, 2, 4], &vec![1, 2, 3]));
    assert!(bytes_equal(&Vec::new(), &Vec::new()));
}

#[test]
fn ash_score_by_type_then_dimension() {
    assert_eq!(score(2, 16384), 17384);
    assert_eq!(score(1, 16384), 16484);
    assert_eq!(score(3, 16384), 16384);
    assert_eq!(score(0, 0), 0);
}

#[test]
fn device_families_checked_then_deduplicated() {
    assert_eq!(
        device_queue_families(1, 2, &vec![GRAPHICS], &vec![true]),
        Err(DeviceError::ParentMismatch)
    );
    assert_eq!(device_queue_families(1, 1, &vec![GRAPHICS], &vec![true]), Ok(vec![0]));
    assert_eq!(
        device_queue_families(1, 1, &vec![TRANSFER, GRAPHICS], &vec![true, false]),
        Ok(vec![1, 0])
    );
    assert_eq!(
        device_queue_families(1, 1, &vec![TRANSFER], &vec![true]),
        Err(DeviceError::NoGraphicsQueue)
    );
    assert_eq!(
        device_queue_families(1, 1, &vec![GRAPHICS], &vec![false]),
        Err(DeviceError::NoPresentQueue)
    );
    assert_eq!(DeviceError::ParentMismatch.message(), "surface and physical device parents must be the same");
    assert_eq!(DeviceError::NoPresentQueue.message(), "no queues with surface present support");
}

#[test]
fn queue_slots_list_every_queue() {
    assert_eq!(
        enumerate_queue_slots(&vec![(0, 2), (3, 0), (5, 1)]),
        vec![(0, 0), (0, 1), (5, 0)]
    );
    assert_eq!(enumerate_queue_slots(&Vec::new()), Vec::<(u32, u32)>::new());
}

fn family(id: u32, graphics: bool, present: bool, transfer: bool) -> QueueFamilyInfo {
    QueueFamilyInfo {
        id,
        supports_graphics: graphics,
        supports_present: present,
        explicitly_supports_transfers: transfer,
    }
}

fn device(ty: PhysicalDeviceType, dim: u32, families: Vec<QueueFamilyInfo>) -> PhysicalDeviceInfo {
    PhysicalDeviceInfo {
        supports_required_extensions: true,
        supports_required_features: true,
        device_type: ty,
        max_image_dimension2_d: dim,
        queue_families: families,
    }
}

#[test]
fn vulkano_score_by_type() {
    let d = |ty| device(ty, 16384, Vec::new());
    assert_eq!(device_score(&d(PhysicalDeviceType::DiscreteGpu)), 26384);
    assert_eq!(device_score(&d(PhysicalDeviceType::IntegratedGpu)), 17384);
    assert_eq!(device_score(&d(PhysicalDeviceType::VirtualGpu)), 16484);
    assert_eq!(device_score(&d(PhysicalDeviceType::Cpu)), 16394);
    assert_eq!(device_score(&d(PhysicalDeviceType::Other)), 16384);
}

#[test]
fn queue_family_search_returns_ids() {
    let families = vec![family(7, false, true, false), family(9, true, true, true)];
    assert_eq!(find_queue_family(&families, QueueCapability::Graphics), Some(9));
    assert_eq!(find_queue_family(&families, QueueCapability::Present), Some(7));
    assert_eq!(find_queue_family(&families, QueueCapability::Transfer), Some(9));
    assert_eq!(find_queue_family(&Vec::new(), QueueCapability::Transfer), None);
}

#[test]
fn queue_family_choice_patterns() {
    let all = device(PhysicalDeviceType::Cpu, 1, vec![family(0, true, true, true)]);
    assert_eq!(choose_queue_families(&all), Some((0, Some(0), Some(0))));
    let no_transfer = device(PhysicalDeviceType::Cpu, 1, vec![family(0, true, true, false)]);
    assert_eq!(choose_queue_families(&no_transfer), Some((0, Some(0), None)));
    let graphics_only = device(PhysicalDeviceType::Cpu, 1, vec![family(0, true, false, false)]);
    assert_eq!(choose_queue_families(&graphics_only), Some((0, None, None)));
    let transfer_no_present = device(PhysicalDeviceType::Cpu, 1, vec![family(0, true, false, true)]);
    assert_eq!(choose_queue_families(&transfer_no_present), None);
    let mut missing_ext = all.clone();
    missing_ext.supports_required_extensions = false;
    assert_eq!(choose_queue_families(&missing_ext), None);
}

#[test]
fn best_device_is_highest_scoring_and_last_among_equals() {
    let devices = vec![
        device(PhysicalDeviceType::IntegratedGpu, 8192, vec![family(0, true, true, false)]),
        device(PhysicalDeviceType::DiscreteGpu, 16384, vec![family(1, false, false, false)]),
        device(PhysicalDeviceType::DiscreteGpu, 4096, vec![family(2, true, false, false)]),
        device(PhysicalDeviceType::DiscreteGpu, 4096, vec![family(3, true, true, true)]),
    ];
    assert_eq!(
        suitable_physical_device(&devices),
        Some(SuitablePhysicalDevice {
            physical_device: 3,
            graphics_family: 3,
            present_family: Some(3),
            transfer_family: Some(3),
        })
    );
    assert_eq!(suitable_physical_device(&Vec::new()), None);
    assert_eq!(suitable_physical_device(&vec![devices[1].clone()]), None);
}

#[test]
fn unique_families_keep_first_occurrences() {
    assert_eq!(unique_queue_families(0, None, None), vec![0]);
    assert_eq!(unique_queue_families(0, Some(1), Some(1)), vec![0, 1]);
    assert_eq!(unique_queue_families(0, Some(0), Some(2)), vec![0, 2]);
    assert_eq!(unique_queue_families(0, Some(1), Some(2)), vec![0, 1, 2]);
    assert_eq!(unique_queue_families(4, None, Some(4)), vec![4]);
}

#[test]
fn queue_roles_fall_back_to_first_queue() {
    assert_eq!(queue_roles(1), QueueRoles { graphics: 0, present: 0, transfer: 0 });
    assert_eq!(queue_roles(2), QueueRoles { graphics: 0, present: 1, transfer: 0 });
    assert_eq!(queue_roles(3), QueueRoles { graphics: 0, present: 1, transfer: 2 });
}

#[test]
fn depth_format_by_preference() {
    assert_eq!(suitable_depth_format([true, true, true]), DepthFormat::D32Sfloat);
    assert_eq!(suitable_depth_format([false, true, true]), DepthFormat::D32SfloatS8Uint);
    assert_eq!(suitable_depth_format([false, false, true]), DepthFormat::D24UnormS8Uint);
    assert_eq!(suitable_depth_format([false, false, false]), DepthFormat::D16Unorm);
}

#[test]
fn queue_roles_follow_families() {
    let families = unique_queue_families(0, Some(0), Some(2));
    assert_eq!(families, vec![0, 2]);
    assert_eq!(
        queue_roles_by_family(&families, 0, Some(0), Some(2)),
        Some(QueueRoles { graphics: 0, present: 0, transfer: 1 })
    );
    assert_eq!(
        queue_roles_by_family(&vec![5, 1, 9], 1, None, Some(9)),
        Some(QueueRoles { graphics: 1, present: 1, transfer: 2 })
    );
    assert_eq!(queue_roles_by_family(&vec![5], 1, None, None), None);
    assert_eq!(queue_roles_by_family(&vec![1, 1], 1, Some(1), None), Some(QueueRoles { graphics: 0, present: 0, transfer: 0 }));
}
