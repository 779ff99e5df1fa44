use scene_presenter::adapter::{describe_device, describe_queue_family};
use scene_presenter::device::{
    first_usable_family, select_physical_device, DeviceClass, PhysicalDeviceInfo, QueueFamily,
    SelectError, Selection,
};
use vulkano::device::physical::PhysicalDeviceType;
use vulkano::device::{DeviceExtensions, QueueFlags};

fn family(graphics: bool, presents: bool) -> QueueFamily {
    QueueFamily { graphics, presents }
}

fn capable(class: DeviceClass) -> PhysicalDeviceInfo {
    PhysicalDeviceInfo { class, has_extensions: true, queue_families: vec![family(true, true)] }
}

#[test]
fn discrete_beats_integrated_in_either_order() {
    let first = vec![capable(DeviceClass::Discrete), capable(DeviceClass::Integrated)];
    assert_eq!(select_physical_device(&first), Ok(Selection { device: 0, queue_family: 0 }));
    let second = vec![capable(DeviceClass::Integrated), capable(DeviceClass::Discrete)];
    assert_eq!(select_physical_device(&second), Ok(Selection { device: 1, queue_family: 0 }));
    let amid = vec![
        capable(DeviceClass::Cpu),
        capable(DeviceClass::Integrated),
        capable(DeviceClass::Other),
        capable(DeviceClass::Discrete),
        capable(DeviceClass::Virtual),
    ];
    assert_eq!(select_physical_device(&amid), Ok(Selection { device: 3, queue_family: 0 }));
}

#[test]
fn software_only_list_still_yields_a_device() {
    let devices = vec![capable(DeviceClass::Cpu), capable(DeviceClass::Cpu)];
    assert_eq!(select_physical_device(&devices), Ok(Selection { device: 0, queue_family: 0 }));
    let unknown = vec![capable(DeviceClass::Other)];
    assert_eq!(select_physical_device(&unknown), Ok(Selection { device: 0, queue_family: 0 }));
}

#[test]
fn equal_ranks_go_to_the_first_enumerated() {
    let devices = vec![
        capable(DeviceClass::Virtual),
        capable(DeviceClass::Integrated),
        capable(DeviceClass::Integrated),
    ];
    assert_eq!(select_physical_device(&devices), Ok(Selection { device: 1, queue_family: 0 }));
}

#[test]
fn full_ranking_order() {
    assert_eq!(DeviceClass::Discrete.rank(), 0);
    assert_eq!(DeviceClass::Integrated.rank(), 1);
    assert_eq!(DeviceClass::Virtual.rank(), 2);
    assert_eq!(DeviceClass::Cpu.rank(), 3);
    assert_eq!(DeviceClass::Other.rank(), 4);
    let devices = vec![
        capable(DeviceClass::Other),
        capable(DeviceClass::Cpu),
        capable(DeviceClass::Virtual),
    ];
    assert_eq!(select_physical_device(&devices), Ok(Selection { device: 2, queue_family: 0 }));
}

#[test]
fn incapable_devices_are_passed_over() {
    let devices = vec![
        PhysicalDeviceInfo {
            class: DeviceClass::Discrete,
            has_extensions: false,
            queue_families: vec![family(true, true)],
        },
        PhysicalDeviceInfo {
            class: DeviceClass::Discrete,
            has_extensions: true,
            queue_families: vec![family(true, false), family(false, true)],
        },
        PhysicalDeviceInfo {
            class: DeviceClass::Cpu,
            has_extensions: true,
            queue_families: vec![family(false, false), family(true, false), family(true, true)],
        },
    ];
    assert_eq!(select_physical_device(&devices), Ok(Selection { device: 2, queue_family: 2 }));
}

#[test]
fn queue_family_is_the_first_usable_one() {
    let families = vec![family(false, true), family(true, true), family(true, true)];
    assert_eq!(first_usable_family(&families), Some(1));
    assert_eq!(first_usable_family(&vec![family(true, false)]), None);
    assert_eq!(first_usable_family(&Vec::new()), None);
}

#[test]
fn empty_list_has_no_capable_device() {
    assert_eq!(select_physical_device(&Vec::new()), Err(SelectError::NoCapableDevice));
}

#[test]
fn missing_extensions_everywhere_is_no_capable_device() {
    let devices = vec![PhysicalDeviceInfo {
        class: DeviceClass::Discrete,
        has_extensions: false,
        queue_families: vec![family(true, true)],
    }];
    assert_eq!(select_physical_device(&devices), Err(SelectError::NoCapableDevice));
}

#[test]
fn extensions_without_a_usable_family_is_no_suitable_queue() {
    let devices = vec![
        PhysicalDeviceInfo {
            class: DeviceClass::Discrete,
            has_extensions: true,
            queue_families: vec![family(true, false)],
        },
        PhysicalDeviceInfo {
            class: DeviceClass::Integrated,
            has_extensions: false,
            queue_families: vec![family(true, true)],
        },
    ];
    assert_eq!(select_physical_device(&devices), Err(SelectError::NoSuitableQueue));
}

fn swapchain_only() -> DeviceExtensions {
    DeviceExtensions { khr_swapchain: true, ..DeviceExtensions::empty() }
}

#[test]
fn described_device_has_extensions_when_all_required_are_supported() {
    let supported =
        DeviceExtensions { khr_swapchain: true, khr_maintenance1: true, ..DeviceExtensions::empty() };
    let info = describe_device(
        PhysicalDeviceType::DiscreteGpu,
        &supported,
        &swapchain_only(),
        vec![family(true, true)],
    );
    assert!(info.has_extensions);
    assert_eq!(info.class, DeviceClass::Discrete);
    assert_eq!(info.queue_families, vec![family(true, true)]);
}

#[test]
fn described_device_lacks_extensions_when_one_is_missing() {
    let supported = DeviceExtensions { khr_maintenance1: true, ..DeviceExtensions::empty() };
    let info =
        describe_device(PhysicalDeviceType::Cpu, &supported, &swapchain_only(), Vec::new());
    assert!(!info.has_extensions);
    let nothing_required = describe_device(
        PhysicalDeviceType::Cpu,
        &DeviceExtensions::empty(),
        &DeviceExtensions::empty(),
        Vec::new(),
    );
    assert!(nothing_required.has_extensions);
}

#[test]
fn described_device_class_follows_the_device_type() {
    let none = DeviceExtensions::empty();
    let class = |t: PhysicalDeviceType| describe_device(t, &none, &none, Vec::new()).class;
    assert_eq!(class(PhysicalDeviceType::DiscreteGpu), DeviceClass::Discrete);
    assert_eq!(class(PhysicalDeviceType::IntegratedGpu), DeviceClass::Integrated);
    assert_eq!(class(PhysicalDeviceType::VirtualGpu), DeviceClass::Virtual);
    assert_eq!(class(PhysicalDeviceType::Cpu), DeviceClass::Cpu);
    assert_eq!(class(PhysicalDeviceType::Other), DeviceClass::Other);
}

#[test]
fn described_family_does_graphics_only_with_the_graphics_flag() {
    assert_eq!(describe_queue_family(QueueFlags::GRAPHICS, true), family(true, true));
    assert_eq!(
        describe_queue_family(QueueFlags::GRAPHICS | QueueFlags::COMPUTE, false),
        family(true, false)
    );
    assert_eq!(
        describe_queue_family(QueueFlags::COMPUTE | QueueFlags::TRANSFER, true),
        family(false, true)
    );
    assert_eq!(describe_queue_family(QueueFlags::empty(), false), family(false, false));
}

#[test]
fn described_devices_feed_the_choice() {
    let required = swapchain_only();
    let devices = vec![
        describe_device(
            PhysicalDeviceType::IntegratedGpu,
            &required,
            &required,
            vec![describe_queue_family(QueueFlags::GRAPHICS, true)],
        ),
        describe_device(
            PhysicalDeviceType::DiscreteGpu,
            &DeviceExtensions::empty(),
            &required,
            vec![describe_queue_family(QueueFlags::GRAPHICS, true)],
        ),
        describe_device(
            PhysicalDeviceType::DiscreteGpu,
            &required,
            &required,
            vec![
                describe_queue_family(QueueFlags::TRANSFER, true),
                describe_queue_family(QueueFlags::GRAPHICS, true),
            ],
        ),
    ];
    assert_eq!(select_physical_device(&devices), Ok(Selection { device: 2, queue_family: 1 }));
}
