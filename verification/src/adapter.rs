//! Describing a Vulkan adapter in the terms the device choice reads.
//!
//! The values come from vulkano; what is said here of vulkano's functions is
//! taken on trust and marked as such.

use crate::device::{DeviceClass, PhysicalDeviceInfo, QueueFamily};
use vstd::prelude::*;
use vulkano::device::physical::PhysicalDeviceType;
use vulkano::device::{DeviceExtensions, QueueFlags};

verus! {

/// vulkano's set of device extensions, carried as an opaque value.
#[verifier::external_type_specification]
#[verifier::external_body]
pub struct ExDeviceExtensions(DeviceExtensions);

/// vulkano's set of queue capabilities, carried as an opaque value.
#[verifier::external_type_specification]
#[verifier::external_body]
pub struct ExQueueFlags(QueueFlags);

/// vulkano's kind of physical device, carried as an opaque value.
#[verifier::external_type_specification]
#[verifier::external_body]
pub struct ExPhysicalDeviceType(PhysicalDeviceType);

/// The members that an extension set has switched on, each named by its
/// place among the members of `DeviceExtensions`.
pub uninterp spec fn enabled_extensions(extensions: DeviceExtensions) -> Set<int>;

/// The flags that are set in a `QueueFlags` value, each named by its bit
/// position.
pub uninterp spec fn queue_flag_bits(flags: QueueFlags) -> Set<int>;

/// Bit position of the graphics flag among the queue flags.
pub const GRAPHICS_BIT: u8 = 0;

/// Trusted: vulkano's `DeviceExtensions::contains`, which answers whether
/// every member switched on in `required` is switched on in `supported`.
#[verifier::external_body]
fn extensions_contain(supported: &DeviceExtensions, required: &DeviceExtensions) -> (all: bool)
    ensures
        all == enabled_extensions(*required).subset_of(enabled_extensions(*supported)),
{
    supported.contains(required)
}

/// Trusted: vulkano's `QueueFlags::contains` asked about
/// `QueueFlags::GRAPHICS`, which answers whether the graphics bit is set.
#[verifier::external_body]
fn has_graphics_flag(flags: QueueFlags) -> (set: bool)
    ensures
        set == queue_flag_bits(flags).contains(GRAPHICS_BIT as int),
{
    flags.contains(QueueFlags::GRAPHICS)
}

/// Trusted: tells the variants of vulkano's `PhysicalDeviceType` apart.
/// Nothing is claimed of the class that comes back.
#[verifier::external_body]
fn class_of_device_type(device_type: PhysicalDeviceType) -> (class: DeviceClass) {
    match device_type {
        PhysicalDeviceType::DiscreteGpu => DeviceClass::Discrete,
        PhysicalDeviceType::IntegratedGpu => DeviceClass::Integrated,
        PhysicalDeviceType::VirtualGpu => DeviceClass::Virtual,
        PhysicalDeviceType::Cpu => DeviceClass::Cpu,
        _ => DeviceClass::Other,
    }
}

/// Describes one queue family: it does graphics work when its flags say so,
/// and presents when the surface said so.
pub fn describe_queue_family(flags: QueueFlags, presents: bool) -> (family: QueueFamily)
    ensures
        family.graphics == queue_flag_bits(flags).contains(GRAPHICS_BIT as int),
        family.presents == presents,
{
    QueueFamily { graphics: has_graphics_flag(flags), presents }
}

/// Describes one adapter: it has the extensions when every required one is
/// among the supported ones, and keeps the queue families as given. The
/// class is the one that vulkano's device type names.
pub fn describe_device(
    device_type: PhysicalDeviceType,
    supported: &DeviceExtensions,
    required: &DeviceExtensions,
    queue_families: Vec<QueueFamily>,
) -> (info: PhysicalDeviceInfo)
    ensures
        info.has_extensions == enabled_extensions(*required).subset_of(
            enabled_extensions(*supported),
        ),
        info.queue_families@ == queue_families@,
{
    PhysicalDeviceInfo {
        class: class_of_device_type(device_type),
        has_extensions: extensions_contain(supported, required),
        queue_families,
    }
}

} // verus!
