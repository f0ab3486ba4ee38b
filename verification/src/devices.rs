//! Plain-data views of physical graphics devices and their queue families.
//!
//! The native structures are modeled by the fields the host actually reads:
//! versions, device kinds and names as plain values, and queue-family
//! counters and flag bits as plain integers.

use vstd::prelude::*;

use crate::version::Version;

verus! {

/// The raw device properties as the native API reports them, reduced to
/// the fields the host reads.
#[derive(Clone, Debug)]
pub struct VkPhysicalDeviceProperties {
    pub api_version: u32,
    pub device_type: u32,
    pub device_name: String,
}

/// The raw queue-family properties the host reads.
#[derive(Clone, Copy, Debug, PartialEq, Eq, Structural)]
pub struct VkQueueFamilyProperties {
    pub queue_flags: u32,
    pub queue_count: u32,
    pub timestamp_valid_bits: u32,
}

/// The kind of a physical device.
#[derive(Clone, Copy, Debug, PartialEq, Eq, Structural)]
pub enum PhysicalDeviceType {
    Other,
    IntegratedGpu,
    DiscreteGpu,
    VirtualGpu,
    Cpu,
}

/// How raw device-type codes decode; unknown codes fall back to `Other`.
pub open spec fn spec_device_type(value: u32) -> PhysicalDeviceType {
    if value == 1 {
        PhysicalDeviceType::IntegratedGpu
    } else if value == 2 {
        PhysicalDeviceType::DiscreteGpu
    } else if value == 3 {
        PhysicalDeviceType::VirtualGpu
    } else if value == 4 {
        PhysicalDeviceType::Cpu
    } else {
        PhysicalDeviceType::Other
    }
}

impl PhysicalDeviceType {
    /// Decodes the native device-type code.
    pub fn from_u32(value: u32) -> (r: PhysicalDeviceType)
        ensures
            r == spec_device_type(value),
    {
        match value {
            1 => PhysicalDeviceType::IntegratedGpu,
            2 => PhysicalDeviceType::DiscreteGpu,
            3 => PhysicalDeviceType::VirtualGpu,
            4 => PhysicalDeviceType::Cpu,
            _ => PhysicalDeviceType::Other,
        }
    }
}

/// Decoded properties of one physical device.
#[derive(Clone, Debug)]
pub struct PhysicalDeviceProperties {
    pub api_version: Version,
    pub device_type: PhysicalDeviceType,
    pub device_name: String,
}

impl PhysicalDeviceProperties {
    /// Decodes the raw properties: the packed version splits into its
    /// components and the device-type code into its kind.
    pub fn new(properties: VkPhysicalDeviceProperties) -> (r: PhysicalDeviceProperties)
        ensures
            r.api_version == (Version {
                major: properties.api_version >> 22u32,
                minor: (properties.api_version >> 12u32) & 0x3ffu32,
                patch: properties.api_version & 0xfffu32,
            }),
            r.device_type == spec_device_type(properties.device_type),
            r.device_name == properties.device_name,
    {
        PhysicalDeviceProperties {
            api_version: Version::from_vulkan(properties.api_version),
            device_type: PhysicalDeviceType::from_u32(properties.device_type),
            device_name: properties.device_name,
        }
    }
}

/// One queue family of a physical device.
#[derive(Clone, Debug)]
pub struct QueueFamily {
    pub properties: VkQueueFamilyProperties,
}

impl QueueFamily {
    /// Wraps the raw queue-family properties.
    pub fn new(properties: VkQueueFamilyProperties) -> (r: QueueFamily)
        ensures
            r.properties == properties,
    {
        QueueFamily { properties }
    }
}

/// What a host demands of a device's queues: graphics support, and
/// presentation to a given surface handle.
#[derive(Clone, Debug)]
pub struct QueueRequirements {
    pub has_graphics: bool,
    pub can_present: Option<u64>,
}

impl Default for QueueRequirements {
    /// By default nothing is required.
    fn default() -> (r: QueueRequirements)
        ensures
            r.has_graphics == false,
            r.can_present is None,
    {
        QueueRequirements { has_graphics: false, can_present: None }
    }
}

/// Decoded per-device information; nothing is gathered yet.
pub struct PhysicalDeviceInfo {}

} // verus!
