//! Classification of native graphics-API result codes, modeled as the
//! plain 32-bit values the native API defines.

use vstd::prelude::*;

verus! {

pub const VK_SUCCESS: i32 = 0;

pub const VK_NOT_READY: i32 = 1;

pub const VK_TIMEOUT: i32 = 2;

pub const VK_EVENT_SET: i32 = 3;

pub const VK_EVENT_RESET: i32 = 4;

pub const VK_INCOMPLETE: i32 = 5;

pub const VK_ERROR_OUT_OF_HOST_MEMORY: i32 = -1;

pub const VK_ERROR_OUT_OF_DEVICE_MEMORY: i32 = -2;

pub const VK_ERROR_INITIALIZATION_FAILED: i32 = -3;

pub const VK_ERROR_DEVICE_LOST: i32 = -4;

pub const VK_ERROR_MEMORY_MAP_FAILED: i32 = -5;

pub const VK_ERROR_LAYER_NOT_PRESENT: i32 = -6;

pub const VK_ERROR_EXTENSION_NOT_PRESENT: i32 = -7;

pub const VK_ERROR_FEATURE_NOT_PRESENT: i32 = -8;

pub const VK_ERROR_INCOMPATIBLE_DRIVER: i32 = -9;

pub const VK_ERROR_TOO_MANY_OBJECTS: i32 = -10;

pub const VK_ERROR_FORMAT_NOT_SUPPORTED: i32 = -11;

pub const VK_ERROR_SURFACE_LOST_KHR: i32 = -1000000000;

pub const VK_ERROR_NATIVE_WINDOW_IN_USE_KHR: i32 = -1000000001;

pub const VK_SUBOPTIMAL_KHR: i32 = 1000001003;

pub const VK_ERROR_OUT_OF_DATE_KHR: i32 = -1000001004;

pub const VK_ERROR_INCOMPATIBLE_DISPLAY_KHR: i32 = -1000003001;

pub const VK_ERROR_VALIDATION_FAILED_EXT: i32 = -1000011001;

pub const VK_ERROR_OUT_OF_POOL_MEMORY_KHR: i32 = -1000069000;

pub const VK_ERROR_FULL_SCREEN_EXCLUSIVE_MODE_LOST_EXT: i32 = -1000255000;

/// The result codes that count as success.
#[derive(Debug, Clone, Copy, PartialEq, Eq, Structural)]
pub enum Success {
    Success,
    NotReady,
    Timeout,
    EventSet,
    EventReset,
    Incomplete,
    Suboptimal,
}

/// The result codes that count as failure.
#[derive(Debug, Clone, Copy, PartialEq, Eq, Structural)]
pub enum VulkanError {
    OutOfHostMemory,
    OutOfDeviceMemory,
    InitializationFailed,
    DeviceLost,
    MemoryMapFailed,
    LayerNotPresent,
    ExtensionNotPresent,
    FeatureNotPresent,
    IncompatibleDriver,
    TooManyObjects,
    FormatNotSupported,
    SurfaceLost,
    NativeWindowInUse,
    OutOfDate,
    IncompatibleDisplay,
    ValidationFailed,
    OutOfPoolMemory,
    FullscreenExclusiveLost,
}

/// Failures of device-memory bookkeeping.
#[derive(Debug, Clone, Copy, PartialEq, Eq, Structural)]
pub enum MemoryError {
    OutOfDeviceMemory,
    OutOfHostMemory,
}

/// Failures while locating the native graphics library.
#[derive(Debug, Clone, PartialEq, Eq)]
pub enum LoaderError {
    LoadFailure,
    MissingEntryPoint(String),
}

/// Failures while creating a presentation surface.
#[derive(Debug, Clone, PartialEq, Eq)]
pub enum SurfaceError {
    MemoryError(MemoryError),
    MissingExtension(String),
}

/// The codes this crate classifies; anything else the native API could
/// only produce by breaking its own contract.
pub open spec fn known_vk_result(code: int) -> bool {
    ||| code == VK_SUCCESS
    ||| code == VK_NOT_READY
    ||| code == VK_TIMEOUT
    ||| code == VK_EVENT_SET
    ||| code == VK_EVENT_RESET
    ||| code == VK_INCOMPLETE
    ||| code == VK_SUBOPTIMAL_KHR
    ||| code == VK_ERROR_OUT_OF_HOST_MEMORY
    ||| code == VK_ERROR_OUT_OF_DEVICE_MEMORY
    ||| code == VK_ERROR_INITIALIZATION_FAILED
    ||| code == VK_ERROR_DEVICE_LOST
    ||| code == VK_ERROR_MEMORY_MAP_FAILED
    ||| code == VK_ERROR_LAYER_NOT_PRESENT
    ||| code == VK_ERROR_EXTENSION_NOT_PRESENT
    ||| code == VK_ERROR_FEATURE_NOT_PRESENT
    ||| code == VK_ERROR_INCOMPATIBLE_DRIVER
    ||| code == VK_ERROR_TOO_MANY_OBJECTS
    ||| code == VK_ERROR_FORMAT_NOT_SUPPORTED
    ||| code == VK_ERROR_SURFACE_LOST_KHR
    ||| code == VK_ERROR_NATIVE_WINDOW_IN_USE_KHR
    ||| code == VK_ERROR_OUT_OF_DATE_KHR
    ||| code == VK_ERROR_INCOMPATIBLE_DISPLAY_KHR
    ||| code == VK_ERROR_VALIDATION_FAILED_EXT
    ||| code == VK_ERROR_OUT_OF_POOL_MEMORY_KHR
    ||| code == VK_ERROR_FULL_SCREEN_EXCLUSIVE_MODE_LOST_EXT
}

/// How each known code is classified.
pub open spec fn spec_check(code: int) -> Result<Success, VulkanError> {
    if code == VK_SUCCESS {
        Ok(Success::Success)
    } else if code == VK_NOT_READY {
        Ok(Success::NotReady)
    } else if code == VK_TIMEOUT {
        Ok(Success::Timeout)
    } else if code == VK_EVENT_SET {
        Ok(Success::EventSet)
    } else if code == VK_EVENT_RESET {
        Ok(Success::EventReset)
    } else if code == VK_INCOMPLETE {
        Ok(Success::Incomplete)
    } else if code == VK_SUBOPTIMAL_KHR {
        Ok(Success::Suboptimal)
    } else if code == VK_ERROR_OUT_OF_HOST_MEMORY {
        Err(VulkanError::OutOfHostMemory)
    } else if code == VK_ERROR_OUT_OF_DEVICE_MEMORY {
        Err(VulkanError::OutOfDeviceMemory)
    } else if code == VK_ERROR_INITIALIZATION_FAILED {
        Err(VulkanError::InitializationFailed)
    } else if code == VK_ERROR_DEVICE_LOST {
        Err(VulkanError::DeviceLost)
    } else if code == VK_ERROR_MEMORY_MAP_FAILED {
        Err(VulkanError::MemoryMapFailed)
    } else if code == VK_ERROR_LAYER_NOT_PRESENT {
        Err(VulkanError::LayerNotPresent)
    } else if code == VK_ERROR_EXTENSION_NOT_PRESENT {
        Err(VulkanError::ExtensionNotPresent)
    } else if code == VK_ERROR_FEATURE_NOT_PRESENT {
        Err(VulkanError::FeatureNotPresent)
    } else if code == VK_ERROR_INCOMPATIBLE_DRIVER {
        Err(VulkanError::IncompatibleDriver)
    } else if code == VK_ERROR_TOO_MANY_OBJECTS {
        Err(VulkanError::TooManyObjects)
    } else if code == VK_ERROR_FORMAT_NOT_SUPPORTED {
        Err(VulkanError::FormatNotSupported)
    } else if code == VK_ERROR_SURFACE_LOST_KHR {
        Err(VulkanError::SurfaceLost)
    } else if code == VK_ERROR_NATIVE_WINDOW_IN_USE_KHR {
        Err(VulkanError::NativeWindowInUse)
    } else if code == VK_ERROR_OUT_OF_DATE_KHR {
        Err(VulkanError::OutOfDate)
    } else if code == VK_ERROR_INCOMPATIBLE_DISPLAY_KHR {
        Err(VulkanError::IncompatibleDisplay)
    } else if code == VK_ERROR_VALIDATION_FAILED_EXT {
        Err(VulkanError::ValidationFailed)
    } else if code == VK_ERROR_OUT_OF_POOL_MEMORY_KHR {
        Err(VulkanError::OutOfPoolMemory)
    } else {
        Err(VulkanError::FullscreenExclusiveLost)
    }
}

/// Classifies a native result code as a success kind or a failure kind.
/// Codes outside the known set are excluded up front: on those the native
/// boundary has already broken its contract.
pub fn check_errors(result: i32) -> (r: Result<Success, VulkanError>)
    requires
        known_vk_result(result as int),
    ensures
        r == spec_check(result as int),
{
    if result == VK_SUCCESS {
        Ok(Success::Success)
    } else if result == VK_NOT_READY {
        Ok(Success::NotReady)
    } else if result == VK_TIMEOUT {
        Ok(Success::Timeout)
    } else if result == VK_EVENT_SET {
        Ok(Success::EventSet)
    } else if result == VK_EVENT_RESET {
        Ok(Success::EventReset)
    } else if result == VK_INCOMPLETE {
        Ok(Success::Incomplete)
    } else if result == VK_SUBOPTIMAL_KHR {
        Ok(Success::Suboptimal)
    } else if result == VK_ERROR_OUT_OF_HOST_MEMORY {
        Err(VulkanError::OutOfHostMemory)
    } else if result == VK_ERROR_OUT_OF_DEVICE_MEMORY {
        Err(VulkanError::OutOfDeviceMemory)
    } else if result == VK_ERROR_INITIALIZATION_FAILED {
        Err(VulkanError::InitializationFailed)
    } else if result == VK_ERROR_DEVICE_LOST {
        Err(VulkanError::DeviceLost)
    } else if result == VK_ERROR_MEMORY_MAP_FAILED {
        Err(VulkanError::MemoryMapFailed)
    } else if result == VK_ERROR_LAYER_NOT_PRESENT {
        Err(VulkanError::LayerNotPresent)
    } else if result == VK_ERROR_EXTENSION_NOT_PRESENT {
        Err(VulkanError::ExtensionNotPresent)
    } else if result == VK_ERROR_FEATURE_NOT_PRESENT {
        Err(VulkanError::FeatureNotPresent)
    } else if result == VK_ERROR_INCOMPATIBLE_DRIVER {
        Err(VulkanError::IncompatibleDriver)
    } else if result == VK_ERROR_TOO_MANY_OBJECTS {
        Err(VulkanError::TooManyObjects)
    } else if result == VK_ERROR_FORMAT_NOT_SUPPORTED {
        Err(VulkanError::FormatNotSupported)
    } else if result == VK_ERROR_SURFACE_LOST_KHR {
        Err(VulkanError::SurfaceLost)
    } else if result == VK_ERROR_NATIVE_WINDOW_IN_USE_KHR {
        Err(VulkanError::NativeWindowInUse)
    } else if result == VK_ERROR_OUT_OF_DATE_KHR {
        Err(VulkanError::OutOfDate)
    } else if result == VK_ERROR_INCOMPATIBLE_DISPLAY_KHR {
        Err(VulkanError::IncompatibleDisplay)
    } else if result == VK_ERROR_VALIDATION_FAILED_EXT {
        Err(VulkanError::ValidationFailed)
    } else if result == VK_ERROR_OUT_OF_POOL_MEMORY_KHR {
        Err(VulkanError::OutOfPoolMemory)
    } else {
        Err(VulkanError::FullscreenExclusiveLost)
    }
}

} // verus!
