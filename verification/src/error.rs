//! Translation of Vulkan result codes into the allocator's error
//! taxonomy.
//!
//! Each operation documents a small set of error codes it can return;
//! those translate to typed errors. Any other code signals a broken
//! invariant of the underlying API, which the caller must treat as
//! fatal rather than report: the translation returns `None` for it.

use gpu_alloc_types::{DeviceMapError, OutOfMemory};
use vstd::prelude::*;

verus! {

/// Vulkan's out-of-host-memory result code.
pub const ERROR_OUT_OF_HOST_MEMORY: i32 = -1;

/// Vulkan's out-of-device-memory result code.
pub const ERROR_OUT_OF_DEVICE_MEMORY: i32 = -2;

/// Vulkan's memory-map-failed result code.
pub const ERROR_MEMORY_MAP_FAILED: i32 = -5;

/// The allocator's memory-exhaustion error for a raw Vulkan result
/// code, or `None` for a code that allocation, flush and invalidation
/// never return when their contract is upheld.
pub open spec fn spec_out_of_memory_error(code: i32) -> Option<OutOfMemory> {
    if code == ERROR_OUT_OF_DEVICE_MEMORY {
        Some(OutOfMemory::OutOfDeviceMemory)
    } else if code == ERROR_OUT_OF_HOST_MEMORY {
        Some(OutOfMemory::OutOfHostMemory)
    } else {
        None
    }
}

/// The allocator's mapping error for a raw Vulkan result code, or
/// `None` for a code that mapping never returns when its contract is
/// upheld.
pub open spec fn spec_device_map_error(code: i32) -> Option<DeviceMapError> {
    if code == ERROR_OUT_OF_DEVICE_MEMORY {
        Some(DeviceMapError::OutOfDeviceMemory)
    } else if code == ERROR_OUT_OF_HOST_MEMORY {
        Some(DeviceMapError::OutOfHostMemory)
    } else if code == ERROR_MEMORY_MAP_FAILED {
        Some(DeviceMapError::MapFailed)
    } else {
        None
    }
}

/// Maps the raw Vulkan error code of a failed allocation, flush or
/// invalidation to the allocator's memory-exhaustion error.
/// Out-of-device-memory and out-of-host-memory are the only codes those
/// operations report; `None` marks any other code as a fatal, broken
/// invariant.
pub fn out_of_memory_error(code: i32) -> (r: Option<OutOfMemory>)
    ensures
        r == spec_out_of_memory_error(code),
{
    if code == ERROR_OUT_OF_DEVICE_MEMORY {
        Some(OutOfMemory::OutOfDeviceMemory)
    } else if code == ERROR_OUT_OF_HOST_MEMORY {
        Some(OutOfMemory::OutOfHostMemory)
    } else {
        None
    }
}

/// Maps the raw Vulkan error code of a failed map call to the
/// allocator's mapping error. Out-of-device-memory, out-of-host-memory
/// and memory-map-failed are the only codes mapping reports; `None`
/// marks any other code as a fatal, broken invariant.
pub fn device_map_error(code: i32) -> (r: Option<DeviceMapError>)
    ensures
        r == spec_device_map_error(code),
{
    if code == ERROR_OUT_OF_DEVICE_MEMORY {
        Some(DeviceMapError::OutOfDeviceMemory)
    } else if code == ERROR_OUT_OF_HOST_MEMORY {
        Some(DeviceMapError::OutOfHostMemory)
    } else if code == ERROR_MEMORY_MAP_FAILED {
        Some(DeviceMapError::MapFailed)
    } else {
        None
    }
}

} // verus!
