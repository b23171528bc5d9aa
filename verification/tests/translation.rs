use gpu_alloc_vulkanalia::error::{device_map_error, out_of_memory_error};
use gpu_alloc_vulkanalia::flags::{
    allocation_flags_recognized, memory_properties_from, memory_properties_to,
    requests_device_address,
};
use gpu_alloc_types::{AllocationFlags, DeviceMapError, MemoryPropertyFlags, OutOfMemory};
use vulkanalia::vk;

#[test]
fn from_translates_each_recognized_flag() {
    assert_eq!(
        memory_properties_from(vk::MemoryPropertyFlags::DEVICE_LOCAL),
        MemoryPropertyFlags::DEVICE_LOCAL
    );
    assert_eq!(
        memory_properties_from(vk::MemoryPropertyFlags::HOST_VISIBLE),
        MemoryPropertyFlags::HOST_VISIBLE
    );
    assert_eq!(
        memory_properties_from(vk::MemoryPropertyFlags::HOST_COHERENT),
        MemoryPropertyFlags::HOST_COHERENT
    );
    assert_eq!(
        memory_properties_from(vk::MemoryPropertyFlags::HOST_CACHED),
        MemoryPropertyFlags::HOST_CACHED
    );
    assert_eq!(
        memory_properties_from(vk::MemoryPropertyFlags::LAZILY_ALLOCATED),
        MemoryPropertyFlags::LAZILY_ALLOCATED
    );
}

#[test]
fn to_translates_each_recognized_flag() {
    assert_eq!(
        memory_properties_to(MemoryPropertyFlags::DEVICE_LOCAL),
        vk::MemoryPropertyFlags::DEVICE_LOCAL
    );
    assert_eq!(
        memory_properties_to(MemoryPropertyFlags::HOST_VISIBLE),
        vk::MemoryPropertyFlags::HOST_VISIBLE
    );
    assert_eq!(
        memory_properties_to(MemoryPropertyFlags::HOST_COHERENT),
        vk::MemoryPropertyFlags::HOST_COHERENT
    );
    assert_eq!(
        memory_properties_to(MemoryPropertyFlags::HOST_CACHED),
        vk::MemoryPropertyFlags::HOST_CACHED
    );
    assert_eq!(
        memory_properties_to(MemoryPropertyFlags::LAZILY_ALLOCATED),
        vk::MemoryPropertyFlags::LAZILY_ALLOCATED
    );
}

#[test]
fn round_trip_preserves_recognized_flag_sets() {
    let sets: [MemoryPropertyFlags; 4] = [
        MemoryPropertyFlags::empty(),
        MemoryPropertyFlags::DEVICE_LOCAL | MemoryPropertyFlags::HOST_VISIBLE,
        MemoryPropertyFlags::HOST_VISIBLE
            | MemoryPropertyFlags::HOST_COHERENT
            | MemoryPropertyFlags::HOST_CACHED,
        MemoryPropertyFlags::from_bits_retain(0x1F),
    ];
    for set in sets {
        assert_eq!(memory_properties_from(memory_properties_to(set)), set);
    }
}

#[test]
fn round_trip_drops_out_of_range_bit() {
    // The allocator's PROTECTED flag (0x20) is outside the recognized set.
    let protected = MemoryPropertyFlags::from_bits_retain(0x20 | 0x01);
    assert_eq!(
        memory_properties_from(memory_properties_to(protected)),
        MemoryPropertyFlags::DEVICE_LOCAL
    );
    // Vulkan's PROTECTED flag (0x20) is outside the recognized set too.
    let vk_protected = vk::MemoryPropertyFlags::from_bits_truncate(0x20 | 0x02);
    assert_eq!(
        memory_properties_from(vk_protected),
        MemoryPropertyFlags::HOST_VISIBLE
    );
    assert_eq!(
        memory_properties_to(memory_properties_from(vk_protected)),
        vk::MemoryPropertyFlags::HOST_VISIBLE
    );
}

#[test]
fn allocation_flags_device_address_is_recognized() {
    assert!(allocation_flags_recognized(AllocationFlags::empty()));
    assert!(allocation_flags_recognized(AllocationFlags::DEVICE_ADDRESS));
    assert!(!requests_device_address(AllocationFlags::empty()));
    assert!(requests_device_address(AllocationFlags::DEVICE_ADDRESS));
}

#[test]
fn allocation_flag_outside_recognized_set_is_rejected() {
    let unknown = AllocationFlags::from_bits_retain(0x02);
    assert!(!allocation_flags_recognized(unknown));
    assert!(!allocation_flags_recognized(
        unknown | AllocationFlags::DEVICE_ADDRESS
    ));
}

#[test]
fn allocate_flush_invalidate_errors_map_documented_codes() {
    assert!(matches!(
        out_of_memory_error(vk::ErrorCode::OUT_OF_DEVICE_MEMORY.as_raw()),
        Some(OutOfMemory::OutOfDeviceMemory)
    ));
    assert!(matches!(
        out_of_memory_error(vk::ErrorCode::OUT_OF_HOST_MEMORY.as_raw()),
        Some(OutOfMemory::OutOfHostMemory)
    ));
}

#[test]
fn allocate_flush_invalidate_undocumented_code_is_fatal() {
    assert!(out_of_memory_error(vk::ErrorCode::DEVICE_LOST.as_raw()).is_none());
    assert!(out_of_memory_error(vk::ErrorCode::MEMORY_MAP_FAILED.as_raw()).is_none());
    assert!(out_of_memory_error(0).is_none());
}

#[test]
fn map_errors_map_documented_codes() {
    assert!(matches!(
        device_map_error(vk::ErrorCode::OUT_OF_DEVICE_MEMORY.as_raw()),
        Some(DeviceMapError::OutOfDeviceMemory)
    ));
    assert!(matches!(
        device_map_error(vk::ErrorCode::OUT_OF_HOST_MEMORY.as_raw()),
        Some(DeviceMapError::OutOfHostMemory)
    ));
    assert!(matches!(
        device_map_error(vk::ErrorCode::MEMORY_MAP_FAILED.as_raw()),
        Some(DeviceMapError::MapFailed)
    ));
}

#[test]
fn map_undocumented_code_is_fatal() {
    assert!(device_map_error(vk::ErrorCode::INITIALIZATION_FAILED.as_raw()).is_none());
    assert!(device_map_error(0).is_none());
}
