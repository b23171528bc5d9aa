//! Translation between Vulkan's memory-property flag set and the
//! allocator's, and validation of allocation flags.
//!
//! Five property flags correspond bit-for-bit between the two sets:
//! device-local, host-visible, host-coherent, host-cached and
//! lazily-allocated. Translating drops every other bit.

use crate::trusted::{allocation_bits, property_bits, vk_property_bits, VK_DEFINED_PROPERTY_BITS};
use vstd::prelude::*;

verus! {

/// Device-local bit of the allocator's property-flag set.
pub const DEVICE_LOCAL: u8 = 0x01;
/// Host-visible bit of the allocator's property-flag set.
pub const HOST_VISIBLE: u8 = 0x02;
/// Host-coherent bit of the allocator's property-flag set.
pub const HOST_COHERENT: u8 = 0x04;
/// Host-cached bit of the allocator's property-flag set.
pub const HOST_CACHED: u8 = 0x08;
/// Lazily-allocated bit of the allocator's property-flag set.
pub const LAZILY_ALLOCATED: u8 = 0x10;
/// The five property bits the translation recognizes, allocator side.
pub const RECOGNIZED_PROPERTY_BITS: u8 = 0x1F;

/// Device-local bit of Vulkan's memory-property flags.
pub const VK_DEVICE_LOCAL: u32 = 0x01;
/// Host-visible bit of Vulkan's memory-property flags.
pub const VK_HOST_VISIBLE: u32 = 0x02;
/// Host-coherent bit of Vulkan's memory-property flags.
pub const VK_HOST_COHERENT: u32 = 0x04;
/// Host-cached bit of Vulkan's memory-property flags.
pub const VK_HOST_CACHED: u32 = 0x08;
/// Lazily-allocated bit of Vulkan's memory-property flags.
pub const VK_LAZILY_ALLOCATED: u32 = 0x10;
/// The five property bits the translation recognizes, Vulkan side.
pub const VK_RECOGNIZED_PROPERTY_BITS: u32 = 0x1F;

/// The allocator's device-address allocation flag, the only one this
/// backend recognizes.
pub const DEVICE_ADDRESS: u8 = 0x01;

/// Bits of the allocator's property-flag set for given Vulkan
/// memory-property bits: the five recognized flags carry over, every
/// other bit is dropped.
pub open spec fn spec_memory_properties_from_bits(vk_bits: u32) -> u8 {
    (if vk_bits & VK_DEVICE_LOCAL != 0 { DEVICE_LOCAL } else { 0 })
        | (if vk_bits & VK_HOST_VISIBLE != 0 { HOST_VISIBLE } else { 0 })
        | (if vk_bits & VK_HOST_COHERENT != 0 { HOST_COHERENT } else { 0 })
        | (if vk_bits & VK_HOST_CACHED != 0 { HOST_CACHED } else { 0 })
        | (if vk_bits & VK_LAZILY_ALLOCATED != 0 { LAZILY_ALLOCATED } else { 0 })
}

/// Vulkan memory-property bits for given bits of the allocator's
/// property-flag set: the five recognized flags carry over, every other
/// bit is dropped.
pub open spec fn spec_memory_properties_to_bits(bits: u8) -> u32 {
    (if bits & DEVICE_LOCAL != 0 { VK_DEVICE_LOCAL } else { 0 })
        | (if bits & HOST_VISIBLE != 0 { VK_HOST_VISIBLE } else { 0 })
        | (if bits & HOST_COHERENT != 0 { VK_HOST_COHERENT } else { 0 })
        | (if bits & HOST_CACHED != 0 { VK_HOST_CACHED } else { 0 })
        | (if bits & LAZILY_ALLOCATED != 0 { VK_LAZILY_ALLOCATED } else { 0 })
}

/// Translating the allocator's property bits to Vulkan's and back
/// preserves the five recognized flags exactly and drops every other
/// bit.
pub proof fn lemma_property_flags_round_trip(bits: u8)
    ensures
        spec_memory_properties_from_bits(spec_memory_properties_to_bits(bits)) == bits
            & RECOGNIZED_PROPERTY_BITS,
{
    assert(spec_memory_properties_from_bits(spec_memory_properties_to_bits(bits)) == bits
        & RECOGNIZED_PROPERTY_BITS) by (bit_vector);
}

/// Translating Vulkan's property bits to the allocator's and back
/// preserves the five recognized flags exactly and drops every other
/// bit.
pub proof fn lemma_property_flags_round_trip_native(vk_bits: u32)
    ensures
        spec_memory_properties_to_bits(spec_memory_properties_from_bits(vk_bits)) == vk_bits
            & VK_RECOGNIZED_PROPERTY_BITS,
{
    assert(spec_memory_properties_to_bits(spec_memory_properties_from_bits(vk_bits)) == vk_bits
        & VK_RECOGNIZED_PROPERTY_BITS) by (bit_vector);
}

/// Maps vulkanalia's `MemoryPropertyFlags` to gpu-alloc-types': each of
/// the five recognized flags carries over, every other flag is dropped.
pub fn memory_properties_from(props: vulkanalia::vk::MemoryPropertyFlags) -> (r:
    gpu_alloc_types::MemoryPropertyFlags)
    ensures
        property_bits(r) == spec_memory_properties_from_bits(vk_property_bits(props)),
{
    let vk_bits: u32 = props.bits();
    let bits: u8 = (if vk_bits & VK_DEVICE_LOCAL != 0 { DEVICE_LOCAL } else { 0 })
        | (if vk_bits & VK_HOST_VISIBLE != 0 { HOST_VISIBLE } else { 0 })
        | (if vk_bits & VK_HOST_COHERENT != 0 { HOST_COHERENT } else { 0 })
        | (if vk_bits & VK_HOST_CACHED != 0 { HOST_CACHED } else { 0 })
        | (if vk_bits & VK_LAZILY_ALLOCATED != 0 { LAZILY_ALLOCATED } else { 0 });
    gpu_alloc_types::MemoryPropertyFlags::from_bits_retain(bits)
}

/// Maps gpu-alloc-types' `MemoryPropertyFlags` to vulkanalia's: each of
/// the five recognized flags carries over, every other flag is dropped.
pub fn memory_properties_to(props: gpu_alloc_types::MemoryPropertyFlags) -> (r:
    vulkanalia::vk::MemoryPropertyFlags)
    ensures
        vk_property_bits(r) == spec_memory_properties_to_bits(property_bits(props)),
{
    let bits: u8 = props.bits();
    let vk_bits: u32 = (if bits & DEVICE_LOCAL != 0 { VK_DEVICE_LOCAL } else { 0 })
        | (if bits & HOST_VISIBLE != 0 { VK_HOST_VISIBLE } else { 0 })
        | (if bits & HOST_COHERENT != 0 { VK_HOST_COHERENT } else { 0 })
        | (if bits & HOST_CACHED != 0 { VK_HOST_CACHED } else { 0 })
        | (if bits & LAZILY_ALLOCATED != 0 { VK_LAZILY_ALLOCATED } else { 0 });
    proof {
        assert(vk_bits & VK_DEFINED_PROPERTY_BITS == vk_bits) by (bit_vector)
            requires
                vk_bits == spec_memory_properties_to_bits(bits),
        ;
    }
    vulkanalia::vk::MemoryPropertyFlags::from_bits_truncate(vk_bits)
}

/// Whether an allocation-flag set holds no flag outside the recognized
/// set; the backend only recognizes the device-address flag, and treats
/// any other flag as a contract violation by the caller.
pub fn allocation_flags_recognized(flags: gpu_alloc_types::AllocationFlags) -> (r: bool)
    ensures
        r == (allocation_bits(flags) & !DEVICE_ADDRESS == 0),
{
    flags.bits() & !DEVICE_ADDRESS == 0
}

/// Whether an allocation-flag set requests device-address-capable
/// memory, in which case the allocation request must chain the
/// capability-extension structure.
pub fn requests_device_address(flags: gpu_alloc_types::AllocationFlags) -> (r: bool)
    ensures
        r == (allocation_bits(flags) & DEVICE_ADDRESS != 0),
{
    flags.bits() & DEVICE_ADDRESS != 0
}

} // verus!
