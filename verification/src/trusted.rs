//! Declarations of the `vulkanalia` and `gpu-alloc-types` items that the
//! verified code holds in signatures or calls, with the contracts this
//! library relies on. Both crates' property-flag types are opaque flag
//! sets; each gets an uninterpreted function for the bits it holds, and
//! the contracts of its methods speak over those bits.

use vstd::prelude::*;

verus! {

/// Every bit that vulkanalia's `MemoryPropertyFlags` defines (nine
/// flags, per its bitmask declaration).
pub const VK_DEFINED_PROPERTY_BITS: u32 = 0x1FF;

/// vulkanalia's memory-property flag set, a set of bits in a `u32`.
#[verifier::external_type_specification]
#[verifier::external_body]
pub struct ExVkMemoryPropertyFlags(vulkanalia::vk::MemoryPropertyFlags);

/// The raw bits a Vulkan memory-property flag set holds.
pub uninterp spec fn vk_property_bits(flags: vulkanalia::vk::MemoryPropertyFlags) -> u32;

/// Relies on vulkanalia's `MemoryPropertyFlags::bits`: returns the raw
/// bits of the flag set.
pub assume_specification[ vulkanalia::vk::MemoryPropertyFlags::bits ](
    flags: &vulkanalia::vk::MemoryPropertyFlags,
) -> (bits: u32)
    ensures
        bits == vk_property_bits(*flags),
;

/// Relies on vulkanalia's `MemoryPropertyFlags::from_bits_truncate`:
/// keeps exactly the bits that correspond to a defined flag and drops
/// the rest.
pub assume_specification[ vulkanalia::vk::MemoryPropertyFlags::from_bits_truncate ](
    bits: u32,
) -> (flags: vulkanalia::vk::MemoryPropertyFlags)
    ensures
        vk_property_bits(flags) == bits & VK_DEFINED_PROPERTY_BITS,
;

/// vulkanalia's memory-heap flag set; nothing here reads it.
#[verifier::external_type_specification]
#[verifier::external_body]
pub struct ExVkMemoryHeapFlags(vulkanalia::vk::MemoryHeapFlags);

/// vulkanalia's memory-type entry: a property-flag set and the index of
/// the heap the type draws from.
#[verifier::external_type_specification]
pub struct ExVkMemoryType(vulkanalia::vk::MemoryType);

/// vulkanalia's memory-heap entry: a byte size and a heap flag set.
#[verifier::external_type_specification]
pub struct ExVkMemoryHeap(vulkanalia::vk::MemoryHeap);

/// The allocator's memory-property flag set, a set of bits in a `u8`.
#[verifier::external_type_specification]
#[verifier::external_body]
pub struct ExMemoryPropertyFlags(gpu_alloc_types::MemoryPropertyFlags);

/// The raw bits an allocator property-flag set holds.
pub uninterp spec fn property_bits(flags: gpu_alloc_types::MemoryPropertyFlags) -> u8;

/// Relies on gpu-alloc-types' `MemoryPropertyFlags::bits`: returns the
/// raw bits of the flag set.
pub assume_specification[ gpu_alloc_types::MemoryPropertyFlags::bits ](
    flags: &gpu_alloc_types::MemoryPropertyFlags,
) -> (bits: u8)
    ensures
        bits == property_bits(*flags),
;

/// Relies on gpu-alloc-types' `MemoryPropertyFlags::from_bits_retain`:
/// converts from a bits value exactly, preserving every bit.
pub assume_specification[ gpu_alloc_types::MemoryPropertyFlags::from_bits_retain ](
    bits: u8,
) -> (flags: gpu_alloc_types::MemoryPropertyFlags)
    ensures
        property_bits(flags) == bits,
;

/// The allocator's allocation-flag set, a set of bits in a `u8`.
#[verifier::external_type_specification]
#[verifier::external_body]
pub struct ExAllocationFlags(gpu_alloc_types::AllocationFlags);

/// The raw bits an allocation-flag set holds.
pub uninterp spec fn allocation_bits(flags: gpu_alloc_types::AllocationFlags) -> u8;

/// Relies on gpu-alloc-types' `AllocationFlags::bits`: returns the raw
/// bits of the flag set.
pub assume_specification[ gpu_alloc_types::AllocationFlags::bits ](
    flags: &gpu_alloc_types::AllocationFlags,
) -> (bits: u8)
    ensures
        bits == allocation_bits(*flags),
;

/// The allocator's memory-exhaustion error, an enum of two variants.
#[verifier::external_type_specification]
pub struct ExOutOfMemory(gpu_alloc_types::OutOfMemory);

/// The allocator's mapping error, an enum of three variants.
#[verifier::external_type_specification]
pub struct ExDeviceMapError(gpu_alloc_types::DeviceMapError);

/// The allocator's memory-type entry: a heap index and a property-flag
/// set.
#[verifier::external_type_specification]
pub struct ExMemoryType(gpu_alloc_types::MemoryType);

/// The allocator's memory-heap entry: a byte size.
#[verifier::external_type_specification]
pub struct ExMemoryHeap(gpu_alloc_types::MemoryHeap);

} // verus!
