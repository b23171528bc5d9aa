//! Capability probing: which Vulkan queries to issue for a negotiated
//! version and set of supported device extensions, and how to assemble
//! their results into the capability record the allocator consumes.
//!
//! Three optional data sources gate on the negotiated minor version:
//! the extended-properties query is core from minor version 1 on, the
//! extended-features query from minor version 2 on; below those
//! thresholds each needs its extension among the physical device's
//! supported extensions. The caller issues the queries (they are raw
//! Vulkan calls) and hands their results back to `assemble_device_properties`.

use crate::flags::{memory_properties_from, spec_memory_properties_from_bits};
use crate::trusted::{property_bits, vk_property_bits};
use vstd::prelude::*;

verus! {

/// Minor number of a packed Vulkan version.
pub open spec fn spec_version_minor(version: u32) -> u32 {
    (version >> 12) & 0x3FF
}

/// Extracts the minor number from a packed Vulkan version.
pub fn version_minor(version: u32) -> (r: u32)
    ensures
        r == spec_version_minor(version),
{
    (version >> 12) & 0x3FF
}

/// Which of the three gating extensions must still be looked for among
/// the device's supported extensions; a field is false where the
/// negotiated version already guarantees the data source.
#[derive(Clone, Copy, Debug, PartialEq, Eq, Structural)]
pub struct ExtensionChecks {
    /// The extended-queries extension, prerequisite of both optional
    /// data sources; core from minor version 1 on.
    pub properties2: bool,
    /// The extension carrying the maximum-allocation-size limit; core
    /// from minor version 1 on.
    pub maintenance3: bool,
    /// The buffer-device-address extension; core from minor version 2
    /// on.
    pub buffer_device_address: bool,
}

/// The extension checks a negotiated version leaves necessary.
pub open spec fn spec_required_extension_checks(version: u32) -> ExtensionChecks {
    ExtensionChecks {
        properties2: spec_version_minor(version) == 0,
        maintenance3: spec_version_minor(version) == 0,
        buffer_device_address: spec_version_minor(version) <= 1,
    }
}

/// Determines, from the negotiated version's minor number, which
/// extensions must still be looked for: at minor version 0 all three,
/// at minor version 1 only buffer-device-address, from minor version 2
/// on none.
pub fn required_extension_checks(version: u32) -> (r: ExtensionChecks)
    ensures
        r == spec_required_extension_checks(version),
{
    let minor = version_minor(version);
    if minor == 0 {
        ExtensionChecks { properties2: true, maintenance3: true, buffer_device_address: true }
    } else if minor == 1 {
        ExtensionChecks { properties2: false, maintenance3: false, buffer_device_address: true }
    } else {
        ExtensionChecks { properties2: false, maintenance3: false, buffer_device_address: false }
    }
}

/// Whether the device's supported extensions must be enumerated at all:
/// exactly when some check is still necessary.
pub fn needs_extension_scan(checks: &ExtensionChecks) -> (r: bool)
    ensures
        r == (checks.properties2 || checks.maintenance3 || checks.buffer_device_address),
{
    checks.properties2 || checks.maintenance3 || checks.buffer_device_address
}

/// Name of the extended-queries extension.
pub open spec fn properties2_extension_name() -> Seq<char> {
    "VK_KHR_get_physical_device_properties2"@
}

/// Name of the extension carrying the maximum-allocation-size limit.
pub open spec fn maintenance3_extension_name() -> Seq<char> {
    "VK_KHR_maintenance3"@
}

/// Name of the buffer-device-address extension.
pub open spec fn buffer_device_address_extension_name() -> Seq<char> {
    "VK_KHR_buffer_device_address"@
}

/// Whether a name stands among the enumerated extension names.
pub open spec fn extension_listed(available: Seq<String>, name: Seq<char>) -> bool {
    exists|i: int| 0 <= i < available.len() && available[i]@ == name
}

/// Which of the three gating extensions' requirements are satisfied:
/// either the version made the check unnecessary, or the extension is
/// among the device's supported extensions.
#[derive(Clone, Copy, Debug, PartialEq, Eq, Structural)]
pub struct ExtensionSupport {
    /// The extended-queries extension is guaranteed or present.
    pub properties2: bool,
    /// The maximum-allocation-size limit is guaranteed or its extension
    /// present.
    pub maintenance3: bool,
    /// The buffer-device-address extension is guaranteed or present.
    pub buffer_device_address: bool,
}

/// Tests, in one pass over the enumerated extension names with an early
/// exit once nothing is left to find, which still-required extensions
/// the device supports. A requirement is satisfied when its check was
/// unnecessary or its name is listed.
pub fn extension_presence(available: &Vec<String>, checks: &ExtensionChecks) -> (r:
    ExtensionSupport)
    ensures
        r.properties2 == (!checks.properties2 || extension_listed(
            available@,
            properties2_extension_name(),
        )),
        r.maintenance3 == (!checks.maintenance3 || extension_listed(
            available@,
            maintenance3_extension_name(),
        )),
        r.buffer_device_address == (!checks.buffer_device_address || extension_listed(
            available@,
            buffer_device_address_extension_name(),
        )),
{
    let properties2_name: String = "VK_KHR_get_physical_device_properties2".to_owned();
    let maintenance3_name: String = "VK_KHR_maintenance3".to_owned();
    let bda_name: String = "VK_KHR_buffer_device_address".to_owned();
    let mut properties2: bool = !checks.properties2;
    let mut maintenance3: bool = !checks.maintenance3;
    let mut buffer_device_address: bool = !checks.buffer_device_address;
    let mut i: usize = 0;
    while i < available.len() && !(properties2 && maintenance3 && buffer_device_address)
        invariant
            0 <= i <= available@.len(),
            properties2_name@ == properties2_extension_name(),
            maintenance3_name@ == maintenance3_extension_name(),
            bda_name@ == buffer_device_address_extension_name(),
            !checks.properties2 ==> properties2,
            checks.properties2 ==> properties2 == (exists|j: int|
                0 <= j < i && available@[j]@ == properties2_extension_name()),
            !checks.maintenance3 ==> maintenance3,
            checks.maintenance3 ==> maintenance3 == (exists|j: int|
                0 <= j < i && available@[j]@ == maintenance3_extension_name()),
            !checks.buffer_device_address ==> buffer_device_address,
            checks.buffer_device_address ==> buffer_device_address == (exists|j: int|
                0 <= j < i && available@[j]@ == buffer_device_address_extension_name()),
        decreases available@.len() - i,
    {
        let candidate: &String = &available[i];
        if !properties2 && *candidate == properties2_name {
            properties2 = true;
        }
        if !maintenance3 && *candidate == maintenance3_name {
            maintenance3 = true;
        }
        if !buffer_device_address && *candidate == bda_name {
            buffer_device_address = true;
        }
        i += 1;
    }
    ExtensionSupport { properties2, maintenance3, buffer_device_address }
}

/// Which of the two optional queries the prober issues.
#[derive(Clone, Copy, Debug, PartialEq, Eq, Structural)]
pub struct QueryPaths {
    /// Issue the extended-properties query, chained with the
    /// maintenance-limits structure; otherwise fall back to the basic
    /// properties query.
    pub extended_properties: bool,
    /// Issue the extended-features query, chained with the
    /// buffer-device-address structure; otherwise the feature defaults
    /// to unsupported.
    pub extended_features: bool,
}

/// Selects the query paths from the satisfied requirements: each
/// optional query needs the extended-queries prerequisite plus its own
/// data source.
pub fn query_paths(support: &ExtensionSupport) -> (r: QueryPaths)
    ensures
        r.extended_properties == (support.properties2 && support.maintenance3),
        r.extended_features == (support.properties2 && support.buffer_device_address),
{
    QueryPaths {
        extended_properties: support.properties2 && support.maintenance3,
        extended_features: support.properties2 && support.buffer_device_address,
    }
}

/// The prober selects exactly the documented query path for each
/// negotiated version: from minor version 2 on it checks no extension,
/// at minor version 1 only buffer-device-address, at minor version 0
/// all three; and it enumerates the device's extensions exactly below
/// minor version 2.
pub proof fn lemma_query_path_selection(version: u32)
    ensures
        spec_version_minor(version) >= 2 ==> spec_required_extension_checks(version) == (ExtensionChecks {
            properties2: false,
            maintenance3: false,
            buffer_device_address: false,
        }),
        spec_version_minor(version) == 1 ==> spec_required_extension_checks(version) == (ExtensionChecks {
            properties2: false,
            maintenance3: false,
            buffer_device_address: true,
        }),
        spec_version_minor(version) == 0 ==> spec_required_extension_checks(version) == (ExtensionChecks {
            properties2: true,
            maintenance3: true,
            buffer_device_address: true,
        }),
        (spec_required_extension_checks(version).properties2 || spec_required_extension_checks(
            version,
        ).maintenance3 || spec_required_extension_checks(version).buffer_device_address)
            <==> spec_version_minor(version) <= 1,
{
}

/// The capability record the allocator's constructor consumes:
/// memory types and heaps in the device's order, the allocation
/// limits, and whether device-address-capable allocations are
/// supported.
pub struct DeviceProperties {
    /// Memory types in the device's order; each names the heap it
    /// draws from.
    pub memory_types: Vec<gpu_alloc_types::MemoryType>,
    /// Memory heaps in the device's order.
    pub memory_heaps: Vec<gpu_alloc_types::MemoryHeap>,
    /// Maximum count of live allocations.
    pub max_memory_allocation_count: u32,
    /// Maximum byte size of a single allocation.
    pub max_memory_allocation_size: u64,
    /// Alignment granularity for flushed or invalidated ranges of
    /// non-coherent memory.
    pub non_coherent_atom_size: u64,
    /// Whether device-address-capable allocations are supported.
    pub buffer_device_address: bool,
}

impl DeviceProperties {
    /// Every memory type draws from a heap the record lists.
    pub open spec fn wf(&self) -> bool {
        forall|i: int|
            0 <= i < self.memory_types@.len() ==> (#[trigger] self.memory_types@[i]).heap
                < self.memory_heaps@.len()
    }
}

/// Assembles the capability record from the queried data: memory types
/// and heaps carry over in order, each type's property flags translated
/// and its heap index kept; the maximum allocation size falls back to
/// the unbounded default when the extended-properties path was
/// unavailable; device-address support defaults to unsupported when the
/// extended-features path was unavailable, and otherwise holds exactly
/// when the queried feature bit is set.
pub fn assemble_device_properties(
    memory_types: &Vec<vulkanalia::vk::MemoryType>,
    memory_heaps: &Vec<vulkanalia::vk::MemoryHeap>,
    max_memory_allocation_count: u32,
    non_coherent_atom_size: u64,
    max_memory_allocation_size: Option<u64>,
    buffer_device_address: Option<u32>,
) -> (r: DeviceProperties)
    requires
        forall|i: int|
            0 <= i < memory_types@.len() ==> (#[trigger] memory_types@[i]).heap_index
                < memory_heaps@.len(),
    ensures
        r.wf(),
        r.memory_types@.len() == memory_types@.len(),
        forall|i: int|
            0 <= i < memory_types@.len() ==> {
                &&& (#[trigger] r.memory_types@[i]).heap == memory_types@[i].heap_index
                &&& property_bits(r.memory_types@[i].props) == spec_memory_properties_from_bits(
                    vk_property_bits(memory_types@[i].property_flags),
                )
            },
        r.memory_heaps@.len() == memory_heaps@.len(),
        forall|i: int|
            0 <= i < memory_heaps@.len() ==> (#[trigger] r.memory_heaps@[i]).size
                == memory_heaps@[i].size,
        r.max_memory_allocation_count == max_memory_allocation_count,
        r.non_coherent_atom_size == non_coherent_atom_size,
        r.max_memory_allocation_size == (match max_memory_allocation_size {
            Some(size) => size,
            None => u64::MAX,
        }),
        r.buffer_device_address == (match buffer_device_address {
            Some(bit) => bit != 0,
            None => false,
        }),
{
    let mut types: Vec<gpu_alloc_types::MemoryType> = Vec::new();
    let mut i: usize = 0;
    while i < memory_types.len()
        invariant
            0 <= i <= memory_types@.len(),
            types@.len() == i,
            forall|j: int|
                0 <= j < i ==> {
                    &&& (#[trigger] types@[j]).heap == memory_types@[j].heap_index
                    &&& property_bits(types@[j].props) == spec_memory_properties_from_bits(
                        vk_property_bits(memory_types@[j].property_flags),
                    )
                },
        decreases memory_types@.len() - i,
    {
        let entry: &vulkanalia::vk::MemoryType = &memory_types[i];
        types.push(
            gpu_alloc_types::MemoryType {
                heap: entry.heap_index,
                props: memory_properties_from(entry.property_flags),
            },
        );
        i += 1;
    }
    let mut heaps: Vec<gpu_alloc_types::MemoryHeap> = Vec::new();
    let mut k: usize = 0;
    while k < memory_heaps.len()
        invariant
            0 <= k <= memory_heaps@.len(),
            heaps@.len() == k,
            forall|j: int| 0 <= j < k ==> (#[trigger] heaps@[j]).size == memory_heaps@[j].size,
        decreases memory_heaps@.len() - k,
    {
        let entry: &vulkanalia::vk::MemoryHeap = &memory_heaps[k];
        heaps.push(gpu_alloc_types::MemoryHeap { size: entry.size });
        k += 1;
    }
    let max_memory_allocation_size: u64 = match max_memory_allocation_size {
        Some(size) => size,
        None => u64::MAX,
    };
    let buffer_device_address: bool = match buffer_device_address {
        Some(bit) => bit != 0,
        None => false,
    };
    DeviceProperties {
        memory_types: types,
        memory_heaps: heaps,
        max_memory_allocation_count,
        max_memory_allocation_size,
        non_coherent_atom_size,
        buffer_device_address,
    }
}

} // verus!
