//! Physical-device selection and memory-type lookup.
//!
//! A device is suitable when it exposes a graphics-capable and a
//! present-capable queue family, supports every required extension, and
//! reports at least one surface format and present mode. Selection takes
//! the first suitable device — first match wins, with no scoring; that is a
//! documented limitation of the design, not an accident.

use crate::error::{VkError, VkResult};
use crate::queue::{
    is_first_graphics,
    is_first_present,
    CompleteQueueFamilyIndices,
    QueueFamilyIndices,
    QueueFamilyInfo,
};
use crate::swapchain::SwapchainSupportDetails;
use vstd::prelude::*;

verus! {

/// One memory type of a device, by its property flags.
#[derive(Clone, Copy, Debug, PartialEq, Eq, Structural)]
pub struct MemoryTypeInfo {
    /// Property flag bits (device-local, host-visible, host-coherent, ...).
    pub property_flags: u32,
}

/// Memory type `i` satisfies an allocation: the resource's type filter has
/// bit `i` set, and the type's properties include every requested flag.
pub open spec fn spec_memory_type_matches(
    memory_types: Seq<MemoryTypeInfo>,
    type_filter: u32,
    properties: u32,
    i: int,
) -> bool
    recommends
        0 <= i < memory_types.len(),
        memory_types.len() <= 32,
{
    &&& type_filter & (1u32 << (i as u32)) != 0
    &&& memory_types[i].property_flags & properties == properties
}

/// Finds the first memory type satisfying both the type filter and the
/// requested property flags; fails with `NoSuitableMemoryType` exactly when
/// none does.
pub fn find_memory_type(
    memory_types: &Vec<MemoryTypeInfo>,
    type_filter: u32,
    properties: u32,
) -> (r: VkResult<u32>)
    requires
        memory_types@.len() <= 32,
    ensures
        match r {
            Ok(i) => i < memory_types@.len() && spec_memory_type_matches(
                memory_types@,
                type_filter,
                properties,
                i as int,
            ) && forall|j: int|
                0 <= j < i ==> !spec_memory_type_matches(
                    memory_types@,
                    type_filter,
                    properties,
                    j,
                ),
            Err(e) => e == VkError::NoSuitableMemoryType && forall|j: int|
                0 <= j < memory_types@.len() ==> !spec_memory_type_matches(
                    memory_types@,
                    type_filter,
                    properties,
                    j,
                ),
        },
{
    let len = memory_types.len();
    let mut i: usize = 0;
    while i < len
        invariant
            i <= len,
            len == memory_types@.len(),
            len <= 32,
            forall|j: int|
                0 <= j < i ==> !spec_memory_type_matches(memory_types@, type_filter, properties, j),
        decreases len - i,
    {
        let bit = 1u32 << (i as u32);
        if type_filter & bit != 0 && memory_types[i].property_flags & properties == properties {
            return Ok(i as u32);
        }
        i = i + 1;
    }
    Err(VkError::NoSuitableMemoryType)
}

/// Everything device selection reads of one physical device: its queue
/// families' capabilities, the extensions it supports (as identifiers
/// assigned by the caller), and what its surface supports.
pub struct PhysicalDeviceInfo {
    /// Capabilities of each queue family, by family index.
    pub queue_families: Vec<QueueFamilyInfo>,
    /// Identifiers of the extensions the device supports.
    pub supported_extensions: Vec<u64>,
    /// What the device supports on the target surface.
    pub surface_support: SwapchainSupportDetails,
}

/// Every element of `required` occurs in `available`.
pub open spec fn spec_all_supported(available: Seq<u64>, required: Seq<u64>) -> bool {
    forall|i: int| 0 <= i < required.len() ==> available.contains(required[i])
}

/// Whether every required extension is among the available ones.
pub fn check_support(available: &Vec<u64>, required: &Vec<u64>) -> (b: bool)
    ensures
        b == spec_all_supported(available@, required@),
{
    let required_len = required.len();
    let mut i: usize = 0;
    while i < required_len
        invariant
            i <= required_len,
            required_len == required@.len(),
            forall|j: int| 0 <= j < i ==> available@.contains(required@[j]),
        decreases required_len - i,
    {
        let needle = required[i];
        let available_len = available.len();
        let mut k: usize = 0;
        let mut found = false;
        while k < available_len
            invariant
                k <= available_len,
                available_len == available@.len(),
                found <==> exists|m: int| 0 <= m < k && available@[m] == needle,
            decreases available_len - k,
        {
            if available[k] == needle {
                found = true;
            }
            k = k + 1;
        }
        if !found {
            assert(!available@.contains(needle));
            return false;
        }
        i = i + 1;
    }
    true
}

/// The suitability test: a graphics family and a present family exist,
/// every required extension is supported, and the surface offers at least
/// one format and one present mode.
pub open spec fn spec_device_suitable(device: PhysicalDeviceInfo, required: Seq<u64>) -> bool {
    &&& exists|i: int|
        0 <= i < device.queue_families@.len() && device.queue_families@[i].supports_graphics
    &&& exists|i: int|
        0 <= i < device.queue_families@.len() && device.queue_families@[i].supports_present
    &&& spec_all_supported(device.supported_extensions@, required)
    &&& device.surface_support.spec_is_adequate()
}

/// Tests one device, returning its resolved queue family indices when it is
/// suitable and `None` exactly when it is not.
pub fn is_device_suitable(device: &PhysicalDeviceInfo, required_extensions: &Vec<u64>) -> (r:
    Option<CompleteQueueFamilyIndices>)
    requires
        device.queue_families@.len() <= u32::MAX,
    ensures
        r is Some <==> spec_device_suitable(*device, required_extensions@),
        r matches Some(c) ==> is_first_graphics(
            device.queue_families@,
            c.spec_graphics_family() as int,
        ) && is_first_present(device.queue_families@, c.spec_present_family() as int),
{
    let indices = QueueFamilyIndices::new(&device.queue_families);
    match indices.complete() {
        Some(complete) => {
            if check_support(&device.supported_extensions, required_extensions)
                && device.surface_support.is_adequate() {
                Some(complete)
            } else {
                None
            }
        },
        None => None,
    }
}

/// The distinct queue families a logical device must request queues from:
/// one family when it both draws and presents, the two families otherwise.
pub fn unique_queue_families(indices: CompleteQueueFamilyIndices) -> (r: Vec<u32>)
    ensures
        indices.spec_graphics_family() == indices.spec_present_family() ==> r@ =~= seq![
            indices.spec_graphics_family(),
        ],
        indices.spec_graphics_family() != indices.spec_present_family() ==> r@ =~= seq![
            indices.spec_graphics_family(),
            indices.spec_present_family(),
        ],
{
    let graphics = indices.graphics_family();
    let present = indices.present_family();
    let mut families: Vec<u32> = Vec::new();
    families.push(graphics);
    if present != graphics {
        families.push(present);
    }
    families
}

/// Picks the first suitable physical device. Fails with `NoVulkanGpu` when
/// no device exists at all, and with `NoSuitableGpu` when devices exist but
/// none is suitable; otherwise returns the index of the first suitable
/// device and its resolved queue families.
pub fn pick_physical_device(
    devices: &Vec<PhysicalDeviceInfo>,
    required_extensions: &Vec<u64>,
) -> (r: VkResult<(usize, CompleteQueueFamilyIndices)>)
    requires
        forall|d: int| 0 <= d < devices@.len() ==> devices@[d].queue_families@.len() <= u32::MAX,
    ensures
        match r {
            Ok(p) => {
                &&& p.0 < devices@.len()
                &&& spec_device_suitable(devices@[p.0 as int], required_extensions@)
                &&& forall|d: int|
                    0 <= d < p.0 ==> !spec_device_suitable(devices@[d], required_extensions@)
                &&& is_first_graphics(
                    devices@[p.0 as int].queue_families@,
                    p.1.spec_graphics_family() as int,
                )
                &&& is_first_present(
                    devices@[p.0 as int].queue_families@,
                    p.1.spec_present_family() as int,
                )
            },
            Err(e) => {
                &&& (e == VkError::NoVulkanGpu <==> devices@.len() == 0)
                &&& (e == VkError::NoSuitableGpu ==> devices@.len() > 0 && forall|d: int|
                    0 <= d < devices@.len() ==> !spec_device_suitable(
                        devices@[d],
                        required_extensions@,
                    ))
                &&& (e == VkError::NoVulkanGpu || e == VkError::NoSuitableGpu)
            },
        },
        r is Err <==> !(exists|d: int|
            0 <= d < devices@.len() && spec_device_suitable(devices@[d], required_extensions@)),
{
    let len = devices.len();
    if len == 0 {
        return Err(VkError::NoVulkanGpu);
    }
    let mut d: usize = 0;
    while d < len
        invariant
            d <= len,
            len == devices@.len(),
            forall|j: int|
                0 <= j < devices@.len() ==> devices@[j].queue_families@.len() <= u32::MAX,
            forall|j: int| 0 <= j < d ==> !spec_device_suitable(devices@[j], required_extensions@),
        decreases len - d,
    {
        match is_device_suitable(&devices[d], required_extensions) {
            Some(indices) => {
                return Ok((d, indices));
            },
            None => {},
        }
        d = d + 1;
    }
    Err(VkError::NoSuitableGpu)
}

} // verus!
