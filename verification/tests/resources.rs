use vrt::buffer::{
    VRTBuffer, BUFFER_USAGE_UNIFORM_BUFFER, MEMORY_PROPERTY_HOST_COHERENT,
    MEMORY_PROPERTY_HOST_VISIBLE,
};
use vrt::descriptor::{
    DescriptorType, VRTDescriptorPoolBuilder, VRTDescriptorSetLayoutBuilder, VRTDescriptorWriter,
};
use vrt::device::{find_memory_type, pick_physical_device, MemoryTypeInfo, PhysicalDeviceInfo};
use vrt::error::VkError;
use vrt::queue::{QueueFamilyIndices, QueueFamilyInfo};
use vrt::swapchain::{
    Extent2D, PresentMode, SurfaceCapabilities, SurfaceFormat, SwapchainSupportDetails,
};

#[test]
fn alignment_rounds_up_by_ceiling_division() {
    assert_eq!(VRTBuffer::get_alignment(10, 4), 12);
    assert_eq!(VRTBuffer::get_alignment(16, 4), 16);
    assert_eq!(VRTBuffer::get_alignment(1, 256), 256);
    assert_eq!(VRTBuffer::get_alignment(257, 256), 512);
    assert_eq!(VRTBuffer::get_alignment(0, 8), 0);
    // An alignment of zero leaves the size untouched.
    assert_eq!(VRTBuffer::get_alignment(10, 0), 10);
}

#[test]
fn alignment_law_holds_on_sampled_pairs() {
    for (size, alignment) in
        [(1u64, 1u64), (5, 1), (5, 2), (5, 8), (64, 64), (65, 64), (1000, 256), (0, 4)]
    {
        let aligned = VRTBuffer::get_alignment(size, alignment);
        assert_eq!(aligned % alignment, 0);
        assert!(aligned >= size);
        assert!(aligned < size + alignment);
        if alignment == 1 {
            assert_eq!(aligned, size);
        }
    }
}

#[test]
fn buffer_is_sized_as_stride_times_count() {
    let buffer = VRTBuffer::new(
        10,
        3,
        BUFFER_USAGE_UNIFORM_BUFFER,
        MEMORY_PROPERTY_HOST_VISIBLE,
        Some(4),
    );
    assert_eq!(buffer.alignment_size(), 12);
    assert_eq!(buffer.buffer_size(), 36);
    assert!(buffer.get_mapped_memory().is_none());
}

#[test]
fn write_requires_the_buffer_to_be_mapped() {
    let mut buffer = VRTBuffer::new(
        16,
        1,
        BUFFER_USAGE_UNIFORM_BUFFER,
        MEMORY_PROPERTY_HOST_VISIBLE,
        None,
    );
    let err = buffer.write_to_buffer(&vec![1, 2, 3], 0);
    assert_eq!(err, Err(VkError::NotMapped));
    assert_eq!(buffer.flush(16, 0), Err(VkError::NotMapped));
}

#[test]
fn writes_are_bounds_checked_against_the_mapping() {
    let mut buffer = VRTBuffer::new(
        8,
        1,
        BUFFER_USAGE_UNIFORM_BUFFER,
        MEMORY_PROPERTY_HOST_VISIBLE,
        None,
    );
    buffer.map(None, None).unwrap();
    let err = buffer.write_to_buffer(&vec![0; 9], 0);
    assert_eq!(err, Err(VkError::OutOfBufferBounds));
    let err = buffer.write_to_buffer(&vec![0; 4], 5);
    assert_eq!(err, Err(VkError::OutOfBufferBounds));
    // Mapping past the end is refused too.
    let mut other = VRTBuffer::new(
        8,
        1,
        BUFFER_USAGE_UNIFORM_BUFFER,
        MEMORY_PROPERTY_HOST_VISIBLE,
        None,
    );
    assert_eq!(other.map(Some(9), None), Err(VkError::OutOfBufferBounds));
    assert_eq!(other.map(Some(4), Some(5)), Err(VkError::OutOfBufferBounds));
}

#[test]
fn written_bytes_land_at_the_mapped_offset() {
    let mut buffer = VRTBuffer::new(
        4,
        2,
        BUFFER_USAGE_UNIFORM_BUFFER,
        MEMORY_PROPERTY_HOST_VISIBLE,
        None,
    );
    buffer.map(Some(4), Some(4)).unwrap();
    buffer.write_to_buffer(&vec![7, 8], 1).unwrap();
    assert_eq!(buffer.byte_at(4), 0);
    assert_eq!(buffer.byte_at(5), 7);
    assert_eq!(buffer.byte_at(6), 8);
    assert_eq!(buffer.byte_at(7), 0);
    assert_eq!(buffer.byte_at(0), 0);
    buffer.unmap();
    assert!(buffer.get_mapped_memory().is_none());
    // Unmapping does not lose the contents.
    assert_eq!(buffer.byte_at(5), 7);
}

#[test]
fn non_coherent_writes_need_a_flush_to_reach_the_gpu() {
    let mut buffer = VRTBuffer::new(
        8,
        1,
        BUFFER_USAGE_UNIFORM_BUFFER,
        MEMORY_PROPERTY_HOST_VISIBLE,
        None,
    );
    assert!(buffer.gpu_visible());
    buffer.map(None, None).unwrap();
    buffer.write_to_buffer(&vec![1], 0).unwrap();
    assert!(!buffer.gpu_visible());
    buffer.flush(8, 0).unwrap();
    assert!(buffer.gpu_visible());
}

#[test]
fn coherent_writes_are_visible_without_a_flush() {
    let mut buffer = VRTBuffer::new(
        8,
        1,
        BUFFER_USAGE_UNIFORM_BUFFER,
        MEMORY_PROPERTY_HOST_VISIBLE | MEMORY_PROPERTY_HOST_COHERENT,
        None,
    );
    buffer.map(None, None).unwrap();
    buffer.write_to_buffer(&vec![1], 0).unwrap();
    assert!(buffer.gpu_visible());
}

#[test]
fn memory_type_lookup_takes_the_first_match() {
    let types = vec![
        MemoryTypeInfo { property_flags: 0x1 },
        MemoryTypeInfo { property_flags: 0x6 },
        MemoryTypeInfo { property_flags: 0x6 },
    ];
    // Type filter admits indexes 1 and 2; both have the requested flags.
    assert_eq!(find_memory_type(&types, 0b110, 0x6), Ok(1));
    // The filter admits only index 0, whose flags do not include 0x6.
    assert_eq!(find_memory_type(&types, 0b001, 0x6), Err(VkError::NoSuitableMemoryType));
}

#[test]
fn queue_family_scan_records_the_first_capable_families() {
    let families = vec![
        QueueFamilyInfo { supports_graphics: false, supports_present: false },
        QueueFamilyInfo { supports_graphics: true, supports_present: false },
        QueueFamilyInfo { supports_graphics: true, supports_present: true },
    ];
    let indices = QueueFamilyIndices::new(&families);
    assert!(indices.is_complete());
    let complete = indices.complete().unwrap();
    assert_eq!(complete.graphics_family(), 1);
    assert_eq!(complete.present_family(), 2);
}

#[test]
fn incomplete_queue_families_never_resolve() {
    let families = vec![QueueFamilyInfo { supports_graphics: true, supports_present: false }];
    let indices = QueueFamilyIndices::new(&families);
    assert!(!indices.is_complete());
    assert!(indices.complete().is_none());
}

fn adequate_support() -> SwapchainSupportDetails {
    SwapchainSupportDetails::new(
        SurfaceCapabilities {
            min_image_count: 2,
            max_image_count: 0,
            current_extent: Extent2D { width: 640, height: 480 },
            min_image_extent: Extent2D { width: 1, height: 1 },
            max_image_extent: Extent2D { width: 4096, height: 4096 },
        },
        vec![SurfaceFormat { format: 50, color_space: 0 }],
        vec![PresentMode::Fifo],
    )
}

fn capable_device() -> PhysicalDeviceInfo {
    PhysicalDeviceInfo {
        queue_families: vec![QueueFamilyInfo { supports_graphics: true, supports_present: true }],
        supported_extensions: vec![1, 2],
        surface_support: adequate_support(),
    }
}

#[test]
fn device_selection_fails_closed_without_devices() {
    assert_eq!(
        pick_physical_device(&vec![], &vec![1]).err(),
        Some(VkError::NoVulkanGpu)
    );
}

#[test]
fn device_selection_fails_closed_without_a_suitable_device() {
    let mut no_extension = capable_device();
    no_extension.supported_extensions = vec![2];
    assert_eq!(
        pick_physical_device(&vec![no_extension], &vec![1]).err(),
        Some(VkError::NoSuitableGpu)
    );
}

#[test]
fn device_selection_takes_the_first_suitable_device() {
    let mut unsuitable = capable_device();
    unsuitable.queue_families = vec![QueueFamilyInfo {
        supports_graphics: true,
        supports_present: false,
    }];
    let devices = vec![unsuitable, capable_device(), capable_device()];
    let (index, indices) = pick_physical_device(&devices, &vec![1]).unwrap();
    assert_eq!(index, 1);
    assert_eq!(indices.graphics_family(), 0);
    assert_eq!(indices.present_family(), 0);
}

fn two_uniform_layout() -> vrt::descriptor::VRTDescriptorSetLayout {
    VRTDescriptorSetLayoutBuilder::new()
        .add_binding(0, DescriptorType::UniformBuffer, 0x1F, None)
        .unwrap()
        .add_binding(1, DescriptorType::UniformBuffer, 0x1F, None)
        .unwrap()
        .build()
}

fn buffer_info() -> vrt::buffer::DescriptorBufferInfo {
    vrt::buffer::DescriptorBufferInfo { offset: 0, range: 64 }
}

#[test]
fn layout_builder_refuses_a_duplicate_slot() {
    let builder = VRTDescriptorSetLayoutBuilder::new()
        .add_binding(0, DescriptorType::UniformBuffer, 0x1F, None)
        .unwrap();
    let err = builder.add_binding(0, DescriptorType::Sampler, 0x1F, Some(2));
    assert!(matches!(err, Err(VkError::DuplicateBinding)));
}

#[test]
fn writer_refuses_undeclared_mistyped_and_repeated_slots() {
    let layout = two_uniform_layout();
    let writer = VRTDescriptorWriter::new(&layout);
    assert!(matches!(
        writer.write_buffer(5, buffer_info()),
        Err(VkError::UnknownBinding)
    ));

    let sampler_layout = VRTDescriptorSetLayoutBuilder::new()
        .add_binding(0, DescriptorType::Sampler, 0x1F, None)
        .unwrap()
        .build();
    let writer = VRTDescriptorWriter::new(&sampler_layout);
    assert!(matches!(
        writer.write_buffer(0, buffer_info()),
        Err(VkError::BindingTypeMismatch)
    ));

    let writer = VRTDescriptorWriter::new(&layout).write_buffer(0, buffer_info()).unwrap();
    assert!(matches!(
        writer.write_buffer(0, buffer_info()),
        Err(VkError::DuplicateBinding)
    ));
}

#[test]
fn build_refuses_a_partially_written_set() {
    let layout = two_uniform_layout();
    let mut pool = VRTDescriptorPoolBuilder::new()
        .set_max_sets(2)
        .add_pool_size(DescriptorType::UniformBuffer, 4)
        .build();
    let writer = VRTDescriptorWriter::new(&layout).write_buffer(0, buffer_info()).unwrap();
    let built = writer.build(&mut pool);
    assert!(matches!(built, Err(VkError::IncompleteBindings)));
}

#[test]
fn build_binds_every_declared_slot_at_once() {
    let layout = two_uniform_layout();
    let mut pool = VRTDescriptorPoolBuilder::new()
        .set_max_sets(2)
        .add_pool_size(DescriptorType::UniformBuffer, 4)
        .build();
    let set = VRTDescriptorWriter::new(&layout)
        .write_buffer(0, buffer_info())
        .unwrap()
        .write_buffer(1, buffer_info())
        .unwrap()
        .build(&mut pool)
        .unwrap();
    assert_eq!(set.handle().set_index, 0);
    assert_eq!(set.num_writes(), 2);
    assert_eq!(set.write_at(0).binding, 0);
    assert_eq!(set.write_at(1).binding, 1);
}

#[test]
fn pool_budget_is_fixed_and_exhausts_with_a_typed_error() {
    let layout = two_uniform_layout();
    // Budget for one set of two uniform descriptors, twice over on sets but
    // not on descriptors: the second build must exhaust.
    let mut pool = VRTDescriptorPoolBuilder::new()
        .set_max_sets(2)
        .add_pool_size(DescriptorType::UniformBuffer, 2)
        .build();
    let first = VRTDescriptorWriter::new(&layout)
        .write_buffer(0, buffer_info())
        .unwrap()
        .write_buffer(1, buffer_info())
        .unwrap()
        .build(&mut pool)
        .unwrap();
    assert_eq!(first.handle().set_index, 0);
    let second = VRTDescriptorWriter::new(&layout)
        .write_buffer(0, buffer_info())
        .unwrap()
        .write_buffer(1, buffer_info())
        .unwrap()
        .build(&mut pool);
    assert!(matches!(second, Err(VkError::PoolExhausted)));
}

#[test]
fn pool_set_budget_exhausts_independently() {
    let layout = VRTDescriptorSetLayoutBuilder::new()
        .add_binding(0, DescriptorType::UniformBuffer, 0x1F, None)
        .unwrap()
        .build();
    let mut pool = VRTDescriptorPoolBuilder::new()
        .set_max_sets(1)
        .add_pool_size(DescriptorType::UniformBuffer, 10)
        .build();
    pool.allocate_descriptor(&layout).unwrap();
    assert!(matches!(
        pool.allocate_descriptor(&layout),
        Err(VkError::PoolExhausted)
    ));
}

#[test]
fn logical_device_requests_each_family_once() {
    let shared = QueueFamilyIndices::new(&vec![QueueFamilyInfo {
        supports_graphics: true,
        supports_present: true,
    }])
    .complete()
    .unwrap();
    assert_eq!(vrt::device::unique_queue_families(shared), vec![0]);

    let split = QueueFamilyIndices::new(&vec![
        QueueFamilyInfo { supports_graphics: true, supports_present: false },
        QueueFamilyInfo { supports_graphics: false, supports_present: true },
    ])
    .complete()
    .unwrap();
    assert_eq!(vrt::device::unique_queue_families(split), vec![0, 1]);
}
