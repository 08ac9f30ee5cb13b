//! Host-visible device buffer bookkeeping.
//!
//! A [`VRTBuffer`] models the CPU side of a device-memory-backed buffer:
//! its size arithmetic (instance size rounded up to the minimum alignment,
//! times the instance count), and the explicit map / write / flush / unmap
//! lifecycle. Writes are bounds-checked against the mapped range, and a
//! write to memory without the host-coherent property is not considered
//! visible to the GPU until it is flushed.

use crate::error::{VkError, VkResult};
use vstd::arithmetic::div_mod::{lemma_fundamental_div_mod, lemma_mod_multiples_basic};
use vstd::prelude::*;

verus! {

/// Memory allocated from a type with this flag can be mapped by the host.
pub const MEMORY_PROPERTY_HOST_VISIBLE: u32 = 0x2;

/// Host writes to memory with this flag need no explicit flush.
pub const MEMORY_PROPERTY_HOST_COHERENT: u32 = 0x4;

/// Buffer usage flag for uniform buffers.
pub const BUFFER_USAGE_UNIFORM_BUFFER: u32 = 0x10;

/// Passed as a size to mean "from the offset to the end of the buffer".
pub const WHOLE_SIZE: u64 = u64::MAX;

/// `size` rounded up to the next multiple of `alignment`, by ceiling
/// division.
pub open spec fn align_up(size: u64, alignment: u64) -> int
    recommends
        alignment >= 1,
{
    ((size + alignment - 1) as int / alignment as int) * alignment as int
}

/// The per-instance stride: `align_up` when a minimum alignment is given,
/// the instance size itself otherwise.
pub open spec fn spec_alignment(instance_size: u64, min_offset_alignment: Option<u64>) -> int {
    match min_offset_alignment {
        Some(a) => if a >= 1 {
            align_up(instance_size, a)
        } else {
            instance_size as int
        },
        None => instance_size as int,
    }
}

/// A byte range of a buffer mapped into host address space.
#[derive(Clone, Copy, Debug, PartialEq, Eq, Structural)]
pub struct MappedRange {
    /// Offset of the start of the mapping from the start of the buffer.
    pub offset: u64,
    /// Length of the mapping in bytes.
    pub size: u64,
}

/// Description of a buffer region handed to a descriptor write.
#[derive(Clone, Copy, Debug, PartialEq, Eq, Structural)]
pub struct DescriptorBufferInfo {
    /// Offset of the described region from the start of the buffer.
    pub offset: u64,
    /// Length of the described region in bytes.
    pub range: u64,
}

/// The CPU-side state of one device-memory-backed buffer.
pub struct VRTBuffer {
    instance_size: u64,
    instance_count: u32,
    alignment_size: u64,
    usage_flags: u32,
    memory_property_flags: u32,
    contents: Vec<u8>,
    mapped: Option<MappedRange>,
    pending_host_writes: bool,
}

impl VRTBuffer {
    /// Total byte length of the buffer.
    pub closed spec fn spec_buffer_size(self) -> int {
        self.alignment_size * self.instance_count
    }

    /// The per-instance stride the buffer was created with.
    pub closed spec fn spec_alignment_size(self) -> u64 {
        self.alignment_size
    }

    /// The declared size of one instance.
    pub closed spec fn spec_instance_size(self) -> u64 {
        self.instance_size
    }

    /// The mapped range, if the buffer is currently mapped.
    pub closed spec fn spec_mapped(self) -> Option<MappedRange> {
        self.mapped
    }

    pub open spec fn is_mapped(self) -> bool {
        self.spec_mapped() is Some
    }

    /// The bytes the host has written, as the GPU would read them once
    /// visible.
    pub closed spec fn spec_contents(self) -> Seq<u8> {
        self.contents@
    }

    /// Whether the memory type carries the host-coherent property.
    pub closed spec fn is_coherent(self) -> bool {
        self.memory_property_flags & MEMORY_PROPERTY_HOST_COHERENT != 0
    }

    /// Host writes are guaranteed visible to the GPU: either the memory is
    /// coherent, or every write since the last flush has been flushed.
    pub closed spec fn is_gpu_visible(self) -> bool {
        self.is_coherent() || !self.pending_host_writes
    }

    /// Internal consistency of the bookkeeping.
    pub closed spec fn wf(self) -> bool {
        &&& self.alignment_size * self.instance_count <= usize::MAX
        &&& self.contents@.len() == self.alignment_size * self.instance_count
        &&& self.instance_size <= self.alignment_size
        &&& match self.mapped {
            Some(r) => r.offset + r.size <= self.alignment_size * self.instance_count,
            None => true,
        }
    }

    /// `instance_size` rounded up to the next multiple of
    /// `min_offset_alignment`; an alignment of zero leaves the size as it
    /// is.
    pub fn get_alignment(instance_size: u64, min_offset_alignment: u64) -> (r: u64)
        requires
            min_offset_alignment >= 1 ==> instance_size + min_offset_alignment - 1 <= u64::MAX,
        ensures
            min_offset_alignment == 0 ==> r == instance_size,
            min_offset_alignment >= 1 ==> r == align_up(instance_size, min_offset_alignment),
            min_offset_alignment >= 1 ==> r % min_offset_alignment == 0,
            r >= instance_size,
            min_offset_alignment >= 1 ==> r < instance_size + min_offset_alignment,
            min_offset_alignment == 1 ==> r == instance_size,
    {
        if min_offset_alignment > 0 {
            let sum = instance_size + (min_offset_alignment - 1);
            let quotient = sum / min_offset_alignment;
            proof {
                lemma_fundamental_div_mod(sum as int, min_offset_alignment as int);
                lemma_mod_multiples_basic(quotient as int, min_offset_alignment as int);
            }
            quotient * min_offset_alignment
        } else {
            instance_size
        }
    }

    /// Creates the bookkeeping for a buffer of `instance_count` instances of
    /// `instance_size` bytes each, laid out at the stride `get_alignment`
    /// computes. The buffer starts unmapped, zero-filled and with no pending
    /// host writes.
    pub fn new(
        instance_size: u64,
        instance_count: u32,
        usage_flags: u32,
        memory_property_flags: u32,
        min_offset_alignment: Option<u64>,
    ) -> (buffer: Self)
        requires
            (match min_offset_alignment {
                Some(a) => a >= 1 ==> instance_size + a - 1 <= u64::MAX,
                None => true,
            }),
            spec_alignment(instance_size, min_offset_alignment) * instance_count <= usize::MAX,
        ensures
            buffer.wf(),
            buffer.spec_instance_size() == instance_size,
            buffer.spec_alignment_size() == spec_alignment(instance_size, min_offset_alignment),
            buffer.spec_buffer_size() == spec_alignment(instance_size, min_offset_alignment)
                * instance_count,
            !buffer.is_mapped(),
            buffer.is_gpu_visible(),
            buffer.is_coherent() == (memory_property_flags & MEMORY_PROPERTY_HOST_COHERENT != 0),
            buffer.spec_contents() == Seq::<u8>::new((buffer.spec_buffer_size()) as nat, |i: int| 0u8),
    {
        let alignment_size = match min_offset_alignment {
            Some(a) => Self::get_alignment(instance_size, a),
            None => instance_size,
        };
        proof {
            assert(alignment_size == spec_alignment(instance_size, min_offset_alignment));
        }
        let buffer_size = alignment_size * (instance_count as u64);
        let mut contents: Vec<u8> = Vec::new();
        let target: usize = buffer_size as usize;
        let mut i: usize = 0;
        while i < target
            invariant
                i <= target,
                contents@.len() == i,
                forall|j: int| 0 <= j < i ==> contents@[j] == 0u8,
            decreases target - i,
        {
            contents.push(0u8);
            i = i + 1;
        }
        proof {
            assert(contents@ =~= Seq::<u8>::new(target as nat, |i: int| 0u8));
        }
        VRTBuffer {
            instance_size,
            instance_count,
            alignment_size,
            usage_flags,
            memory_property_flags,
            contents,
            mapped: None,
            pending_host_writes: false,
        }
    }

    /// Maps `size` bytes starting at `offset` into host address space.
    /// `None` defaults to offset zero and to the whole remaining buffer
    /// (`WHOLE_SIZE`). Fails with `OutOfBufferBounds` exactly when the
    /// requested range reaches past the buffer.
    pub fn map(&mut self, size: Option<u64>, offset: Option<u64>) -> (r: VkResult<()>)
        requires
            old(self).wf(),
        ensures
            final(self).wf(),
            ({
                let off = match offset {
                    Some(o) => o as int,
                    None => 0,
                };
                let len = match size {
                    Some(s) => if s == WHOLE_SIZE {
                        old(self).spec_buffer_size() - off
                    } else {
                        s as int
                    },
                    None => old(self).spec_buffer_size() - off,
                };
                if 0 <= len && off + len <= old(self).spec_buffer_size() {
                    r is Ok && final(self).spec_mapped() == Some(
                        MappedRange { offset: off as u64, size: len as u64 },
                    )
                } else {
                    r == VkResult::<()>::Err(VkError::OutOfBufferBounds) && *final(self) == *old(
                        self,
                    )
                }
            }),
            final(self).spec_contents() == old(self).spec_contents(),
            final(self).spec_buffer_size() == old(self).spec_buffer_size(),
            final(self).is_gpu_visible() == old(self).is_gpu_visible(),
    {
        let buffer_size = self.buffer_size();
        let off = match offset {
            Some(o) => o,
            None => 0,
        };
        if off > buffer_size {
            return Err(VkError::OutOfBufferBounds);
        }
        let len = match size {
            Some(s) => if s == WHOLE_SIZE {
                buffer_size - off
            } else {
                s
            },
            None => buffer_size - off,
        };
        if len > buffer_size - off {
            return Err(VkError::OutOfBufferBounds);
        }
        self.mapped = Some(MappedRange { offset: off, size: len });
        Ok(())
    }

    /// Copies `data` into the mapped range, `offset` bytes past the start of
    /// the mapping. Fails with `NotMapped` when the buffer is not mapped,
    /// and with `OutOfBufferBounds` when the write would reach past the
    /// mapped range; on success exactly the written bytes change, and the
    /// write is pending until flushed unless the memory is coherent.
    pub fn write_to_buffer(&mut self, data: &Vec<u8>, offset: u64) -> (r: VkResult<()>)
        requires
            old(self).wf(),
        ensures
            final(self).wf(),
            !old(self).is_mapped() ==> r == VkResult::<()>::Err(VkError::NotMapped) && *final(self)
                == *old(self),
            (old(self).is_mapped() && (offset + data@.len()
                > old(self).spec_mapped()->Some_0.size)) ==> r == VkResult::<()>::Err(
                VkError::OutOfBufferBounds,
            ) && *final(self) == *old(self),
            (old(self).is_mapped() && offset + data@.len() <= old(self).spec_mapped()->Some_0.size)
                ==> ({
                let start = old(self).spec_mapped()->Some_0.offset + offset;
                &&& r is Ok
                &&& final(self).spec_contents().len() == old(self).spec_contents().len()
                &&& forall|i: int|
                    0 <= i < data@.len() ==> final(self).spec_contents()[start + i] == data@[i]
                &&& forall|i: int|
                    0 <= i < final(self).spec_contents().len() && !(start <= i < start
                        + data@.len()) ==> final(self).spec_contents()[i] == old(
                        self,
                    ).spec_contents()[i]
                &&& final(self).is_gpu_visible() == final(self).is_coherent()
            }),
            final(self).spec_mapped() == old(self).spec_mapped(),
            final(self).spec_buffer_size() == old(self).spec_buffer_size(),
    {
        let range = match self.mapped {
            Some(r) => r,
            None => {
                return Err(VkError::NotMapped);
            },
        };
        let len = data.len();
        if offset > range.size || (len as u64) > range.size - offset {
            return Err(VkError::OutOfBufferBounds);
        }
        let start = (range.offset + offset) as usize;
        let mut i: usize = 0;
        while i < len
            invariant
                i <= len,
                len == data@.len(),
                start + len <= self.contents@.len(),
                self.contents@.len() <= usize::MAX,
                self.contents@.len() == old(self).contents@.len(),
                forall|j: int| 0 <= j < i ==> self.contents@[start + j] == data@[j],
                forall|j: int|
                    0 <= j < self.contents@.len() && !(start <= j < start + i)
                        ==> self.contents@[j] == old(self).contents@[j],
                self.instance_size == old(self).instance_size,
                self.instance_count == old(self).instance_count,
                self.alignment_size == old(self).alignment_size,
                self.usage_flags == old(self).usage_flags,
                self.memory_property_flags == old(self).memory_property_flags,
                self.mapped == old(self).mapped,
                self.pending_host_writes == old(self).pending_host_writes,
            decreases len - i,
        {
            let byte = data[i];
            self.contents.set(start + i, byte);
            i = i + 1;
        }
        self.pending_host_writes = true;
        Ok(())
    }

    /// Marks every host write so far as flushed to the device: afterwards
    /// the contents are guaranteed visible to the GPU. Fails with
    /// `NotMapped` when the buffer is not mapped. On coherent memory the
    /// call is a permitted no-op in the underlying API; the bookkeeping is
    /// the same.
    pub fn flush(&mut self, _size: u64, _offset: u64) -> (r: VkResult<()>)
        requires
            old(self).wf(),
        ensures
            final(self).wf(),
            !old(self).is_mapped() ==> r == VkResult::<()>::Err(VkError::NotMapped) && *final(self)
                == *old(self),
            old(self).is_mapped() ==> r is Ok && final(self).is_gpu_visible(),
            final(self).spec_contents() == old(self).spec_contents(),
            final(self).spec_mapped() == old(self).spec_mapped(),
            final(self).spec_buffer_size() == old(self).spec_buffer_size(),
    {
        if self.mapped.is_none() {
            return Err(VkError::NotMapped);
        }
        self.pending_host_writes = false;
        Ok(())
    }

    /// Removes the host mapping. Idempotent; the contents are untouched.
    pub fn unmap(&mut self)
        requires
            old(self).wf(),
        ensures
            final(self).wf(),
            !final(self).is_mapped(),
            final(self).spec_contents() == old(self).spec_contents(),
            final(self).spec_buffer_size() == old(self).spec_buffer_size(),
            final(self).is_gpu_visible() == old(self).is_gpu_visible(),
    {
        self.mapped = None;
    }

    /// The currently mapped range, if any.
    pub fn get_mapped_memory(&self) -> (r: Option<MappedRange>)
        ensures
            r == self.spec_mapped(),
    {
        self.mapped
    }

    /// Total byte length of the buffer.
    pub fn buffer_size(&self) -> (r: u64)
        requires
            self.wf(),
        ensures
            r == self.spec_buffer_size(),
    {
        self.alignment_size * (self.instance_count as u64)
    }

    /// The per-instance stride the buffer was created with.
    pub fn alignment_size(&self) -> (r: u64)
        ensures
            r == self.spec_alignment_size(),
    {
        self.alignment_size
    }

    /// The byte at `index`, as the GPU would read it once visible.
    pub fn byte_at(&self, index: u64) -> (b: u8)
        requires
            self.wf(),
            index < self.spec_buffer_size(),
        ensures
            b == self.spec_contents()[index as int],
    {
        self.contents[index as usize]
    }

    /// Describes the first `range` bytes of the buffer for a descriptor
    /// write.
    pub fn get_buffer_info(&self, range: u64) -> (info: DescriptorBufferInfo)
        requires
            self.wf(),
            range <= self.spec_buffer_size(),
        ensures
            info.offset == 0,
            info.range == range,
    {
        DescriptorBufferInfo { offset: 0, range }
    }

    /// Whether every host write so far is guaranteed visible to the GPU.
    pub fn gpu_visible(&self) -> (r: bool)
        ensures
            r == self.is_gpu_visible(),
    {
        let coherent = self.memory_property_flags & MEMORY_PROPERTY_HOST_COHERENT != 0;
        coherent || !self.pending_host_writes
    }
}

} // verus!
