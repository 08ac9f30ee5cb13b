//! Descriptor layouts, pool budgets, and batched descriptor writes.
//!
//! A [`VRTDescriptorSetLayout`] is an immutable ordered list of bindings. A
//! [`VRTDescriptorPool`] owns a fixed budget of sets and per-kind
//! descriptor counts declared at construction — it never grows, and
//! allocation fails with a typed error once a budget is consumed. A
//! [`VRTDescriptorWriter`] accumulates writes validated against the target
//! layout and builds one fully-written set in a single batched update, so a
//! partially-bound set is never observable.

use crate::buffer::DescriptorBufferInfo;
use crate::error::{VkError, VkResult};
use vstd::prelude::*;

verus! {

/// Number of descriptor kinds this design distinguishes.
pub const NUM_DESCRIPTOR_TYPES: usize = 6;

/// The kind of resource a descriptor binds.
#[derive(Clone, Copy, Debug, PartialEq, Eq, Structural)]
pub enum DescriptorType {
    UniformBuffer,
    StorageBuffer,
    UniformBufferDynamic,
    StorageBufferDynamic,
    CombinedImageSampler,
    Sampler,
}

/// A dense index for each descriptor kind, for the pool's budget tables.
pub open spec fn spec_type_index(t: DescriptorType) -> int {
    match t {
        DescriptorType::UniformBuffer => 0,
        DescriptorType::StorageBuffer => 1,
        DescriptorType::UniformBufferDynamic => 2,
        DescriptorType::StorageBufferDynamic => 3,
        DescriptorType::CombinedImageSampler => 4,
        DescriptorType::Sampler => 5,
    }
}

impl DescriptorType {
    /// The kind's index into the pool's budget tables.
    pub fn index(self) -> (i: usize)
        ensures
            i == spec_type_index(self),
            i < NUM_DESCRIPTOR_TYPES,
    {
        match self {
            DescriptorType::UniformBuffer => 0,
            DescriptorType::StorageBuffer => 1,
            DescriptorType::UniformBufferDynamic => 2,
            DescriptorType::StorageBufferDynamic => 3,
            DescriptorType::CombinedImageSampler => 4,
            DescriptorType::Sampler => 5,
        }
    }

    /// Whether a buffer region is the right resource for this kind.
    pub open spec fn spec_is_buffer_kind(self) -> bool {
        match self {
            DescriptorType::UniformBuffer => true,
            DescriptorType::StorageBuffer => true,
            DescriptorType::UniformBufferDynamic => true,
            DescriptorType::StorageBufferDynamic => true,
            DescriptorType::CombinedImageSampler => false,
            DescriptorType::Sampler => false,
        }
    }

    pub fn is_buffer_kind(self) -> (b: bool)
        ensures
            b == self.spec_is_buffer_kind(),
    {
        match self {
            DescriptorType::UniformBuffer => true,
            DescriptorType::StorageBuffer => true,
            DescriptorType::UniformBufferDynamic => true,
            DescriptorType::StorageBufferDynamic => true,
            DescriptorType::CombinedImageSampler => false,
            DescriptorType::Sampler => false,
        }
    }
}

/// One declared binding of a layout.
#[derive(Clone, Copy, Debug, PartialEq, Eq, Structural)]
pub struct LayoutBinding {
    /// The binding slot shaders address.
    pub binding: u32,
    /// The kind of resource bound there.
    pub descriptor_type: DescriptorType,
    /// Shader stage flag bits the binding is visible to.
    pub stage_flags: u32,
    /// Array length of the binding.
    pub count: u32,
}

/// The layout's slots are pairwise distinct.
pub open spec fn spec_bindings_distinct(bindings: Seq<LayoutBinding>) -> bool {
    forall|i: int, j: int|
        0 <= i < j < bindings.len() ==> bindings[i].binding != bindings[j].binding
}

/// `slot` is declared somewhere in `bindings`.
pub open spec fn spec_declares(bindings: Seq<LayoutBinding>, slot: u32) -> bool {
    exists|i: int| 0 <= i < bindings.len() && bindings[i].binding == slot
}

/// An immutable, ordered list of bindings; a set written against it must
/// supply exactly these bindings.
#[derive(Debug)]
pub struct VRTDescriptorSetLayout {
    bindings: Vec<LayoutBinding>,
}

impl VRTDescriptorSetLayout {
    pub closed spec fn spec_bindings(self) -> Seq<LayoutBinding> {
        self.bindings@
    }

    pub open spec fn wf(self) -> bool {
        spec_bindings_distinct(self.spec_bindings())
    }

    /// Number of declared bindings.
    pub fn num_bindings(&self) -> (n: usize)
        ensures
            n == self.spec_bindings().len(),
    {
        self.bindings.len()
    }

    /// The `i`-th declared binding, in declaration order.
    pub fn binding_at(&self, i: usize) -> (b: LayoutBinding)
        requires
            i < self.spec_bindings().len(),
        ensures
            b == self.spec_bindings()[i as int],
    {
        self.bindings[i]
    }

    /// Looks a slot up; returns its declaration exactly when the layout
    /// declares it.
    pub fn find_binding(&self, slot: u32) -> (r: Option<LayoutBinding>)
        ensures
            r is Some <==> spec_declares(self.spec_bindings(), slot),
            r matches Some(b) ==> b.binding == slot && self.spec_bindings().contains(b),
    {
        let len = self.bindings.len();
        let mut i: usize = 0;
        while i < len
            invariant
                i <= len,
                len == self.bindings@.len(),
                forall|j: int| 0 <= j < i ==> self.bindings@[j].binding != slot,
            decreases len - i,
        {
            if self.bindings[i].binding == slot {
                return Some(self.bindings[i]);
            }
            i = i + 1;
        }
        None
    }
}

/// Accumulates bindings and produces an immutable layout.
#[derive(Debug)]
pub struct VRTDescriptorSetLayoutBuilder {
    bindings: Vec<LayoutBinding>,
}

impl VRTDescriptorSetLayoutBuilder {
    pub closed spec fn spec_bindings(self) -> Seq<LayoutBinding> {
        self.bindings@
    }

    pub open spec fn wf(self) -> bool {
        spec_bindings_distinct(self.spec_bindings())
    }

    /// An empty builder.
    pub fn new() -> (r: Self)
        ensures
            r.wf(),
            r.spec_bindings() =~= Seq::<LayoutBinding>::empty(),
    {
        VRTDescriptorSetLayoutBuilder { bindings: Vec::new() }
    }

    /// Declares one binding; a count of `None` means one. Fails with
    /// `DuplicateBinding` exactly when the slot was already declared.
    pub fn add_binding(
        self,
        binding: u32,
        descriptor_type: DescriptorType,
        stage_flags: u32,
        count: Option<u32>,
    ) -> (r: VkResult<Self>)
        requires
            self.wf(),
        ensures
            r is Ok <==> !spec_declares(self.spec_bindings(), binding),
            r matches Ok(b) ==> b.wf() && b.spec_bindings() == self.spec_bindings().push(
                LayoutBinding {
                    binding,
                    descriptor_type,
                    stage_flags,
                    count: (match count {
                        Some(c) => c,
                        None => 1u32,
                    }),
                },
            ),
            r is Err ==> r == VkResult::<Self>::Err(VkError::DuplicateBinding),
    {
        let len = self.bindings.len();
        let mut i: usize = 0;
        while i < len
            invariant
                i <= len,
                len == self.bindings@.len(),
                forall|j: int| 0 <= j < i ==> self.bindings@[j].binding != binding,
            decreases len - i,
        {
            if self.bindings[i].binding == binding {
                return Err(VkError::DuplicateBinding);
            }
            i = i + 1;
        }
        let mut bindings = self.bindings;
        bindings.push(
            LayoutBinding {
                binding,
                descriptor_type,
                stage_flags,
                count: (match count {
                    Some(c) => c,
                    None => 1u32,
                }),
            },
        );
        Ok(VRTDescriptorSetLayoutBuilder { bindings })
    }

    /// Freezes the accumulated bindings into an immutable layout.
    pub fn build(self) -> (layout: VRTDescriptorSetLayout)
        requires
            self.wf(),
        ensures
            layout.wf(),
            layout.spec_bindings() == self.spec_bindings(),
    {
        VRTDescriptorSetLayout { bindings: self.bindings }
    }
}

/// How many descriptors of the kind indexed `t` a layout consumes: the sum
/// of the counts of its bindings of that kind.
pub open spec fn spec_demand(bindings: Seq<LayoutBinding>, t: int) -> int
    decreases bindings.len(),
{
    if bindings.len() == 0 {
        0
    } else {
        spec_demand(bindings.drop_last(), t) + if spec_type_index(
            bindings.last().descriptor_type,
        ) == t {
            bindings.last().count as int
        } else {
            0
        }
    }
}

/// The demand of a layout never goes below zero.
proof fn lemma_demand_nonneg(bindings: Seq<LayoutBinding>, t: int)
    ensures
        spec_demand(bindings, t) >= 0,
    decreases bindings.len(),
{
    if bindings.len() > 0 {
        lemma_demand_nonneg(bindings.drop_last(), t);
    }
}

/// Computes `spec_demand` for one descriptor kind.
fn demand_of(layout: &VRTDescriptorSetLayout, t: usize) -> (d: u64)
    requires
        layout.spec_bindings().len() <= u32::MAX,
    ensures
        d == spec_demand(layout.spec_bindings(), t as int),
{
    let len = layout.num_bindings();
    let mut d: u64 = 0;
    let mut i: usize = 0;
    while i < len
        invariant
            i <= len,
            len == layout.spec_bindings().len(),
            len <= u32::MAX,
            d == spec_demand(layout.spec_bindings().take(i as int), t as int),
            d <= (i as int) * (u32::MAX as int),
        decreases len - i,
    {
        let binding = layout.binding_at(i);
        proof {
            let bs = layout.spec_bindings();
            assert(bs.take((i + 1) as int).drop_last() =~= bs.take(i as int));
            assert(bs.take((i + 1) as int).last() == bs[i as int]);
            assert((i as int) * (u32::MAX as int) + u32::MAX <= ((i + 1) as int) * (
            u32::MAX as int)) by (nonlinear_arith);
            assert(((i + 1) as int) * (u32::MAX as int) <= (u32::MAX as int) * (u32::MAX as int))
                by (nonlinear_arith)
                requires
                    (i + 1) as int <= u32::MAX as int,
            ;
            assert((u32::MAX as int) * (u32::MAX as int) <= u64::MAX as int) by (nonlinear_arith);
        }
        if binding.descriptor_type.index() == t {
            d = d + (binding.count as u64);
        }
        i = i + 1;
        proof {
            lemma_demand_nonneg(layout.spec_bindings().take(i as int), t as int);
        }
    }
    proof {
        assert(layout.spec_bindings().take(len as int) =~= layout.spec_bindings());
    }
    d
}

/// A handle for one allocated descriptor set: its sequence number within
/// its pool.
#[derive(Clone, Copy, Debug, PartialEq, Eq, Structural)]
pub struct DescriptorSetHandle {
    /// 0 for the pool's first set, 1 for the second, and so on.
    pub set_index: u32,
}

/// A fixed budget of descriptor sets and per-kind descriptor counts,
/// declared at construction and never grown.
#[derive(Debug)]
pub struct VRTDescriptorPool {
    max_sets: u32,
    remaining_sets: u32,
    budget: Vec<u32>,
    remaining: Vec<u32>,
}

impl VRTDescriptorPool {
    pub closed spec fn spec_max_sets(self) -> u32 {
        self.max_sets
    }

    pub closed spec fn spec_remaining_sets(self) -> u32 {
        self.remaining_sets
    }

    /// The declared budget for the kind indexed `t`.
    pub closed spec fn spec_budget(self, t: int) -> u32 {
        self.budget@[t]
    }

    /// What is left of the budget for the kind indexed `t`.
    pub closed spec fn spec_remaining(self, t: int) -> u32 {
        self.remaining@[t]
    }

    pub closed spec fn wf(self) -> bool {
        &&& self.budget@.len() == NUM_DESCRIPTOR_TYPES
        &&& self.remaining@.len() == NUM_DESCRIPTOR_TYPES
        &&& self.remaining_sets <= self.max_sets
        &&& forall|t: int|
            0 <= t < NUM_DESCRIPTOR_TYPES ==> self.remaining@[t] <= self.budget@[t]
    }

    /// The pool can serve one set of `layout`: a set slot is left and every
    /// kind's remaining budget covers the layout's demand.
    pub open spec fn spec_can_allocate(self, bindings: Seq<LayoutBinding>) -> bool {
        &&& self.spec_remaining_sets() >= 1
        &&& forall|t: int|
            0 <= t < NUM_DESCRIPTOR_TYPES ==> spec_demand(bindings, t) <= self.spec_remaining(t)
    }

    /// Allocates one set against `layout` out of the pool's budget. Fails
    /// with `PoolExhausted`, leaving the pool untouched, exactly when the
    /// set budget or any kind's descriptor budget cannot cover the layout;
    /// the pool never grows. On success the budgets shrink by the layout's
    /// demand and the handle numbers the set within the pool.
    pub fn allocate_descriptor(&mut self, layout: &VRTDescriptorSetLayout) -> (r: VkResult<
        DescriptorSetHandle,
    >)
        requires
            old(self).wf(),
            layout.spec_bindings().len() <= u32::MAX,
        ensures
            final(self).wf(),
            r is Ok <==> old(self).spec_can_allocate(layout.spec_bindings()),
            r is Err ==> r == VkResult::<DescriptorSetHandle>::Err(VkError::PoolExhausted)
                && *final(self) == *old(self),
            r matches Ok(h) ==> {
                &&& h.set_index == old(self).spec_max_sets() - old(self).spec_remaining_sets()
                &&& final(self).spec_max_sets() == old(self).spec_max_sets()
                &&& final(self).spec_remaining_sets() == old(self).spec_remaining_sets() - 1
                &&& forall|t: int|
                    0 <= t < NUM_DESCRIPTOR_TYPES ==> final(self).spec_budget(t) == old(
                        self,
                    ).spec_budget(t)
                &&& forall|t: int|
                    0 <= t < NUM_DESCRIPTOR_TYPES ==> final(self).spec_remaining(t) == old(
                        self,
                    ).spec_remaining(t) - spec_demand(layout.spec_bindings(), t)
            },
    {
        if self.remaining_sets == 0 {
            return Err(VkError::PoolExhausted);
        }
        let mut t: usize = 0;
        while t < NUM_DESCRIPTOR_TYPES
            invariant
                t <= NUM_DESCRIPTOR_TYPES,
                self == old(self),
                old(self).wf(),
                layout.spec_bindings().len() <= u32::MAX,
                forall|u: int|
                    0 <= u < t ==> spec_demand(layout.spec_bindings(), u) <= old(
                        self,
                    ).spec_remaining(u),
            decreases NUM_DESCRIPTOR_TYPES - t,
        {
            let d = demand_of(layout, t);
            if d > (self.remaining[t] as u64) {
                return Err(VkError::PoolExhausted);
            }
            t = t + 1;
        }
        let handle = DescriptorSetHandle { set_index: self.max_sets - self.remaining_sets };
        self.remaining_sets = self.remaining_sets - 1;
        let mut t: usize = 0;
        while t < NUM_DESCRIPTOR_TYPES
            invariant
                t <= NUM_DESCRIPTOR_TYPES,
                layout.spec_bindings().len() <= u32::MAX,
                old(self).wf(),
                self.max_sets == old(self).max_sets,
                self.remaining_sets == old(self).remaining_sets - 1,
                self.budget == old(self).budget,
                self.remaining@.len() == NUM_DESCRIPTOR_TYPES,
                forall|u: int|
                    0 <= u < NUM_DESCRIPTOR_TYPES ==> spec_demand(layout.spec_bindings(), u) <= old(
                        self,
                    ).spec_remaining(u),
                forall|u: int|
                    0 <= u < t ==> self.remaining@[u] == old(self).spec_remaining(u) - spec_demand(
                        layout.spec_bindings(),
                        u,
                    ),
                forall|u: int|
                    t <= u < NUM_DESCRIPTOR_TYPES ==> self.remaining@[u] == old(
                        self,
                    ).spec_remaining(u),
            decreases NUM_DESCRIPTOR_TYPES - t,
        {
            let d = demand_of(layout, t);
            proof {
                lemma_demand_nonneg(layout.spec_bindings(), t as int);
            }
            let left = self.remaining[t];
            self.remaining.set(t, left - (d as u32));
            t = t + 1;
        }
        proof {
            assert forall|u: int|
                0 <= u < NUM_DESCRIPTOR_TYPES implies self.remaining@[u] <= self.budget@[u] by {
                lemma_demand_nonneg(layout.spec_bindings(), u);
            }
        }
        Ok(handle)
    }
}

/// One declared pool budget line: so many descriptors of one kind.
#[derive(Clone, Copy, Debug, PartialEq, Eq, Structural)]
pub struct PoolSize {
    pub descriptor_type: DescriptorType,
    pub count: u32,
}

/// Accumulates budget lines and produces a pool.
#[derive(Debug)]
pub struct VRTDescriptorPoolBuilder {
    pool_sizes: Vec<PoolSize>,
    pool_flags: u32,
    max_sets: u32,
}

/// The budget a list of pool-size lines declares for the kind indexed `t`:
/// the sum of the counts of its lines of that kind.
pub open spec fn spec_pool_budget(sizes: Seq<PoolSize>, t: int) -> int
    decreases sizes.len(),
{
    if sizes.len() == 0 {
        0
    } else {
        spec_pool_budget(sizes.drop_last(), t) + if spec_type_index(
            sizes.last().descriptor_type,
        ) == t {
            sizes.last().count as int
        } else {
            0
        }
    }
}

impl VRTDescriptorPoolBuilder {
    pub closed spec fn spec_pool_sizes(self) -> Seq<PoolSize> {
        self.pool_sizes@
    }

    pub closed spec fn spec_max_sets(self) -> u32 {
        self.max_sets
    }

    /// An empty builder, with the conventional default of 1000 sets.
    pub fn new() -> (r: Self)
        ensures
            r.spec_pool_sizes() =~= Seq::<PoolSize>::empty(),
            r.spec_max_sets() == 1000,
    {
        VRTDescriptorPoolBuilder { pool_sizes: Vec::new(), pool_flags: 0, max_sets: 1000 }
    }

    /// Adds `count` descriptors of one kind to the declared budget.
    pub fn add_pool_size(self, descriptor_type: DescriptorType, count: u32) -> (r: Self)
        ensures
            r.spec_pool_sizes() == self.spec_pool_sizes().push(
                PoolSize { descriptor_type, count },
            ),
            r.spec_max_sets() == self.spec_max_sets(),
    {
        let mut pool_sizes = self.pool_sizes;
        pool_sizes.push(PoolSize { descriptor_type, count });
        VRTDescriptorPoolBuilder { pool_sizes, pool_flags: self.pool_flags, max_sets: self.max_sets }
    }

    /// Records the pool's creation flag bits; they do not affect the
    /// budget.
    pub fn set_pool_flags(self, pool_flags: u32) -> (r: Self)
        ensures
            r.spec_pool_sizes() == self.spec_pool_sizes(),
            r.spec_max_sets() == self.spec_max_sets(),
    {
        VRTDescriptorPoolBuilder { pool_sizes: self.pool_sizes, pool_flags, max_sets: self.max_sets }
    }

    /// Declares how many sets the pool may hand out.
    pub fn set_max_sets(self, max_sets: u32) -> (r: Self)
        ensures
            r.spec_pool_sizes() == self.spec_pool_sizes(),
            r.spec_max_sets() == max_sets,
    {
        VRTDescriptorPoolBuilder { pool_sizes: self.pool_sizes, pool_flags: self.pool_flags, max_sets }
    }

    /// Freezes the declared budget into a pool with everything unconsumed.
    pub fn build(&self) -> (pool: VRTDescriptorPool)
        requires
            self.spec_pool_sizes().len() <= u32::MAX,
            forall|t: int|
                0 <= t < NUM_DESCRIPTOR_TYPES ==> spec_pool_budget(self.spec_pool_sizes(), t)
                    <= u32::MAX,
        ensures
            pool.wf(),
            pool.spec_max_sets() == self.spec_max_sets(),
            pool.spec_remaining_sets() == self.spec_max_sets(),
            forall|t: int|
                0 <= t < NUM_DESCRIPTOR_TYPES ==> pool.spec_budget(t) == spec_pool_budget(
                    self.spec_pool_sizes(),
                    t,
                ) && pool.spec_remaining(t) == spec_pool_budget(self.spec_pool_sizes(), t),
    {
        let mut budget: Vec<u32> = Vec::new();
        let mut remaining: Vec<u32> = Vec::new();
        let mut t: usize = 0;
        while t < NUM_DESCRIPTOR_TYPES
            invariant
                t <= NUM_DESCRIPTOR_TYPES,
                self.spec_pool_sizes().len() <= u32::MAX,
                forall|u: int|
                    0 <= u < NUM_DESCRIPTOR_TYPES ==> spec_pool_budget(self.spec_pool_sizes(), u)
                        <= u32::MAX,
                budget@.len() == t,
                remaining@.len() == t,
                forall|u: int|
                    0 <= u < t ==> budget@[u] == spec_pool_budget(self.spec_pool_sizes(), u)
                        && remaining@[u] == spec_pool_budget(self.spec_pool_sizes(), u),
            decreases NUM_DESCRIPTOR_TYPES - t,
        {
            let b = self.budget_of(t);
            budget.push(b as u32);
            remaining.push(b as u32);
            t = t + 1;
        }
        VRTDescriptorPool {
            max_sets: self.max_sets,
            remaining_sets: self.max_sets,
            budget,
            remaining,
        }
    }

    /// Computes `spec_pool_budget` for one descriptor kind.
    fn budget_of(&self, t: usize) -> (d: u64)
        requires
            self.spec_pool_sizes().len() <= u32::MAX,
        ensures
            d == spec_pool_budget(self.spec_pool_sizes(), t as int),
    {
        let len = self.pool_sizes.len();
        let mut d: u64 = 0;
        let mut i: usize = 0;
        while i < len
            invariant
                i <= len,
                len == self.spec_pool_sizes().len(),
                len <= u32::MAX,
                d == spec_pool_budget(self.spec_pool_sizes().take(i as int), t as int),
                d <= (i as int) * (u32::MAX as int),
            decreases len - i,
        {
            let line = self.pool_sizes[i];
            proof {
                let sizes = self.spec_pool_sizes();
                assert(sizes.take((i + 1) as int).drop_last() =~= sizes.take(i as int));
                assert(sizes.take((i + 1) as int).last() == sizes[i as int]);
                assert((i as int) * (u32::MAX as int) + u32::MAX <= ((i + 1) as int) * (
                u32::MAX as int)) by (nonlinear_arith);
                assert(((i + 1) as int) * (u32::MAX as int) <= (u32::MAX as int) * (
                u32::MAX as int)) by (nonlinear_arith)
                    requires
                        (i + 1) as int <= u32::MAX as int,
                ;
                assert((u32::MAX as int) * (u32::MAX as int) <= u64::MAX as int) by (
                nonlinear_arith);
            }
            if line.descriptor_type.index() == t {
                d = d + (line.count as u64);
            }
            i = i + 1;
            proof {
                lemma_pool_budget_nonneg(self.spec_pool_sizes().take(i as int), t as int);
            }
        }
        proof {
            assert(self.spec_pool_sizes().take(len as int) =~= self.spec_pool_sizes());
        }
        d
    }
}

/// The declared budget never goes below zero.
proof fn lemma_pool_budget_nonneg(sizes: Seq<PoolSize>, t: int)
    ensures
        spec_pool_budget(sizes, t) >= 0,
    decreases sizes.len(),
{
    if sizes.len() > 0 {
        lemma_pool_budget_nonneg(sizes.drop_last(), t);
    }
}

/// One accumulated descriptor write: a buffer region for a binding slot.
#[derive(Clone, Copy, Debug, PartialEq, Eq, Structural)]
pub struct BufferWrite {
    /// The slot written.
    pub binding: u32,
    /// The buffer region bound there.
    pub info: DescriptorBufferInfo,
}

/// Some accumulated write targets `slot`.
pub open spec fn spec_slot_written(writes: Seq<BufferWrite>, slot: u32) -> bool {
    exists|w: int| 0 <= w < writes.len() && (#[trigger] writes[w]).binding == slot
}

/// `writes` supplies every binding `bindings` declares.
pub open spec fn spec_writes_cover(writes: Seq<BufferWrite>, bindings: Seq<LayoutBinding>) -> bool {
    forall|i: int|
        0 <= i < bindings.len() ==> spec_slot_written(writes, (#[trigger] bindings[i]).binding)
}

/// A fully-written descriptor set: the batched update that produced it
/// supplied every binding its layout declares, so no partially-bound set is
/// ever observable.
#[derive(Debug)]
pub struct DescriptorSet {
    handle: DescriptorSetHandle,
    bindings: Vec<LayoutBinding>,
    writes: Vec<BufferWrite>,
}

impl DescriptorSet {
    pub closed spec fn spec_handle(self) -> DescriptorSetHandle {
        self.handle
    }

    pub closed spec fn spec_bindings(self) -> Seq<LayoutBinding> {
        self.bindings@
    }

    pub closed spec fn spec_writes(self) -> Seq<BufferWrite> {
        self.writes@
    }

    /// The set's sequence number within its pool.
    pub fn handle(&self) -> (h: DescriptorSetHandle)
        ensures
            h == self.spec_handle(),
    {
        self.handle
    }

    /// Number of writes the batched update performed.
    pub fn num_writes(&self) -> (n: usize)
        ensures
            n == self.spec_writes().len(),
    {
        self.writes.len()
    }

    /// The `i`-th write of the batched update.
    pub fn write_at(&self, i: usize) -> (w: BufferWrite)
        requires
            i < self.spec_writes().len(),
        ensures
            w == self.spec_writes()[i as int],
    {
        self.writes[i]
    }
}

/// Accumulates buffer writes against a target layout and builds one
/// fully-written set in a single batched update.
#[derive(Debug)]
pub struct VRTDescriptorWriter<'a> {
    layout: &'a VRTDescriptorSetLayout,
    writes: Vec<BufferWrite>,
}

impl<'a> VRTDescriptorWriter<'a> {
    pub closed spec fn spec_layout_bindings(self) -> Seq<LayoutBinding> {
        self.layout.spec_bindings()
    }

    pub closed spec fn spec_writes(self) -> Seq<BufferWrite> {
        self.writes@
    }

    /// The layout's slots are distinct, and the writes so far target
    /// distinct slots that the layout declares.
    pub open spec fn wf(self) -> bool {
        &&& spec_bindings_distinct(self.spec_layout_bindings())
        &&& forall|i: int, j: int|
            0 <= i < j < self.spec_writes().len() ==> self.spec_writes()[i].binding
                != self.spec_writes()[j].binding
        &&& forall|i: int|
            0 <= i < self.spec_writes().len() ==> spec_declares(
                self.spec_layout_bindings(),
                self.spec_writes()[i].binding,
            )
    }

    /// A writer with no writes yet, targeting `layout`.
    pub fn new(layout: &'a VRTDescriptorSetLayout) -> (r: Self)
        requires
            layout.wf(),
        ensures
            r.wf(),
            r.spec_layout_bindings() == layout.spec_bindings(),
            r.spec_writes() =~= Seq::<BufferWrite>::empty(),
    {
        VRTDescriptorWriter { layout, writes: Vec::new() }
    }

    /// Accumulates one buffer write for `binding`, validated against the
    /// layout: the slot must be declared, must take a buffer, and must not
    /// have been written already.
    pub fn write_buffer(self, binding: u32, buffer_info: DescriptorBufferInfo) -> (r: VkResult<
        Self,
    >)
        requires
            self.wf(),
        ensures
            r matches Ok(w) ==> {
                &&& w.wf()
                &&& w.spec_layout_bindings() == self.spec_layout_bindings()
                &&& w.spec_writes() == self.spec_writes().push(
                    BufferWrite { binding, info: buffer_info },
                )
            },
            r is Ok <==> {
                &&& spec_declares(self.spec_layout_bindings(), binding)
                &&& (forall|i: int|
                    0 <= i < self.spec_layout_bindings().len()
                        && self.spec_layout_bindings()[i].binding == binding
                        ==> self.spec_layout_bindings()[i].descriptor_type.spec_is_buffer_kind())
                &&& (forall|i: int|
                    0 <= i < self.spec_writes().len() ==> self.spec_writes()[i].binding != binding)
            },
            r is Err ==> (r == VkResult::<Self>::Err(VkError::UnknownBinding) || r == VkResult::<
                Self,
            >::Err(VkError::BindingTypeMismatch) || r == VkResult::<Self>::Err(
                VkError::DuplicateBinding,
            )),
    {
        let declared = match self.layout.find_binding(binding) {
            Some(b) => b,
            None => {
                return Err(VkError::UnknownBinding);
            },
        };
        if !declared.descriptor_type.is_buffer_kind() {
            proof {
                let bs = self.spec_layout_bindings();
                assert(bs.contains(declared));
                let m = choose|m: int| 0 <= m < bs.len() && bs[m] == declared;
                assert(bs[m].binding == binding && !bs[m].descriptor_type.spec_is_buffer_kind());
            }
            return Err(VkError::BindingTypeMismatch);
        }
        let len = self.writes.len();
        let mut i: usize = 0;
        while i < len
            invariant
                i <= len,
                len == self.writes@.len(),
                forall|j: int| 0 <= j < i ==> self.writes@[j].binding != binding,
            decreases len - i,
        {
            if self.writes[i].binding == binding {
                proof {
                    assert(self.spec_writes()[i as int].binding == binding);
                }
                return Err(VkError::DuplicateBinding);
            }
            i = i + 1;
        }
        proof {
            let bs = self.spec_layout_bindings();
            assert(bs.contains(declared));
            let m = choose|m: int| 0 <= m < bs.len() && bs[m] == declared;
            assert forall|k: int|
                0 <= k < bs.len() && bs[k].binding == binding implies bs[k].descriptor_type
                .spec_is_buffer_kind() by {
                if k != m {
                    assert(bs[k].binding != bs[m].binding);
                }
            }
            let ws = self.spec_writes();
            let v = BufferWrite { binding, info: buffer_info };
            let nw = ws.push(v);
            assert(forall|j: int| 0 <= j < ws.len() ==> ws[j].binding != binding);
            assert forall|a: int, b: int|
                0 <= a < b < nw.len() implies nw[a].binding != nw[b].binding by {
                assert(nw[a] == ws[a]);
                if b == ws.len() {
                    assert(nw[b] == v);
                } else {
                    assert(nw[b] == ws[b]);
                }
            }
            assert forall|a: int|
                0 <= a < nw.len() implies spec_declares(bs, nw[a].binding) by {
                if a == ws.len() {
                    assert(nw[a] == v);
                } else {
                    assert(nw[a] == ws[a]);
                }
            }
        }
        let mut writes = self.writes;
        writes.push(BufferWrite { binding, info: buffer_info });
        Ok(VRTDescriptorWriter { layout: self.layout, writes })
    }

    /// Allocates a set from `pool` and performs every accumulated write as
    /// one batched update. Fails with `IncompleteBindings`, leaving the
    /// pool untouched, exactly when some declared binding was not written —
    /// a partially-bound set is never produced — and with `PoolExhausted`
    /// exactly when the layout's demand exceeds what is left of the pool's
    /// budget.
    pub fn build(self, pool: &mut VRTDescriptorPool) -> (r: VkResult<DescriptorSet>)
        requires
            self.wf(),
            old(pool).wf(),
            self.spec_layout_bindings().len() <= u32::MAX,
        ensures
            final(pool).wf(),
            !spec_writes_cover(self.spec_writes(), self.spec_layout_bindings()) ==> r
                == VkResult::<DescriptorSet>::Err(VkError::IncompleteBindings) && *final(pool)
                == *old(pool),
            (spec_writes_cover(self.spec_writes(), self.spec_layout_bindings()) && !old(
                pool,
            ).spec_can_allocate(self.spec_layout_bindings())) ==> r == VkResult::<
                DescriptorSet,
            >::Err(VkError::PoolExhausted) && *final(pool) == *old(pool),
            (spec_writes_cover(self.spec_writes(), self.spec_layout_bindings()) && old(
                pool,
            ).spec_can_allocate(self.spec_layout_bindings())) ==> (r matches Ok(set) && {
                &&& set.spec_bindings() == self.spec_layout_bindings()
                &&& set.spec_writes() == self.spec_writes()
                &&& set.spec_handle().set_index == old(pool).spec_max_sets() - old(
                    pool,
                ).spec_remaining_sets()
                &&& final(pool).spec_remaining_sets() == old(pool).spec_remaining_sets() - 1
                &&& forall|t: int|
                    0 <= t < NUM_DESCRIPTOR_TYPES ==> final(pool).spec_remaining(t) == old(
                        pool,
                    ).spec_remaining(t) - spec_demand(self.spec_layout_bindings(), t)
            }),
    {
        let num_bindings = self.layout.num_bindings();
        let num_writes = self.writes.len();
        let mut i: usize = 0;
        while i < num_bindings
            invariant
                i <= num_bindings,
                num_bindings == self.spec_layout_bindings().len(),
                num_writes == self.spec_writes().len(),
                old(pool).wf(),
                *pool == *old(pool),
                forall|k: int|
                    0 <= k < i ==> spec_slot_written(
                        self.spec_writes(),
                        (#[trigger] self.spec_layout_bindings()[k]).binding,
                    ),
            decreases num_bindings - i,
        {
            let slot = self.layout.binding_at(i).binding;
            let mut w: usize = 0;
            let mut found = false;
            while w < num_writes
                invariant
                    w <= num_writes,
                    num_writes == self.spec_writes().len(),
                    found <==> exists|m: int|
                        0 <= m < w && (#[trigger] self.spec_writes()[m]).binding == slot,
                decreases num_writes - w,
            {
                if self.writes[w].binding == slot {
                    found = true;
                }
                w = w + 1;
            }
            if !found {
                return Err(VkError::IncompleteBindings);
            }
            i = i + 1;
        }
        let handle = match pool.allocate_descriptor(self.layout) {
            Ok(handle) => handle,
            Err(e) => {
                return Err(e);
            },
        };
        Ok(DescriptorSet { handle, bindings: clone_bindings(self.layout), writes: self.writes })
    }
}

/// Copies a layout's declarations into a set's own record of them.
fn clone_bindings(layout: &VRTDescriptorSetLayout) -> (r: Vec<LayoutBinding>)
    ensures
        r@ == layout.spec_bindings(),
{
    let len = layout.num_bindings();
    let mut r: Vec<LayoutBinding> = Vec::new();
    let mut i: usize = 0;
    while i < len
        invariant
            i <= len,
            len == layout.spec_bindings().len(),
            r@ =~= layout.spec_bindings().take(i as int),
        decreases len - i,
    {
        r.push(layout.binding_at(i));
        i = i + 1;
    }
    proof {
        assert(layout.spec_bindings().take(len as int) =~= layout.spec_bindings());
    }
    r
}

} // verus!
