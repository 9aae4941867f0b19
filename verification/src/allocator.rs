//! Packed-layout planning for single-block device memory allocations.
//!
//! Given the memory requirements of a group of resources created together,
//! the planner walks them in order, rounds the running size up to each
//! resource's alignment, records that as the resource's offset, and
//! intersects the allowed-memory-type bitmask across the group.  It then
//! selects the first memory type whose property flags cover the requested
//! ones and whose bit is set in the intersected mask.  The layout is
//! first-fit and order-preserving on purpose: determinism over density.

use vstd::prelude::*;

verus! {

/// Per-resource memory requirements: byte size, required alignment, and the
/// bitmask of memory types the resource can live in (bit `i` set means type
/// `i` is acceptable).
pub struct MemoryRequirements {
    pub size: u64,
    pub alignment: u64,
    pub memory_type_bits: u32,
}

/// One memory type of the device, described by its property flag bits.
pub struct MemoryType {
    pub property_flags: u32,
}

/// A computed single-block layout: one offset per resource, the block size,
/// and the selected memory type index.
#[derive(Debug)]
pub struct AllocationPlan {
    pub offsets: Vec<u64>,
    pub size: u64,
    pub memory_type_index: u32,
}

#[derive(PartialEq, Eq, Structural, Clone, Copy, Debug)]
pub enum AllocationError {
    /// The requirements list was empty.
    EmptyRequirements,
    /// No memory type satisfies every resource's bitmask and the requested
    /// property flags.
    IncompatibleMemory,
}

/// `n` rounded up to the next multiple of `a`.
pub open spec fn align_up(n: int, a: int) -> int {
    n + ((a - n % a) % a)
}

pub proof fn lemma_align_up(n: int, a: int)
    requires
        n >= 0,
        a >= 1,
    ensures
        align_up(n, a) % a == 0,
        n <= align_up(n, a) < n + a,
{
    let r = n % a;
    vstd::arithmetic::div_mod::lemma_mod_bound(n, a);
    vstd::arithmetic::div_mod::lemma_mod_self_0(a);
    if r != 0 {
        vstd::arithmetic::div_mod::lemma_small_mod((a - r) as nat, a as nat);
        assert(align_up(n, a) == n + (a - r));
        vstd::arithmetic::div_mod::lemma_add_mod_noop(n, a - r, a);
        assert((n + (a - r)) % a == ((n % a) + ((a - r) % a)) % a);
        assert((n + (a - r)) % a == a % a);
    }
}

/// The closed form of `align_up` on each side of divisibility.
pub proof fn lemma_align_up_parts(n: int, a: int)
    requires
        n >= 0,
        a >= 1,
    ensures
        n % a == 0 ==> align_up(n, a) == n,
        n % a != 0 ==> align_up(n, a) == n + a - n % a,
{
    let r = n % a;
    vstd::arithmetic::div_mod::lemma_mod_bound(n, a);
    vstd::arithmetic::div_mod::lemma_mod_self_0(a);
    if r != 0 {
        vstd::arithmetic::div_mod::lemma_small_mod((a - r) as nat, a as nat);
    }
}

/// Total packed size of the first `reqs.len()` resources: each one starts at
/// the running size rounded up to its alignment.
pub open spec fn layout_end(reqs: Seq<MemoryRequirements>) -> int
    decreases reqs.len(),
{
    if reqs.len() == 0 {
        0
    } else {
        let prev = layout_end(reqs.drop_last());
        align_up(prev, reqs.last().alignment as int) + reqs.last().size as int
    }
}

/// The packed offset of resource `i`.
pub open spec fn layout_offset(reqs: Seq<MemoryRequirements>, i: int) -> int {
    align_up(layout_end(reqs.take(i)), reqs[i].alignment as int)
}

/// Bitwise intersection of every resource's allowed-memory-type mask.
pub open spec fn combined_mask(reqs: Seq<MemoryRequirements>) -> u32
    decreases reqs.len(),
{
    if reqs.len() == 0 {
        0xffff_ffffu32
    } else {
        combined_mask(reqs.drop_last()) & reqs.last().memory_type_bits
    }
}

/// Whether memory type `j` serves the group: its property flags cover the
/// requested ones and its bit is set in the intersected mask.
pub open spec fn type_matches(
    types: Seq<MemoryType>,
    mask: u32,
    properties: u32,
    j: int,
) -> bool {
    &&& types[j].property_flags & properties == properties
    &&& (mask >> (j as u32)) & 1u32 == 1u32
}

/// All alignments in the group are at least one.
pub open spec fn alignments_valid(reqs: Seq<MemoryRequirements>) -> bool {
    forall|i: int| 0 <= i < reqs.len() ==> reqs[i].alignment >= 1
}

/// The packed size never shrinks as resources are added.
pub proof fn lemma_layout_end_monotone(reqs: Seq<MemoryRequirements>, i: int)
    requires
        0 <= i <= reqs.len(),
        alignments_valid(reqs),
    ensures
        layout_end(reqs.take(i)) <= layout_end(reqs),
        layout_end(reqs.take(i)) >= 0,
    decreases reqs.len() - i, reqs.len(),
{
    if i == reqs.len() {
        assert(reqs.take(i) =~= reqs);
        if i == 0 {
        } else {
            lemma_layout_end_monotone(reqs.drop_last(), i - 1);
            assert(reqs.drop_last().take(i - 1) =~= reqs.drop_last());
            lemma_align_up(layout_end(reqs.drop_last()), reqs.last().alignment as int);
        }
    } else {
        lemma_layout_end_monotone(reqs, i + 1);
        let t1 = reqs.take(i + 1);
        assert(t1.drop_last() =~= reqs.take(i));
        lemma_layout_end_monotone(reqs.take(i), i);
        assert(reqs.take(i).take(i) =~= reqs.take(i));
        lemma_align_up(layout_end(reqs.take(i)), reqs[i].alignment as int);
    }
}

/// Offsets respect their alignments and never overlap: resource `i` ends at
/// or before resource `i + 1` begins, and the block size covers the last
/// resource.
pub proof fn lemma_layout_properties(reqs: Seq<MemoryRequirements>, i: int)
    requires
        0 <= i < reqs.len(),
        alignments_valid(reqs),
    ensures
        layout_offset(reqs, i) % (reqs[i].alignment as int) == 0,
        layout_offset(reqs, i) >= 0,
        i + 1 < reqs.len() ==> layout_offset(reqs, i) + reqs[i].size <= layout_offset(
            reqs,
            i + 1,
        ),
        layout_offset(reqs, i) + reqs[i].size <= layout_end(reqs),
{
    lemma_layout_end_monotone(reqs, i);
    lemma_layout_end_monotone(reqs.take(i), i);
    assert(reqs.take(i).take(i) =~= reqs.take(i));
    lemma_align_up(layout_end(reqs.take(i)), reqs[i].alignment as int);
    let t1 = reqs.take(i + 1);
    assert(t1.drop_last() =~= reqs.take(i));
    assert(layout_end(reqs.take(i + 1)) == layout_offset(reqs, i) + reqs[i].size);
    lemma_layout_end_monotone(reqs, i + 1);
    if i + 1 < reqs.len() {
        lemma_align_up(layout_end(reqs.take(i + 1)), reqs[i + 1].alignment as int);
    }
}

/// Plans a packed single-block layout for `requirements` and picks the first
/// memory type covering `properties` that every resource accepts.
///
/// The empty list is rejected, and the incompatible-memory error comes back
/// exactly when no memory type qualifies.
#[verifier::loop_isolation(false)]
pub fn plan_allocation(
    requirements: &Vec<MemoryRequirements>,
    memory_types: &Vec<MemoryType>,
    properties: u32,
) -> (result: Result<AllocationPlan, AllocationError>)
    requires
        alignments_valid(requirements@),
        layout_end(requirements@) <= u64::MAX,
        memory_types@.len() <= 32,
    ensures
        match result {
            Ok(plan) => {
                &&& requirements@.len() > 0
                &&& plan.offsets@.len() == requirements@.len()
                &&& forall|i: int|
                    0 <= i < requirements@.len() ==> plan.offsets@[i] == layout_offset(
                        requirements@,
                        i,
                    )
                &&& plan.size == layout_end(requirements@)
                &&& 0 <= plan.memory_type_index < memory_types@.len()
                &&& type_matches(
                    memory_types@,
                    combined_mask(requirements@),
                    properties,
                    plan.memory_type_index as int,
                )
                &&& forall|j: int|
                    0 <= j < plan.memory_type_index ==> !type_matches(
                        memory_types@,
                        combined_mask(requirements@),
                        properties,
                        j,
                    )
            },
            Err(AllocationError::EmptyRequirements) => requirements@.len() == 0,
            Err(AllocationError::IncompatibleMemory) => {
                &&& requirements@.len() > 0
                &&& forall|j: int|
                    0 <= j < memory_types@.len() ==> !type_matches(
                        memory_types@,
                        combined_mask(requirements@),
                        properties,
                        j,
                    )
            },
        },
{
    if requirements.len() == 0 {
        return Err(AllocationError::EmptyRequirements);
    }
    let mut offsets: Vec<u64> = Vec::new();
    let mut size: u64 = 0;
    let mut supported_memory_types: u32 = 0xffff_ffff;
    let mut k: usize = 0;
    while k < requirements.len()
        invariant
            k <= requirements@.len(),
            offsets@.len() == k,
            size == layout_end(requirements@.take(k as int)),
            supported_memory_types == combined_mask(requirements@.take(k as int)),
            forall|i: int| 0 <= i < k ==> offsets@[i] == layout_offset(requirements@, i),
        decreases requirements@.len() - k,
    {
        let reqs = &requirements[k];
        proof {
            lemma_layout_end_monotone(requirements@, k + 1);
            assert(requirements@.take(k + 1).drop_last() =~= requirements@.take(k as int));
            lemma_align_up(size as int, reqs.alignment as int);
            lemma_align_up_parts(size as int, reqs.alignment as int);
            vstd::arithmetic::div_mod::lemma_mod_bound(size as int, reqs.alignment as int);
        }
        let rem = size % reqs.alignment;
        let aligned = if rem == 0 {
            size
        } else {
            size + (reqs.alignment - rem)
        };
        proof {
            assert(aligned == align_up(size as int, reqs.alignment as int));
            assert(aligned == layout_offset(requirements@, k as int));
        }
        offsets.push(aligned);
        size = aligned + reqs.size;
        supported_memory_types = supported_memory_types & reqs.memory_type_bits;
        k = k + 1;
    }
    proof {
        assert(requirements@.take(requirements@.len() as int) =~= requirements@);
    }
    let mut j: usize = 0;
    while j < memory_types.len()
        invariant
            j <= memory_types@.len(),
            forall|i: int|
                0 <= i < j ==> !type_matches(
                    memory_types@,
                    combined_mask(requirements@),
                    properties,
                    i,
                ),
        decreases memory_types@.len() - j,
    {
        let mem_type = &memory_types[j];
        if mem_type.property_flags & properties == properties
            && (supported_memory_types >> (j as u32)) & 1 == 1 {
            return Ok(AllocationPlan { offsets, size, memory_type_index: j as u32 });
        }
        j = j + 1;
    }
    Err(AllocationError::IncompatibleMemory)
}

/// A group whose combined memory-type bitmask is empty can never be placed:
/// planning reports the incompatible-memory error rather than a wrong
/// allocation, whatever the device's memory types are.
pub proof fn lemma_disjoint_masks_incompatible(
    types: Seq<MemoryType>,
    properties: u32,
    j: int,
)
    requires
        0 <= j < types.len(),
    ensures
        !type_matches(types, 0u32, properties, j),
{
    assert(forall|s: u32| (0u32 >> s) & 1u32 == 0u32) by (bit_vector);
}

} // verus!
