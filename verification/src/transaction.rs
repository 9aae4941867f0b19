//! Accumulator of pending CPU-to-GPU copy work.
//!
//! A transaction gathers buffer-to-buffer and buffer-to-image copy requests
//! together with the layout-transition barriers the image copies require.
//! Source data is copied into the staging arena immediately; destination
//! handles and offsets are only recorded.  Nothing touches the device until
//! the transfer engine drains the transaction.
//!
//! Every image write queues a matched pair of barriers: one taking the
//! destination from an undefined layout to the transfer-destination layout
//! on the transfer queue family, and one releasing it from the transfer
//! family to the consuming family while transitioning into the caller's
//! requested final layout.  The pairing is what makes queue-family
//! ownership transfer sound when transfer and consumer run on different
//! hardware queues.

use vstd::prelude::*;

use crate::arena::Arena;
use crate::arena::ARENA_ALIGNMENT;

verus! {

/// Image layout code for "undefined / contents discarded".
pub const LAYOUT_UNDEFINED: i32 = 0;

/// Image layout code for "optimal as a transfer destination".
pub const LAYOUT_TRANSFER_DST_OPTIMAL: i32 = 7;

/// Image layout code for "optimal for shader sampling".
pub const LAYOUT_SHADER_READ_ONLY_OPTIMAL: i32 = 5;

/// Empty pipeline-stage mask.
pub const STAGE_NONE: u64 = 0;

/// Pipeline-stage mask bit covering all transfer operations.
pub const STAGE_ALL_TRANSFER: u64 = 0x1000;

/// Empty access mask.
pub const ACCESS_NONE: u64 = 0;

/// Access mask bit for transfer writes.
pub const ACCESS_TRANSFER_WRITE: u64 = 0x1000;

/// One pending staging-to-buffer copy.
#[derive(Clone, Copy, PartialEq, Eq, Structural, Debug)]
pub struct BufferTransfer {
    /// Byte offset of the source data inside the staging arena.
    pub src_offset: usize,
    /// Number of bytes to copy.
    pub size: usize,
    /// Destination buffer handle.
    pub dst: u64,
    /// Byte offset inside the destination buffer.
    pub dst_offset: usize,
}

/// The mip levels and array layers a barrier applies to.
#[derive(Clone, Copy, PartialEq, Eq, Structural, Debug)]
pub struct SubresourceRange {
    pub aspect_mask: u32,
    pub base_mip_level: u32,
    pub level_count: u32,
    pub base_array_layer: u32,
    pub layer_count: u32,
}

/// The mip level and array layers one copy region writes.
#[derive(Clone, Copy, PartialEq, Eq, Structural, Debug)]
pub struct SubresourceLayers {
    pub aspect_mask: u32,
    pub mip_level: u32,
    pub base_array_layer: u32,
    pub layer_count: u32,
}

/// Texel offset of a copy region inside the destination image.
#[derive(Clone, Copy, PartialEq, Eq, Structural, Debug)]
pub struct Offset3 {
    pub x: i32,
    pub y: i32,
    pub z: i32,
}

/// Texel extent of a copy region.
#[derive(Clone, Copy, PartialEq, Eq, Structural, Debug)]
pub struct Extent3 {
    pub width: u32,
    pub height: u32,
    pub depth: u32,
}

/// One staging-to-image copy region.
#[derive(Clone, Copy, PartialEq, Eq, Structural, Debug)]
pub struct BufferImageCopy {
    /// Byte offset of the texel data inside the staging buffer.
    pub buffer_offset: u64,
    pub buffer_row_length: u32,
    pub buffer_image_height: u32,
    pub image_subresource: SubresourceLayers,
    pub image_offset: Offset3,
    pub image_extent: Extent3,
}

/// One pending image upload: a run of copy regions plus the requested final
/// layout.
#[derive(Clone, Copy, PartialEq, Eq, Structural, Debug)]
pub struct ImageTransfer {
    /// Destination image handle.
    pub dst: u64,
    pub subresource_range: SubresourceRange,
    /// Index of this upload's first region in the transaction's region list.
    pub region_offset: usize,
    /// Number of regions belonging to this upload.
    pub region_count: usize,
    /// Layout the image ends in once the end barrier has executed.
    pub layout: i32,
}

/// An image layout-transition and queue-family-ownership barrier.
#[derive(Clone, Copy, PartialEq, Eq, Structural, Debug)]
pub struct ImageBarrier {
    pub src_stage_mask: u64,
    pub src_access_mask: u64,
    pub dst_stage_mask: u64,
    pub dst_access_mask: u64,
    pub old_layout: i32,
    pub new_layout: i32,
    pub src_queue_family: u32,
    pub dst_queue_family: u32,
    pub image: u64,
    pub subresource_range: SubresourceRange,
}

pub struct Transaction {
    /// Queue family that executes the transfers.
    pub src_queue_family: u32,
    /// Queue family that consumes the transferred resources.
    pub dst_queue_family: u32,
    pub arena: Arena,
    pub buffer_transfers: Vec<BufferTransfer>,
    pub image_transfers: Vec<ImageTransfer>,
    pub regions: Vec<BufferImageCopy>,
    pub start_image_barriers: Vec<ImageBarrier>,
    pub end_image_barriers: Vec<ImageBarrier>,
}

/// The barrier that takes `image` from an undefined layout to the
/// transfer-destination layout, pinned to the transfer queue family.
pub open spec fn start_barrier_for(
    image: u64,
    range: SubresourceRange,
    transfer_family: u32,
) -> ImageBarrier {
    ImageBarrier {
        src_stage_mask: STAGE_NONE,
        src_access_mask: ACCESS_NONE,
        dst_stage_mask: STAGE_ALL_TRANSFER,
        dst_access_mask: ACCESS_TRANSFER_WRITE,
        old_layout: LAYOUT_UNDEFINED,
        new_layout: LAYOUT_TRANSFER_DST_OPTIMAL,
        src_queue_family: transfer_family,
        dst_queue_family: transfer_family,
        image,
        subresource_range: range,
    }
}

/// The barrier that hands `image` from the transfer family to the consumer
/// family while transitioning it into its final layout.
pub open spec fn end_barrier_for(
    image: u64,
    range: SubresourceRange,
    layout: i32,
    transfer_family: u32,
    consumer_family: u32,
) -> ImageBarrier {
    ImageBarrier {
        src_stage_mask: STAGE_NONE,
        src_access_mask: ACCESS_NONE,
        dst_stage_mask: STAGE_NONE,
        dst_access_mask: ACCESS_NONE,
        old_layout: LAYOUT_TRANSFER_DST_OPTIMAL,
        new_layout: layout,
        src_queue_family: transfer_family,
        dst_queue_family: consumer_family,
        image,
        subresource_range: range,
    }
}

/// `r` with its staging offset shifted by `shift` (the arena position the
/// image write landed at).
pub open spec fn shifted_region(r: BufferImageCopy, shift: int) -> BufferImageCopy {
    BufferImageCopy {
        buffer_offset: (r.buffer_offset + shift) as u64,
        buffer_row_length: r.buffer_row_length,
        buffer_image_height: r.buffer_image_height,
        image_subresource: r.image_subresource,
        image_offset: r.image_offset,
        image_extent: r.image_extent,
    }
}

/// Image upload `k` of `t` is well formed: its barriers sit at the same
/// index and carry exactly the fields the ownership-transfer protocol asks
/// for, and its region run lies inside the transaction's region list.
pub open spec fn image_entry_wf(t: Transaction, k: int) -> bool {
    let it = t.image_transfers@[k];
    &&& t.start_image_barriers@[k] == start_barrier_for(
        it.dst,
        it.subresource_range,
        t.src_family(),
    )
    &&& t.end_image_barriers@[k] == end_barrier_for(
        it.dst,
        it.subresource_range,
        it.layout,
        t.src_family(),
        t.dst_family(),
    )
    &&& it.region_offset + it.region_count <= t.regions@.len()
}

impl Transaction {
    /// The queue family that executes the transfers.
    pub open spec fn src_family(&self) -> u32 {
        self.src_queue_family
    }

    /// The queue family that consumes the transferred resources.
    pub open spec fn dst_family(&self) -> u32 {
        self.dst_queue_family
    }

    pub open spec fn wf(&self) -> bool {
        &&& self.arena.wf()
        &&& self.image_transfers@.len() == self.start_image_barriers@.len()
        &&& self.image_transfers@.len() == self.end_image_barriers@.len()
        &&& forall|k: int|
            0 <= k < self.image_transfers@.len() ==> #[trigger] image_entry_wf(*self, k)
    }

    pub fn new(src_queue_family: u32, dst_queue_family: u32) -> (t: Transaction)
        ensures
            t.wf(),
            t.src_family() == src_queue_family,
            t.dst_family() == dst_queue_family,
            t.arena.used_size() == 0,
            t.arena.capacity() == 0,
            t.buffer_transfers@ == Seq::<BufferTransfer>::empty(),
            t.image_transfers@ == Seq::<ImageTransfer>::empty(),
            t.regions@ == Seq::<BufferImageCopy>::empty(),
            t.start_image_barriers@ == Seq::<ImageBarrier>::empty(),
            t.end_image_barriers@ == Seq::<ImageBarrier>::empty(),
    {
        Transaction {
            src_queue_family,
            dst_queue_family,
            arena: Arena::new(0),
            buffer_transfers: Vec::new(),
            image_transfers: Vec::new(),
            regions: Vec::new(),
            start_image_barriers: Vec::new(),
            end_image_barriers: Vec::new(),
        }
    }

    /// Copies `src` into the staging arena and queues a copy of it into
    /// `dst` at `dst_offset`.
    pub fn buffer_write(&mut self, src: &[u8], dst: u64, dst_offset: usize)
        requires
            old(self).wf(),
            old(self).arena.used_size() + src@.len() + ARENA_ALIGNMENT <= usize::MAX,
        ensures
            final(self).wf(),
            Arena::extended(old(self).arena, src@, final(self).arena),
            final(self).buffer_transfers@ == old(self).buffer_transfers@.push(
                BufferTransfer {
                    src_offset: old(self).arena.used_size() as usize,
                    size: src@.len() as usize,
                    dst,
                    dst_offset,
                },
            ),
            final(self).image_transfers@ == old(self).image_transfers@,
            final(self).regions@ == old(self).regions@,
            final(self).start_image_barriers@ == old(self).start_image_barriers@,
            final(self).end_image_barriers@ == old(self).end_image_barriers@,
            final(self).src_family() == old(self).src_family(),
            final(self).dst_family() == old(self).dst_family(),
    {
        let src_offset = self.arena.extend(src);
        let size = src.len();
        self.buffer_transfers.push(BufferTransfer { src_offset, size, dst, dst_offset });
        proof {
            assert(forall|k: int|
                0 <= k < self.image_transfers@.len() ==> image_entry_wf(*old(self), k)
                    ==> #[trigger] image_entry_wf(*self, k));
        }
    }

    /// Copies `src` into the staging arena, queues its upload into `dst`
    /// through `regions` (each region's staging offset shifted by the arena
    /// position the data landed at), and queues the matched start and end
    /// barriers that transition `dst` into `layout` and hand it to the
    /// consumer queue family.
    #[verifier::loop_isolation(false)]
    pub fn image_write(
        &mut self,
        src: &[u8],
        dst: u64,
        subresource_range: SubresourceRange,
        regions: &[BufferImageCopy],
        layout: i32,
    )
        requires
            old(self).wf(),
            old(self).arena.used_size() + src@.len() + ARENA_ALIGNMENT <= usize::MAX,
            forall|i: int|
                0 <= i < regions@.len() ==> (#[trigger] regions@[i]).buffer_offset + old(
                    self,
                ).arena.used_size() <= u64::MAX,
            old(self).regions@.len() + regions@.len() <= usize::MAX,
        ensures
            final(self).wf(),
            Arena::extended(old(self).arena, src@, final(self).arena),
            final(self).regions@ == old(self).regions@ + regions@.map_values(
                |r: BufferImageCopy| shifted_region(r, old(self).arena.used_size()),
            ),
            final(self).image_transfers@ == old(self).image_transfers@.push(
                ImageTransfer {
                    dst,
                    subresource_range,
                    region_offset: old(self).regions@.len() as usize,
                    region_count: regions@.len() as usize,
                    layout,
                },
            ),
            final(self).start_image_barriers@ == old(self).start_image_barriers@.push(
                start_barrier_for(dst, subresource_range, old(self).src_family()),
            ),
            final(self).end_image_barriers@ == old(self).end_image_barriers@.push(
                end_barrier_for(
                    dst,
                    subresource_range,
                    layout,
                    old(self).src_family(),
                    old(self).dst_family(),
                ),
            ),
            final(self).buffer_transfers@ == old(self).buffer_transfers@,
            final(self).src_family() == old(self).src_family(),
            final(self).dst_family() == old(self).dst_family(),
    {
        let src_offset = self.arena.extend(src);
        let ghost snap = *self;
        let region_offset = self.regions.len();
        let mut i: usize = 0;
        while i < regions.len()
            invariant
                i <= regions@.len(),
                self.regions@ == old(self).regions@ + regions@.take(i as int).map_values(
                    |r: BufferImageCopy| shifted_region(r, old(self).arena.used_size()),
                ),
                self.arena == snap.arena,
                self.buffer_transfers@ == snap.buffer_transfers@,
                self.image_transfers@ == snap.image_transfers@,
                self.start_image_barriers@ == snap.start_image_barriers@,
                self.end_image_barriers@ == snap.end_image_barriers@,
                self.src_queue_family == snap.src_queue_family,
                self.dst_queue_family == snap.dst_queue_family,
            decreases regions@.len() - i,
        {
            let r = &regions[i];
            self.regions.push(
                BufferImageCopy {
                    buffer_offset: r.buffer_offset + src_offset as u64,
                    buffer_row_length: r.buffer_row_length,
                    buffer_image_height: r.buffer_image_height,
                    image_subresource: r.image_subresource,
                    image_offset: r.image_offset,
                    image_extent: r.image_extent,
                },
            );
            i = i + 1;
            proof {
                assert(regions@.take(i as int)
                    =~= regions@.take(i - 1).push(regions@[i - 1]));
                assert(self.regions@ =~= old(self).regions@ + regions@.take(
                    i as int,
                ).map_values(
                    |r: BufferImageCopy| shifted_region(r, old(self).arena.used_size()),
                ));
            }
        }
        self.image_transfers.push(
            ImageTransfer {
                dst,
                subresource_range,
                region_offset,
                region_count: regions.len(),
                layout,
            },
        );
        let start = ImageBarrier {
            src_stage_mask: STAGE_NONE,
            src_access_mask: ACCESS_NONE,
            dst_stage_mask: STAGE_ALL_TRANSFER,
            dst_access_mask: ACCESS_TRANSFER_WRITE,
            old_layout: LAYOUT_UNDEFINED,
            new_layout: LAYOUT_TRANSFER_DST_OPTIMAL,
            src_queue_family: self.src_queue_family,
            dst_queue_family: self.src_queue_family,
            image: dst,
            subresource_range,
        };
        self.start_image_barriers.push(start);
        let end = ImageBarrier {
            src_stage_mask: STAGE_NONE,
            src_access_mask: ACCESS_NONE,
            dst_stage_mask: STAGE_NONE,
            dst_access_mask: ACCESS_NONE,
            old_layout: LAYOUT_TRANSFER_DST_OPTIMAL,
            new_layout: layout,
            src_queue_family: self.src_queue_family,
            dst_queue_family: self.dst_queue_family,
            image: dst,
            subresource_range,
        };
        self.end_image_barriers.push(end);
        proof {
            assert(regions@.take(regions@.len() as int) =~= regions@);
            let n = old(self).image_transfers@.len() as int;
            assert(image_entry_wf(*self, n));
            assert(forall|k: int|
                0 <= k < n ==> image_entry_wf(*old(self), k) ==> #[trigger] image_entry_wf(
                    *self,
                    k,
                ));
        }
    }

    /// Forgets all queued work; arena capacity is kept.  Call only once the
    /// staged bytes have been copied out into device-visible memory.
    pub fn clear(&mut self)
        ensures
            final(self).wf(),
            final(self).arena.used_size() == 0,
            final(self).arena.capacity() == old(self).arena.capacity(),
            final(self).buffer_transfers@ == Seq::<BufferTransfer>::empty(),
            final(self).image_transfers@ == Seq::<ImageTransfer>::empty(),
            final(self).regions@ == Seq::<BufferImageCopy>::empty(),
            final(self).start_image_barriers@ == Seq::<ImageBarrier>::empty(),
            final(self).end_image_barriers@ == Seq::<ImageBarrier>::empty(),
            final(self).src_family() == old(self).src_family(),
            final(self).dst_family() == old(self).dst_family(),
    {
        self.arena.clear();
        self.buffer_transfers.clear();
        self.image_transfers.clear();
        self.start_image_barriers.clear();
        self.end_image_barriers.clear();
        self.regions.clear();
    }

    /// The transfer queue family the transaction was built for.
    pub fn transfer_family(&self) -> (r: u32)
        ensures
            r == self.src_family(),
    {
        self.src_queue_family
    }

    /// The consumer queue family the transaction was built for.
    pub fn consumer_family(&self) -> (r: u32)
        ensures
            r == self.dst_family(),
    {
        self.dst_queue_family
    }
}

/// Queued image writes carry exactly one start barrier and one end barrier
/// each, at the same index: the start barrier enters the transfer
/// destination layout on the transfer family, and the end barrier releases
/// ownership from the transfer family to the consumer family while entering
/// the requested final layout.
pub proof fn lemma_image_barriers_paired(t: Transaction)
    requires
        t.wf(),
    ensures
        t.start_image_barriers@.len() == t.image_transfers@.len(),
        t.end_image_barriers@.len() == t.image_transfers@.len(),
        forall|k: int|
            0 <= k < t.image_transfers@.len() ==> {
                &&& (#[trigger] t.start_image_barriers@[k]).old_layout == LAYOUT_UNDEFINED
                &&& t.start_image_barriers@[k].new_layout == LAYOUT_TRANSFER_DST_OPTIMAL
                &&& t.start_image_barriers@[k].src_queue_family == t.src_family()
                &&& t.start_image_barriers@[k].dst_queue_family == t.src_family()
                &&& t.end_image_barriers@[k].old_layout == LAYOUT_TRANSFER_DST_OPTIMAL
                &&& t.end_image_barriers@[k].new_layout == t.image_transfers@[k].layout
                &&& t.end_image_barriers@[k].src_queue_family == t.src_family()
                &&& t.end_image_barriers@[k].dst_queue_family == t.dst_family()
            },
{
    assert forall|k: int| 0 <= k < t.image_transfers@.len() implies {
        &&& (#[trigger] t.start_image_barriers@[k]).old_layout == LAYOUT_UNDEFINED
        &&& t.start_image_barriers@[k].new_layout == LAYOUT_TRANSFER_DST_OPTIMAL
        &&& t.start_image_barriers@[k].src_queue_family == t.src_family()
        &&& t.start_image_barriers@[k].dst_queue_family == t.src_family()
        &&& t.end_image_barriers@[k].old_layout == LAYOUT_TRANSFER_DST_OPTIMAL
        &&& t.end_image_barriers@[k].new_layout == t.image_transfers@[k].layout
        &&& t.end_image_barriers@[k].src_queue_family == t.src_family()
        &&& t.end_image_barriers@[k].dst_queue_family == t.dst_family()
    } by {
        assert(image_entry_wf(t, k));
    }
}

} // verus!
