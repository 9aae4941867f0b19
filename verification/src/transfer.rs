//! Per-slot sequencing of transaction submissions on a transfer queue.
//!
//! The engine owns, per frame slot, a monotonically increasing counter and
//! the size of that slot's private staging block.  Draining a transaction
//! into a slot produces a submission plan: wait until the slot's counting
//! semaphore reaches the value of the slot's previous submission, grow the
//! staging block if the transaction outgrew it, upload the arena bytes,
//! record the planned commands, and submit them signaling the counter's new
//! value.  Because each submission first waits for the previous value and
//! then signals the next, back-to-back submissions to one slot can never
//! overlap on the GPU, while different slots proceed independently.
//!
//! End barriers are deliberately absent from the plan: the final-layout
//! transition targets the consumer queue family, so the frame pipeline
//! records them on the consuming queue instead.

use vstd::prelude::*;

use crate::transaction::BufferTransfer;
use crate::transaction::ImageTransfer;
use crate::transaction::Transaction;

verus! {

/// Bounded wait on the transfer counter, in nanoseconds.
pub const TRANSFER_TIMEOUT: u64 = 2_000_000_000;

/// Staging capacity each slot starts with.
pub const INITIAL_STAGING_SIZE: usize = 64;

/// One step of a transfer command buffer, in recording order.
#[derive(Clone, Copy, PartialEq, Eq, Structural, Debug)]
pub enum TransferCommand {
    /// Copy one region from the slot's staging buffer into a destination
    /// buffer.
    CopyBuffer(BufferTransfer),
    /// Emit the transaction's start barriers, batched.
    StartImageBarriers,
    /// Copy one image upload's regions from staging into its destination
    /// image (already in the transfer-destination layout).
    CopyImage(ImageTransfer),
}

/// The commands a transaction drains into, in order: every buffer copy,
/// then one batched start-barrier emission if any image is uploaded, then
/// every image copy.
pub open spec fn transfer_commands(t: Transaction) -> Seq<TransferCommand> {
    t.buffer_transfers@.map_values(|b: BufferTransfer| TransferCommand::CopyBuffer(b)) + (
    if t.image_transfers@.len() > 0 {
        seq![TransferCommand::StartImageBarriers]
    } else {
        Seq::<TransferCommand>::empty()
    }) + t.image_transfers@.map_values(|m: ImageTransfer| TransferCommand::CopyImage(m))
}

/// Everything the caller must do to execute one submission, in protocol
/// order: wait for `wait_value` on the slot's counting semaphore, replace
/// the slot's staging block if `new_staging_size` says so, copy
/// `upload_size` arena bytes into the staging block, record `commands`, and
/// submit them signaling `signal_value`.
pub struct SubmitPlan {
    /// Counter value of the slot's previous submission; reusing any of the
    /// slot's resources before the semaphore reaches it is unsound.
    pub wait_value: u64,
    /// Counter value this submission signals on completion.
    pub signal_value: u64,
    /// When set, the slot's staging block must be dropped and recreated
    /// with this size before the upload.
    pub new_staging_size: Option<usize>,
    /// Number of bytes to copy from the arena into the staging block.
    pub upload_size: usize,
    /// The transfer command buffer's contents, in order.
    pub commands: Vec<TransferCommand>,
}

/// Decision state of the transfer engine: one counter and one staging size
/// per frame slot.
pub struct Transfer {
    counts: Vec<u64>,
    staging_sizes: Vec<usize>,
}

impl Transfer {
    pub closed spec fn slot_count(&self) -> int {
        self.counts@.len() as int
    }

    /// Counter value of the latest submission on `slot`.
    pub closed spec fn count_of(&self, slot: int) -> u64 {
        self.counts@[slot]
    }

    /// Current staging capacity of `slot`.
    pub closed spec fn staging_size_of(&self, slot: int) -> usize {
        self.staging_sizes@[slot]
    }

    pub closed spec fn wf(&self) -> bool {
        &&& self.counts@.len() == self.staging_sizes@.len()
        &&& self.slot_count() >= 1
        &&& forall|s: int| 0 <= s < self.slot_count() ==> self.staging_size_of(s) >= 1
    }

    /// An engine with `slot_count` idle slots, each starting from counter
    /// zero and the initial staging capacity.
    #[verifier::loop_isolation(false)]
    pub fn new(slot_count: usize) -> (engine: Transfer)
        requires
            slot_count >= 1,
        ensures
            engine.wf(),
            engine.slot_count() == slot_count,
            forall|s: int| 0 <= s < slot_count ==> engine.count_of(s) == 0,
            forall|s: int|
                0 <= s < slot_count ==> engine.staging_size_of(s) == INITIAL_STAGING_SIZE,
    {
        let mut counts: Vec<u64> = Vec::new();
        let mut staging_sizes: Vec<usize> = Vec::new();
        let mut i: usize = 0;
        while i < slot_count
            invariant
                i <= slot_count,
                counts@.len() == i,
                staging_sizes@.len() == i,
                forall|s: int| 0 <= s < i ==> counts@[s] == 0,
                forall|s: int| 0 <= s < i ==> staging_sizes@[s] == INITIAL_STAGING_SIZE,
            decreases slot_count - i,
        {
            counts.push(0);
            staging_sizes.push(INITIAL_STAGING_SIZE);
            i = i + 1;
        }
        Transfer { counts, staging_sizes }
    }

    /// Counter value of the latest submission on `slot`.
    pub fn counter(&self, slot: usize) -> (r: u64)
        requires
            slot < self.slot_count(),
        ensures
            r == self.count_of(slot as int),
    {
        self.counts[slot]
    }

    /// Plans the drain of `transaction` into `frame`'s slot.
    ///
    /// The plan waits for the slot's previous submission before anything
    /// else, grows the slot's staging block exactly when the transaction's
    /// arena outgrew it, uploads the full arena footprint, and signals the
    /// successor of the slot's counter; the engine records that new counter
    /// value.  Other slots are untouched.
    pub fn submit(&mut self, transaction: &Transaction, frame: usize) -> (plan: SubmitPlan)
        requires
            old(self).wf(),
            frame < old(self).slot_count(),
            old(self).count_of(frame as int) < u64::MAX,
        ensures
            final(self).wf(),
            final(self).slot_count() == old(self).slot_count(),
            plan.wait_value == old(self).count_of(frame as int),
            plan.signal_value == old(self).count_of(frame as int) + 1,
            final(self).count_of(frame as int) == plan.signal_value,
            forall|s: int|
                0 <= s < old(self).slot_count() && s != frame ==> final(self).count_of(s)
                    == old(self).count_of(s),
            plan.new_staging_size == if old(self).staging_size_of(frame as int)
                < transaction.arena.capacity() {
                Some(transaction.arena.capacity() as usize)
            } else {
                Option::<usize>::None
            },
            final(self).staging_size_of(frame as int) == if old(self).staging_size_of(
                frame as int,
            ) < transaction.arena.capacity() {
                transaction.arena.capacity() as usize
            } else {
                old(self).staging_size_of(frame as int)
            },
            forall|s: int|
                0 <= s < old(self).slot_count() && s != frame ==> final(self).staging_size_of(s)
                    == old(self).staging_size_of(s),
            plan.upload_size == transaction.arena.capacity(),
            plan.commands@ == transfer_commands(*transaction),
    {
        let wait_value = self.counts[frame];
        let arena_size = transaction.arena.size();
        let new_staging_size = if self.staging_sizes[frame] < arena_size {
            self.staging_sizes.set(frame, arena_size);
            Some(arena_size)
        } else {
            None
        };
        let commands = record_transfer_commands(transaction);
        let signal_value = wait_value + 1;
        self.counts.set(frame, signal_value);
        proof {
            assert forall|s: int| 0 <= s < self.slot_count() implies self.staging_size_of(s)
                >= 1 by {
                assert(old(self).staging_size_of(s) >= 1);
            }
        }
        SubmitPlan {
            wait_value,
            signal_value,
            new_staging_size,
            upload_size: arena_size,
            commands,
        }
    }
}

/// Builds the command list a transaction drains into: buffer copies in
/// order, one batched start-barrier emission if any image is uploaded, then
/// image copies in order.
#[verifier::loop_isolation(false)]
fn record_transfer_commands(transaction: &Transaction) -> (commands: Vec<TransferCommand>)
    ensures
        commands@ == transfer_commands(*transaction),
{
    let mut commands: Vec<TransferCommand> = Vec::new();
    let mut i: usize = 0;
    while i < transaction.buffer_transfers.len()
        invariant
            i <= transaction.buffer_transfers@.len(),
            commands@ == transaction.buffer_transfers@.take(i as int).map_values(
                |b: BufferTransfer| TransferCommand::CopyBuffer(b),
            ),
        decreases transaction.buffer_transfers@.len() - i,
    {
        commands.push(TransferCommand::CopyBuffer(transaction.buffer_transfers[i]));
        i = i + 1;
        proof {
            assert(transaction.buffer_transfers@.take(i as int) =~= transaction
                .buffer_transfers@.take(i - 1).push(transaction.buffer_transfers@[i - 1]));
            assert(commands@ =~= transaction.buffer_transfers@.take(i as int).map_values(
                |b: BufferTransfer| TransferCommand::CopyBuffer(b),
            ));
        }
    }
    proof {
        assert(transaction.buffer_transfers@.take(transaction.buffer_transfers@.len() as int)
            =~= transaction.buffer_transfers@);
    }
    if transaction.image_transfers.len() > 0 {
        commands.push(TransferCommand::StartImageBarriers);
    }
    let ghost mid = commands@;
    let mut j: usize = 0;
    while j < transaction.image_transfers.len()
        invariant
            j <= transaction.image_transfers@.len(),
            commands@ == mid + transaction.image_transfers@.take(j as int).map_values(
                |m: ImageTransfer| TransferCommand::CopyImage(m),
            ),
        decreases transaction.image_transfers@.len() - j,
    {
        commands.push(TransferCommand::CopyImage(transaction.image_transfers[j]));
        j = j + 1;
        proof {
            assert(transaction.image_transfers@.take(j as int) =~= transaction
                .image_transfers@.take(j - 1).push(transaction.image_transfers@[j - 1]));
            assert(commands@ =~= mid + transaction.image_transfers@.take(j as int).map_values(
                |m: ImageTransfer| TransferCommand::CopyImage(m),
            ));
        }
    }
    proof {
        assert(transaction.image_transfers@.take(transaction.image_transfers@.len() as int)
            =~= transaction.image_transfers@);
        assert(commands@ =~= transfer_commands(*transaction));
    }
    commands
}

/// Back-to-back submissions to one slot serialize: with no intervening
/// wait, the second plan still waits for exactly the counter value the
/// first plan signals, so the second drain cannot touch the slot's staging
/// memory before the first has retired.
pub proof fn lemma_back_to_back_submits(
    pre: Transfer,
    mid: Transfer,
    first: SubmitPlan,
    second: SubmitPlan,
    slot: int,
)
    requires
        0 <= slot < pre.slot_count(),
        first.signal_value == pre.count_of(slot) + 1,
        mid.count_of(slot) == first.signal_value,
        second.wait_value == mid.count_of(slot),
    ensures
        second.wait_value == first.signal_value,
        second.wait_value > pre.count_of(slot),
{
}

} // verus!
