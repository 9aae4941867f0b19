use graphics::transaction::Transaction;
use graphics::transaction::LAYOUT_SHADER_READ_ONLY_OPTIMAL;
use graphics::transaction::SubresourceRange;
use graphics::transaction::SubresourceLayers;
use graphics::transaction::BufferImageCopy;
use graphics::transaction::Offset3;
use graphics::transaction::Extent3;
use graphics::transfer::Transfer;
use graphics::transfer::TransferCommand;
use graphics::transfer::INITIAL_STAGING_SIZE;

fn simple_region() -> BufferImageCopy {
    BufferImageCopy {
        buffer_offset: 0,
        buffer_row_length: 0,
        buffer_image_height: 0,
        image_subresource: SubresourceLayers {
            aspect_mask: 1,
            mip_level: 0,
            base_array_layer: 0,
            layer_count: 1,
        },
        image_offset: Offset3 { x: 0, y: 0, z: 0 },
        image_extent: Extent3 { width: 4, height: 4, depth: 1 },
    }
}

fn full_range() -> SubresourceRange {
    SubresourceRange {
        aspect_mask: 1,
        base_mip_level: 0,
        level_count: 1,
        base_array_layer: 0,
        layer_count: 1,
    }
}

#[test]
fn back_to_back_submits_serialize() {
    let mut engine = Transfer::new(2);
    let transaction = Transaction::new(1, 0);
    let first = engine.submit(&transaction, 0);
    assert_eq!(first.wait_value, 0);
    assert_eq!(first.signal_value, 1);
    let second = engine.submit(&transaction, 0);
    assert_eq!(second.wait_value, first.signal_value);
    assert_eq!(second.signal_value, 2);
    let other_slot = engine.submit(&transaction, 1);
    assert_eq!(other_slot.wait_value, 0);
    assert_eq!(other_slot.signal_value, 1);
}

#[test]
fn staging_grows_to_exact_peak_only_when_exceeded() {
    let mut engine = Transfer::new(2);
    let mut transaction = Transaction::new(1, 0);
    let small: Vec<u8> = vec![1; 16];
    transaction.buffer_write(&small, 5, 0);
    let plan = engine.submit(&transaction, 0);
    assert_eq!(plan.new_staging_size, None);
    assert_eq!(plan.upload_size, transaction.arena.size());
    let big: Vec<u8> = vec![2; 200];
    transaction.buffer_write(&big, 5, 0);
    let plan = engine.submit(&transaction, 0);
    assert_eq!(plan.new_staging_size, Some(transaction.arena.size()));
    assert!(transaction.arena.size() > INITIAL_STAGING_SIZE);
    let plan = engine.submit(&transaction, 0);
    assert_eq!(plan.new_staging_size, None);
    let plan = engine.submit(&transaction, 1);
    assert_eq!(plan.new_staging_size, Some(transaction.arena.size()));
}

#[test]
fn command_order_buffers_then_barriers_then_images() {
    let mut engine = Transfer::new(2);
    let mut transaction = Transaction::new(1, 0);
    let data: Vec<u8> = vec![1; 8];
    transaction.buffer_write(&data, 10, 0);
    transaction.buffer_write(&data, 11, 64);
    let texels: Vec<u8> = vec![2; 64];
    transaction.image_write(
        &texels,
        20,
        full_range(),
        &[simple_region()],
        LAYOUT_SHADER_READ_ONLY_OPTIMAL,
    );
    let plan = engine.submit(&transaction, 0);
    assert_eq!(plan.commands.len(), 4);
    assert!(matches!(plan.commands[0], TransferCommand::CopyBuffer(b) if b.dst == 10));
    assert!(matches!(plan.commands[1], TransferCommand::CopyBuffer(b) if b.dst == 11));
    assert!(matches!(plan.commands[2], TransferCommand::StartImageBarriers));
    assert!(matches!(plan.commands[3], TransferCommand::CopyImage(m) if m.dst == 20));
}

#[test]
fn no_barrier_batch_without_image_writes() {
    let mut engine = Transfer::new(2);
    let mut transaction = Transaction::new(1, 0);
    let data: Vec<u8> = vec![1; 8];
    transaction.buffer_write(&data, 10, 0);
    let plan = engine.submit(&transaction, 0);
    assert_eq!(plan.commands.len(), 1);
    assert!(matches!(plan.commands[0], TransferCommand::CopyBuffer(_)));
}
