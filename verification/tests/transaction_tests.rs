use graphics::transaction::BufferImageCopy;
use graphics::transaction::Extent3;
use graphics::transaction::Offset3;
use graphics::transaction::SubresourceLayers;
use graphics::transaction::SubresourceRange;
use graphics::transaction::Transaction;
use graphics::transaction::ACCESS_NONE;
use graphics::transaction::ACCESS_TRANSFER_WRITE;
use graphics::transaction::LAYOUT_SHADER_READ_ONLY_OPTIMAL;
use graphics::transaction::LAYOUT_TRANSFER_DST_OPTIMAL;
use graphics::transaction::LAYOUT_UNDEFINED;
use graphics::transaction::STAGE_ALL_TRANSFER;
use graphics::transaction::STAGE_NONE;

fn color_range() -> SubresourceRange {
    SubresourceRange {
        aspect_mask: 1,
        base_mip_level: 0,
        level_count: 1,
        base_array_layer: 0,
        layer_count: 1,
    }
}

fn region(buffer_offset: u64, width: u32, height: u32) -> BufferImageCopy {
    BufferImageCopy {
        buffer_offset,
        buffer_row_length: 0,
        buffer_image_height: 0,
        image_subresource: SubresourceLayers {
            aspect_mask: 1,
            mip_level: 0,
            base_array_layer: 0,
            layer_count: 1,
        },
        image_offset: Offset3 { x: 0, y: 0, z: 0 },
        image_extent: Extent3 { width, height, depth: 1 },
    }
}

#[test]
fn buffer_write_records_descriptor_and_stages_data() {
    let mut transaction = Transaction::new(3, 0);
    let data: Vec<u8> = vec![11, 22, 33, 44];
    transaction.buffer_write(&data, 42, 256);
    assert_eq!(transaction.buffer_transfers.len(), 1);
    let record = &transaction.buffer_transfers[0];
    assert_eq!(record.src_offset, 0);
    assert_eq!(record.size, 4);
    assert_eq!(record.dst, 42);
    assert_eq!(record.dst_offset, 256);
    assert_eq!(&transaction.arena.ptr()[0..4], &data[..]);
    assert!(transaction.image_transfers.is_empty());
    assert!(transaction.start_image_barriers.is_empty());
    assert!(transaction.end_image_barriers.is_empty());
}

#[test]
fn image_writes_pair_barriers_one_to_one() {
    let mut transaction = Transaction::new(3, 0);
    let texels: Vec<u8> = vec![1; 64];
    let n = 5;
    for i in 0..n {
        transaction.image_write(
            &texels,
            100 + i as u64,
            color_range(),
            &[region(0, 4, 4)],
            LAYOUT_SHADER_READ_ONLY_OPTIMAL,
        );
    }
    assert_eq!(transaction.image_transfers.len(), n);
    assert_eq!(transaction.start_image_barriers.len(), n);
    assert_eq!(transaction.end_image_barriers.len(), n);
    for i in 0..n {
        let start = &transaction.start_image_barriers[i];
        let end = &transaction.end_image_barriers[i];
        assert_eq!(start.old_layout, LAYOUT_UNDEFINED);
        assert_eq!(start.new_layout, LAYOUT_TRANSFER_DST_OPTIMAL);
        assert_eq!(start.src_queue_family, 3);
        assert_eq!(start.dst_queue_family, 3);
        assert_eq!(start.src_stage_mask, STAGE_NONE);
        assert_eq!(start.src_access_mask, ACCESS_NONE);
        assert_eq!(start.dst_stage_mask, STAGE_ALL_TRANSFER);
        assert_eq!(start.dst_access_mask, ACCESS_TRANSFER_WRITE);
        assert_eq!(end.old_layout, LAYOUT_TRANSFER_DST_OPTIMAL);
        assert_eq!(end.new_layout, LAYOUT_SHADER_READ_ONLY_OPTIMAL);
        assert_eq!(end.src_queue_family, 3);
        assert_eq!(end.dst_queue_family, 0);
        assert_eq!(end.image, 100 + i as u64);
        assert_eq!(start.image, 100 + i as u64);
    }
}

#[test]
fn image_write_shifts_region_offsets() {
    let mut transaction = Transaction::new(1, 0);
    let padding: Vec<u8> = vec![0; 10];
    transaction.buffer_write(&padding, 7, 0);
    let texels: Vec<u8> = vec![2; 32];
    transaction.image_write(
        &texels,
        55,
        color_range(),
        &[region(0, 2, 2), region(16, 2, 2)],
        LAYOUT_SHADER_READ_ONLY_OPTIMAL,
    );
    assert_eq!(transaction.regions.len(), 2);
    assert_eq!(transaction.regions[0].buffer_offset, 16);
    assert_eq!(transaction.regions[1].buffer_offset, 32);
    let it = &transaction.image_transfers[0];
    assert_eq!(it.region_offset, 0);
    assert_eq!(it.region_count, 2);
    assert_eq!(it.dst, 55);
    assert_eq!(it.layout, LAYOUT_SHADER_READ_ONLY_OPTIMAL);
}

#[test]
fn clear_empties_work_but_keeps_arena_capacity() {
    let mut transaction = Transaction::new(2, 1);
    let data: Vec<u8> = vec![9; 100];
    transaction.buffer_write(&data, 1, 0);
    transaction.image_write(
        &data,
        2,
        color_range(),
        &[region(0, 5, 5)],
        LAYOUT_SHADER_READ_ONLY_OPTIMAL,
    );
    let peak = transaction.arena.size();
    transaction.clear();
    assert!(transaction.buffer_transfers.is_empty());
    assert!(transaction.image_transfers.is_empty());
    assert!(transaction.regions.is_empty());
    assert!(transaction.start_image_barriers.is_empty());
    assert!(transaction.end_image_barriers.is_empty());
    assert_eq!(transaction.arena.size(), peak);
    assert_eq!(transaction.transfer_family(), 2);
    assert_eq!(transaction.consumer_family(), 1);
}
