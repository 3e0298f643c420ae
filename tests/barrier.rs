use ash::vk;
use b4d_core::barrier::{
    ACCESS_TRANSFER_READ, ACCESS_TRANSFER_READ_WRITE, ACCESS_TRANSFER_WRITE, LAYOUT_GENERAL,
    LAYOUT_UNDEFINED, REMAINING_ARRAY_LAYERS, REMAINING_MIP_LEVELS, STAGE_TRANSFER, WHOLE_SIZE,
};
use b4d_core::transfer::Transfer;
use b4d_core::{Buffer, BufferBarrier, BufferId, Image, ImageId};

const FAMILY: u32 = 3;

fn transfer() -> Transfer {
    Transfer::new(FAMILY, 1, BufferId::from_raw(1), 64)
}

#[test]
fn graphics_api_values() {
    assert_eq!(STAGE_TRANSFER, vk::PipelineStageFlags2::TRANSFER.as_raw());
    assert_eq!(ACCESS_TRANSFER_READ, vk::AccessFlags2::TRANSFER_READ.as_raw());
    assert_eq!(ACCESS_TRANSFER_WRITE, vk::AccessFlags2::TRANSFER_WRITE.as_raw());
    assert_eq!(
        ACCESS_TRANSFER_READ_WRITE,
        (vk::AccessFlags2::TRANSFER_READ | vk::AccessFlags2::TRANSFER_WRITE).as_raw()
    );
    assert_eq!(LAYOUT_UNDEFINED, vk::ImageLayout::UNDEFINED.as_raw());
    assert_eq!(LAYOUT_GENERAL, vk::ImageLayout::GENERAL.as_raw());
    assert_eq!(WHOLE_SIZE, vk::WHOLE_SIZE);
    assert_eq!(REMAINING_MIP_LEVELS, vk::REMAINING_MIP_LEVELS);
    assert_eq!(REMAINING_ARRAY_LAYERS, vk::REMAINING_ARRAY_LAYERS);
}

#[test]
fn buffer_acquire_without_usage_has_no_barrier() {
    let t = transfer();
    let buffer = Buffer::new(BufferId::from_raw(4), 0x40);
    let op = t.prepare_buffer_acquire(buffer, None);
    assert_eq!(op.make_barrier(), None);
    assert_eq!(op.make_transfer_barrier(STAGE_TRANSFER, ACCESS_TRANSFER_READ_WRITE), None);
    assert_eq!(op.get_buffer(), buffer);
    assert_eq!(op.size, WHOLE_SIZE);
}

#[test]
fn buffer_acquire_same_family_has_no_user_barrier() {
    let t = transfer();
    let buffer = Buffer::new(BufferId::from_raw(4), 0x40);
    let op = t.prepare_buffer_acquire(buffer, Some((0x8, 0x20, FAMILY)));
    assert_eq!(op.make_barrier(), None);
    assert_eq!(
        op.make_transfer_barrier(STAGE_TRANSFER, ACCESS_TRANSFER_READ_WRITE),
        Some(BufferBarrier {
            src_stage_mask: 0x8,
            src_access_mask: 0x20,
            dst_stage_mask: STAGE_TRANSFER,
            dst_access_mask: ACCESS_TRANSFER_READ_WRITE,
            src_queue_family_index: 0,
            dst_queue_family_index: 0,
            buffer: 0x40,
            offset: 0,
            size: WHOLE_SIZE,
        })
    );
}

#[test]
fn buffer_acquire_other_family_transfers_ownership() {
    let t = transfer();
    let buffer = Buffer::new(BufferId::from_raw(4), 0x40);
    let op = t.prepare_buffer_acquire(buffer, Some((0x8, 0x20, 0)));
    assert_eq!(
        op.make_barrier(),
        Some(BufferBarrier {
            src_stage_mask: 0x8,
            src_access_mask: 0x20,
            dst_stage_mask: 0,
            dst_access_mask: 0,
            src_queue_family_index: 0,
            dst_queue_family_index: FAMILY,
            buffer: 0x40,
            offset: 0,
            size: WHOLE_SIZE,
        })
    );
    let engine = op.make_transfer_barrier(STAGE_TRANSFER, ACCESS_TRANSFER_WRITE).unwrap();
    assert_eq!((engine.src_queue_family_index, engine.dst_queue_family_index), (0, FAMILY));
    assert_eq!((engine.src_stage_mask, engine.dst_stage_mask), (0, STAGE_TRANSFER));
}

#[test]
fn buffer_release_barriers() {
    let t = transfer();
    let buffer = Buffer::new(BufferId::from_raw(4), 0x40);
    assert_eq!(t.prepare_buffer_release(buffer, Some((0x8, 0x20, FAMILY))).make_barrier(), None);
    assert_eq!(t.prepare_buffer_release(buffer, None).make_barrier(), None);
    let b = t.prepare_buffer_release(buffer, Some((0x8, 0x20, 7))).make_barrier().unwrap();
    assert_eq!((b.src_queue_family_index, b.dst_queue_family_index), (FAMILY, 7));
    assert_eq!((b.dst_stage_mask, b.dst_access_mask), (0x8, 0x20));
}

#[test]
fn image_acquire_barriers() {
    let t = transfer();
    let image = Image::new(ImageId::from_raw(8), 0x80);
    let fresh = t.prepare_image_acquire(image, 1, None);
    assert_eq!(fresh.get_barrier(), None);
    assert_eq!(fresh.local_layout, LAYOUT_UNDEFINED);

    let undefined = t.prepare_image_acquire(image, 1, Some((0x8, 0x20, 0, LAYOUT_UNDEFINED)));
    assert_eq!(undefined.get_barrier(), None);

    let same = t.prepare_image_acquire(image, 1, Some((0x8, 0x20, FAMILY, LAYOUT_GENERAL)));
    assert_eq!(same.get_barrier(), None);
    assert_eq!(same.local_layout, LAYOUT_GENERAL);

    let transition = t.prepare_image_acquire(image, 1, Some((0x8, 0x20, FAMILY, 5))).get_barrier().unwrap();
    assert_eq!((transition.old_layout, transition.new_layout), (5, LAYOUT_GENERAL));
    assert_eq!(transition.src_queue_family_index, transition.dst_queue_family_index);

    let op = t.prepare_image_acquire(image, 1, Some((0x8, 0x20, 0, 5)));
    let b = op.get_barrier().unwrap();
    assert_eq!((b.src_queue_family_index, b.dst_queue_family_index), (0, FAMILY));
    assert_eq!(b.image, 0x80);
    assert_eq!(b.subresource_range.level_count, REMAINING_MIP_LEVELS);
    assert_eq!(op.get_image(), image);
}

#[test]
fn image_release_barriers() {
    let t = transfer();
    let image = Image::new(ImageId::from_raw(8), 0x80);
    assert_eq!(t.prepare_image_release(image, 1, Some((0x8, 0x20, FAMILY, 5))).get_barrier(), None);
    let b = t.prepare_image_release(image, 1, Some((0x8, 0x20, 0, 5))).get_barrier().unwrap();
    assert_eq!((b.src_queue_family_index, b.dst_queue_family_index), (FAMILY, 0));
    assert_eq!((b.old_layout, b.new_layout), (LAYOUT_GENERAL, 5));
    assert_eq!((b.src_stage_mask, b.dst_stage_mask), (STAGE_TRANSFER, 0x8));
}
