use b4d_core::ranges::{BufferTransfer, BufferTransferRange, BufferTransferRanges};
use b4d_core::transfer::Transfer;
use b4d_core::worker::{Command, Worker};
use b4d_core::{
    AcquireError, Buffer, BufferId, BufferImageTransferRange, BufferImageTransferRanges, Extent3,
    Image, ImageId, Offset3, ReleaseError, SemaphoreOp, SemaphoreOps, SyncId, Task, WorkerPoll,
};

fn new_transfer() -> Transfer {
    Transfer::new(1, 42, BufferId::from_raw(1), 64)
}

#[test]
fn sync_id_raw_round_trip() {
    assert_eq!(SyncId::from_raw(17).get_raw(), 17);
    assert!(SyncId::from_raw(3) < SyncId::from_raw(4));
    assert_eq!(BufferId::from_raw(5).get_raw(), 5);
    assert_eq!(ImageId::from_raw(6).get_raw(), 6);
}

#[test]
fn release_ids_increase_and_tasks_keep_order() {
    let mut t = new_transfer();
    let a = Buffer::new(BufferId::from_raw(10), 0xa);
    let b = Buffer::new(BufferId::from_raw(11), 0xb);
    for buffer in [a, b] {
        let op = t.prepare_buffer_acquire(buffer, None);
        t.acquire_buffer(op, SemaphoreOps::Empty).unwrap();
    }
    let op = t.prepare_buffer_release(a, None);
    let first = t.release_buffer(op).unwrap();
    let op = t.prepare_buffer_release(b, None);
    let second = t.release_buffer(op).unwrap();
    assert!(first < second);
    t.flush(second);
    match t.poll_worker() {
        WorkerPoll::Run(tasks) => {
            assert_eq!(tasks.len(), 5);
            assert!(matches!(tasks[0], Task::BufferAcquire(..)));
            assert!(matches!(tasks[2], Task::BufferRelease(_, id) if id == first.get_raw()));
            assert!(matches!(tasks[3], Task::BufferRelease(_, id) if id == second.get_raw()));
            assert!(matches!(tasks[4], Task::Flush(id) if id == second.get_raw()));
        }
        _ => panic!("tasks expected"),
    }
    assert!(matches!(t.poll_worker(), WorkerPoll::Wait));
}

#[test]
fn waits_end_in_id_order() {
    let mut t = new_transfer();
    let a = SyncId::from_raw(3);
    let b = SyncId::from_raw(5);
    assert!(!t.is_submitted(a) && !t.is_submitted(b));
    t.mark_submitted(3);
    assert!(t.is_submitted(a) && !t.is_submitted(b));
    t.mark_submitted(5);
    assert!(t.is_submitted(a) && t.is_submitted(b));
    t.mark_submitted(2);
    assert!(t.is_submitted(b));
    assert!(!t.is_complete(a));
    t.mark_completed(4, &Vec::new());
    assert!(t.is_complete(a) && !t.is_complete(b));
    t.mark_completed(1, &Vec::new());
    assert!(t.is_complete(a));
}

#[test]
fn wait_semaphore_names_the_engine_semaphore() {
    let t = new_transfer();
    assert_eq!(
        t.generate_wait_semaphore(SyncId::from_raw(9)),
        SemaphoreOp { semaphore: 42, value: Some(9) }
    );
}

#[test]
fn worker_exits_only_after_draining() {
    let mut t = new_transfer();
    t.flush(SyncId::from_raw(1));
    t.terminate();
    assert!(matches!(t.poll_worker(), WorkerPoll::Run(_)));
    assert!(matches!(t.poll_worker(), WorkerPoll::Exit));
}

#[test]
fn image_acquire_release_contract() {
    let mut t = new_transfer();
    let image = Image::new(ImageId::from_raw(3), 0x3);
    let op = t.prepare_image_release(image, 1, None);
    assert_eq!(t.release_image(op), Err(ReleaseError::NotAvailable));
    let op = t.prepare_image_acquire(image, 1, None);
    assert_eq!(t.make_image_available(op, SemaphoreOps::Empty), Ok(()));
    let op = t.prepare_image_acquire(image, 1, None);
    assert_eq!(t.make_image_available(op, SemaphoreOps::Empty), Err(AcquireError::AlreadyAvailable));
    let op = t.prepare_image_release(image, 1, None);
    assert_eq!(t.release_image(op), Ok(SyncId::from_raw(1)));
}

#[test]
fn worker_batches_until_flush() {
    let mut t = new_transfer();
    let mut worker = Worker::new();
    let buffer = Buffer::new(BufferId::from_raw(10), 0xa);
    let wait = SemaphoreOp { semaphore: 8, value: Some(2) };
    let op = t.prepare_buffer_acquire(buffer, Some((0x4, 0x8, 0)));
    t.acquire_buffer(op, SemaphoreOps::One(wait)).unwrap();
    let lease = t.request_staging_memory(16).unwrap();
    let range = BufferImageTransferRange {
        buffer_offset: 0,
        buffer_row_length: 0,
        buffer_image_height: 0,
        image_aspect_mask: 1,
        image_mip_level: 0,
        image_base_array_layer: 0,
        image_layer_count: 1,
        image_offset: Offset3 { x: 0, y: 0, z: 0 },
        image_extent: Extent3 { width: 2, height: 2, depth: 1 },
    };
    lease.copy_to_image(&mut t, ImageId::from_raw(4), BufferImageTransferRanges::One(range));
    let lease_id = lease.get_id();
    let lease_offset = lease.get_buffer_offset();
    lease.release(&mut t);
    t.flush(SyncId::from_raw(1));
    let tasks = match t.poll_worker() {
        WorkerPoll::Run(tasks) => tasks,
        _ => panic!("tasks expected"),
    };
    let mut submissions = Vec::new();
    for task in tasks {
        assert!(!worker.is_idle() || submissions.is_empty());
        if let Some(s) = worker.process_task(task) {
            submissions.push(s);
        }
    }
    assert!(worker.is_idle());
    assert_eq!(submissions.len(), 1);
    let s = &submissions[0];
    assert_eq!(s.signal, 1);
    assert_eq!(s.waits, vec![wait]);
    assert_eq!(s.staging_releases, vec![lease_id]);
    assert_eq!(s.commands.len(), 2);
    match &s.commands[0] {
        Command::BufferBarrier(b) => assert_eq!((b.src_queue_family_index, b.dst_queue_family_index), (0, 1)),
        _ => panic!("barrier expected"),
    }
    match &s.commands[1] {
        Command::CopyBufferToImage(c) => {
            assert_eq!(c.dst_image, ImageId::from_raw(4));
            assert_eq!(c.ranges.as_slice()[0].buffer_offset, lease_offset);
        }
        _ => panic!("copy expected"),
    }
    let copy = BufferTransfer::new_single_range(BufferId::from_raw(1), 0, BufferId::from_raw(2), 4, 8);
    assert_eq!(copy.ranges.as_slice().len(), 1);
}

#[test]
fn ranges_move_by_offset() {
    let mut ranges = BufferTransferRanges::Multiple(vec![
        BufferTransferRange::new(1, 2, 3),
        BufferTransferRange::new(4, 5, 6),
    ]);
    ranges.add_src_offset(10);
    ranges.add_dst_offset(100);
    assert_eq!(
        ranges.as_slice(),
        vec![BufferTransferRange::new(11, 102, 3), BufferTransferRange::new(14, 105, 6)]
    );
    let mut one = BufferTransferRanges::new_single(0, 0, 4);
    one.add_dst_offset(7);
    assert_eq!(one.as_slice(), vec![BufferTransferRange::new(0, 7, 4)]);
}
