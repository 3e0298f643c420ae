use b4d_core::staging::StagingAllocator;
use b4d_core::transfer::Transfer;
use b4d_core::{BufferId, BufferTransferRange, BufferTransferRanges, Task, WorkerPoll};

fn new_transfer(capacity: u64) -> Transfer {
    Transfer::new(0, 1, BufferId::from_raw(1), capacity)
}

#[test]
fn write_that_does_not_fit_changes_nothing() {
    let mut t = new_transfer(128);
    let lease = t.request_staging_memory(16).unwrap();
    assert_eq!(lease.write(&mut t, &[7u8; 16]), Some(16));
    assert_eq!(lease.write(&mut t, &[1u8; 17]), None);
    assert_eq!(lease.write_offset(&mut t, &[2u8; 4], 13), None);
    assert_eq!(lease.get_memory(&t), vec![7u8; 16]);
    assert_eq!(lease.write_offset(&mut t, &[3u8; 4], 12), Some(4));
    let mut expected = vec![7u8; 12];
    expected.extend_from_slice(&[3u8; 4]);
    assert_eq!(lease.get_memory(&t), expected);
}

#[test]
fn write_leaves_other_leases_untouched() {
    let mut t = new_transfer(128);
    let a = t.request_staging_memory(8).unwrap();
    let b = t.request_staging_memory(8).unwrap();
    assert_eq!(a.write(&mut t, &[9u8; 8]), Some(8));
    assert_eq!(b.write(&mut t, &[4u8; 8]), Some(8));
    assert_eq!(a.write(&mut t, &[5u8; 9]), None);
    assert_eq!(a.get_memory(&t), vec![9u8; 8]);
    assert_eq!(b.get_memory(&t), vec![4u8; 8]);
}

#[test]
fn read_bounds() {
    let mut t = new_transfer(64);
    let lease = t.request_staging_memory(8).unwrap();
    lease.write(&mut t, &[1, 2, 3, 4, 5, 6, 7, 8]).unwrap();
    let mut out = [0u8; 9];
    assert_eq!(lease.read(&t, &mut out), Err(()));
    assert_eq!(out, [0u8; 9]);
    let mut out = [0u8; 3];
    assert_eq!(lease.read_offset(&t, &mut out, 6), Err(()));
    assert_eq!(lease.read_offset(&t, &mut out, 5), Ok(()));
    assert_eq!(out, [6, 7, 8]);
}

#[test]
fn leases_do_not_overlap_and_space_is_reused_after_completion() {
    let mut t = new_transfer(32);
    let a = t.request_staging_memory(16).unwrap();
    let b = t.request_staging_memory(16).unwrap();
    assert_eq!(a.get_buffer_offset(), 0);
    assert_eq!(b.get_buffer_offset(), 16);
    let a_id = a.get_id();
    a.release(&mut t);
    // Not reusable before the release has completed: the buffer grows instead.
    let c = t.request_staging_memory(8).unwrap();
    assert_eq!(c.get_buffer_offset(), 32);
    match t.poll_worker() {
        WorkerPoll::Run(tasks) => assert!(matches!(tasks[0], Task::StagingRelease(id) if id == a_id)),
        _ => panic!("release not queued"),
    }
    t.mark_completed(1, &vec![a_id]);
    let d = t.request_staging_memory(16).unwrap();
    assert_eq!(d.get_buffer_offset(), 0);
    assert_eq!(d.get_size(), 16);
}

#[test]
fn staging_buffer_grows_and_keeps_bytes() {
    let mut t = new_transfer(8);
    let a = t.request_staging_memory(8).unwrap();
    a.write(&mut t, &[3u8; 8]).unwrap();
    let b = t.request_staging_memory(100).unwrap();
    assert_eq!(b.get_buffer_offset(), 8);
    assert_eq!(a.get_memory(&t), vec![3u8; 8]);
    assert_eq!(b.get_memory(&t), vec![0u8; 100]);
}

#[test]
fn allocator_first_fit() {
    let mut alloc = StagingAllocator::new(100);
    let a = alloc.allocate(10).unwrap();
    let b = alloc.allocate(20).unwrap();
    let c = alloc.allocate(30).unwrap();
    assert_eq!((a.offset, b.offset, c.offset), (0, 10, 30));
    assert!(alloc.free(b.id));
    assert!(!alloc.free(b.id));
    let d = alloc.allocate(15).unwrap();
    assert_eq!(d.offset, 10);
    let e = alloc.allocate(40).unwrap();
    assert_eq!(e.offset, 60);
    assert_eq!(alloc.get_capacity(), 100);
    let f = alloc.allocate(5).unwrap();
    assert_eq!(f.offset, 25);
    let g = alloc.allocate(50).unwrap();
    assert_eq!(g.offset, 100);
    assert_eq!(alloc.get_capacity(), 150);
    assert_eq!(alloc.live_count(), 6);
}

#[test]
fn allocator_refuses_past_largest_size() {
    let mut alloc = StagingAllocator::new(0);
    assert!(alloc.allocate(0x8000_0001).is_none());
    assert!(alloc.allocate(0x8000_0000).is_some());
    assert!(alloc.allocate(1).is_none());
}

#[test]
fn copy_to_buffer_moves_ranges_by_lease_offset() {
    let mut t = new_transfer(64);
    let _first = t.request_staging_memory(24).unwrap();
    let lease = t.request_staging_memory(16).unwrap();
    let ranges = BufferTransferRanges::Multiple(vec![
        BufferTransferRange::new(0, 100, 8),
        BufferTransferRange::new(8, 300, 8),
    ]);
    lease.copy_to_buffer(&mut t, BufferId::from_raw(50), ranges);
    match t.poll_worker() {
        WorkerPoll::Run(tasks) => match &tasks[0] {
            Task::BufferTransfer(copy) => {
                assert_eq!(copy.src_buffer, BufferId::from_raw(1));
                assert_eq!(copy.dst_buffer, BufferId::from_raw(50));
                assert_eq!(
                    copy.ranges.as_slice(),
                    vec![BufferTransferRange::new(24, 100, 8), BufferTransferRange::new(32, 300, 8)]
                );
            }
            _ => panic!("expected a buffer transfer"),
        },
        _ => panic!("nothing queued"),
    }
}

#[test]
fn host_copies_check_bounds() {
    let mut t = new_transfer(16);
    let mut device = vec![0u8; 4];
    assert!(!t.run_copy_from_staging(BufferTransferRange::new(0, 2, 3), &mut device));
    assert_eq!(device, vec![0u8; 4]);
    assert!(!t.run_copy_to_staging(&[1, 2, 3], BufferTransferRange::new(0, 14, 3)));
    assert!(t.run_copy_to_staging(&[1, 2, 3], BufferTransferRange::new(1, 14, 2)));
    assert!(t.run_copy_from_staging(BufferTransferRange::new(13, 0, 3), &mut device));
    assert_eq!(device, vec![0, 2, 3, 0]);
}
