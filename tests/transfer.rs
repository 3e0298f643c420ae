use b4d_core::transfer::Transfer;
use b4d_core::worker::{Command, Worker};
use b4d_core::{
    AcquireError, Buffer, BufferId, BufferTransferRanges, ReleaseError, SemaphoreOps, SyncId,
    WorkerPoll,
};

const TRANSFER_FAMILY: u32 = 2;

fn new_transfer() -> Transfer {
    Transfer::new(TRANSFER_FAMILY, 77, BufferId::from_raw(1), 256)
}

/// Plays the worker thread and the device for one device buffer kept in host memory:
/// drains the queue, runs every closed batch and reports it submitted and completed.
fn run_on_host(transfer: &mut Transfer, worker: &mut Worker, device_id: BufferId, device: &mut Vec<u8>) {
    let staging = transfer.get_staging_buffer();
    loop {
        let tasks = match transfer.poll_worker() {
            WorkerPoll::Run(tasks) => tasks,
            _ => return,
        };
        for task in tasks {
            if let Some(submission) = worker.process_task(task) {
                for command in &submission.commands {
                    if let Command::CopyBuffer(copy) = command {
                        for range in copy.ranges.as_slice() {
                            if copy.src_buffer == staging && copy.dst_buffer == device_id {
                                assert!(transfer.run_copy_from_staging(range, device));
                            } else if copy.src_buffer == device_id && copy.dst_buffer == staging {
                                assert!(transfer.run_copy_to_staging(device, range));
                            } else {
                                panic!("copy between unknown buffers");
                            }
                        }
                    }
                }
                transfer.mark_submitted(submission.signal);
                transfer.mark_completed(submission.signal, &submission.staging_releases);
            }
        }
    }
}

fn u32s_to_bytes(data: &[u32]) -> Vec<u8> {
    data.iter().flat_map(|v| v.to_ne_bytes()).collect()
}

fn bytes_to_u32s(data: &[u8]) -> Vec<u32> {
    data.chunks(4).map(|c| u32::from_ne_bytes([c[0], c[1], c[2], c[3]])).collect()
}

#[test]
fn test_buffer_copy() {
    let mut transfer = new_transfer();
    let mut worker = Worker::new();
    let buffer = Buffer::new(BufferId::from_raw(100), 0xb0);
    let mut device = vec![0u8; 1024];

    let data: Vec<u32> = (0u32..16u32).collect();
    let byte_size = data.len() * std::mem::size_of::<u32>();

    let op = transfer.prepare_buffer_acquire(buffer, None);
    transfer.acquire_buffer(op, SemaphoreOps::Empty).unwrap();

    let write_mem = transfer.request_staging_memory(byte_size).unwrap();
    write_mem.write(&mut transfer, &u32s_to_bytes(&data));
    write_mem.copy_to_buffer(&mut transfer, buffer.get_id(), BufferTransferRanges::new_single(0, 0, byte_size as u64));

    let mut dst_data = vec![0u8; byte_size];

    let read_mem = transfer.request_staging_memory(byte_size).unwrap();
    read_mem.copy_from_buffer(&mut transfer, buffer.get_id(), BufferTransferRanges::new_single(0, 0, byte_size as u64));

    let op = transfer.prepare_buffer_release(buffer, None);
    let id = transfer.release_buffer(op).unwrap();
    transfer.flush(id);

    run_on_host(&mut transfer, &mut worker, buffer.get_id(), &mut device);
    assert!(transfer.is_complete(id));
    read_mem.read(&transfer, &mut dst_data).unwrap();

    assert_eq!(data, bytes_to_u32s(&dst_data));
}

#[test]
fn scenario_lease_round_trip_through_device_buffer() {
    let mut transfer = new_transfer();
    let mut worker = Worker::new();
    let buffer = Buffer::new(BufferId::from_raw(5), 0x55);
    let mut device = vec![0u8; 1024];
    let data: Vec<u8> = (0u8..16u8).collect();

    let op = transfer.prepare_buffer_acquire(buffer, None);
    transfer.acquire_buffer(op, SemaphoreOps::Empty).unwrap();
    let lease = transfer.request_staging_memory(64).unwrap();
    assert_eq!(lease.write_offset(&mut transfer, &data, 0), Some(16));
    lease.copy_to_buffer(&mut transfer, buffer.get_id(), BufferTransferRanges::new_single(0, 0, 16));
    let op = transfer.prepare_buffer_release(buffer, None);
    let first = transfer.release_buffer(op).unwrap();
    transfer.flush(first);
    run_on_host(&mut transfer, &mut worker, buffer.get_id(), &mut device);
    assert!(transfer.is_complete(first));
    assert_eq!(&device[0..16], data.as_slice());

    let op = transfer.prepare_buffer_acquire(buffer, None);
    transfer.acquire_buffer(op, SemaphoreOps::Empty).unwrap();
    let second = transfer.request_staging_memory(64).unwrap();
    second.copy_from_buffer(&mut transfer, buffer.get_id(), BufferTransferRanges::new_single(0, 0, 16));
    let op = transfer.prepare_buffer_release(buffer, None);
    let id = transfer.release_buffer(op).unwrap();
    transfer.flush(id);
    run_on_host(&mut transfer, &mut worker, buffer.get_id(), &mut device);
    assert!(transfer.is_complete(id));

    let mut out = vec![0u8; 16];
    assert_eq!(second.read(&transfer, &mut out), Ok(()));
    assert_eq!(out, data);
}

#[test]
fn round_trip_at_nonzero_offsets() {
    let mut transfer = new_transfer();
    let mut worker = Worker::new();
    let buffer = Buffer::new(BufferId::from_raw(6), 0x66);
    let mut device = vec![0xeeu8; 300];
    let data: Vec<u8> = (0..40).map(|v| (v * 7 + 3) as u8).collect();

    let padding = transfer.request_staging_memory(24).unwrap();
    let lease = transfer.request_staging_memory(48).unwrap();
    assert_eq!(lease.write_offset(&mut transfer, &data, 8), Some(40));
    lease.copy_to_buffer(&mut transfer, buffer.get_id(), BufferTransferRanges::new_single(8, 200, 40));
    let back = transfer.request_staging_memory(40).unwrap();
    back.copy_from_buffer(&mut transfer, buffer.get_id(), BufferTransferRanges::new_single(200, 0, 40));
    transfer.flush(SyncId::from_raw(1));
    run_on_host(&mut transfer, &mut worker, buffer.get_id(), &mut device);

    assert_eq!(&device[200..240], data.as_slice());
    assert_eq!(device[199], 0xee);
    assert_eq!(device[240], 0xee);
    let mut out = vec![0u8; 40];
    back.read(&transfer, &mut out).unwrap();
    assert_eq!(out, data);
    assert_ne!(padding.get_buffer_offset(), lease.get_buffer_offset());
}

#[test]
fn release_before_acquire_fails() {
    let mut transfer = new_transfer();
    let buffer = Buffer::new(BufferId::from_raw(9), 0x99);
    let op = transfer.prepare_buffer_release(buffer, None);
    assert_eq!(transfer.release_buffer(op), Err(ReleaseError::NotAvailable));
    assert!(matches!(transfer.poll_worker(), WorkerPoll::Wait));
}

#[test]
fn second_acquire_fails_until_release() {
    let mut transfer = new_transfer();
    let buffer = Buffer::new(BufferId::from_raw(9), 0x99);
    let op = transfer.prepare_buffer_acquire(buffer, None);
    assert_eq!(transfer.acquire_buffer(op, SemaphoreOps::Empty), Ok(()));
    let op = transfer.prepare_buffer_acquire(buffer, None);
    assert_eq!(transfer.acquire_buffer(op, SemaphoreOps::Empty), Err(AcquireError::AlreadyAvailable));
    let op = transfer.prepare_buffer_release(buffer, None);
    assert_eq!(transfer.release_buffer(op), Ok(SyncId::from_raw(1)));
    let op = transfer.prepare_buffer_release(buffer, None);
    assert_eq!(transfer.release_buffer(op), Err(ReleaseError::NotAvailable));
    let op = transfer.prepare_buffer_acquire(buffer, None);
    assert_eq!(transfer.acquire_buffer(op, SemaphoreOps::Empty), Ok(()));
}
