use vstd::prelude::*;

use crate::barrier::{
    buffer_acquire_op, buffer_release_op, image_acquire_op, image_release_op, Buffer,
    BufferAcquireOp, BufferReleaseOp, Image, ImageAvailabilityOp, ImageBarrier,
    ImageSubresourceRange, ACCESS_TRANSFER_READ_WRITE, LAYOUT_GENERAL, LAYOUT_UNDEFINED,
    REMAINING_ARRAY_LAYERS, REMAINING_MIP_LEVELS, STAGE_TRANSFER, WHOLE_SIZE,
};
use crate::id::{AcquireError, BufferId, ImageId, ReleaseError, SyncId};
use crate::ranges::{
    shift_buffer, shift_dst, shift_src, BufferImageTransferRange, BufferImageTransferRanges,
    BufferToImageTransfer, BufferTransfer, BufferTransferRange, BufferTransferRanges,
};
use crate::staging::{gap_start, has_gap, StagingAllocator, StagingRange, MAX_STAGING_CAPACITY};
use crate::task::{SemaphoreOp, SemaphoreOps, Task};

verus! {

/// `dst` with `size` bytes from `src`, starting at `src_offset`, written over it at
/// `dst_offset`.
pub open spec fn overwrite(dst: Seq<u8>, dst_offset: int, src: Seq<u8>, src_offset: int, size: int) -> Seq<u8> {
    Seq::new(
        dst.len(),
        |i: int|
            if dst_offset <= i < dst_offset + size {
                src[src_offset + i - dst_offset]
            } else {
                dst[i]
            },
    )
}

/// What acquiring buffer `b` returns on engine state `t`.
pub open spec fn acquire_buffer_outcome(t: Transfer, b: BufferId) -> Result<(), AcquireError> {
    if t.buffer_available(b) {
        Err(AcquireError::AlreadyAvailable)
    } else {
        Ok(())
    }
}

/// What releasing buffer `b` returns on engine state `t`.
pub open spec fn release_buffer_outcome(t: Transfer, b: BufferId) -> Result<SyncId, ReleaseError> {
    if t.buffer_available(b) {
        Ok(SyncId(t.next_id()))
    } else {
        Err(ReleaseError::NotAvailable)
    }
}

/// What making image `i` available returns on engine state `t`.
pub open spec fn acquire_image_outcome(t: Transfer, i: ImageId) -> Result<(), AcquireError> {
    if t.image_available(i) {
        Err(AcquireError::AlreadyAvailable)
    } else {
        Ok(())
    }
}

/// What releasing image `i` returns on engine state `t`.
pub open spec fn release_image_outcome(t: Transfer, i: ImageId) -> Result<SyncId, ReleaseError> {
    if t.image_available(i) {
        Ok(SyncId(t.next_id()))
    } else {
        Err(ReleaseError::NotAvailable)
    }
}

/// The state the transfer engine shares between the callers that queue work and the
/// worker that runs it: the task queue, the submission progress, the resources that are
/// available to the engine, and the staging memory.
pub struct Transfer {
    queue_family: u32,
    semaphore: u64,
    staging_buffer: BufferId,
    tasks: Vec<Task>,
    next_sync_id: u64,
    last_submitted: u64,
    last_completed: u64,
    terminated: bool,
    buffers: Vec<BufferId>,
    images: Vec<ImageId>,
    allocator: StagingAllocator,
    staging: Vec<u8>,
}

/// Whether the worker waits, runs the tasks it took, or exits.
#[derive(Debug)]
pub enum WorkerPoll {
    Wait,
    Run(Vec<Task>),
    Exit,
}

/// A lease of a byte range of the staging buffer. Offsets given to its methods are local
/// to the lease.
#[derive(Debug)]
pub struct StagingMemory {
    memory_id: u64,
    buffer_offset: u64,
    size: u64,
}

impl StagingMemory {
    pub closed spec fn spec_id(&self) -> u64 {
        self.memory_id
    }

    /// Where the lease starts in the staging buffer.
    pub closed spec fn spec_offset(&self) -> u64 {
        self.buffer_offset
    }

    /// The lease's length in bytes.
    pub closed spec fn spec_size(&self) -> u64 {
        self.size
    }

    /// The lease's range of the staging buffer.
    pub open spec fn range(&self) -> StagingRange {
        StagingRange { id: self.spec_id(), offset: self.spec_offset(), size: self.spec_size() }
    }
}

impl Transfer {
    pub closed spec fn family(&self) -> u32 {
        self.queue_family
    }

    pub closed spec fn spec_semaphore(&self) -> u64 {
        self.semaphore
    }

    pub closed spec fn spec_staging_buffer(&self) -> BufferId {
        self.staging_buffer
    }

    /// The tasks queued and not yet taken by the worker, oldest first.
    pub closed spec fn queued(&self) -> Seq<Task> {
        self.tasks@
    }

    /// The id the next release mints.
    pub closed spec fn next_id(&self) -> u64 {
        self.next_sync_id
    }

    /// Ids up to this one have been submitted to the device.
    pub closed spec fn submitted(&self) -> u64 {
        self.last_submitted
    }

    /// Ids up to this one have completed on the device.
    pub closed spec fn completed(&self) -> u64 {
        self.last_completed
    }

    pub closed spec fn spec_terminated(&self) -> bool {
        self.terminated
    }

    /// The buffer is available to the engine: acquired and not yet released.
    pub closed spec fn buffer_available(&self, b: BufferId) -> bool {
        self.buffers@.contains(b)
    }

    /// The image is available to the engine: acquired and not yet released.
    pub closed spec fn image_available(&self, i: ImageId) -> bool {
        self.images@.contains(i)
    }

    /// The live staging ranges.
    pub closed spec fn staging_ranges(&self) -> Seq<StagingRange> {
        self.allocator.live()
    }

    /// The bytes of the staging buffer.
    pub closed spec fn staging_memory(&self) -> Seq<u8> {
        self.staging@
    }

    /// The lease is one of the live staging ranges.
    pub open spec fn holds(&self, lease: &StagingMemory) -> bool {
        self.staging_ranges().contains(lease.range())
    }

    pub closed spec fn wf(&self) -> bool {
        &&& self.allocator.wf()
        &&& self.staging@.len() == self.allocator.spec_capacity()
        &&& self.buffers@.no_duplicates()
        &&& self.images@.no_duplicates()
    }

    /// The staging allocator and the staging bytes are as in `other`.
    pub open spec fn same_staging(&self, other: &Transfer) -> bool {
        &&& self.staging_ranges() == other.staging_ranges()
        &&& self.staging_memory() == other.staging_memory()
        &&& self.next_lease_id() == other.next_lease_id()
    }

    /// Queue family, semaphore and staging buffer are as in `other`.
    pub open spec fn same_config(&self, other: &Transfer) -> bool {
        &&& self.family() == other.family()
        &&& self.spec_semaphore() == other.spec_semaphore()
        &&& self.spec_staging_buffer() == other.spec_staging_buffer()
    }

    /// Progress counters, termination flag and id counter are as in `other`.
    pub open spec fn same_progress(&self, other: &Transfer) -> bool {
        &&& self.next_id() == other.next_id()
        &&& self.submitted() == other.submitted()
        &&& self.completed() == other.completed()
        &&& self.spec_terminated() == other.spec_terminated()
    }

    /// The same resources are available as in `other`.
    pub open spec fn same_resources(&self, other: &Transfer) -> bool {
        &&& forall|b: BufferId| self.buffer_available(b) == other.buffer_available(b)
        &&& forall|i: ImageId| self.image_available(i) == other.image_available(i)
    }

    /// An engine whose transfer queue belongs to `queue_family`, whose timeline semaphore
    /// is `semaphore`, and whose staging buffer `staging_buffer` starts with
    /// `staging_capacity` bytes. Nothing is queued, available or leased.
    pub fn new(queue_family: u32, semaphore: u64, staging_buffer: BufferId, staging_capacity: u64) -> (r: Self)
        requires
            staging_capacity <= MAX_STAGING_CAPACITY,
        ensures
            r.wf(),
            r.family() == queue_family,
            r.spec_semaphore() == semaphore,
            r.spec_staging_buffer() == staging_buffer,
            r.queued() == Seq::<Task>::empty(),
            r.next_id() == 1,
            r.submitted() == 0,
            r.completed() == 0,
            !r.spec_terminated(),
            forall|b: BufferId| !r.buffer_available(b),
            forall|i: ImageId| !r.image_available(i),
            r.staging_ranges() == Seq::<StagingRange>::empty(),
            r.staging_memory().len() == staging_capacity,
            r.next_lease_id() == 0,
    {
        Transfer {
            queue_family,
            semaphore,
            staging_buffer,
            tasks: Vec::new(),
            next_sync_id: 1,
            last_submitted: 0,
            last_completed: 0,
            terminated: false,
            buffers: Vec::new(),
            images: Vec::new(),
            allocator: StagingAllocator::new(staging_capacity),
            staging: vec![0u8; staging_capacity as usize],
        }
    }

    /// Returns the queue family index of the transfer queue.
    pub fn get_queue_family(&self) -> (r: u32)
        ensures
            r == self.family(),
    {
        self.queue_family
    }

    /// Returns the id of the buffer that backs all staging memory.
    pub fn get_staging_buffer(&self) -> (r: BufferId)
        ensures
            r == self.spec_staging_buffer(),
    {
        self.staging_buffer
    }

    /// Describes how `buffer` is handed to the engine. `usage` holds the stage mask, access
    /// mask and queue family of the buffer's last use; without it the buffer is fresh. Only
    /// a queue family other than the transfer queue's asks for an ownership transfer.
    pub fn prepare_buffer_acquire(&self, buffer: Buffer, usage: Option<(u64, u64, u32)>) -> (r: BufferAcquireOp)
        ensures
            r == buffer_acquire_op(self.family(), buffer, usage),
    {
        match usage {
            Some((src_stage_mask, src_access_mask, src_queue_family)) => {
                let queue_info = if src_queue_family == self.queue_family {
                    None
                } else {
                    Some((src_queue_family, self.queue_family))
                };
                BufferAcquireOp {
                    buffer,
                    offset: 0,
                    size: WHOLE_SIZE,
                    src_info: Some((src_stage_mask, src_access_mask)),
                    queue_info,
                }
            },
            None => BufferAcquireOp { buffer, offset: 0, size: WHOLE_SIZE, src_info: None, queue_info: None },
        }
    }

    /// Describes how `buffer` is handed back by the engine. `usage` holds the stage mask,
    /// access mask and queue family of the buffer's next use.
    pub fn prepare_buffer_release(&self, buffer: Buffer, usage: Option<(u64, u64, u32)>) -> (r: BufferReleaseOp)
        ensures
            r == buffer_release_op(self.family(), buffer, usage),
    {
        match usage {
            Some((dst_stage_mask, dst_access_mask, dst_queue_family)) => {
                let queue_info = if dst_queue_family == self.queue_family {
                    None
                } else {
                    Some((self.queue_family, dst_queue_family))
                };
                BufferReleaseOp {
                    buffer,
                    offset: 0,
                    size: WHOLE_SIZE,
                    dst_info: Some((dst_stage_mask, dst_access_mask)),
                    queue_info,
                }
            },
            None => BufferReleaseOp { buffer, offset: 0, size: WHOLE_SIZE, dst_info: None, queue_info: None },
        }
    }

    /// Describes how `image` is handed to the engine, which keeps images in the general
    /// layout. `usage` holds the stage mask, access mask, queue family and layout of the
    /// image's last use; without it the image is fresh and its layout undefined.
    pub fn prepare_image_acquire(
        &self,
        image: Image,
        aspect_mask: u32,
        usage: Option<(u64, u64, u32, i32)>,
    ) -> (r: ImageAvailabilityOp)
        ensures
            r == image_acquire_op(self.family(), image, aspect_mask, usage),
    {
        match usage {
            Some((stage, access, family, layout)) => {
                if layout != LAYOUT_UNDEFINED && (family != self.queue_family || layout != LAYOUT_GENERAL) {
                    let barrier = ImageBarrier {
                        src_stage_mask: stage,
                        src_access_mask: access,
                        dst_stage_mask: STAGE_TRANSFER,
                        dst_access_mask: ACCESS_TRANSFER_READ_WRITE,
                        old_layout: layout,
                        new_layout: LAYOUT_GENERAL,
                        src_queue_family_index: family,
                        dst_queue_family_index: self.queue_family,
                        image: image.handle,
                        subresource_range: ImageSubresourceRange {
                            aspect_mask,
                            base_mip_level: 0,
                            level_count: REMAINING_MIP_LEVELS,
                            base_array_layer: 0,
                            layer_count: REMAINING_ARRAY_LAYERS,
                        },
                    };
                    ImageAvailabilityOp { image, aspect_mask, local_layout: LAYOUT_GENERAL, barrier: Some(barrier) }
                } else {
                    ImageAvailabilityOp { image, aspect_mask, local_layout: layout, barrier: None }
                }
            },
            None => ImageAvailabilityOp { image, aspect_mask, local_layout: LAYOUT_UNDEFINED, barrier: None },
        }
    }

    /// Describes how `image` is handed back by the engine. `usage` holds the stage mask,
    /// access mask, queue family and layout of the image's next use.
    pub fn prepare_image_release(
        &self,
        image: Image,
        aspect_mask: u32,
        usage: Option<(u64, u64, u32, i32)>,
    ) -> (r: ImageAvailabilityOp)
        ensures
            r == image_release_op(self.family(), image, aspect_mask, usage),
    {
        match usage {
            Some((stage, access, family, layout)) => {
                if layout != LAYOUT_UNDEFINED && family != self.queue_family {
                    let barrier = ImageBarrier {
                        src_stage_mask: STAGE_TRANSFER,
                        src_access_mask: ACCESS_TRANSFER_READ_WRITE,
                        dst_stage_mask: stage,
                        dst_access_mask: access,
                        old_layout: LAYOUT_GENERAL,
                        new_layout: layout,
                        src_queue_family_index: self.queue_family,
                        dst_queue_family_index: family,
                        image: image.handle,
                        subresource_range: ImageSubresourceRange {
                            aspect_mask,
                            base_mip_level: 0,
                            level_count: REMAINING_MIP_LEVELS,
                            base_array_layer: 0,
                            layer_count: REMAINING_ARRAY_LAYERS,
                        },
                    };
                    ImageAvailabilityOp { image, aspect_mask, local_layout: LAYOUT_GENERAL, barrier: Some(barrier) }
                } else {
                    ImageAvailabilityOp { image, aspect_mask, local_layout: layout, barrier: None }
                }
            },
            None => ImageAvailabilityOp { image, aspect_mask, local_layout: LAYOUT_UNDEFINED, barrier: None },
        }
    }
}

/// The position of `b` in `v`, if it is there.
fn position_of_buffer(v: &Vec<BufferId>, b: BufferId) -> (r: Option<usize>)
    ensures
        r is None <==> !v@.contains(b),
        r is Some ==> r->0 < v@.len() && v@[r->0 as int] == b,
{
    let mut i: usize = 0;
    while i < v.len()
        invariant
            0 <= i <= v@.len(),
            forall|k: int| 0 <= k < i ==> v@[k] != b,
        decreases v@.len() - i,
    {
        if v[i].0 == b.0 {
            return Some(i);
        }
        i = i + 1;
    }
    None
}

/// The position of `img` in `v`, if it is there.
fn position_of_image(v: &Vec<ImageId>, img: ImageId) -> (r: Option<usize>)
    ensures
        r is None <==> !v@.contains(img),
        r is Some ==> r->0 < v@.len() && v@[r->0 as int] == img,
{
    let mut i: usize = 0;
    while i < v.len()
        invariant
            0 <= i <= v@.len(),
            forall|k: int| 0 <= k < i ==> v@[k] != img,
        decreases v@.len() - i,
    {
        if v[i].0 == img.0 {
            return Some(i);
        }
        i = i + 1;
    }
    None
}

/// Removing the one copy of `x` from a list without duplicates leaves exactly the others.
proof fn lemma_remove_unique<T>(s: Seq<T>, i: int, x: T)
    requires
        s.no_duplicates(),
        0 <= i < s.len(),
        s[i] == x,
    ensures
        s.remove(i).no_duplicates(),
        forall|y: T| s.remove(i).contains(y) <==> (s.contains(y) && y != x),
{
    let t = s.remove(i);
    assert forall|a: int, b: int| 0 <= a < b < t.len() implies t[a] != t[b] by {
        let oa = if a < i { a } else { a + 1 };
        let ob = if b < i { b } else { b + 1 };
        assert(t[a] == s[oa] && t[b] == s[ob]);
    }
    assert forall|y: T| t.contains(y) <==> (s.contains(y) && y != x) by {
        if t.contains(y) {
            let k = choose|k: int| 0 <= k < t.len() && t[k] == y;
            let ok = if k < i { k } else { k + 1 };
            assert(s[ok] == y);
        }
        if s.contains(y) && y != x {
            let k = choose|k: int| 0 <= k < s.len() && s[k] == y;
            if k < i {
                assert(t[k] == y);
            } else {
                assert(t[k - 1] == y);
            }
        }
    }
}

/// Appending an element that is not there keeps a list free of duplicates.
proof fn lemma_push_fresh<T>(s: Seq<T>, x: T)
    requires
        s.no_duplicates(),
        !s.contains(x),
    ensures
        s.push(x).no_duplicates(),
        forall|y: T| s.push(x).contains(y) <==> (s.contains(y) || y == x),
{
    let t = s.push(x);
    assert forall|a: int, b: int| 0 <= a < b < t.len() implies t[a] != t[b] by {
        if b == s.len() {
            assert(t[a] == s[a]);
        }
    }
    assert forall|y: T| t.contains(y) <==> (s.contains(y) || y == x) by {
        if t.contains(y) {
            let k = choose|k: int| 0 <= k < t.len() && t[k] == y;
            if k < s.len() {
                assert(s[k] == y);
            }
        }
        if s.contains(y) {
            let k = choose|k: int| 0 <= k < s.len() && s[k] == y;
            assert(t[k] == y);
        }
        if y == x {
            assert(t[s.len() as int] == y);
        }
    }
}

impl Transfer {
    /// Makes the buffer of `op` available to the engine once `semaphores` are signalled.
    /// A barrier returned by `op.make_barrier()` must have been submitted before. Fails,
    /// changing nothing, if the buffer is already available.
    pub fn acquire_buffer(&mut self, op: BufferAcquireOp, semaphores: SemaphoreOps) -> (r: Result<(), AcquireError>)
        requires
            old(self).wf(),
        ensures
            final(self).wf(),
            r == acquire_buffer_outcome(*old(self), op.buffer.id),
            final(self).same_config(old(self)),
            final(self).same_progress(old(self)),
            final(self).same_staging(old(self)),
            forall|i: ImageId| final(self).image_available(i) == old(self).image_available(i),
            old(self).buffer_available(op.buffer.id) ==> {
                &&& r == Err::<(), AcquireError>(AcquireError::AlreadyAvailable)
                &&& final(self).queued() == old(self).queued()
                &&& forall|b: BufferId| final(self).buffer_available(b) == old(self).buffer_available(b)
            },
            !old(self).buffer_available(op.buffer.id) ==> {
                &&& r == Ok::<(), AcquireError>(())
                &&& final(self).queued() == old(self).queued().push(Task::BufferAcquire(op, semaphores))
                &&& forall|b: BufferId|
                    final(self).buffer_available(b) == (old(self).buffer_available(b) || b == op.buffer.id)
            },
    {
        let id = op.buffer.id;
        match position_of_buffer(&self.buffers, id) {
            Some(_) => Err(AcquireError::AlreadyAvailable),
            None => {
                proof {
                    lemma_push_fresh(self.buffers@, id);
                }
                self.buffers.push(id);
                self.tasks.push(Task::BufferAcquire(op, semaphores));
                Ok(())
            },
        }
    }

    /// Revokes the availability of the buffer of `op` and returns the id of the release.
    /// A barrier returned by `op.make_barrier()` may be submitted once `is_submitted` holds
    /// of that id. Fails, changing nothing, if the buffer is not available.
    pub fn release_buffer(&mut self, op: BufferReleaseOp) -> (r: Result<SyncId, ReleaseError>)
        requires
            old(self).wf(),
            old(self).next_id() < u64::MAX,
        ensures
            final(self).wf(),
            r == release_buffer_outcome(*old(self), op.buffer.id),
            final(self).same_config(old(self)),
            final(self).same_staging(old(self)),
            final(self).submitted() == old(self).submitted(),
            final(self).completed() == old(self).completed(),
            final(self).spec_terminated() == old(self).spec_terminated(),
            forall|i: ImageId| final(self).image_available(i) == old(self).image_available(i),
            !old(self).buffer_available(op.buffer.id) ==> {
                &&& r == Err::<SyncId, ReleaseError>(ReleaseError::NotAvailable)
                &&& final(self).queued() == old(self).queued()
                &&& final(self).next_id() == old(self).next_id()
                &&& forall|b: BufferId| final(self).buffer_available(b) == old(self).buffer_available(b)
            },
            old(self).buffer_available(op.buffer.id) ==> {
                &&& r == Ok::<SyncId, ReleaseError>(SyncId(old(self).next_id()))
                &&& final(self).next_id() == old(self).next_id() + 1
                &&& final(self).queued() == old(self).queued().push(
                    Task::BufferRelease(op, old(self).next_id()),
                )
                &&& forall|b: BufferId|
                    final(self).buffer_available(b) == (old(self).buffer_available(b) && b != op.buffer.id)
            },
    {
        let id = op.buffer.id;
        match position_of_buffer(&self.buffers, id) {
            None => Err(ReleaseError::NotAvailable),
            Some(i) => {
                proof {
                    lemma_remove_unique(self.buffers@, i as int, id);
                }
                self.buffers.remove(i);
                let sync_id = self.next_sync_id;
                self.next_sync_id = self.next_sync_id + 1;
                self.tasks.push(Task::BufferRelease(op, sync_id));
                Ok(SyncId::from_raw(sync_id))
            },
        }
    }

    /// Makes the image of `op` available to the engine once `semaphores` are signalled.
    /// A barrier returned by `op.get_barrier()` must have been submitted before. Fails,
    /// changing nothing, if the image is already available.
    pub fn make_image_available(&mut self, op: ImageAvailabilityOp, semaphores: SemaphoreOps) -> (r: Result<(), AcquireError>)
        requires
            old(self).wf(),
        ensures
            final(self).wf(),
            r == acquire_image_outcome(*old(self), op.image.id),
            final(self).same_config(old(self)),
            final(self).same_progress(old(self)),
            final(self).same_staging(old(self)),
            forall|b: BufferId| final(self).buffer_available(b) == old(self).buffer_available(b),
            old(self).image_available(op.image.id) ==> {
                &&& r == Err::<(), AcquireError>(AcquireError::AlreadyAvailable)
                &&& final(self).queued() == old(self).queued()
                &&& forall|i: ImageId| final(self).image_available(i) == old(self).image_available(i)
            },
            !old(self).image_available(op.image.id) ==> {
                &&& r == Ok::<(), AcquireError>(())
                &&& final(self).queued() == old(self).queued().push(Task::ImageAcquire(op, semaphores))
                &&& forall|i: ImageId|
                    final(self).image_available(i) == (old(self).image_available(i) || i == op.image.id)
            },
    {
        let id = op.image.id;
        match position_of_image(&self.images, id) {
            Some(_) => Err(AcquireError::AlreadyAvailable),
            None => {
                proof {
                    lemma_push_fresh(self.images@, id);
                }
                self.images.push(id);
                self.tasks.push(Task::ImageAcquire(op, semaphores));
                Ok(())
            },
        }
    }

    /// Revokes the availability of the image of `op` and returns the id of the release.
    /// Fails, changing nothing, if the image is not available.
    pub fn release_image(&mut self, op: ImageAvailabilityOp) -> (r: Result<SyncId, ReleaseError>)
        requires
            old(self).wf(),
            old(self).next_id() < u64::MAX,
        ensures
            final(self).wf(),
            r == release_image_outcome(*old(self), op.image.id),
            final(self).same_config(old(self)),
            final(self).same_staging(old(self)),
            final(self).submitted() == old(self).submitted(),
            final(self).completed() == old(self).completed(),
            final(self).spec_terminated() == old(self).spec_terminated(),
            forall|b: BufferId| final(self).buffer_available(b) == old(self).buffer_available(b),
            !old(self).image_available(op.image.id) ==> {
                &&& r == Err::<SyncId, ReleaseError>(ReleaseError::NotAvailable)
                &&& final(self).queued() == old(self).queued()
                &&& final(self).next_id() == old(self).next_id()
                &&& forall|i: ImageId| final(self).image_available(i) == old(self).image_available(i)
            },
            old(self).image_available(op.image.id) ==> {
                &&& r == Ok::<SyncId, ReleaseError>(SyncId(old(self).next_id()))
                &&& final(self).next_id() == old(self).next_id() + 1
                &&& final(self).queued() == old(self).queued().push(
                    Task::ImageRelease(op, old(self).next_id()),
                )
                &&& forall|i: ImageId|
                    final(self).image_available(i) == (old(self).image_available(i) && i != op.image.id)
            },
    {
        let id = op.image.id;
        match position_of_image(&self.images, id) {
            None => Err(ReleaseError::NotAvailable),
            Some(i) => {
                proof {
                    lemma_remove_unique(self.images@, i as int, id);
                }
                self.images.remove(i);
                let sync_id = self.next_sync_id;
                self.next_sync_id = self.next_sync_id + 1;
                self.tasks.push(Task::ImageRelease(op, sync_id));
                Ok(SyncId::from_raw(sync_id))
            },
        }
    }

    /// Queues a flush: the work queued so far is submitted as one batch, whose completion
    /// signals `id`.
    pub fn flush(&mut self, id: SyncId)
        requires
            old(self).wf(),
        ensures
            final(self).wf(),
            final(self).same_config(old(self)),
            final(self).same_progress(old(self)),
            final(self).same_staging(old(self)),
            final(self).same_resources(old(self)),
            final(self).queued() == old(self).queued().push(Task::Flush(id.0)),
    {
        self.tasks.push(Task::Flush(id.get_raw()));
    }

    /// Whether all work up to `id` has been submitted to the device: a waiter for the
    /// submission of `id` stops waiting exactly when this holds.
    pub fn is_submitted(&self, id: SyncId) -> (r: bool)
        ensures
            r == (id.0 <= self.submitted()),
    {
        id.0 <= self.last_submitted
    }

    /// Whether all work up to `id` has completed on the device: a waiter for the
    /// completion of `id` stops waiting exactly when this holds.
    pub fn is_complete(&self, id: SyncId) -> (r: bool)
        ensures
            r == (id.0 <= self.completed()),
    {
        id.0 <= self.last_completed
    }

    /// The semaphore wait that orders a later submission after the engine's work up to
    /// `id`.
    pub fn generate_wait_semaphore(&self, id: SyncId) -> (r: SemaphoreOp)
        ensures
            r == (SemaphoreOp { semaphore: self.spec_semaphore(), value: Some(id.0) }),
    {
        SemaphoreOp { semaphore: self.semaphore, value: Some(id.get_raw()) }
    }

    /// Asks the worker to exit once it has run every task already queued.
    pub fn terminate(&mut self)
        requires
            old(self).wf(),
        ensures
            final(self).wf(),
            final(self).same_config(old(self)),
            final(self).same_staging(old(self)),
            final(self).same_resources(old(self)),
            final(self).queued() == old(self).queued(),
            final(self).next_id() == old(self).next_id(),
            final(self).submitted() == old(self).submitted(),
            final(self).completed() == old(self).completed(),
            final(self).spec_terminated(),
    {
        self.terminated = true;
    }

    /// The worker's decision on waking: take every queued task if there is one, else exit
    /// if termination was asked for, else wait.
    pub fn poll_worker(&mut self) -> (r: WorkerPoll)
        requires
            old(self).wf(),
        ensures
            final(self).wf(),
            final(self).same_config(old(self)),
            final(self).same_progress(old(self)),
            final(self).same_staging(old(self)),
            final(self).same_resources(old(self)),
            final(self).queued() == Seq::<Task>::empty(),
            old(self).queued().len() > 0 ==> (r matches WorkerPoll::Run(tasks) && tasks@ == old(self).queued()),
            old(self).queued().len() == 0 && old(self).spec_terminated() ==> r is Exit,
            old(self).queued().len() == 0 && !old(self).spec_terminated() ==> r is Wait,
    {
        if self.tasks.len() > 0 {
            let mut taken: Vec<Task> = Vec::new();
            std::mem::swap(&mut taken, &mut self.tasks);
            WorkerPoll::Run(taken)
        } else if self.terminated {
            WorkerPoll::Exit
        } else {
            WorkerPoll::Wait
        }
    }

    /// Records that the batch signalling `id` has been submitted. Progress never goes
    /// back.
    pub fn mark_submitted(&mut self, id: u64)
        requires
            old(self).wf(),
        ensures
            final(self).wf(),
            final(self).same_config(old(self)),
            final(self).same_staging(old(self)),
            final(self).same_resources(old(self)),
            final(self).queued() == old(self).queued(),
            final(self).next_id() == old(self).next_id(),
            final(self).completed() == old(self).completed(),
            final(self).spec_terminated() == old(self).spec_terminated(),
            final(self).submitted() == if id > old(self).submitted() {
                id
            } else {
                old(self).submitted()
            },
    {
        if id > self.last_submitted {
            self.last_submitted = id;
        }
    }
}

/// A transfer task copying between buffers `src` and `dst` over exactly `ranges`.
pub open spec fn is_buffer_transfer(task: Task, src: BufferId, dst: BufferId, ranges: Seq<BufferTransferRange>) -> bool {
    match task {
        Task::BufferTransfer(t) => t.src_buffer == src && t.dst_buffer == dst && t.ranges@ == ranges,
        _ => false,
    }
}

/// A transfer task copying from buffer `src` into image `dst` over exactly `ranges`.
pub open spec fn is_buffer_to_image_transfer(
    task: Task,
    src: BufferId,
    dst: ImageId,
    ranges: Seq<BufferImageTransferRange>,
) -> bool {
    match task {
        Task::BufferToImageTransfer(t) => t.src_buffer == src && t.dst_image == dst && t.ranges@ == ranges,
        _ => false,
    }
}

impl Transfer {
    /// The id the next staging lease gets.
    pub closed spec fn next_lease_id(&self) -> u64 {
        self.allocator.spec_next_id()
    }

    /// A live lease lies inside the staging memory.
    pub proof fn lemma_lease_in_bounds(&self, lease: &StagingMemory)
        requires
            self.wf(),
            self.holds(lease),
        ensures
            lease.spec_offset() + lease.spec_size() <= self.staging_memory().len(),
    {
        self.allocator.lemma_live_in_bounds(lease.range());
    }

    /// Two live leases never share a byte of staging memory.
    pub proof fn lemma_leases_disjoint(&self, a: &StagingMemory, b: &StagingMemory)
        requires
            self.wf(),
            self.holds(a),
            self.holds(b),
            a.spec_id() != b.spec_id(),
        ensures
            a.range().disjoint(b.range()),
    {
        self.allocator.lemma_live_disjoint(a.range(), b.range());
    }

    /// Returns the id the next release mints.
    pub fn get_next_sync_id(&self) -> (r: u64)
        ensures
            r == self.next_id(),
    {
        self.next_sync_id
    }

    /// Returns the id the next staging lease gets.
    pub fn get_next_lease_id(&self) -> (r: u64)
        ensures
            r == self.next_lease_id(),
    {
        self.allocator.get_next_id()
    }

    /// Whether `lease` is one of the live staging ranges.
    pub fn holds_lease(&self, lease: &StagingMemory) -> (r: bool)
        ensures
            r == self.holds(lease),
    {
        self.allocator.is_live(StagingRange { id: lease.memory_id, offset: lease.buffer_offset, size: lease.size })
    }

    /// Leases `capacity` bytes of staging memory that overlap no other live lease. The
    /// staging buffer grows when no gap between the live leases holds them; `None` only
    /// when it cannot grow enough. Growth keeps every byte already there.
    pub fn request_staging_memory(&mut self, capacity: usize) -> (r: Option<StagingMemory>)
        requires
            old(self).wf(),
            old(self).next_lease_id() < u64::MAX,
        ensures
            final(self).wf(),
            final(self).same_config(old(self)),
            final(self).same_progress(old(self)),
            final(self).same_resources(old(self)),
            final(self).queued() == old(self).queued(),
            r is None <==> (!has_gap(old(self).staging_ranges(), old(self).staging_memory().len() as int, capacity as int)
                && gap_start(old(self).staging_ranges(), old(self).staging_ranges().len() as int) + capacity
                > MAX_STAGING_CAPACITY),
            r is None ==> final(self).same_staging(old(self)),
            final(self).staging_memory().len() >= old(self).staging_memory().len(),
            final(self).staging_memory().subrange(0, old(self).staging_memory().len() as int) == old(self).staging_memory(),
            r is Some ==> {
                let lease = r->0;
                &&& lease.spec_size() == capacity
                &&& lease.spec_id() == old(self).next_lease_id()
                &&& final(self).next_lease_id() == old(self).next_lease_id() + 1
                &&& final(self).holds(&lease)
                &&& forall|k: int| 0 <= k < old(self).staging_ranges().len() ==> lease.range().disjoint(old(self).staging_ranges()[k])
                &&& forall|x: StagingRange|
                    final(self).staging_ranges().contains(x) <==> (old(self).staging_ranges().contains(x) || x == lease.range())
            },
    {
        match self.allocator.allocate(capacity as u64) {
            None => None,
            Some(range) => {
                let new_capacity = self.allocator.get_capacity();
                proof {
                    self.allocator.lemma_capacity_bound();
                }
                if new_capacity as usize > self.staging.len() {
                    self.staging.resize(new_capacity as usize, 0u8);
                }
                proof {
                    assert(self.staging@.subrange(0, old(self).staging@.len() as int) =~= old(self).staging@);
                }
                Some(StagingMemory { memory_id: range.id, buffer_offset: range.offset, size: range.size })
            },
        }
    }

    /// Records that the batch signalling `id` has completed, which also means it was
    /// submitted, and returns the staging ranges `staging_releases`, released before that
    /// batch was closed, to the allocator. Progress never goes back.
    pub fn mark_completed(&mut self, id: u64, staging_releases: &Vec<u64>)
        requires
            old(self).wf(),
        ensures
            final(self).wf(),
            final(self).same_config(old(self)),
            final(self).same_resources(old(self)),
            final(self).queued() == old(self).queued(),
            final(self).next_id() == old(self).next_id(),
            final(self).spec_terminated() == old(self).spec_terminated(),
            final(self).completed() == if id > old(self).completed() {
                id
            } else {
                old(self).completed()
            },
            final(self).submitted() == if id > old(self).submitted() {
                id
            } else {
                old(self).submitted()
            },
            final(self).staging_memory() == old(self).staging_memory(),
            final(self).next_lease_id() == old(self).next_lease_id(),
            forall|x: StagingRange|
                final(self).staging_ranges().contains(x) <==> (old(self).staging_ranges().contains(x)
                    && !staging_releases@.contains(x.id)),
    {
        if id > self.last_completed {
            self.last_completed = id;
        }
        if id > self.last_submitted {
            self.last_submitted = id;
        }
        let mut i: usize = 0;
        while i < staging_releases.len()
            invariant
                0 <= i <= staging_releases@.len(),
                self.wf(),
                self.same_config(old(self)),
                self.same_resources(old(self)),
                self.queued() == old(self).queued(),
                self.next_id() == old(self).next_id(),
                self.spec_terminated() == old(self).spec_terminated(),
                self.completed() == if id > old(self).completed() {
                    id
                } else {
                    old(self).completed()
                },
                self.submitted() == if id > old(self).submitted() {
                    id
                } else {
                    old(self).submitted()
                },
                self.staging_memory() == old(self).staging_memory(),
                self.next_lease_id() == old(self).next_lease_id(),
                self.allocator.spec_capacity() == old(self).allocator.spec_capacity(),
                forall|x: StagingRange|
                    self.staging_ranges().contains(x) <==> (old(self).staging_ranges().contains(x)
                        && !staging_releases@.subrange(0, i as int).contains(x.id)),
            decreases staging_releases@.len() - i,
        {
            let released = staging_releases[i];
            let ghost before = self.staging_ranges();
            self.allocator.free(released);
            proof {
                let done = staging_releases@.subrange(0, i as int);
                let next = staging_releases@.subrange(0, i + 1);
                assert(next == done.push(released));
                assert forall|x: u64| next.contains(x) <==> (done.contains(x) || x == released) by {
                    if next.contains(x) {
                        let k = choose|k: int| 0 <= k < next.len() && next[k] == x;
                        if k < done.len() {
                            assert(done[k] == x);
                        }
                    }
                    if done.contains(x) {
                        let k = choose|k: int| 0 <= k < done.len() && done[k] == x;
                        assert(next[k] == x);
                    }
                    if x == released {
                        assert(next[i as int] == x);
                    }
                }
                assert forall|x: StagingRange|
                    self.staging_ranges().contains(x) <==> (old(self).staging_ranges().contains(x)
                        && !next.contains(x.id)) by {
                    assert(self.staging_ranges().contains(x) <==> (before.contains(x) && x.id != released));
                    assert(before.contains(x) <==> (old(self).staging_ranges().contains(x)
                        && !done.contains(x.id)));
                    assert(next.contains(x.id) <==> (done.contains(x.id) || x.id == released));
                }
            }
            i = i + 1;
        }
        assert(staging_releases@.subrange(0, staging_releases@.len() as int) == staging_releases@);
    }
}

impl StagingMemory {
    /// Returns the id of the lease's staging range.
    pub fn get_id(&self) -> (r: u64)
        ensures
            r == self.spec_id(),
    {
        self.memory_id
    }

    /// Returns where the lease starts in the staging buffer.
    pub fn get_buffer_offset(&self) -> (r: u64)
        ensures
            r == self.spec_offset(),
    {
        self.buffer_offset
    }

    /// Returns the lease's length in bytes.
    pub fn get_size(&self) -> (r: u64)
        ensures
            r == self.spec_size(),
    {
        self.size
    }

    /// The lease's bytes.
    pub open spec fn bytes(&self, transfer: &Transfer) -> Seq<u8> {
        transfer.staging_memory().subrange(
            self.spec_offset() as int,
            self.spec_offset() + self.spec_size(),
        )
    }

    /// Returns a copy of the lease's bytes.
    pub fn get_memory(&self, transfer: &Transfer) -> (r: Vec<u8>)
        requires
            transfer.wf(),
            transfer.holds(self),
        ensures
            r@ == self.bytes(transfer),
    {
        proof {
            transfer.allocator.lemma_live_in_bounds(self.range());
        }
        let mut r: Vec<u8> = Vec::new();
        let start = self.buffer_offset as usize;
        let n = self.size as usize;
        let end = start + n;
        let mut i: usize = 0;
        while i < n
            invariant
                0 <= i <= n,
                n == self.size,
                start == self.buffer_offset,
                start + n <= transfer.staging@.len(),
                end == start + n,
                r@ == transfer.staging@.subrange(start as int, start + i),
            decreases n - i,
        {
            r.push(transfer.staging[start + i]);
            i = i + 1;
            assert(r@ =~= transfer.staging@.subrange(start as int, start + i));
        }
        r
    }

    /// Writes `data` at the start of the lease and returns the number of bytes written;
    /// `None`, writing nothing, if it does not fit.
    pub fn write(&self, transfer: &mut Transfer, data: &[u8]) -> (r: Option<usize>)
        requires
            old(transfer).wf(),
            old(transfer).holds(self),
        ensures
            final(transfer).wf(),
            final(transfer).same_config(old(transfer)),
            final(transfer).same_progress(old(transfer)),
            final(transfer).same_resources(old(transfer)),
            final(transfer).queued() == old(transfer).queued(),
            final(transfer).staging_ranges() == old(transfer).staging_ranges(),
            final(transfer).next_lease_id() == old(transfer).next_lease_id(),
            r is None <==> data@.len() > self.spec_size(),
            r is None ==> final(transfer).staging_memory() == old(transfer).staging_memory(),
            r is Some ==> r->0 == data@.len() && final(transfer).staging_memory() == overwrite(
                old(transfer).staging_memory(),
                self.spec_offset() as int,
                data@,
                0,
                data@.len() as int,
            ),
    {
        self.write_offset(transfer, data, 0)
    }

    /// Writes `data` at `offset` in the lease and returns the number of bytes written;
    /// `None`, writing nothing, if `offset` plus the length of `data` exceeds the lease.
    pub fn write_offset(&self, transfer: &mut Transfer, data: &[u8], offset: usize) -> (r: Option<usize>)
        requires
            old(transfer).wf(),
            old(transfer).holds(self),
        ensures
            final(transfer).wf(),
            final(transfer).same_config(old(transfer)),
            final(transfer).same_progress(old(transfer)),
            final(transfer).same_resources(old(transfer)),
            final(transfer).queued() == old(transfer).queued(),
            final(transfer).staging_ranges() == old(transfer).staging_ranges(),
            final(transfer).next_lease_id() == old(transfer).next_lease_id(),
            r is None <==> offset + data@.len() > self.spec_size(),
            r is None ==> final(transfer).staging_memory() == old(transfer).staging_memory(),
            r is Some ==> r->0 == data@.len() && final(transfer).staging_memory() == overwrite(
                old(transfer).staging_memory(),
                self.spec_offset() + offset,
                data@,
                0,
                data@.len() as int,
            ),
    {
        proof {
            transfer.allocator.lemma_live_in_bounds(self.range());
        }
        let n = data.len();
        if offset as u64 > self.size || (n as u64) > self.size - offset as u64 {
            return None;
        }
        let start = self.buffer_offset as usize + offset;
        let end = start + n;
        let mut i: usize = 0;
        while i < n
            invariant
                0 <= i <= n,
                n == data@.len(),
                start == self.buffer_offset + offset,
                end == start + n,
                start + n <= transfer.staging@.len(),
                transfer.wf(),
                transfer.same_config(old(transfer)),
                transfer.same_progress(old(transfer)),
                transfer.same_resources(old(transfer)),
                transfer.queued() == old(transfer).queued(),
                transfer.allocator == old(transfer).allocator,
                transfer.staging@ == overwrite(old(transfer).staging@, start as int, data@, 0, i as int),
            decreases n - i,
        {
            transfer.staging.set(start + i, data[i]);
            i = i + 1;
            assert(transfer.staging@ =~= overwrite(old(transfer).staging@, start as int, data@, 0, i as int));
        }
        Some(n)
    }

    /// Reads the start of the lease into `data`; `Err`, reading nothing, if `data` is
    /// longer than the lease.
    pub fn read(&self, transfer: &Transfer, data: &mut [u8]) -> (r: Result<(), ()>)
        requires
            transfer.wf(),
            transfer.holds(self),
        ensures
            r is Err <==> old(data)@.len() > self.spec_size(),
            r is Err ==> final(data)@ == old(data)@,
            r is Ok ==> final(data)@ == transfer.staging_memory().subrange(
                self.spec_offset() as int,
                self.spec_offset() + old(data)@.len(),
            ),
    {
        self.read_offset(transfer, data, 0)
    }

    /// Reads the lease from `offset` on into `data`; `Err`, reading nothing, if `offset`
    /// plus the length of `data` exceeds the lease.
    pub fn read_offset(&self, transfer: &Transfer, data: &mut [u8], offset: usize) -> (r: Result<(), ()>)
        requires
            transfer.wf(),
            transfer.holds(self),
        ensures
            r is Err <==> offset + old(data)@.len() > self.spec_size(),
            r is Err ==> final(data)@ == old(data)@,
            r is Ok ==> final(data)@ == transfer.staging_memory().subrange(
                self.spec_offset() + offset,
                self.spec_offset() + offset + old(data)@.len(),
            ),
    {
        proof {
            transfer.allocator.lemma_live_in_bounds(self.range());
        }
        let n = data.len();
        if offset as u64 > self.size || (n as u64) > self.size - offset as u64 {
            return Err(());
        }
        let start = self.buffer_offset as usize + offset;
        let end = start + n;
        let mut i: usize = 0;
        while i < n
            invariant
                0 <= i <= n,
                n == data@.len(),
                n == old(data)@.len(),
                start == self.buffer_offset + offset,
                end == start + n,
                start + n <= transfer.staging@.len(),
                forall|k: int| 0 <= k < i ==> data@[k] == transfer.staging@[start + k],
            decreases n - i,
        {
            data[i] = transfer.staging[start + i];
            i = i + 1;
        }
        assert(data@ =~= transfer.staging@.subrange(start as int, start + n));
        Ok(())
    }
}

impl StagingMemory {
    /// Queues a copy from the lease into `dst_buffer`. The source offsets of `ranges` are
    /// local to the lease; the queued copy reads the staging buffer at those offsets moved
    /// by the lease's start.
    pub fn copy_to_buffer(&self, transfer: &mut Transfer, dst_buffer: BufferId, ranges: BufferTransferRanges)
        requires
            old(transfer).wf(),
            old(transfer).holds(self),
            forall|i: int| 0 <= i < ranges@.len() ==> ranges@[i].src_offset + ranges@[i].size <= self.spec_size(),
        ensures
            final(transfer).wf(),
            final(transfer).same_config(old(transfer)),
            final(transfer).same_progress(old(transfer)),
            final(transfer).same_resources(old(transfer)),
            final(transfer).same_staging(old(transfer)),
            final(transfer).next_lease_id() == old(transfer).next_lease_id(),
            final(transfer).queued().drop_last() == old(transfer).queued(),
            final(transfer).queued().len() == old(transfer).queued().len() + 1,
            is_buffer_transfer(
                final(transfer).queued().last(),
                old(transfer).spec_staging_buffer(),
                dst_buffer,
                shift_src(ranges@, self.spec_offset()),
            ),
    {
        proof {
            transfer.allocator.lemma_live_in_bounds(self.range());
        }
        let mut ranges = ranges;
        ranges.add_src_offset(self.buffer_offset);
        let task = Task::BufferTransfer(
            BufferTransfer { src_buffer: transfer.staging_buffer, dst_buffer, ranges },
        );
        transfer.tasks.push(task);
        assert(transfer.tasks@.drop_last() =~= old(transfer).tasks@);
    }

    /// Queues a copy from `src_buffer` into the lease. The destination offsets of `ranges`
    /// are local to the lease.
    pub fn copy_from_buffer(&self, transfer: &mut Transfer, src_buffer: BufferId, ranges: BufferTransferRanges)
        requires
            old(transfer).wf(),
            old(transfer).holds(self),
            forall|i: int| 0 <= i < ranges@.len() ==> ranges@[i].dst_offset + ranges@[i].size <= self.spec_size(),
        ensures
            final(transfer).wf(),
            final(transfer).same_config(old(transfer)),
            final(transfer).same_progress(old(transfer)),
            final(transfer).same_resources(old(transfer)),
            final(transfer).same_staging(old(transfer)),
            final(transfer).next_lease_id() == old(transfer).next_lease_id(),
            final(transfer).queued().drop_last() == old(transfer).queued(),
            final(transfer).queued().len() == old(transfer).queued().len() + 1,
            is_buffer_transfer(
                final(transfer).queued().last(),
                src_buffer,
                old(transfer).spec_staging_buffer(),
                shift_dst(ranges@, self.spec_offset()),
            ),
    {
        proof {
            transfer.allocator.lemma_live_in_bounds(self.range());
        }
        let mut ranges = ranges;
        ranges.add_dst_offset(self.buffer_offset);
        let task = Task::BufferTransfer(
            BufferTransfer { src_buffer, dst_buffer: transfer.staging_buffer, ranges },
        );
        transfer.tasks.push(task);
        assert(transfer.tasks@.drop_last() =~= old(transfer).tasks@);
    }

    /// Queues a copy from the lease into `dst_image`. The buffer offsets of `ranges` are
    /// local to the lease and must start inside it.
    pub fn copy_to_image(&self, transfer: &mut Transfer, dst_image: ImageId, ranges: BufferImageTransferRanges)
        requires
            old(transfer).wf(),
            old(transfer).holds(self),
            forall|i: int| 0 <= i < ranges@.len() ==> ranges@[i].buffer_offset < self.spec_size(),
        ensures
            final(transfer).wf(),
            final(transfer).same_config(old(transfer)),
            final(transfer).same_progress(old(transfer)),
            final(transfer).same_resources(old(transfer)),
            final(transfer).same_staging(old(transfer)),
            final(transfer).next_lease_id() == old(transfer).next_lease_id(),
            final(transfer).queued().drop_last() == old(transfer).queued(),
            final(transfer).queued().len() == old(transfer).queued().len() + 1,
            is_buffer_to_image_transfer(
                final(transfer).queued().last(),
                old(transfer).spec_staging_buffer(),
                dst_image,
                shift_buffer(ranges@, self.spec_offset()),
            ),
    {
        proof {
            transfer.allocator.lemma_live_in_bounds(self.range());
        }
        let mut ranges = ranges;
        ranges.add_buffer_offset(self.buffer_offset);
        let task = Task::BufferToImageTransfer(
            BufferToImageTransfer { src_buffer: transfer.staging_buffer, dst_image, ranges },
        );
        transfer.tasks.push(task);
        assert(transfer.tasks@.drop_last() =~= old(transfer).tasks@);
    }

    /// Ends the lease: queues the release of its staging range, which returns to the
    /// allocator once the work queued before it has completed.
    pub fn release(self, transfer: &mut Transfer)
        requires
            old(transfer).wf(),
        ensures
            final(transfer).wf(),
            final(transfer).same_config(old(transfer)),
            final(transfer).same_progress(old(transfer)),
            final(transfer).same_resources(old(transfer)),
            final(transfer).same_staging(old(transfer)),
            final(transfer).next_lease_id() == old(transfer).next_lease_id(),
            final(transfer).queued() == old(transfer).queued().push(Task::StagingRelease(self.spec_id())),
    {
        transfer.tasks.push(Task::StagingRelease(self.memory_id));
    }
}

impl Transfer {
    /// Runs one region of a copy out of the staging buffer into the host memory `dst`, as
    /// the device runs a copy whose source is the staging buffer. `false`, changing
    /// nothing, when the region does not lie inside both.
    pub fn run_copy_from_staging(&self, region: BufferTransferRange, dst: &mut [u8]) -> (r: bool)
        requires
            self.wf(),
        ensures
            r == (region.src_offset + region.size <= self.staging_memory().len()
                && region.dst_offset + region.size <= old(dst)@.len()),
            r ==> final(dst)@ == overwrite(
                old(dst)@,
                region.dst_offset as int,
                self.staging_memory(),
                region.src_offset as int,
                region.size as int,
            ),
            !r ==> final(dst)@ == old(dst)@,
    {
        let len = self.staging.len() as u64;
        let dst_len = dst.len() as u64;
        if region.src_offset > len || region.size > len - region.src_offset || region.dst_offset > dst_len
            || region.size > dst_len - region.dst_offset {
            return false;
        }
        let src_start = region.src_offset as usize;
        let dst_start = region.dst_offset as usize;
        let n = region.size as usize;
        let src_end = src_start + n;
        let dst_end = dst_start + n;
        let mut i: usize = 0;
        while i < n
            invariant
                0 <= i <= n,
                n == region.size,
                src_end == src_start + n,
                dst_end == dst_start + n,
                src_start == region.src_offset,
                dst_start == region.dst_offset,
                src_start + n <= self.staging@.len(),
                dst_start + n <= dst@.len(),
                dst@ == overwrite(old(dst)@, dst_start as int, self.staging@, src_start as int, i as int),
            decreases n - i,
        {
            dst[dst_start + i] = self.staging[src_start + i];
            i = i + 1;
            assert(dst@ =~= overwrite(old(dst)@, dst_start as int, self.staging@, src_start as int, i as int));
        }
        true
    }

    /// Runs one region of a copy from the host memory `src` into the staging buffer, as the
    /// device runs a copy whose destination is the staging buffer. `false`, changing
    /// nothing, when the region does not lie inside both.
    pub fn run_copy_to_staging(&mut self, src: &[u8], region: BufferTransferRange) -> (r: bool)
        requires
            old(self).wf(),
        ensures
            final(self).wf(),
            final(self).same_config(old(self)),
            final(self).same_progress(old(self)),
            final(self).same_resources(old(self)),
            final(self).queued() == old(self).queued(),
            final(self).staging_ranges() == old(self).staging_ranges(),
            final(self).next_lease_id() == old(self).next_lease_id(),
            r == (region.src_offset + region.size <= src@.len()
                && region.dst_offset + region.size <= old(self).staging_memory().len()),
            r ==> final(self).staging_memory() == overwrite(
                old(self).staging_memory(),
                region.dst_offset as int,
                src@,
                region.src_offset as int,
                region.size as int,
            ),
            !r ==> final(self).staging_memory() == old(self).staging_memory(),
    {
        let len = self.staging.len() as u64;
        let src_len = src.len() as u64;
        if region.src_offset > src_len || region.size > src_len - region.src_offset || region.dst_offset > len
            || region.size > len - region.dst_offset {
            return false;
        }
        let src_start = region.src_offset as usize;
        let dst_start = region.dst_offset as usize;
        let n = region.size as usize;
        let src_end = src_start + n;
        let dst_end = dst_start + n;
        let mut i: usize = 0;
        while i < n
            invariant
                0 <= i <= n,
                n == region.size,
                src_end == src_start + n,
                dst_end == dst_start + n,
                src_start == region.src_offset,
                dst_start == region.dst_offset,
                src_start + n <= src@.len(),
                dst_start + n <= self.staging@.len(),
                self.wf(),
                self.same_config(old(self)),
                self.same_progress(old(self)),
                self.same_resources(old(self)),
                self.queued() == old(self).queued(),
                self.allocator == old(self).allocator,
                self.staging@ == overwrite(old(self).staging@, dst_start as int, src@, src_start as int, i as int),
            decreases n - i,
        {
            self.staging.set(dst_start + i, src[src_start + i]);
            i = i + 1;
            assert(self.staging@ =~= overwrite(old(self).staging@, dst_start as int, src@, src_start as int, i as int));
        }
        true
    }
}

} // verus!
