use vstd::prelude::*;

use crate::barrier::{
    buffer_acquire_op, buffer_release_op, image_acquire_op, image_release_op, Buffer, Image,
    LAYOUT_UNDEFINED,
};
use crate::id::{AcquireError, BufferId, ImageId, ReleaseError, SyncId};
use crate::transfer::{
    StagingMemory, acquire_buffer_outcome, acquire_image_outcome, overwrite, release_buffer_outcome,
    release_image_outcome, Transfer,
};

verus! {

/// Round trip through a device buffer: `data` written at the start of lease `a`, copied
/// from there to `dst` in a device buffer, copied back from `dst` to the start of lease
/// `b` and read from `b` comes back unchanged, for any length that fits both leases and
/// the device buffer. The steps are those the lease's `write`, the device's run of the
/// queued copies (`run_copy_from_staging`, `run_copy_to_staging`) and the lease's `read`
/// state, with the copies' staging offsets moved by each lease's start as
/// `copy_to_buffer` and `copy_from_buffer` state.
pub proof fn lemma_staging_round_trip(
    t: Transfer,
    a: StagingMemory,
    b: StagingMemory,
    device: Seq<u8>,
    data: Seq<u8>,
    dst: int,
)
    requires
        t.wf(),
        t.holds(&a),
        t.holds(&b),
        data.len() <= a.spec_size(),
        data.len() <= b.spec_size(),
        0 <= dst && dst + data.len() <= device.len(),
    ensures
        ({
            let n = data.len() as int;
            let written = overwrite(t.staging_memory(), a.spec_offset() as int, data, 0, n);
            let on_device = overwrite(device, dst, written, a.spec_offset() as int, n);
            let copied_back = overwrite(written, b.spec_offset() as int, on_device, dst, n);
            copied_back.subrange(b.spec_offset() as int, b.spec_offset() + n) == data
        }),
{
    t.lemma_lease_in_bounds(&a);
    t.lemma_lease_in_bounds(&b);
    let n = data.len() as int;
    let written = overwrite(t.staging_memory(), a.spec_offset() as int, data, 0, n);
    let on_device = overwrite(device, dst, written, a.spec_offset() as int, n);
    let copied_back = overwrite(written, b.spec_offset() as int, on_device, dst, n);
    assert(copied_back.subrange(b.spec_offset() as int, b.spec_offset() + n) =~= data);
}

/// A buffer is acquired and released in turn: on an engine where no buffer is available a
/// release fails with `NotAvailable`; once an acquire of `b` has succeeded, acquiring `b`
/// again fails with `AlreadyAvailable`, and releasing it succeeds.
pub proof fn lemma_buffer_acquire_release(fresh: Transfer, before: Transfer, after: Transfer, b: BufferId)
    requires
        forall|x: BufferId| !fresh.buffer_available(x),
        acquire_buffer_outcome(before, b) is Ok,
        forall|x: BufferId| after.buffer_available(x) == (before.buffer_available(x) || x == b),
    ensures
        release_buffer_outcome(fresh, b) == Err::<SyncId, ReleaseError>(ReleaseError::NotAvailable),
        acquire_buffer_outcome(after, b) == Err::<(), AcquireError>(AcquireError::AlreadyAvailable),
        release_buffer_outcome(after, b) is Ok,
{
    assert(after.buffer_available(b));
}

/// An image is made available and released in turn, as a buffer is.
pub proof fn lemma_image_acquire_release(fresh: Transfer, before: Transfer, after: Transfer, i: ImageId)
    requires
        forall|x: ImageId| !fresh.image_available(x),
        acquire_image_outcome(before, i) is Ok,
        forall|x: ImageId| after.image_available(x) == (before.image_available(x) || x == i),
    ensures
        release_image_outcome(fresh, i) == Err::<SyncId, ReleaseError>(ReleaseError::NotAvailable),
        acquire_image_outcome(after, i) == Err::<(), AcquireError>(AcquireError::AlreadyAvailable),
        release_image_outcome(after, i) is Ok,
{
    assert(after.image_available(i));
}

/// A buffer barrier for the caller comes exactly with a change of queue family: none when
/// the usage's family is the transfer queue's, and otherwise one whose families are the
/// usage's and the transfer queue's, in the direction of the handover.
pub proof fn lemma_buffer_barrier_elision(family: u32, buffer: Buffer, stage: u64, access: u64, usage_family: u32)
    ensures
        usage_family == family ==> buffer_acquire_op(family, buffer, Some((stage, access, usage_family))).user_barrier() is None,
        usage_family == family ==> buffer_release_op(family, buffer, Some((stage, access, usage_family))).user_barrier() is None,
        usage_family != family ==> ({
            let b = buffer_acquire_op(family, buffer, Some((stage, access, usage_family))).user_barrier();
            &&& b is Some
            &&& b->0.src_queue_family_index == usage_family
            &&& b->0.dst_queue_family_index == family
        }),
        usage_family != family ==> ({
            let b = buffer_release_op(family, buffer, Some((stage, access, usage_family))).user_barrier();
            &&& b is Some
            &&& b->0.src_queue_family_index == family
            &&& b->0.dst_queue_family_index == usage_family
        }),
{
}

/// An image barrier never moves an image between queues when the usage's family is the
/// transfer queue's (at most it changes the layout), and always does, between the usage's
/// family and the transfer queue's, when the families differ and the layout is defined.
pub proof fn lemma_image_barrier_elision(
    family: u32,
    image: Image,
    aspect_mask: u32,
    stage: u64,
    access: u64,
    usage_family: u32,
    layout: i32,
)
    ensures
        usage_family == family ==> ({
            let b = image_acquire_op(family, image, aspect_mask, Some((stage, access, usage_family, layout))).barrier;
            b is None || b->0.src_queue_family_index == b->0.dst_queue_family_index
        }),
        usage_family == family ==> image_release_op(family, image, aspect_mask, Some((stage, access, usage_family, layout))).barrier is None,
        usage_family != family && layout != LAYOUT_UNDEFINED ==> ({
            let b = image_acquire_op(family, image, aspect_mask, Some((stage, access, usage_family, layout))).barrier;
            &&& b is Some
            &&& b->0.src_queue_family_index == usage_family
            &&& b->0.dst_queue_family_index == family
        }),
        usage_family != family && layout != LAYOUT_UNDEFINED ==> ({
            let b = image_release_op(family, image, aspect_mask, Some((stage, access, usage_family, layout))).barrier;
            &&& b is Some
            &&& b->0.src_queue_family_index == family
            &&& b->0.dst_queue_family_index == usage_family
        }),
{
}

/// Waits end in id order: whenever a wait for `b` may stop, so may a wait for any earlier
/// `a`, for submission and for completion alike.
pub proof fn lemma_wait_order(t: Transfer, a: SyncId, b: SyncId)
    requires
        a.0 < b.0,
    ensures
        b.0 <= t.submitted() ==> a.0 <= t.submitted(),
        b.0 <= t.completed() ==> a.0 <= t.completed(),
{
}

} // verus!
