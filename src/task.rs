use vstd::prelude::*;

use crate::barrier::{BufferAcquireOp, BufferReleaseOp, ImageAvailabilityOp};
use crate::ranges::{BufferToImageTransfer, BufferTransfer, ImageToBufferTransfer};

verus! {

/// A semaphore operation of a device submission: the semaphore's handle and, for a
/// timeline semaphore, the value waited for or signalled.
#[derive(Copy, Clone, PartialEq, Eq, Structural, Debug)]
pub struct SemaphoreOp {
    pub semaphore: u64,
    pub value: Option<u64>,
}

/// A list of semaphore operations, without a heap allocation for none or one.
#[derive(Clone, Debug)]
pub enum SemaphoreOps {
    Empty,
    One(SemaphoreOp),
    Multiple(Vec<SemaphoreOp>),
}

impl SemaphoreOps {
    /// The operations, in order.
    pub open spec fn view(&self) -> Seq<SemaphoreOp> {
        match self {
            SemaphoreOps::Empty => Seq::empty(),
            SemaphoreOps::One(op) => seq![*op],
            SemaphoreOps::Multiple(ops) => ops@,
        }
    }

    /// Returns the operations, in order.
    pub fn as_slice(&self) -> (r: Vec<SemaphoreOp>)
        ensures
            r@ == self@,
    {
        match self {
            SemaphoreOps::Empty => Vec::new(),
            SemaphoreOps::One(op) => vec![*op],
            SemaphoreOps::Multiple(ops) => {
                let mut r: Vec<SemaphoreOp> = Vec::new();
                let mut i: usize = 0;
                while i < ops.len()
                    invariant
                        0 <= i <= ops@.len(),
                        r@ == ops@.subrange(0, i as int),
                    decreases ops@.len() - i,
                {
                    r.push(ops[i]);
                    i = i + 1;
                    assert(r@ =~= ops@.subrange(0, i as int));
                }
                assert(r@ =~= ops@);
                r
            },
        }
    }
}

/// One pending operation of the transfer engine. Tasks run once each, in the order in
/// which they were queued.
#[derive(Debug)]
pub enum Task {
    /// Hands a buffer to the engine once the semaphores have been signalled.
    BufferAcquire(BufferAcquireOp, SemaphoreOps),
    /// Hands a buffer back; the number is the release's sync id.
    BufferRelease(BufferReleaseOp, u64),
    /// Hands an image to the engine once the semaphores have been signalled.
    ImageAcquire(ImageAvailabilityOp, SemaphoreOps),
    /// Hands an image back; the number is the release's sync id.
    ImageRelease(ImageAvailabilityOp, u64),
    BufferTransfer(BufferTransfer),
    BufferToImageTransfer(BufferToImageTransfer),
    ImageToBufferTransfer(ImageToBufferTransfer),
    /// Closes the current batch and submits it; its completion signals this sync id.
    Flush(u64),
    /// Returns the staging range with this id to the allocator once the work queued before
    /// it has completed.
    StagingRelease(u64),
}

} // verus!
