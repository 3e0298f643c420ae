//! Asynchronous GPU transfer engine: staging memory, queue-family ownership
//! transfer, a FIFO of pending transfer tasks and submission progress tracking.
//!
//! The engine state (`Transfer`) is shared by the callers that queue work and one
//! worker that drains the queue; the worker's batching decisions are `Worker`.

pub mod barrier;
pub mod id;
pub mod laws;
pub mod ranges;
pub mod staging;
pub mod task;
pub mod transfer;
pub mod worker;

pub use barrier::{
    Buffer, BufferAcquireOp, BufferBarrier, BufferReleaseOp, Image, ImageAvailabilityOp,
    ImageBarrier, ImageSubresourceRange,
};
pub use id::{AcquireError, BufferId, ImageId, ReleaseError, SyncId};
pub use ranges::{
    BufferImageTransferRange, BufferImageTransferRanges, BufferToImageTransfer, BufferTransfer,
    BufferTransferRange, BufferTransferRanges, Extent3, ImageToBufferTransfer, Offset3,
};
pub use staging::{StagingAllocator, StagingRange};
pub use task::{SemaphoreOp, SemaphoreOps, Task};
pub use transfer::{StagingMemory, Transfer, WorkerPoll};
pub use worker::{Command, Submission, Worker};
