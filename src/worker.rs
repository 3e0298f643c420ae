use vstd::prelude::*;

use crate::barrier::{BufferBarrier, ImageBarrier, ACCESS_TRANSFER_READ_WRITE, STAGE_TRANSFER};
use crate::ranges::{BufferToImageTransfer, BufferTransfer, ImageToBufferTransfer};
use crate::task::{SemaphoreOp, SemaphoreOps, Task};

verus! {

/// One command the worker records into the transfer queue's command buffer.
#[derive(Debug)]
pub enum Command {
    BufferBarrier(BufferBarrier),
    ImageBarrier(ImageBarrier),
    CopyBuffer(BufferTransfer),
    CopyBufferToImage(BufferToImageTransfer),
    CopyImageToBuffer(ImageToBufferTransfer),
}

/// One device submission: wait for `waits`, run `commands` in order, then signal the
/// engine's semaphore with `signal`. Once it has completed the staging ranges
/// `staging_releases` may be reused.
#[derive(Debug)]
pub struct Submission {
    pub waits: Vec<SemaphoreOp>,
    pub commands: Vec<Command>,
    pub signal: u64,
    pub staging_releases: Vec<u64>,
}

/// The commands a task adds to the open batch.
pub open spec fn task_commands(task: Task) -> Seq<Command> {
    match task {
        Task::BufferAcquire(op, _) => match op.engine_barrier(STAGE_TRANSFER, ACCESS_TRANSFER_READ_WRITE) {
            Some(b) => seq![Command::BufferBarrier(b)],
            None => Seq::empty(),
        },
        Task::BufferRelease(op, _) => match op.engine_barrier(STAGE_TRANSFER, ACCESS_TRANSFER_READ_WRITE) {
            Some(b) => seq![Command::BufferBarrier(b)],
            None => Seq::empty(),
        },
        Task::ImageAcquire(op, _) => match op.barrier {
            Some(b) => seq![Command::ImageBarrier(b)],
            None => Seq::empty(),
        },
        Task::ImageRelease(op, _) => match op.barrier {
            Some(b) => seq![Command::ImageBarrier(b)],
            None => Seq::empty(),
        },
        Task::BufferTransfer(t) => seq![Command::CopyBuffer(t)],
        Task::BufferToImageTransfer(t) => seq![Command::CopyBufferToImage(t)],
        Task::ImageToBufferTransfer(t) => seq![Command::CopyImageToBuffer(t)],
        Task::Flush(_) => Seq::empty(),
        Task::StagingRelease(_) => Seq::empty(),
    }
}

/// The semaphores a task makes the open batch wait for.
pub open spec fn task_waits(task: Task) -> Seq<SemaphoreOp> {
    match task {
        Task::BufferAcquire(_, s) => s@,
        Task::ImageAcquire(_, s) => s@,
        _ => Seq::empty(),
    }
}

/// The staging ranges a task releases with the open batch.
pub open spec fn task_releases(task: Task) -> Seq<u64> {
    match task {
        Task::StagingRelease(id) => seq![id],
        _ => Seq::empty(),
    }
}

/// The worker's open batch: what it has recorded since the last flush.
pub struct Worker {
    waits: Vec<SemaphoreOp>,
    commands: Vec<Command>,
    staging_releases: Vec<u64>,
}

impl Worker {
    pub closed spec fn pending_waits(&self) -> Seq<SemaphoreOp> {
        self.waits@
    }

    pub closed spec fn pending_commands(&self) -> Seq<Command> {
        self.commands@
    }

    pub closed spec fn pending_releases(&self) -> Seq<u64> {
        self.staging_releases@
    }

    /// A worker with an empty batch.
    pub fn new() -> (r: Self)
        ensures
            r.pending_waits() == Seq::<SemaphoreOp>::empty(),
            r.pending_commands() == Seq::<Command>::empty(),
            r.pending_releases() == Seq::<u64>::empty(),
    {
        Worker { waits: Vec::new(), commands: Vec::new(), staging_releases: Vec::new() }
    }

    /// Whether the open batch holds nothing.
    pub fn is_idle(&self) -> (r: bool)
        ensures
            r == (self.pending_waits().len() == 0 && self.pending_commands().len() == 0
                && self.pending_releases().len() == 0),
    {
        self.waits.len() == 0 && self.commands.len() == 0 && self.staging_releases.len() == 0
    }

    /// Runs one task: a flush closes the open batch and returns it as a submission that
    /// signals the flush's id; any other task adds its commands, waits and releases to the
    /// open batch.
    pub fn process_task(&mut self, task: Task) -> (r: Option<Submission>)
        ensures
            task matches Task::Flush(id) ==> {
                &&& r is Some
                &&& r->0.waits@ == old(self).pending_waits()
                &&& r->0.commands@ == old(self).pending_commands()
                &&& r->0.staging_releases@ == old(self).pending_releases()
                &&& r->0.signal == id
                &&& final(self).pending_waits() == Seq::<SemaphoreOp>::empty()
                &&& final(self).pending_commands() == Seq::<Command>::empty()
                &&& final(self).pending_releases() == Seq::<u64>::empty()
            },
            !(task is Flush) ==> {
                &&& r is None
                &&& final(self).pending_waits() == old(self).pending_waits() + task_waits(task)
                &&& final(self).pending_commands() == old(self).pending_commands() + task_commands(task)
                &&& final(self).pending_releases() == old(self).pending_releases() + task_releases(task)
            },
    {
        match task {
            Task::Flush(id) => {
                let mut waits: Vec<SemaphoreOp> = Vec::new();
                let mut commands: Vec<Command> = Vec::new();
                let mut staging_releases: Vec<u64> = Vec::new();
                std::mem::swap(&mut waits, &mut self.waits);
                std::mem::swap(&mut commands, &mut self.commands);
                std::mem::swap(&mut staging_releases, &mut self.staging_releases);
                Some(Submission { waits, commands, signal: id, staging_releases })
            },
            Task::BufferAcquire(op, semaphores) => {
                self.add_waits(&semaphores);
                let barrier = op.make_transfer_barrier(STAGE_TRANSFER, ACCESS_TRANSFER_READ_WRITE);
                if let Some(b) = barrier {
                    self.commands.push(Command::BufferBarrier(b));
                }
                assert(self.commands@ =~= old(self).commands@ + task_commands(task));
                None
            },
            Task::BufferRelease(op, _) => {
                let barrier = op.make_transfer_barrier(STAGE_TRANSFER, ACCESS_TRANSFER_READ_WRITE);
                if let Some(b) = barrier {
                    self.commands.push(Command::BufferBarrier(b));
                }
                assert(self.commands@ =~= old(self).commands@ + task_commands(task));
                assert(self.waits@ =~= old(self).waits@ + task_waits(task));
                assert(self.staging_releases@ =~= old(self).staging_releases@ + task_releases(task));
                None
            },
            Task::ImageAcquire(op, semaphores) => {
                self.add_waits(&semaphores);
                if let Some(b) = op.barrier {
                    self.commands.push(Command::ImageBarrier(b));
                }
                assert(self.commands@ =~= old(self).commands@ + task_commands(task));
                None
            },
            Task::ImageRelease(op, _) => {
                if let Some(b) = op.barrier {
                    self.commands.push(Command::ImageBarrier(b));
                }
                assert(self.commands@ =~= old(self).commands@ + task_commands(task));
                assert(self.waits@ =~= old(self).waits@ + task_waits(task));
                assert(self.staging_releases@ =~= old(self).staging_releases@ + task_releases(task));
                None
            },
            Task::BufferTransfer(t) => {
                self.commands.push(Command::CopyBuffer(t));
                assert(self.commands@ =~= old(self).commands@ + task_commands(task));
                assert(self.waits@ =~= old(self).waits@ + task_waits(task));
                assert(self.staging_releases@ =~= old(self).staging_releases@ + task_releases(task));
                None
            },
            Task::BufferToImageTransfer(t) => {
                self.commands.push(Command::CopyBufferToImage(t));
                assert(self.commands@ =~= old(self).commands@ + task_commands(task));
                assert(self.waits@ =~= old(self).waits@ + task_waits(task));
                assert(self.staging_releases@ =~= old(self).staging_releases@ + task_releases(task));
                None
            },
            Task::ImageToBufferTransfer(t) => {
                self.commands.push(Command::CopyImageToBuffer(t));
                assert(self.commands@ =~= old(self).commands@ + task_commands(task));
                assert(self.waits@ =~= old(self).waits@ + task_waits(task));
                assert(self.staging_releases@ =~= old(self).staging_releases@ + task_releases(task));
                None
            },
            Task::StagingRelease(id) => {
                self.staging_releases.push(id);
                assert(self.commands@ =~= old(self).commands@ + task_commands(task));
                assert(self.waits@ =~= old(self).waits@ + task_waits(task));
                assert(self.staging_releases@ =~= old(self).staging_releases@ + task_releases(task));
                None
            },
        }
    }

    /// Appends `semaphores` to the waits of the open batch.
    fn add_waits(&mut self, semaphores: &SemaphoreOps)
        ensures
            final(self).pending_waits() == old(self).pending_waits() + semaphores@,
            final(self).pending_commands() == old(self).pending_commands(),
            final(self).pending_releases() == old(self).pending_releases(),
    {
        let ops = semaphores.as_slice();
        let mut i: usize = 0;
        while i < ops.len()
            invariant
                0 <= i <= ops@.len(),
                ops@ == semaphores@,
                self.waits@ == old(self).waits@ + ops@.subrange(0, i as int),
                self.commands@ == old(self).commands@,
                self.staging_releases@ == old(self).staging_releases@,
            decreases ops@.len() - i,
        {
            self.waits.push(ops[i]);
            i = i + 1;
            assert(self.waits@ =~= old(self).waits@ + ops@.subrange(0, i as int));
        }
        assert(ops@.subrange(0, ops@.len() as int) =~= ops@);
    }
}

} // verus!
