use vstd::prelude::*;

use crate::id::{BufferId, ImageId};

verus! {

/// `VK_PIPELINE_STAGE_2_TRANSFER_BIT`.
pub const STAGE_TRANSFER: u64 = 0x1000;

/// `VK_ACCESS_2_TRANSFER_READ_BIT`.
pub const ACCESS_TRANSFER_READ: u64 = 0x800;

/// `VK_ACCESS_2_TRANSFER_WRITE_BIT`.
pub const ACCESS_TRANSFER_WRITE: u64 = 0x1000;

/// `VK_ACCESS_2_TRANSFER_READ_BIT | VK_ACCESS_2_TRANSFER_WRITE_BIT`.
pub const ACCESS_TRANSFER_READ_WRITE: u64 = 0x1800;

/// `VK_IMAGE_LAYOUT_UNDEFINED`.
pub const LAYOUT_UNDEFINED: i32 = 0;

/// `VK_IMAGE_LAYOUT_GENERAL`, the one layout images have while the transfer engine owns them.
pub const LAYOUT_GENERAL: i32 = 1;

/// `VK_WHOLE_SIZE`.
pub const WHOLE_SIZE: u64 = 0xffff_ffff_ffff_ffff;

/// `VK_REMAINING_MIP_LEVELS`.
pub const REMAINING_MIP_LEVELS: u32 = 0xffff_ffff;

/// `VK_REMAINING_ARRAY_LAYERS`.
pub const REMAINING_ARRAY_LAYERS: u32 = 0xffff_ffff;

/// A device buffer: its id in the engine and its raw device handle.
#[derive(Copy, Clone, PartialEq, Eq, Structural, Debug, Hash)]
pub struct Buffer {
    pub id: BufferId,
    pub handle: u64,
}

impl Buffer {
    pub fn new(id: BufferId, handle: u64) -> (r: Self)
        ensures
            r.id == id,
            r.handle == handle,
    {
        Buffer { id, handle }
    }

    pub fn get_id(&self) -> (r: BufferId)
        ensures
            r == self.id,
    {
        self.id
    }

    pub fn get_handle(&self) -> (r: u64)
        ensures
            r == self.handle,
    {
        self.handle
    }
}

/// A device image: its id in the engine and its raw device handle.
#[derive(Copy, Clone, PartialEq, Eq, Structural, Debug, Hash)]
pub struct Image {
    pub id: ImageId,
    pub handle: u64,
}

impl Image {
    pub fn new(id: ImageId, handle: u64) -> (r: Self)
        ensures
            r.id == id,
            r.handle == handle,
    {
        Image { id, handle }
    }

    pub fn get_id(&self) -> (r: ImageId)
        ensures
            r == self.id,
    {
        self.id
    }

    pub fn get_handle(&self) -> (r: u64)
        ensures
            r == self.handle,
    {
        self.handle
    }
}

/// A buffer memory barrier, field for field the graphics API's `VkBufferMemoryBarrier2`.
/// Fields a barrier does not set are zero.
#[derive(Copy, Clone, PartialEq, Eq, Structural, Debug, Hash)]
pub struct BufferBarrier {
    pub src_stage_mask: u64,
    pub src_access_mask: u64,
    pub dst_stage_mask: u64,
    pub dst_access_mask: u64,
    pub src_queue_family_index: u32,
    pub dst_queue_family_index: u32,
    pub buffer: u64,
    pub offset: u64,
    pub size: u64,
}

/// The subresources of an image that a barrier covers.
#[derive(Copy, Clone, PartialEq, Eq, Structural, Debug, Hash)]
pub struct ImageSubresourceRange {
    pub aspect_mask: u32,
    pub base_mip_level: u32,
    pub level_count: u32,
    pub base_array_layer: u32,
    pub layer_count: u32,
}

/// An image memory barrier, field for field the graphics API's `VkImageMemoryBarrier2`.
#[derive(Copy, Clone, PartialEq, Eq, Structural, Debug, Hash)]
pub struct ImageBarrier {
    pub src_stage_mask: u64,
    pub src_access_mask: u64,
    pub dst_stage_mask: u64,
    pub dst_access_mask: u64,
    pub old_layout: i32,
    pub new_layout: i32,
    pub src_queue_family_index: u32,
    pub dst_queue_family_index: u32,
    pub image: u64,
    pub subresource_range: ImageSubresourceRange,
}

/// Every mip level and array layer of the aspects in `aspect_mask`.
pub open spec fn whole_image(aspect_mask: u32) -> ImageSubresourceRange {
    ImageSubresourceRange {
        aspect_mask,
        base_mip_level: 0,
        level_count: REMAINING_MIP_LEVELS,
        base_array_layer: 0,
        layer_count: REMAINING_ARRAY_LAYERS,
    }
}

/// Describes how a buffer is handed to the transfer engine: the source stage and access
/// masks of its last use, if any, and the queue family pair of an ownership transfer,
/// if one is needed.
#[derive(Copy, Clone, Debug)]
pub struct BufferAcquireOp {
    pub buffer: Buffer,
    pub offset: u64,
    pub size: u64,
    pub src_info: Option<(u64, u64)>,
    pub queue_info: Option<(u32, u32)>,
}

/// Describes how a buffer is handed back by the transfer engine: the destination stage and
/// access masks of its next use, if any, and the queue family pair of an ownership
/// transfer, if one is needed.
#[derive(Copy, Clone, Debug)]
pub struct BufferReleaseOp {
    pub buffer: Buffer,
    pub offset: u64,
    pub size: u64,
    pub dst_info: Option<(u64, u64)>,
    pub queue_info: Option<(u32, u32)>,
}

/// Describes how an image is handed to or back by the transfer engine.
#[derive(Copy, Clone, Debug)]
pub struct ImageAvailabilityOp {
    pub image: Image,
    pub aspect_mask: u32,
    /// The layout the image is in after an acquire, or must be in before a release, on the
    /// transfer queue.
    pub local_layout: i32,
    pub barrier: Option<ImageBarrier>,
}

/// The acquire op that `usage` calls for on a transfer queue of family `family`.
pub open spec fn buffer_acquire_op(
    family: u32,
    buffer: Buffer,
    usage: Option<(u64, u64, u32)>,
) -> BufferAcquireOp {
    match usage {
        Some((stage, access, src_family)) => BufferAcquireOp {
            buffer,
            offset: 0,
            size: WHOLE_SIZE,
            src_info: Some((stage, access)),
            queue_info: if src_family == family {
                None
            } else {
                Some((src_family, family))
            },
        },
        None => BufferAcquireOp { buffer, offset: 0, size: WHOLE_SIZE, src_info: None, queue_info: None },
    }
}

/// The release op that `usage` calls for on a transfer queue of family `family`.
pub open spec fn buffer_release_op(
    family: u32,
    buffer: Buffer,
    usage: Option<(u64, u64, u32)>,
) -> BufferReleaseOp {
    match usage {
        Some((stage, access, dst_family)) => BufferReleaseOp {
            buffer,
            offset: 0,
            size: WHOLE_SIZE,
            dst_info: Some((stage, access)),
            queue_info: if dst_family == family {
                None
            } else {
                Some((family, dst_family))
            },
        },
        None => BufferReleaseOp { buffer, offset: 0, size: WHOLE_SIZE, dst_info: None, queue_info: None },
    }
}

/// Whether an image coming from `layout` on queue family `src_family` needs a barrier to
/// reach the general layout on family `family`.
pub open spec fn image_acquire_needs_barrier(family: u32, src_family: u32, layout: i32) -> bool {
    layout != LAYOUT_UNDEFINED && (src_family != family || layout != LAYOUT_GENERAL)
}

/// Whether an image going to `layout` on queue family `dst_family` needs a barrier from
/// family `family`.
pub open spec fn image_release_needs_barrier(family: u32, dst_family: u32, layout: i32) -> bool {
    layout != LAYOUT_UNDEFINED && dst_family != family
}

/// The acquire op that `usage` calls for on a transfer queue of family `family`.
pub open spec fn image_acquire_op(
    family: u32,
    image: Image,
    aspect_mask: u32,
    usage: Option<(u64, u64, u32, i32)>,
) -> ImageAvailabilityOp {
    match usage {
        Some((stage, access, src_family, layout)) => if image_acquire_needs_barrier(
            family,
            src_family,
            layout,
        ) {
            ImageAvailabilityOp {
                image,
                aspect_mask,
                local_layout: LAYOUT_GENERAL,
                barrier: Some(
                    ImageBarrier {
                        src_stage_mask: stage,
                        src_access_mask: access,
                        dst_stage_mask: STAGE_TRANSFER,
                        dst_access_mask: ACCESS_TRANSFER_READ_WRITE,
                        old_layout: layout,
                        new_layout: LAYOUT_GENERAL,
                        src_queue_family_index: src_family,
                        dst_queue_family_index: family,
                        image: image.handle,
                        subresource_range: whole_image(aspect_mask),
                    },
                ),
            }
        } else {
            ImageAvailabilityOp { image, aspect_mask, local_layout: layout, barrier: None }
        },
        None => ImageAvailabilityOp {
            image,
            aspect_mask,
            local_layout: LAYOUT_UNDEFINED,
            barrier: None,
        },
    }
}

/// The release op that `usage` calls for on a transfer queue of family `family`.
pub open spec fn image_release_op(
    family: u32,
    image: Image,
    aspect_mask: u32,
    usage: Option<(u64, u64, u32, i32)>,
) -> ImageAvailabilityOp {
    match usage {
        Some((stage, access, dst_family, layout)) => if image_release_needs_barrier(
            family,
            dst_family,
            layout,
        ) {
            ImageAvailabilityOp {
                image,
                aspect_mask,
                local_layout: LAYOUT_GENERAL,
                barrier: Some(
                    ImageBarrier {
                        src_stage_mask: STAGE_TRANSFER,
                        src_access_mask: ACCESS_TRANSFER_READ_WRITE,
                        dst_stage_mask: stage,
                        dst_access_mask: access,
                        old_layout: LAYOUT_GENERAL,
                        new_layout: layout,
                        src_queue_family_index: family,
                        dst_queue_family_index: dst_family,
                        image: image.handle,
                        subresource_range: whole_image(aspect_mask),
                    },
                ),
            }
        } else {
            ImageAvailabilityOp { image, aspect_mask, local_layout: layout, barrier: None }
        },
        None => ImageAvailabilityOp {
            image,
            aspect_mask,
            local_layout: LAYOUT_UNDEFINED,
            barrier: None,
        },
    }
}

impl BufferAcquireOp {
    /// An ownership transfer always comes with the masks of the buffer's last use.
    pub open spec fn wf(&self) -> bool {
        self.queue_info is Some ==> self.src_info is Some
    }

    /// The barrier the caller submits before the acquire: present only for an ownership
    /// transfer.
    pub open spec fn user_barrier(&self) -> Option<BufferBarrier> {
        match self.queue_info {
            Some((src_family, dst_family)) => Some(
                BufferBarrier {
                    src_stage_mask: self.src_info.unwrap().0,
                    src_access_mask: self.src_info.unwrap().1,
                    dst_stage_mask: 0,
                    dst_access_mask: 0,
                    src_queue_family_index: src_family,
                    dst_queue_family_index: dst_family,
                    buffer: self.buffer.handle,
                    offset: self.offset,
                    size: self.size,
                },
            ),
            None => None,
        }
    }

    /// The barrier the transfer engine records before its first use of the buffer, on the
    /// stages and accesses `dst_stage_mask` and `dst_access_mask`. An ownership transfer
    /// takes the source half from the caller's barrier; otherwise the source masks are the
    /// buffer's last use.
    pub open spec fn engine_barrier(&self, dst_stage_mask: u64, dst_access_mask: u64) -> Option<
        BufferBarrier,
    > {
        match self.src_info {
            Some((src_stage_mask, src_access_mask)) => Some(
                match self.queue_info {
                    Some((src_family, dst_family)) => BufferBarrier {
                        src_stage_mask: 0,
                        src_access_mask: 0,
                        dst_stage_mask,
                        dst_access_mask,
                        src_queue_family_index: src_family,
                        dst_queue_family_index: dst_family,
                        buffer: self.buffer.handle,
                        offset: self.offset,
                        size: self.size,
                    },
                    None => BufferBarrier {
                        src_stage_mask,
                        src_access_mask,
                        dst_stage_mask,
                        dst_access_mask,
                        src_queue_family_index: 0,
                        dst_queue_family_index: 0,
                        buffer: self.buffer.handle,
                        offset: self.offset,
                        size: self.size,
                    },
                },
            ),
            None => None,
        }
    }

    /// Returns the barrier the caller submits before `Transfer::acquire_buffer`; `None`
    /// when no queue family ownership transfer is needed.
    pub fn make_barrier(&self) -> (r: Option<BufferBarrier>)
        requires
            self.wf(),
        ensures
            r == self.user_barrier(),
    {
        match self.queue_info {
            Some((src_family, dst_family)) => {
                let (src_stage_mask, src_access_mask) = self.src_info.unwrap();
                Some(
                    BufferBarrier {
                        src_stage_mask,
                        src_access_mask,
                        dst_stage_mask: 0,
                        dst_access_mask: 0,
                        src_queue_family_index: src_family,
                        dst_queue_family_index: dst_family,
                        buffer: self.buffer.handle,
                        offset: self.offset,
                        size: self.size,
                    },
                )
            },
            None => None,
        }
    }

    /// Returns the buffer of this op.
    pub fn get_buffer(&self) -> (r: Buffer)
        ensures
            r == self.buffer,
    {
        self.buffer
    }

    /// Returns the barrier the transfer engine records before it uses the buffer.
    pub fn make_transfer_barrier(&self, dst_stage_mask: u64, dst_access_mask: u64) -> (r: Option<
        BufferBarrier,
    >)
        ensures
            r == self.engine_barrier(dst_stage_mask, dst_access_mask),
    {
        match self.src_info {
            Some((src_stage_mask, src_access_mask)) => match self.queue_info {
                Some((src_family, dst_family)) => Some(
                    BufferBarrier {
                        src_stage_mask: 0,
                        src_access_mask: 0,
                        dst_stage_mask,
                        dst_access_mask,
                        src_queue_family_index: src_family,
                        dst_queue_family_index: dst_family,
                        buffer: self.buffer.handle,
                        offset: self.offset,
                        size: self.size,
                    },
                ),
                None => Some(
                    BufferBarrier {
                        src_stage_mask,
                        src_access_mask,
                        dst_stage_mask,
                        dst_access_mask,
                        src_queue_family_index: 0,
                        dst_queue_family_index: 0,
                        buffer: self.buffer.handle,
                        offset: self.offset,
                        size: self.size,
                    },
                ),
            },
            None => None,
        }
    }
}

impl BufferReleaseOp {
    /// An ownership transfer always comes with the masks of the buffer's next use.
    pub open spec fn wf(&self) -> bool {
        self.queue_info is Some ==> self.dst_info is Some
    }

    /// The barrier the caller submits after the release: present only for an ownership
    /// transfer.
    pub open spec fn user_barrier(&self) -> Option<BufferBarrier> {
        match self.queue_info {
            Some((src_family, dst_family)) => Some(
                BufferBarrier {
                    src_stage_mask: 0,
                    src_access_mask: 0,
                    dst_stage_mask: self.dst_info.unwrap().0,
                    dst_access_mask: self.dst_info.unwrap().1,
                    src_queue_family_index: src_family,
                    dst_queue_family_index: dst_family,
                    buffer: self.buffer.handle,
                    offset: self.offset,
                    size: self.size,
                },
            ),
            None => None,
        }
    }

    /// The barrier the transfer engine records after its last use of the buffer, from the
    /// stages and accesses `src_stage_mask` and `src_access_mask`.
    pub open spec fn engine_barrier(&self, src_stage_mask: u64, src_access_mask: u64) -> Option<
        BufferBarrier,
    > {
        match self.dst_info {
            Some((dst_stage_mask, dst_access_mask)) => Some(
                match self.queue_info {
                    Some((src_family, dst_family)) => BufferBarrier {
                        src_stage_mask,
                        src_access_mask,
                        dst_stage_mask: 0,
                        dst_access_mask: 0,
                        src_queue_family_index: src_family,
                        dst_queue_family_index: dst_family,
                        buffer: self.buffer.handle,
                        offset: self.offset,
                        size: self.size,
                    },
                    None => BufferBarrier {
                        src_stage_mask,
                        src_access_mask,
                        dst_stage_mask,
                        dst_access_mask,
                        src_queue_family_index: 0,
                        dst_queue_family_index: 0,
                        buffer: self.buffer.handle,
                        offset: self.offset,
                        size: self.size,
                    },
                },
            ),
            None => None,
        }
    }

    /// Returns the barrier the caller submits after `Transfer::release_buffer`, once
    /// `Transfer::wait_for_submit` has returned for the release's id; `None` when no queue
    /// family ownership transfer is needed.
    pub fn make_barrier(&self) -> (r: Option<BufferBarrier>)
        requires
            self.wf(),
        ensures
            r == self.user_barrier(),
    {
        match self.queue_info {
            Some((src_family, dst_family)) => {
                let (dst_stage_mask, dst_access_mask) = self.dst_info.unwrap();
                Some(
                    BufferBarrier {
                        src_stage_mask: 0,
                        src_access_mask: 0,
                        dst_stage_mask,
                        dst_access_mask,
                        src_queue_family_index: src_family,
                        dst_queue_family_index: dst_family,
                        buffer: self.buffer.handle,
                        offset: self.offset,
                        size: self.size,
                    },
                )
            },
            None => None,
        }
    }

    /// Returns the buffer of this op.
    pub fn get_buffer(&self) -> (r: Buffer)
        ensures
            r == self.buffer,
    {
        self.buffer
    }

    /// Returns the barrier the transfer engine records after it last uses the buffer.
    pub fn make_transfer_barrier(&self, src_stage_mask: u64, src_access_mask: u64) -> (r: Option<
        BufferBarrier,
    >)
        ensures
            r == self.engine_barrier(src_stage_mask, src_access_mask),
    {
        match self.dst_info {
            Some((dst_stage_mask, dst_access_mask)) => match self.queue_info {
                Some((src_family, dst_family)) => Some(
                    BufferBarrier {
                        src_stage_mask,
                        src_access_mask,
                        dst_stage_mask: 0,
                        dst_access_mask: 0,
                        src_queue_family_index: src_family,
                        dst_queue_family_index: dst_family,
                        buffer: self.buffer.handle,
                        offset: self.offset,
                        size: self.size,
                    },
                ),
                None => Some(
                    BufferBarrier {
                        src_stage_mask,
                        src_access_mask,
                        dst_stage_mask,
                        dst_access_mask,
                        src_queue_family_index: 0,
                        dst_queue_family_index: 0,
                        buffer: self.buffer.handle,
                        offset: self.offset,
                        size: self.size,
                    },
                ),
            },
            None => None,
        }
    }
}

impl ImageAvailabilityOp {
    /// Returns the barrier the caller submits: before the acquire for an acquire op, after
    /// the release for a release op.
    pub fn get_barrier(&self) -> (r: Option<ImageBarrier>)
        ensures
            r == self.barrier,
    {
        self.barrier
    }

    /// Returns the image of this op.
    pub fn get_image(&self) -> (r: Image)
        ensures
            r == self.image,
    {
        self.image
    }
}

} // verus!
