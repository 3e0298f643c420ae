use vstd::prelude::*;

use crate::id::{BufferId, ImageId};

verus! {

/// One contiguous buffer to buffer copy region.
#[derive(Copy, Clone, PartialEq, Eq, Structural, Debug)]
pub struct BufferTransferRange {
    pub src_offset: u64,
    pub dst_offset: u64,
    pub size: u64,
}

impl BufferTransferRange {
    pub fn new(src_offset: u64, dst_offset: u64, size: u64) -> (r: Self)
        ensures
            r == (BufferTransferRange { src_offset, dst_offset, size }),
    {
        BufferTransferRange { src_offset, dst_offset, size }
    }
}

/// The regions of one buffer to buffer copy: a single region without a heap allocation,
/// or several.
#[derive(Clone, Debug)]
pub enum BufferTransferRanges {
    One(BufferTransferRange),
    Multiple(Vec<BufferTransferRange>),
}

/// `ranges` with `delta` added to each source offset.
pub open spec fn shift_src(ranges: Seq<BufferTransferRange>, delta: u64) -> Seq<BufferTransferRange> {
    ranges.map_values(
        |r: BufferTransferRange|
            BufferTransferRange {
                src_offset: (r.src_offset + delta) as u64,
                dst_offset: r.dst_offset,
                size: r.size,
            },
    )
}

/// `ranges` with `delta` added to each destination offset.
pub open spec fn shift_dst(ranges: Seq<BufferTransferRange>, delta: u64) -> Seq<BufferTransferRange> {
    ranges.map_values(
        |r: BufferTransferRange|
            BufferTransferRange {
                src_offset: r.src_offset,
                dst_offset: (r.dst_offset + delta) as u64,
                size: r.size,
            },
    )
}

impl BufferTransferRanges {
    /// The regions, in order.
    pub open spec fn view(&self) -> Seq<BufferTransferRange> {
        match self {
            BufferTransferRanges::One(r) => seq![*r],
            BufferTransferRanges::Multiple(v) => v@,
        }
    }

    pub fn new_single(src_offset: u64, dst_offset: u64, size: u64) -> (r: Self)
        ensures
            r@ == seq![BufferTransferRange { src_offset, dst_offset, size }],
    {
        BufferTransferRanges::One(BufferTransferRange::new(src_offset, dst_offset, size))
    }

    /// Adds `src_offset` to the source offset of every region.
    pub fn add_src_offset(&mut self, src_offset: u64)
        requires
            forall|i: int|
                0 <= i < old(self)@.len() ==> old(self)@[i].src_offset + src_offset <= u64::MAX,
        ensures
            final(self)@ == shift_src(old(self)@, src_offset),
    {
        match self {
            BufferTransferRanges::One(range) => {
                assert(old(self)@[0].src_offset + src_offset <= u64::MAX);
                range.src_offset = range.src_offset + src_offset;
                assert(final(self)@ =~= shift_src(old(self)@, src_offset));
            },
            BufferTransferRanges::Multiple(ranges) => {
                let n = ranges.len();
                let mut i: usize = 0;
                while i < n
                    invariant
                        n == ranges@.len(),
                        n == old(self)@.len(),
                        0 <= i <= n,
                        forall|j: int|
                            0 <= j < n ==> old(self)@[j].src_offset + src_offset <= u64::MAX,
                        forall|j: int| 0 <= j < i ==> ranges@[j] == shift_src(old(self)@, src_offset)[j],
                        forall|j: int| i <= j < n ==> ranges@[j] == old(self)@[j],
                    decreases n - i,
                {
                    let mut r = ranges[i];
                    r.src_offset = r.src_offset + src_offset;
                    ranges.set(i, r);
                    i = i + 1;
                }
                assert(ranges@ =~= shift_src(old(self)@, src_offset));
            },
        }
    }

    /// Adds `dst_offset` to the destination offset of every region.
    pub fn add_dst_offset(&mut self, dst_offset: u64)
        requires
            forall|i: int|
                0 <= i < old(self)@.len() ==> old(self)@[i].dst_offset + dst_offset <= u64::MAX,
        ensures
            final(self)@ == shift_dst(old(self)@, dst_offset),
    {
        match self {
            BufferTransferRanges::One(range) => {
                assert(old(self)@[0].dst_offset + dst_offset <= u64::MAX);
                range.dst_offset = range.dst_offset + dst_offset;
                assert(final(self)@ =~= shift_dst(old(self)@, dst_offset));
            },
            BufferTransferRanges::Multiple(ranges) => {
                let n = ranges.len();
                let mut i: usize = 0;
                while i < n
                    invariant
                        n == ranges@.len(),
                        n == old(self)@.len(),
                        0 <= i <= n,
                        forall|j: int|
                            0 <= j < n ==> old(self)@[j].dst_offset + dst_offset <= u64::MAX,
                        forall|j: int| 0 <= j < i ==> ranges@[j] == shift_dst(old(self)@, dst_offset)[j],
                        forall|j: int| i <= j < n ==> ranges@[j] == old(self)@[j],
                    decreases n - i,
                {
                    let mut r = ranges[i];
                    r.dst_offset = r.dst_offset + dst_offset;
                    ranges.set(i, r);
                    i = i + 1;
                }
                assert(ranges@ =~= shift_dst(old(self)@, dst_offset));
            },
        }
    }

    /// Returns the regions, in order.
    pub fn as_slice(&self) -> (r: Vec<BufferTransferRange>)
        ensures
            r@ == self@,
    {
        match self {
            BufferTransferRanges::One(range) => vec![*range],
            BufferTransferRanges::Multiple(ranges) => ranges.clone(),
        }
    }
}

/// A copy between buffers.
#[derive(Clone, Debug)]
pub struct BufferTransfer {
    pub src_buffer: BufferId,
    pub dst_buffer: BufferId,
    pub ranges: BufferTransferRanges,
}

impl BufferTransfer {
    pub fn new_single_range(
        src_buffer: BufferId,
        src_offset: u64,
        dst_buffer: BufferId,
        dst_offset: u64,
        size: u64,
    ) -> (r: Self)
        ensures
            r.src_buffer == src_buffer,
            r.dst_buffer == dst_buffer,
            r.ranges@ == seq![BufferTransferRange { src_offset, dst_offset, size }],
    {
        BufferTransfer {
            src_buffer,
            dst_buffer,
            ranges: BufferTransferRanges::new_single(src_offset, dst_offset, size),
        }
    }
}

/// A texel offset inside an image.
#[derive(Copy, Clone, PartialEq, Eq, Structural, Debug)]
pub struct Offset3 {
    pub x: i32,
    pub y: i32,
    pub z: i32,
}

/// The size of a block of texels.
#[derive(Copy, Clone, PartialEq, Eq, Structural, Debug)]
pub struct Extent3 {
    pub width: u32,
    pub height: u32,
    pub depth: u32,
}

/// One region of a copy between a buffer and an image.
#[derive(Copy, Clone, PartialEq, Eq, Structural, Debug)]
pub struct BufferImageTransferRange {
    pub buffer_offset: u64,
    pub buffer_row_length: u32,
    pub buffer_image_height: u32,
    pub image_aspect_mask: u32,
    pub image_mip_level: u32,
    pub image_base_array_layer: u32,
    pub image_layer_count: u32,
    pub image_offset: Offset3,
    pub image_extent: Extent3,
}

/// The regions of one copy between a buffer and an image.
#[derive(Clone, Debug)]
pub enum BufferImageTransferRanges {
    One(BufferImageTransferRange),
    Multiple(Vec<BufferImageTransferRange>),
}

/// `ranges` with `delta` added to each buffer offset.
pub open spec fn shift_buffer(ranges: Seq<BufferImageTransferRange>, delta: u64) -> Seq<
    BufferImageTransferRange,
> {
    ranges.map_values(
        |r: BufferImageTransferRange|
            BufferImageTransferRange { buffer_offset: (r.buffer_offset + delta) as u64, ..r },
    )
}

impl BufferImageTransferRanges {
    /// The regions, in order.
    pub open spec fn view(&self) -> Seq<BufferImageTransferRange> {
        match self {
            BufferImageTransferRanges::One(r) => seq![*r],
            BufferImageTransferRanges::Multiple(v) => v@,
        }
    }

    /// Returns the regions, in order.
    pub fn as_slice(&self) -> (r: Vec<BufferImageTransferRange>)
        ensures
            r@ == self@,
    {
        match self {
            BufferImageTransferRanges::One(range) => vec![*range],
            BufferImageTransferRanges::Multiple(ranges) => ranges.clone(),
        }
    }

    /// Adds `offset` to the buffer offset of every region.
    pub fn add_buffer_offset(&mut self, offset: u64)
        requires
            forall|i: int|
                0 <= i < old(self)@.len() ==> old(self)@[i].buffer_offset + offset <= u64::MAX,
        ensures
            final(self)@ == shift_buffer(old(self)@, offset),
    {
        match self {
            BufferImageTransferRanges::One(range) => {
                assert(old(self)@[0].buffer_offset + offset <= u64::MAX);
                range.buffer_offset = range.buffer_offset + offset;
                assert(final(self)@ =~= shift_buffer(old(self)@, offset));
            },
            BufferImageTransferRanges::Multiple(ranges) => {
                let n = ranges.len();
                let mut i: usize = 0;
                while i < n
                    invariant
                        n == ranges@.len(),
                        n == old(self)@.len(),
                        0 <= i <= n,
                        forall|j: int|
                            0 <= j < n ==> old(self)@[j].buffer_offset + offset <= u64::MAX,
                        forall|j: int| 0 <= j < i ==> ranges@[j] == shift_buffer(old(self)@, offset)[j],
                        forall|j: int| i <= j < n ==> ranges@[j] == old(self)@[j],
                    decreases n - i,
                {
                    let mut r = ranges[i];
                    r.buffer_offset = r.buffer_offset + offset;
                    ranges.set(i, r);
                    i = i + 1;
                }
                assert(ranges@ =~= shift_buffer(old(self)@, offset));
            },
        }
    }
}

/// A copy from a buffer into an image.
#[derive(Clone, Debug)]
pub struct BufferToImageTransfer {
    pub src_buffer: BufferId,
    pub dst_image: ImageId,
    pub ranges: BufferImageTransferRanges,
}

/// A copy from an image into a buffer.
#[derive(Clone, Debug)]
pub struct ImageToBufferTransfer {
    pub src_image: ImageId,
    pub dst_buffer: BufferId,
    pub ranges: BufferImageTransferRanges,
}

} // verus!
