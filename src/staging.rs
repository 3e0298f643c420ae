use vstd::prelude::*;

verus! {

/// The largest size the staging buffer grows to.
pub const MAX_STAGING_CAPACITY: u64 = 0x8000_0000;

/// A byte range of the staging buffer handed out to one lease.
#[derive(Copy, Clone, PartialEq, Eq, Structural, Debug)]
pub struct StagingRange {
    pub id: u64,
    pub offset: u64,
    pub size: u64,
}

impl StagingRange {
    /// One past the last byte of the range.
    pub open spec fn end(&self) -> int {
        self.offset + self.size
    }

    /// The two ranges share no byte.
    pub open spec fn disjoint(&self, other: StagingRange) -> bool {
        self.end() <= other.offset || other.end() <= self.offset
    }
}

/// First-fit allocator of byte ranges in a staging buffer that grows on demand.
pub struct StagingAllocator {
    capacity: u64,
    /// The live ranges, ordered by offset.
    ranges: Vec<StagingRange>,
    next_id: u64,
}

/// Start of the `i`-th gap: before range `i`, after range `i - 1`.
pub open spec fn gap_start(ranges: Seq<StagingRange>, i: int) -> int {
    if i == 0 {
        0
    } else {
        ranges[i - 1].end()
    }
}

/// End of the `i`-th gap: at range `i`, or at `capacity` after the last range.
pub open spec fn gap_end(ranges: Seq<StagingRange>, capacity: int, i: int) -> int {
    if i == ranges.len() {
        capacity
    } else {
        ranges[i].offset as int
    }
}

/// Some gap between the live ranges holds `size` bytes.
pub open spec fn has_gap(ranges: Seq<StagingRange>, capacity: int, size: int) -> bool {
    exists|i: int|
        0 <= i <= ranges.len() && gap_end(ranges, capacity, i) - gap_start(ranges, i) >= size
}

/// The ranges lie inside `capacity` bytes, ordered by offset and without overlap, with
/// distinct ids below `next_id`.
pub open spec fn ranges_wf(ranges: Seq<StagingRange>, capacity: int, next_id: int) -> bool {
    &&& forall|i: int| 0 <= i < ranges.len() ==> ranges[i].end() <= capacity
    &&& forall|i: int, j: int| 0 <= i < j < ranges.len() ==> ranges[i].end() <= ranges[j].offset
    &&& forall|i: int| 0 <= i < ranges.len() ==> ranges[i].id < next_id
    &&& forall|i: int, j: int| 0 <= i < j < ranges.len() ==> ranges[i].id != ranges[j].id
}

/// Placing a fresh range in the `i`-th gap keeps the ranges well formed.
proof fn lemma_insert_in_gap(
    ranges: Seq<StagingRange>,
    i: int,
    range: StagingRange,
    old_capacity: int,
    capacity: int,
    next_id: int,
)
    requires
        ranges_wf(ranges, old_capacity, next_id),
        old_capacity <= capacity,
        0 <= i <= ranges.len(),
        range.offset == gap_start(ranges, i),
        i < ranges.len() ==> range.end() <= ranges[i].offset,
        range.end() <= capacity,
        range.id == next_id,
    ensures
        ranges_wf(ranges.insert(i, range), capacity, next_id + 1),
        forall|k: int| 0 <= k < ranges.len() ==> range.disjoint(ranges[k]),
        forall|k: int| 0 <= k < ranges.len() ==> ranges[k].id != range.id,
        forall|x: StagingRange| ranges.insert(i, range).contains(x) <==> (ranges.contains(x) || x == range),
{
    let new_ranges = ranges.insert(i, range);
    assert forall|j: int| 0 <= j < i implies ranges[j].end() <= range.offset by {
        if j < i - 1 {
            assert(ranges[j].end() <= ranges[i - 1].offset);
        }
    }
    assert forall|j: int| i <= j < ranges.len() implies range.end() <= ranges[j].offset by {
        if j > i {
            assert(ranges[i].end() <= ranges[j].offset);
        }
    }
    assert forall|a: int, b: int| 0 <= a < b < new_ranges.len() implies new_ranges[a].end()
        <= new_ranges[b].offset && new_ranges[a].id != new_ranges[b].id by {
        if b < i {
            assert(new_ranges[a] == ranges[a] && new_ranges[b] == ranges[b]);
        } else if b == i {
            assert(new_ranges[a] == ranges[a]);
        } else if a < i {
            assert(new_ranges[a] == ranges[a] && new_ranges[b] == ranges[b - 1]);
        } else if a == i {
            assert(new_ranges[b] == ranges[b - 1]);
        } else {
            assert(new_ranges[a] == ranges[a - 1] && new_ranges[b] == ranges[b - 1]);
        }
    }
    assert forall|a: int| 0 <= a < new_ranges.len() implies new_ranges[a].id < next_id + 1
        && new_ranges[a].end() <= capacity by {
        if a < i {
            assert(new_ranges[a] == ranges[a]);
        } else if a > i {
            assert(new_ranges[a] == ranges[a - 1]);
        }
    }
    assert forall|x: StagingRange| new_ranges.contains(x) <==> (ranges.contains(x) || x == range) by {
        if new_ranges.contains(x) {
            let k = choose|k: int| 0 <= k < new_ranges.len() && new_ranges[k] == x;
            if k < i {
                assert(ranges[k] == x);
            } else if k > i {
                assert(ranges[k - 1] == x);
            }
        }
        if ranges.contains(x) {
            let k = choose|k: int| 0 <= k < ranges.len() && ranges[k] == x;
            if k < i {
                assert(new_ranges[k] == x);
            } else {
                assert(new_ranges[k + 1] == x);
            }
        }
        if x == range {
            assert(new_ranges[i] == x);
        }
    }
}

impl StagingAllocator {
    pub closed spec fn spec_capacity(&self) -> int {
        self.capacity as int
    }

    /// The live ranges, ordered by offset.
    pub closed spec fn live(&self) -> Seq<StagingRange> {
        self.ranges@
    }

    pub closed spec fn spec_next_id(&self) -> u64 {
        self.next_id
    }

    /// A live range with id `id` exists.
    pub open spec fn has_id(&self, id: u64) -> bool {
        exists|i: int| 0 <= i < self.live().len() && self.live()[i].id == id
    }

    /// Live ranges lie inside the buffer, in order, without overlap, with distinct ids
    /// below `next_id`.
    pub closed spec fn wf(&self) -> bool {
        &&& self.capacity <= MAX_STAGING_CAPACITY
        &&& ranges_wf(self.ranges@, self.capacity as int, self.next_id as int)
    }

    /// Every live range lies inside the staging buffer.
    pub proof fn lemma_live_in_bounds(&self, r: StagingRange)
        requires
            self.wf(),
            self.live().contains(r),
        ensures
            r.end() <= self.spec_capacity(),
            self.spec_capacity() <= MAX_STAGING_CAPACITY,
    {
    }

    /// The buffer never grows past its largest size.
    pub proof fn lemma_capacity_bound(&self)
        requires
            self.wf(),
        ensures
            self.spec_capacity() <= MAX_STAGING_CAPACITY,
    {
    }

    /// Two live ranges with different ids share no byte.
    pub proof fn lemma_live_disjoint(&self, a: StagingRange, b: StagingRange)
        requires
            self.wf(),
            self.live().contains(a),
            self.live().contains(b),
            a.id != b.id,
        ensures
            a.disjoint(b),
    {
        let i = choose|i: int| 0 <= i < self.live().len() && self.live()[i] == a;
        let j = choose|j: int| 0 <= j < self.live().len() && self.live()[j] == b;
        if i < j {
            assert(self.ranges@[i].end() <= self.ranges@[j].offset);
        } else if j < i {
            assert(self.ranges@[j].end() <= self.ranges@[i].offset);
        }
    }

    pub fn get_next_id(&self) -> (r: u64)
        ensures
            r == self.spec_next_id(),
    {
        self.next_id
    }

    /// Whether `r` is one of the live ranges.
    pub fn is_live(&self, r: StagingRange) -> (b: bool)
        ensures
            b == self.live().contains(r),
    {
        let mut i: usize = 0;
        while i < self.ranges.len()
            invariant
                0 <= i <= self.ranges@.len(),
                forall|k: int| 0 <= k < i ==> self.ranges@[k] != r,
            decreases self.ranges@.len() - i,
        {
            let x = self.ranges[i];
            if x.id == r.id && x.offset == r.offset && x.size == r.size {
                assert(self.ranges@[i as int] == r);
                return true;
            }
            i = i + 1;
        }
        false
    }

    /// An allocator with an empty staging buffer of `capacity` bytes.
    pub fn new(capacity: u64) -> (r: Self)
        requires
            capacity <= MAX_STAGING_CAPACITY,
        ensures
            r.wf(),
            r.spec_capacity() == capacity,
            r.live() == Seq::<StagingRange>::empty(),
            r.spec_next_id() == 0,
    {
        StagingAllocator { capacity, ranges: Vec::new(), next_id: 0 }
    }

    /// The current size of the staging buffer.
    pub fn get_capacity(&self) -> (r: u64)
        ensures
            r == self.spec_capacity(),
    {
        self.capacity
    }

    /// The number of live ranges.
    pub fn live_count(&self) -> (r: usize)
        ensures
            r == self.live().len(),
    {
        self.ranges.len()
    }

    /// Hands out a range of `size` bytes that overlaps no live range: the first gap that
    /// holds it, or else room after the last range, for which the buffer grows. Fails only
    /// when no gap holds it and the buffer cannot grow enough.
    pub fn allocate(&mut self, size: u64) -> (r: Option<StagingRange>)
        requires
            old(self).wf(),
            old(self).spec_next_id() < u64::MAX,
        ensures
            final(self).wf(),
            final(self).spec_capacity() >= old(self).spec_capacity(),
            r is None <==> (!has_gap(old(self).live(), old(self).spec_capacity(), size as int)
                && gap_start(old(self).live(), old(self).live().len() as int) + size
                > MAX_STAGING_CAPACITY),
            r is None ==> *final(self) == *old(self),
            r is Some ==> {
                let a = r->0;
                &&& a.size == size
                &&& a.id == old(self).spec_next_id()
                &&& final(self).spec_next_id() == old(self).spec_next_id() + 1
                &&& a.end() <= final(self).spec_capacity()
                &&& !old(self).has_id(a.id)
                &&& forall|k: int|
                    0 <= k < old(self).live().len() ==> a.disjoint(old(self).live()[k])
                &&& forall|x: StagingRange|
                    final(self).live().contains(x) <==> (old(self).live().contains(x) || x == a)
            },
    {
        let n = self.ranges.len();
        let mut i: usize = 0;
        let mut found = false;
        while !found && i < n
            invariant
                self.wf(),
                n == self.ranges@.len(),
                0 <= i <= n,
                found ==> i < n && gap_end(self.ranges@, self.capacity as int, i as int)
                    - gap_start(self.ranges@, i as int) >= size,
                !found ==> forall|k: int|
                    0 <= k < i ==> gap_end(self.ranges@, self.capacity as int, k) - gap_start(
                        self.ranges@,
                        k,
                    ) < size,
            decreases n - i + if found { 0int } else { 1int },
        {
            let start: u64 = if i == 0 {
                0
            } else {
                self.ranges[i - 1].offset + self.ranges[i - 1].size
            };
            let end: u64 = self.ranges[i].offset;
            proof {
                if i > 0 {
                    assert(self.ranges@[i - 1].end() <= self.ranges@[i as int].offset);
                }
            }
            if end - start >= size {
                found = true;
            } else {
                i = i + 1;
            }
        }
        if !found {
            let last_end: u64 = if n == 0 {
                0
            } else {
                self.ranges[n - 1].offset + self.ranges[n - 1].size
            };
            if self.capacity - last_end >= size {
                i = n;
            } else {
                assert(!has_gap(self.ranges@, self.capacity as int, size as int));
                if MAX_STAGING_CAPACITY - last_end < size {
                    return None;
                }
                i = n;
                self.capacity = last_end + size;
            }
        }
        let start: u64 = if i == 0 {
            0
        } else {
            self.ranges[i - 1].offset + self.ranges[i - 1].size
        };
        let range = StagingRange { id: self.next_id, offset: start, size };
        proof {
            lemma_insert_in_gap(
                self.ranges@,
                i as int,
                range,
                old(self).capacity as int,
                self.capacity as int,
                self.next_id as int,
            );
        }
        self.ranges.insert(i, range);
        self.next_id = self.next_id + 1;
        assert(self.ranges@[i as int] == range);
        Some(range)
    }

    /// Returns the range with id `id` to the free space; `false` when no live range has
    /// that id.
    pub fn free(&mut self, id: u64) -> (r: bool)
        requires
            old(self).wf(),
        ensures
            final(self).wf(),
            r == old(self).has_id(id),
            final(self).spec_capacity() == old(self).spec_capacity(),
            final(self).spec_next_id() == old(self).spec_next_id(),
            !final(self).has_id(id),
            forall|x: StagingRange|
                final(self).live().contains(x) <==> (old(self).live().contains(x) && x.id != id),
    {
        let n = self.ranges.len();
        let mut i: usize = 0;
        while i < n
            invariant
                n == self.ranges@.len(),
                0 <= i <= n,
                self.wf(),
                *self == *old(self),
                forall|k: int| 0 <= k < i ==> self.ranges@[k].id != id,
            decreases n - i,
        {
            if self.ranges[i].id == id {
                let ghost old_ranges = self.ranges@;
                self.ranges.remove(i);
                proof {
                    assert(self.ranges@ == old_ranges.remove(i as int));
                    assert forall|a: int, b: int| 0 <= a < b < self.ranges@.len() implies self.ranges@[a].end()
                        <= self.ranges@[b].offset && self.ranges@[a].id != self.ranges@[b].id by {
                        let oa = if a < i { a } else { a + 1 };
                        let ob = if b < i { b } else { b + 1 };
                        assert(self.ranges@[a] == old_ranges[oa] && self.ranges@[b] == old_ranges[ob]);
                    }
                    assert forall|a: int| 0 <= a < self.ranges@.len() implies self.ranges@[a].id < self.next_id
                        && self.ranges@[a].end() <= self.capacity by {
                        let oa = if a < i { a } else { a + 1 };
                        assert(self.ranges@[a] == old_ranges[oa]);
                    }
                    assert forall|x: StagingRange|
                        self.ranges@.contains(x) <==> (old_ranges.contains(x) && x.id != id) by {
                        if self.ranges@.contains(x) {
                            let k = choose|k: int| 0 <= k < self.ranges@.len() && self.ranges@[k] == x;
                            if k < i {
                                assert(old_ranges[k] == x);
                            } else {
                                assert(old_ranges[k + 1] == x);
                            }
                        }
                        if old_ranges.contains(x) && x.id != id {
                            let k = choose|k: int| 0 <= k < old_ranges.len() && old_ranges[k] == x;
                            if k < i {
                                assert(self.ranges@[k] == x);
                            } else {
                                assert(k != i);
                                assert(self.ranges@[k - 1] == x);
                            }
                        }
                    }
                    assert(!self.has_id(id)) by {
                        if self.has_id(id) {
                            let k = choose|k: int| 0 <= k < self.ranges@.len() && self.ranges@[k].id == id;
                            if k < i {
                                assert(old_ranges[k].id == id);
                            } else {
                                assert(old_ranges[k + 1].id == id);
                            }
                        }
                    }
                }
                assert(old(self).live()[i as int].id == id);
                return true;
            }
            i = i + 1;
        }
        false
    }
}

} // verus!
