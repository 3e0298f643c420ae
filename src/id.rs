use vstd::prelude::*;

verus! {

/// Error of an acquire: the resource is already available to the transfer engine.
#[derive(Copy, Clone, PartialEq, Eq, Structural, PartialOrd, Ord, Debug, Hash)]
pub enum AcquireError {
    AlreadyAvailable,
}

/// Error of a release: the resource was not available to the transfer engine.
#[derive(Copy, Clone, PartialEq, Eq, Structural, PartialOrd, Ord, Debug, Hash)]
pub enum ReleaseError {
    NotAvailable,
}

/// A point in the transfer engine's task stream. Ids grow strictly with every
/// operation that mints one and are never reused.
#[derive(Copy, Clone, PartialEq, Eq, Structural, PartialOrd, Ord, Debug, Hash)]
pub struct SyncId(pub u64);

impl SyncId {
    pub fn from_raw(raw: u64) -> (r: Self)
        ensures
            r.0 == raw,
    {
        SyncId(raw)
    }

    pub fn get_raw(&self) -> (r: u64)
        ensures
            r == self.0,
    {
        self.0
    }
}

/// Identifies a buffer known to the transfer engine.
#[derive(Copy, Clone, PartialEq, Eq, Structural, PartialOrd, Ord, Debug, Hash)]
pub struct BufferId(pub u64);

impl BufferId {
    pub fn from_raw(raw: u64) -> (r: Self)
        ensures
            r.0 == raw,
    {
        BufferId(raw)
    }

    pub fn get_raw(&self) -> (r: u64)
        ensures
            r == self.0,
    {
        self.0
    }
}

/// Identifies an image known to the transfer engine.
#[derive(Copy, Clone, PartialEq, Eq, Structural, PartialOrd, Ord, Debug, Hash)]
pub struct ImageId(pub u64);

impl ImageId {
    pub fn from_raw(raw: u64) -> (r: Self)
        ensures
            r.0 == raw,
    {
        ImageId(raw)
    }

    pub fn get_raw(&self) -> (r: u64)
        ensures
            r == self.0,
    {
        self.0
    }
}

} // verus!
