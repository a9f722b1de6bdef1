//! Newtype wrappers around various integer types in order to leverage
//! the type system to avoid mixing up certain values like inodes with
//! other numeric values.

use vstd::prelude::*;

verus! {

/// Newtype for an inode, see module-level docs.
#[derive(Clone, Copy, Debug, Hash, PartialEq, Eq, Structural)]
pub struct Inode(pub u64);

/// Newtype for a file handle, see module-level docs.
#[derive(Clone, Copy, Debug, Hash, PartialEq, Eq, Structural)]
pub struct FileHandle(pub u64);

/// A single octal digit of unix permissions: three bits, high to low
/// read, write, execute.
#[derive(Clone, Copy, Debug, PartialEq, Eq, Structural)]
pub struct Permissions {
    /// The raw bits; only the low three are meaningful.
    pub bits: u8,
}

impl Permissions {
    /// A permission value is well formed when only the three
    /// meaningful bits are set.
    pub open spec fn wf(self) -> bool {
        self.bits < 8
    }

    /// Permission to execute this program or open this directory.
    pub fn execute() -> (p: Permissions)
        ensures
            p.bits == 1,
            p.wf(),
    {
        Permissions { bits: 1 }
    }

    /// Permission to write to this file.
    pub fn write() -> (p: Permissions)
        ensures
            p.bits == 2,
            p.wf(),
    {
        Permissions { bits: 2 }
    }

    /// Permission to read this file.
    pub fn read() -> (p: Permissions)
        ensures
            p.bits == 4,
            p.wf(),
    {
        Permissions { bits: 4 }
    }

    /// Whether every bit set in `other` is also set in `self`.
    pub open spec fn spec_contains(self, other: Permissions) -> bool {
        self.bits & other.bits == other.bits
    }

    /// Whether every bit set in `other` is also set in `self`.
    pub fn contains(&self, other: Permissions) -> (r: bool)
        ensures
            r == self.spec_contains(other),
    {
        self.bits & other.bits == other.bits
    }
}

} // verus!
