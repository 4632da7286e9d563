//! The flag sets that callers hand to the deleting and creating operations,
//! and the bit patterns by which the channel knows them.

use vstd::prelude::*;

verus! {

/// Bit of `DeleteSubvolumeFlags::recursive`.
pub const DELETE_SUBVOLUME_RECURSIVE: i32 = 1;

/// Bit of `CreateSnapshotFlags::recursive`.
pub const CREATE_SNAPSHOT_RECURSIVE: i32 = 1;

/// Bit of `CreateSnapshotFlags::read_only`.
pub const CREATE_SNAPSHOT_READ_ONLY: i32 = 2;

/// How a subvolume is deleted.
#[derive(Debug, Clone, Copy, PartialEq, Eq, Structural)]
pub struct DeleteSubvolumeFlags {
    /// Delete the subvolumes nested beneath the target as well.
    pub recursive: bool,
}

impl DeleteSubvolumeFlags {
    pub open spec fn spec_bits(self) -> i32 {
        if self.recursive {
            DELETE_SUBVOLUME_RECURSIVE
        } else {
            0
        }
    }

    /// The set with no flag raised.
    pub fn empty() -> (f: Self)
        ensures
            f == (DeleteSubvolumeFlags { recursive: false }),
    {
        DeleteSubvolumeFlags { recursive: false }
    }

    /// The bit pattern of this set.
    pub fn bits(&self) -> (b: i32)
        ensures
            b == self.spec_bits(),
    {
        if self.recursive {
            DELETE_SUBVOLUME_RECURSIVE
        } else {
            0
        }
    }

    /// The set with the given bit pattern, if every bit of it is a flag.
    pub fn from_bits(bits: i32) -> (r: Option<Self>)
        ensures
            r is Some <==> (bits == 0 || bits == DELETE_SUBVOLUME_RECURSIVE),
            r matches Some(f) ==> f.spec_bits() == bits,
    {
        if bits == 0 {
            Some(DeleteSubvolumeFlags { recursive: false })
        } else if bits == DELETE_SUBVOLUME_RECURSIVE {
            Some(DeleteSubvolumeFlags { recursive: true })
        } else {
            None
        }
    }
}

/// How a subvolume is created. No flag is defined yet.
#[derive(Debug, Clone, Copy, PartialEq, Eq, Structural)]
pub struct CreateSubvolumeFlags {}

impl CreateSubvolumeFlags {
    pub open spec fn spec_bits(self) -> i32 {
        0
    }

    /// The set with no flag raised: the only one there is.
    pub fn empty() -> (f: Self)
        ensures
            f == (CreateSubvolumeFlags {  }),
    {
        CreateSubvolumeFlags {  }
    }

    /// The bit pattern of this set.
    pub fn bits(&self) -> (b: i32)
        ensures
            b == self.spec_bits(),
    {
        0
    }

    /// The set with the given bit pattern, if every bit of it is a flag.
    pub fn from_bits(bits: i32) -> (r: Option<Self>)
        ensures
            r is Some <==> bits == 0,
            r matches Some(f) ==> f.spec_bits() == bits,
    {
        if bits == 0 {
            Some(CreateSubvolumeFlags {  })
        } else {
            None
        }
    }
}

/// How a snapshot is created.
#[derive(Debug, Clone, Copy, PartialEq, Eq, Structural)]
pub struct CreateSnapshotFlags {
    /// The snapshot cannot be written to.
    pub read_only: bool,
    /// Snapshot the subvolumes nested beneath the source as well.
    pub recursive: bool,
}

impl CreateSnapshotFlags {
    pub open spec fn spec_bits(self) -> i32 {
        if self.read_only && self.recursive {
            3
        } else if self.read_only {
            CREATE_SNAPSHOT_READ_ONLY
        } else if self.recursive {
            CREATE_SNAPSHOT_RECURSIVE
        } else {
            0
        }
    }

    /// The set with no flag raised.
    pub fn empty() -> (f: Self)
        ensures
            f == (CreateSnapshotFlags { read_only: false, recursive: false }),
    {
        CreateSnapshotFlags { read_only: false, recursive: false }
    }

    /// The bit pattern of this set: the sum of the bits of the flags raised.
    pub fn bits(&self) -> (b: i32)
        ensures
            b == self.spec_bits(),
            b == (if self.read_only { 2int } else { 0int }) + (if self.recursive { 1int } else { 0int }),
    {
        let low: i32 = if self.recursive { CREATE_SNAPSHOT_RECURSIVE } else { 0 };
        let high: i32 = if self.read_only { CREATE_SNAPSHOT_READ_ONLY } else { 0 };
        low + high
    }

    /// The set with the given bit pattern, if every bit of it is a flag.
    pub fn from_bits(bits: i32) -> (r: Option<Self>)
        ensures
            r is Some <==> 0 <= bits <= 3,
            r matches Some(f) ==> f.spec_bits() == bits,
    {
        if bits < 0 || bits > 3 {
            None
        } else {
            Some(CreateSnapshotFlags { read_only: bits >= 2, recursive: bits == 1 || bits == 3 })
        }
    }
}

impl Default for DeleteSubvolumeFlags {
    fn default() -> (f: Self)
        ensures
            f == (DeleteSubvolumeFlags { recursive: false }),
    {
        DeleteSubvolumeFlags { recursive: false }
    }
}

impl Default for CreateSubvolumeFlags {
    fn default() -> (f: Self)
        ensures
            f == (CreateSubvolumeFlags {  }),
    {
        CreateSubvolumeFlags {  }
    }
}

impl Default for CreateSnapshotFlags {
    fn default() -> (f: Self)
        ensures
            f == (CreateSnapshotFlags { read_only: false, recursive: false }),
    {
        CreateSnapshotFlags { read_only: false, recursive: false }
    }
}

/// Two sets of snapshot flags with the same bit pattern are the same set.
pub proof fn lemma_snapshot_bits_injective(a: CreateSnapshotFlags, b: CreateSnapshotFlags)
    requires
        a.spec_bits() == b.spec_bits(),
    ensures
        a == b,
{
}

} // verus!
