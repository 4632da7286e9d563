//! What the channel tells of one subvolume.

use vstd::prelude::*;

verus! {

/// A point in time: seconds since the epoch, and nanoseconds beyond them.
#[derive(Debug, Clone, Copy, PartialEq, Eq, Structural)]
pub struct Timestamp {
    pub sec: i64,
    pub nsec: i64,
}

/// The record of one subvolume. Every field is what the channel sent,
/// unchanged.
#[derive(Debug, Clone, Copy, PartialEq, Eq)]
pub struct SubvolumeInfo {
    pub id: u64,
    /// The id of the subvolume that holds this one.
    pub parent_id: u64,
    /// The inode of the directory that holds this one.
    pub dir_id: u64,
    pub flags: u64,
    pub uuid: [u8; 16],
    /// The subvolume that this one is a snapshot of; all zero where it is
    /// none.
    pub parent_uuid: [u8; 16],
    /// The subvolume that this one was received from; all zero where it was
    /// not received.
    pub received_uuid: [u8; 16],
    pub generation: u64,
    pub ctransid: u64,
    pub otransid: u64,
    pub stransid: u64,
    pub rtransid: u64,
    pub ctime: Timestamp,
    pub otime: Timestamp,
    pub stime: Timestamp,
    pub rtime: Timestamp,
}

/// An identifier of all zero bytes stands for "none".
pub open spec fn is_nil(uuid: Seq<u8>) -> bool {
    forall|i: int| 0 <= i < uuid.len() ==> uuid[i] == 0u8
}

/// Whether `uuid` stands for "none".
pub fn uuid_is_nil(uuid: &[u8; 16]) -> (b: bool)
    ensures
        b == is_nil(uuid@),
{
    let mut i: usize = 0;
    while i < 16
        invariant
            i <= 16,
            forall|j: int| 0 <= j < i ==> uuid@[j] == 0u8,
        decreases 16 - i,
    {
        if uuid[i] != 0 {
            return false;
        }
        i += 1;
    }
    true
}

impl SubvolumeInfo {
    /// The record with every field zero, for the channel to fill.
    pub fn new() -> (info: SubvolumeInfo)
        ensures
            info.id == 0 && info.parent_id == 0 && info.dir_id == 0 && info.flags == 0,
            is_nil(info.uuid@) && is_nil(info.parent_uuid@) && is_nil(info.received_uuid@),
            info.generation == 0 && info.ctransid == 0 && info.otransid == 0 && info.stransid == 0
                && info.rtransid == 0,
            info.ctime == (Timestamp { sec: 0, nsec: 0 }),
            info.otime == info.ctime && info.stime == info.ctime && info.rtime == info.ctime,
    {
        let zero = Timestamp { sec: 0, nsec: 0 };
        SubvolumeInfo {
            id: 0,
            parent_id: 0,
            dir_id: 0,
            flags: 0,
            uuid: [0u8; 16],
            parent_uuid: [0u8; 16],
            received_uuid: [0u8; 16],
            generation: 0,
            ctransid: 0,
            otransid: 0,
            stransid: 0,
            rtransid: 0,
            ctime: zero,
            otime: zero,
            stime: zero,
            rtime: zero,
        }
    }

    /// The subvolume that this one is a snapshot of, if it is one.
    pub fn snapshot_source(&self) -> (r: Option<[u8; 16]>)
        ensures
            is_nil(self.parent_uuid@) ==> r is None,
            !is_nil(self.parent_uuid@) ==> r == Some(self.parent_uuid),
    {
        if uuid_is_nil(&self.parent_uuid) {
            None
        } else {
            Some(self.parent_uuid)
        }
    }

    /// The subvolume that this one was received from, if it was received.
    pub fn received_from(&self) -> (r: Option<[u8; 16]>)
        ensures
            is_nil(self.received_uuid@) ==> r is None,
            !is_nil(self.received_uuid@) ==> r == Some(self.received_uuid),
    {
        if uuid_is_nil(&self.received_uuid) {
            None
        } else {
            Some(self.received_uuid)
        }
    }
}

} // verus!
