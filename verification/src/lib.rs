//! Subvolume and snapshot management for a copy-on-write filesystem, written
//! as pure decisions around an abstract control channel.
//!
//! Each operation comes in two halves. The function named after it turns the
//! caller's arguments into the one `Request` that the channel is to perform.
//! What the channel answers is then read by `check_status`, `check_value` or
//! `is_subvolume_outcome`. Enumerating subvolumes takes many requests: see
//! the module `search`.

pub mod error;
pub mod flags;
pub mod path;
pub mod qgroup;
pub mod search;
pub mod subvol;

pub use error::check_status;
pub use error::check_value;
pub use error::Error;
pub use flags::CreateSnapshotFlags;
pub use flags::CreateSubvolumeFlags;
pub use flags::DeleteSubvolumeFlags;
pub use qgroup::QgroupBuffer;
pub use qgroup::QgroupInherit;
pub use search::Listing;
pub use search::Phase;
pub use search::Progress;
pub use search::SearchReply;
pub use search::SearchRequest;
pub use search::Step;
pub use search::SubvolumeIterator;
pub use search::SubvolumePathRecord;
pub use subvol::SubvolumeInfo;
pub use subvol::Timestamp;

use vstd::prelude::*;
use crate::error::NOT_BTRFS;
use crate::error::NOT_SUBVOLUME;
use crate::error::OK;
use crate::path::c_path;
use crate::path::is_clean;
use crate::path::TERMINATOR;
use crate::qgroup::serialized;

verus! {

/// The id of the top-level subvolume of every filesystem.
pub const FS_TREE_OBJECTID: u64 = 5;

/// The id that stands for "the subvolume that holds the path".
pub const CONTAINING_SUBVOLUME: u64 = 0;

/// One call of the control channel. Every path in it is terminated.
#[derive(Debug)]
pub enum Request {
    Sync { path: Vec<u8> },
    IsSubvolume { path: Vec<u8> },
    SubvolumeId { path: Vec<u8> },
    SubvolumeInfo { path: Vec<u8>, id: u64 },
    GetReadOnly { path: Vec<u8> },
    SetReadOnly { path: Vec<u8>, read_only: bool },
    DeleteSubvolume { path: Vec<u8>, flags: i32 },
    CreateSubvolume { path: Vec<u8>, flags: i32, qgroup: Option<QgroupBuffer> },
    CreateSnapshot { source: Vec<u8>, path: Vec<u8>, flags: i32, qgroup: Option<QgroupBuffer> },
}

/// What a `Request` says, with every buffer as the sequence it holds.
pub enum Call {
    Sync { path: Seq<u8> },
    IsSubvolume { path: Seq<u8> },
    SubvolumeId { path: Seq<u8> },
    SubvolumeInfo { path: Seq<u8>, id: u64 },
    GetReadOnly { path: Seq<u8> },
    SetReadOnly { path: Seq<u8>, read_only: bool },
    DeleteSubvolume { path: Seq<u8>, flags: i32 },
    CreateSubvolume { path: Seq<u8>, flags: i32, qgroup: Option<Seq<u64>> },
    CreateSnapshot { source: Seq<u8>, path: Seq<u8>, flags: i32, qgroup: Option<Seq<u64>> },
}

/// The words of a buffer, if there is one.
pub open spec fn buffer_words(qgroup: Option<QgroupBuffer>) -> Option<Seq<u64>> {
    match qgroup {
        Some(buf) => Some(buf@),
        None => None,
    }
}

/// The words that a list of quota groups goes out as, if there is one.
pub open spec fn inherit_words(qgroup: Option<QgroupInherit>) -> Option<Seq<u64>> {
    match qgroup {
        Some(list) => Some(serialized(list@)),
        None => None,
    }
}

/// `path` as the channel takes it.
pub open spec fn terminated(path: Seq<u8>) -> Seq<u8> {
    path.push(TERMINATOR)
}

impl View for Request {
    type V = Call;

    open spec fn view(&self) -> Call {
        match *self {
            Request::Sync { path } => Call::Sync { path: path@ },
            Request::IsSubvolume { path } => Call::IsSubvolume { path: path@ },
            Request::SubvolumeId { path } => Call::SubvolumeId { path: path@ },
            Request::SubvolumeInfo { path, id } => Call::SubvolumeInfo { path: path@, id },
            Request::GetReadOnly { path } => Call::GetReadOnly { path: path@ },
            Request::SetReadOnly { path, read_only } => Call::SetReadOnly { path: path@, read_only },
            Request::DeleteSubvolume { path, flags } => Call::DeleteSubvolume { path: path@, flags },
            Request::CreateSubvolume { path, flags, qgroup } => Call::CreateSubvolume {
                path: path@,
                flags,
                qgroup: buffer_words(qgroup),
            },
            Request::CreateSnapshot { source, path, flags, qgroup } => Call::CreateSnapshot {
                source: source@,
                path: path@,
                flags,
                qgroup: buffer_words(qgroup),
            },
        }
    }
}

/// Puts a list of quota groups, if there is one, into its buffer.
fn serialize_qgroup(qgroup: Option<QgroupInherit>) -> (r: Option<QgroupBuffer>)
    requires
        qgroup matches Some(list) ==> list.wf(),
    ensures
        buffer_words(r) == inherit_words(qgroup),
        r matches Some(buf) ==> buf.wf(),
{
    match qgroup {
        Some(list) => Some(list.serialize()),
        None => None,
    }
}

/// Forces what is pending on the filesystem that holds `path` to stable
/// storage. The request is owed for every clean path; its outcome is
/// `check_status` of the channel's status.
pub fn sync(path: &[u8]) -> (r: Option<Request>)
    ensures
        r is Some <==> is_clean(path@),
        r matches Some(req) ==> req@ == (Call::Sync { path: terminated(path@) }),
{
    match c_path(path) {
        Some(path) => Some(Request::Sync { path }),
        None => None,
    }
}

/// Asks whether `path` is a subvolume. The outcome is `is_subvolume_outcome`
/// of the channel's status.
pub fn is_subvolume(path: &[u8]) -> (r: Option<Request>)
    ensures
        r is Some <==> is_clean(path@),
        r matches Some(req) ==> req@ == (Call::IsSubvolume { path: terminated(path@) }),
{
    match c_path(path) {
        Some(path) => Some(Request::IsSubvolume { path }),
        None => None,
    }
}

/// Reads the answer to `is_subvolume`. `OK` is a yes. `NOT_SUBVOLUME` and
/// `NOT_BTRFS` are both a plain no, with no error. Every other status is
/// the error, unchanged.
pub fn is_subvolume_outcome(status: Error) -> (r: Result<bool, Error>)
    ensures
        status.0 == OK ==> r == Ok::<bool, Error>(true),
        status.0 == NOT_SUBVOLUME || status.0 == NOT_BTRFS ==> r == Ok::<bool, Error>(false),
        status.0 != OK && status.0 != NOT_SUBVOLUME && status.0 != NOT_BTRFS ==> r == Err::<
            bool,
            Error,
        >(status),
{
    if status.0 == OK {
        Ok(true)
    } else if status.0 == NOT_SUBVOLUME || status.0 == NOT_BTRFS {
        Ok(false)
    } else {
        Err(status)
    }
}

/// Asks for the id of the subvolume that holds `path`. The outcome is
/// `check_value` of the id and the status that the channel sends.
pub fn subvolume_id(path: &[u8]) -> (r: Option<Request>)
    ensures
        r is Some <==> is_clean(path@),
        r matches Some(req) ==> req@ == (Call::SubvolumeId { path: terminated(path@) }),
{
    match c_path(path) {
        Some(path) => Some(Request::SubvolumeId { path }),
        None => None,
    }
}

/// Asks for the record of the subvolume with the given `id` on the
/// filesystem that holds `path`. The outcome is `check_value` of the record
/// and the status that the channel sends.
pub fn subvolume_info_with_id(path: &[u8], id: u64) -> (r: Option<Request>)
    ensures
        r is Some <==> is_clean(path@),
        r matches Some(req) ==> req@ == (Call::SubvolumeInfo { path: terminated(path@), id }),
{
    match c_path(path) {
        Some(path) => Some(Request::SubvolumeInfo { path, id }),
        None => None,
    }
}

/// Asks for the record of the subvolume that holds `path`: the same request
/// as for the id `CONTAINING_SUBVOLUME`.
pub fn subvolume_info(path: &[u8]) -> (r: Option<Request>)
    ensures
        r is Some <==> is_clean(path@),
        r matches Some(req) ==> req@ == (Call::SubvolumeInfo {
            path: terminated(path@),
            id: CONTAINING_SUBVOLUME,
        }),
{
    subvolume_info_with_id(path, CONTAINING_SUBVOLUME)
}

/// Asks whether the subvolume at `path` is read-only. The outcome is
/// `check_value` of the flag and the status that the channel sends.
pub fn subvolume_read_only(path: &[u8]) -> (r: Option<Request>)
    ensures
        r is Some <==> is_clean(path@),
        r matches Some(req) ==> req@ == (Call::GetReadOnly { path: terminated(path@) }),
{
    match c_path(path) {
        Some(path) => Some(Request::GetReadOnly { path }),
        None => None,
    }
}

/// Makes the subvolume at `path` read-only, or writable again. The outcome
/// is `check_status` of the channel's status.
pub fn set_subvolume_read_only(path: &[u8], read_only: bool) -> (r: Option<Request>)
    ensures
        r is Some <==> is_clean(path@),
        r matches Some(req) ==> req@ == (Call::SetReadOnly { path: terminated(path@), read_only }),
{
    match c_path(path) {
        Some(path) => Some(Request::SetReadOnly { path, read_only }),
        None => None,
    }
}

/// Deletes the subvolume or snapshot at `path`. The flags go to the channel
/// as their bits; it is the channel that turns down a subvolume with others
/// nested in it unless `recursive` is raised. The outcome is `check_status`
/// of the channel's status.
pub fn delete_subvolume(path: &[u8], flags: DeleteSubvolumeFlags) -> (r: Option<Request>)
    ensures
        r is Some <==> is_clean(path@),
        r matches Some(req) ==> req@ == (Call::DeleteSubvolume {
            path: terminated(path@),
            flags: flags.spec_bits(),
        }),
{
    match c_path(path) {
        Some(path) => Some(Request::DeleteSubvolume { path, flags: flags.bits() }),
        None => None,
    }
}

/// Creates a subvolume at `path`. A list of quota groups, if one is given,
/// is used up: it goes out in one buffer with the request. The outcome is
/// `check_status` of the channel's status.
pub fn create_subvolume(
    path: &[u8],
    flags: CreateSubvolumeFlags,
    qgroup: Option<QgroupInherit>,
) -> (r: Option<Request>)
    requires
        qgroup matches Some(list) ==> list.wf(),
    ensures
        r is Some <==> is_clean(path@),
        r matches Some(req) ==> req@ == (Call::CreateSubvolume {
            path: terminated(path@),
            flags: flags.spec_bits(),
            qgroup: inherit_words(qgroup),
        }),
{
    match c_path(path) {
        Some(path) => Some(
            Request::CreateSubvolume {
                path,
                flags: flags.bits(),
                qgroup: serialize_qgroup(qgroup),
            },
        ),
        None => None,
    }
}

/// Creates at `path` a snapshot of the subvolume at `source`. A list of
/// quota groups, if one is given, is used up: it goes out in one buffer with
/// the request. The outcome is `check_status` of the channel's status.
pub fn create_snapshot(
    source: &[u8],
    path: &[u8],
    flags: CreateSnapshotFlags,
    qgroup: Option<QgroupInherit>,
) -> (r: Option<Request>)
    requires
        qgroup matches Some(list) ==> list.wf(),
    ensures
        r is Some <==> is_clean(source@) && is_clean(path@),
        r matches Some(req) ==> req@ == (Call::CreateSnapshot {
            source: terminated(source@),
            path: terminated(path@),
            flags: flags.spec_bits(),
            qgroup: inherit_words(qgroup),
        }),
{
    let csource = match c_path(source) {
        Some(bytes) => bytes,
        None => {
            return None;
        },
    };
    let cpath = match c_path(path) {
        Some(bytes) => bytes,
        None => {
            return None;
        },
    };
    Some(
        Request::CreateSnapshot {
            source: csource,
            path: cpath,
            flags: flags.bits(),
            qgroup: serialize_qgroup(qgroup),
        },
    )
}

} // verus!
