//! The status codes that every control-channel call reports.

use vstd::prelude::*;
use vstd::std_specs::convert::FromSpecImpl;

verus! {

pub const OK: u32 = 0;
pub const STOP_ITERATION: u32 = 1;
pub const NO_MEMORY: u32 = 2;
pub const INVALID_ARGUMENT: u32 = 3;
pub const NOT_BTRFS: u32 = 4;
pub const NOT_SUBVOLUME: u32 = 5;
pub const SUBVOLUME_NOT_FOUND: u32 = 6;
pub const OPEN_FAILED: u32 = 7;
pub const RMDIR_FAILED: u32 = 8;
pub const UNLINK_FAILED: u32 = 9;
pub const STAT_FAILED: u32 = 10;
pub const STATFS_FAILED: u32 = 11;
pub const SEARCH_FAILED: u32 = 12;
pub const INO_LOOKUP_FAILED: u32 = 13;
pub const SUBVOL_GETFLAGS_FAILED: u32 = 14;
pub const SUBVOL_SETFLAGS_FAILED: u32 = 15;
pub const SUBVOL_CREATE_FAILED: u32 = 16;
pub const SNAP_CREATE_FAILED: u32 = 17;
pub const SNAP_DESTROY_FAILED: u32 = 18;
pub const DEFAULT_SUBVOL_FAILED: u32 = 19;
pub const SYNC_FAILED: u32 = 20;
pub const START_SYNC_FAILED: u32 = 21;
pub const WAIT_SYNC_FAILED: u32 = 22;
pub const GET_SUBVOL_INFO_FAILED: u32 = 23;
pub const GET_SUBVOL_ROOTREF_FAILED: u32 = 24;
pub const INO_LOOKUP_USER_FAILED: u32 = 25;
pub const FS_INFO_FAILED: u32 = 26;

/// A status code reported by the control channel.
///
/// The field is the raw code. Codes up to `FS_INFO_FAILED` have a name in
/// this module; any larger code comes from a newer channel and is carried
/// through unchanged.
#[derive(Debug, Clone, Copy, PartialEq, Eq, Hash, Structural)]
pub struct Error(pub u32);

impl Error {
    /// Wraps a raw status code. Every code is accepted.
    pub fn new(errcode: u32) -> (e: Error)
        ensures
            e == Error(errcode),
    {
        Error(errcode)
    }

    /// The raw status code.
    pub fn code(&self) -> (c: u32)
        ensures
            c == self.0,
    {
        self.0
    }

    /// True exactly for the success code.
    pub fn is_ok(&self) -> (b: bool)
        ensures
            b == (self.0 == OK),
    {
        self.0 == OK
    }

    /// True exactly for the codes above the highest one that has a name.
    #[inline]
    pub fn is_unknown(&self) -> (b: bool)
        ensures
            b == (self.0 > FS_INFO_FAILED),
    {
        self.0 > FS_INFO_FAILED
    }
}

impl From<u32> for Error {
    fn from(errcode: u32) -> (e: Error) {
        Error(errcode)
    }
}

impl FromSpecImpl<u32> for Error {
    open spec fn obeys_from_spec() -> bool {
        true
    }

    open spec fn from_spec(errcode: u32) -> Error {
        Error(errcode)
    }
}

impl From<Error> for u32 {
    fn from(err: Error) -> (c: u32) {
        err.0
    }
}

impl FromSpecImpl<Error> for u32 {
    open spec fn obeys_from_spec() -> bool {
        true
    }

    open spec fn from_spec(err: Error) -> u32 {
        err.0
    }
}

/// Turns a bare status into an outcome: success for `OK`, and otherwise the
/// status itself as the error.
pub fn check_status(status: Error) -> (r: Result<(), Error>)
    ensures
        status.0 == OK ==> r == Ok::<(), Error>(()),
        status.0 != OK ==> r == Err::<(), Error>(status),
{
    if status.0 == OK {
        Ok(())
    } else {
        Err(status)
    }
}

/// Turns a value and the status that came with it into an outcome: the value
/// for `OK`, and otherwise the status as the error, the value being dropped.
pub fn check_value<T>(value: T, status: Error) -> (r: Result<T, Error>)
    ensures
        status.0 == OK ==> r == Ok::<T, Error>(value),
        status.0 != OK ==> r == Err::<T, Error>(status),
{
    if status.0 == OK {
        Ok(value)
    } else {
        Err(status)
    }
}

} // verus!
