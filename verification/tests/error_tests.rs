use btrfsutil::error;
use btrfsutil::{check_status, check_value, is_subvolume_outcome, Error};

#[test]
fn named_codes_are_known() {
    let mut code: u32 = 0;
    while code <= error::FS_INFO_FAILED {
        assert!(!Error::new(code).is_unknown(), "code {}", code);
        code += 1;
    }
}

#[test]
fn codes_above_the_highest_name_are_unknown() {
    assert!(Error::new(error::FS_INFO_FAILED + 1).is_unknown());
    assert!(Error::new(27).is_unknown());
    assert!(Error::new(1000).is_unknown());
    assert!(Error::new(u32::MAX).is_unknown());
    assert!(!Error::new(26).is_unknown());
}

#[test]
fn code_values_follow_the_channel() {
    assert_eq!(error::OK, 0);
    assert_eq!(error::STOP_ITERATION, 1);
    assert_eq!(error::NO_MEMORY, 2);
    assert_eq!(error::INVALID_ARGUMENT, 3);
    assert_eq!(error::NOT_BTRFS, 4);
    assert_eq!(error::NOT_SUBVOLUME, 5);
    assert_eq!(error::SUBVOLUME_NOT_FOUND, 6);
    assert_eq!(error::SEARCH_FAILED, 12);
    assert_eq!(error::SYNC_FAILED, 20);
    assert_eq!(error::GET_SUBVOL_INFO_FAILED, 23);
    assert_eq!(error::GET_SUBVOL_ROOTREF_FAILED, 24);
    assert_eq!(error::FS_INFO_FAILED, 26);
}

#[test]
fn raw_code_goes_in_and_out_unchanged() {
    let e = Error::from(12u32);
    assert_eq!(e, Error::new(error::SEARCH_FAILED));
    assert_eq!(e.code(), 12);
    assert_eq!(u32::from(e), 12);
    assert_eq!(u32::from(Error::from(4_000_000_000u32)), 4_000_000_000u32);
    assert_ne!(Error::from(3u32), Error::from(4u32));
}

#[test]
fn ok_differs_from_every_failure() {
    assert!(Error::new(error::OK).is_ok());
    let mut code: u32 = 1;
    while code <= 40 {
        assert!(!Error::new(code).is_ok());
        assert_ne!(Error::new(code), Error::new(error::OK));
        code += 1;
    }
}

#[test]
fn status_becomes_outcome() {
    assert_eq!(check_status(Error::new(error::OK)), Ok(()));
    assert_eq!(
        check_status(Error::new(error::SYNC_FAILED)),
        Err(Error::new(error::SYNC_FAILED))
    );
    assert_eq!(check_status(Error::new(77)), Err(Error::new(77)));
    assert_eq!(
        check_status(Error::new(error::STOP_ITERATION)),
        Err(Error::new(error::STOP_ITERATION))
    );
}

#[test]
fn value_survives_only_ok() {
    assert_eq!(check_value(256u64, Error::new(error::OK)), Ok(256u64));
    assert_eq!(
        check_value(256u64, Error::new(error::INO_LOOKUP_FAILED)),
        Err(Error::new(error::INO_LOOKUP_FAILED))
    );
    assert_eq!(check_value(true, Error::new(error::OK)), Ok(true));
    assert_eq!(
        check_value(true, Error::new(error::SUBVOL_GETFLAGS_FAILED)),
        Err(Error::new(error::SUBVOL_GETFLAGS_FAILED))
    );
}

#[test]
fn is_subvolume_treats_both_refusals_as_no() {
    assert_eq!(is_subvolume_outcome(Error::new(error::OK)), Ok(true));
    assert_eq!(
        is_subvolume_outcome(Error::new(error::NOT_SUBVOLUME)),
        Ok(false)
    );
    assert_eq!(is_subvolume_outcome(Error::new(error::NOT_BTRFS)), Ok(false));
}

#[test]
fn is_subvolume_passes_every_other_code_on() {
    let mut code: u32 = 1;
    while code <= 40 {
        if code != error::NOT_SUBVOLUME && code != error::NOT_BTRFS {
            assert_eq!(
                is_subvolume_outcome(Error::new(code)),
                Err(Error::new(code))
            );
        }
        code += 1;
    }
    assert_eq!(
        is_subvolume_outcome(Error::new(error::OPEN_FAILED)),
        Err(Error::new(error::OPEN_FAILED))
    );
}
