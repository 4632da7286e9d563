use btrfsutil::error;
use btrfsutil::{
    create_snapshot, create_subvolume, CreateSnapshotFlags, CreateSubvolumeFlags, Error,
    QgroupInherit, Request,
};

fn list_of(ids: &[u64]) -> QgroupInherit {
    let mut list = QgroupInherit::new();
    for id in ids {
        assert_eq!(list.add(*id), Ok(()));
    }
    list
}

#[test]
fn empty_list_serializes_to_a_zero_count() {
    let list = QgroupInherit::new();
    assert_eq!(list.len(), 0);
    let buf = list.serialize();
    assert_eq!(buf.as_words(), &vec![0u64]);
    assert_eq!(buf.count(), 0);
}

#[test]
fn add_keeps_order_and_duplicates() {
    let list = list_of(&[5, 3, 5, 9]);
    assert_eq!(list.len(), 4);
    let buf = list.serialize();
    assert_eq!(buf.count(), 4);
    assert_eq!(buf.as_words(), &vec![4u64, 5, 3, 5, 9]);
    assert_eq!(buf.id(0), 5);
    assert_eq!(buf.id(1), 3);
    assert_eq!(buf.id(2), 5);
    assert_eq!(buf.id(3), 9);
}

#[test]
fn add_grows_the_list_by_one() {
    let mut list = QgroupInherit::new();
    assert_eq!(list.add(u64::MAX), Ok(()));
    assert_eq!(list.len(), 1);
    assert_eq!(list.add(0), Ok(()));
    assert_eq!(list.len(), 2);
    assert_eq!(list.serialize().as_words(), &vec![2u64, u64::MAX, 0]);
}

#[test]
fn no_memory_is_a_failure_of_its_own() {
    assert_eq!(Error::new(error::NO_MEMORY).code(), 2);
    assert!(!Error::new(error::NO_MEMORY).is_ok());
    assert_eq!(Error::new(error::INVALID_ARGUMENT).code(), 3);
}

#[test]
fn each_creation_takes_its_own_list() {
    let first = create_subvolume(b"/mnt/a", CreateSubvolumeFlags::empty(), Some(list_of(&[7, 8])));
    let second = create_snapshot(
        b"/mnt/a",
        b"/mnt/b",
        CreateSnapshotFlags::empty(),
        Some(list_of(&[7, 8])),
    );
    match first {
        Some(Request::CreateSubvolume { path, flags, qgroup }) => {
            assert_eq!(path, b"/mnt/a\0".to_vec());
            assert_eq!(flags, 0);
            assert_eq!(qgroup.unwrap().as_words(), &vec![2u64, 7, 8]);
        }
        other => panic!("unexpected request {:?}", other),
    }
    match second {
        Some(Request::CreateSnapshot { source, path, flags, qgroup }) => {
            assert_eq!(source, b"/mnt/a\0".to_vec());
            assert_eq!(path, b"/mnt/b\0".to_vec());
            assert_eq!(flags, 0);
            assert_eq!(qgroup.unwrap().as_words(), &vec![2u64, 7, 8]);
        }
        other => panic!("unexpected request {:?}", other),
    }
}

#[test]
fn creation_without_a_list_carries_no_buffer() {
    match create_subvolume(b"vol", CreateSubvolumeFlags::empty(), None) {
        Some(Request::CreateSubvolume { path, flags, qgroup }) => {
            assert_eq!(path, b"vol\0".to_vec());
            assert_eq!(flags, 0);
            assert!(qgroup.is_none());
        }
        other => panic!("unexpected request {:?}", other),
    }
}
