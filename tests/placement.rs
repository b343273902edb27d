use async_tempfile::{Error, Ownership, Placement, DIR_PREFIX, FILE_PREFIX};

#[test]
fn named_in_joins_root_and_name() {
    let p = Placement::named_in("temporary.file", "/tmp", true).unwrap();
    assert_eq!(p.path, "/tmp/temporary.file");
    assert_eq!(p.ownership, Ownership::Owned);
    assert!(p.create_new);
    let p = Placement::named_in("temporary.dir", "/tmp/", true).unwrap();
    assert_eq!(p.path, "/tmp/temporary.dir");
}

#[test]
fn named_in_rejects_a_root_that_is_no_directory() {
    let r = Placement::named_in("temporary.file", "/no/such/root", false);
    assert!(matches!(r, Err(Error::InvalidDirectory)));
}

#[test]
fn uuid_placements_use_the_kind_prefix() {
    let id = 0xa1a2a3a4b1b2c1c2d1d2d3d4d5d6d7d8u128;
    let f = Placement::file_with_uuid_in(id, "/tmp", true).unwrap();
    assert_eq!(f.path, "/tmp/atmp_a1a2a3a4-b1b2-c1c2-d1d2-d3d4d5d6d7d8");
    let d = Placement::dir_with_uuid_in(id, "/tmp", true).unwrap();
    assert_eq!(d.path, "/tmp/atmpd_a1a2a3a4-b1b2-c1c2-d1d2-d3d4d5d6d7d8");
    assert!(matches!(
        Placement::dir_with_uuid_in(id, "/tmp", false),
        Err(Error::InvalidDirectory)
    ));
}

#[test]
fn random_placements_are_owned_and_distinct() {
    let a = Placement::file_in("/tmp", true).unwrap();
    let b = Placement::file_in("/tmp", true).unwrap();
    assert!(a.path.starts_with(&format!("/tmp/{}", FILE_PREFIX)));
    assert_ne!(a.path, b.path);
    assert_eq!(a.ownership, Ownership::Owned);
    let d = Placement::dir_in("/tmp", true).unwrap();
    assert!(d.path.starts_with(&format!("/tmp/{}", DIR_PREFIX)));
    assert!(matches!(Placement::file_in("/tmp", false), Err(Error::InvalidDirectory)));
}

#[test]
fn existing_resources_keep_the_given_ownership() {
    let p = Placement::existing_file("/tmp/f", Ownership::Borrowed, true).unwrap();
    assert_eq!(p.path, "/tmp/f");
    assert_eq!(p.ownership, Ownership::Borrowed);
    assert!(!p.create_new);
    assert!(matches!(
        Placement::existing_file("/tmp/f", Ownership::Owned, false),
        Err(Error::InvalidFile)
    ));
    let d = Placement::existing_dir("/tmp/d", Ownership::Owned, true).unwrap();
    assert_eq!(d.ownership, Ownership::Owned);
    assert!(!d.create_new);
    assert!(matches!(
        Placement::existing_dir("/tmp/d", Ownership::Borrowed, false),
        Err(Error::InvalidDirectory)
    ));
}

#[test]
fn only_owned_resources_are_deleted_on_teardown() {
    assert!(Ownership::Owned.deletes_on_teardown());
    assert!(!Ownership::Borrowed.deletes_on_teardown());
}
